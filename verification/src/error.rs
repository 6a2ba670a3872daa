//! The failures of request handling as a whole.

use crate::http;
use vstd::prelude::*;
use vstd::std_specs::convert::FromSpecImpl;

verus! {

/// `std::io::Error`, which this crate carries through without looking inside.
#[verifier::external_type_specification]
#[verifier::external_body]
pub struct ExIoError(std::io::Error);

/// The text that `std::io::Error`'s implementation of `Debug` gives for
/// `e`. Nothing is claimed of that text.
#[verifier::external_body]
pub(crate) fn io_error_text(e: &std::io::Error) -> String {
    format!("{:?}", e)
}

/// Why a request got no response.
#[derive(Debug)]
pub enum Error {
    /// The path of the request holds no `/`, so there is no segment to route by.
    InvalidRequest,
    /// The target of the request is no usable URL.
    InvalidURL,
    /// Reading or writing failed.
    Io(std::io::Error),
    /// The request could not be parsed.
    Http(http::Error),
}

impl Error {
    /// The error as text: the name of the variant and, in brackets behind
    /// the name, what it carries.
    pub fn to_string(&self) -> (s: String)
        ensures
            match self {
                Error::InvalidRequest => s@ == "InvalidRequest"@,
                Error::InvalidURL => s@ == "InvalidURL"@,
                Error::Io(_) => exists|inner: Seq<char>| s@ == "Io("@ + inner + ")"@,
                Error::Http(http::Error::Io(_)) => exists|inner: Seq<char>|
                    s@ == "Http("@ + ("Io("@ + inner + ")"@) + ")"@,
                Error::Http(e) => s@ == "Http("@ + e.kind().text() + ")"@,
            },
    {
        match self {
            Error::InvalidRequest => "InvalidRequest".to_owned(),
            Error::InvalidURL => "InvalidURL".to_owned(),
            Error::Io(e) => {
                let inner: String = io_error_text(e);
                let mut s: String = "Io(".to_owned();
                s.append(inner.as_str());
                s.append(")");
                s
            },
            Error::Http(e) => {
                let inner: String = e.to_string();
                let mut s: String = "Http(".to_owned();
                s.append(inner.as_str());
                s.append(")");
                s
            },
        }
    }
}

impl From<http::error::Error> for Error {
    fn from(v: http::error::Error) -> (e: Self) {
        Error::Http(v)
    }
}

impl FromSpecImpl<http::error::Error> for Error {
    open spec fn obeys_from_spec() -> bool {
        true
    }

    open spec fn from_spec(v: http::error::Error) -> Self {
        Error::Http(v)
    }
}

impl From<std::io::Error> for Error {
    fn from(v: std::io::Error) -> (e: Self) {
        Error::Io(v)
    }
}

impl FromSpecImpl<std::io::Error> for Error {
    open spec fn obeys_from_spec() -> bool {
        true
    }

    open spec fn from_spec(v: std::io::Error) -> Self {
        Error::Io(v)
    }
}

} // verus!
