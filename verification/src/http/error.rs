//! The failures of the request parser.

use crate::error::io_error_text;
use vstd::prelude::*;
use vstd::std_specs::convert::FromSpecImpl;

verus! {

/// Why a byte buffer could not be read as a request.
#[derive(Debug)]
pub enum Error {
    /// A line is none of the shapes that the parser accepts.
    InvalidRequest,
    /// The request line names a method other than GET, PUT, POST and DELETE.
    MethodNotSupported,
    /// The request line holds no token at all.
    MethodWasNotReadCorrectly,
    /// A header line holds no token from which a name could be taken.
    CanNotParseHeader,
    /// No request line gave a path.
    NoUrl,
    /// The byte source failed, or a line was not UTF-8.
    Io(std::io::Error),
}

/// The variant of an [`Error`], without what it carries.
#[derive(Debug, Clone, Copy, PartialEq, Eq, Structural)]
pub enum ErrorKind {
    InvalidRequest,
    MethodNotSupported,
    MethodWasNotReadCorrectly,
    CanNotParseHeader,
    NoUrl,
    Io,
}

impl ErrorKind {
    /// The name of the variant.
    pub open spec fn text(self) -> Seq<char> {
        match self {
            ErrorKind::InvalidRequest => "InvalidRequest"@,
            ErrorKind::MethodNotSupported => "MethodNotSupported"@,
            ErrorKind::MethodWasNotReadCorrectly => "MethodWasNotReadCorrectly"@,
            ErrorKind::CanNotParseHeader => "CanNotParseHeader"@,
            ErrorKind::NoUrl => "NoUrl"@,
            ErrorKind::Io => "Io"@,
        }
    }
}

impl Error {
    /// The error as text: the name of the variant and, of an I/O error,
    /// what it carries, in brackets behind the name.
    pub fn to_string(&self) -> (s: String)
        ensures
            match self {
                Error::Io(_) => exists|inner: Seq<char>| s@ == "Io("@ + inner + ")"@,
                _ => s@ == self.kind().text(),
            },
    {
        match self {
            Error::InvalidRequest => "InvalidRequest".to_owned(),
            Error::MethodNotSupported => "MethodNotSupported".to_owned(),
            Error::MethodWasNotReadCorrectly => "MethodWasNotReadCorrectly".to_owned(),
            Error::CanNotParseHeader => "CanNotParseHeader".to_owned(),
            Error::NoUrl => "NoUrl".to_owned(),
            Error::Io(e) => {
                let inner: String = io_error_text(e);
                let mut s: String = "Io(".to_owned();
                s.append(inner.as_str());
                s.append(")");
                s
            },
        }
    }

    /// The variant of this error.
    pub open spec fn spec_kind(&self) -> ErrorKind {
        match self {
            Error::InvalidRequest => ErrorKind::InvalidRequest,
            Error::MethodNotSupported => ErrorKind::MethodNotSupported,
            Error::MethodWasNotReadCorrectly => ErrorKind::MethodWasNotReadCorrectly,
            Error::CanNotParseHeader => ErrorKind::CanNotParseHeader,
            Error::NoUrl => ErrorKind::NoUrl,
            Error::Io(_) => ErrorKind::Io,
        }
    }

    /// The variant of this error.
    #[verifier::when_used_as_spec(spec_kind)]
    pub fn kind(&self) -> (k: ErrorKind)
        ensures
            k == self.spec_kind(),
    {
        match self {
            Error::InvalidRequest => ErrorKind::InvalidRequest,
            Error::MethodNotSupported => ErrorKind::MethodNotSupported,
            Error::MethodWasNotReadCorrectly => ErrorKind::MethodWasNotReadCorrectly,
            Error::CanNotParseHeader => ErrorKind::CanNotParseHeader,
            Error::NoUrl => ErrorKind::NoUrl,
            Error::Io(_) => ErrorKind::Io,
        }
    }
}

impl From<std::io::Error> for Error {
    fn from(v: std::io::Error) -> (e: Self) {
        Error::Io(v)
    }
}

impl FromSpecImpl<std::io::Error> for Error {
    open spec fn obeys_from_spec() -> bool {
        true
    }

    open spec fn from_spec(v: std::io::Error) -> Self {
        Error::Io(v)
    }
}

} // verus!
