//! One step of a connection: from what a read from the socket gave to what
//! the connection does next. The caller owns the socket and runs the loop.

use crate::config::Config;
use crate::error::Error;
use crate::http::handlers::{action_for, handle_request, Action, ActionView};
use crate::http::request::{parse, text_of, Request};
use vstd::prelude::*;

verus! {

/// What a connection does after a read, as contracts speak of it.
pub enum StepView {
    /// The peer has closed: the connection ends.
    Close,
    /// The request asks for this.
    Act(ActionView),
    /// The buffer holds no request that can be parsed: the connection
    /// ends without a response.
    Unparsed(crate::http::error::ErrorKind),
    /// The path of the request holds no slash: the connection ends
    /// without a response.
    Unroutable,
}

/// What a connection does after a read of `bytes_read` bytes into `buf`.
/// A read of nothing means that the peer has closed. Otherwise the whole
/// buffer is parsed, the NUL bytes behind what was read included.
pub open spec fn step_for(buf: Seq<u8>, bytes_read: usize, directory: Option<Seq<char>>) -> StepView {
    if bytes_read == 0 {
        StepView::Close
    } else {
        match parse(buf) {
            Err(kind) => StepView::Unparsed(kind),
            Ok(request) => match action_for(request, directory) {
                None => StepView::Unroutable,
                Some(action) => StepView::Act(action),
            },
        }
    }
}

/// Decides what the connection does after a read of `bytes_read` bytes
/// into `buf`: `Ok(None)` where the peer has closed, the action that the
/// request in `buf` asks for, or the error that ends the connection.
pub fn on_read(buf: &[u8], bytes_read: usize, config: &Config) -> (r: Result<Option<Action>, Error>)
    ensures
        match step_for(buf@, bytes_read, text_of(config.DIRECTORY)) {
            StepView::Close => r matches Ok(None),
            StepView::Act(expected) => r matches Ok(Some(action)) && action@ == expected,
            StepView::Unparsed(kind) => r matches Err(Error::Http(e)) && e.kind() == kind,
            StepView::Unroutable => r matches Err(Error::InvalidRequest),
        },
{
    if bytes_read == 0 {
        return Ok(None);
    }
    let request = match Request::parse_from_bytes(buf) {
        Ok(request) => request,
        Err(e) => {
            return Err(Error::Http(e));
        },
    };
    match handle_request(request, config) {
        Ok(action) => Ok(Some(action)),
        Err(e) => Err(e),
    }
}

} // verus!
