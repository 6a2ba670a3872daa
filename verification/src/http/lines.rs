//! Lines of a byte buffer, read with tokio's line reader.

use vstd::prelude::*;
use vstd::utf8::{decode_utf8, valid_utf8};

verus! {

/// The byte that ends a line.
pub const LINE_FEED: u8 = 0x0a;

/// The byte that may stand before the line feed and belongs to the line's end.
pub const CARRIAGE_RETURN: u8 = 0x0d;

/// How many bytes the first line of `input` takes: up to and including the
/// first line feed, or all of `input` where it holds none.
pub open spec fn line_len(input: Seq<u8>) -> int
    decreases input.len(),
{
    if input.len() == 0 {
        0
    } else if input[0] == LINE_FEED {
        1
    } else {
        1 + line_len(input.drop_first())
    }
}

/// The first line of `input` without its end: without the line feed, and
/// without a carriage return directly before that line feed.
pub open spec fn line_bytes(input: Seq<u8>) -> Seq<u8> {
    let raw = input.take(line_len(input));
    if raw.len() > 0 && raw.last() == LINE_FEED {
        let cut = raw.drop_last();
        if cut.len() > 0 && cut.last() == CARRIAGE_RETURN {
            cut.drop_last()
        } else {
            cut
        }
    } else {
        raw
    }
}

/// What follows the first line of `input`.
pub open spec fn after_line(input: Seq<u8>) -> Seq<u8> {
    input.skip(line_len(input))
}

/// Whether `got` is what reading the first line of `input` gives: no line
/// of an empty buffer, the decoded line where its bytes are UTF-8, and an
/// error where they are not.
pub open spec fn reads_first_line(input: Seq<u8>, got: Result<Option<String>, std::io::Error>) -> bool {
    match got {
        Ok(None) => input.len() == 0,
        Ok(Some(line)) => {
            &&& input.len() > 0
            &&& valid_utf8(line_bytes(input))
            &&& line@ == decode_utf8(line_bytes(input))
        },
        Err(_) => input.len() > 0 && !valid_utf8(line_bytes(input)),
    }
}

/// Whether `polled` is a result at hand, and is what reading the first
/// line of `input` gives.
pub open spec fn is_ready_line(
    input: Seq<u8>,
    polled: Option<Result<Option<String>, std::io::Error>>,
) -> bool {
    match polled {
        Some(got) => reads_first_line(input, got),
        None => false,
    }
}

/// The first line takes at least one byte of a buffer that is not empty, and
/// never more than there are.
pub proof fn lemma_line_len_bounds(input: Seq<u8>)
    ensures
        0 <= line_len(input) <= input.len(),
        input.len() > 0 ==> line_len(input) >= 1,
    decreases input.len(),
{
    if input.len() > 0 && input[0] != LINE_FEED {
        lemma_line_len_bounds(input.drop_first());
    }
}

/// Polls `tokio::io::Lines::poll_next_line` once, on a fresh `Lines` over
/// `input`, and hands back what it gave, `None` standing for `Pending`,
/// together with what the reader has left of `input`.
///
/// The contract claims of tokio's reader over a byte slice: it is always
/// ready; on an empty slice it yields no line; otherwise it consumes the
/// bytes up to and including the first line feed (all of them where there
/// is none), drops that line feed and a carriage return before it, and
/// yields the rest as a `String` if it is UTF-8 and an error if it is not.
#[verifier::external_body]
fn poll_line<'a>(input: &'a [u8]) -> (r: (Option<Result<Option<String>, std::io::Error>>, &'a [u8]))
    ensures
        r.1@ == after_line(input@),
        is_ready_line(input@, r.0),
{
    let mut lines = tokio::io::AsyncBufReadExt::lines(input);
    let mut cx = std::task::Context::from_waker(std::task::Waker::noop());
    let polled = match std::pin::Pin::new(&mut lines).poll_next_line(&mut cx) {
        std::task::Poll::Ready(line) => Some(line),
        std::task::Poll::Pending => None,
    };
    (polled, lines.into_inner())
}

/// Reads the first line of `input`: the line, if there is one and it is
/// UTF-8, and what follows it.
pub fn next_line<'a>(input: &'a [u8]) -> (r: (Result<Option<String>, std::io::Error>, &'a [u8]))
    ensures
        r.1@ == after_line(input@),
        reads_first_line(input@, r.0),
{
    let (polled, rest) = poll_line(input);
    match polled {
        Some(line) => (line, rest),
        None => vstd::pervasive::unreached(),
    }
}

} // verus!
