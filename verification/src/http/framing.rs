//! How text becomes lines of bytes: facts about UTF-8 and line ends that
//! connect the wire text of a request with what the line reader yields.

use crate::http::lines::{after_line, line_bytes, line_len, CARRIAGE_RETURN, LINE_FEED};
use vstd::prelude::*;
use vstd::utf8::{
    char_u32_cast, decode_utf8, encode_scalar, encode_utf8, encode_utf8_decode_utf8, encode_utf8_valid_utf8,
    has_width_1_encoding, last_continuation_byte, leading_byte_width_1, leading_byte_width_2,
    leading_byte_width_3, leading_byte_width_4, second_last_continuation_byte,
    third_last_continuation_byte, valid_utf8,
};

verus! {

/// Whether `text` holds no line feed.
pub open spec fn single_line(text: Seq<char>) -> bool {
    forall|i: int| 0 <= i < text.len() ==> text[i] != '\n'
}

/// `n` NUL characters.
pub open spec fn nuls(n: nat) -> Seq<char> {
    Seq::new(n, |i: int| '\0')
}

/// `n` zero bytes.
pub open spec fn zeros(n: nat) -> Seq<u8> {
    Seq::new(n, |i: int| 0u8)
}

/// The one byte of a one-byte encoding is the value itself.
proof fn lemma_low_scalar(c: u32)
    by (bit_vector)
    requires
        has_width_1_encoding(c),
    ensures
        leading_byte_width_1(c) == c,
{
}

/// The bytes of an encoding of several bytes are all 128 or more.
proof fn lemma_high_scalar(c: u32)
    by (bit_vector)
    ensures
        leading_byte_width_2(c) >= 0x80,
        leading_byte_width_3(c) >= 0x80,
        leading_byte_width_4(c) >= 0x80,
        last_continuation_byte(c) >= 0x80,
        second_last_continuation_byte(c) >= 0x80,
        third_last_continuation_byte(c) >= 0x80,
{
}

/// A character below 128 is encoded as the one byte of its value, and every
/// byte of the encoding of any other character is 128 or more.
pub proof fn lemma_scalar_bytes(c: char)
    ensures
        (c as u32) < 0x80 ==> encode_scalar(c as u32).len() == 1 && encode_scalar(c as u32)[0]
            == c as u32,
        (c as u32) >= 0x80 ==> forall|k: int|
            0 <= k < encode_scalar(c as u32).len() ==> #[trigger] encode_scalar(c as u32)[k]
                >= 0x80,
        1 <= encode_scalar(c as u32).len() <= 4,
{
    let u = c as u32;
    if u < 0x80 {
        lemma_low_scalar(u);
    } else {
        lemma_high_scalar(u);
    }
}

/// The encoding of a text is the encoding of its first part followed by
/// that of the rest.
pub proof fn lemma_encode_concat(a: Seq<char>, b: Seq<char>)
    ensures
        encode_utf8(a + b) == encode_utf8(a) + encode_utf8(b),
    decreases a.len(),
{
    if a.len() == 0 {
        assert(a + b =~= b);
        assert(encode_utf8(a) + encode_utf8(b) =~= encode_utf8(b));
    } else {
        lemma_encode_concat(a.drop_first(), b);
        assert((a + b).drop_first() =~= a.drop_first() + b);
        assert((a + b)[0] == a[0]);
        assert(encode_utf8(a + b) =~= encode_utf8(a) + encode_utf8(b));
    }
}

/// The encoding of a text without a line feed holds no line-feed byte.
pub proof fn lemma_single_line_bytes(text: Seq<char>)
    requires
        single_line(text),
    ensures
        forall|k: int|
            0 <= k < encode_utf8(text).len() ==> #[trigger] encode_utf8(text)[k] != LINE_FEED,
    decreases text.len(),
{
    if text.len() > 0 {
        lemma_scalar_bytes(text[0]);
        lemma_single_line_bytes(text.drop_first());
        let head = encode_scalar(text[0] as u32);
        let tail = encode_utf8(text.drop_first());
        assert(encode_utf8(text) == head + tail);
        assert forall|k: int| 0 <= k < encode_utf8(text).len() implies #[trigger] encode_utf8(
            text,
        )[k] != LINE_FEED by {
            if k < head.len() {
                assert(encode_utf8(text)[k] == head[k]);
                if (text[0] as u32) < 0x80 {
                    assert(head[k] == text[0] as u32);
                    if text[0] as u32 == 0x0a {
                        char_u32_cast(text[0], 0x0au32);
                        char_u32_cast('\n', 0x0au32);
                    }
                    assert(text[0] as u32 != 0x0a);
                    assert(head[k] != LINE_FEED);
                } else {
                    assert(head[k] >= 0x80);
                }
            } else {
                assert(encode_utf8(text)[k] == tail[k - head.len()]);
                assert(tail[k - head.len()] != LINE_FEED);
            }
        }
    }
}

/// NUL characters are encoded as zero bytes.
pub proof fn lemma_encode_nuls(n: nat)
    ensures
        encode_utf8(nuls(n)) == zeros(n),
    decreases n,
{
    if n == 0 {
        assert(encode_utf8(nuls(n)) =~= zeros(n));
    } else {
        lemma_encode_nuls((n - 1) as nat);
        lemma_scalar_bytes('\0');
        assert(nuls(n).drop_first() =~= nuls((n - 1) as nat));
        assert(encode_utf8(nuls(n)) =~= zeros(n));
    }
}

/// A first part without a line-feed byte belongs to the first line whole.
pub proof fn lemma_line_len_concat(a: Seq<u8>, b: Seq<u8>)
    requires
        forall|k: int| 0 <= k < a.len() ==> #[trigger] a[k] != LINE_FEED,
    ensures
        line_len(a + b) == a.len() + line_len(b),
    decreases a.len(),
{
    if a.len() == 0 {
        assert(a + b =~= b);
    } else {
        lemma_line_len_concat(a.drop_first(), b);
        assert((a + b).drop_first() =~= a.drop_first() + b);
        assert((a + b)[0] == a[0]);
    }
}

/// Of the encoding of `text`, a line end and `rest`, the line reader yields
/// `text` and leaves the encoding of `rest`.
pub proof fn lemma_first_line(text: Seq<char>, rest: Seq<char>)
    requires
        single_line(text),
    ensures
        encode_utf8(text + "\r\n"@ + rest).len() > 0,
        line_bytes(encode_utf8(text + "\r\n"@ + rest)) == encode_utf8(text),
        after_line(encode_utf8(text + "\r\n"@ + rest)) == encode_utf8(rest),
        valid_utf8(line_bytes(encode_utf8(text + "\r\n"@ + rest))),
        decode_utf8(line_bytes(encode_utf8(text + "\r\n"@ + rest))) == text,
{
    reveal_strlit("\r\n");
    let end = "\r\n"@;
    assert(end =~= seq!['\r', '\n']);
    let input = encode_utf8(text + end + rest);
    let head = encode_utf8(text);
    let tail = encode_utf8(rest);
    let eol = seq![CARRIAGE_RETURN, LINE_FEED];
    assert(encode_utf8(end) == eol) by {
        lemma_scalar_bytes('\r');
        lemma_scalar_bytes('\n');
        reveal_with_fuel(encode_utf8, 3);
        assert(end.drop_first() =~= seq!['\n']);
        assert(end.drop_first().drop_first() =~= Seq::<char>::empty());
        assert(encode_utf8(end) =~= eol);
    }
    assert(input == head + eol + tail) by {
        lemma_encode_concat(text + end, rest);
        lemma_encode_concat(text, end);
    }
    lemma_single_line_bytes(text);
    assert(input =~= head + (eol + tail));
    lemma_line_len_concat(head, eol + tail);
    assert(line_len(eol + tail) == 2) by {
        reveal_with_fuel(line_len, 3);
        assert((eol + tail)[0] == CARRIAGE_RETURN);
        assert((eol + tail).drop_first()[0] == LINE_FEED);
    }
    let n: int = head.len() as int + 2;
    assert(line_len(input) == n);
    assert(input.take(n) =~= head + eol);
    assert(input.take(n).drop_last() =~= head.push(CARRIAGE_RETURN));
    assert(head.push(CARRIAGE_RETURN).drop_last() =~= head);
    assert(line_bytes(input) == head);
    assert(input.skip(n) =~= tail);
    encode_utf8_valid_utf8(text);
    encode_utf8_decode_utf8(text);
}

/// Of the encoding of a text without a line feed, the line reader yields
/// that text and leaves nothing.
pub proof fn lemma_last_line(text: Seq<char>)
    requires
        single_line(text),
    ensures
        line_bytes(encode_utf8(text)) == encode_utf8(text),
        after_line(encode_utf8(text)) == Seq::<u8>::empty(),
        valid_utf8(line_bytes(encode_utf8(text))),
        decode_utf8(line_bytes(encode_utf8(text))) == text,
        text.len() > 0 ==> encode_utf8(text).len() > 0,
{
    let input = encode_utf8(text);
    lemma_single_line_bytes(text);
    lemma_line_len_concat(input, Seq::<u8>::empty());
    assert(input + Seq::<u8>::empty() =~= input);
    assert(line_len(input) == input.len());
    assert(input.take(input.len() as int) =~= input);
    assert(input.skip(input.len() as int) =~= Seq::<u8>::empty());
    encode_utf8_valid_utf8(text);
    encode_utf8_decode_utf8(text);
    if text.len() > 0 {
        lemma_scalar_bytes(text[0]);
    }
}

} // verus!
