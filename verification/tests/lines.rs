use http_server::http::lines::next_line;

fn line_of(input: &[u8]) -> (Option<String>, Vec<u8>) {
    let (line, rest) = next_line(input);
    (line.unwrap(), rest.to_vec())
}

#[test]
fn an_empty_buffer_has_no_line() {
    assert_eq!(line_of(b""), (None, b"".to_vec()));
}

#[test]
fn a_line_ends_at_its_line_feed() {
    assert_eq!(line_of(b"one\ntwo\n"), (Some("one".to_string()), b"two\n".to_vec()));
    assert_eq!(line_of(b"one\r\ntwo"), (Some("one".to_string()), b"two".to_vec()));
    assert_eq!(line_of(b"\r\nrest"), (Some("".to_string()), b"rest".to_vec()));
    assert_eq!(line_of(b"\n"), (Some("".to_string()), b"".to_vec()));
}

#[test]
fn the_last_line_needs_no_line_feed() {
    assert_eq!(line_of(b"tail"), (Some("tail".to_string()), b"".to_vec()));
    assert_eq!(line_of(b"tail\r"), (Some("tail\r".to_string()), b"".to_vec()));
    assert_eq!(line_of(b"\0\0\0"), (Some("\0\0\0".to_string()), b"".to_vec()));
}

#[test]
fn one_carriage_return_goes_with_the_line_feed() {
    assert_eq!(line_of(b"a\r\r\nb"), (Some("a\r".to_string()), b"b".to_vec()));
    assert_eq!(line_of(b"a\rb\nc"), (Some("a\rb".to_string()), b"c".to_vec()));
}

#[test]
fn multi_byte_characters_are_decoded() {
    let text = "gr\u{fc}\u{df}e \u{4e16}\u{754c} \u{1f600}\r\nnext";
    assert_eq!(
        line_of(text.as_bytes()),
        (Some("gr\u{fc}\u{df}e \u{4e16}\u{754c} \u{1f600}".to_string()), b"next".to_vec())
    );
}

#[test]
fn a_line_that_is_not_utf8_is_an_error_and_is_consumed() {
    for bad in [&b"\xff"[..], b"\xc3", b"\xc0\x80", b"\xed\xa0\x80", b"\xf4\x90\x80\x80", b"a\x80b"] {
        let mut input = bad.to_vec();
        input.extend_from_slice(b"\r\nnext\n");
        let (line, rest) = next_line(&input);
        assert_eq!(line.unwrap_err().kind(), std::io::ErrorKind::InvalidData);
        assert_eq!(rest, b"next\n");
    }
}

#[test]
fn lines_come_one_after_another() {
    let mut rest: &[u8] = b"a\r\n\r\nb\nc";
    let mut lines = Vec::new();
    loop {
        let (line, next) = next_line(rest);
        match line.unwrap() {
            Some(line) => lines.push(line),
            None => break,
        }
        rest = next;
    }
    assert_eq!(lines, vec!["a", "", "b", "c"]);
}
