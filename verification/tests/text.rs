use http_server::text::{
    begins_with, chars_of, is_space_char, range_is, scan_separator, scan_spaces, scan_trim_end,
    scan_word,
};

#[test]
fn white_space_is_what_unicode_says() {
    for code in 0..=0x10ffffu32 {
        if let Some(c) = char::from_u32(code) {
            assert_eq!(is_space_char(c), c.is_whitespace(), "U+{:04X}", code);
        }
    }
}

#[test]
fn characters_are_taken_one_by_one() {
    assert_eq!(chars_of(""), Vec::<char>::new());
    assert_eq!(chars_of("a\u{e9}\u{1f600}"), vec!['a', '\u{e9}', '\u{1f600}']);
}

#[test]
fn scanning_finds_the_bounds_of_tokens() {
    let line = chars_of("  GET \t /path  ");
    assert_eq!(scan_spaces(&line, 0), 2);
    assert_eq!(scan_word(&line, 2), 5);
    assert_eq!(scan_spaces(&line, 5), 8);
    assert_eq!(scan_word(&line, 8), 13);
    assert_eq!(scan_spaces(&line, 13), 15);
    assert_eq!(scan_word(&line, 15), 15);
    assert_eq!(scan_spaces(&line, 3), 3);
}

#[test]
fn trimming_leaves_off_every_trailing_occurrence() {
    let line = chars_of("Host:::");
    assert_eq!(scan_trim_end(&line, 0, 7, ':'), 4);
    assert_eq!(scan_trim_end(&line, 0, 4, ':'), 4);
    assert_eq!(scan_trim_end(&line, 5, 7, ':'), 5);
    assert_eq!(scan_trim_end(&chars_of(":a:"), 0, 3, ':'), 2);
}

#[test]
fn separator_is_colon_then_space() {
    assert!(scan_separator(&chars_of("a: b")));
    assert!(scan_separator(&chars_of("x y: ")));
    assert!(!scan_separator(&chars_of("a:b")));
    assert!(!scan_separator(&chars_of("a :b")));
    assert!(!scan_separator(&chars_of(":")));
    assert!(!scan_separator(&chars_of("")));
}

#[test]
fn prefixes_and_ranges_are_compared_by_character() {
    let line = chars_of("DELETE /x");
    assert!(begins_with(&line, &chars_of("DELETE")));
    assert!(begins_with(&line, &chars_of("")));
    assert!(!begins_with(&line, &chars_of("DELETE /x ")));
    assert!(!begins_with(&line, &chars_of("GET")));
    assert!(range_is(&line, 7, 9, &chars_of("/x")));
    assert!(!range_is(&line, 7, 9, &chars_of("/y")));
    assert!(!range_is(&line, 7, 9, &chars_of("/")));
    assert!(range_is(&line, 3, 3, &chars_of("")));
}
