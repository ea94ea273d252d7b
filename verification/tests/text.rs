use cosmic_nightlight::scan::{
    contains_text, fields_of, lines_of, position_of, strip_prefix, text_after,
};
use cosmic_nightlight::text::{
    chars_of, decimal_text, parse_number, parse_u32, same_text, trimmed, two_digit_text, words_of,
};

#[test]
fn numbers_are_spelled_and_read_back() {
    for n in [0, 7, 10, 99, 100, 4_294_967_295, u64::MAX] {
        assert_eq!(decimal_text(n), n.to_string());
        assert_eq!(parse_number(&decimal_text(n), u64::MAX), Some(n));
    }
    assert_eq!(two_digit_text(0), "00");
    assert_eq!(two_digit_text(7), "07");
    assert_eq!(two_digit_text(59), "59");
}

#[test]
fn numbers_are_read_as_the_standard_library_reads_them() {
    for text in [
        "", "+", "-", "+5", "-5", "007", "5 ", " 5", "4294967295", "4294967296", "1_000", "٣",
        "99999999999999999999999",
    ] {
        assert_eq!(parse_u32(text), text.parse::<u32>().ok(), "{text:?}");
        assert_eq!(parse_number(text, u64::MAX), text.parse::<u64>().ok(), "{text:?}");
    }
}

#[test]
fn text_is_trimmed_and_split_as_the_standard_library_does() {
    for text in [
        "",
        " ",
        "a",
        " a b ",
        "\u{a0}a\u{2003}b\u{3000}",
        "a\tb\nc\r\nd",
        "\u{85}x\u{200b}",
    ] {
        assert_eq!(trimmed(text), text.trim(), "{text:?}");
        assert_eq!(
            words_of(text),
            text.split_whitespace().collect::<Vec<_>>(),
            "{text:?}"
        );
    }
}

#[test]
fn lines_and_fields_are_cut_as_the_standard_library_cuts_them() {
    for text in [
        "", "\n", "a", "a\n", "a\nb", "a\r\nb\r\n", "a\rb\r", "\n\na", "\r\n", "a\n\r", "ä\tö\n",
    ] {
        assert_eq!(lines_of(text), text.lines().collect::<Vec<_>>(), "{text:?}");
    }
    for text in ["", "\t", "a", "a\tb", "a\t\tb\t", "ä\tö"] {
        assert_eq!(
            fields_of(text, '\t'),
            text.split('\t').collect::<Vec<_>>(),
            "{text:?}"
        );
    }
}

#[test]
fn parts_are_found_where_they_first_occur() {
    for (whole, part) in [
        ("", ""),
        ("abc", ""),
        ("abcabc", "bc"),
        ("aaab", "aab"),
        ("zoneinfo", "x"),
        ("ab", "abc"),
        ("ä/zoneinfo/é/zoneinfo/", "/zoneinfo/"),
    ] {
        assert_eq!(contains_text(whole, part), whole.contains(part));
        assert_eq!(
            text_after(whole, part),
            whole.split_once(part).map(|(_, rest)| rest),
            "{whole:?} {part:?}"
        );
        assert_eq!(strip_prefix(whole, part), whole.strip_prefix(part));
    }
    // In characters, not bytes.
    assert_eq!(position_of("ääb", "b"), Some(2));
    assert_eq!(chars_of("äb"), ['ä', 'b']);
    assert!(same_text("äb", "äb"));
    assert!(!same_text("äb", "äbc"));
    assert!(!same_text("a", "b"));
}
