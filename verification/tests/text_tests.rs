use youtube_search_api::text::{blank, chars_of, parse_count, same_text, trim, write_count};

#[test]
fn trim_removes_white_space_at_both_ends() {
    assert_eq!(trim("  a b \n"), "a b");
    assert_eq!(trim("\t{\"result\": 1}\r\n"), "{\"result\": 1}");
    assert_eq!(trim("plain"), "plain");
}

#[test]
fn trim_of_only_white_space_is_empty() {
    assert_eq!(trim(""), "");
    assert_eq!(trim(" \t\r\n "), "");
}

#[test]
fn trim_knows_the_wide_spaces() {
    assert_eq!(trim("\u{3000}\u{a0}x\u{2003}\u{85}"), "x");
    assert_eq!(trim("\u{200b}x"), "\u{200b}x");
}

#[test]
fn trim_agrees_with_the_standard_library() {
    for s in ["", " ", "a", " a", "a ", " a b ", "\u{1680}a\u{2028}", "\n\n한글 \u{202f}"] {
        assert_eq!(trim(s), s.trim());
    }
}

#[test]
fn blank_agrees_with_the_standard_library() {
    for code in 0u32..0x3100 {
        if let Some(c) = char::from_u32(code) {
            assert_eq!(blank(c), c.is_whitespace(), "U+{:04X}", code);
        }
    }
}

#[test]
fn chars_of_keeps_every_character() {
    assert_eq!(chars_of("a한b"), vec!['a', '한', 'b']);
    assert_eq!(chars_of(""), Vec::<char>::new());
}

#[test]
fn same_text_compares_contents() {
    assert!(same_text("result", "result"));
    assert!(!same_text("result", "results"));
    assert!(!same_text("result", "resulT"));
    assert!(same_text("", ""));
}

#[test]
fn parse_count_reads_decimal_numerals() {
    assert_eq!(parse_count("12345"), Some(12345));
    assert_eq!(parse_count("0"), Some(0));
    assert_eq!(parse_count("007"), Some(7));
    assert_eq!(parse_count("18446744073709551615"), Some(u64::MAX));
}

#[test]
fn parse_count_gives_nothing_for_anything_else() {
    assert_eq!(parse_count(""), None);
    assert_eq!(parse_count("12a"), None);
    assert_eq!(parse_count("+5"), None);
    assert_eq!(parse_count("-5"), None);
    assert_eq!(parse_count(" 5"), None);
    assert_eq!(parse_count("1.5"), None);
    assert_eq!(parse_count("١٢"), None);
    assert_eq!(parse_count("18446744073709551616"), None);
    assert_eq!(parse_count("99999999999999999999999"), None);
}

#[test]
fn write_count_writes_decimal_numerals() {
    assert_eq!(write_count(0), "0");
    assert_eq!(write_count(7), "7");
    assert_eq!(write_count(500), "500");
    assert_eq!(write_count(u64::MAX), "18446744073709551615");
}

#[test]
fn a_written_count_reads_back() {
    for n in [0u64, 1, 9, 10, 99, 100, 404, 65535, u64::MAX] {
        assert_eq!(parse_count(&write_count(n)), Some(n));
    }
}
