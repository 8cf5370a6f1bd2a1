use dcamctl::text::{
    char_is_whitespace, decimal_string, index_of_char, index_of_pair, parse_number, push_decimal,
    str_eq, trim,
};

#[test]
fn reads_unsigned_numbers() {
    assert_eq!(parse_number("0", 10), Some(0));
    assert_eq!(parse_number("42", 100), Some(42));
    assert_eq!(parse_number("+42", 100), Some(42));
    assert_eq!(parse_number("007", 100), Some(7));
    assert_eq!(parse_number("100", 100), Some(100));
    assert_eq!(parse_number("4294967295", u32::MAX), Some(u32::MAX));
}

#[test]
fn rejects_what_is_no_number() {
    assert_eq!(parse_number("", 100), None);
    assert_eq!(parse_number("+", 100), None);
    assert_eq!(parse_number("-", 100), None);
    assert_eq!(parse_number("-5", 100), None);
    assert_eq!(parse_number("++5", 100), None);
    assert_eq!(parse_number("5+", 100), None);
    assert_eq!(parse_number("1 2", 100), None);
    assert_eq!(parse_number("12a", 100), None);
    assert_eq!(parse_number("٣", 100), None);
}

#[test]
fn rejects_numbers_above_the_limit() {
    assert_eq!(parse_number("101", 100), None);
    assert_eq!(parse_number("65536", 65535), None);
    assert_eq!(parse_number("4294967296", u32::MAX), None);
    assert_eq!(parse_number("99999999999999999999999999", u32::MAX), None);
    assert_eq!(parse_number("1000000000000a", u32::MAX), None);
}

#[test]
fn agrees_with_the_standard_parser() {
    for text in ["0", "9", "10", "65535", "65536", "+1", "+", "", "-0", "00", "1x", " 1", "١"] {
        assert_eq!(parse_number(text, 65535), text.parse::<u16>().ok().map(u32::from));
    }
}

#[test]
fn writes_numbers_in_decimal() {
    assert_eq!(decimal_string(0), "0");
    assert_eq!(decimal_string(7), "7");
    assert_eq!(decimal_string(10), "10");
    assert_eq!(decimal_string(8080), "8080");
    assert_eq!(decimal_string(4294967295), "4294967295");
    assert_eq!(decimal_string(u64::MAX), "18446744073709551615");
}

#[test]
fn appends_numbers_to_a_text() {
    let mut text = String::from("port ");
    push_decimal(&mut text, 8080);
    assert_eq!(text, "port 8080");
    push_decimal(&mut text, 0);
    assert_eq!(text, "port 80800");
}

#[test]
fn writes_single_digits() {
    for (digit, text) in ["0", "1", "2", "3", "4", "5", "6", "7", "8", "9"].iter().enumerate() {
        assert_eq!(decimal_string(digit as u64), *text);
    }
}

#[test]
fn written_numbers_read_back() {
    for n in [0u32, 1, 9, 10, 11, 99, 100, 12345, 65535, 65536, u32::MAX] {
        assert_eq!(parse_number(&decimal_string(u64::from(n)), u32::MAX), Some(n));
    }
}

#[test]
fn compares_texts() {
    assert!(str_eq("", ""));
    assert!(str_eq("auto", "auto"));
    assert!(!str_eq("auto", "Auto"));
    assert!(!str_eq("auto", "aut"));
    assert!(!str_eq("aut", "auto"));
    assert!(str_eq("één", "één"));
    assert!(!str_eq("één", "een"));
}

#[test]
fn finds_a_character() {
    assert_eq!(index_of_char("640x480", 'x', 0), 3);
    assert_eq!(index_of_char("640x480", 'x', 3), 3);
    assert_eq!(index_of_char("640x480", 'x', 4), 7);
    assert_eq!(index_of_char("640", 'x', 0), 3);
    assert_eq!(index_of_char("", 'x', 0), 0);
    assert_eq!(index_of_char("xx", 'x', 1), 1);
    assert_eq!(index_of_char("ééx", 'x', 0), 2);
    assert_eq!(index_of_char("abc", 'a', 7), 3);
}

#[test]
fn finds_a_pair_of_characters() {
    assert_eq!(index_of_pair("Server Name: pulse", ':', ' ', 0), 11);
    assert_eq!(index_of_pair("a: b: c", ':', ' ', 0), 1);
    assert_eq!(index_of_pair("a: b: c", ':', ' ', 3), 4);
    assert_eq!(index_of_pair("a: b: c", ':', ' ', 6), 7);
    assert_eq!(index_of_pair("a:b", ':', ' ', 0), 3);
    assert_eq!(index_of_pair("a:", ':', ' ', 0), 2);
    assert_eq!(index_of_pair("", ':', ' ', 0), 0);
    assert_eq!(index_of_pair(": ", ':', ' ', 0), 0);
    assert_eq!(index_of_pair(": ", ':', ' ', 9), 2);
}

#[test]
fn trims_white_space() {
    assert_eq!(trim("  42\n"), "42");
    assert_eq!(trim("42"), "42");
    assert_eq!(trim(""), "");
    assert_eq!(trim(" \t\r\n"), "");
    assert_eq!(trim("a b"), "a b");
    assert_eq!(trim("\u{a0}7\u{3000}"), "7");
    assert_eq!(trim(" x"), "x");
    assert_eq!(trim("x "), "x");
}

#[test]
fn trims_as_the_standard_library_does() {
    for text in ["", " ", "12\n", "\t a \u{2003}", "\u{85}b\u{2028}", "\u{200b}c", "\u{1680}d\u{205f}"] {
        assert_eq!(trim(text), text.trim());
    }
}

#[test]
fn knows_white_space() {
    for c in ['\t', '\n', '\u{b}', '\u{c}', '\r', ' ', '\u{85}', '\u{a0}', '\u{1680}', '\u{2000}', '\u{200a}', '\u{2028}', '\u{2029}', '\u{202f}', '\u{205f}', '\u{3000}', 'a', '0', '\u{200b}', '\u{8}', '\u{e}', '\u{1f}', '\u{2007}', '\u{feff}'] {
        assert_eq!(char_is_whitespace(c), c.is_whitespace());
    }
}
