use minilink::text::{
    chars_of, decimal_text, has_char, decimal_text_u64, is_space_char, remove_char, split_once,
    string_of_range, strip_prefix, trim,
};

#[test]
fn trim_removes_ascii_whitespace() {
    assert_eq!(trim("  hello world \t\r\n"), "hello world");
}

#[test]
fn trim_removes_unicode_whitespace() {
    assert_eq!(trim("\u{3000}\u{a0}x y\u{2028}\u{85}"), "x y");
}

#[test]
fn trim_of_only_whitespace_is_empty() {
    assert_eq!(trim(" \t \n "), "");
    assert_eq!(trim(""), "");
}

#[test]
fn trim_matches_std_trim() {
    for s in ["a", " a", "a ", "\u{2009}mid dle\u{205f}", "x\u{200b}", "\u{1680}", "é ü "] {
        assert_eq!(trim(s), s.trim());
    }
}

#[test]
fn trim_twice_is_trim_once() {
    let once = trim("  \u{3000} spaced out\t ");
    assert_eq!(trim(&once), once);
}

#[test]
fn space_test_follows_white_space_property() {
    for c in ['\t', '\n', '\u{0b}', '\u{0c}', '\r', ' ', '\u{85}', '\u{a0}', '\u{1680}', '\u{2000}', '\u{200a}', '\u{2028}', '\u{2029}', '\u{202f}', '\u{205f}', '\u{3000}'] {
        assert!(is_space_char(c));
        assert!(c.is_whitespace());
    }
    for c in ['a', '0', '\u{200b}', '\u{feff}', '_'] {
        assert!(!is_space_char(c));
        assert!(!c.is_whitespace());
    }
}

#[test]
fn strip_prefix_keeps_the_rest() {
    assert_eq!(strip_prefix("setname Bob", "setname "), Some("Bob".to_string()));
    assert_eq!(strip_prefix("setname", "setname "), None);
    assert_eq!(strip_prefix("xsetname Bob", "setname "), None);
    assert_eq!(strip_prefix("abc", ""), Some("abc".to_string()));
}

#[test]
fn split_once_splits_at_first_separator() {
    assert_eq!(
        split_once("a\tb\tc", '\t'),
        Some(("a".to_string(), "b\tc".to_string()))
    );
    assert_eq!(split_once("\tx", '\t'), Some((String::new(), "x".to_string())));
    assert_eq!(split_once("none", '\t'), None);
}

#[test]
fn remove_char_drops_every_quote() {
    assert_eq!(remove_char("\"127.0.0.1:8000\"", '"'), "127.0.0.1:8000");
    assert_eq!(remove_char("a\"b\"\"c", '"'), "abc");
    assert_eq!(remove_char("plain", '"'), "plain");
}

#[test]
fn decimal_rendering() {
    assert_eq!(decimal_text(0), "0");
    assert_eq!(decimal_text(7), "7");
    assert_eq!(decimal_text(10), "10");
    assert_eq!(decimal_text(-1), "-1");
    assert_eq!(decimal_text(1234567890), "1234567890");
    assert_eq!(decimal_text(i64::MAX), i64::MAX.to_string());
    assert_eq!(decimal_text(i64::MIN), i64::MIN.to_string());
    assert_eq!(decimal_text_u64(u64::MAX), u64::MAX.to_string());
}

#[test]
fn chars_and_ranges() {
    let v = chars_of("héllo");
    assert_eq!(v, vec!['h', 'é', 'l', 'l', 'o']);
    assert_eq!(string_of_range(&v, 1, 4), "éll");
}

#[test]
fn has_char_finds_characters() {
    assert!(has_char("a\0b", '\0'));
    assert!(!has_char("abc", '\0'));
    assert!(!has_char("", 'x'));
}
