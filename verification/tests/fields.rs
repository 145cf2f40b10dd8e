use flypy_sync::entry::UserDict;
use flypy_sync::fields::{is_separator, split_fields};

fn fields_entry(name: &str, simple: &str) -> Option<UserDict> {
    Some(UserDict::new(name.to_string(), simple.to_string()))
}

#[test]
fn separator_is_unicode_white_space() {
    for code in 0..=0x10FFFFu32 {
        if let Some(c) = char::from_u32(code) {
            assert_eq!(is_separator(c), c.is_whitespace(), "U+{:04X}", code);
        }
    }
}

#[test]
fn separator_on_named_characters() {
    for c in [' ', '\t', '\n', '\r', '\u{0B}', '\u{0C}', '\u{85}', '\u{A0}', '\u{1680}'] {
        assert!(is_separator(c));
    }
    for c in ['\u{2000}', '\u{200A}', '\u{2028}', '\u{2029}', '\u{202F}', '\u{205F}', '\u{3000}'] {
        assert!(is_separator(c));
    }
    for c in ['a', '1', '<', '\u{08}', '\u{0E}', '\u{1F}', '\u{200B}', '\u{180E}', '词'] {
        assert!(!is_separator(c));
    }
}

#[test]
fn split_two_fields_at_a_tab() {
    assert_eq!(split_fields("你好\tnihk"), fields_entry("你好", "nihk"));
}

#[test]
fn split_takes_the_whole_run_of_whitespace() {
    assert_eq!(split_fields("a  1"), fields_entry("a", "1"));
    assert_eq!(split_fields("a \t \u{3000} 1"), fields_entry("a", "1"));
}

#[test]
fn split_gives_the_remainder_to_the_code() {
    assert_eq!(split_fields("a b c"), fields_entry("a", "b c"));
    assert_eq!(split_fields("a\tb  c\td"), fields_entry("a", "b  c\td"));
}

#[test]
fn split_trims_the_end_of_the_code() {
    assert_eq!(split_fields("a 1  "), fields_entry("a", "1"));
    assert_eq!(split_fields("a b c \t\r"), fields_entry("a", "b c"));
}

#[test]
fn split_without_whitespace_is_no_row() {
    assert_eq!(split_fields("abc"), None);
    assert_eq!(split_fields("词"), None);
}

#[test]
fn split_without_a_code_is_no_row() {
    assert_eq!(split_fields("abc "), None);
    assert_eq!(split_fields("abc \t "), None);
}

#[test]
fn split_without_a_name_is_no_row() {
    assert_eq!(split_fields(" a 1"), None);
    assert_eq!(split_fields("\ta"), None);
}

#[test]
fn split_of_nothing_is_no_row() {
    assert_eq!(split_fields(""), None);
    assert_eq!(split_fields(" "), None);
    assert_eq!(split_fields(" \t\n"), None);
}

#[test]
fn split_counts_characters_not_bytes() {
    assert_eq!(split_fields("用户词库\u{3000}yshu cikw\u{A0}"), fields_entry("用户词库", "yshu cikw"));
}

#[test]
fn split_fields_are_never_empty() {
    for text in ["a 1", "a  1 ", "x\ty z", " a", "a ", "", "ab"] {
        if let Some(entry) = split_fields(text) {
            assert!(entry.is_complete());
            assert!(!entry.name.contains(char::is_whitespace));
            assert_eq!(entry.simple.trim(), entry.simple);
        }
    }
}
