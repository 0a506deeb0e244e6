use lchat::text::{
    byte_len, chars_of, decimal_text, has_char, insert_at, remove_at, split_at_first, str_eq, trim,
    trim_trailing,
};

#[test]
fn chars_of_a_text() {
    assert_eq!(chars_of(""), Vec::<char>::new());
    assert_eq!(chars_of("a\u{e9}\u{1f600}b"), vec!['a', '\u{e9}', '\u{1f600}', 'b']);
}

#[test]
fn str_eq_compares_characters() {
    assert!(str_eq("", ""));
    assert!(str_eq("connection", "connection"));
    assert!(str_eq("caf\u{e9}", "caf\u{e9}"));
    assert!(!str_eq("connection", "Connection"));
    assert!(!str_eq("abc", "abd"));
    assert!(!str_eq("abc", "ab"));
    assert!(!str_eq("", " "));
    assert!(!str_eq("cafe", "caf\u{e9}"));
}

#[test]
fn has_char_finds_a_character() {
    assert!(has_char("a:b", ':'));
    assert!(has_char(":", ':'));
    assert!(has_char("line\n", '\n'));
    assert!(!has_char("", ':'));
    assert!(!has_char("abc", ':'));
    assert!(has_char("\u{4f60}\u{597d}", '\u{597d}'));
}

#[test]
fn trim_takes_white_space_off_both_ends() {
    assert_eq!(trim(""), "");
    assert_eq!(trim("   \t\r\n"), "");
    assert_eq!(trim("abc"), "abc");
    assert_eq!(trim("  a b  c \n"), "a b  c");
    assert_eq!(trim("\u{a0}\u{3000}x\u{2003}"), "x");
    for text in ["", " ", " a", "a ", " a b ", "\n\ta\u{e9}\r\n", "\u{2028}z\u{85}"] {
        assert_eq!(trim(text), text.trim());
    }
}

#[test]
fn trim_trailing_leaves_the_start() {
    assert_eq!(trim_trailing(""), "");
    assert_eq!(trim_trailing("  "), "");
    assert_eq!(trim_trailing("  a  "), "  a");
    assert_eq!(trim_trailing("a\n"), "a");
    for text in ["", " ", " a", "a ", " a b \t", "\u{e9} \u{3000}"] {
        assert_eq!(trim_trailing(text), text.trim_end());
    }
}

#[test]
fn decimal_text_writes_a_count() {
    assert_eq!(decimal_text(0), "0");
    assert_eq!(decimal_text(7), "7");
    assert_eq!(decimal_text(9), "9");
    assert_eq!(decimal_text(10), "10");
    assert_eq!(decimal_text(109), "109");
    assert_eq!(decimal_text(65536), "65536");
    assert_eq!(decimal_text(usize::MAX), usize::MAX.to_string());
    for n in 0..1200usize {
        assert_eq!(decimal_text(n), n.to_string());
    }
}

#[test]
fn split_at_first_splits_once() {
    assert_eq!(split_at_first("host:8080", ':'), ("host", "8080"));
    assert_eq!(split_at_first("a:b:c", ':'), ("a", "b:c"));
    assert_eq!(split_at_first(":x", ':'), ("", "x"));
    assert_eq!(split_at_first("x:", ':'), ("x", ""));
    assert_eq!(split_at_first("plain", ':'), ("plain", ""));
    assert_eq!(split_at_first("", ':'), ("", ""));
    assert_eq!(split_at_first("\u{e9}:\u{4f60}", ':'), ("\u{e9}", "\u{4f60}"));
}

#[test]
fn byte_len_bounds_the_characters() {
    assert_eq!(byte_len(""), 0);
    assert_eq!(byte_len("abc"), 3);
    assert_eq!(byte_len("\u{e9}\u{4f60}"), 5);
    assert!(byte_len("\u{1f600}x") >= "\u{1f600}x".chars().count());
}

#[test]
fn insert_at_and_remove_at_count_characters() {
    assert_eq!(insert_at("", 0, 'a'), "a");
    assert_eq!(insert_at("ac", 1, 'b'), "abc");
    assert_eq!(insert_at("ab", 2, 'c'), "abc");
    assert_eq!(insert_at("\u{e9}\u{4f60}", 1, '-'), "\u{e9}-\u{4f60}");
    assert_eq!(remove_at("abc", 0), "bc");
    assert_eq!(remove_at("abc", 1), "ac");
    assert_eq!(remove_at("abc", 2), "ab");
    assert_eq!(remove_at("\u{e9}\u{4f60}!", 1), "\u{e9}!");
}
