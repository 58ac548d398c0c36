use chat_relay::text::{
    chars_of, is_whitespace, same_text, skip_spaces, skip_spaces_back, starts_with,
};

#[test]
fn whitespace_is_the_unicode_property() {
    for c in '\0'..=char::MAX {
        assert_eq!(is_whitespace(c), c.is_whitespace(), "{:?}", c);
    }
}

#[test]
fn whitespace_examples() {
    for c in [' ', '\t', '\n', '\r', '\u{b}', '\u{c}', '\u{85}', '\u{a0}', '\u{1680}', '\u{2000}',
        '\u{200a}', '\u{2028}', '\u{2029}', '\u{202f}', '\u{205f}', '\u{3000}'] {
        assert!(is_whitespace(c));
    }
    for c in ['a', '/', '\0', '\u{8}', '\u{e}', '\u{1f}', '\u{200b}', '\u{feff}', '\u{180e}'] {
        assert!(!is_whitespace(c));
    }
}

#[test]
fn characters_are_taken_one_by_one() {
    assert_eq!(chars_of(""), Vec::<char>::new());
    assert_eq!(chars_of("a\u{e9}\u{1f980}"), vec!['a', '\u{e9}', '\u{1f980}']);
}

#[test]
fn leading_whitespace_is_skipped() {
    let chars = chars_of("  \t ab  c ");
    assert_eq!(skip_spaces(&chars, 0, chars.len()), 4);
    assert_eq!(skip_spaces(&chars, 4, chars.len()), 4);
    assert_eq!(skip_spaces(&chars, 6, chars.len()), 8);
    assert_eq!(skip_spaces(&chars, 0, 3), 3);
    assert_eq!(skip_spaces(&chars, 9, chars.len()), 10);
    assert_eq!(skip_spaces(&chars, 10, 10), 10);
}

#[test]
fn trailing_whitespace_is_skipped() {
    let chars = chars_of("  \t ab  c ");
    assert_eq!(skip_spaces_back(&chars, 0, chars.len()), 9);
    assert_eq!(skip_spaces_back(&chars, 0, 8), 6);
    assert_eq!(skip_spaces_back(&chars, 0, 4), 0);
    assert_eq!(skip_spaces_back(&chars, 2, 4), 2);
    assert_eq!(skip_spaces_back(&chars, 0, 0), 0);
}

#[test]
fn prefix_is_matched_character_by_character() {
    let chars = chars_of("/auth ABCD");
    assert!(starts_with(&chars, "/auth"));
    assert!(starts_with(&chars, ""));
    assert!(starts_with(&chars, "/auth ABCD"));
    assert!(!starts_with(&chars, "/auth ABCDE"));
    assert!(!starts_with(&chars, "/Auth"));
    assert!(!starts_with(&chars, "auth"));
    assert!(!starts_with(&chars_of(""), "/"));
}

#[test]
fn texts_are_compared_by_their_characters() {
    assert!(same_text("ABCD", "ABCD"));
    assert!(same_text("", ""));
    assert!(!same_text("ABCD", "ABCd"));
    assert!(!same_text("ABCD", "ABCD "));
    assert!(!same_text("e\u{301}", "\u{e9}"));
}
