use aethokit::char_is_space;
use aethokit::str_is_blank;

#[test]
fn empty_string_is_blank() {
    assert!(str_is_blank(""));
}

#[test]
fn whitespace_only_is_blank() {
    assert!(str_is_blank(" \t\r\n"));
    assert!(str_is_blank("\u{00A0}\u{2028}\u{3000}"));
}

#[test]
fn surrounded_key_is_not_blank() {
    assert!(!str_is_blank("  key  "));
    assert!(!str_is_blank("k"));
}

#[test]
fn space_characters_match_the_std_notion() {
    for c in [' ', '\t', '\n', '\r', '\u{00A0}', '\u{2029}', '\u{3000}'] {
        assert!(char_is_space(c));
        assert!(c.is_whitespace());
    }
    for c in ['a', '0', '-', '_', '\u{200B}'] {
        assert!(!char_is_space(c));
        assert!(!c.is_whitespace());
    }
}
