use forbidden::text::char_is_whitespace;
use forbidden::text::trimmed_char_count;

#[test]
fn white_space_is_what_unicode_says() {
    for c in ['\t', '\n', '\u{b}', '\u{c}', '\r', ' ', '\u{85}', '\u{a0}', '\u{1680}'] {
        assert!(char_is_whitespace(c));
    }
    for c in ['\u{2000}', '\u{2005}', '\u{200a}', '\u{2028}', '\u{2029}', '\u{202f}'] {
        assert!(char_is_whitespace(c));
    }
    assert!(char_is_whitespace('\u{205f}'));
    assert!(char_is_whitespace('\u{3000}'));
    for c in ['a', '0', '_', '\u{8}', '\u{e}', '\u{1f}', '\u{200b}', '\u{180e}', '\u{feff}'] {
        assert!(!char_is_whitespace(c));
    }
}

#[test]
fn white_space_agrees_with_std_on_every_character() {
    let mut code: u32 = 0;
    while code <= 0x10FFFF {
        if let Some(c) = char::from_u32(code) {
            assert_eq!(char_is_whitespace(c), c.is_whitespace());
        }
        code += 1;
    }
}

#[test]
fn trimmed_count_is_exact() {
    assert_eq!(trimmed_char_count(""), 0);
    assert_eq!(trimmed_char_count("   "), 0);
    assert_eq!(trimmed_char_count("a"), 1);
    assert_eq!(trimmed_char_count(" a"), 1);
    assert_eq!(trimmed_char_count("a "), 1);
    assert_eq!(trimmed_char_count(" a b "), 3);
    assert_eq!(trimmed_char_count("\t\n hello world \r\n"), 11);
    assert_eq!(trimmed_char_count("12345678"), 8);
    assert_eq!(trimmed_char_count("\u{3000}日本語\u{3000}"), 3);
    assert_eq!(trimmed_char_count("é"), 1);
    assert_eq!(trimmed_char_count("  a   b   c  "), 9);
}

#[test]
fn trimmed_count_agrees_with_std() {
    for raw in [
        "",
        " ",
        "x",
        " x y ",
        "\u{a0}x\u{a0}",
        "\u{2003}two words\u{2003}\u{2003}",
        "tab\tinside",
        "\n\n\n",
        "ñandú  ",
    ] {
        assert_eq!(trimmed_char_count(raw), raw.trim().chars().count());
    }
}
