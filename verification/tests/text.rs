use sudoaudit::text::{
    chars_of, contains_text, find_last_non_blank_line, is_blank_char, push_decimal, push_text,
    same_text,
};

#[test]
fn contains_text_finds_a_marker_in_the_middle() {
    assert!(contains_text("warning: 3 issues were found in contract", "issues were found"));
    assert!(!contains_text("warning: nothing", "issues were found"));
    assert!(contains_text("abc", ""));
    assert!(contains_text("", ""));
    assert!(!contains_text("ab", "abc"));
    assert!(contains_text("aab", "ab"));
    assert!(!contains_text("issues were foun", "issues were found"));
}

#[test]
fn same_text_compares_character_by_character() {
    assert!(same_text("slither", "slither"));
    assert!(!same_text("slither", "slithe"));
    assert!(!same_text("slither", "slithes"));
    assert!(same_text("", ""));
    assert!(same_text("🚨 é", "🚨 é"));
}

#[test]
fn chars_follow_characters_not_bytes() {
    assert_eq!(chars_of("a🚨b"), vec!['a', '🚨', 'b']);
    assert_eq!(chars_of(""), Vec::<char>::new());
}

#[test]
fn blank_characters_are_those_of_unicode_white_space() {
    for c in ['\t', '\n', '\u{0B}', '\u{0C}', '\r', ' ', '\u{85}', '\u{A0}', '\u{1680}', '\u{2000}',
        '\u{200A}', '\u{2028}', '\u{2029}', '\u{202F}', '\u{205F}', '\u{3000}']
    {
        assert!(is_blank_char(c));
        assert!(c.is_whitespace());
    }
    for c in ['a', '0', '\u{200B}', '\u{8}', '\u{E}', '\u{1F}', '\u{2060}', '🚨'] {
        assert!(!is_blank_char(c));
        assert!(!c.is_whitespace());
    }
}

#[test]
fn blank_characters_agree_with_std_on_every_character() {
    let mut n: u32 = 0;
    while n <= 0x3100 {
        if let Some(c) = char::from_u32(n) {
            assert_eq!(is_blank_char(c), c.is_whitespace());
        }
        n += 1;
    }
}

fn last_line_by_std(text: &str) -> Option<String> {
    text.lines().filter(|line| !line.trim().is_empty()).last().map(|s| s.to_string())
}

#[test]
fn last_non_blank_line_is_the_bytecode_line() {
    let out = "\n======= Token.sol:Token =======\nBinary:\n6080604052\n\n";
    assert_eq!(find_last_non_blank_line(out), Some("6080604052".to_string()));
}

#[test]
fn last_non_blank_line_of_blank_text_is_none() {
    assert_eq!(find_last_non_blank_line(""), None);
    assert_eq!(find_last_non_blank_line("\n\n  \t\r\n"), None);
}

#[test]
fn last_non_blank_line_agrees_with_std_lines() {
    for text in [
        "abc",
        "abc\n",
        "abc\r\n",
        "abc\r",
        "abc\r\n\r\n",
        "a\nb\nc",
        "a\n  b  \n\n",
        "a\r\r\n",
        " x \r\n y\r\n   \r\n",
        "\rabc\n",
        "only\u{A0}\n\u{2003}\n",
        "a\n\r",
        "a\r\nb\r",
    ] {
        assert_eq!(find_last_non_blank_line(text), last_line_by_std(text));
    }
}

#[test]
fn decimal_notation_has_no_leading_zeros() {
    for n in [0u32, 7, 10, 99, 100, 4242, 1_000_000, u32::MAX] {
        let mut s = String::from("x");
        push_decimal(&mut s, n);
        assert_eq!(s, format!("x{}", n));
    }
}

#[test]
fn push_text_appends_a_copy() {
    let mut list = vec!["a".to_string()];
    push_text(&mut list, "b");
    assert_eq!(list, vec!["a".to_string(), "b".to_string()]);
}
