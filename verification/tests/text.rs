use reader_core::text::{is_blank, is_whitespace, trim};

#[test]
fn whitespace_is_unicode_white_space() {
    let mut n: u32 = 0;
    while n <= 0x10FFFF {
        if let Some(c) = char::from_u32(n) {
            assert_eq!(is_whitespace(c), c.is_whitespace(), "U+{:04X}", n);
        }
        n += 1;
    }
}

#[test]
fn trim_removes_both_ends_only() {
    assert_eq!(trim("  /x/y \t\n"), "/x/y");
    assert_eq!(trim("/x/y"), "/x/y");
    assert_eq!(trim(" a b "), "a b");
    assert_eq!(trim(""), "");
    assert_eq!(trim("   "), "");
    assert_eq!(trim("\u{3000}\u{00E9}t\u{00E9}\u{2003}"), "\u{00E9}t\u{00E9}");
    assert_eq!(trim("x"), "x");
}

#[test]
fn trim_agrees_with_the_standard_one() {
    let samples = [
        "", " ", "a", " a", "a ", "  a  b  ", "\t\r\n", "\u{85}x\u{a0}", "\u{1680}\u{2028}\u{2029}",
        "\u{200B}", " \u{200B} ", "/home/user/My Documents/book.pdf  ",
    ];
    for s in samples {
        assert_eq!(trim(s), s.trim());
        assert_eq!(is_blank(s), s.trim().is_empty());
    }
}

#[test]
fn blank_texts() {
    assert!(is_blank(""));
    assert!(is_blank("   "));
    assert!(is_blank(" \t\n\u{3000}"));
    assert!(!is_blank(" a "));
    assert!(!is_blank("\u{200B}"));
}
