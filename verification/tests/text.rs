use mybuddy_runtime::text::{
    decimal, is_white_space, same_text, starts_with, trim, trim_end_char,
};

#[test]
fn white_space_agrees_with_the_standard_library() {
    for c in '\u{0}'..=char::MAX {
        assert_eq!(is_white_space(c), c.is_whitespace(), "{:?}", c);
    }
}

#[test]
fn trimming_agrees_with_the_standard_library() {
    for text in [
        "", " ", "  \t\n", "a", " a", "a ", " a b ", "\u{a0}\u{3000}x\u{2028}", "\u{200b}x",
        "x \u{85}", "\u{1f511} key\u{205f}", "\u{e9} ",
    ] {
        assert_eq!(trim(text), text.trim());
        assert_eq!(trim(trim(text)), trim(text));
    }
}

#[test]
fn end_trimming_agrees_with_the_standard_library() {
    for text in ["", "/", "///", "a", "a/", "a//", "/a/b//", "https://x/\u{e9}//", "//\u{e9}"] {
        assert_eq!(trim_end_char(text, '/'), text.trim_end_matches('/'));
    }
}

#[test]
fn prefixes_and_equality() {
    assert!(starts_with("https://x", "https://"));
    assert!(starts_with("https://", "https://"));
    assert!(!starts_with("https:/", "https://"));
    assert!(!starts_with("http://x", "https://"));
    assert!(starts_with("\u{e9}a", "\u{e9}"));
    assert!(starts_with("x", ""));
    assert!(same_text("", ""));
    assert!(same_text("n\u{e9}", "n\u{e9}"));
    assert!(!same_text("n\u{e9}", "ne\u{301}"));
    assert!(!same_text("a", "b"));
    assert!(!same_text("a", "ab"));
}

#[test]
fn decimals() {
    for n in [0, 1, 9, 10, 11, 99, 100, 2345678901, u64::MAX] {
        assert_eq!(decimal(n), format!("{n}"));
    }
}
