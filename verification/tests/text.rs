use namimado::text::{replace_all, str_contains, take_chars, trim_ws};

#[test]
fn trim_matches_std_trim() {
    let samples = [
        "", " ", "  a  ", "\t\n a b \r\n", "\u{a0}x\u{3000}", "\u{2028}y\u{85}", "\u{200b}z\u{200b}",
        "no-space", "\u{1680}\u{2000}\u{200a}m\u{202f}\u{205f}\u{2029}", "\u{b}\u{c}k",
    ];
    for s in samples {
        assert_eq!(trim_ws(s), s.trim(), "input {s:?}");
    }
    for c in 0u32..0x3100 {
        if let Some(ch) = char::from_u32(c) {
            let s = format!("{ch}a{ch}");
            assert_eq!(trim_ws(&s), s.trim(), "char U+{c:04X}");
        }
    }
}

#[test]
fn replace_all_matches_std_replace() {
    for (s, p, r) in [("aaa", "aa", "b"), ("%s%s", "%s", "x"), ("abc", "z", "y"), ("", "a", "b"), ("xyx", "x", "")] {
        assert_eq!(replace_all(s, p, r), s.replace(p, r));
    }
}

#[test]
fn contains_and_take() {
    assert!(str_contains("hello world", "o w"));
    assert!(str_contains("abc", ""));
    assert!(!str_contains("abc", "abcd"));
    assert_eq!(take_chars("héllo", 2), "hé");
    assert_eq!(take_chars("hi", 5), "hi");
}
