use codex_anthropic::text::{chars_of, split_once, strip_prefix, text_eq, trim_text};

#[test]
fn trim_removes_unicode_white_space() {
    assert_eq!(trim_text("  \t\n hello world \r\n"), "hello world");
    assert_eq!(trim_text("\u{3000}\u{a0}x\u{2029}"), "x");
    assert_eq!(trim_text("   "), "");
    assert_eq!(trim_text(""), "");
    assert_eq!(trim_text("a b"), "a b");
    for s in ["  x ", "\u{85}y\u{202f}", "z", "\u{200b}w"] {
        assert_eq!(trim_text(s), s.trim());
    }
}

#[test]
fn split_once_splits_at_the_first_separator() {
    assert_eq!(split_once("png;base64,AA;base64,BB", ";base64,"), Some(("png", "AA;base64,BB")));
    assert_eq!(split_once("no separator", ";base64,"), None);
    assert_eq!(split_once(";base64,", ";base64,"), Some(("", "")));
}

#[test]
fn strip_prefix_keeps_the_rest() {
    assert_eq!(strip_prefix("data:image/png", "data:image/"), Some("png"));
    assert_eq!(strip_prefix("data:image", "data:image/"), None);
    assert_eq!(strip_prefix("héllo", "hé"), Some("llo"));
}

#[test]
fn text_equality_and_characters() {
    assert!(text_eq("abc", "abc"));
    assert!(!text_eq("abc", "abd"));
    assert!(!text_eq("abc", "ab"));
    assert_eq!(chars_of("aé"), vec!['a', 'é']);
}
