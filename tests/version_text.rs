use webview_cache_guard::version::trim_text;

#[test]
fn trim_removes_trailing_newline() {
    assert_eq!(trim_text("1.2.0\n"), "1.2.0");
}

#[test]
fn trim_removes_both_ends() {
    assert_eq!(trim_text(" \t1.2.0\r\n "), "1.2.0");
}

#[test]
fn trim_keeps_inner_whitespace() {
    assert_eq!(trim_text("  1.2 beta  "), "1.2 beta");
}

#[test]
fn trim_of_empty_and_blank() {
    assert_eq!(trim_text(""), "");
    assert_eq!(trim_text(" \n\t "), "");
}

#[test]
fn trim_handles_unicode_whitespace() {
    assert_eq!(trim_text("\u{3000}2.0\u{a0}\u{2029}"), "2.0");
    assert_eq!(trim_text("\u{200b}2.0"), "\u{200b}2.0");
}

#[test]
fn trim_agrees_with_std() {
    for s in ["x", " x", "x ", "\u{85}x\u{1680}", "\u{feff}x", "a\u{2000}b\u{205f}"] {
        assert_eq!(trim_text(s), s.trim());
    }
}
