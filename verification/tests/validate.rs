use modern_webview::contains_nul;

#[test]
fn detects_embedded_null_bytes() {
    assert!(contains_nul("a\0b"));
    assert!(contains_nul("\0"));
    assert!(contains_nul("ends with\0"));
    assert!(contains_nul("\0starts with"));
}

#[test]
fn accepts_strings_without_null_bytes() {
    assert!(!contains_nul(""));
    assert!(!contains_nul("plain"));
    assert!(!contains_nul("unicode: héllo — ✓"));
    // The null character only counts when actually embedded, not escaped.
    assert!(!contains_nul("\\0"));
}
