use voxel_dom::utils::is_whitespace;

#[test]
fn test_is_whitespace() {
    for s in ["", "\n", "\n "] {
        assert_eq!(is_whitespace(s), true);
    }
}

#[test]
fn is_whitespace_rejects_visible_characters() {
    assert!(!is_whitespace("a"));
    assert!(!is_whitespace(" \t x"));
    assert!(is_whitespace("\t\r\u{A0}\u{3000}"));
}
