use test_utils::text::same_text;

#[test]
fn same_text_compares_characters() {
    assert!(same_text("", ""));
    assert!(same_text("GET", "GET"));
    assert!(!same_text("GET", "GEt"));
    assert!(!same_text("GET", "GE"));
    assert!(!same_text("GE", "GET"));
    assert!(same_text("caf\u{e9}", "caf\u{e9}"));
    assert!(!same_text("caf\u{e9}", "cafe"));
}
