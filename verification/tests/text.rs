use renderd::text::{concat3, decimal_text, signed_decimal_text, text_eq};

#[test]
fn decimal_text_of_edge_values() {
    assert_eq!(decimal_text(0), "0");
    assert_eq!(decimal_text(7), "7");
    assert_eq!(decimal_text(10), "10");
    assert_eq!(decimal_text(u64::MAX), u64::MAX.to_string());
    assert_eq!(signed_decimal_text(-12), "-12");
    assert_eq!(signed_decimal_text(i64::MIN), i64::MIN.to_string());
    assert_eq!(signed_decimal_text(5), "5");
}

#[test]
fn text_helpers() {
    assert!(text_eq("héllo", "héllo"));
    assert!(!text_eq("hello", "hellO"));
    assert!(!text_eq("a", "ab"));
    assert_eq!(concat3("a", "bc", "d"), "abcd");
}
