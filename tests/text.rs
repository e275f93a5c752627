use mct::text::{contains_text, push_decimal, same_text};

#[test]
fn decimal_rendering() {
    let mut s = String::from("n=");
    push_decimal(&mut s, 0);
    assert_eq!(s, "n=0");
    let mut s = String::new();
    push_decimal(&mut s, 1234567890);
    assert_eq!(s, "1234567890");
    let mut s = String::new();
    push_decimal(&mut s, u64::MAX);
    assert_eq!(s, "18446744073709551615");
}

#[test]
fn text_equality_and_membership() {
    assert!(same_text("fabric", "fabric"));
    assert!(!same_text("fabric", "Fabric"));
    let items = vec!["forge".to_string(), "quilt".to_string()];
    assert!(contains_text(&items, "quilt"));
    assert!(!contains_text(&items, "fabric"));
    assert!(!contains_text(&Vec::new(), "fabric"));
}
