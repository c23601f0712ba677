use biologischer_log::encoding::same_text;
use biologischer_log::text::decimal_text;

#[test]
fn decimal_of_zero() {
    assert_eq!(decimal_text(0), "0");
}

#[test]
fn decimal_of_single_digits() {
    for d in 0..10u32 {
        assert_eq!(decimal_text(d), d.to_string());
    }
}

#[test]
fn decimal_has_no_leading_zeros() {
    assert_eq!(decimal_text(10), "10");
    assert_eq!(decimal_text(42), "42");
    assert_eq!(decimal_text(100), "100");
    assert_eq!(decimal_text(1005), "1005");
    assert_eq!(decimal_text(90210), "90210");
}

#[test]
fn decimal_of_the_largest_number() {
    assert_eq!(decimal_text(u32::MAX), "4294967295");
}

#[test]
fn decimal_agrees_with_the_standard_library() {
    let mut n: u32 = 1;
    for _ in 0..200 {
        assert_eq!(decimal_text(n), n.to_string());
        n = n.wrapping_mul(2_654_435_761).wrapping_add(12_345);
    }
}

#[test]
fn same_text_compares_whole_texts() {
    assert!(same_text("", ""));
    assert!(same_text("svc::http", "svc::http"));
    assert!(!same_text("svc", "svc::http"));
    assert!(!same_text("svc::http", "svc"));
    assert!(!same_text("svc", "svd"));
    assert!(!same_text("Svc", "svc"));
    assert!(same_text("gr\u{fc}n", "gr\u{fc}n"));
    assert!(!same_text("gr\u{fc}n", "grun"));
}
