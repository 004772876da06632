use skills_hub::text::{
    i64_to_decimal, join_strings, str_contains, str_eq, u128_to_decimal, u64_to_decimal,
    u64_zero_padded,
};

#[test]
fn decimal_rendering() {
    assert_eq!(u64_to_decimal(0), "0");
    assert_eq!(u64_to_decimal(u64::MAX), u64::MAX.to_string());
    assert_eq!(u128_to_decimal(u128::MAX), u128::MAX.to_string());
    assert_eq!(i64_to_decimal(-42), "-42");
    assert_eq!(i64_to_decimal(i64::MIN), i64::MIN.to_string());
    assert_eq!(u64_zero_padded(7, 3), "007");
    assert_eq!(u64_zero_padded(12345, 2), "12345");
}

#[test]
fn string_helpers() {
    assert!(str_eq("abc", "abc"));
    assert!(!str_eq("abc", "abd"));
    assert!(str_contains("hello world", "lo w"));
    assert!(str_contains("hello", ""));
    assert!(!str_contains("hello", "world"));
    assert_eq!(join_strings(&vec!["a".to_string(), "b".to_string(), "c".to_string()], ", "), "a, b, c");
    assert_eq!(join_strings(&Vec::new(), ", "), "");
}
