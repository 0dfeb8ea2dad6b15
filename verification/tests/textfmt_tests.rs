use kernel_diag::textfmt::{pad_left_string, u64_to_decimal};

#[test]
fn decimal_rendering_is_exact() {
    assert_eq!(u64_to_decimal(0), "0");
    assert_eq!(u64_to_decimal(9), "9");
    assert_eq!(u64_to_decimal(10), "10");
    assert_eq!(u64_to_decimal(42), "42");
    assert_eq!(u64_to_decimal(1_234_567_890), "1234567890");
    assert_eq!(u64_to_decimal(u64::MAX), "18446744073709551615");
}

#[test]
fn padding_fills_to_the_left() {
    assert_eq!(pad_left_string("42".to_string(), 3, " "), " 42");
    assert_eq!(pad_left_string("7".to_string(), 6, "0"), "000007");
    assert_eq!(pad_left_string("".to_string(), 2, "x"), "xx");
}

#[test]
fn padding_leaves_wide_text_alone() {
    assert_eq!(pad_left_string("1234".to_string(), 3, " "), "1234");
    assert_eq!(pad_left_string("123".to_string(), 3, " "), "123");
}
