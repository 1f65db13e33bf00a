use rust_mcp_sdk::decimal::{i64_decimal, u64_decimal};

#[test]
fn decimal_of_zero_and_small_numbers() {
    assert_eq!(u64_decimal(0), "0");
    assert_eq!(u64_decimal(7), "7");
    assert_eq!(u64_decimal(10), "10");
    assert_eq!(u64_decimal(5000000000), "5000000000");
}

#[test]
fn decimal_of_extremes() {
    assert_eq!(u64_decimal(u64::MAX), u64::MAX.to_string());
    assert_eq!(i64_decimal(i64::MIN), i64::MIN.to_string());
    assert_eq!(i64_decimal(i64::MAX), i64::MAX.to_string());
    assert_eq!(i64_decimal(-32602), "-32602");
    assert_eq!(i64_decimal(-1), "-1");
}

#[test]
fn decimal_agrees_with_display_on_a_range() {
    for n in -2000i64..2000 {
        assert_eq!(i64_decimal(n), n.to_string());
    }
}
