use launchpad::errors::LaunchpadError;
use launchpad::math::isqrt_u128;
use launchpad::math::meets_min_supply;
use launchpad::math::mul_div_ceil;
use launchpad::math::mul_div_floor;
use launchpad::math::product_at_least;

#[test]
fn mul_div_floor_rounds_down() {
    assert_eq!(mul_div_floor(7, 3, 2), Ok(10));
    assert_eq!(mul_div_floor(10, 10, 4), Ok(25));
    assert_eq!(mul_div_floor(0, u64::MAX, 5), Ok(0));
}

#[test]
fn mul_div_ceil_rounds_up() {
    assert_eq!(mul_div_ceil(7, 3, 2), Ok(11));
    assert_eq!(mul_div_ceil(10, 10, 4), Ok(25));
    assert_eq!(mul_div_ceil(1, 1, 3), Ok(1));
}

#[test]
fn mul_div_rejects_zero_divisor() {
    assert_eq!(mul_div_floor(1, 1, 0), Err(LaunchpadError::ArithmeticError));
    assert_eq!(mul_div_ceil(1, 1, 0), Err(LaunchpadError::ArithmeticError));
}

#[test]
fn mul_div_rejects_overflowing_quotient() {
    assert_eq!(
        mul_div_floor(u64::MAX, u64::MAX, 1),
        Err(LaunchpadError::ArithmeticError)
    );
    assert_eq!(
        mul_div_ceil(u64::MAX, 2, 1),
        Err(LaunchpadError::ArithmeticError)
    );
    // the same product is fine with a large enough divisor
    assert_eq!(mul_div_floor(u64::MAX, u64::MAX, u64::MAX), Ok(u64::MAX));
}

#[test]
fn isqrt_small_values() {
    assert_eq!(isqrt_u128(0), 0);
    assert_eq!(isqrt_u128(1), 1);
    assert_eq!(isqrt_u128(3), 1);
    assert_eq!(isqrt_u128(4), 2);
    assert_eq!(isqrt_u128(99), 9);
    assert_eq!(isqrt_u128(100), 10);
}

#[test]
fn isqrt_large_values() {
    assert_eq!(isqrt_u128(u128::MAX), u64::MAX);
    assert_eq!(isqrt_u128((u64::MAX as u128) * (u64::MAX as u128)), u64::MAX);
    // one below an exact square
    assert_eq!(isqrt_u128(1_000_000_000_000_000_000_000_000 - 1), 999_999_999_999 );
}

#[test]
fn min_supply_scales_by_decimals() {
    // 21 whole tokens with 6 decimals need 21_000_000 base units
    assert!(meets_min_supply(21_000_000, 21, 6));
    assert!(!meets_min_supply(20_999_999, 21, 6));
    assert!(meets_min_supply(5, 0, 18));
    // a minimum that overflows every u64 supply
    assert!(!meets_min_supply(u64::MAX, 2, 19));
}

#[test]
fn product_comparison_is_exact() {
    assert!(product_at_least(3, 5, 5, 3));
    assert!(product_at_least(4, 5, 5, 3));
    assert!(!product_at_least(2, 5, 5, 3));
    assert!(product_at_least(u64::MAX, u64::MAX, u64::MAX, u64::MAX - 1));
}
