use synthetic_stack_futures::math::{
    bps, clamp_i128, notional_quote, pnl_quote, pow10_u128, ratio_bps_u128, scale_amount,
};
use synthetic_stack_futures::ErrorCode;

#[test]
fn bps_exact_values() {
    assert_eq!(bps(100_000_000, 100), Ok(1_000_000));
    assert_eq!(bps(100_000_000, 1000), Ok(10_000_000));
    assert_eq!(bps(10_000, 10000), Ok(10_000));
    assert_eq!(bps(0, 5000), Ok(0));
    // truncation toward zero
    assert_eq!(bps(3, 5000), Ok(1));
}

#[test]
fn bps_overflow() {
    assert_eq!(bps(u128::MAX, 2), Err(ErrorCode::MathOverflow));
    assert_eq!(bps(u128::MAX, 1), Ok(u128::MAX / 10_000));
}

#[test]
fn ratio_bps_exact_values() {
    assert_eq!(ratio_bps_u128(50, 200), Ok(2_500));
    assert_eq!(ratio_bps_u128(1, 3), Ok(3_333));
    assert_eq!(ratio_bps_u128(7, 7), Ok(10_000));
}

#[test]
fn ratio_bps_zero_denominator() {
    assert_eq!(ratio_bps_u128(10, 0), Err(ErrorCode::MathOverflow));
}

#[test]
fn ratio_bps_overflow() {
    assert_eq!(ratio_bps_u128(u128::MAX, 1), Err(ErrorCode::MathOverflow));
}

#[test]
fn pow10_small_and_large() {
    assert_eq!(pow10_u128(0), Some(1));
    assert_eq!(pow10_u128(1), Some(10));
    assert_eq!(pow10_u128(6), Some(1_000_000));
    assert_eq!(pow10_u128(38), Some(10u128.pow(38)));
    assert_eq!(pow10_u128(39), None);
    assert_eq!(pow10_u128(261), None);
}

#[test]
fn scale_amount_directions() {
    // same precision: identity
    assert_eq!(scale_amount(123_456, 6, 6), Ok(123_456));
    // shrinking precision truncates toward zero
    assert_eq!(scale_amount(123_456_789, 9, 6), Ok(123_456));
    // growing precision multiplies
    assert_eq!(scale_amount(123, 0, 3), Ok(123_000));
}

#[test]
fn scale_amount_overflow() {
    assert_eq!(scale_amount(u128::MAX, 0, 1), Err(ErrorCode::MathOverflow));
    // a power of ten that itself cannot be represented
    assert_eq!(scale_amount(1, 0, 39), Err(ErrorCode::MathOverflow));
    assert_eq!(scale_amount(5, 45, 6), Err(ErrorCode::MathOverflow));
}

#[test]
fn notional_reference_scenario() {
    // size 1.0 unit at NAV 100.0: notional is 100.0 in quote units
    assert_eq!(notional_quote(1_000_000, 100_000000, 6, 6), Ok(100_000000));
    // half a unit at NAV 250.0
    assert_eq!(notional_quote(500_000, 250_000000, 6, 6), Ok(125_000000));
}

#[test]
fn pnl_flat_nav_is_zero() {
    assert_eq!(pnl_quote(1_000_000, 100_000000, 100_000000, 6, 6), Ok(0));
    assert_eq!(pnl_quote(u64::MAX, 7, 7, 0, 0), Ok(0));
}

#[test]
fn pnl_up_move_is_positive() {
    // NAV 100.0 -> 110.0 on 1.0 unit: long gains 10.0 quote units
    assert_eq!(pnl_quote(1_000_000, 100_000000, 110_000000, 6, 6), Ok(10_000000));
}

#[test]
fn pnl_down_move_is_negative() {
    assert_eq!(pnl_quote(1_000_000, 100_000000, 91_000000, 6, 6), Ok(-9_000000));
}

#[test]
fn pnl_swapping_navs_negates() {
    let up = pnl_quote(750_000, 80_000000, 95_500000, 6, 6).unwrap();
    let down = pnl_quote(750_000, 95_500000, 80_000000, 6, 6).unwrap();
    assert_eq!(up, -down);
    assert!(up > 0);
}

#[test]
fn clamp_cases() {
    assert_eq!(clamp_i128(5, 0, 10), 5);
    assert_eq!(clamp_i128(-3, 0, 10), 0);
    assert_eq!(clamp_i128(42, 0, 10), 10);
    assert_eq!(clamp_i128(0, 0, 0), 0);
}
