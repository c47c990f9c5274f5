use arbitrage::dec::{contract_count, div_units, pow10_units, Dec, DEC_UNIT};

#[test]
fn from_i64_scales() {
    assert_eq!(Dec::from_i64(3).units, 3 * DEC_UNIT);
    assert_eq!(Dec::from_i64(-2).units, -2 * DEC_UNIT);
    assert_eq!(Dec::zero().units, 0);
}

#[test]
fn add_sub_on_units() {
    let a = Dec::from_units(150_000_000);
    let b = Dec::from_units(25_000_000);
    assert_eq!(a.add(b).units, 175_000_000);
    assert_eq!(a.sub(b).units, 125_000_000);
}

#[test]
fn mul_trunc_truncates_toward_zero() {
    // 1.5 * 0.333 = 0.4995
    let a = Dec::from_units(150_000_000);
    let b = Dec::from_units(33_300_000);
    assert_eq!(a.mul_trunc(b).units, 49_950_000);
    // (-1.5) * 0.333 = -0.4995 exactly; a truncating case:
    // 0.0000_0001 * 0.5 = 0.0000_0000_5 -> truncates to 0
    let tiny = Dec::from_units(1);
    let half = Dec::from_units(50_000_000);
    assert_eq!(tiny.mul_trunc(half).units, 0);
    let neg_tiny = Dec::from_units(-1);
    assert_eq!(neg_tiny.mul_trunc(half).units, 0);
}

#[test]
fn div_trunc_truncates_toward_zero() {
    // 1.0 / 3.0 = 0.33333333...
    let one = Dec::from_i64(1);
    let three = Dec::from_i64(3);
    assert_eq!(one.div_trunc(three).units, 33_333_333);
    // -1.0 / 3.0 rounds toward zero, not down
    let neg = Dec::from_i64(-1);
    assert_eq!(neg.div_trunc(three).units, -33_333_333);
}

#[test]
fn trunc_dp_keeps_sign_and_width() {
    let x = Dec::from_units(123_456_789);  // 1.23456789
    assert_eq!(x.trunc_dp(4).units, 123_450_000);
    assert_eq!(x.trunc_dp(0).units, 100_000_000);
    assert_eq!(x.trunc_dp(8).units, 123_456_789);
    let y = Dec::from_units(-123_456_789);
    assert_eq!(y.trunc_dp(4).units, -123_450_000);
}

#[test]
fn div_units_is_truncating() {
    assert_eq!(div_units(7, 2), 3);
    assert_eq!(div_units(-7, 2), -3);
}

#[test]
fn pow10_units_values() {
    assert_eq!(pow10_units(0), 1);
    assert_eq!(pow10_units(4), 10_000);
    assert_eq!(pow10_units(8), 100_000_000);
}

#[test]
fn contract_sizing_rounds_up_then_backs_off_one() {
    // base 100, price 0.99, multiplier 10: raw 9.9 -> ceil 10 -> 9
    let amount = Dec::from_i64(100);
    let price = Dec::from_units(99_000_000);
    assert_eq!(contract_count(amount, price, 10), 9);
    // exact division: 100 * 1.00 / 10 = 10 -> ceil 10 -> 9
    let par = Dec::from_i64(1);
    assert_eq!(contract_count(amount, par, 10), 9);
    // zero amount: ceil 0 -> -1, mirroring the formula exactly
    assert_eq!(contract_count(Dec::zero(), price, 10), -1);
}
