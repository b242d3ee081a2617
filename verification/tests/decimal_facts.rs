use azos_keeper::decimal::{Decimal, MAX_MANTISSA, MAX_SCALE};
use azos_keeper::rebalance::decimal_is_within_allowed_range;
use rust_decimal::MathematicalOps;

fn facts_next(state: &mut u128) -> u128 {
    *state = state
        .wrapping_mul(0x2360_ed05_1fc6_5da4_4385_df64_9fcc_f645)
        .wrapping_add(0x5851_f42d_4c95_7f2d_1405_7b7e_f767_814f);
    *state >> 11
}

fn facts_signed(state: &mut u128, bits: u32) -> i128 {
    let magnitude = (facts_next(state) & ((1u128 << bits) - 1)) as i128;
    if facts_next(state) & 1 == 1 {
        -magnitude
    } else {
        magnitude
    }
}

fn facts_outside(mantissa: i128, scale: u32) -> rust_decimal::Decimal {
    rust_decimal::Decimal::from_i128_with_scale(mantissa, scale)
}

#[test]
fn limits_are_those_of_the_decimal_crate() {
    assert_eq!(rust_decimal::Decimal::MAX.mantissa(), MAX_MANTISSA);
    assert_eq!(rust_decimal::Decimal::MIN.mantissa(), -MAX_MANTISSA);
    assert_eq!(rust_decimal::Decimal::MAX_SCALE, MAX_SCALE);
    assert!(rust_decimal::Decimal::try_from_i128_with_scale(MAX_MANTISSA, MAX_SCALE).is_ok());
    assert!(rust_decimal::Decimal::try_from_i128_with_scale(MAX_MANTISSA + 1, 0).is_err());
    assert!(rust_decimal::Decimal::try_from_i128_with_scale(1, MAX_SCALE + 1).is_err());
}

#[test]
fn products_that_fit_are_exact() {
    let mut state: u128 = 7;
    for _ in 0..20_000 {
        let bits_a = (facts_next(&mut state) % 96) as u32 + 1;
        let bits_b = 96 - bits_a;
        let a = facts_signed(&mut state, bits_a);
        let b = if bits_b == 0 { 1 } else { facts_signed(&mut state, bits_b) };
        let scale_a = (facts_next(&mut state) % 29) as u32;
        let scale_b = (facts_next(&mut state) % (29 - scale_a as u128)) as u32;
        let product = facts_outside(a, scale_a).checked_mul(facts_outside(b, scale_b)).unwrap();
        if a == 0 || b == 0 {
            assert_eq!((product.mantissa(), product.scale()), (0, 0));
        } else {
            assert!((a * b).abs() <= MAX_MANTISSA);
            assert_eq!((product.mantissa(), product.scale()), (a * b, scale_a + scale_b));
        }
    }
}

#[test]
fn products_with_a_zero_factor_are_the_plain_zero() {
    for scale in 0..=28u32 {
        let zero = facts_outside(0, scale);
        let other = facts_outside(-123_456_789, 28 - scale);
        let left = zero.checked_mul(other).unwrap();
        let right = other.checked_mul(zero).unwrap();
        assert_eq!((left.mantissa(), left.scale()), (0, 0));
        assert_eq!((right.mantissa(), right.scale()), (0, 0));
    }
}

#[test]
fn quotients_with_a_zero_operand() {
    for scale in 0..=28u32 {
        let zero = facts_outside(0, scale);
        let other = facts_outside(-123_456_789, 28 - scale);
        assert!(other.checked_div(zero).is_none());
        assert!(zero.checked_div(zero).is_none());
        let quotient = zero.checked_div(other).unwrap();
        assert_eq!((quotient.mantissa(), quotient.scale()), (0, 0));
    }
}

#[test]
fn floor_is_the_largest_integer_below() {
    let mut state: u128 = 11;
    for _ in 0..20_000 {
        let bits = (facts_next(&mut state) % 96) as u32 + 1;
        let mantissa = facts_signed(&mut state, bits);
        let scale = (facts_next(&mut state) % 29) as u32;
        let floor = facts_outside(mantissa, scale).floor();
        assert_eq!(floor.scale(), 0);
        assert_eq!(floor.mantissa(), mantissa.div_euclid(10i128.pow(scale)));
    }
    assert_eq!(facts_outside(-5, 1).floor().mantissa(), -1);
    assert_eq!(facts_outside(-10, 1).floor().mantissa(), -1);
    assert_eq!(facts_outside(19, 1).floor().mantissa(), 1);
}

#[test]
fn powers_of_ten_fit_up_to_the_twenty_eighth() {
    for exp in 0..=28u32 {
        let power = rust_decimal::Decimal::TEN.checked_powu(exp as u64).unwrap();
        assert_eq!((power.mantissa(), power.scale()), (10i128.pow(exp), 0));
    }
    for exp in 29..=255u64 {
        assert!(rust_decimal::Decimal::TEN.checked_powu(exp).is_none());
    }
}

#[test]
fn order_compares_the_numbers() {
    let mut state: u128 = 13;
    for _ in 0..20_000 {
        let a = facts_signed(&mut state, 60);
        let b = if facts_next(&mut state) % 4 == 0 { a } else { facts_signed(&mut state, 60) };
        let scale_a = (facts_next(&mut state) % 19) as u32;
        let scale_b = (facts_next(&mut state) % 19) as u32;
        let expected = a * 10i128.pow(scale_b) <= b * 10i128.pow(scale_a);
        assert_eq!(facts_outside(a, scale_a) <= facts_outside(b, scale_b), expected);
        let point = Decimal::try_new(a, scale_a).unwrap();
        let other = Decimal::try_new(b, scale_b).unwrap();
        assert_eq!(decimal_is_within_allowed_range(point, (point, other)), expected);
        assert_eq!(decimal_is_within_allowed_range(other, (point, other)), expected);
    }
    let largest = facts_outside(MAX_MANTISSA, 0);
    let smallest = facts_outside(1, 28);
    assert!(smallest <= largest);
    assert!(!(largest <= smallest));
    assert!(facts_outside(-MAX_MANTISSA, 0) <= smallest);
    assert!(facts_outside(10, 1) <= facts_outside(1, 0));
    assert!(facts_outside(1, 0) <= facts_outside(1_000, 3));
    assert!(facts_outside(0, 5) <= facts_outside(0, 0));
}

#[test]
fn text_is_read_exactly() {
    let fee = rust_decimal::Decimal::from_str_exact("0.003").unwrap();
    assert_eq!((fee.mantissa(), fee.scale()), (3, 3));
    let band = rust_decimal::Decimal::from_str_exact("1.002").unwrap();
    assert_eq!((band.mantissa(), band.scale()), (1002, 3));
    assert!(rust_decimal::Decimal::from_str_exact("three").is_err());
    assert!(rust_decimal::Decimal::from_str_exact("").is_err());
}
