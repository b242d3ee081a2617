//! Conversion between decimal quantities and a token's integer base units.
//!
//! Towards base units the scaling is done by the decimal arithmetic of
//! `rust_decimal`. What it returns is then held against the exact scaling of
//! the mantissa, which takes one integer multiplication or division: an amount
//! is handed out only if it is the exact floor, so no amount is ever above the
//! quantity it stands for. The way back needs no arithmetic: `n` base units of
//! a token with `d` decimal places are the decimal with mantissa `n` and scale
//! `d`.

use crate::decimal::{
    decimal_floor, decimal_mul, decimal_product, exact_product, pow10, power_of_ten, whole,
    Decimal, DecimalValue, MAX_MANTISSA, MAX_SCALE,
};
use crate::error::KeeperError;
use crate::uint::U256;
use vstd::arithmetic::div_mod::{
    lemma_div_by_multiple, lemma_div_multiples_vanish_quotient, lemma_fundamental_div_mod,
    lemma_mod_division_less_than_divisor,
};
use vstd::arithmetic::mul::{lemma_mul_is_associative, lemma_mul_is_commutative};
use vstd::arithmetic::power::{lemma_pow_adds, lemma_pow_increases, lemma_pow_positive, pow};
use vstd::prelude::*;

verus! {

/// `x * 10^decimals`, cut off below the decimal point.
pub open spec fn scaled_floor(x: DecimalValue, decimals: nat) -> int {
    (x.mantissa * pow10(decimals)) / pow10(x.scale)
}

/// The number of base units in the quantity `x` of a token with `decimals`
/// decimal places: the floor of `x * 10^decimals`. There is none where the
/// quantity is negative, where ten to that power or the product is out of the
/// decimal range, or where the product was rounded past its exact floor.
pub open spec fn base_units(x: DecimalValue, decimals: nat) -> Option<nat> {
    if decimals > MAX_SCALE {
        None
    } else {
        match decimal_product(x, whole(pow10(decimals))) {
            None => None,
            Some(p) => if p.whole_part() == scaled_floor(x, decimals) && 0 <= scaled_floor(
                x,
                decimals,
            ) <= MAX_MANTISSA {
                Some(scaled_floor(x, decimals) as nat)
            } else {
                None
            },
        }
    }
}

/// The quantity that `n` base units of a token with `decimals` decimal places
/// make: exactly `n / 10^decimals`. There is none where `n` does not fit a
/// mantissa or `decimals` is more than a decimal can carry.
pub open spec fn quantity_of_base_units(n: nat, decimals: nat) -> Option<DecimalValue> {
    if n <= MAX_MANTISSA && decimals <= MAX_SCALE {
        Some(DecimalValue { mantissa: n as int, scale: decimals })
    } else {
        None
    }
}

/// `10^28`, the largest power of ten that a mantissa holds.
pub const LARGEST_POWER_OF_TEN: u128 = 10_000_000_000_000_000_000_000_000_000;

proof fn lemma_largest_power_of_ten()
    ensures
        pow10(28) == LARGEST_POWER_OF_TEN,
{
    assert(pow10(7) == 10_000_000) by {
        reveal_with_fuel(pow, 8);
    }
    lemma_pow_adds(10, 7, 7);
    assert(pow10(14) == pow10(7) * pow10(7));
    assert(pow10(14) == 100_000_000_000_000);
    lemma_pow_adds(10, 14, 14);
    assert(pow10(28) == pow10(14) * pow10(14));
    assert(100_000_000_000_000int * 100_000_000_000_000int
        == 10_000_000_000_000_000_000_000_000_000int);
}

fn ten_to_the(exponent: u32) -> (r: u128)
    requires
        exponent <= MAX_SCALE,
    ensures
        r == pow10(exponent as nat),
        1 <= r <= LARGEST_POWER_OF_TEN,
{
    let mut power: u128 = 1;
    let mut i: u32 = 0;
    assert(pow10(0) == 1) by {
        reveal(pow);
    }
    proof {
        lemma_largest_power_of_ten();
    }
    while i < exponent
        invariant
            i <= exponent <= MAX_SCALE,
            power == pow10(i as nat),
            1 <= power <= LARGEST_POWER_OF_TEN,
            pow10(28) == LARGEST_POWER_OF_TEN,
        decreases exponent - i,
    {
        proof {
            assert(pow10((i + 1) as nat) == 10 * pow10(i as nat)) by {
                reveal(pow);
            }
            lemma_pow_increases(10, (i + 1) as nat, 28);
        }
        power = power * 10;
        i += 1;
    }
    power
}

/// The exact floor of `dec * 10^decimals`, if it is not negative and fits a
/// mantissa.
fn exact_floor(dec: Decimal, decimals: u8) -> (r: Option<u128>)
    requires
        decimals <= MAX_SCALE,
    ensures
        r matches Some(n) ==> n == scaled_floor(dec@, decimals as nat),
        r is None ==> !(0 <= scaled_floor(dec@, decimals as nat) <= MAX_MANTISSA),
{
    let mantissa = dec.mantissa();
    let scale = dec.scale();
    let ghost p = pow10(decimals as nat);
    let ghost q = pow10(scale as nat);
    proof {
        lemma_pow_positive(10, decimals as nat);
        lemma_pow_positive(10, scale as nat);
    }
    if mantissa < 0 {
        assert((mantissa * p) / q < 0) by (nonlinear_arith)
            requires
                mantissa < 0,
                p > 0,
                q > 0,
        ;
        return None;
    }
    let m = mantissa as u128;
    if decimals as u32 >= scale {
        let factor = ten_to_the(decimals as u32 - scale);
        proof {
            lemma_pow_adds(10, (decimals - scale) as nat, scale as nat);
            lemma_mul_is_associative(m as int, factor as int, q);
            lemma_mul_is_commutative(m * factor, q);
            assert(m * factor >= 0) by (nonlinear_arith)
                requires
                    m >= 0,
                    factor >= 0,
            ;
            lemma_div_by_multiple(m * factor, q);
            assert(m * p == (m * factor) * q);
            assert(scaled_floor(dec@, decimals as nat) == m * factor);
        }
        match m.checked_mul(factor) {
            Some(n) => if n <= MAX_MANTISSA as u128 {
                Some(n)
            } else {
                None
            },
            None => None,
        }
    } else {
        let factor = ten_to_the(scale - decimals as u32);
        proof {
            lemma_pow_adds(10, decimals as nat, (scale - decimals) as nat);
            lemma_div_multiples_vanish_quotient(p, m as int, factor as int);
            lemma_mul_is_commutative(m as int, p);
            assert(scaled_floor(dec@, decimals as nat) == m as int / factor as int);
        }
        Some(m / factor)
    }
}

/// Converts a decimal quantity to base units. The amount is the exact floor of
/// `dec * 10^decimals`: it never exceeds the quantity.
pub fn decimal_to_u256(dec: Decimal, decimals: u8) -> (r: Result<U256, KeeperError>)
    ensures
        match base_units(dec@, decimals as nat) {
            Some(n) => r matches Ok(v) && v@ == n,
            None => r == Err::<U256, KeeperError>(KeeperError::ArithmeticOverflow),
        },
        r matches Ok(v) ==> v@ == scaled_floor(dec@, decimals as nat),
{
    let factor = match power_of_ten(decimals) {
        Some(f) => f,
        None => { return Err(KeeperError::ArithmeticOverflow); },
    };
    let scaled = match decimal_mul(dec, factor) {
        Some(s) => s,
        None => { return Err(KeeperError::ArithmeticOverflow); },
    };
    let rounded = decimal_floor(scaled);
    if rounded.is_negative() {
        return Err(KeeperError::ArithmeticOverflow);
    }
    let amount = rounded.mantissa() as u128;
    match exact_floor(dec, decimals) {
        Some(exact) => if exact == amount {
            Ok(U256::from_u128(amount))
        } else {
            Err(KeeperError::ArithmeticOverflow)
        },
        None => Err(KeeperError::ArithmeticOverflow),
    }
}

/// Converts a number of base units to the decimal quantity it stands for.
pub fn u256_to_decimal(value: &U256, decimals: u8) -> (r: Result<Decimal, KeeperError>)
    ensures
        match quantity_of_base_units(value@, decimals as nat) {
            Some(q) => r matches Ok(d) && d@ == q,
            None => r == Err::<Decimal, KeeperError>(KeeperError::ArithmeticOverflow),
        },
{
    let mantissa = match value.to_u128() {
        Some(v) => v,
        None => { return Err(KeeperError::ArithmeticOverflow); },
    };
    if mantissa > MAX_MANTISSA as u128 {
        return Err(KeeperError::ArithmeticOverflow);
    }
    match Decimal::try_new(mantissa as i128, decimals as u32) {
        Some(d) => Ok(d),
        None => Err(KeeperError::ArithmeticOverflow),
    }
}

/// A non-negative quantity whose mantissa, scaled by `10^decimals`, still fits
/// a decimal has base units: the conversion succeeds on it.
pub proof fn lemma_base_units_exist(x: DecimalValue, decimals: nat)
    requires
        x.representable(),
        decimals <= MAX_SCALE,
        0 <= x.mantissa,
        x.mantissa * pow10(decimals) <= MAX_MANTISSA,
    ensures
        base_units(x, decimals) == Some(scaled_floor(x, decimals) as nat),
{
    let p = pow10(decimals);
    let q = pow10(x.scale);
    lemma_pow_positive(10, decimals);
    lemma_pow_positive(10, x.scale);
    assert(pow10(0) == 1) by {
        reveal(pow);
    }
    if x.mantissa == 0 {
        assert(x.mantissa * p == 0);
        assert(0int / q == 0) by (nonlinear_arith)
            requires
                q > 0,
        ;
        assert(0int / 1 == 0);
    } else {
        assert(x.mantissa * p >= 0) by (nonlinear_arith)
            requires
                x.mantissa >= 0,
                p > 0,
        ;
        assert(exact_product(x, whole(p)) == Some(
            DecimalValue { mantissa: x.mantissa * p, scale: x.scale },
        ));
        assert((x.mantissa * p) / q >= 0) by (nonlinear_arith)
            requires
                x.mantissa * p >= 0,
                q > 0,
        ;
    }
}

/// Base units never exceed the quantity they stand for, and fall short of it
/// by less than one unit: `n <= x * 10^decimals < n + 1`.
pub proof fn lemma_base_units_round_down(x: DecimalValue, decimals: nat, n: nat)
    requires
        base_units(x, decimals) == Some(n),
    ensures
        n * pow10(x.scale) <= x.mantissa * pow10(decimals) < (n + 1) * pow10(x.scale),
{
    let a = x.mantissa * pow10(decimals);
    let q = pow10(x.scale);
    lemma_pow_positive(10, x.scale);
    lemma_fundamental_div_mod(a, q);
    lemma_mod_division_less_than_divisor(a, q);
    assert(n == a / q);
    assert(a == q * n + a % q);
    assert(q * n == n * q) by (nonlinear_arith);
    assert((n + 1) * q == n * q + q) by (nonlinear_arith);
}

/// A quantity that has no more than `decimals` decimal places comes back from
/// its base units as the same number: whenever the conversion to base units
/// succeeds, the conversion back succeeds too, with no drift.
pub proof fn lemma_round_trip(x: DecimalValue, decimals: nat, n: nat)
    requires
        x.scale <= decimals,
        base_units(x, decimals) == Some(n),
    ensures
        quantity_of_base_units(n, decimals) matches Some(y) && y.same_number(x),
{
    let p = pow10(decimals);
    let q = pow10(x.scale);
    let rest = pow10((decimals - x.scale) as nat);
    lemma_pow_positive(10, decimals);
    lemma_pow_positive(10, x.scale);
    lemma_pow_positive(10, (decimals - x.scale) as nat);
    lemma_pow_adds(10, (decimals - x.scale) as nat, x.scale);
    assert(p == rest * q);
    let m = x.mantissa;
    assert(m * p == (m * rest) * q) by {
        lemma_mul_is_associative(m, rest, q);
    }
    assert(n == scaled_floor(x, decimals));
    if m < 0 {
        assert((m * p) / q < 0) by (nonlinear_arith)
            requires
                m < 0,
                p > 0,
                q > 0,
        ;
    }
    assert(m * rest >= 0) by (nonlinear_arith)
        requires
            m >= 0,
            rest > 0,
    ;
    assert(((m * rest) * q) / q == m * rest) by {
        lemma_mul_is_commutative(m * rest, q);
        lemma_div_by_multiple(m * rest, q);
    }
    assert(n == m * rest);
}

} // verus!
