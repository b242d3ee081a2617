//! Fixed-precision decimal numbers.
//!
//! A decimal is an integer mantissa of at most 96 bits together with a scale,
//! the number of digits after the decimal point, of at most 28. The arithmetic
//! is that of the `rust_decimal` crate: each operation below hands its operands
//! to that crate and takes the result back as mantissa and scale.

use rust_decimal::MathematicalOps;
use vstd::arithmetic::power::pow;
use vstd::prelude::*;

verus! {

/// Largest number of digits after the decimal point.
pub const MAX_SCALE: u32 = 28;

/// Largest magnitude of a mantissa, `2^96 - 1`.
pub const MAX_MANTISSA: i128 = 79_228_162_514_264_337_593_543_950_335;

/// Ten to the power `e`.
pub open spec fn pow10(e: nat) -> int {
    pow(10, e)
}

/// The number `mantissa / 10^scale`, as the contracts of this crate see a decimal.
pub struct DecimalValue {
    pub mantissa: int,
    pub scale: nat,
}

impl DecimalValue {
    /// The mantissa fits 96 bits and the scale is at most 28.
    pub open spec fn representable(self) -> bool {
        -MAX_MANTISSA <= self.mantissa <= MAX_MANTISSA && self.scale <= MAX_SCALE
    }

    /// `self <= other` as numbers, whatever their scales.
    pub open spec fn at_most(self, other: DecimalValue) -> bool {
        self.mantissa * pow10(other.scale) <= other.mantissa * pow10(self.scale)
    }

    /// `self` and `other` denote the same number.
    pub open spec fn same_number(self, other: DecimalValue) -> bool {
        self.mantissa * pow10(other.scale) == other.mantissa * pow10(self.scale)
    }

    /// The largest integer that is not above the number.
    pub open spec fn whole_part(self) -> int {
        self.mantissa / pow10(self.scale)
    }
}

/// The whole number `n`.
pub open spec fn whole(n: int) -> DecimalValue {
    DecimalValue { mantissa: n, scale: 0 }
}

/// What `rust_decimal` returns for `a + b`; `None` stands for overflow.
pub uninterp spec fn decimal_sum(a: DecimalValue, b: DecimalValue) -> Option<DecimalValue>;

/// What `rust_decimal` returns for `a - b`; `None` stands for overflow.
pub uninterp spec fn decimal_difference(a: DecimalValue, b: DecimalValue) -> Option<DecimalValue>;

/// What `rust_decimal` returns for `a * b` when the exact product has to be
/// rounded to fit; `None` stands for overflow.
pub uninterp spec fn rounded_product(a: DecimalValue, b: DecimalValue) -> Option<DecimalValue>;

/// What `rust_decimal` returns for `a / b` when neither operand is zero;
/// `None` stands for overflow.
pub uninterp spec fn rounded_quotient(a: DecimalValue, b: DecimalValue) -> Option<DecimalValue>;

/// What `rust_decimal` reads from a piece of text; `None` where it rejects the text.
pub uninterp spec fn decimal_from_text(text: Seq<char>) -> Option<DecimalValue>;

/// The product of two decimals where it is exact: a product with a zero factor
/// is the plain zero, and one whose exact mantissa fits is that mantissa with
/// the scales added.
pub open spec fn exact_product(a: DecimalValue, b: DecimalValue) -> Option<DecimalValue> {
    if a.mantissa == 0 || b.mantissa == 0 {
        Some(whole(0))
    } else if -MAX_MANTISSA <= a.mantissa * b.mantissa <= MAX_MANTISSA && a.scale + b.scale
        <= MAX_SCALE {
        Some(DecimalValue { mantissa: a.mantissa * b.mantissa, scale: a.scale + b.scale })
    } else {
        None
    }
}

/// The product of two decimals: exact where `exact_product` says so, rounded
/// otherwise.
pub open spec fn decimal_product(a: DecimalValue, b: DecimalValue) -> Option<DecimalValue> {
    match exact_product(a, b) {
        Some(p) => Some(p),
        None => rounded_product(a, b),
    }
}

/// The quotient of two decimals. Nothing can be divided by zero, and zero
/// divided by anything else is the plain zero.
pub open spec fn decimal_quotient(a: DecimalValue, b: DecimalValue) -> Option<DecimalValue> {
    if b.mantissa == 0 {
        None
    } else if a.mantissa == 0 {
        Some(whole(0))
    } else {
        rounded_quotient(a, b)
    }
}

/// The view of an optional decimal.
pub open spec fn option_value(d: Option<Decimal>) -> Option<DecimalValue> {
    match d {
        Some(x) => Some(x@),
        None => None,
    }
}

/// A decimal number.
#[derive(Clone, Copy, Debug)]
pub struct Decimal {
    mantissa: i128,
    scale: u32,
}

impl View for Decimal {
    type V = DecimalValue;

    closed spec fn view(&self) -> DecimalValue {
        DecimalValue { mantissa: self.mantissa as int, scale: self.scale as nat }
    }
}

impl Decimal {
    /// Every decimal that exists at run time is representable.
    #[verifier::type_invariant]
    pub open spec fn well_formed(self) -> bool {
        self@.representable()
    }

    /// The decimal `mantissa / 10^scale`, if it is representable.
    pub fn try_new(mantissa: i128, scale: u32) -> (r: Option<Decimal>)
        ensures
            r is Some <==> (DecimalValue { mantissa: mantissa as int, scale: scale as nat })
                .representable(),
            r matches Some(d) ==> d@ == (DecimalValue {
                mantissa: mantissa as int,
                scale: scale as nat,
            }),
    {
        if scale <= MAX_SCALE && -MAX_MANTISSA <= mantissa && mantissa <= MAX_MANTISSA {
            Some(Decimal { mantissa, scale })
        } else {
            None
        }
    }

    /// The whole number `n`.
    pub fn from_u64(n: u64) -> (d: Decimal)
        ensures
            d@ == whole(n as int),
    {
        Decimal { mantissa: n as i128, scale: 0 }
    }

    /// The mantissa: the number with its decimal point taken out.
    pub fn mantissa(&self) -> (m: i128)
        ensures
            m == self@.mantissa,
            self@.representable(),
    {
        proof {
            use_type_invariant(self);
        }
        self.mantissa
    }

    /// The scale: the number of digits after the decimal point.
    pub fn scale(&self) -> (s: u32)
        ensures
            s == self@.scale,
            self@.representable(),
    {
        proof {
            use_type_invariant(self);
        }
        self.scale
    }

    /// Whether the number is zero, at whatever scale.
    pub fn is_zero(&self) -> (z: bool)
        ensures
            z == (self@.mantissa == 0),
    {
        self.mantissa == 0
    }

    /// Whether the number is below zero.
    pub fn is_negative(&self) -> (n: bool)
        ensures
            n == (self@.mantissa < 0),
    {
        self.mantissa < 0
    }
}

/// `rust_decimal::Decimal::checked_add`: the sum as that crate computes it,
/// `None` where it reports overflow.
#[verifier::external_body]
pub(crate) fn decimal_add(a: Decimal, b: Decimal) -> (r: Option<Decimal>)
    ensures
        option_value(r) == decimal_sum(a@, b@),
{
    let x = rust_decimal::Decimal::from_i128_with_scale(a.mantissa, a.scale);
    let y = rust_decimal::Decimal::from_i128_with_scale(b.mantissa, b.scale);
    x.checked_add(y).map(|z| Decimal { mantissa: z.mantissa(), scale: z.scale() })
}

/// `rust_decimal::Decimal::checked_sub`: the difference as that crate computes
/// it, `None` where it reports overflow.
#[verifier::external_body]
pub(crate) fn decimal_sub(a: Decimal, b: Decimal) -> (r: Option<Decimal>)
    ensures
        option_value(r) == decimal_difference(a@, b@),
{
    let x = rust_decimal::Decimal::from_i128_with_scale(a.mantissa, a.scale);
    let y = rust_decimal::Decimal::from_i128_with_scale(b.mantissa, b.scale);
    x.checked_sub(y).map(|z| Decimal { mantissa: z.mantissa(), scale: z.scale() })
}

/// `rust_decimal::Decimal::checked_mul`. A zero factor gives the plain zero. A
/// product whose exact mantissa fits 96 bits, with the scales adding up to at
/// most 28, is returned exactly. Any other product is rounded by that crate,
/// or reported as overflow.
#[verifier::external_body]
pub(crate) fn decimal_mul(a: Decimal, b: Decimal) -> (r: Option<Decimal>)
    ensures
        option_value(r) == match exact_product(a@, b@) {
            Some(p) => Some(p),
            None => rounded_product(a@, b@),
        },
{
    let x = rust_decimal::Decimal::from_i128_with_scale(a.mantissa, a.scale);
    let y = rust_decimal::Decimal::from_i128_with_scale(b.mantissa, b.scale);
    x.checked_mul(y).map(|z| Decimal { mantissa: z.mantissa(), scale: z.scale() })
}

/// `rust_decimal::Decimal::checked_div`. A zero divisor gives `None`, a zero
/// dividend the plain zero. Any other quotient is computed and rounded by that
/// crate, or reported as overflow.
#[verifier::external_body]
pub(crate) fn decimal_div(a: Decimal, b: Decimal) -> (r: Option<Decimal>)
    ensures
        option_value(r) == if b@.mantissa == 0 {
            None
        } else if a@.mantissa == 0 {
            Some(whole(0))
        } else {
            rounded_quotient(a@, b@)
        },
{
    let x = rust_decimal::Decimal::from_i128_with_scale(a.mantissa, a.scale);
    let y = rust_decimal::Decimal::from_i128_with_scale(b.mantissa, b.scale);
    x.checked_div(y).map(|z| Decimal { mantissa: z.mantissa(), scale: z.scale() })
}

/// `rust_decimal::Decimal::floor`: the largest integer not above `a`, at scale 0.
#[verifier::external_body]
pub(crate) fn decimal_floor(a: Decimal) -> (r: Decimal)
    ensures
        r@ == whole(a@.whole_part()),
{
    let z = rust_decimal::Decimal::from_i128_with_scale(a.mantissa, a.scale).floor();
    Decimal { mantissa: z.mantissa(), scale: z.scale() }
}

/// `rust_decimal::MathematicalOps::checked_powu` on the constant ten: `10^exp`
/// at scale 0 while that fits 96 bits, which is up to `exp = 28`, and `None`
/// from there on.
#[verifier::external_body]
pub(crate) fn power_of_ten(exp: u8) -> (r: Option<Decimal>)
    ensures
        exp <= MAX_SCALE ==> option_value(r) == Some(whole(pow10(exp as nat))),
        exp > MAX_SCALE ==> r is None,
{
    let z = rust_decimal::Decimal::TEN.checked_powu(u64::from(exp));
    z.map(|z| Decimal { mantissa: z.mantissa(), scale: z.scale() })
}

/// The order of `rust_decimal::Decimal`, which compares the numbers and not
/// their representations.
#[verifier::external_body]
pub(crate) fn decimal_at_most(a: Decimal, b: Decimal) -> (r: bool)
    ensures
        r == a@.at_most(b@),
{
    let x = rust_decimal::Decimal::from_i128_with_scale(a.mantissa, a.scale);
    let y = rust_decimal::Decimal::from_i128_with_scale(b.mantissa, b.scale);
    x <= y
}

/// `rust_decimal::Decimal::from_str_exact`: the decimal that the crate reads
/// from `text`, `None` where it rejects the text.
#[verifier::external_body]
pub(crate) fn parse_decimal(text: &str) -> (r: Option<Decimal>)
    ensures
        option_value(r) == decimal_from_text(text@),
{
    let parsed = rust_decimal::Decimal::from_str_exact(text).ok();
    parsed.map(|z| Decimal { mantissa: z.mantissa(), scale: z.scale() })
}

} // verus!
