//! Exact decimal amounts, computed by the `rust_decimal` crate.
//!
//! An amount is held as the two integers that make a decimal number: a signed
//! mantissa of at most 96 bits and a scale, the count of digits after the
//! point. All arithmetic is done by `rust_decimal` on exactly these values.

use rust_decimal::Decimal;
use std::str::FromStr;
use vstd::arithmetic::power::pow;
use vstd::prelude::*;

verus! {

/// The largest scale of a decimal.
pub const MAX_SCALE: u32 = 28;

/// The bound on the magnitude of a mantissa: two to the power 96.
pub const MANTISSA_BOUND: i128 = 79_228_162_514_264_337_593_543_950_336;

/// A decimal number as mathematics sees it: `mantissa / 10^scale`.
pub struct DecimalValue {
    pub mantissa: int,
    pub scale: nat,
}

impl DecimalValue {
    /// Whether a decimal of the `rust_decimal` crate can hold this number.
    pub open spec fn representable(self) -> bool {
        -MANTISSA_BOUND < self.mantissa < MANTISSA_BOUND && self.scale <= MAX_SCALE
    }

    /// Whether this number is greater than `other`, as numbers: trailing
    /// zeros do not count.
    pub open spec fn exceeds(self, other: DecimalValue) -> bool {
        self.mantissa * pow(10, other.scale) > other.mantissa * pow(10, self.scale)
    }

    /// Whether the two are the same number, whatever their scales.
    pub open spec fn same_number(self, other: DecimalValue) -> bool {
        self.mantissa * pow(10, other.scale) == other.mantissa * pow(10, self.scale)
    }
}

/// What `rust_decimal` parses a text to: mantissa and scale, or nothing where
/// it rejects the text.
pub uninterp spec fn decimal_parsed(text: Seq<char>) -> Option<(int, nat)>;

/// What `rust_decimal` prints for a mantissa and a scale.
pub uninterp spec fn decimal_text(mantissa: int, scale: nat) -> Seq<char>;

/// What `rust_decimal` makes of a decimal cut to `places` fractional digits.
pub uninterp spec fn decimal_truncated(mantissa: int, scale: nat, places: nat) -> (int, nat);

/// The sum that `rust_decimal` computes, or nothing where it overflows.
pub uninterp spec fn decimal_sum(am: int, ascale: nat, bm: int, bscale: nat) -> Option<(int, nat)>;

/// The difference that `rust_decimal` computes, or nothing where it
/// overflows.
pub uninterp spec fn decimal_difference(am: int, ascale: nat, bm: int, bscale: nat) -> Option<
    (int, nat),
>;

/// The product that `rust_decimal` computes, or nothing where it overflows.
pub uninterp spec fn decimal_product(am: int, ascale: nat, bm: int, bscale: nat) -> Option<
    (int, nat),
>;

/// A pair of mantissa and scale as a decimal value.
pub open spec fn value_of(pair: (int, nat)) -> DecimalValue {
    DecimalValue { mantissa: pair.0, scale: pair.1 }
}

/// A named result that may be missing, as a decimal value.
pub open spec fn value_of_option(pair: Option<(int, nat)>) -> Option<DecimalValue> {
    match pair {
        Some(p) => Some(value_of(p)),
        None => None,
    }
}

/// The parsed value of a text.
pub open spec fn parsed_value(text: Seq<char>) -> Option<DecimalValue> {
    value_of_option(decimal_parsed(text))
}

/// The printed form of a value.
pub open spec fn value_text(v: DecimalValue) -> Seq<char> {
    decimal_text(v.mantissa, v.scale)
}

/// A value cut to `places` fractional digits.
pub open spec fn value_truncated(v: DecimalValue, places: nat) -> DecimalValue {
    value_of(decimal_truncated(v.mantissa, v.scale, places))
}

/// The checked sum of two values.
pub open spec fn value_sum(a: DecimalValue, b: DecimalValue) -> Option<DecimalValue> {
    value_of_option(decimal_sum(a.mantissa, a.scale, b.mantissa, b.scale))
}

/// The checked difference of two values.
pub open spec fn value_difference(a: DecimalValue, b: DecimalValue) -> Option<DecimalValue> {
    value_of_option(decimal_difference(a.mantissa, a.scale, b.mantissa, b.scale))
}

/// The checked product of two values.
pub open spec fn value_product(a: DecimalValue, b: DecimalValue) -> Option<DecimalValue> {
    value_of_option(decimal_product(a.mantissa, a.scale, b.mantissa, b.scale))
}

/// How a raw result of a wrapper relates to a named result.
spec fn raw_is(raw: Option<(i128, u32)>, named: Option<(int, nat)>) -> bool {
    match raw {
        Some(p) => named == Some((p.0 as int, p.1 as nat)) && value_of(
            (p.0 as int, p.1 as nat),
        ).representable(),
        None => named is None,
    }
}

/// Calls `Decimal::from_str`.
///
/// Trusted: the mantissa and scale of the decimal that the text parses to,
/// or `None` where the crate rejects the text; a function of the text alone.
/// Every decimal of the crate has a mantissa below 2^96 in magnitude and a
/// scale of at most 28.
#[verifier::external_body]
fn decimal_from_str(text: &str) -> (r: Option<(i128, u32)>)
    ensures
        raw_is(r, decimal_parsed(text@)),
{
    match Decimal::from_str(text) {
        Ok(d) => Some((d.mantissa(), d.scale())),
        Err(_) => None,
    }
}

/// Calls `to_string` on the decimal with this mantissa and scale.
///
/// Trusted: the text is a function of mantissa and scale alone.
#[verifier::external_body]
fn decimal_to_string(mantissa: i128, scale: u32) -> (r: String)
    requires
        value_of((mantissa as int, scale as nat)).representable(),
    ensures
        r@ == decimal_text(mantissa as int, scale as nat),
{
    Decimal::from_i128_with_scale(mantissa, scale).to_string()
}

/// Calls `Decimal::trunc_with_scale`.
///
/// Trusted: the result is a decimal of the crate and a function of the
/// arguments alone. The crate cuts digits beyond `places` without rounding.
/// Asked for more places than a decimal has, the crate may hand back a scale
/// above 28: hence the demand on `places`.
#[verifier::external_body]
fn decimal_trunc_with_scale(mantissa: i128, scale: u32, places: u32) -> (r: (i128, u32))
    requires
        value_of((mantissa as int, scale as nat)).representable(),
        places <= MAX_SCALE,
    ensures
        (r.0 as int, r.1 as nat) == decimal_truncated(
            mantissa as int,
            scale as nat,
            places as nat,
        ),
        value_of((r.0 as int, r.1 as nat)).representable(),
{
    let d = Decimal::from_i128_with_scale(mantissa, scale).trunc_with_scale(places);
    (d.mantissa(), d.scale())
}

/// Calls `Decimal::checked_add`.
///
/// Trusted: the sum as the crate computes it, `None` on overflow.
#[verifier::external_body]
fn decimal_checked_add(am: i128, ascale: u32, bm: i128, bscale: u32) -> (r: Option<(i128, u32)>)
    requires
        value_of((am as int, ascale as nat)).representable(),
        value_of((bm as int, bscale as nat)).representable(),
    ensures
        raw_is(r, decimal_sum(am as int, ascale as nat, bm as int, bscale as nat)),
{
    let a = Decimal::from_i128_with_scale(am, ascale);
    let b = Decimal::from_i128_with_scale(bm, bscale);
    match a.checked_add(b) {
        Some(d) => Some((d.mantissa(), d.scale())),
        None => None,
    }
}

/// Calls `Decimal::checked_sub`.
///
/// Trusted: the difference as the crate computes it, `None` on overflow.
#[verifier::external_body]
fn decimal_checked_sub(am: i128, ascale: u32, bm: i128, bscale: u32) -> (r: Option<(i128, u32)>)
    requires
        value_of((am as int, ascale as nat)).representable(),
        value_of((bm as int, bscale as nat)).representable(),
    ensures
        raw_is(r, decimal_difference(am as int, ascale as nat, bm as int, bscale as nat)),
{
    let a = Decimal::from_i128_with_scale(am, ascale);
    let b = Decimal::from_i128_with_scale(bm, bscale);
    match a.checked_sub(b) {
        Some(d) => Some((d.mantissa(), d.scale())),
        None => None,
    }
}

/// Calls `Decimal::checked_mul`.
///
/// Trusted: the product as the crate computes it, `None` on overflow.
#[verifier::external_body]
fn decimal_checked_mul(am: i128, ascale: u32, bm: i128, bscale: u32) -> (r: Option<(i128, u32)>)
    requires
        value_of((am as int, ascale as nat)).representable(),
        value_of((bm as int, bscale as nat)).representable(),
    ensures
        raw_is(r, decimal_product(am as int, ascale as nat, bm as int, bscale as nat)),
{
    let a = Decimal::from_i128_with_scale(am, ascale);
    let b = Decimal::from_i128_with_scale(bm, bscale);
    match a.checked_mul(b) {
        Some(d) => Some((d.mantissa(), d.scale())),
        None => None,
    }
}

/// Compares two decimals with the crate's `>`.
///
/// Trusted: the crate orders decimals as numbers, so the comparison is that
/// of the mantissas brought to a common scale.
#[verifier::external_body]
fn decimal_greater(am: i128, ascale: u32, bm: i128, bscale: u32) -> (r: bool)
    requires
        value_of((am as int, ascale as nat)).representable(),
        value_of((bm as int, bscale as nat)).representable(),
    ensures
        r == value_of((am as int, ascale as nat)).exceeds(value_of((bm as int, bscale as nat))),
{
    Decimal::from_i128_with_scale(am, ascale) > Decimal::from_i128_with_scale(bm, bscale)
}

/// An exact decimal amount. Two amounts are `==` where mantissa and scale
/// agree; `same_number` compares them as numbers.
#[derive(Clone, Copy, Debug, PartialEq, Eq)]
pub struct Amount {
    mantissa: i128,
    scale: u32,
}

impl View for Amount {
    type V = DecimalValue;

    closed spec fn view(&self) -> DecimalValue {
        DecimalValue { mantissa: self.mantissa as int, scale: self.scale as nat }
    }
}

impl Amount {
    #[verifier::type_invariant]
    spec fn well_formed(self) -> bool {
        self@.representable()
    }

    fn from_raw(raw: (i128, u32)) -> (r: Amount)
        requires
            value_of((raw.0 as int, raw.1 as nat)).representable(),
        ensures
            r@ == value_of((raw.0 as int, raw.1 as nat)),
    {
        Amount { mantissa: raw.0, scale: raw.1 }
    }

    fn from_raw_option(raw: Option<(i128, u32)>, Ghost(named): Ghost<Option<(int, nat)>>) -> (r:
        Option<Amount>)
        requires
            raw_is(raw, named),
        ensures
            r is Some <==> named is Some,
            r matches Some(a) ==> Some(a@) == value_of_option(named),
    {
        match raw {
            Some(p) => Some(Self::from_raw(p)),
            None => None,
        }
    }

    /// The amount zero, with no fractional digits.
    pub fn zero() -> (r: Amount)
        ensures
            r@ == (DecimalValue { mantissa: 0, scale: 0 }),
    {
        Amount { mantissa: 0, scale: 0 }
    }

    /// The amount with the given mantissa and scale, where a decimal can
    /// hold them.
    pub fn from_parts(mantissa: i128, scale: u32) -> (r: Option<Amount>)
        ensures
            r is Some <==> (DecimalValue {
                mantissa: mantissa as int,
                scale: scale as nat,
            }).representable(),
            r matches Some(a) ==> a@ == (DecimalValue {
                mantissa: mantissa as int,
                scale: scale as nat,
            }),
    {
        if -MANTISSA_BOUND < mantissa && mantissa < MANTISSA_BOUND && scale <= MAX_SCALE {
            Some(Amount { mantissa, scale })
        } else {
            None
        }
    }

    /// The mantissa. Its magnitude stays below 2^96.
    pub fn mantissa(&self) -> (r: i128)
        ensures
            r == self@.mantissa,
            self@.representable(),
    {
        proof {
            use_type_invariant(self);
        }
        self.mantissa
    }

    /// The number of fractional digits, at most 28.
    pub fn scale(&self) -> (r: u32)
        ensures
            r == self@.scale,
            self@.representable(),
    {
        proof {
            use_type_invariant(self);
        }
        self.scale
    }

    /// Parses a decimal text. `None` where the text is no decimal.
    pub fn parse(text: &str) -> (r: Option<Amount>)
        ensures
            r is Some <==> parsed_value(text@) is Some,
            r matches Some(a) ==> Some(a@) == parsed_value(text@),
    {
        Self::from_raw_option(decimal_from_str(text), Ghost(decimal_parsed(text@)))
    }

    /// The printed form, with as many fractional digits as the scale.
    pub fn to_text(&self) -> (r: String)
        ensures
            r@ == value_text(self@),
    {
        proof {
            use_type_invariant(self);
        }
        decimal_to_string(self.mantissa, self.scale)
    }

    /// Cuts the amount to `places` fractional digits, without rounding. A
    /// decimal has at most 28 of them: more places than that are taken as 28.
    pub fn trunc_with_scale(&self, places: u32) -> (r: Amount)
        ensures
            r@ == value_truncated(
                self@,
                if places <= MAX_SCALE {
                    places as nat
                } else {
                    MAX_SCALE as nat
                },
            ),
    {
        proof {
            use_type_invariant(self);
        }
        let places: u32 = if places <= MAX_SCALE {
            places
        } else {
            MAX_SCALE
        };
        Self::from_raw(decimal_trunc_with_scale(self.mantissa, self.scale, places))
    }

    /// The sum, or `None` where it overflows.
    pub fn checked_add(&self, other: &Amount) -> (r: Option<Amount>)
        ensures
            r is Some <==> value_sum(self@, other@) is Some,
            r matches Some(a) ==> Some(a@) == value_sum(self@, other@),
    {
        proof {
            use_type_invariant(self);
            use_type_invariant(other);
        }
        Self::from_raw_option(
            decimal_checked_add(self.mantissa, self.scale, other.mantissa, other.scale),
            Ghost(decimal_sum(self@.mantissa, self@.scale, other@.mantissa, other@.scale)),
        )
    }

    /// The difference, or `None` where it overflows.
    pub fn checked_sub(&self, other: &Amount) -> (r: Option<Amount>)
        ensures
            r is Some <==> value_difference(self@, other@) is Some,
            r matches Some(a) ==> Some(a@) == value_difference(self@, other@),
    {
        proof {
            use_type_invariant(self);
            use_type_invariant(other);
        }
        Self::from_raw_option(
            decimal_checked_sub(self.mantissa, self.scale, other.mantissa, other.scale),
            Ghost(decimal_difference(self@.mantissa, self@.scale, other@.mantissa, other@.scale)),
        )
    }

    /// The product, or `None` where it overflows.
    pub fn checked_mul(&self, other: &Amount) -> (r: Option<Amount>)
        ensures
            r is Some <==> value_product(self@, other@) is Some,
            r matches Some(a) ==> Some(a@) == value_product(self@, other@),
    {
        proof {
            use_type_invariant(self);
            use_type_invariant(other);
        }
        Self::from_raw_option(
            decimal_checked_mul(self.mantissa, self.scale, other.mantissa, other.scale),
            Ghost(decimal_product(self@.mantissa, self@.scale, other@.mantissa, other@.scale)),
        )
    }

    /// Whether this amount is greater than `other`, as numbers.
    pub fn exceeds(&self, other: &Amount) -> (r: bool)
        ensures
            r == self@.exceeds(other@),
    {
        proof {
            use_type_invariant(self);
            use_type_invariant(other);
        }
        decimal_greater(self.mantissa, self.scale, other.mantissa, other.scale)
    }

    /// Whether the two amounts are the same number, whatever their scales.
    pub fn same_number(&self, other: &Amount) -> (r: bool)
        ensures
            r == self@.same_number(other@),
    {
        !self.exceeds(other) && !other.exceeds(self)
    }
}

} // verus!
