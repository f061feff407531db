//! Money amounts: a decimal number held as an integer mantissa and a power-of-ten
//! scale, as `rust_decimal::Decimal` holds it; parsing and arithmetic are done by that
//! crate.

use vstd::prelude::*;
use vstd::arithmetic::power::pow;
use std::str::FromStr;

verus! {

/// The largest mantissa a decimal can hold (96 bits).
pub open spec fn max_mantissa() -> int {
    0xFFFF_FFFF_FFFF_FFFF_FFFF_FFFF
}

/// What `Decimal::from_str` reads from a text, as (mantissa, scale), or the description
/// of its error.
pub uninterp spec fn decimal_parsed(text: Seq<char>) -> Result<(i128, u32), Seq<char>>;

/// What `Decimal::checked_sub` gives for two decimals given by (mantissa, scale).
pub uninterp spec fn decimal_sub(a: (i128, u32), b: (i128, u32)) -> Option<(i128, u32)>;

/// What `Decimal::checked_div` gives for two decimals given by (mantissa, scale).
pub uninterp spec fn decimal_div(a: (i128, u32), b: (i128, u32)) -> Option<(i128, u32)>;

/// What `Decimal::checked_mul` gives for two decimals given by (mantissa, scale).
pub uninterp spec fn decimal_mul(a: (i128, u32), b: (i128, u32)) -> Option<(i128, u32)>;

/// The decimal digits of a natural number, most significant first; none for zero.
pub open spec fn decimal_digits(n: nat) -> Seq<char>
    decreases n,
{
    if n == 0 {
        Seq::empty()
    } else {
        decimal_digits(n / 10).push(((48 + n % 10) as u32) as char)
    }
}

/// The digits of a decimal's mantissa, with zeros in front up to as many digits as the
/// scale.
pub open spec fn padded_digits(m: int, scale: nat) -> Seq<char> {
    let d = decimal_digits((if m < 0 { -m } else { m }) as nat);
    if d.len() < scale {
        Seq::new((scale - d.len()) as nat, |i: int| '0') + d
    } else {
        d
    }
}

/// The text `Decimal`'s `Display` gives for a decimal given by (mantissa, scale): a
/// minus sign for a negative mantissa, then the whole part (`0` when it is empty) and,
/// for a positive scale, a point and the `scale` last digits.
pub open spec fn decimal_text(a: (i128, u32)) -> Seq<char> {
    let d = padded_digits(a.0 as int, a.1 as nat);
    let whole = d.subrange(0, d.len() - a.1);
    let whole_text = if whole.len() == 0 { seq!['0'] } else { whole };
    let sign = if a.0 < 0 { seq!['-'] } else { Seq::<char>::empty() };
    if a.1 == 0 {
        sign + whole_text
    } else {
        sign + whole_text + seq!['.'] + d.subrange(d.len() - a.1, d.len() as int)
    }
}

/// True for a (mantissa, scale) pair that a decimal can hold.
pub open spec fn holdable(p: (i128, u32)) -> bool {
    -max_mantissa() <= p.0 <= max_mantissa() && p.1 <= 28
}

/// A decimal amount.
#[derive(Clone, Copy, Debug, PartialEq, Eq, Structural)]
pub struct Amount {
    mantissa: i128,
    scale: u32,
}

impl Amount {
    pub closed spec fn parts(self) -> (i128, u32) {
        (self.mantissa, self.scale)
    }

    #[verifier::type_invariant]
    closed spec fn holds(self) -> bool {
        holdable((self.mantissa, self.scale))
    }

    /// The amount `mantissa / 10^scale`, when a decimal can hold it.
    pub fn from_parts(mantissa: i128, scale: u32) -> (r: Option<Amount>)
        ensures
            r is Some <==> holdable((mantissa, scale)),
            r matches Some(a) ==> a.parts() == (mantissa, scale),
    {
        if scale <= 28 && -0xFFFF_FFFF_FFFF_FFFF_FFFF_FFFFi128 <= mantissa && mantissa <= 0xFFFF_FFFF_FFFF_FFFF_FFFF_FFFFi128 {
            Some(Amount { mantissa, scale })
        } else {
            None
        }
    }

    pub fn mantissa(&self) -> (r: i128)
        ensures
            r == self.parts().0,
    {
        self.mantissa
    }

    pub fn scale(&self) -> (r: u32)
        ensures
            r == self.parts().1,
    {
        self.scale
    }

    /// True for an amount below zero.
    pub fn is_negative(&self) -> (r: bool)
        ensures
            r == (self.parts().0 < 0),
    {
        self.mantissa < 0
    }

    /// True for an amount of zero.
    pub fn is_zero(&self) -> (r: bool)
        ensures
            r == (self.parts().0 == 0),
    {
        self.mantissa == 0
    }

    /// Reads a decimal number, as `Decimal::from_str` does.
    pub fn parse(text: &str) -> (r: Result<Amount, String>)
        ensures
            match decimal_parsed(text@) {
                Ok(p) => r matches Ok(a) && a.parts() == p,
                Err(m) => r matches Err(s) && s@ == m,
            },
    {
        match parse_decimal_parts(text) {
            Ok((mantissa, scale)) => Ok(Amount { mantissa, scale }),
            Err(e) => Err(e),
        }
    }

    /// `self - other`, or `None` where the difference overflows.
    pub fn checked_sub(&self, other: &Amount) -> (r: Option<Amount>)
        ensures
            match decimal_sub(self.parts(), other.parts()) {
                Some(p) => r matches Some(a) && a.parts() == p,
                None => r is None,
            },
    {
        proof {
            use_type_invariant(self);
            use_type_invariant(other);
        }
        match decimal_sub_parts((self.mantissa, self.scale), (other.mantissa, other.scale)) {
            Some((mantissa, scale)) => Some(Amount { mantissa, scale }),
            None => None,
        }
    }

    /// `self / other`, or `None` for a zero divisor or an overflow.
    pub fn checked_div(&self, other: &Amount) -> (r: Option<Amount>)
        ensures
            match decimal_div(self.parts(), other.parts()) {
                Some(p) => r matches Some(a) && a.parts() == p,
                None => r is None,
            },
    {
        proof {
            use_type_invariant(self);
            use_type_invariant(other);
        }
        match decimal_div_parts((self.mantissa, self.scale), (other.mantissa, other.scale)) {
            Some((mantissa, scale)) => Some(Amount { mantissa, scale }),
            None => None,
        }
    }

    /// `self * other`, or `None` where the product overflows.
    pub fn checked_mul(&self, other: &Amount) -> (r: Option<Amount>)
        ensures
            match decimal_mul(self.parts(), other.parts()) {
                Some(p) => r matches Some(a) && a.parts() == p,
                None => r is None,
            },
    {
        proof {
            use_type_invariant(self);
            use_type_invariant(other);
        }
        match decimal_mul_parts((self.mantissa, self.scale), (other.mantissa, other.scale)) {
            Some((mantissa, scale)) => Some(Amount { mantissa, scale }),
            None => None,
        }
    }

    /// True when the two amounts are the same number, whatever their scales.
    pub fn same_value_as(&self, other: &Amount) -> (r: bool)
        ensures
            r == same_value(self.parts(), other.parts()),
    {
        proof {
            use_type_invariant(self);
            use_type_invariant(other);
        }
        decimal_eq_parts((self.mantissa, self.scale), (other.mantissa, other.scale))
    }

    /// The amount as `Decimal` writes it.
    pub fn to_text(&self) -> (r: String)
        ensures
            r@ == decimal_text(self.parts()),
    {
        proof {
            use_type_invariant(self);
        }
        format_decimal(self.mantissa, self.scale)
    }
}

/// True when two (mantissa, scale) pairs stand for the same number:
/// `a.0 / 10^a.1 == b.0 / 10^b.1`.
pub open spec fn same_value(a: (i128, u32), b: (i128, u32)) -> bool {
    a.0 * pow(10, b.1 as nat) == b.0 * pow(10, a.1 as nat)
}

/// Calls `==` on the decimals built from the parts with `Decimal::from_i128_with_scale`;
/// the crate compares decimals by the numbers they stand for.
#[verifier::external_body]
fn decimal_eq_parts(a: (i128, u32), b: (i128, u32)) -> (r: bool)
    requires
        holdable(a),
        holdable(b),
    ensures
        r == same_value(a, b),
{
    rust_decimal::Decimal::from_i128_with_scale(a.0, a.1) == rust_decimal::Decimal::from_i128_with_scale(b.0, b.1)
}

/// Calls `Decimal::from_str` and gives the result as (`mantissa()`, `scale()`), or the
/// error's `to_string()`. The crate documents that a decimal's mantissa fits in 96 bits
/// and its scale is at most 28.
#[verifier::external_body]
fn parse_decimal_parts(text: &str) -> (r: Result<(i128, u32), String>)
    ensures
        match decimal_parsed(text@) {
            Ok(p) => r == Ok::<(i128, u32), String>(p) && holdable(p),
            Err(m) => r matches Err(s) && s@ == m,
        },
{
    match rust_decimal::Decimal::from_str(text) {
        Ok(d) => Ok((d.mantissa(), d.scale())),
        Err(e) => Err(e.to_string()),
    }
}

/// Calls `Decimal::checked_sub` on the decimals built from the parts with
/// `Decimal::from_i128_with_scale` (which cannot panic on holdable parts); the result is
/// given as (`mantissa()`, `scale()`), which a decimal can hold.
#[verifier::external_body]
fn decimal_sub_parts(a: (i128, u32), b: (i128, u32)) -> (r: Option<(i128, u32)>)
    requires
        holdable(a),
        holdable(b),
    ensures
        r == decimal_sub(a, b),
        r matches Some(p) ==> holdable(p),
{
    let x = rust_decimal::Decimal::from_i128_with_scale(a.0, a.1);
    let y = rust_decimal::Decimal::from_i128_with_scale(b.0, b.1);
    x.checked_sub(y).map(|d| (d.mantissa(), d.scale()))
}

/// Calls `Decimal::checked_div` (no result for a zero divisor) on the decimals built from the parts with
/// `Decimal::from_i128_with_scale` (which cannot panic on holdable parts); the result is
/// given as (`mantissa()`, `scale()`), which a decimal can hold.
#[verifier::external_body]
fn decimal_div_parts(a: (i128, u32), b: (i128, u32)) -> (r: Option<(i128, u32)>)
    requires
        holdable(a),
        holdable(b),
    ensures
        r == decimal_div(a, b),
        r matches Some(p) ==> holdable(p),
{
    let x = rust_decimal::Decimal::from_i128_with_scale(a.0, a.1);
    let y = rust_decimal::Decimal::from_i128_with_scale(b.0, b.1);
    x.checked_div(y).map(|d| (d.mantissa(), d.scale()))
}

/// Calls `Decimal::checked_mul` on the decimals built from the parts with
/// `Decimal::from_i128_with_scale` (which cannot panic on holdable parts); the result is
/// given as (`mantissa()`, `scale()`), which a decimal can hold.
#[verifier::external_body]
fn decimal_mul_parts(a: (i128, u32), b: (i128, u32)) -> (r: Option<(i128, u32)>)
    requires
        holdable(a),
        holdable(b),
    ensures
        r == decimal_mul(a, b),
        r matches Some(p) ==> holdable(p),
{
    let x = rust_decimal::Decimal::from_i128_with_scale(a.0, a.1);
    let y = rust_decimal::Decimal::from_i128_with_scale(b.0, b.1);
    x.checked_mul(y).map(|d| (d.mantissa(), d.scale()))
}

/// Calls `Decimal::from_i128_with_scale(mantissa, scale).to_string()`.
#[verifier::external_body]
fn format_decimal(mantissa: i128, scale: u32) -> (r: String)
    requires
        holdable((mantissa, scale)),
    ensures
        r@ == decimal_text((mantissa, scale)),
{
    rust_decimal::Decimal::from_i128_with_scale(mantissa, scale).to_string()
}

} // verus!
