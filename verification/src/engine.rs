//! The calls into `rust_decimal`, each with the contract the crate relies on.
//!
//! Nothing in this module is proved. Every function hands its stored decimals
//! to the engine exactly as they are, sign of zero included, makes one call,
//! and hands back what the engine returned. Where the engine's result follows
//! from a short rule, the contract states the rule; where it takes the
//! engine's whole algorithm to say (rounding, overflow, the grammar of a
//! literal), the result only gets a name, and the contract says that the call
//! returns it. Every contract also says that what comes back is well formed:
//! the engine never makes a decimal with a scale above 28.
//!
//! `Decimal::from_parts` panics on a scale above 28, so every function here
//! asks for well-formed operands; no stored decimal is anything else.

use std::cmp::Ordering;
use std::str::FromStr;
use vstd::prelude::*;
use rust_decimal::Decimal;
use rust_decimal::Error;
use crate::error::ParseError;
use crate::raw::read_option;
use crate::raw::read_result;
use crate::raw::RawDecimal;
use crate::value::DecimalValue;

verus! {

/// What `Decimal::checked_add` returns for `a + b`; `None` on overflow.
pub uninterp spec fn engine_sum(a: DecimalValue, b: DecimalValue) -> Option<DecimalValue>;

/// What `Decimal::checked_sub` returns for `a - b`; `None` on overflow.
pub uninterp spec fn engine_difference(a: DecimalValue, b: DecimalValue) -> Option<DecimalValue>;

/// What `Decimal::checked_mul` returns for `a * b`; `None` on overflow.
pub uninterp spec fn engine_product(a: DecimalValue, b: DecimalValue) -> Option<DecimalValue>;

/// What `Decimal::checked_div` returns for `a / b`; `None` when `b` is zero
/// and on overflow.
pub uninterp spec fn engine_quotient(a: DecimalValue, b: DecimalValue) -> Option<DecimalValue>;

/// What `Decimal::checked_rem` returns for `a % b`; `None` when `b` is zero
/// and on overflow.
pub uninterp spec fn engine_remainder(a: DecimalValue, b: DecimalValue) -> Option<DecimalValue>;

/// What `Decimal::from_str` returns for `text`.
pub uninterp spec fn engine_reading(text: Seq<char>) -> Result<DecimalValue, ParseError>;

/// The text that `Decimal`'s `Display` writes for `d`.
pub uninterp spec fn engine_text(d: DecimalValue) -> Seq<char>;

/// `Decimal::normalize`: strips trailing fractional zeros and turns a
/// negative zero into the plain zero, leaving the denoted number as it is.
#[verifier::external_body]
pub(crate) fn normalize(d: RawDecimal) -> (r: RawDecimal)
    requires
        d.wf(),
    ensures
        r@ == d@.normalized(),
        r.wf(),
{
    let mut x = Decimal::from_parts(d.lo, d.mid, d.hi, d.negative, d.scale);
    x.set_sign_negative(d.negative);
    let u = x.normalize().unpack();
    RawDecimal { negative: u.negative, scale: u.scale, hi: u.hi, mid: u.mid, lo: u.lo }
}

/// `Ord::cmp` on `Decimal`: orders two decimals by the numbers they denote,
/// whatever their scales; zeros of either sign are equal.
#[verifier::external_body]
pub(crate) fn compare(a: RawDecimal, b: RawDecimal) -> (o: Ordering)
    requires
        a.wf(),
        b.wf(),
    ensures
        o == Ordering::Less <==> a@.less_than(b@),
        o == Ordering::Greater <==> b@.less_than(a@),
{
    let mut x = Decimal::from_parts(a.lo, a.mid, a.hi, a.negative, a.scale);
    x.set_sign_negative(a.negative);
    let mut y = Decimal::from_parts(b.lo, b.mid, b.hi, b.negative, b.scale);
    y.set_sign_negative(b.negative);
    x.cmp(&y)
}

/// `Decimal::checked_add`: the result is the named sum.
#[verifier::external_body]
pub(crate) fn checked_add(a: RawDecimal, b: RawDecimal) -> (r: Option<RawDecimal>)
    requires
        a.wf(),
        b.wf(),
    ensures
        read_option(r) == engine_sum(a@, b@),
        r matches Some(d) ==> d.wf(),
{
    let mut x = Decimal::from_parts(a.lo, a.mid, a.hi, a.negative, a.scale);
    x.set_sign_negative(a.negative);
    let mut y = Decimal::from_parts(b.lo, b.mid, b.hi, b.negative, b.scale);
    y.set_sign_negative(b.negative);
    match x.checked_add(y) {
        Some(z) => {
            let u = z.unpack();
            Some(RawDecimal { negative: u.negative, scale: u.scale, hi: u.hi, mid: u.mid, lo: u.lo })
        },
        None => None,
    }
}

/// `Decimal::checked_sub`: the result is the named difference.
#[verifier::external_body]
pub(crate) fn checked_sub(a: RawDecimal, b: RawDecimal) -> (r: Option<RawDecimal>)
    requires
        a.wf(),
        b.wf(),
    ensures
        read_option(r) == engine_difference(a@, b@),
        r matches Some(d) ==> d.wf(),
{
    let mut x = Decimal::from_parts(a.lo, a.mid, a.hi, a.negative, a.scale);
    x.set_sign_negative(a.negative);
    let mut y = Decimal::from_parts(b.lo, b.mid, b.hi, b.negative, b.scale);
    y.set_sign_negative(b.negative);
    match x.checked_sub(y) {
        Some(z) => {
            let u = z.unpack();
            Some(RawDecimal { negative: u.negative, scale: u.scale, hi: u.hi, mid: u.mid, lo: u.lo })
        },
        None => None,
    }
}

/// `Decimal::checked_mul`: the result is the named product.
#[verifier::external_body]
pub(crate) fn checked_mul(a: RawDecimal, b: RawDecimal) -> (r: Option<RawDecimal>)
    requires
        a.wf(),
        b.wf(),
    ensures
        read_option(r) == engine_product(a@, b@),
        r matches Some(d) ==> d.wf(),
{
    let mut x = Decimal::from_parts(a.lo, a.mid, a.hi, a.negative, a.scale);
    x.set_sign_negative(a.negative);
    let mut y = Decimal::from_parts(b.lo, b.mid, b.hi, b.negative, b.scale);
    y.set_sign_negative(b.negative);
    match x.checked_mul(y) {
        Some(z) => {
            let u = z.unpack();
            Some(RawDecimal { negative: u.negative, scale: u.scale, hi: u.hi, mid: u.mid, lo: u.lo })
        },
        None => None,
    }
}

/// `Decimal::checked_div`: the result is the named quotient, and there is
/// none when the divisor is zero.
#[verifier::external_body]
pub(crate) fn checked_div(a: RawDecimal, b: RawDecimal) -> (r: Option<RawDecimal>)
    requires
        a.wf(),
        b.wf(),
    ensures
        read_option(r) == engine_quotient(a@, b@),
        r matches Some(d) ==> d.wf(),
        b@.is_zero() ==> r is None,
{
    let mut x = Decimal::from_parts(a.lo, a.mid, a.hi, a.negative, a.scale);
    x.set_sign_negative(a.negative);
    let mut y = Decimal::from_parts(b.lo, b.mid, b.hi, b.negative, b.scale);
    y.set_sign_negative(b.negative);
    match x.checked_div(y) {
        Some(z) => {
            let u = z.unpack();
            Some(RawDecimal { negative: u.negative, scale: u.scale, hi: u.hi, mid: u.mid, lo: u.lo })
        },
        None => None,
    }
}

/// `Decimal::checked_rem`: the result is the named remainder, and there is
/// none when the divisor is zero.
#[verifier::external_body]
pub(crate) fn checked_rem(a: RawDecimal, b: RawDecimal) -> (r: Option<RawDecimal>)
    requires
        a.wf(),
        b.wf(),
    ensures
        read_option(r) == engine_remainder(a@, b@),
        r matches Some(d) ==> d.wf(),
        b@.is_zero() ==> r is None,
{
    let mut x = Decimal::from_parts(a.lo, a.mid, a.hi, a.negative, a.scale);
    x.set_sign_negative(a.negative);
    let mut y = Decimal::from_parts(b.lo, b.mid, b.hi, b.negative, b.scale);
    y.set_sign_negative(b.negative);
    match x.checked_rem(y) {
        Some(z) => {
            let u = z.unpack();
            Some(RawDecimal { negative: u.negative, scale: u.scale, hi: u.hi, mid: u.mid, lo: u.lo })
        },
        None => None,
    }
}

/// `Decimal::from_str`: the result is the named reading of the text, with
/// the engine's error carried over variant by variant; an empty text is
/// never a decimal.
#[verifier::external_body]
pub(crate) fn parse(text: &str) -> (r: Result<RawDecimal, ParseError>)
    ensures
        read_result(r) == engine_reading(text@),
        r matches Ok(d) ==> d.wf(),
        text@.len() == 0 ==> r is Err,
{
    match Decimal::from_str(text) {
        Ok(z) => {
            let u = z.unpack();
            Ok(RawDecimal { negative: u.negative, scale: u.scale, hi: u.hi, mid: u.mid, lo: u.lo })
        },
        Err(Error::ErrorString(m)) => Err(ParseError::Invalid(m)),
        Err(Error::ExceedsMaximumPossibleValue) => Err(ParseError::ExceedsMaximum),
        Err(Error::LessThanMinimumPossibleValue) => Err(ParseError::LessThanMinimum),
        Err(Error::Underflow) => Err(ParseError::Underflow),
        Err(Error::ScaleExceedsMaximumPrecision(s)) => Err(ParseError::ScaleExceedsMaximumPrecision(s)),
        Err(Error::ConversionTo(t)) => Err(ParseError::Conversion(t)),
    }
}

/// `Display` for `Decimal`, through `to_string`: the result is the named
/// text.
#[verifier::external_body]
pub(crate) fn format(d: RawDecimal) -> (s: String)
    requires
        d.wf(),
    ensures
        s@ == engine_text(d@),
{
    let mut x = Decimal::from_parts(d.lo, d.mid, d.hi, d.negative, d.scale);
    x.set_sign_negative(d.negative);
    x.to_string()
}

} // verus!
