//! What can stand where a decimal is expected: a decimal, stored or
//! normalized, or an integer.

use vstd::prelude::*;
use crate::norm::NormDecimal;
use crate::raw::RawDecimal;
use crate::value::integer_value;
use crate::value::DecimalValue;

verus! {

/// A value that converts to a stored decimal without loss.
///
/// The arithmetic operators, `max` and `min` take any such value on their
/// right-hand side, so that an integer can be written there as it is.
pub trait Operand: Sized {
    /// The decimal value that `self` stands for.
    spec fn as_value(self) -> DecimalValue;

    /// The stored decimal that `self` stands for.
    fn into_raw(self) -> (r: RawDecimal)
        ensures
            r@ == self.as_value(),
    ;
}

impl Operand for RawDecimal {
    open spec fn as_value(self) -> DecimalValue {
        self@
    }

    fn into_raw(self) -> (r: RawDecimal) {
        self
    }
}

impl<'a> Operand for &'a RawDecimal {
    open spec fn as_value(self) -> DecimalValue {
        self@
    }

    fn into_raw(self) -> (r: RawDecimal) {
        *self
    }
}

impl Operand for NormDecimal {
    open spec fn as_value(self) -> DecimalValue {
        self@
    }

    fn into_raw(self) -> (r: RawDecimal) {
        self.raw()
    }
}

impl Operand for u8 {
    open spec fn as_value(self) -> DecimalValue {
        integer_value(self as int)
    }

    fn into_raw(self) -> (r: RawDecimal) {
        RawDecimal::from_u64(self as u64)
    }
}

impl Operand for i8 {
    open spec fn as_value(self) -> DecimalValue {
        integer_value(self as int)
    }

    fn into_raw(self) -> (r: RawDecimal) {
        RawDecimal::from_i64(self as i64)
    }
}

impl Operand for u16 {
    open spec fn as_value(self) -> DecimalValue {
        integer_value(self as int)
    }

    fn into_raw(self) -> (r: RawDecimal) {
        RawDecimal::from_u64(self as u64)
    }
}

impl Operand for i16 {
    open spec fn as_value(self) -> DecimalValue {
        integer_value(self as int)
    }

    fn into_raw(self) -> (r: RawDecimal) {
        RawDecimal::from_i64(self as i64)
    }
}

impl Operand for u32 {
    open spec fn as_value(self) -> DecimalValue {
        integer_value(self as int)
    }

    fn into_raw(self) -> (r: RawDecimal) {
        RawDecimal::from_u64(self as u64)
    }
}

impl Operand for i32 {
    open spec fn as_value(self) -> DecimalValue {
        integer_value(self as int)
    }

    fn into_raw(self) -> (r: RawDecimal) {
        RawDecimal::from_i64(self as i64)
    }
}

impl Operand for u64 {
    open spec fn as_value(self) -> DecimalValue {
        integer_value(self as int)
    }

    fn into_raw(self) -> (r: RawDecimal) {
        RawDecimal::from_u64(self)
    }
}

impl Operand for i64 {
    open spec fn as_value(self) -> DecimalValue {
        integer_value(self as int)
    }

    fn into_raw(self) -> (r: RawDecimal) {
        RawDecimal::from_i64(self)
    }
}

} // verus!
