//! The ways in which an operation on decimals can fail.

use vstd::prelude::*;

verus! {

/// Why a text was not read as a decimal, as the engine reports it.
#[derive(Clone, Debug, PartialEq, Eq)]
pub enum ParseError {
    /// The text is not a decimal literal; the message says what is wrong.
    Invalid(String),
    /// The number is above the largest decimal.
    ExceedsMaximum,
    /// The number is below the smallest decimal.
    LessThanMinimum,
    /// The text has more fractional digits than a decimal can hold.
    Underflow,
    /// The scale asked for is above the largest scale.
    ScaleExceedsMaximumPrecision(u32),
    /// A conversion to the named type failed.
    Conversion(String),
}

/// Why an arithmetic operation gave no result.
#[derive(Clone, Copy, Debug, PartialEq, Eq, Structural)]
pub enum ArithmeticError {
    /// The right-hand operand of a division or remainder is zero.
    DivisionByZero,
    /// The result does not fit a decimal.
    Overflow,
}

} // verus!
