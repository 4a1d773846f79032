//! Decimal numbers that are always held in canonical form.
//!
//! A [`NormDecimal`] wraps a 96-bit fixed-point decimal and keeps its scale
//! minimal, so that two values denoting the same number have the same
//! representation: `1.50` and `1.5` are both held as `1.5`. The numeric work
//! (arithmetic, ordering, parsing, formatting, stripping of trailing zeros)
//! is done by `rust_decimal`; this crate states what it relies on and proves
//! the rest.
//!
//! * [`value`] is the mathematical model that every contract speaks of, and
//!   [`normal_form`] holds the facts about its normal form.
//! * [`raw`] is a decimal as it is stored, canonical or not.
//! * [`engine`] holds the calls into `rust_decimal` and what is assumed of
//!   them.
//! * [`norm`], [`convert`], [`operand`], [`arith`], [`order`], [`aggregate`],
//!   [`text`] and [`hashing`] are the normalized decimal and its operations.
//! * [`laws`] states what holds of them whatever the operands.
//!
//! A negative zero is kept where the sign was forced on a zero, and nowhere
//! else: see [`NormDecimal`].

pub mod aggregate;
pub mod arith;
pub mod convert;
pub mod engine;
pub mod error;
pub mod hashing;
pub mod laws;
pub mod norm;
pub mod normal_form;
pub mod operand;
pub mod order;
pub mod raw;
pub mod text;
pub mod value;

pub use error::ArithmeticError;
pub use error::ParseError;
pub use norm::NormDecimal;
pub use operand::Operand;
pub use raw::RawDecimal;
