//! Arithmetic on normalized decimals: the engine computes on normalized
//! operands, and what it returns is normalized again.
//!
//! Each operation comes in four forms. The operator (`a + b`) and the
//! compound assignment (`a.add_assign(b)`) are for operands known to give a
//! result. `checked_add` and `checked_add_assign` are for any operands, and
//! say which error stood in the way.

use std::ops::Add;
use std::ops::Div;
use std::ops::Mul;
use std::ops::Neg;
use std::ops::Rem;
use std::ops::Sub;
use vstd::prelude::*;
use vstd::std_specs::ops::AddSpecImpl;
use vstd::std_specs::ops::DivSpecImpl;
use vstd::std_specs::ops::MulSpecImpl;
use vstd::std_specs::ops::NegSpecImpl;
use vstd::std_specs::ops::RemSpecImpl;
use vstd::std_specs::ops::SubSpecImpl;
use crate::engine;
use crate::error::ArithmeticError;
use crate::norm::NormDecimal;
use crate::normal_form::lemma_normalized_is_normal;
use crate::normal_form::lemma_normalized_sign;
use crate::operand::Operand;
use crate::value::DecimalValue;

verus! {

/// The normal form of what the engine computed, or the overflow that it
/// reported by computing nothing.
pub open spec fn settled(computed: Option<DecimalValue>) -> Result<DecimalValue, ArithmeticError> {
    match computed {
        Some(d) => Ok(d.normalized()),
        None => Err(ArithmeticError::Overflow),
    }
}

/// The reading of a result of checked arithmetic.
pub open spec fn outcome(r: Result<NormDecimal, ArithmeticError>) -> Result<DecimalValue, ArithmeticError> {
    match r {
        Ok(n) => Ok(n@),
        Err(e) => Err(e),
    }
}

/// `a + b`: the engine's sum of `a` and the normal form of `b`, normalized.
pub open spec fn sum_of(a: DecimalValue, b: DecimalValue) -> Result<DecimalValue, ArithmeticError> {
    settled(engine::engine_sum(a, b.normalized()))
}

/// `a - b`: the engine's difference of `a` and the normal form of `b`,
/// normalized.
pub open spec fn difference_of(a: DecimalValue, b: DecimalValue) -> Result<DecimalValue, ArithmeticError> {
    settled(engine::engine_difference(a, b.normalized()))
}

/// `a * b`: the engine's product of `a` and the normal form of `b`,
/// normalized.
pub open spec fn product_of(a: DecimalValue, b: DecimalValue) -> Result<DecimalValue, ArithmeticError> {
    settled(engine::engine_product(a, b.normalized()))
}

/// `a / b`: a division by zero when `b` is zero, else the engine's quotient
/// of `a` and the normal form of `b`, normalized.
pub open spec fn quotient_of(a: DecimalValue, b: DecimalValue) -> Result<DecimalValue, ArithmeticError> {
    if b.is_zero() {
        Err(ArithmeticError::DivisionByZero)
    } else {
        settled(engine::engine_quotient(a, b.normalized()))
    }
}

/// `a % b`: a division by zero when `b` is zero, else the engine's remainder
/// of `a` and the normal form of `b`, normalized.
pub open spec fn remainder_of(a: DecimalValue, b: DecimalValue) -> Result<DecimalValue, ArithmeticError> {
    if b.is_zero() {
        Err(ArithmeticError::DivisionByZero)
    } else {
        settled(engine::engine_remainder(a, b.normalized()))
    }
}

/// `-a`: the sign flag flipped, normalized, so that `-0` is `0`.
pub open spec fn negation_of(a: DecimalValue) -> DecimalValue {
    a.with_sign(!a.negative).normalized()
}

/// Whatever an operation returns is normal.
pub proof fn lemma_settled_is_normal(computed: Option<DecimalValue>)
    ensures
        settled(computed) matches Ok(d) ==> d.is_normal(),
{
    if let Some(d) = computed {
        lemma_normalized_is_normal(d);
    }
}

impl Neg for NormDecimal {
    type Output = NormDecimal;

    /// `-self`, normalized.
    fn neg(self) -> (r: NormDecimal)
        ensures
            r@ == negation_of(self@),
            r@.is_normal(),
    {
        let raw = self.raw();
        let r = NormDecimal::from(raw.with_sign(!raw.is_sign_negative()));
        proof {
            r.lemma_of_view();
        }
        r
    }
}

impl NegSpecImpl for NormDecimal {
    open spec fn obeys_neg_spec() -> bool {
        true
    }

    open spec fn neg_req(self) -> bool {
        true
    }

    open spec fn neg_spec(self) -> NormDecimal {
        NormDecimal::of_value(negation_of(self@))
    }
}

impl<T: Operand> Add<T> for NormDecimal {
    type Output = NormDecimal;

    /// `self + rhs`, normalized. Asks that the sum exists:
    /// [`NormDecimal::checked_add`] is for operands of which that is not known.
    fn add(self, rhs: T) -> (r: NormDecimal)
        ensures
            Ok::<DecimalValue, ArithmeticError>(r@) == sum_of(self@, rhs.as_value()),
            r@.is_normal(),
    {
        let b = NormDecimal::from(rhs.into_raw());
        match engine::checked_add(self.raw(), b.raw()) {
            Some(computed) => {
                let r = NormDecimal::from(computed);
                proof {
                    r.lemma_of_view();
                }
                r
            },
            None => vstd::pervasive::unreached(),
        }
    }
}

impl<T: Operand> AddSpecImpl<T> for NormDecimal {
    open spec fn obeys_add_spec() -> bool {
        true
    }

    open spec fn add_req(self, rhs: T) -> bool {
        sum_of(self@, rhs.as_value()) is Ok
    }

    open spec fn add_spec(self, rhs: T) -> NormDecimal {
        NormDecimal::of_value(sum_of(self@, rhs.as_value())->Ok_0)
    }
}

impl<T: Operand> Sub<T> for NormDecimal {
    type Output = NormDecimal;

    /// `self - rhs`, normalized. Asks that the difference exists:
    /// [`NormDecimal::checked_sub`] is for operands of which that is not known.
    fn sub(self, rhs: T) -> (r: NormDecimal)
        ensures
            Ok::<DecimalValue, ArithmeticError>(r@) == difference_of(self@, rhs.as_value()),
            r@.is_normal(),
    {
        let b = NormDecimal::from(rhs.into_raw());
        match engine::checked_sub(self.raw(), b.raw()) {
            Some(computed) => {
                let r = NormDecimal::from(computed);
                proof {
                    r.lemma_of_view();
                }
                r
            },
            None => vstd::pervasive::unreached(),
        }
    }
}

impl<T: Operand> SubSpecImpl<T> for NormDecimal {
    open spec fn obeys_sub_spec() -> bool {
        true
    }

    open spec fn sub_req(self, rhs: T) -> bool {
        difference_of(self@, rhs.as_value()) is Ok
    }

    open spec fn sub_spec(self, rhs: T) -> NormDecimal {
        NormDecimal::of_value(difference_of(self@, rhs.as_value())->Ok_0)
    }
}

impl<T: Operand> Mul<T> for NormDecimal {
    type Output = NormDecimal;

    /// `self * rhs`, normalized. Asks that the product exists:
    /// [`NormDecimal::checked_mul`] is for operands of which that is not known.
    fn mul(self, rhs: T) -> (r: NormDecimal)
        ensures
            Ok::<DecimalValue, ArithmeticError>(r@) == product_of(self@, rhs.as_value()),
            r@.is_normal(),
    {
        let b = NormDecimal::from(rhs.into_raw());
        match engine::checked_mul(self.raw(), b.raw()) {
            Some(computed) => {
                let r = NormDecimal::from(computed);
                proof {
                    r.lemma_of_view();
                }
                r
            },
            None => vstd::pervasive::unreached(),
        }
    }
}

impl<T: Operand> MulSpecImpl<T> for NormDecimal {
    open spec fn obeys_mul_spec() -> bool {
        true
    }

    open spec fn mul_req(self, rhs: T) -> bool {
        product_of(self@, rhs.as_value()) is Ok
    }

    open spec fn mul_spec(self, rhs: T) -> NormDecimal {
        NormDecimal::of_value(product_of(self@, rhs.as_value())->Ok_0)
    }
}

impl<T: Operand> Div<T> for NormDecimal {
    type Output = NormDecimal;

    /// `self / rhs`, normalized. Asks that the quotient exists:
    /// [`NormDecimal::checked_div`] is for operands of which that is not known.
    fn div(self, rhs: T) -> (r: NormDecimal)
        ensures
            Ok::<DecimalValue, ArithmeticError>(r@) == quotient_of(self@, rhs.as_value()),
            r@.is_normal(),
    {
        let b = NormDecimal::from(rhs.into_raw());
        match engine::checked_div(self.raw(), b.raw()) {
            Some(computed) => {
                let r = NormDecimal::from(computed);
                proof {
                    r.lemma_of_view();
                }
                r
            },
            None => vstd::pervasive::unreached(),
        }
    }
}

impl<T: Operand> DivSpecImpl<T> for NormDecimal {
    open spec fn obeys_div_spec() -> bool {
        true
    }

    open spec fn div_req(self, rhs: T) -> bool {
        quotient_of(self@, rhs.as_value()) is Ok
    }

    open spec fn div_spec(self, rhs: T) -> NormDecimal {
        NormDecimal::of_value(quotient_of(self@, rhs.as_value())->Ok_0)
    }
}

impl<T: Operand> Rem<T> for NormDecimal {
    type Output = NormDecimal;

    /// `self % rhs`, normalized. Asks that the remainder exists:
    /// [`NormDecimal::checked_rem`] is for operands of which that is not known.
    fn rem(self, rhs: T) -> (r: NormDecimal)
        ensures
            Ok::<DecimalValue, ArithmeticError>(r@) == remainder_of(self@, rhs.as_value()),
            r@.is_normal(),
    {
        let b = NormDecimal::from(rhs.into_raw());
        match engine::checked_rem(self.raw(), b.raw()) {
            Some(computed) => {
                let r = NormDecimal::from(computed);
                proof {
                    r.lemma_of_view();
                }
                r
            },
            None => vstd::pervasive::unreached(),
        }
    }
}

impl<T: Operand> RemSpecImpl<T> for NormDecimal {
    open spec fn obeys_rem_spec() -> bool {
        true
    }

    open spec fn rem_req(self, rhs: T) -> bool {
        remainder_of(self@, rhs.as_value()) is Ok
    }

    open spec fn rem_spec(self, rhs: T) -> NormDecimal {
        NormDecimal::of_value(remainder_of(self@, rhs.as_value())->Ok_0)
    }
}

impl NormDecimal {
    /// `self + rhs`, normalized, or the overflow that stood in the way.
    pub fn checked_add<T: Operand>(self, rhs: T) -> (r: Result<NormDecimal, ArithmeticError>)
        ensures
            outcome(r) == sum_of(self@, rhs.as_value()),
            r matches Ok(n) ==> n@.is_normal(),
    {
        let b = NormDecimal::from(rhs.into_raw());
        proof {
            lemma_normalized_is_normal(rhs.as_value());
        }
        if engine::checked_add(self.raw(), b.raw()).is_some() {
            Ok(self + b)
        } else {
            Err(ArithmeticError::Overflow)
        }
    }

    /// `self + rhs` in place of `self`. Asks that the sum exists:
    /// [`NormDecimal::checked_add_assign`] is for operands of which that is
    /// not known.
    pub fn add_assign<T: Operand>(&mut self, rhs: T)
        requires
            sum_of(old(self)@, rhs.as_value()) is Ok,
        ensures
            Ok::<DecimalValue, ArithmeticError>(final(self)@) == sum_of(old(self)@, rhs.as_value()),
            final(self)@.is_normal(),
    {
        *self = *self + rhs;
    }

    /// `self + rhs` in place of `self` where that sum exists; else
    /// `self` stays as it is and the error is returned.
    pub fn checked_add_assign<T: Operand>(&mut self, rhs: T) -> (r: Result<(), ArithmeticError>)
        ensures
            match sum_of(old(self)@, rhs.as_value()) {
                Ok(d) => r is Ok && final(self)@ == d,
                Err(e) => r == Err::<(), ArithmeticError>(e) && *final(self) == *old(self),
            },
    {
        let b = NormDecimal::from(rhs.into_raw());
        proof {
            lemma_normalized_is_normal(rhs.as_value());
        }
        if engine::checked_add(self.raw(), b.raw()).is_some() {
            self.add_assign(b);
            Ok(())
        } else {
            Err(ArithmeticError::Overflow)
        }
    }

    /// `self - rhs`, normalized, or the overflow that stood in the way.
    pub fn checked_sub<T: Operand>(self, rhs: T) -> (r: Result<NormDecimal, ArithmeticError>)
        ensures
            outcome(r) == difference_of(self@, rhs.as_value()),
            r matches Ok(n) ==> n@.is_normal(),
    {
        let b = NormDecimal::from(rhs.into_raw());
        proof {
            lemma_normalized_is_normal(rhs.as_value());
        }
        if engine::checked_sub(self.raw(), b.raw()).is_some() {
            Ok(self - b)
        } else {
            Err(ArithmeticError::Overflow)
        }
    }

    /// `self - rhs` in place of `self`. Asks that the difference exists:
    /// [`NormDecimal::checked_sub_assign`] is for operands of which that is
    /// not known.
    pub fn sub_assign<T: Operand>(&mut self, rhs: T)
        requires
            difference_of(old(self)@, rhs.as_value()) is Ok,
        ensures
            Ok::<DecimalValue, ArithmeticError>(final(self)@) == difference_of(old(self)@, rhs.as_value()),
            final(self)@.is_normal(),
    {
        *self = *self - rhs;
    }

    /// `self - rhs` in place of `self` where that difference exists; else
    /// `self` stays as it is and the error is returned.
    pub fn checked_sub_assign<T: Operand>(&mut self, rhs: T) -> (r: Result<(), ArithmeticError>)
        ensures
            match difference_of(old(self)@, rhs.as_value()) {
                Ok(d) => r is Ok && final(self)@ == d,
                Err(e) => r == Err::<(), ArithmeticError>(e) && *final(self) == *old(self),
            },
    {
        let b = NormDecimal::from(rhs.into_raw());
        proof {
            lemma_normalized_is_normal(rhs.as_value());
        }
        if engine::checked_sub(self.raw(), b.raw()).is_some() {
            self.sub_assign(b);
            Ok(())
        } else {
            Err(ArithmeticError::Overflow)
        }
    }

    /// `self * rhs`, normalized, or the overflow that stood in the way.
    pub fn checked_mul<T: Operand>(self, rhs: T) -> (r: Result<NormDecimal, ArithmeticError>)
        ensures
            outcome(r) == product_of(self@, rhs.as_value()),
            r matches Ok(n) ==> n@.is_normal(),
    {
        let b = NormDecimal::from(rhs.into_raw());
        proof {
            lemma_normalized_is_normal(rhs.as_value());
        }
        if engine::checked_mul(self.raw(), b.raw()).is_some() {
            Ok(self * b)
        } else {
            Err(ArithmeticError::Overflow)
        }
    }

    /// `self * rhs` in place of `self`. Asks that the product exists:
    /// [`NormDecimal::checked_mul_assign`] is for operands of which that is
    /// not known.
    pub fn mul_assign<T: Operand>(&mut self, rhs: T)
        requires
            product_of(old(self)@, rhs.as_value()) is Ok,
        ensures
            Ok::<DecimalValue, ArithmeticError>(final(self)@) == product_of(old(self)@, rhs.as_value()),
            final(self)@.is_normal(),
    {
        *self = *self * rhs;
    }

    /// `self * rhs` in place of `self` where that product exists; else
    /// `self` stays as it is and the error is returned.
    pub fn checked_mul_assign<T: Operand>(&mut self, rhs: T) -> (r: Result<(), ArithmeticError>)
        ensures
            match product_of(old(self)@, rhs.as_value()) {
                Ok(d) => r is Ok && final(self)@ == d,
                Err(e) => r == Err::<(), ArithmeticError>(e) && *final(self) == *old(self),
            },
    {
        let b = NormDecimal::from(rhs.into_raw());
        proof {
            lemma_normalized_is_normal(rhs.as_value());
        }
        if engine::checked_mul(self.raw(), b.raw()).is_some() {
            self.mul_assign(b);
            Ok(())
        } else {
            Err(ArithmeticError::Overflow)
        }
    }

    /// `self / rhs`, normalized; a division by zero when `rhs` is zero,
    /// whatever `self` is; else the overflow that stood in the way.
    pub fn checked_div<T: Operand>(self, rhs: T) -> (r: Result<NormDecimal, ArithmeticError>)
        ensures
            outcome(r) == quotient_of(self@, rhs.as_value()),
            rhs.as_value().is_zero() <==> r == Err::<NormDecimal, ArithmeticError>(
                ArithmeticError::DivisionByZero,
            ),
            r matches Ok(n) ==> n@.is_normal(),
    {
        let b = NormDecimal::from(rhs.into_raw());
        proof {
            lemma_normalized_is_normal(rhs.as_value());
            lemma_normalized_sign(rhs.as_value());
        }
        if b.raw().is_zero() {
            Err(ArithmeticError::DivisionByZero)
        } else if engine::checked_div(self.raw(), b.raw()).is_some() {
            Ok(self / b)
        } else {
            Err(ArithmeticError::Overflow)
        }
    }

    /// `self / rhs` in place of `self`. Asks that the quotient exists:
    /// [`NormDecimal::checked_div_assign`] is for operands of which that is
    /// not known.
    pub fn div_assign<T: Operand>(&mut self, rhs: T)
        requires
            quotient_of(old(self)@, rhs.as_value()) is Ok,
        ensures
            Ok::<DecimalValue, ArithmeticError>(final(self)@) == quotient_of(old(self)@, rhs.as_value()),
            final(self)@.is_normal(),
    {
        *self = *self / rhs;
    }

    /// `self / rhs` in place of `self` where that quotient exists; else
    /// `self` stays as it is and the error is returned.
    pub fn checked_div_assign<T: Operand>(&mut self, rhs: T) -> (r: Result<(), ArithmeticError>)
        ensures
            match quotient_of(old(self)@, rhs.as_value()) {
                Ok(d) => r is Ok && final(self)@ == d,
                Err(e) => r == Err::<(), ArithmeticError>(e) && *final(self) == *old(self),
            },
    {
        let b = NormDecimal::from(rhs.into_raw());
        proof {
            lemma_normalized_is_normal(rhs.as_value());
            lemma_normalized_sign(rhs.as_value());
        }
        if b.raw().is_zero() {
            Err(ArithmeticError::DivisionByZero)
        } else if engine::checked_div(self.raw(), b.raw()).is_some() {
            self.div_assign(b);
            Ok(())
        } else {
            Err(ArithmeticError::Overflow)
        }
    }

    /// `self % rhs`, normalized; a division by zero when `rhs` is zero,
    /// whatever `self` is; else the overflow that stood in the way.
    pub fn checked_rem<T: Operand>(self, rhs: T) -> (r: Result<NormDecimal, ArithmeticError>)
        ensures
            outcome(r) == remainder_of(self@, rhs.as_value()),
            rhs.as_value().is_zero() <==> r == Err::<NormDecimal, ArithmeticError>(
                ArithmeticError::DivisionByZero,
            ),
            r matches Ok(n) ==> n@.is_normal(),
    {
        let b = NormDecimal::from(rhs.into_raw());
        proof {
            lemma_normalized_is_normal(rhs.as_value());
            lemma_normalized_sign(rhs.as_value());
        }
        if b.raw().is_zero() {
            Err(ArithmeticError::DivisionByZero)
        } else if engine::checked_rem(self.raw(), b.raw()).is_some() {
            Ok(self % b)
        } else {
            Err(ArithmeticError::Overflow)
        }
    }

    /// `self % rhs` in place of `self`. Asks that the remainder exists:
    /// [`NormDecimal::checked_rem_assign`] is for operands of which that is
    /// not known.
    pub fn rem_assign<T: Operand>(&mut self, rhs: T)
        requires
            remainder_of(old(self)@, rhs.as_value()) is Ok,
        ensures
            Ok::<DecimalValue, ArithmeticError>(final(self)@) == remainder_of(old(self)@, rhs.as_value()),
            final(self)@.is_normal(),
    {
        *self = *self % rhs;
    }

    /// `self % rhs` in place of `self` where that remainder exists; else
    /// `self` stays as it is and the error is returned.
    pub fn checked_rem_assign<T: Operand>(&mut self, rhs: T) -> (r: Result<(), ArithmeticError>)
        ensures
            match remainder_of(old(self)@, rhs.as_value()) {
                Ok(d) => r is Ok && final(self)@ == d,
                Err(e) => r == Err::<(), ArithmeticError>(e) && *final(self) == *old(self),
            },
    {
        let b = NormDecimal::from(rhs.into_raw());
        proof {
            lemma_normalized_is_normal(rhs.as_value());
            lemma_normalized_sign(rhs.as_value());
        }
        if b.raw().is_zero() {
            Err(ArithmeticError::DivisionByZero)
        } else if engine::checked_rem(self.raw(), b.raw()).is_some() {
            self.rem_assign(b);
            Ok(())
        } else {
            Err(ArithmeticError::Overflow)
        }
    }
}

} // verus!
