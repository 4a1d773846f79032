//! Equality and order of normalized decimals, by the numbers they denote.

use std::cmp::Ordering;
use vstd::prelude::*;
use vstd::std_specs::cmp::PartialEqSpecImpl;
use vstd::std_specs::cmp::PartialOrdSpecImpl;
use crate::engine;
use crate::norm::NormDecimal;
use crate::operand::Operand;
use crate::value::DecimalValue;

verus! {

/// How the number that `a` denotes stands to the one that `b` denotes.
pub open spec fn order_of(a: DecimalValue, b: DecimalValue) -> Ordering {
    if a.less_than(b) {
        Ordering::Less
    } else if b.less_than(a) {
        Ordering::Greater
    } else {
        Ordering::Equal
    }
}

/// The larger of `a` and `b`, normalized; `b` where they denote the same
/// number.
pub open spec fn larger_of(a: DecimalValue, b: DecimalValue) -> DecimalValue {
    if b.less_than(a) {
        a.normalized()
    } else {
        b.normalized()
    }
}

/// The smaller of `a` and `b`, normalized; `b` where they denote the same
/// number.
pub open spec fn smaller_of(a: DecimalValue, b: DecimalValue) -> DecimalValue {
    if a.less_than(b) {
        a.normalized()
    } else {
        b.normalized()
    }
}

impl NormDecimal {
    /// Compares the numbers that `self` and `other` denote.
    pub fn cmp(&self, other: &NormDecimal) -> (o: Ordering)
        ensures
            o == order_of(self@, other@),
    {
        engine::compare(self.raw(), other.raw())
    }

    /// The larger of `self` and `other`, normalized; `other` where the two
    /// denote the same number.
    pub fn max<T: Operand>(self, other: T) -> (r: NormDecimal)
        ensures
            r@ == larger_of(self@, other.as_value()),
            r@.is_normal(),
    {
        let b = other.into_raw();
        proof {
            use_type_invariant(&b);
        }
        match engine::compare(b, self.raw()) {
            Ordering::Less => NormDecimal::from(self.raw()),
            _ => NormDecimal::from(b),
        }
    }

    /// The smaller of `self` and `other`, normalized; `other` where the two
    /// denote the same number.
    pub fn min<T: Operand>(self, other: T) -> (r: NormDecimal)
        ensures
            r@ == smaller_of(self@, other.as_value()),
            r@.is_normal(),
    {
        let b = other.into_raw();
        proof {
            use_type_invariant(&b);
        }
        match engine::compare(b, self.raw()) {
            Ordering::Greater => NormDecimal::from(self.raw()),
            _ => NormDecimal::from(b),
        }
    }
}

impl PartialEq for NormDecimal {
    /// Whether `self` and `other` denote the same number; a negative zero
    /// equals the plain zero.
    fn eq(&self, other: &NormDecimal) -> (r: bool) {
        match engine::compare(self.raw(), other.raw()) {
            Ordering::Equal => true,
            _ => false,
        }
    }
}

impl PartialEqSpecImpl for NormDecimal {
    open spec fn obeys_eq_spec() -> bool {
        true
    }

    open spec fn eq_spec(&self, other: &NormDecimal) -> bool {
        self@.same_number(other@)
    }
}

impl Eq for NormDecimal {}

impl PartialOrd for NormDecimal {
    /// The order of the numbers that `self` and `other` denote; it is total.
    fn partial_cmp(&self, other: &NormDecimal) -> (r: Option<Ordering>) {
        Some(engine::compare(self.raw(), other.raw()))
    }
}

impl PartialOrdSpecImpl for NormDecimal {
    open spec fn obeys_partial_cmp_spec() -> bool {
        true
    }

    open spec fn partial_cmp_spec(&self, other: &NormDecimal) -> Option<Ordering> {
        Some(order_of(self@, other@))
    }
}

} // verus!
