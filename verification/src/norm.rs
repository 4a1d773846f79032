//! The normalized decimal: construction, unwrapping and sign control.

use std::ops::Deref;
use vstd::prelude::*;
use vstd::std_specs::convert::FromSpecImpl;
use crate::engine;
use crate::normal_form::lemma_normalized_is_normal;
use crate::raw::RawDecimal;
use crate::value::integer_value;
use crate::value::DecimalValue;

verus! {

/// A decimal that is always held with its least scale.
///
/// Every way of making one normalizes: trailing fractional zeros are
/// stripped and a zero gets scale 0 and no sign. Two normalized decimals that
/// denote the same number are therefore stored alike. The one exception is
/// the sign of zero: [`NormDecimal::set_sign_negative`] sets the sign flag
/// and nothing else, so it can leave a negative zero behind. Such a zero
/// still has scale 0, compares equal to the plain zero, and is turned back
/// into it by any further operation.
#[derive(Clone, Copy, Debug)]
pub struct NormDecimal {
    raw: RawDecimal,
}

impl View for NormDecimal {
    type V = DecimalValue;

    closed spec fn view(&self) -> DecimalValue {
        self.raw@
    }
}

impl NormDecimal {
    /// What holds of every normalized decimal: its scale is the least
    /// possible.
    #[verifier::type_invariant]
    pub closed spec fn wf(self) -> bool {
        self.raw@.is_canonical()
    }

    /// The normalized decimal that reads as `d`; meaningful for a canonical
    /// `d` in range.
    pub closed spec fn of_value(d: DecimalValue) -> NormDecimal {
        NormDecimal { raw: RawDecimal::of_value(d) }
    }

    /// A well-formed decimal reads as a canonical value.
    pub proof fn lemma_canonical(self)
        requires
            self.wf(),
        ensures
            self@.is_canonical(),
    {
    }

    /// A normalized decimal is determined by the value it reads as.
    pub proof fn lemma_of_view(self)
        ensures
            NormDecimal::of_value(self@) == self,
    {
        self.raw.lemma_of_view();
    }

    /// Every canonical value in range is the reading of a well-formed
    /// decimal.
    pub proof fn lemma_view_of(d: DecimalValue)
        requires
            d.in_range(),
            d.is_canonical(),
        ensures
            NormDecimal::of_value(d)@ == d,
            NormDecimal::of_value(d).wf(),
    {
        RawDecimal::lemma_view_of(d);
    }

    /// The additive identity, `0`.
    pub fn zero() -> (r: NormDecimal)
        ensures
            r@ == integer_value(0),
    {
        NormDecimal { raw: RawDecimal::from_u64(0) }
    }

    /// The multiplicative identity, `1`.
    pub fn one() -> (r: NormDecimal)
        ensures
            r@ == integer_value(1),
    {
        NormDecimal { raw: RawDecimal::from_u64(1) }
    }

    /// The stored decimal inside, which is canonical and in range.
    pub fn raw(&self) -> (r: RawDecimal)
        ensures
            r@ == self@,
            r@.is_canonical(),
            r@.in_range(),
            r.wf(),
    {
        proof {
            use_type_invariant(self);
            use_type_invariant(&self.raw);
            self.raw.lemma_in_range();
        }
        self.raw
    }

    /// Sets the sign flag to `negative` and leaves magnitude and scale as
    /// they are. Nothing is normalized: on a zero this sets the flag too.
    pub fn set_sign_negative(&mut self, negative: bool)
        ensures
            final(self)@ == old(self)@.with_sign(negative),
    {
        proof {
            use_type_invariant(&*self);
        }
        self.raw = self.raw.with_sign(negative);
    }

    /// Clears the sign flag if `positive`, sets it otherwise, and leaves
    /// magnitude and scale as they are. Nothing is normalized.
    pub fn set_sign_positive(&mut self, positive: bool)
        ensures
            final(self)@ == old(self)@.with_sign(!positive),
    {
        proof {
            use_type_invariant(&*self);
        }
        self.raw = self.raw.with_sign(!positive);
    }
}

impl From<RawDecimal> for NormDecimal {
    /// Normalizes `value` and wraps it.
    fn from(value: RawDecimal) -> (r: NormDecimal)
        ensures
            r@ == value@.normalized(),
            r@.is_normal(),
    {
        proof {
            use_type_invariant(&value);
        }
        let raw = engine::normalize(value);
        proof {
            lemma_normalized_is_normal(value@);
            raw.lemma_of_view();
        }
        NormDecimal { raw }
    }
}

impl FromSpecImpl<RawDecimal> for NormDecimal {
    open spec fn obeys_from_spec() -> bool {
        true
    }

    open spec fn from_spec(v: RawDecimal) -> NormDecimal {
        NormDecimal::of_value(v@.normalized())
    }
}

impl<'a> From<&'a RawDecimal> for NormDecimal {
    /// Normalizes `value` and wraps it.
    fn from(value: &'a RawDecimal) -> (r: NormDecimal)
        ensures
            r@ == value@.normalized(),
            r@.is_normal(),
    {
        NormDecimal::from(*value)
    }
}

impl<'a> FromSpecImpl<&'a RawDecimal> for NormDecimal {
    open spec fn obeys_from_spec() -> bool {
        true
    }

    open spec fn from_spec(v: &'a RawDecimal) -> NormDecimal {
        NormDecimal::of_value(v@.normalized())
    }
}

impl From<NormDecimal> for RawDecimal {
    /// Unwraps the stored decimal.
    fn from(value: NormDecimal) -> (r: RawDecimal)
        ensures
            r@ == value@,
    {
        let r = value.raw();
        proof {
            r.lemma_of_view();
        }
        r
    }
}

impl FromSpecImpl<NormDecimal> for RawDecimal {
    open spec fn obeys_from_spec() -> bool {
        true
    }

    open spec fn from_spec(v: NormDecimal) -> RawDecimal {
        RawDecimal::of_value(v@)
    }
}

impl Deref for NormDecimal {
    type Target = RawDecimal;

    /// Read-only access to the stored decimal.
    fn deref(&self) -> (r: &RawDecimal)
        ensures
            r@ == self@,
    {
        &self.raw
    }
}

impl Default for NormDecimal {
    /// Zero.
    fn default() -> (r: NormDecimal)
        ensures
            r@ == integer_value(0),
    {
        NormDecimal::zero()
    }
}

} // verus!
