//! A decimal as it is stored: three 32-bit limbs, a sign flag and a scale.

use vstd::prelude::*;
use crate::value::from_limbs;
use crate::value::integer_value;
use crate::value::DecimalValue;
use crate::value::MANTISSA_LIMIT;
use crate::value::MAX_SCALE;

verus! {

/// A decimal in its stored form, not necessarily canonical.
///
/// The magnitude is the 96-bit integer `lo + mid * 2^32 + hi * 2^64`; the
/// scale never exceeds [`MAX_SCALE`].
#[derive(Clone, Copy, Debug)]
pub struct RawDecimal {
    pub(crate) negative: bool,
    pub(crate) scale: u32,
    pub(crate) hi: u32,
    pub(crate) mid: u32,
    pub(crate) lo: u32,
}

impl View for RawDecimal {
    type V = DecimalValue;

    closed spec fn view(&self) -> DecimalValue {
        from_limbs(self.lo, self.mid, self.hi, self.negative, self.scale)
    }
}

/// The reading of an optional stored decimal.
pub open spec fn read_option(r: Option<RawDecimal>) -> Option<DecimalValue> {
    match r {
        Some(d) => Some(d@),
        None => None,
    }
}

/// The reading of a stored decimal or the error that stands in its place.
pub open spec fn read_result<E>(r: Result<RawDecimal, E>) -> Result<DecimalValue, E> {
    match r {
        Ok(d) => Ok(d@),
        Err(e) => Err(e),
    }
}

impl RawDecimal {
    /// What holds of every stored decimal: the scale is at most
    /// [`MAX_SCALE`].
    #[verifier::type_invariant]
    pub closed spec fn wf(self) -> bool {
        self.scale <= MAX_SCALE
    }

    /// The decimal `± (lo + mid * 2^32 + hi * 2^64) / 10^scale`, or `None`
    /// when `scale` is more than [`MAX_SCALE`].
    pub fn from_parts(lo: u32, mid: u32, hi: u32, negative: bool, scale: u32) -> (r: Option<RawDecimal>)
        ensures
            match r {
                Some(d) => scale <= MAX_SCALE && d@ == from_limbs(lo, mid, hi, negative, scale),
                None => scale > MAX_SCALE,
            },
    {
        if scale > MAX_SCALE {
            None
        } else {
            Some(RawDecimal { negative, scale, hi, mid, lo })
        }
    }

    /// The integer `n`, with scale 0.
    pub fn from_u64(n: u64) -> (r: RawDecimal)
        ensures
            r@ == integer_value(n as int),
    {
        let lo = (n % 0x1_0000_0000) as u32;
        let mid = (n / 0x1_0000_0000) as u32;
        RawDecimal { negative: false, scale: 0, hi: 0, mid, lo }
    }

    /// The integer `n`, with scale 0 and the sign of `n`.
    pub fn from_i64(n: i64) -> (r: RawDecimal)
        ensures
            r@ == integer_value(n as int),
    {
        let magnitude: u64 = if n < 0 {
            (-(n as i128)) as u64
        } else {
            n as u64
        };
        let lo = (magnitude % 0x1_0000_0000) as u32;
        let mid = (magnitude / 0x1_0000_0000) as u32;
        RawDecimal { negative: n < 0, scale: 0, hi: 0, mid, lo }
    }

    /// The same decimal under the sign flag `negative`; the magnitude and
    /// the scale are left as they are, also when the magnitude is zero.
    pub fn with_sign(self, negative: bool) -> (r: RawDecimal)
        ensures
            r@ == self@.with_sign(negative),
    {
        proof {
            use_type_invariant(self);
        }
        RawDecimal { negative, scale: self.scale, hi: self.hi, mid: self.mid, lo: self.lo }
    }

    /// Number of fractional digits.
    pub fn scale(&self) -> (s: u32)
        ensures
            s == self@.scale,
            s <= MAX_SCALE,
    {
        proof {
            use_type_invariant(self);
        }
        self.scale
    }

    /// The magnitude, without sign.
    pub fn magnitude(&self) -> (m: u128)
        ensures
            m == self@.mantissa,
            m < MANTISSA_LIMIT,
    {
        self.lo as u128 + (self.mid as u128) * 0x1_0000_0000 + (self.hi as u128) * 0x1_0000_0000_0000_0000
    }

    /// Whether the sign flag is set; a zero can have it set.
    pub fn is_sign_negative(&self) -> (b: bool)
        ensures
            b == self@.negative,
    {
        self.negative
    }

    /// Whether the sign flag is clear.
    pub fn is_sign_positive(&self) -> (b: bool)
        ensures
            b == !self@.negative,
    {
        !self.negative
    }

    /// The magnitude with the sign applied; a negative zero gives 0.
    pub fn mantissa(&self) -> (m: i128)
        ensures
            m == self@.signed(),
    {
        let magnitude = self.magnitude() as i128;
        if self.negative {
            -magnitude
        } else {
            magnitude
        }
    }

    /// Whether the magnitude is zero.
    pub fn is_zero(&self) -> (b: bool)
        ensures
            b == self@.is_zero(),
    {
        self.lo == 0 && self.mid == 0 && self.hi == 0
    }

    /// The stored decimal that reads as `d`; meaningful for a `d` in range.
    pub closed spec fn of_value(d: DecimalValue) -> RawDecimal {
        RawDecimal {
            negative: d.negative,
            scale: d.scale as u32,
            hi: (d.mantissa / 0x1_0000_0000_0000_0000) as u32,
            mid: (d.mantissa / 0x1_0000_0000 % 0x1_0000_0000) as u32,
            lo: (d.mantissa % 0x1_0000_0000) as u32,
        }
    }

    /// A well-formed stored decimal reads as a value in range.
    pub proof fn lemma_in_range(self)
        requires
            self.wf(),
        ensures
            self@.in_range(),
    {
    }

    /// A stored decimal is determined by the value it reads as.
    pub proof fn lemma_of_view(self)
        ensures
            RawDecimal::of_value(self@) == self,
    {
    }

    /// Every value in range is the reading of a well-formed stored decimal.
    pub proof fn lemma_view_of(d: DecimalValue)
        requires
            d.in_range(),
        ensures
            RawDecimal::of_value(d)@ == d,
            RawDecimal::of_value(d).wf(),
    {
    }
}

} // verus!
