//! The mathematical reading of a decimal: a sign, a magnitude and a scale.

use vstd::prelude::*;

verus! {

/// Largest number of fractional digits a decimal can carry.
pub const MAX_SCALE: u32 = 28;

/// Exclusive upper bound of a decimal's magnitude: 2^96.
pub const MANTISSA_LIMIT: u128 = 0x1_0000_0000_0000_0000_0000_0000;

/// Ten to the power `n`.
pub open spec fn pow10(n: nat) -> nat
    decreases n,
{
    if n == 0 {
        1
    } else {
        10 * pow10((n - 1) as nat)
    }
}

/// The number `± mantissa / 10^scale`, together with the way it is written.
///
/// The sign is kept apart from the magnitude, so a zero can carry a negative
/// sign, and the scale counts trailing fractional zeros too: `1.50` and `1.5`
/// are different values that denote the same number.
pub struct DecimalValue {
    pub negative: bool,
    pub mantissa: nat,
    pub scale: nat,
}

/// The decimal whose magnitude has the 32-bit limbs `lo`, `mid` and `hi`,
/// lowest first.
pub open spec fn from_limbs(lo: u32, mid: u32, hi: u32, negative: bool, scale: u32) -> DecimalValue {
    DecimalValue {
        negative,
        mantissa: (lo + mid * 0x1_0000_0000 + hi * 0x1_0000_0000_0000_0000) as nat,
        scale: scale as nat,
    }
}

/// The integer `n` as a decimal of scale 0.
pub open spec fn integer_value(n: int) -> DecimalValue {
    DecimalValue { negative: n < 0, mantissa: (if n < 0 { -n } else { n }) as nat, scale: 0 }
}

impl DecimalValue {
    /// The value fits the 96-bit representation.
    pub open spec fn in_range(self) -> bool {
        self.mantissa < MANTISSA_LIMIT && self.scale <= MAX_SCALE
    }

    /// The magnitude with its sign applied.
    pub open spec fn signed(self) -> int {
        if self.negative {
            -(self.mantissa as int)
        } else {
            self.mantissa as int
        }
    }

    /// The same magnitude and scale under the sign flag `negative`.
    pub open spec fn with_sign(self, negative: bool) -> DecimalValue {
        DecimalValue { negative, mantissa: self.mantissa, scale: self.scale }
    }

    /// The magnitude is zero, whatever the sign and scale.
    pub open spec fn is_zero(self) -> bool {
        self.mantissa == 0
    }

    /// `self` denotes a smaller number than `other`.
    pub open spec fn less_than(self, other: DecimalValue) -> bool {
        self.signed() * pow10(other.scale) < other.signed() * pow10(self.scale)
    }

    /// `self` and `other` denote the same number.
    pub open spec fn same_number(self, other: DecimalValue) -> bool {
        self.signed() * pow10(other.scale) == other.signed() * pow10(self.scale)
    }

    /// The scale is the least one that can write the number: no trailing
    /// fractional zero, and zero has scale 0.
    pub open spec fn is_canonical(self) -> bool {
        &&& self.mantissa == 0 ==> self.scale == 0
        &&& self.scale > 0 ==> self.mantissa % 10 != 0
    }

    /// Canonical, and a zero carries no negative sign.
    pub open spec fn is_normal(self) -> bool {
        &&& self.is_canonical()
        &&& self.mantissa == 0 ==> !self.negative
    }

    /// The normal form: trailing fractional zeros stripped one by one, and
    /// any zero turned into the plain zero.
    pub open spec fn normalized(self) -> DecimalValue
        decreases self.scale,
    {
        if self.mantissa == 0 {
            DecimalValue { negative: false, mantissa: 0, scale: 0 }
        } else if self.scale > 0 && self.mantissa % 10 == 0 {
            DecimalValue {
                negative: self.negative,
                mantissa: self.mantissa / 10,
                scale: (self.scale - 1) as nat,
            }.normalized()
        } else {
            self
        }
    }
}

} // verus!
