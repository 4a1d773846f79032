//! Hashing that agrees with equality.

use std::hash::Hash;
use std::hash::Hasher;
use vstd::prelude::*;
use crate::norm::NormDecimal;
use crate::value::DecimalValue;

verus! {

/// `Hash::hash` for `u128`: feeds the integer to the hasher. Nothing is
/// stated of the hasher afterwards.
pub assume_specification<H: Hasher>[ <u128 as Hash>::hash ](value: &u128, state: &mut H);

/// The integer that stands for `v` in a hash: the magnitude in the low 96
/// bits, the scale above it, and the sign on top unless `v` is zero.
pub open spec fn key_of(v: DecimalValue) -> int {
    v.mantissa + v.scale * 0x1_0000_0000_0000_0000_0000_0000 + if v.negative && v.mantissa != 0 {
        0x8000_0000_0000_0000_0000_0000_0000_0000int
    } else {
        0
    }
}

impl NormDecimal {
    /// The integer that is hashed for `self`. Two normalized decimals have
    /// the same key exactly when they denote the same number.
    pub fn hash_key(&self) -> (k: u128)
        ensures
            k == key_of(self@),
    {
        let raw = self.raw();
        let zero = raw.is_zero();
        let sign: u128 = if raw.is_sign_negative() && !zero {
            0x8000_0000_0000_0000_0000_0000_0000_0000
        } else {
            0
        };
        raw.magnitude() + (raw.scale() as u128) * 0x1_0000_0000_0000_0000_0000_0000 + sign
    }
}

impl Hash for NormDecimal {
    /// Hashes [`NormDecimal::hash_key`].
    fn hash<H: Hasher>(&self, state: &mut H) {
        self.hash_key().hash(state);
    }
}

} // verus!
