//! Normalized decimals from the integer types.

use vstd::prelude::*;
use vstd::std_specs::convert::FromSpecImpl;
use crate::norm::NormDecimal;
use crate::raw::RawDecimal;
use crate::value::integer_value;

verus! {

impl From<u8> for NormDecimal {
    /// The integer `value` as a decimal of scale 0.
    fn from(value: u8) -> (r: NormDecimal)
        ensures
            r@ == integer_value(value as int),
    {
        let r = NormDecimal::from(RawDecimal::from_u64(value as u64));
        proof {
            r.lemma_of_view();
        }
        r
    }
}

impl FromSpecImpl<u8> for NormDecimal {
    open spec fn obeys_from_spec() -> bool {
        true
    }

    open spec fn from_spec(v: u8) -> NormDecimal {
        NormDecimal::of_value(integer_value(v as int))
    }
}

impl From<i8> for NormDecimal {
    /// The integer `value` as a decimal of scale 0.
    fn from(value: i8) -> (r: NormDecimal)
        ensures
            r@ == integer_value(value as int),
    {
        let r = NormDecimal::from(RawDecimal::from_i64(value as i64));
        proof {
            r.lemma_of_view();
        }
        r
    }
}

impl FromSpecImpl<i8> for NormDecimal {
    open spec fn obeys_from_spec() -> bool {
        true
    }

    open spec fn from_spec(v: i8) -> NormDecimal {
        NormDecimal::of_value(integer_value(v as int))
    }
}

impl From<u16> for NormDecimal {
    /// The integer `value` as a decimal of scale 0.
    fn from(value: u16) -> (r: NormDecimal)
        ensures
            r@ == integer_value(value as int),
    {
        let r = NormDecimal::from(RawDecimal::from_u64(value as u64));
        proof {
            r.lemma_of_view();
        }
        r
    }
}

impl FromSpecImpl<u16> for NormDecimal {
    open spec fn obeys_from_spec() -> bool {
        true
    }

    open spec fn from_spec(v: u16) -> NormDecimal {
        NormDecimal::of_value(integer_value(v as int))
    }
}

impl From<i16> for NormDecimal {
    /// The integer `value` as a decimal of scale 0.
    fn from(value: i16) -> (r: NormDecimal)
        ensures
            r@ == integer_value(value as int),
    {
        let r = NormDecimal::from(RawDecimal::from_i64(value as i64));
        proof {
            r.lemma_of_view();
        }
        r
    }
}

impl FromSpecImpl<i16> for NormDecimal {
    open spec fn obeys_from_spec() -> bool {
        true
    }

    open spec fn from_spec(v: i16) -> NormDecimal {
        NormDecimal::of_value(integer_value(v as int))
    }
}

impl From<u32> for NormDecimal {
    /// The integer `value` as a decimal of scale 0.
    fn from(value: u32) -> (r: NormDecimal)
        ensures
            r@ == integer_value(value as int),
    {
        let r = NormDecimal::from(RawDecimal::from_u64(value as u64));
        proof {
            r.lemma_of_view();
        }
        r
    }
}

impl FromSpecImpl<u32> for NormDecimal {
    open spec fn obeys_from_spec() -> bool {
        true
    }

    open spec fn from_spec(v: u32) -> NormDecimal {
        NormDecimal::of_value(integer_value(v as int))
    }
}

impl From<i32> for NormDecimal {
    /// The integer `value` as a decimal of scale 0.
    fn from(value: i32) -> (r: NormDecimal)
        ensures
            r@ == integer_value(value as int),
    {
        let r = NormDecimal::from(RawDecimal::from_i64(value as i64));
        proof {
            r.lemma_of_view();
        }
        r
    }
}

impl FromSpecImpl<i32> for NormDecimal {
    open spec fn obeys_from_spec() -> bool {
        true
    }

    open spec fn from_spec(v: i32) -> NormDecimal {
        NormDecimal::of_value(integer_value(v as int))
    }
}

impl From<u64> for NormDecimal {
    /// The integer `value` as a decimal of scale 0.
    fn from(value: u64) -> (r: NormDecimal)
        ensures
            r@ == integer_value(value as int),
    {
        let r = NormDecimal::from(RawDecimal::from_u64(value));
        proof {
            r.lemma_of_view();
        }
        r
    }
}

impl FromSpecImpl<u64> for NormDecimal {
    open spec fn obeys_from_spec() -> bool {
        true
    }

    open spec fn from_spec(v: u64) -> NormDecimal {
        NormDecimal::of_value(integer_value(v as int))
    }
}

impl From<i64> for NormDecimal {
    /// The integer `value` as a decimal of scale 0.
    fn from(value: i64) -> (r: NormDecimal)
        ensures
            r@ == integer_value(value as int),
    {
        let r = NormDecimal::from(RawDecimal::from_i64(value));
        proof {
            r.lemma_of_view();
        }
        r
    }
}

impl FromSpecImpl<i64> for NormDecimal {
    open spec fn obeys_from_spec() -> bool {
        true
    }

    open spec fn from_spec(v: i64) -> NormDecimal {
        NormDecimal::of_value(integer_value(v as int))
    }
}

} // verus!
