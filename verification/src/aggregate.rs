//! Sums and products over a sequence of normalized decimals.

use vstd::prelude::*;
use crate::arith::outcome;
use crate::arith::product_of;
use crate::arith::sum_of;
use crate::error::ArithmeticError;
use crate::norm::NormDecimal;
use crate::value::integer_value;
use crate::value::DecimalValue;

verus! {

/// The sum of `items`: `+` folded over them from zero, left to right.
/// An overflow on the way is the result.
pub open spec fn total_of(items: Seq<NormDecimal>) -> Result<DecimalValue, ArithmeticError>
    decreases items.len(),
{
    if items.len() == 0 {
        Ok(integer_value(0))
    } else {
        match total_of(items.drop_last()) {
            Ok(acc) => sum_of(acc, items.last()@),
            Err(e) => Err(e),
        }
    }
}

/// One more item extends the fold by one `+`.
proof fn lemma_total_of_step(items: Seq<NormDecimal>, k: int)
    requires
        0 <= k < items.len(),
    ensures
        total_of(items.take(k + 1)) == match total_of(items.take(k)) {
            Ok(acc) => sum_of(acc, items[k]@),
            Err(e) => Err(e),
        },
{
    assert(items.take(k + 1).drop_last() =~= items.take(k));
}

/// Once the fold has failed on a prefix, it has failed on the whole.
proof fn lemma_total_of_fails_on(items: Seq<NormDecimal>, k: int)
    requires
        0 <= k <= items.len(),
        total_of(items.take(k)) is Err,
    ensures
        total_of(items) == total_of(items.take(k)),
    decreases items.len() - k,
{
    if k < items.len() {
        lemma_total_of_step(items, k);
        lemma_total_of_fails_on(items, k + 1);
    } else {
        assert(items.take(k) =~= items);
    }
}

/// The product of `items`: `*` folded over them from one, left to right.
/// An overflow on the way is the result.
pub open spec fn product_over(items: Seq<NormDecimal>) -> Result<DecimalValue, ArithmeticError>
    decreases items.len(),
{
    if items.len() == 0 {
        Ok(integer_value(1))
    } else {
        match product_over(items.drop_last()) {
            Ok(acc) => product_of(acc, items.last()@),
            Err(e) => Err(e),
        }
    }
}

/// One more item extends the fold by one `*`.
proof fn lemma_product_over_step(items: Seq<NormDecimal>, k: int)
    requires
        0 <= k < items.len(),
    ensures
        product_over(items.take(k + 1)) == match product_over(items.take(k)) {
            Ok(acc) => product_of(acc, items[k]@),
            Err(e) => Err(e),
        },
{
    assert(items.take(k + 1).drop_last() =~= items.take(k));
}

/// Once the fold has failed on a prefix, it has failed on the whole.
proof fn lemma_product_over_fails_on(items: Seq<NormDecimal>, k: int)
    requires
        0 <= k <= items.len(),
        product_over(items.take(k)) is Err,
    ensures
        product_over(items) == product_over(items.take(k)),
    decreases items.len() - k,
{
    if k < items.len() {
        lemma_product_over_step(items, k);
        lemma_product_over_fails_on(items, k + 1);
    } else {
        assert(items.take(k) =~= items);
    }
}

impl NormDecimal {
    /// The sum of `items`, which is zero for no items. Asks that no step
    /// overflows: [`NormDecimal::checked_sum`] is for items of which that
    /// is not known.
    pub fn sum(items: &[NormDecimal]) -> (r: NormDecimal)
        requires
            total_of(items@) is Ok,
        ensures
            Ok::<DecimalValue, ArithmeticError>(r@) == total_of(items@),
            items@.len() == 0 ==> r@ == integer_value(0),
    {
        let mut acc = NormDecimal::zero();
        let mut i: usize = 0;
        assert(items@.take(0) =~= Seq::<NormDecimal>::empty());
        while i < items.len()
            invariant
                i <= items.len(),
                total_of(items@) is Ok,
                Ok::<DecimalValue, ArithmeticError>(acc@) == total_of(items@.take(i as int)),
            decreases items.len() - i,
        {
            proof {
                lemma_total_of_step(items@, i as int);
                if total_of(items@.take(i + 1)) is Err {
                    lemma_total_of_fails_on(items@, i + 1);
                }
            }
            acc = acc + items[i];
            i += 1;
        }
        assert(items@.take(i as int) =~= items@);
        acc
    }

    /// The sum of `items`, which is zero for no items, or the overflow of
    /// the first step that has one.
    pub fn checked_sum(items: &[NormDecimal]) -> (r: Result<NormDecimal, ArithmeticError>)
        ensures
            outcome(r) == total_of(items@),
            items@.len() == 0 ==> outcome(r) == Ok::<DecimalValue, ArithmeticError>(integer_value(0)),
    {
        let mut acc = NormDecimal::zero();
        let mut i: usize = 0;
        assert(items@.take(0) =~= Seq::<NormDecimal>::empty());
        while i < items.len()
            invariant
                i <= items.len(),
                Ok::<DecimalValue, ArithmeticError>(acc@) == total_of(items@.take(i as int)),
            decreases items.len() - i,
        {
            proof {
                lemma_total_of_step(items@, i as int);
            }
            match acc.checked_add(items[i]) {
                Ok(next) => {
                    acc = next;
                },
                Err(e) => {
                    proof {
                        lemma_total_of_fails_on(items@, i + 1);
                    }
                    return Err(e);
                },
            }
            i += 1;
        }
        assert(items@.take(i as int) =~= items@);
        Ok(NormDecimal::sum(items))
    }

    /// The product of `items`, which is one for no items. Asks that no step
    /// overflows: [`NormDecimal::checked_product`] is for items of which that
    /// is not known.
    pub fn product(items: &[NormDecimal]) -> (r: NormDecimal)
        requires
            product_over(items@) is Ok,
        ensures
            Ok::<DecimalValue, ArithmeticError>(r@) == product_over(items@),
            items@.len() == 0 ==> r@ == integer_value(1),
    {
        let mut acc = NormDecimal::one();
        let mut i: usize = 0;
        assert(items@.take(0) =~= Seq::<NormDecimal>::empty());
        while i < items.len()
            invariant
                i <= items.len(),
                product_over(items@) is Ok,
                Ok::<DecimalValue, ArithmeticError>(acc@) == product_over(items@.take(i as int)),
            decreases items.len() - i,
        {
            proof {
                lemma_product_over_step(items@, i as int);
                if product_over(items@.take(i + 1)) is Err {
                    lemma_product_over_fails_on(items@, i + 1);
                }
            }
            acc = acc * items[i];
            i += 1;
        }
        assert(items@.take(i as int) =~= items@);
        acc
    }

    /// The product of `items`, which is one for no items, or the overflow of
    /// the first step that has one.
    pub fn checked_product(items: &[NormDecimal]) -> (r: Result<NormDecimal, ArithmeticError>)
        ensures
            outcome(r) == product_over(items@),
            items@.len() == 0 ==> outcome(r) == Ok::<DecimalValue, ArithmeticError>(integer_value(1)),
    {
        let mut acc = NormDecimal::one();
        let mut i: usize = 0;
        assert(items@.take(0) =~= Seq::<NormDecimal>::empty());
        while i < items.len()
            invariant
                i <= items.len(),
                Ok::<DecimalValue, ArithmeticError>(acc@) == product_over(items@.take(i as int)),
            decreases items.len() - i,
        {
            proof {
                lemma_product_over_step(items@, i as int);
            }
            match acc.checked_mul(items[i]) {
                Ok(next) => {
                    acc = next;
                },
                Err(e) => {
                    proof {
                        lemma_product_over_fails_on(items@, i + 1);
                    }
                    return Err(e);
                },
            }
            i += 1;
        }
        assert(items@.take(i as int) =~= items@);
        Ok(NormDecimal::product(items))
    }
}

} // verus!
