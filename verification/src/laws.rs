//! What holds of normalized decimals whatever the operands.

use std::cmp::Ordering;
use vstd::prelude::*;
use crate::aggregate::product_over;
use crate::aggregate::total_of;
use crate::arith::difference_of;
use crate::arith::lemma_settled_is_normal;
use crate::arith::negation_of;
use crate::arith::product_of;
use crate::arith::quotient_of;
use crate::arith::remainder_of;
use crate::arith::sum_of;
use crate::engine;
use crate::error::ArithmeticError;
use crate::hashing::key_of;
use crate::norm::NormDecimal;
use crate::normal_form::lemma_canonical_unique;
use crate::normal_form::lemma_normal_is_fixed;
use crate::normal_form::lemma_normalized_in_range;
use crate::normal_form::lemma_normalized_is_normal;
use crate::normal_form::lemma_normalized_same_number;
use crate::normal_form::lemma_pow10_positive;
use crate::order::order_of;
use crate::value::integer_value;
use crate::value::pow10;
use crate::value::DecimalValue;

verus! {

/// Normalizing twice is normalizing once.
pub proof fn law_normalize_idempotent(v: DecimalValue)
    ensures
        v.normalized().normalized() == v.normalized(),
{
    lemma_normalized_is_normal(v);
    lemma_normal_is_fixed(v.normalized());
}

/// Normalizing changes how a value is written and nothing else: the normal
/// form denotes the same number, is normal, and is in range where the value
/// is.
pub proof fn law_normalize_preserves(v: DecimalValue)
    ensures
        v.normalized().same_number(v),
        v.normalized().is_normal(),
        v.in_range() ==> v.normalized().in_range(),
{
    lemma_normalized_same_number(v);
    lemma_normalized_is_normal(v);
    lemma_normalized_in_range(v);
}

/// A normal value is its own normal form: what was normalized before it was
/// written out comes back unchanged when it is normalized on the way in.
pub proof fn law_normal_is_fixed(v: DecimalValue)
    requires
        v.is_normal(),
    ensures
        v.normalized() == v,
{
    lemma_normal_is_fixed(v);
}

/// Denoting the same number is transitive.
pub proof fn law_same_number_transitive(a: DecimalValue, b: DecimalValue, c: DecimalValue)
    requires
        a.same_number(b),
        b.same_number(c),
    ensures
        a.same_number(c),
{
    lemma_pow10_positive(b.scale);
    let (x, y, z) = (a.signed(), b.signed(), c.signed());
    let (p, q, r) = (pow10(a.scale) as int, pow10(b.scale) as int, pow10(c.scale) as int);
    assert(x * r == z * p) by (nonlinear_arith)
        requires
            x * q == y * p,
            y * r == z * q,
            q > 0,
    ;
}

/// Two values that denote the same number have the same normal form,
/// however they are written: `1.50` and `1.5` normalize alike.
pub proof fn law_same_number_same_normal_form(a: DecimalValue, b: DecimalValue)
    requires
        a.same_number(b),
    ensures
        a.normalized() == b.normalized(),
{
    let (m, n) = (a.normalized(), b.normalized());
    lemma_normalized_same_number(a);
    lemma_normalized_same_number(b);
    lemma_normalized_is_normal(a);
    lemma_normalized_is_normal(b);
    law_same_number_transitive(m, a, b);
    assert(b.same_number(n));
    law_same_number_transitive(m, b, n);
    lemma_canonical_unique(m, n);
}

/// Two values with the same normal form denote the same number.
pub proof fn law_same_normal_form_same_number(a: DecimalValue, b: DecimalValue)
    requires
        a.normalized() == b.normalized(),
    ensures
        a.same_number(b),
{
    lemma_normalized_same_number(a);
    lemma_normalized_same_number(b);
    assert(a.same_number(a.normalized()));
    law_same_number_transitive(a, a.normalized(), b);
}

/// Sums, differences, products, quotients, remainders and negations are
/// normal, whatever the engine computed.
pub proof fn law_results_are_normal(a: DecimalValue, b: DecimalValue)
    ensures
        sum_of(a, b) matches Ok(d) ==> d.is_normal(),
        difference_of(a, b) matches Ok(d) ==> d.is_normal(),
        product_of(a, b) matches Ok(d) ==> d.is_normal(),
        quotient_of(a, b) matches Ok(d) ==> d.is_normal(),
        remainder_of(a, b) matches Ok(d) ==> d.is_normal(),
        negation_of(a).is_normal(),
{
    lemma_settled_is_normal(engine::engine_sum(a, b.normalized()));
    lemma_settled_is_normal(engine::engine_difference(a, b.normalized()));
    lemma_settled_is_normal(engine::engine_product(a, b.normalized()));
    lemma_settled_is_normal(engine::engine_quotient(a, b.normalized()));
    lemma_settled_is_normal(engine::engine_remainder(a, b.normalized()));
    lemma_normalized_is_normal(a.with_sign(!a.negative));
}

/// Dividing by zero, and taking a remainder by zero, fails as a division by
/// zero whatever the left-hand operand is.
pub proof fn law_division_by_zero(a: DecimalValue, b: DecimalValue)
    requires
        b.is_zero(),
    ensures
        quotient_of(a, b) == Err::<DecimalValue, ArithmeticError>(ArithmeticError::DivisionByZero),
        remainder_of(a, b) == Err::<DecimalValue, ArithmeticError>(ArithmeticError::DivisionByZero),
{
}

/// The sum of no items is zero and the product of no items is one.
pub proof fn law_empty_aggregates()
    ensures
        total_of(Seq::<NormDecimal>::empty()) == Ok::<DecimalValue, ArithmeticError>(integer_value(0)),
        product_over(Seq::<NormDecimal>::empty()) == Ok::<DecimalValue, ArithmeticError>(integer_value(1)),
{
}

/// The order of two canonical values is the order of the numbers they
/// denote, and they are equal in that order exactly when they are written
/// alike, but for the sign of a zero.
pub proof fn law_order_consistent(a: DecimalValue, b: DecimalValue)
    requires
        a.is_canonical(),
        b.is_canonical(),
    ensures
        order_of(a, b) == Ordering::Less <==> a.less_than(b),
        order_of(a, b) == Ordering::Greater <==> b.less_than(a),
        order_of(a, b) == Ordering::Equal <==> a.same_number(b),
        a.same_number(b) <==> a.normalized() == b.normalized(),
        a.same_number(b) ==> a.mantissa == b.mantissa && a.scale == b.scale,
{
    if a.same_number(b) {
        law_same_number_same_normal_form(a, b);
        lemma_canonical_unique(a, b);
    }
    if a.normalized() == b.normalized() {
        law_same_normal_form_same_number(a, b);
    }
}

/// The order is strict: nothing is below itself, and of two values at most
/// one is below the other.
pub proof fn law_order_strict(a: DecimalValue, b: DecimalValue)
    ensures
        !a.less_than(a),
        !(a.less_than(b) && b.less_than(a)),
        a.less_than(b) || b.less_than(a) || a.same_number(b),
{
}

/// The order is transitive.
pub proof fn law_order_transitive(a: DecimalValue, b: DecimalValue, c: DecimalValue)
    requires
        a.less_than(b),
        b.less_than(c),
    ensures
        a.less_than(c),
{
    lemma_pow10_positive(a.scale);
    lemma_pow10_positive(b.scale);
    lemma_pow10_positive(c.scale);
    let (x, y, z) = (a.signed(), b.signed(), c.signed());
    let (p, q, r) = (pow10(a.scale) as int, pow10(b.scale) as int, pow10(c.scale) as int);
    assert(x * r < z * p) by (nonlinear_arith)
        requires
            x * q < y * p,
            y * r < z * q,
            p > 0,
            q > 0,
            r > 0,
    ;
}

/// Two normalized decimals have the same hash key exactly when they denote
/// the same number, so equal decimals hash alike.
pub proof fn law_hash_key_consistent(a: DecimalValue, b: DecimalValue)
    requires
        a.is_canonical(),
        a.in_range(),
        b.is_canonical(),
        b.in_range(),
    ensures
        key_of(a) == key_of(b) <==> a.same_number(b),
{
    if a.same_number(b) {
        lemma_canonical_unique(a, b);
    }
    if key_of(a) == key_of(b) {
        assert(a.mantissa == b.mantissa && a.scale == b.scale);
        assert(a.signed() == b.signed());
    }
}

/// Forcing a sign touches the sign flag alone: magnitude and scale stay,
/// a canonical value stays canonical, and forcing the sign negative and then
/// positive gives back any value that had no sign.
pub proof fn law_sign_forcing(v: DecimalValue, negative: bool)
    ensures
        v.with_sign(negative).mantissa == v.mantissa,
        v.with_sign(negative).scale == v.scale,
        v.with_sign(negative).negative == negative,
        v.is_canonical() ==> v.with_sign(negative).is_canonical(),
        v.with_sign(true).with_sign(false) == v.with_sign(false),
        !v.negative ==> v.with_sign(true).with_sign(false) == v,
{
}

} // verus!
