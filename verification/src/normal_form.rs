//! Facts about the normal form of a decimal value.

use vstd::prelude::*;
use crate::value::pow10;
use crate::value::DecimalValue;

verus! {

/// Every power of ten is positive.
pub proof fn lemma_pow10_positive(n: nat)
    ensures
        pow10(n) > 0,
    decreases n,
{
    if n > 0 {
        lemma_pow10_positive((n - 1) as nat);
    }
}

/// Powers of ten multiply by adding their exponents.
pub proof fn lemma_pow10_add(a: nat, b: nat)
    ensures
        pow10(a + b) == pow10(a) * pow10(b),
    decreases a,
{
    if a == 0 {
        assert(pow10(0 + b) == 1 * pow10(b));
    } else {
        lemma_pow10_add((a - 1) as nat, b);
        assert(pow10(a + b) == 10 * pow10((a - 1) as nat + b));
        assert(10 * (pow10((a - 1) as nat) * pow10(b)) == (10 * pow10((a - 1) as nat)) * pow10(b))
            by (nonlinear_arith);
    }
}

/// The normal form is normal: least scale, and no negative zero.
pub proof fn lemma_normalized_is_normal(v: DecimalValue)
    ensures
        v.normalized().is_normal(),
    decreases v.scale,
{
    if v.mantissa != 0 && v.scale > 0 && v.mantissa % 10 == 0 {
        lemma_normalized_is_normal(
            DecimalValue { negative: v.negative, mantissa: v.mantissa / 10, scale: (v.scale - 1) as nat },
        );
    }
}

/// Normalizing keeps a value in range: the magnitude and the scale only
/// shrink.
pub proof fn lemma_normalized_in_range(v: DecimalValue)
    ensures
        v.normalized().mantissa <= v.mantissa,
        v.normalized().scale <= v.scale,
        v.in_range() ==> v.normalized().in_range(),
    decreases v.scale,
{
    if v.mantissa != 0 && v.scale > 0 && v.mantissa % 10 == 0 {
        lemma_normalized_in_range(
            DecimalValue { negative: v.negative, mantissa: v.mantissa / 10, scale: (v.scale - 1) as nat },
        );
    }
}

/// Normalizing does not change the number that a value denotes.
pub proof fn lemma_normalized_same_number(v: DecimalValue)
    ensures
        v.normalized().same_number(v),
    decreases v.scale,
{
    let n = v.normalized();
    if v.mantissa == 0 {
        assert(n.signed() == 0 && v.signed() == 0);
        assert(0 * pow10(v.scale) == 0 * pow10(n.scale)) by (nonlinear_arith);
    } else if v.scale > 0 && v.mantissa % 10 == 0 {
        let w = DecimalValue { negative: v.negative, mantissa: v.mantissa / 10, scale: (v.scale - 1) as nat };
        lemma_normalized_same_number(w);
        assert(n == w.normalized());
        assert(v.signed() == 10 * w.signed());
        assert(pow10(v.scale) == 10 * pow10(w.scale));
        let x = n.signed();
        let y = w.signed();
        let p = pow10(w.scale) as int;
        let q = pow10(n.scale) as int;
        assert(x * p == y * q);
        assert(x * (10 * p) == (10 * y) * q) by (nonlinear_arith)
            requires
                x * p == y * q,
        ;
    }
}

/// Normalizing keeps the sign of anything but zero, and keeps zero zero.
pub proof fn lemma_normalized_sign(v: DecimalValue)
    ensures
        v.normalized().is_zero() <==> v.is_zero(),
        !v.is_zero() ==> v.normalized().negative == v.negative,
    decreases v.scale,
{
    if v.mantissa != 0 && v.scale > 0 && v.mantissa % 10 == 0 {
        lemma_normalized_sign(
            DecimalValue { negative: v.negative, mantissa: v.mantissa / 10, scale: (v.scale - 1) as nat },
        );
    }
}

/// A normal value is its own normal form.
pub proof fn lemma_normal_is_fixed(v: DecimalValue)
    requires
        v.is_normal(),
    ensures
        v.normalized() == v,
{
}

/// Two canonical values that denote the same number are written alike:
/// same magnitude, same scale, and same sign unless both are zero.
pub proof fn lemma_canonical_unique(a: DecimalValue, b: DecimalValue)
    requires
        a.is_canonical(),
        b.is_canonical(),
        a.same_number(b),
    ensures
        a.mantissa == b.mantissa,
        a.scale == b.scale,
        a.mantissa != 0 ==> a.negative == b.negative,
{
    lemma_pow10_positive(a.scale);
    lemma_pow10_positive(b.scale);
    let pa = pow10(a.scale) as int;
    let pb = pow10(b.scale) as int;
    let ma = a.mantissa as int;
    let mb = b.mantissa as int;
    // Signs first: a product with a positive power keeps the sign of the magnitude.
    assert(a.signed() * pb == b.signed() * pa);
    if ma == 0 {
        assert(a.signed() * pb == 0) by (nonlinear_arith)
            requires
                a.signed() == 0,
        ;
        assert(b.signed() == 0) by (nonlinear_arith)
            requires
                b.signed() * pa == 0,
                pa > 0,
        ;
    } else if mb == 0 {
        assert(b.signed() * pa == 0) by (nonlinear_arith)
            requires
                b.signed() == 0,
        ;
        assert(a.signed() == 0) by (nonlinear_arith)
            requires
                a.signed() * pb == 0,
                pb > 0,
        ;
    } else {
        assert(a.negative == b.negative && ma * pb == mb * pa) by (nonlinear_arith)
            requires
                a.signed() * pb == b.signed() * pa,
                pa > 0,
                pb > 0,
                ma > 0,
                mb > 0,
                a.signed() == (if a.negative { -ma } else { ma }),
                b.signed() == (if b.negative { -mb } else { mb }),
        ;
        if a.scale < b.scale {
            lemma_scale_gap(mb, ma, b.scale, a.scale);
        } else if b.scale < a.scale {
            lemma_scale_gap(ma, mb, a.scale, b.scale);
        } else {
            assert(ma == mb) by (nonlinear_arith)
                requires
                    ma * pa == mb * pa,
                    pa > 0,
            ;
        }
    }
}

/// If `m / 10^s` and `k / 10^t` are the same number and `s > t`, then `m`
/// ends in a zero.
proof fn lemma_scale_gap(m: int, k: int, s: nat, t: nat)
    requires
        s > t,
        m * pow10(t) == k * pow10(s),
    ensures
        m % 10 == 0,
{
    let d = (s - t) as nat;
    lemma_pow10_add(d, t);
    lemma_pow10_positive(t);
    let pt = pow10(t) as int;
    let pd = pow10(d) as int;
    assert(pow10(s) == pd * pt);
    assert(m == k * pd) by (nonlinear_arith)
        requires
            m * pt == k * (pd * pt),
            pt > 0,
    ;
    let e = pow10((d - 1) as nat) as int;
    assert(pd == 10 * e);
    assert(m == 10 * (k * e)) by (nonlinear_arith)
        requires
            m == k * pd,
            pd == 10 * e,
    ;
}

} // verus!
