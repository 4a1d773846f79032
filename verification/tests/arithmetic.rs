use norm_decimal::ArithmeticError;
use norm_decimal::NormDecimal;
use norm_decimal::RawDecimal;

fn dec(text: &str) -> NormDecimal {
    NormDecimal::from_str(text).unwrap()
}

fn largest() -> NormDecimal {
    NormDecimal::from(RawDecimal::from_parts(u32::MAX, u32::MAX, u32::MAX, false, 0).unwrap())
}

fn parts(n: NormDecimal) -> (i128, u32) {
    (n.mantissa(), n.scale())
}

#[test]
fn sum_is_normalized() {
    let r = dec("1.5") + dec("2.5");
    assert_eq!(parts(r), (4, 0));
    assert_eq!(parts(dec("0.1") + dec("0.2")), (3, 1));
    assert_eq!(parts(dec("1.25") + dec("-1.25")), (0, 0));
    assert!(!(dec("1.25") + dec("-1.25")).is_sign_negative());
}

#[test]
fn difference_is_normalized() {
    assert_eq!(parts(dec("1.5") - dec("0.5")), (1, 0));
    assert_eq!(parts(dec("1") - dec("0.75")), (25, 2));
    assert_eq!(parts(dec("0.5") - dec("1")), (-5, 1));
}

#[test]
fn product_is_normalized() {
    assert_eq!(parts(dec("2.5") * dec("4")), (10, 0));
    assert_eq!(parts(dec("1.5") * dec("1.5")), (225, 2));
    assert_eq!(parts(dec("-0.2") * dec("0.5")), (-1, 1));
}

#[test]
fn quotient_is_normalized() {
    assert_eq!(parts(dec("1") / dec("4")), (25, 2));
    assert_eq!(parts(dec("10") / dec("4")), (25, 1));
    assert_eq!(parts(dec("7.5") / dec("2.5")), (3, 0));
    assert_eq!((dec("1") / dec("3")).to_string(), "0.3333333333333333333333333333");
    assert_eq!((dec("2") / dec("3")).to_string(), "0.6666666666666666666666666667");
}

#[test]
fn remainder_is_normalized() {
    assert_eq!(parts(dec("10") % dec("3")), (1, 0));
    assert_eq!(parts(dec("-10") % dec("3")), (-1, 0));
    assert_eq!(parts(dec("5.5") % dec("2")), (15, 1));
    assert_eq!(parts(dec("5.50") % dec("0.50")), (0, 0));
}

#[test]
fn negation_flips_the_sign() {
    assert_eq!(parts(-dec("1.5")), (-15, 1));
    assert_eq!(parts(-dec("-2")), (2, 0));
}

#[test]
fn negation_of_zero_is_plain_zero() {
    let z = -NormDecimal::zero();
    assert!(z.is_zero());
    assert!(!z.is_sign_negative());
    assert_eq!(z.to_string(), "0");
}

#[test]
fn operators_take_integers_on_the_right() {
    let v = dec("1.5");
    assert_eq!(parts(v + 5), (65, 1));
    assert_eq!(parts(v - 1u8), (5, 1));
    assert_eq!(parts(v * 2i64), (3, 0));
    assert_eq!(parts(v / 3u16), (5, 1));
    assert_eq!(parts(v % 1i8), (5, 1));
    assert_eq!(parts(v + u64::MAX), (184_467_440_737_095_516_165, 1));
    assert_eq!(parts(v + i64::MIN), (-92_233_720_368_547_758_065, 1));
    assert_eq!(parts(v * 4u32), (6, 0));
    assert_eq!(parts(v * -2i16), (-3, 0));
}

#[test]
fn operators_take_stored_decimals_on_the_right() {
    let v = dec("1.5");
    let stored = RawDecimal::from_parts(2500, 0, 0, false, 3).unwrap();
    assert_eq!(parts(v + stored), (4, 0));
    assert_eq!(parts(v + &stored), (4, 0));
    assert_eq!(parts(v * stored), (375, 2));
    assert_eq!(parts(v - stored), (-1, 0));
}

#[test]
fn checked_forms_give_the_same_results() {
    assert_eq!(dec("1.5").checked_add(dec("2.5")), Ok(dec("4")));
    assert_eq!(dec("1.5").checked_sub(2), Ok(dec("-0.5")));
    assert_eq!(dec("1.5").checked_mul(dec("1.50")), Ok(dec("2.25")));
    assert_eq!(dec("1").checked_div(8), Ok(dec("0.125")));
    assert_eq!(dec("7").checked_rem(dec("2.5")), Ok(dec("2")));
}

#[test]
fn division_by_zero_is_reported() {
    for a in [dec("0"), dec("1"), dec("-2.5"), largest()] {
        assert_eq!(a.checked_div(NormDecimal::zero()), Err(ArithmeticError::DivisionByZero));
        assert_eq!(a.checked_div(0), Err(ArithmeticError::DivisionByZero));
        assert_eq!(
            a.checked_div(RawDecimal::from_parts(0, 0, 0, true, 4).unwrap()),
            Err(ArithmeticError::DivisionByZero)
        );
    }
}

#[test]
fn remainder_by_zero_is_reported() {
    for a in [dec("0"), dec("1"), dec("-2.5"), largest()] {
        assert_eq!(a.checked_rem(NormDecimal::zero()), Err(ArithmeticError::DivisionByZero));
        assert_eq!(a.checked_rem(0u64), Err(ArithmeticError::DivisionByZero));
    }
}

#[test]
fn division_by_a_negative_zero_is_reported() {
    let mut zero = NormDecimal::zero();
    zero.set_sign_negative(true);
    assert_eq!(dec("3").checked_div(zero), Err(ArithmeticError::DivisionByZero));
    assert_eq!(dec("3").checked_rem(zero), Err(ArithmeticError::DivisionByZero));
}

#[test]
fn overflow_is_reported() {
    let top = largest();
    assert_eq!(top.checked_add(top), Err(ArithmeticError::Overflow));
    assert_eq!(top.checked_add(1), Err(ArithmeticError::Overflow));
    assert_eq!(top.checked_sub(-top), Err(ArithmeticError::Overflow));
    assert_eq!(top.checked_mul(top), Err(ArithmeticError::Overflow));
    assert_eq!(top.checked_mul(2), Err(ArithmeticError::Overflow));
    assert_eq!(top.checked_div(dec("0.1")), Err(ArithmeticError::Overflow));
}

#[test]
fn the_largest_decimal_still_computes() {
    let top = largest();
    assert_eq!(top.checked_sub(top), Ok(NormDecimal::zero()));
    assert_eq!(top.checked_add(-top), Ok(NormDecimal::zero()));
    assert_eq!(top.checked_mul(1), Ok(top));
    assert_eq!(top.checked_div(top), Ok(NormDecimal::one()));
    assert_eq!(top.checked_rem(top), Ok(NormDecimal::zero()));
}

#[test]
fn compound_assignment_replaces_the_value() {
    let mut v = dec("1.5");
    v.add_assign(dec("2.5"));
    assert_eq!(parts(v), (4, 0));
    v.sub_assign(1);
    assert_eq!(parts(v), (3, 0));
    v.mul_assign(dec("0.5"));
    assert_eq!(parts(v), (15, 1));
    v.div_assign(3);
    assert_eq!(parts(v), (5, 1));
    v.rem_assign(dec("0.2"));
    assert_eq!(parts(v), (1, 1));
}

#[test]
fn checked_compound_assignment_replaces_the_value() {
    let mut v = dec("1.5");
    assert_eq!(v.checked_add_assign(dec("2.5")), Ok(()));
    assert_eq!(parts(v), (4, 0));
    assert_eq!(v.checked_sub_assign(1), Ok(()));
    assert_eq!(parts(v), (3, 0));
    assert_eq!(v.checked_mul_assign(dec("0.5")), Ok(()));
    assert_eq!(parts(v), (15, 1));
    assert_eq!(v.checked_div_assign(3), Ok(()));
    assert_eq!(parts(v), (5, 1));
    assert_eq!(v.checked_rem_assign(dec("0.2")), Ok(()));
    assert_eq!(parts(v), (1, 1));
}

#[test]
fn checked_compound_assignment_leaves_the_value_on_failure() {
    let mut v = dec("2.5");
    assert_eq!(v.checked_div_assign(0), Err(ArithmeticError::DivisionByZero));
    assert_eq!(parts(v), (25, 1));
    assert_eq!(v.checked_rem_assign(NormDecimal::zero()), Err(ArithmeticError::DivisionByZero));
    assert_eq!(parts(v), (25, 1));
    let mut top = largest();
    assert_eq!(top.checked_add_assign(1), Err(ArithmeticError::Overflow));
    assert_eq!(top, largest());
    assert_eq!(top.checked_mul_assign(10), Err(ArithmeticError::Overflow));
    assert_eq!(top, largest());
    assert_eq!(top.checked_sub_assign(-1), Err(ArithmeticError::Overflow));
    assert_eq!(top, largest());
}

#[test]
fn a_negative_zero_operand_leaves_no_trace() {
    let mut zero = NormDecimal::zero();
    zero.set_sign_negative(true);
    for r in [zero + NormDecimal::zero(), zero * 5, zero - 0, zero / 3, zero % 3, -zero] {
        assert!(r.is_zero());
        assert!(!r.is_sign_negative());
        assert_eq!(r.scale(), 0);
    }
}

#[test]
fn results_carry_no_trailing_zeros() {
    let values = [dec("0.5"), dec("2.5"), dec("-1.25"), dec("40"), dec("0.004")];
    for a in values {
        for b in values {
            for r in [a + b, a - b, a * b, a / b, a % b] {
                assert!(r.scale() == 0 || r.magnitude() % 10 != 0);
                assert!(!(r.is_zero() && r.is_sign_negative()));
            }
        }
    }
}
