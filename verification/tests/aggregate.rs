use norm_decimal::ArithmeticError;
use norm_decimal::NormDecimal;
use norm_decimal::RawDecimal;

fn dec(text: &str) -> NormDecimal {
    NormDecimal::from_str(text).unwrap()
}

fn largest() -> NormDecimal {
    NormDecimal::from(RawDecimal::from_parts(u32::MAX, u32::MAX, u32::MAX, false, 0).unwrap())
}

#[test]
fn sum_of_nothing_is_zero() {
    let r = NormDecimal::sum(&[]);
    assert_eq!(r, NormDecimal::zero());
    assert!(r.is_zero());
    assert_eq!(r.scale(), 0);
    assert!(!r.is_sign_negative());
    assert_eq!(NormDecimal::checked_sum(&[]), Ok(NormDecimal::zero()));
}

#[test]
fn product_of_nothing_is_one() {
    let r = NormDecimal::product(&[]);
    assert_eq!(r, NormDecimal::one());
    assert_eq!(r.magnitude(), 1);
    assert_eq!(r.scale(), 0);
    assert_eq!(NormDecimal::checked_product(&[]), Ok(NormDecimal::one()));
}

#[test]
fn sum_of_one_two_three_is_six() {
    let items = [NormDecimal::from(1), NormDecimal::from(2), NormDecimal::from(3)];
    let r = NormDecimal::sum(&items);
    assert_eq!(r, NormDecimal::from(6));
    assert_eq!(r.magnitude(), 6);
    assert_eq!(r.scale(), 0);
    assert_eq!(NormDecimal::checked_sum(&items), Ok(NormDecimal::from(6)));
}

#[test]
fn product_of_two_three_four_is_twenty_four() {
    let items = [NormDecimal::from(2), NormDecimal::from(3), NormDecimal::from(4)];
    let r = NormDecimal::product(&items);
    assert_eq!(r, NormDecimal::from(24));
    assert_eq!(r.magnitude(), 24);
    assert_eq!(r.scale(), 0);
    assert_eq!(NormDecimal::checked_product(&items), Ok(NormDecimal::from(24)));
}

#[test]
fn sum_of_fractions_is_normalized() {
    let items = [dec("0.25"), dec("0.25"), dec("0.5")];
    let r = NormDecimal::sum(&items);
    assert_eq!(r.magnitude(), 1);
    assert_eq!(r.scale(), 0);
    let mixed = [dec("1.5"), dec("-2.75"), dec("0.05")];
    assert_eq!(NormDecimal::sum(&mixed).to_string(), "-1.2");
}

#[test]
fn product_of_fractions_is_normalized() {
    let items = [dec("0.5"), dec("4"), dec("2.5")];
    let r = NormDecimal::product(&items);
    assert_eq!(r.magnitude(), 5);
    assert_eq!(r.scale(), 0);
    let signed = [dec("-0.5"), dec("0.5"), dec("-4")];
    assert_eq!(NormDecimal::product(&signed).to_string(), "1");
}

#[test]
fn sum_of_a_single_item_is_the_item() {
    assert_eq!(NormDecimal::sum(&[dec("-3.75")]), dec("-3.75"));
    assert_eq!(NormDecimal::product(&[dec("-3.75")]), dec("-3.75"));
}

#[test]
fn sum_folds_from_the_left() {
    let top = largest();
    assert_eq!(NormDecimal::checked_sum(&[top, -top, dec("1")]), Ok(dec("1")));
    assert_eq!(NormDecimal::checked_sum(&[top, dec("1"), -top]), Err(ArithmeticError::Overflow));
}

#[test]
fn product_folds_from_the_left() {
    let top = largest();
    assert_eq!(NormDecimal::checked_product(&[top, dec("0"), dec("2")]), Ok(NormDecimal::zero()));
    assert_eq!(NormDecimal::checked_product(&[top, dec("2"), dec("0")]), Err(ArithmeticError::Overflow));
}

#[test]
fn an_overflowing_sum_is_reported() {
    let top = largest();
    assert_eq!(NormDecimal::checked_sum(&[top, top]), Err(ArithmeticError::Overflow));
    assert_eq!(NormDecimal::checked_product(&[top, top]), Err(ArithmeticError::Overflow));
}
