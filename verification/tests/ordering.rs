use std::cmp::Ordering;
use std::collections::hash_map::DefaultHasher;
use std::collections::HashSet;
use std::hash::Hash;
use std::hash::Hasher;

use norm_decimal::NormDecimal;
use norm_decimal::RawDecimal;

fn dec(text: &str) -> NormDecimal {
    NormDecimal::from_str(text).unwrap()
}

fn hash_of(n: &NormDecimal) -> u64 {
    let mut hasher = DefaultHasher::new();
    n.hash(&mut hasher);
    hasher.finish()
}

#[test]
fn equal_numbers_are_equal_however_written() {
    assert_eq!(dec("2"), dec("2.00"));
    assert_eq!(dec("1.50"), dec("1.5"));
    assert_eq!(dec("-0.10"), dec("-0.1"));
    assert_eq!(dec("0"), dec("0.000"));
    assert_eq!(dec("100"), dec("1e2"));
    assert_eq!(NormDecimal::from(2u8), dec("2.0"));
}

#[test]
fn different_numbers_are_different() {
    assert_ne!(dec("2"), dec("2.01"));
    assert_ne!(dec("1.5"), dec("-1.5"));
    assert_ne!(dec("0"), dec("0.0000000000000000000000000001"));
    assert_ne!(dec("10"), dec("1"));
}

#[test]
fn order_follows_the_numbers() {
    assert!(dec("1") < dec("2"));
    assert!(dec("1.5") < dec("1.51"));
    assert!(dec("0.09") < dec("0.1"));
    assert!(dec("-2") < dec("-1"));
    assert!(dec("-0.1") < dec("0"));
    assert!(dec("-1") < dec("0.0001"));
    assert!(dec("9.99") < dec("10"));
    assert!(dec("2") > dec("1.999"));
    assert!(dec("2") >= dec("2.0"));
    assert!(dec("2") <= dec("2.0"));
    assert!(!(dec("2") < dec("2.0")));
    assert!(!(dec("2") > dec("2.0")));
}

#[test]
fn order_holds_across_the_widest_scales() {
    let tiny = dec("0.0000000000000000000000000001");
    let huge = dec("79228162514264337593543950335");
    assert!(tiny < huge);
    assert!(-huge < tiny);
    assert!(-huge < -tiny);
    assert!(tiny > NormDecimal::zero());
    assert_eq!(tiny.cmp(&huge), Ordering::Less);
    assert_eq!(huge.cmp(&tiny), Ordering::Greater);
}

#[test]
fn cmp_names_the_order() {
    assert_eq!(dec("1").cmp(&dec("2")), Ordering::Less);
    assert_eq!(dec("2").cmp(&dec("1")), Ordering::Greater);
    assert_eq!(dec("2").cmp(&dec("2.00")), Ordering::Equal);
    assert_eq!(dec("1").partial_cmp(&dec("2")), Some(Ordering::Less));
    assert_eq!(dec("-1").partial_cmp(&dec("-1.0")), Some(Ordering::Equal));
}

#[test]
fn order_is_transitive_on_a_sample() {
    let sample = [dec("-3"), dec("-0.5"), dec("0"), dec("0.25"), dec("0.3"), dec("7"), dec("70")];
    for (i, a) in sample.iter().enumerate() {
        for (j, b) in sample.iter().enumerate() {
            assert_eq!(a < b, i < j);
            assert_eq!(a == b, i == j);
            assert_eq!(a > b, i > j);
        }
    }
}

#[test]
fn a_negative_zero_equals_zero() {
    let mut zero = NormDecimal::zero();
    zero.set_sign_negative(true);
    assert_eq!(zero, NormDecimal::zero());
    assert_eq!(zero.cmp(&NormDecimal::zero()), Ordering::Equal);
    assert!(zero < dec("0.1"));
    assert!(zero > dec("-0.1"));
}

#[test]
fn equal_decimals_hash_alike() {
    assert_eq!(hash_of(&dec("2")), hash_of(&dec("2.00")));
    assert_eq!(hash_of(&dec("1.50")), hash_of(&dec("1.5")));
    assert_eq!(hash_of(&dec("-7.0")), hash_of(&NormDecimal::from(-7i8)));
    let mut zero = NormDecimal::zero();
    zero.set_sign_negative(true);
    assert_eq!(hash_of(&zero), hash_of(&NormDecimal::zero()));
}

#[test]
fn hash_keys_tell_different_numbers_apart() {
    assert_eq!(dec("2").hash_key(), dec("2.00").hash_key());
    assert_ne!(dec("2").hash_key(), dec("-2").hash_key());
    assert_ne!(dec("2").hash_key(), dec("0.2").hash_key());
    assert_ne!(dec("2").hash_key(), dec("3").hash_key());
    assert_eq!(dec("1.5").hash_key(), 15 + (1u128 << 96));
    assert_eq!(dec("-1.5").hash_key(), 15 + (1u128 << 96) + (1u128 << 127));
    assert_eq!(dec("0").hash_key(), 0);
}

#[test]
fn a_hash_set_holds_each_number_once() {
    let mut seen = HashSet::new();
    for text in ["1.5", "1.50", "1.500", "2", "2.0", "-2", "0", "0.0"] {
        seen.insert(dec(text));
    }
    assert_eq!(seen.len(), 4);
    assert!(seen.contains(&dec("1.5000")));
    assert!(!seen.contains(&dec("3")));
}

#[test]
fn max_picks_the_larger() {
    assert_eq!(dec("1.5").max(dec("2")), dec("2"));
    assert_eq!(dec("2").max(dec("1.5")), dec("2"));
    assert_eq!(dec("-1").max(dec("-2")), dec("-1"));
    assert_eq!(dec("1.5").max(3), dec("3"));
    assert_eq!(dec("1.5").max(1u8), dec("1.5"));
    assert_eq!(dec("1.5").max(-4i64), dec("1.5"));
}

#[test]
fn min_picks_the_smaller() {
    assert_eq!(dec("1.5").min(dec("2")), dec("1.5"));
    assert_eq!(dec("2").min(dec("1.5")), dec("1.5"));
    assert_eq!(dec("-1").min(dec("-2")), dec("-2"));
    assert_eq!(dec("1.5").min(3), dec("1.5"));
    assert_eq!(dec("1.5").min(1u8), dec("1"));
}

#[test]
fn max_and_min_normalize_a_stored_operand() {
    let stored = RawDecimal::from_parts(2500, 0, 0, false, 3).unwrap();
    let larger = dec("1").max(stored);
    assert_eq!(larger.magnitude(), 25);
    assert_eq!(larger.scale(), 1);
    let smaller = dec("3").min(stored);
    assert_eq!(smaller.magnitude(), 25);
    assert_eq!(smaller.scale(), 1);
    let same = dec("2.5").max(&stored);
    assert_eq!(same.magnitude(), 25);
    assert_eq!(same.scale(), 1);
}

#[test]
fn max_and_min_turn_a_negative_zero_into_zero() {
    let mut zero = NormDecimal::zero();
    zero.set_sign_negative(true);
    let a = zero.max(-1);
    assert!(a.is_zero());
    assert!(!a.is_sign_negative());
    let b = zero.min(1);
    assert!(b.is_zero());
    assert!(!b.is_sign_negative());
    let c = dec("1").min(RawDecimal::from_parts(0, 0, 0, true, 2).unwrap());
    assert!(c.is_zero());
    assert!(!c.is_sign_negative());
    assert_eq!(c.scale(), 0);
}
