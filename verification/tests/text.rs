use norm_decimal::NormDecimal;
use norm_decimal::ParseError;
use norm_decimal::RawDecimal;

fn dec(text: &str) -> NormDecimal {
    NormDecimal::from_str(text).unwrap()
}

#[test]
fn two_spellings_of_one_number_read_alike() {
    let a = dec("1.50");
    let b = dec("1.5");
    assert_eq!(a, b);
    assert_eq!(a.to_string(), "1.5");
    assert_eq!(b.to_string(), "1.5");
    assert_eq!(a.magnitude(), b.magnitude());
    assert_eq!(a.scale(), b.scale());
    assert_eq!(a.raw().magnitude(), 15);
    assert_eq!(a.raw().scale(), 1);
}

#[test]
fn reading_normalizes() {
    assert_eq!(dec("3.100").to_string(), "3.1");
    assert_eq!(dec("2.00").to_string(), "2");
    assert_eq!(dec("0.000").to_string(), "0");
    assert_eq!(dec("-0.00").to_string(), "0");
    assert_eq!(dec("-7.2500").to_string(), "-7.25");
    assert_eq!(dec("100").to_string(), "100");
    assert_eq!(dec("+1.50").to_string(), "1.5");
    assert_eq!(dec("1_000.50").to_string(), "1000.5");
    assert_eq!(dec(".5").to_string(), "0.5");
    assert_eq!(dec("1.").to_string(), "1");
}

#[test]
fn reading_takes_an_exponent() {
    assert_eq!(dec("1e3").to_string(), "1000");
    assert_eq!(dec("1E2").to_string(), "100");
    assert_eq!(dec("1.5e-2").to_string(), "0.015");
    assert_eq!(dec("1e-28").to_string(), "0.0000000000000000000000000001");
}

#[test]
fn reading_rounds_what_is_beyond_28_digits() {
    let n = dec("1.00000000000000000000000000005");
    assert_eq!(n.to_string(), "1.0000000000000000000000000001");
    assert_eq!(n.scale(), 28);
    assert!(dec("0.00000000000000000000000000001").is_zero());
}

#[test]
fn reading_the_extremes() {
    let top = dec("79228162514264337593543950335");
    assert_eq!(top.magnitude(), (1u128 << 96) - 1);
    assert_eq!(top.scale(), 0);
    let bottom = dec("-79228162514264337593543950335");
    assert_eq!(bottom.mantissa(), -((1i128 << 96) - 1));
}

#[test]
fn empty_text_is_rejected() {
    assert_eq!(
        NormDecimal::from_str(""),
        Err(ParseError::Invalid(String::from("Invalid decimal: empty")))
    );
}

#[test]
fn malformed_text_is_rejected() {
    for text in ["abc", "1.2.3", "-", ".", " 1", "1 ", "1,5", "0x10", "- 1", "1e", "--1", "1-"] {
        assert!(matches!(NormDecimal::from_str(text), Err(ParseError::Invalid(_))));
    }
    assert_eq!(
        NormDecimal::from_str("1.2.3"),
        Err(ParseError::Invalid(String::from("Invalid decimal: two decimal points")))
    );
    assert_eq!(
        NormDecimal::from_str("12a"),
        Err(ParseError::Invalid(String::from("Invalid decimal: unknown character")))
    );
}

#[test]
fn too_many_digits_are_rejected() {
    assert_eq!(
        NormDecimal::from_str("79228162514264337593543950336"),
        Err(ParseError::Invalid(String::from("Invalid decimal: overflow from too many digits")))
    );
    assert!(matches!(
        NormDecimal::from_str("-79228162514264337593543950336"),
        Err(ParseError::Invalid(_))
    ));
}

#[test]
fn an_exponent_beyond_the_scale_is_rejected() {
    assert_eq!(NormDecimal::from_str("2e-29"), Err(ParseError::ScaleExceedsMaximumPrecision(29)));
    assert_eq!(NormDecimal::from_str("1e29"), Err(ParseError::ScaleExceedsMaximumPrecision(29)));
}

#[test]
fn an_exponent_beyond_the_range_is_rejected() {
    assert_eq!(
        NormDecimal::from_str("79228162514264337593543950335e1"),
        Err(ParseError::ExceedsMaximum)
    );
}

#[test]
fn parse_goes_through_from_str() {
    let n: NormDecimal = "2.50".parse().unwrap();
    assert_eq!(n.to_string(), "2.5");
    let e: Result<NormDecimal, ParseError> = "".parse();
    assert!(e.is_err());
}

#[test]
fn writing_places_the_point_by_the_scale() {
    let write = |lo: u32, negative: bool, scale: u32| {
        NormDecimal::from(RawDecimal::from_parts(lo, 0, 0, negative, scale).unwrap()).to_string()
    };
    assert_eq!(write(5, false, 0), "5");
    assert_eq!(write(5, false, 1), "0.5");
    assert_eq!(write(5, true, 3), "-0.005");
    assert_eq!(write(12345, false, 2), "123.45");
    assert_eq!(write(12345, true, 5), "-0.12345");
    assert_eq!(write(120, false, 1), "12");
    assert_eq!(write(0, true, 4), "0");
}

#[test]
fn writing_integers() {
    assert_eq!(NormDecimal::from(0u8).to_string(), "0");
    assert_eq!(NormDecimal::from(-1i8).to_string(), "-1");
    assert_eq!(NormDecimal::from(u64::MAX).to_string(), "18446744073709551615");
    assert_eq!(NormDecimal::from(i64::MIN).to_string(), "-9223372036854775808");
    assert_eq!(NormDecimal::one().to_string(), "1");
}

#[test]
fn text_reads_back_as_the_same_decimal() {
    for text in ["0", "1", "-1", "1.5", "-0.005", "123.45", "79228162514264337593543950335",
        "-79228162514264337593543950335", "0.0000000000000000000000000001", "7.9228162514264337593543950335"] {
        let n = dec(text);
        let written = n.to_string();
        assert_eq!(written, text);
        let back = dec(&written);
        assert_eq!(back, n);
        assert_eq!(back.magnitude(), n.magnitude());
        assert_eq!(back.scale(), n.scale());
        assert_eq!(back.is_sign_negative(), n.is_sign_negative());
    }
}
