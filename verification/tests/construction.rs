use decimal_percentage::{Percentage, PercentageError};
use rust_decimal::Decimal;
use std::str::FromStr;

fn dec(text: &str) -> Decimal {
    Decimal::from_str(text).unwrap()
}

#[test]
fn a_decimal_comes_back_unchanged() {
    for text in ["0.1", "0.10", "-0.05", "1.2", "0", "0.000", "79228162514264337593543950335"] {
        let d = dec(text);
        let back = Percentage::from(d).value();
        assert_eq!(back, d);
        assert_eq!(back.mantissa(), d.mantissa());
        assert_eq!(back.scale(), d.scale());
        assert_eq!(back.to_string(), text);
    }
}

#[test]
fn the_extremes_of_a_decimal_are_percentages() {
    assert_eq!(Percentage::from(Decimal::MAX).value(), Decimal::MAX);
    assert_eq!(Percentage::from(Decimal::MIN).value(), Decimal::MIN);
}

#[test]
fn a_numeral_is_read_as_a_fraction() {
    let p = Percentage::try_from("0.1").unwrap();
    assert_eq!(p.value(), Decimal::new(1, 1));
    assert_eq!(p.to_string(), "10%");
}

#[test]
fn a_negative_numeral_is_read() {
    let p = Percentage::try_from("-0.05").unwrap();
    assert_eq!(p.value(), Decimal::new(-5, 2));
    assert_eq!(p.value().scale(), 2);
}

#[test]
fn the_digits_of_a_numeral_are_kept() {
    let p = Percentage::try_from("0.00000015").unwrap();
    assert_eq!(p.value().mantissa(), 15);
    assert_eq!(p.value().scale(), 8);
}

#[test]
fn text_that_is_no_numeral_is_refused() {
    assert!(matches!(Percentage::try_from("not-a-number"), Err(PercentageError::Parse)));
}

#[test]
fn a_percent_sign_is_no_part_of_a_numeral() {
    assert!(matches!(Percentage::try_from("10%"), Err(PercentageError::Parse)));
}

#[test]
fn empty_text_is_refused() {
    assert!(matches!(Percentage::try_from(""), Err(PercentageError::Parse)));
}

#[test]
fn a_signed_integer_is_a_fraction() {
    assert_eq!(Percentage::from_i64(1).value(), Decimal::ONE);
    assert_eq!(Percentage::from_i64(-7).value(), Decimal::new(-7, 0));
    assert_eq!(Percentage::from_i64(-7).value().scale(), 0);
    assert_eq!(Percentage::from_i64(i64::MIN).value().mantissa(), -9223372036854775808);
    assert_eq!(Percentage::from_i64(0).value(), Decimal::ZERO);
}

#[test]
fn an_unsigned_integer_is_a_fraction() {
    assert_eq!(Percentage::from_u64(1).value(), Decimal::ONE);
    assert_eq!(Percentage::from_u64(u64::MAX).value().mantissa(), 18446744073709551615);
    assert_eq!(Percentage::from_u64(u64::MAX).value().scale(), 0);
}
