use decimal_percentage::integer::{signed_outcome, to_signed, to_unsigned, unsigned_outcome};
use decimal_percentage::{Percentage, PercentageError};
use rust_decimal::Decimal;
use std::str::FromStr;

fn dec(numeral: &str) -> Decimal {
    Decimal::from_str(numeral).unwrap()
}

#[test]
fn the_integer_part_is_what_stands_before_the_point() {
    assert_eq!(to_signed(&dec("3.3"), -128, 127), Some(3));
    assert_eq!(to_signed(&dec("-3.3"), -128, 127), Some(-3));
    assert_eq!(to_signed(&dec("3.999"), -128, 127), Some(3));
    assert_eq!(to_signed(&dec("-3.999"), -128, 127), Some(-3));
    assert_eq!(to_signed(&dec("0.5"), -128, 127), Some(0));
    assert_eq!(to_signed(&dec("-0.5"), -128, 127), Some(0));
    assert_eq!(to_unsigned(&dec("3.999"), 255), Some(3));
    assert_eq!(to_unsigned(&dec("0.5"), 255), Some(0));
}

#[test]
fn the_bounds_are_part_of_the_range() {
    assert_eq!(to_signed(&dec("127.9"), -128, 127), Some(127));
    assert_eq!(to_signed(&dec("128"), -128, 127), None);
    assert_eq!(to_signed(&dec("-128.9"), -128, 127), Some(-128));
    assert_eq!(to_signed(&dec("-129"), -128, 127), None);
    assert_eq!(to_unsigned(&dec("255.5"), 255), Some(255));
    assert_eq!(to_unsigned(&dec("256"), 255), None);
    assert_eq!(to_signed(&dec("9223372036854775807.5"), i64::MIN, i64::MAX), Some(i64::MAX));
    assert_eq!(to_signed(&dec("9223372036854775808"), i64::MIN, i64::MAX), None);
    assert_eq!(to_signed(&dec("-9223372036854775808.5"), i64::MIN, i64::MAX), Some(i64::MIN));
    assert_eq!(to_signed(&dec("-9223372036854775809"), i64::MIN, i64::MAX), None);
    assert_eq!(to_unsigned(&dec("18446744073709551615.5"), u64::MAX), Some(u64::MAX));
    assert_eq!(to_unsigned(&dec("18446744073709551616"), u64::MAX), None);
    assert_eq!(to_signed(&Decimal::MAX, i64::MIN, i64::MAX), None);
    assert_eq!(to_unsigned(&Decimal::MAX, u64::MAX), None);
}

#[test]
fn a_sign_leaves_no_unsigned_integer() {
    assert_eq!(to_unsigned(&dec("-1"), 255), None);
    assert_eq!(to_unsigned(&dec("-0.5"), 255), None);
    let mut negative_zero = Decimal::ZERO;
    negative_zero.set_sign_negative(true);
    assert_eq!(to_unsigned(&negative_zero, 255), None);
    assert_eq!(to_signed(&negative_zero, -128, 127), Some(0));
    assert_eq!(to_unsigned(&Decimal::ZERO, 255), Some(0));
}

#[test]
fn a_missing_product_is_an_overflow() {
    assert_eq!(signed_outcome(None, -128, 127), Err(PercentageError::Overflow));
    assert_eq!(unsigned_outcome(None, 255), Err(PercentageError::Overflow));
}

#[test]
fn a_product_is_brought_to_its_integer() {
    assert_eq!(signed_outcome(Some(dec("3.3")), -128, 127), Ok(3));
    assert_eq!(signed_outcome(Some(dec("-3.3")), -128, 127), Ok(-3));
    assert_eq!(signed_outcome(Some(dec("300")), -128, 127), Err(PercentageError::OutOfRange));
    assert_eq!(unsigned_outcome(Some(dec("3.3")), 255), Ok(3));
    assert_eq!(unsigned_outcome(Some(dec("300")), 255), Err(PercentageError::OutOfRange));
    assert_eq!(unsigned_outcome(Some(dec("-3.3")), 255), Err(PercentageError::OutOfRange));
}

#[test]
fn an_outcome_of_the_arithmetic_is_a_percentage() {
    let made = Percentage::from_outcome(Some(dec("0.25")));
    assert!(made == Ok(Percentage::from(dec("0.25"))));
    assert_eq!(made.unwrap().value().scale(), 2);
    assert!(Percentage::from_outcome(None) == Err(PercentageError::Overflow));
}

#[test]
fn a_parsed_decimal_is_a_percentage() {
    let made = Percentage::from_parsed(Decimal::from_str("0.25"));
    assert!(made == Ok(Percentage::from(dec("0.25"))));
    let refused = Percentage::from_parsed(Decimal::from_str("a quarter"));
    assert!(refused == Err(PercentageError::Parse));
}

#[test]
fn the_percent_sign_follows_the_digits() {
    assert_eq!(Percentage::with_percent_sign(String::from("50")), "50%");
    assert_eq!(Percentage::with_percent_sign(String::from("-0.5")), "-0.5%");
    assert_eq!(Percentage::with_percent_sign(String::new()), "%");
}
