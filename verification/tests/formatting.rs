use decimal_percentage::{Percentage, PercentageError};
use rust_decimal::prelude::FromPrimitive;
use rust_decimal::Decimal;

fn of_f64(fraction: f64) -> Percentage {
    Percentage::from(Decimal::from_f64(fraction).unwrap())
}

#[test]
fn a_half_is_written_as_fifty_percent() {
    assert_eq!(of_f64(0.5).to_string(), "50%");
}

#[test]
fn more_than_one_is_written_above_a_hundred() {
    assert_eq!(of_f64(1.2).to_string(), "120%");
}

#[test]
fn the_fraction_of_a_percent_is_written() {
    assert_eq!(Percentage::try_from("0.155").unwrap().to_string(), "15.5%");
    assert_eq!(Percentage::try_from("0.00000015").unwrap().to_string(), "0.000015%");
}

#[test]
fn trailing_zeros_are_not_written() {
    assert_eq!(Percentage::try_from("0.5000").unwrap().to_string(), "50%");
    assert_eq!(Percentage::try_from("0.1230").unwrap().to_string(), "12.3%");
}

#[test]
fn a_negative_percentage_is_written_with_its_sign() {
    assert_eq!(Percentage::try_from("-0.05").unwrap().to_string(), "-5%");
}

#[test]
fn zero_is_written_without_sign_or_fraction() {
    assert_eq!(Percentage::try_from("0").unwrap().to_string(), "0%");
    assert_eq!(Percentage::try_from("0.000").unwrap().to_string(), "0%");
    assert_eq!(of_f64(-0.0).to_string(), "0%");
}

#[test]
fn no_binary_digits_show() {
    assert_eq!(of_f64(0.1).to_string(), "10%");
    assert_eq!((of_f64(0.1) + of_f64(0.2)).to_string(), "30%");
}

#[test]
fn the_recoverable_form_writes_the_same() {
    assert_eq!(of_f64(0.5).try_to_string(), Ok(String::from("50%")));
    assert_eq!(Percentage::from_i64(2).try_to_string(), Ok(String::from("200%")));
}

#[test]
fn a_percentage_too_large_to_scale_is_not_written() {
    let p = Percentage::from(Decimal::MAX);
    assert_eq!(p.try_to_string(), Err(PercentageError::Overflow));
    let q = Percentage::from(Decimal::MIN);
    assert_eq!(q.try_to_string(), Err(PercentageError::Overflow));
}
