use decimal_percentage::{Percentage, PercentageError};
use rust_decimal::prelude::FromPrimitive;
use rust_decimal::Decimal;
use std::str::FromStr;

fn text(numeral: &str) -> Percentage {
    Percentage::try_from(numeral).unwrap()
}

fn of_f64(fraction: f64) -> Percentage {
    Percentage::from(Decimal::from_f64(fraction).unwrap())
}

fn dec(numeral: &str) -> Decimal {
    Decimal::from_str(numeral).unwrap()
}

#[test]
fn a_tenth_and_a_tenth_are_a_fifth() {
    assert!(of_f64(0.1) + of_f64(0.1) == of_f64(0.2));
}

#[test]
fn decimal_sums_have_no_binary_error() {
    assert!(of_f64(0.1) + of_f64(0.2) == of_f64(0.3));
    assert!(text("0.1") + text("0.2") == text("0.3"));
    let sum = (text("0.1") + text("0.2")).value();
    assert_eq!(sum.mantissa(), 3);
    assert_eq!(sum.scale(), 1);
}

#[test]
fn a_sum_takes_the_larger_scale() {
    let sum = (text("0.5") + text("0.00000015")).value();
    assert_eq!(sum.mantissa(), 50000015);
    assert_eq!(sum.scale(), 8);
}

#[test]
fn a_sum_may_pass_one() {
    assert!(text("0.7") + text("0.7") == text("1.4"));
}

#[test]
fn a_difference_may_be_negative() {
    assert!(text("0.2") - text("0.5") == text("-0.3"));
    assert!(text("0.5") - text("0.2") == text("0.3"));
}

#[test]
fn a_difference_of_floats_is_exact() {
    let p4 = of_f64(0.3);
    let p2 = of_f64(0.1);
    assert!(p4 - p2 == of_f64(0.2));
}

#[test]
fn half_of_a_half_is_a_quarter() {
    let product = text("0.5") * text("0.5");
    assert!(product == text("0.25"));
    assert_eq!(product.value().mantissa(), 25);
    assert_eq!(product.value().scale(), 2);
}

#[test]
fn a_product_of_references_is_the_product() {
    let a = text("0.5");
    let b = text("0.3");
    assert!(&a * &b == text("0.15"));
    assert!(&a * &b == b * a);
}

#[test]
fn a_percentage_of_a_decimal_is_a_decimal() {
    assert_eq!(text("0.1") * dec("66.0"), dec("6.6"));
    assert_eq!(text("0.25") * dec("-8"), dec("-2"));
}

#[test]
fn a_very_small_quantity_is_multiplied_exactly() {
    let p1 = of_f64(0.1);
    let small_value = dec("0.0000000000000000002");
    let product = p1 * small_value;
    assert_eq!(product, dec("0.00000000000000000002"));
    assert_eq!(product.to_string(), "0.00000000000000000002");
    assert_eq!(product.mantissa(), 2);
    assert_eq!(product.scale(), 20);
}

#[test]
fn a_decimal_on_the_left_is_multiplied_alike() {
    let p = text("0.1");
    let small_value = dec("0.0000000000000000002");
    assert_eq!(small_value * p, dec("0.00000000000000000002"));
    assert_eq!(dec("66.0") * p, p * dec("66.0"));
    assert_eq!((dec("66.0") * p).scale(), (p * dec("66.0")).scale());
}

#[test]
fn a_decimal_is_added_as_a_fraction() {
    let p = text("0.5");
    assert!(p + dec("0.2") == text("0.7"));
    assert!(dec("0.2") + p == text("0.7"));
    assert!(dec("0.2") + p == p + dec("0.2"));
}

#[test]
fn a_decimal_is_taken_from_a_percentage() {
    assert!(text("0.25") - dec("1") == text("-0.75"));
}

#[test]
fn a_percentage_is_taken_from_a_decimal() {
    assert!(dec("1") - text("0.25") == text("0.75"));
}

#[test]
fn the_commuted_difference_is_the_negated_one() {
    let p = text("0.25");
    let x = dec("1.5");
    let direct = (p - x).value();
    let commuted = (x - p).value();
    assert_eq!(commuted, -direct);
    assert_eq!(commuted, dec("1.25"));
    assert_ne!(commuted, direct);
}

#[test]
fn the_recoverable_forms_give_the_operators_results() {
    let a = text("0.5");
    let b = text("0.2");
    assert!(a.try_add(b) == Ok(text("0.7")));
    assert!(a.try_sub(b) == Ok(text("0.3")));
    assert!(a.try_mul(b) == Ok(text("0.10")));
    assert!(a.try_add(b).unwrap() == a + b);
    assert!(a.try_sub(b).unwrap() == a - b);
    assert!(a.try_mul(b).unwrap() == a * b);
}

#[test]
fn a_sum_out_of_range_overflows() {
    let most = Percentage::from(Decimal::MAX);
    assert!(most.try_add(most) == Err(PercentageError::Overflow));
    assert!(most.try_add(text("1")) == Err(PercentageError::Overflow));
}

#[test]
fn a_difference_out_of_range_overflows() {
    let most = Percentage::from(Decimal::MAX);
    let least = Percentage::from(Decimal::MIN);
    assert!(least.try_sub(most) == Err(PercentageError::Overflow));
    assert!(most.try_sub(most) == Ok(text("0")));
}

#[test]
fn a_product_out_of_range_overflows() {
    let most = Percentage::from(Decimal::MAX);
    assert!(most.try_mul(text("2")) == Err(PercentageError::Overflow));
    assert!(most.try_mul(text("1")) == Ok(most));
    assert!(most.try_mul(text("0.5")).is_ok());
}

#[test]
fn a_product_past_the_last_digit_is_rounded() {
    let smallest = text("0.0000000000000000000000000001");
    assert!(smallest.try_mul(text("0.1")) == Ok(text("0")));
    assert!(smallest.try_mul(text("0.6")) == Ok(smallest));
}

#[test]
fn the_extremes_are_summed_to_zero() {
    let most = Percentage::from(Decimal::MAX);
    let least = Percentage::from(Decimal::MIN);
    assert!(most + least == text("0"));
}
