use decimal_percentage::Percentage;
use rust_decimal::Decimal;
use std::str::FromStr;

fn text(numeral: &str) -> Percentage {
    Percentage::try_from(numeral).unwrap()
}

fn dec(numeral: &str) -> Decimal {
    Decimal::from_str(numeral).unwrap()
}

#[test]
fn a_product_with_an_integer_commutes() {
    let p = text("0.37");
    assert_eq!(p * 100i8, 100i8 * p);
    assert_eq!(p * -100i16, -100i16 * p);
    assert_eq!(p * 1000i32, 1000i32 * p);
    assert_eq!(p * -1000i64, -1000i64 * p);
    assert_eq!(p * 1000isize, 1000isize * p);
    assert_eq!(p * 100u8, 100u8 * p);
    assert_eq!(p * 1000u16, 1000u16 * p);
    assert_eq!(p * 1000u32, 1000u32 * p);
    assert_eq!(p * 1000u64, 1000u64 * p);
    assert_eq!(p * 1000usize, 1000usize * p);
    assert_eq!(p * 100i8, 37);
    assert_eq!(p * 1000u64, 370);
}

#[test]
fn a_product_with_a_decimal_commutes() {
    let p = text("0.37");
    let x = dec("12.345");
    assert_eq!(p * x, x * p);
    assert_eq!((p * x).to_string(), (x * p).to_string());
    assert_eq!((p * x).to_string(), "4.56765");
}

#[test]
fn a_sum_with_an_integer_commutes() {
    let p = text("0.37");
    assert!(p + 3i8 == 3i8 + p);
    assert!(p + -3i16 == -3i16 + p);
    assert!(p + 3i32 == 3i32 + p);
    assert!(p + -3i64 == -3i64 + p);
    assert!(p + 3isize == 3isize + p);
    assert!(p + 3u8 == 3u8 + p);
    assert!(p + 3u16 == 3u16 + p);
    assert!(p + 3u32 == 3u32 + p);
    assert!(p + 3u64 == 3u64 + p);
    assert!(p + 3usize == 3usize + p);
    assert_eq!((p + 3u8).value().to_string(), (3u8 + p).value().to_string());
}

#[test]
fn a_sum_with_a_decimal_commutes() {
    let p = text("0.37");
    let x = dec("12.345");
    assert!(p + x == x + p);
    assert_eq!((p + x).value().to_string(), "12.715");
    assert_eq!((x + p).value().to_string(), "12.715");
}

#[test]
fn a_commuted_difference_is_negated_not_equal() {
    let p = text("0.37");
    assert!(3i32 - p == text("2.63"));
    assert!(p - 3i32 == text("-2.63"));
    assert!((3i32 - p).value() == -(p - 3i32).value());
    assert!(3i32 - p != p - 3i32);
    assert!((3u8 - p).value() == -(p - 3u8).value());
    assert!((dec("0.1") - p).value() == -(p - dec("0.1")).value());
}

#[test]
fn a_difference_with_itself_commutes_to_zero() {
    let p = text("0.37");
    assert!(p - dec("0.37") == dec("0.37") - p);
    assert!(p - dec("0.37") == text("0"));
}

#[test]
fn a_decimal_is_read_back_from_what_was_made_of_it() {
    let d = dec("0.12345678901234567890");
    let p = Percentage::from(d);
    assert_eq!(p.value(), d);
    assert_eq!(p.value().to_string(), "0.12345678901234567890");
    assert!(Percentage::from(p.value()) == p);
}
