use decimal_percentage::Percentage;
use rust_decimal::prelude::{FromPrimitive, ToPrimitive};
use rust_decimal::Decimal;

fn of_f64(fraction: f64) -> Percentage {
    Percentage::from(Decimal::from_f64(fraction).unwrap())
}

fn times_f64(p: Percentage, x: f64) -> f64 {
    (p * Decimal::from_f64(x).unwrap()).to_f64().unwrap()
}

fn times_f32(p: Percentage, x: f32) -> f32 {
    (p * Decimal::from_f32(x).unwrap()).to_f32().unwrap()
}

fn f64_times(x: f64, p: Percentage) -> f64 {
    (Decimal::from_f64(x).unwrap() * p).to_f64().unwrap()
}

fn f32_times(x: f32, p: Percentage) -> f32 {
    (Decimal::from_f32(x).unwrap() * p).to_f32().unwrap()
}

#[test]
fn percentage() {
    let p1 = of_f64(0.5);
    let p2 = Percentage::try_from("0.00000015").unwrap();
    let p3 = of_f64(0.2);
    let p4 = of_f64(1.2);

    assert!(1 - p1 == of_f64(0.5));
    assert!(p1 - Decimal::from_f64(0.2).unwrap() == of_f64(0.3));
    assert!(1u8 - p1 == of_f64(0.5));
    assert!(p1 - Decimal::from_f32(0.2f32).unwrap() == of_f64(0.3));
    assert!(1 + p1 == of_f64(1.5));
    assert!(p1 + 1 == of_f64(1.5));

    assert!(p1 - p3 == of_f64(0.3));
    assert!(p1 + p2 == Percentage::try_from("0.50000015").unwrap());
    assert!(p4 - p3 == of_f64(1.0));

    assert_eq!(p1 * 100, 50);
    assert_eq!(p1 * 100u8, 50u8);
    assert_eq!(p1 * -100i8, -50i8);
    assert_eq!(p1 * 100u16, 50u16);
    assert_eq!(p1 * -100i16, -50i16);
    assert_eq!(p1 * 100u32, 50u32);
    assert_eq!(p1 * -100i32, -50i32);
    assert_eq!(p1 * 100u64, 50u64);
    assert_eq!(p1 * -100i64, -50i64);
    assert_eq!(p1 * 100usize, 50usize);
    assert_eq!(p1 * -100isize, -50isize);
    assert_eq!(times_f64(p1, 90.0), 45.0);
    assert_eq!(times_f32(p1, 90.0f32), 45.0f32);

    assert_eq!(100 * p1, 50);
    assert_eq!(100u8 * p1, 50u8);
    assert_eq!(-100i8 * p1, -50i8);
    assert_eq!(100u16 * p1, 50u16);
    assert_eq!(-100i16 * p1, -50i16);
    assert_eq!(100u32 * p1, 50u32);
    assert_eq!(-100i32 * p1, -50i32);
    assert_eq!(100u64 * p1, 50u64);
    assert_eq!(-100i64 * p1, -50i64);
    assert_eq!(100usize * p1, 50usize);
    assert_eq!(-100isize * p1, -50isize);
    assert_eq!(f64_times(90.0, p1), 45.0);
    assert_eq!(f32_times(90.0f32, p1), 45.0f32);
}
