use decimal_percentage::integer::{to_signed, to_unsigned};
use decimal_percentage::Percentage;
use rust_decimal::Decimal;

const MANTISSAS: [i128; 21] = [
    0,
    1,
    -1,
    5,
    -5,
    10,
    -10,
    100,
    12300,
    -12300,
    4294967296,
    -4294967296,
    9223372036854775807,
    -9223372036854775808,
    18446744073709551615,
    18446744073709551616,
    -18446744073709551616,
    10000000000000000000000000000,
    79228162514264337593543950330,
    79228162514264337593543950335,
    -79228162514264337593543950335,
];

const SCALES: [u32; 9] = [0, 1, 2, 9, 10, 19, 20, 27, 28];

fn stripped(mantissa: i128, scale: u32) -> (i128, u32) {
    if mantissa == 0 {
        return (0, 0);
    }
    let mut m = mantissa;
    let mut s = scale;
    while s > 0 && m % 10 == 0 {
        m /= 10;
        s -= 1;
    }
    (m, s)
}

fn written(negative: bool, magnitude: u128, scale: u32) -> String {
    let mut digits = magnitude.to_string();
    while digits.len() <= scale as usize {
        digits.insert(0, '0');
    }
    if scale > 0 {
        digits.insert(digits.len() - scale as usize, '.');
    }
    if negative {
        digits.insert(0, '-');
    }
    digits
}

fn whole(mantissa: i128, scale: u32) -> i128 {
    mantissa / 10i128.pow(scale)
}

#[test]
fn equality_is_that_of_the_numbers() {
    for &m1 in MANTISSAS.iter() {
        for &s1 in SCALES.iter() {
            for &m2 in MANTISSAS.iter() {
                for &s2 in SCALES.iter() {
                    let a = Percentage::from(Decimal::from_i128_with_scale(m1, s1));
                    let b = Percentage::from(Decimal::from_i128_with_scale(m2, s2));
                    let same = stripped(m1, s1) == stripped(m2, s2);
                    assert_eq!(a == b, same, "{m1}e-{s1} and {m2}e-{s2}");
                }
            }
        }
    }
}

#[test]
fn a_signed_zero_equals_every_zero() {
    for &s1 in SCALES.iter() {
        let mut signed = Decimal::from_i128_with_scale(0, s1);
        signed.set_sign_negative(true);
        assert!(signed.is_sign_negative());
        for &s2 in SCALES.iter() {
            let plain = Decimal::from_i128_with_scale(0, s2);
            assert!(Percentage::from(signed) == Percentage::from(plain));
            assert!(Percentage::from(plain) == Percentage::from(signed));
        }
        assert!(Percentage::from(signed) != Percentage::from(Decimal::ONE));
    }
}

#[test]
fn the_integer_part_is_the_quotient_toward_zero() {
    for &m in MANTISSAS.iter() {
        for &s in SCALES.iter() {
            let d = Decimal::from_i128_with_scale(m, s);
            let part = whole(m, s);
            let signed = if i64::MIN as i128 <= part && part <= i64::MAX as i128 {
                Some(part as i64)
            } else {
                None
            };
            assert_eq!(to_signed(&d, i64::MIN, i64::MAX), signed, "{m}e-{s}");
            let unsigned = if m >= 0 && part <= u64::MAX as i128 {
                Some(part as u64)
            } else {
                None
            };
            assert_eq!(to_unsigned(&d, u64::MAX), unsigned, "{m}e-{s}");
            let byte = if -128 <= part && part <= 127 { Some(part as i64) } else { None };
            assert_eq!(to_signed(&d, -128, 127), byte, "{m}e-{s}");
            let small = if m >= 0 && part <= 255 { Some(part as u64) } else { None };
            assert_eq!(to_unsigned(&d, 255), small, "{m}e-{s}");
        }
    }
}

#[test]
fn a_signed_zero_has_a_signed_integer_only() {
    for &s in SCALES.iter() {
        let mut signed = Decimal::from_i128_with_scale(0, s);
        signed.set_sign_negative(true);
        assert_eq!(to_signed(&signed, i64::MIN, i64::MAX), Some(0));
        assert_eq!(to_unsigned(&signed, u64::MAX), None);
    }
}

#[test]
fn what_is_written_has_no_trailing_zero() {
    let hundred = Decimal::from(100);
    for &m in MANTISSAS.iter() {
        for &s in SCALES.iter() {
            let d = Decimal::from_i128_with_scale(m, s);
            let p = Percentage::from(d);
            match d.checked_mul(hundred) {
                Some(scaled) => {
                    assert_eq!(scaled.is_sign_negative(), scaled.mantissa() < 0);
                    let (mantissa, scale) = stripped(scaled.mantissa(), scaled.scale());
                    let mut text = written(mantissa < 0, mantissa.unsigned_abs(), scale);
                    text.push('%');
                    assert_eq!(p.try_to_string(), Ok(text), "{m}e-{s}");
                }
                None => assert!(p.try_to_string().is_err(), "{m}e-{s}"),
            }
        }
    }
}

#[test]
fn an_integer_is_held_as_it_is() {
    for n in [0i64, 1, -1, 100, -100, i64::MAX, i64::MIN, 4294967296, -4294967297] {
        let d = Percentage::from_i64(n).value();
        assert_eq!(d.mantissa(), n as i128);
        assert_eq!(d.scale(), 0);
        assert_eq!(d.is_sign_negative(), n < 0);
        assert_eq!(to_signed(&d, i64::MIN, i64::MAX), Some(n));
    }
    for n in [0u64, 1, 100, u64::MAX, 4294967296, 9223372036854775808] {
        let d = Percentage::from_u64(n).value();
        assert_eq!(d.mantissa(), n as i128);
        assert_eq!(d.scale(), 0);
        assert!(!d.is_sign_negative());
        assert_eq!(to_unsigned(&d, u64::MAX), Some(n));
    }
}
