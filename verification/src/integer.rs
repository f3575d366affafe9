//! Integers as operands.
//!
//! An integer stands for itself: `1` is the fraction one, 100%, not 1%. It is
//! brought to a decimal without loss. A product with an integer is brought back
//! to the integer type, and there the fractional digits are dropped: 10% of 33
//! is 3.
use crate::decimal::{
    checked_mul, decimal_product, decimal_view, from_i64, from_u64, integer_view, optional_view,
    to_i64, to_u64, DecimalView,
};
use crate::error::PercentageError;
use crate::laws::law_integer_round_trip;
use crate::percentage::Percentage;
use rust_decimal::Decimal;
use vstd::prelude::*;

verus! {

/// A decimal product as a signed integer between `min` and `max`: its integer
/// part. `None` where there is no product, or its integer part is not between
/// `min` and `max`.
pub open spec fn signed_whole(product: Option<DecimalView>, min: int, max: int) -> Option<int> {
    match product {
        Some(product) => product.signed_part(min, max),
        None => None,
    }
}

/// A decimal product as an unsigned integer up to `max`: its integer part.
/// `None` where there is no product, or it carries a sign, or its integer part
/// is above `max`.
pub open spec fn unsigned_whole(product: Option<DecimalView>, max: int) -> Option<int> {
    match product {
        Some(product) => product.unsigned_part(max),
        None => None,
    }
}

/// What a product fails with where it has no integer: `Overflow` where there is
/// no decimal product, `OutOfRange` where the decimal product does not fit the
/// integer type.
pub open spec fn whole_error(product: Option<DecimalView>) -> PercentageError {
    if product is None {
        PercentageError::Overflow
    } else {
        PercentageError::OutOfRange
    }
}

/// The percentage `p` of the integer `n`, as a signed integer between `min` and
/// `max`, without its fractional digits.
pub open spec fn signed_product(p: DecimalView, n: int, min: int, max: int) -> Option<int> {
    signed_whole(decimal_product(p, integer_view(n)), min, max)
}

/// The percentage `p` of the integer `n`, as an unsigned integer up to `max`,
/// without its fractional digits.
pub open spec fn unsigned_product(p: DecimalView, n: int, max: int) -> Option<int> {
    unsigned_whole(decimal_product(p, integer_view(n)), max)
}

/// What a product of `p` with the integer `n` fails with where it has no
/// result.
pub open spec fn product_error(p: DecimalView, n: int) -> PercentageError {
    whole_error(decimal_product(p, integer_view(n)))
}

/// The integer part of `d` where it lies between `min` and `max`.
pub fn to_signed(d: &Decimal, min: i64, max: i64) -> (r: Option<i64>)
    ensures
        match r {
            Some(n) => decimal_view(*d).signed_part(min as int, max as int) == Some(n as int),
            None => decimal_view(*d).signed_part(min as int, max as int) is None,
        },
{
    match to_i64(d) {
        Some(n) if min <= n && n <= max => Some(n),
        _ => None,
    }
}

/// The integer part of `d` where `d` carries no sign and it is at most `max`.
pub fn to_unsigned(d: &Decimal, max: u64) -> (r: Option<u64>)
    ensures
        match r {
            Some(n) => decimal_view(*d).unsigned_part(max as int) == Some(n as int),
            None => decimal_view(*d).unsigned_part(max as int) is None,
        },
{
    match to_u64(d) {
        Some(n) if n <= max => Some(n),
        _ => None,
    }
}

/// What the decimal multiplication returned, as a signed integer between `min`
/// and `max`.
pub fn signed_outcome(product: Option<Decimal>, min: i64, max: i64) -> (r: Result<
    i64,
    PercentageError,
>)
    ensures
        match r {
            Ok(n) => min <= n <= max && signed_whole(
                optional_view(product),
                min as int,
                max as int,
            ) == Some(n as int),
            Err(e) => e == whole_error(optional_view(product)) && signed_whole(
                optional_view(product),
                min as int,
                max as int,
            ) is None,
        },
{
    match product {
        None => Err(PercentageError::Overflow),
        Some(product) => match to_signed(&product, min, max) {
            Some(n) => Ok(n),
            None => Err(PercentageError::OutOfRange),
        },
    }
}

/// What the decimal multiplication returned, as an unsigned integer up to
/// `max`.
pub fn unsigned_outcome(product: Option<Decimal>, max: u64) -> (r: Result<u64, PercentageError>)
    ensures
        match r {
            Ok(n) => n <= max && unsigned_whole(optional_view(product), max as int) == Some(
                n as int,
            ),
            Err(e) => e == whole_error(optional_view(product)) && unsigned_whole(
                optional_view(product),
                max as int,
            ) is None,
        },
{
    match product {
        None => Err(PercentageError::Overflow),
        Some(product) => match to_unsigned(&product, max) {
            Some(n) => Ok(n),
            None => Err(PercentageError::OutOfRange),
        },
    }
}

impl Percentage {
    /// The percentage whose fraction is the integer `n`: `1` is 100%.
    pub fn from_i64(n: i64) -> (r: Percentage)
        ensures
            r@ == integer_view(n as int),
            r@.mantissa() == n,
            r@.integer_part() == n,
    {
        proof {
            law_integer_round_trip(n as int, n as int);
        }
        Percentage::from(from_i64(n))
    }

    /// The percentage whose fraction is the integer `n`: `1` is 100%.
    pub fn from_u64(n: u64) -> (r: Percentage)
        ensures
            r@ == integer_view(n as int),
            r@.mantissa() == n,
            r@.integer_part() == n,
    {
        proof {
            law_integer_round_trip(n as int, n as int);
        }
        Percentage::from(from_u64(n))
    }

    /// The percentage of `rhs` as an integer between `min` and `max`.
    pub(crate) fn mul_signed(self, rhs: i64, min: i64, max: i64) -> (r: Result<
        i64,
        PercentageError,
    >)
        ensures
            match r {
                Ok(n) => min <= n <= max && signed_product(
                    self@,
                    rhs as int,
                    min as int,
                    max as int,
                ) == Some(n as int),
                Err(e) => e == product_error(self@, rhs as int) && signed_product(
                    self@,
                    rhs as int,
                    min as int,
                    max as int,
                ) is None,
            },
    {
        signed_outcome(checked_mul(self.0, from_i64(rhs)), min, max)
    }

    /// The percentage of `rhs` as an unsigned integer up to `max`.
    pub(crate) fn mul_unsigned(self, rhs: u64, max: u64) -> (r: Result<u64, PercentageError>)
        ensures
            match r {
                Ok(n) => n <= max && unsigned_product(self@, rhs as int, max as int) == Some(
                    n as int,
                ),
                Err(e) => e == product_error(self@, rhs as int) && unsigned_product(
                    self@,
                    rhs as int,
                    max as int,
                ) is None,
            },
    {
        unsigned_outcome(checked_mul(self.0, from_u64(rhs)), max)
    }

    /// The percentage of the integer `rhs`, without the fractional digits.
    pub fn try_mul_i64(self, rhs: i64) -> (r: Result<i64, PercentageError>)
        ensures
            match r {
                Ok(n) => signed_product(self@, rhs as int, i64::MIN as int, i64::MAX as int)
                    == Some(n as int),
                Err(e) => e == product_error(self@, rhs as int) && signed_product(
                    self@,
                    rhs as int,
                    i64::MIN as int,
                    i64::MAX as int,
                ) is None,
            },
    {
        self.mul_signed(rhs, i64::MIN, i64::MAX)
    }

    /// The percentage of the integer `rhs`, without the fractional digits.
    pub fn try_mul_u64(self, rhs: u64) -> (r: Result<u64, PercentageError>)
        ensures
            match r {
                Ok(n) => unsigned_product(self@, rhs as int, u64::MAX as int) == Some(n as int),
                Err(e) => e == product_error(self@, rhs as int) && unsigned_product(
                    self@,
                    rhs as int,
                    u64::MAX as int,
                ) is None,
            },
    {
        self.mul_unsigned(rhs, u64::MAX)
    }
}

} // verus!
