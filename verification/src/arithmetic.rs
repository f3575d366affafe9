//! Sums, differences and products of percentages, with each other and with
//! decimals.
//!
//! The arithmetic is the decimal library's: `decimal_sum`, `decimal_difference`
//! and `decimal_product` name what it returns. Where the result is out of a
//! decimal's range it returns nothing: a `try_` function then fails with
//! `Overflow`, and an operator is not to be called, which its `*_req` states.
//!
//! What an operator returns is stated by its own `ensures`, over the views of
//! the operands and of the result. No spec function can build a `Decimal`, so an
//! operator's `*_spec` is left open and `obeys_*_spec` is `false`.
use crate::decimal::{
    checked_add, checked_mul, checked_sub, decimal_difference, decimal_product, decimal_sum,
    decimal_view,
};
use crate::error::PercentageError;
use crate::percentage::Percentage;
use rust_decimal::Decimal;
use std::ops::{Add, Mul, Sub};
use vstd::pervasive::unreached;
use vstd::prelude::*;
use vstd::std_specs::ops::{AddSpecImpl, MulSpecImpl, SubSpecImpl};

verus! {

impl Percentage {
    /// What the decimal arithmetic returned, as a percentage: `Overflow` where
    /// it returned nothing, the result being out of a decimal's range.
    pub fn from_outcome(outcome: Option<Decimal>) -> (r: Result<Percentage, PercentageError>)
        ensures
            match r {
                Ok(p) => outcome == Some(p.decimal()),
                Err(e) => e == PercentageError::Overflow && outcome is None,
            },
    {
        match outcome {
            Some(d) => Ok(Percentage::from(d)),
            None => Err(PercentageError::Overflow),
        }
    }

    /// The percentage of a percentage: 50% of 50% is 25%.
    pub fn try_mul(self, rhs: Percentage) -> (r: Result<Percentage, PercentageError>)
        ensures
            match r {
                Ok(p) => decimal_product(self@, rhs@) == Some(p@),
                Err(e) => e == PercentageError::Overflow && decimal_product(self@, rhs@) is None,
            },
    {
        Percentage::from_outcome(checked_mul(self.0, rhs.0))
    }

    /// The sum of two percentages. It may be negative or above one.
    pub fn try_add(self, rhs: Percentage) -> (r: Result<Percentage, PercentageError>)
        ensures
            match r {
                Ok(p) => decimal_sum(self@, rhs@) == Some(p@),
                Err(e) => e == PercentageError::Overflow && decimal_sum(self@, rhs@) is None,
            },
    {
        Percentage::from_outcome(checked_add(self.0, rhs.0))
    }

    /// `self` less `rhs`. It may be negative or above one.
    pub fn try_sub(self, rhs: Percentage) -> (r: Result<Percentage, PercentageError>)
        ensures
            match r {
                Ok(p) => decimal_difference(self@, rhs@) == Some(p@),
                Err(e) => e == PercentageError::Overflow && decimal_difference(self@, rhs@)
                    is None,
            },
    {
        Percentage::from_outcome(checked_sub(self.0, rhs.0))
    }
}

impl Mul<Percentage> for Percentage {
    type Output = Percentage;

    /// The percentage of a percentage.
    fn mul(self, rhs: Percentage) -> (r: Percentage)
        ensures
            decimal_product(self@, rhs@) == Some(r@),
    {
        match self.try_mul(rhs) {
            Ok(p) => p,
            Err(_) => unreached(),
        }
    }
}

impl MulSpecImpl<Percentage> for Percentage {
    open spec fn obeys_mul_spec() -> bool {
        false
    }

    open spec fn mul_req(self, rhs: Percentage) -> bool {
        decimal_product(self@, rhs@) is Some
    }

    open spec fn mul_spec(self, rhs: Percentage) -> Percentage {
        arbitrary()
    }
}

impl<'a, 'b> Mul<&'a Percentage> for &'b Percentage {
    type Output = Percentage;

    /// The percentage of a percentage, with `rhs` as the left factor.
    fn mul(self, rhs: &'a Percentage) -> (r: Percentage)
        ensures
            decimal_product(rhs@, self@) == Some(r@),
    {
        match rhs.try_mul(*self) {
            Ok(p) => p,
            Err(_) => unreached(),
        }
    }
}

impl<'a, 'b> MulSpecImpl<&'a Percentage> for &'b Percentage {
    open spec fn obeys_mul_spec() -> bool {
        false
    }

    open spec fn mul_req(self, rhs: &'a Percentage) -> bool {
        decimal_product(rhs@, self@) is Some
    }

    open spec fn mul_spec(self, rhs: &'a Percentage) -> Percentage {
        arbitrary()
    }
}

impl Add<Percentage> for Percentage {
    type Output = Percentage;

    /// The sum of two percentages.
    fn add(self, rhs: Percentage) -> (r: Percentage)
        ensures
            decimal_sum(self@, rhs@) == Some(r@),
    {
        match self.try_add(rhs) {
            Ok(p) => p,
            Err(_) => unreached(),
        }
    }
}

impl AddSpecImpl<Percentage> for Percentage {
    open spec fn obeys_add_spec() -> bool {
        false
    }

    open spec fn add_req(self, rhs: Percentage) -> bool {
        decimal_sum(self@, rhs@) is Some
    }

    open spec fn add_spec(self, rhs: Percentage) -> Percentage {
        arbitrary()
    }
}

impl Sub<Percentage> for Percentage {
    type Output = Percentage;

    /// `self` less `rhs`.
    fn sub(self, rhs: Percentage) -> (r: Percentage)
        ensures
            decimal_difference(self@, rhs@) == Some(r@),
    {
        match self.try_sub(rhs) {
            Ok(p) => p,
            Err(_) => unreached(),
        }
    }
}

impl SubSpecImpl<Percentage> for Percentage {
    open spec fn obeys_sub_spec() -> bool {
        false
    }

    open spec fn sub_req(self, rhs: Percentage) -> bool {
        decimal_difference(self@, rhs@) is Some
    }

    open spec fn sub_spec(self, rhs: Percentage) -> Percentage {
        arbitrary()
    }
}

impl Mul<Decimal> for Percentage {
    type Output = Decimal;

    /// The percentage of an exact quantity, as a decimal.
    fn mul(self, rhs: Decimal) -> (r: Decimal)
        ensures
            decimal_product(self@, decimal_view(rhs)) == Some(decimal_view(r)),
    {
        (self * Percentage::from(rhs)).value()
    }
}

impl MulSpecImpl<Decimal> for Percentage {
    open spec fn obeys_mul_spec() -> bool {
        false
    }

    open spec fn mul_req(self, rhs: Decimal) -> bool {
        decimal_product(self@, decimal_view(rhs)) is Some
    }

    open spec fn mul_spec(self, rhs: Decimal) -> Decimal {
        arbitrary()
    }
}

impl Mul<Percentage> for Decimal {
    type Output = Decimal;

    /// `rhs * self`: the percentage of an exact quantity that stands on the
    /// left.
    fn mul(self, rhs: Percentage) -> (r: Decimal)
        ensures
            decimal_product(rhs@, decimal_view(self)) == Some(decimal_view(r)),
    {
        rhs * self
    }
}

impl MulSpecImpl<Percentage> for Decimal {
    open spec fn obeys_mul_spec() -> bool {
        false
    }

    open spec fn mul_req(self, rhs: Percentage) -> bool {
        decimal_product(rhs@, decimal_view(self)) is Some
    }

    open spec fn mul_spec(self, rhs: Percentage) -> Decimal {
        arbitrary()
    }
}

impl Add<Decimal> for Percentage {
    type Output = Percentage;

    /// `self` and the fraction `rhs`, added.
    fn add(self, rhs: Decimal) -> (r: Percentage)
        ensures
            decimal_sum(self@, decimal_view(rhs)) == Some(r@),
    {
        self + Percentage::from(rhs)
    }
}

impl AddSpecImpl<Decimal> for Percentage {
    open spec fn obeys_add_spec() -> bool {
        false
    }

    open spec fn add_req(self, rhs: Decimal) -> bool {
        decimal_sum(self@, decimal_view(rhs)) is Some
    }

    open spec fn add_spec(self, rhs: Decimal) -> Percentage {
        arbitrary()
    }
}

impl Add<Percentage> for Decimal {
    type Output = Percentage;

    /// `rhs + self`: the fraction on the left is the second summand.
    fn add(self, rhs: Percentage) -> (r: Percentage)
        ensures
            decimal_sum(rhs@, decimal_view(self)) == Some(r@),
    {
        rhs + self
    }
}

impl AddSpecImpl<Percentage> for Decimal {
    open spec fn obeys_add_spec() -> bool {
        false
    }

    open spec fn add_req(self, rhs: Percentage) -> bool {
        decimal_sum(rhs@, decimal_view(self)) is Some
    }

    open spec fn add_spec(self, rhs: Percentage) -> Percentage {
        arbitrary()
    }
}

impl Sub<Decimal> for Percentage {
    type Output = Percentage;

    /// `self` less the fraction `rhs`.
    fn sub(self, rhs: Decimal) -> (r: Percentage)
        ensures
            decimal_difference(self@, decimal_view(rhs)) == Some(r@),
    {
        self - Percentage::from(rhs)
    }
}

impl SubSpecImpl<Decimal> for Percentage {
    open spec fn obeys_sub_spec() -> bool {
        false
    }

    open spec fn sub_req(self, rhs: Decimal) -> bool {
        decimal_difference(self@, decimal_view(rhs)) is Some
    }

    open spec fn sub_spec(self, rhs: Decimal) -> Percentage {
        arbitrary()
    }
}

impl Sub<Percentage> for Decimal {
    type Output = Percentage;

    /// The fraction `self` less `rhs`: the decimal is what is taken from.
    fn sub(self, rhs: Percentage) -> (r: Percentage)
        ensures
            decimal_difference(decimal_view(self), rhs@) == Some(r@),
    {
        Percentage::from(self) - rhs
    }
}

impl SubSpecImpl<Percentage> for Decimal {
    open spec fn obeys_sub_spec() -> bool {
        false
    }

    open spec fn sub_req(self, rhs: Percentage) -> bool {
        decimal_difference(decimal_view(self), rhs@) is Some
    }

    open spec fn sub_spec(self, rhs: Percentage) -> Percentage {
        arbitrary()
    }
}

} // verus!
