//! Differences with integers: `p - n` and `n - p`, for every integer type.
//!
//! The integer is taken as the fraction that it is: `1 - p` is what is left of
//! 100%. Each form takes its right operand from its left one. They are to be
//! called where the decimal difference is in a decimal's range, which `sub_req`
//! states: [`Percentage::try_sub`] with [`Percentage::from_i64`] or
//! [`Percentage::from_u64`] finds out whether it is. As with the other
//! operators, `ensures` states the difference and `sub_spec` is left open.
use crate::decimal::{decimal_difference, integer_view};
use crate::percentage::Percentage;
use std::ops::Sub;
use vstd::prelude::*;
use vstd::std_specs::ops::SubSpecImpl;

verus! {

impl Sub<isize> for Percentage {
    type Output = Percentage;

    /// `self` less the fraction `rhs`.
    fn sub(self, rhs: isize) -> (r: Percentage)
        ensures
            decimal_difference(self@, integer_view(rhs as int)) == Some(r@),
    {
        self - Percentage::from_i64(rhs as i64)
    }
}

impl SubSpecImpl<isize> for Percentage {
    open spec fn obeys_sub_spec() -> bool {
        false
    }

    open spec fn sub_req(self, rhs: isize) -> bool {
        decimal_difference(self@, integer_view(rhs as int)) is Some
    }

    open spec fn sub_spec(self, rhs: isize) -> Percentage {
        arbitrary()
    }
}

impl Sub<Percentage> for isize {
    type Output = Percentage;

    /// The fraction `self` less `rhs`.
    fn sub(self, rhs: Percentage) -> (r: Percentage)
        ensures
            decimal_difference(integer_view(self as int), rhs@) == Some(r@),
    {
        Percentage::from_i64(self as i64) - rhs
    }
}

impl SubSpecImpl<Percentage> for isize {
    open spec fn obeys_sub_spec() -> bool {
        false
    }

    open spec fn sub_req(self, rhs: Percentage) -> bool {
        decimal_difference(integer_view(self as int), rhs@) is Some
    }

    open spec fn sub_spec(self, rhs: Percentage) -> Percentage {
        arbitrary()
    }
}

impl Sub<i8> for Percentage {
    type Output = Percentage;

    /// `self` less the fraction `rhs`.
    fn sub(self, rhs: i8) -> (r: Percentage)
        ensures
            decimal_difference(self@, integer_view(rhs as int)) == Some(r@),
    {
        self - Percentage::from_i64(rhs as i64)
    }
}

impl SubSpecImpl<i8> for Percentage {
    open spec fn obeys_sub_spec() -> bool {
        false
    }

    open spec fn sub_req(self, rhs: i8) -> bool {
        decimal_difference(self@, integer_view(rhs as int)) is Some
    }

    open spec fn sub_spec(self, rhs: i8) -> Percentage {
        arbitrary()
    }
}

impl Sub<Percentage> for i8 {
    type Output = Percentage;

    /// The fraction `self` less `rhs`.
    fn sub(self, rhs: Percentage) -> (r: Percentage)
        ensures
            decimal_difference(integer_view(self as int), rhs@) == Some(r@),
    {
        Percentage::from_i64(self as i64) - rhs
    }
}

impl SubSpecImpl<Percentage> for i8 {
    open spec fn obeys_sub_spec() -> bool {
        false
    }

    open spec fn sub_req(self, rhs: Percentage) -> bool {
        decimal_difference(integer_view(self as int), rhs@) is Some
    }

    open spec fn sub_spec(self, rhs: Percentage) -> Percentage {
        arbitrary()
    }
}

impl Sub<i16> for Percentage {
    type Output = Percentage;

    /// `self` less the fraction `rhs`.
    fn sub(self, rhs: i16) -> (r: Percentage)
        ensures
            decimal_difference(self@, integer_view(rhs as int)) == Some(r@),
    {
        self - Percentage::from_i64(rhs as i64)
    }
}

impl SubSpecImpl<i16> for Percentage {
    open spec fn obeys_sub_spec() -> bool {
        false
    }

    open spec fn sub_req(self, rhs: i16) -> bool {
        decimal_difference(self@, integer_view(rhs as int)) is Some
    }

    open spec fn sub_spec(self, rhs: i16) -> Percentage {
        arbitrary()
    }
}

impl Sub<Percentage> for i16 {
    type Output = Percentage;

    /// The fraction `self` less `rhs`.
    fn sub(self, rhs: Percentage) -> (r: Percentage)
        ensures
            decimal_difference(integer_view(self as int), rhs@) == Some(r@),
    {
        Percentage::from_i64(self as i64) - rhs
    }
}

impl SubSpecImpl<Percentage> for i16 {
    open spec fn obeys_sub_spec() -> bool {
        false
    }

    open spec fn sub_req(self, rhs: Percentage) -> bool {
        decimal_difference(integer_view(self as int), rhs@) is Some
    }

    open spec fn sub_spec(self, rhs: Percentage) -> Percentage {
        arbitrary()
    }
}

impl Sub<i32> for Percentage {
    type Output = Percentage;

    /// `self` less the fraction `rhs`.
    fn sub(self, rhs: i32) -> (r: Percentage)
        ensures
            decimal_difference(self@, integer_view(rhs as int)) == Some(r@),
    {
        self - Percentage::from_i64(rhs as i64)
    }
}

impl SubSpecImpl<i32> for Percentage {
    open spec fn obeys_sub_spec() -> bool {
        false
    }

    open spec fn sub_req(self, rhs: i32) -> bool {
        decimal_difference(self@, integer_view(rhs as int)) is Some
    }

    open spec fn sub_spec(self, rhs: i32) -> Percentage {
        arbitrary()
    }
}

impl Sub<Percentage> for i32 {
    type Output = Percentage;

    /// The fraction `self` less `rhs`.
    fn sub(self, rhs: Percentage) -> (r: Percentage)
        ensures
            decimal_difference(integer_view(self as int), rhs@) == Some(r@),
    {
        Percentage::from_i64(self as i64) - rhs
    }
}

impl SubSpecImpl<Percentage> for i32 {
    open spec fn obeys_sub_spec() -> bool {
        false
    }

    open spec fn sub_req(self, rhs: Percentage) -> bool {
        decimal_difference(integer_view(self as int), rhs@) is Some
    }

    open spec fn sub_spec(self, rhs: Percentage) -> Percentage {
        arbitrary()
    }
}

impl Sub<i64> for Percentage {
    type Output = Percentage;

    /// `self` less the fraction `rhs`.
    fn sub(self, rhs: i64) -> (r: Percentage)
        ensures
            decimal_difference(self@, integer_view(rhs as int)) == Some(r@),
    {
        self - Percentage::from_i64(rhs as i64)
    }
}

impl SubSpecImpl<i64> for Percentage {
    open spec fn obeys_sub_spec() -> bool {
        false
    }

    open spec fn sub_req(self, rhs: i64) -> bool {
        decimal_difference(self@, integer_view(rhs as int)) is Some
    }

    open spec fn sub_spec(self, rhs: i64) -> Percentage {
        arbitrary()
    }
}

impl Sub<Percentage> for i64 {
    type Output = Percentage;

    /// The fraction `self` less `rhs`.
    fn sub(self, rhs: Percentage) -> (r: Percentage)
        ensures
            decimal_difference(integer_view(self as int), rhs@) == Some(r@),
    {
        Percentage::from_i64(self as i64) - rhs
    }
}

impl SubSpecImpl<Percentage> for i64 {
    open spec fn obeys_sub_spec() -> bool {
        false
    }

    open spec fn sub_req(self, rhs: Percentage) -> bool {
        decimal_difference(integer_view(self as int), rhs@) is Some
    }

    open spec fn sub_spec(self, rhs: Percentage) -> Percentage {
        arbitrary()
    }
}

impl Sub<usize> for Percentage {
    type Output = Percentage;

    /// `self` less the fraction `rhs`.
    fn sub(self, rhs: usize) -> (r: Percentage)
        ensures
            decimal_difference(self@, integer_view(rhs as int)) == Some(r@),
    {
        self - Percentage::from_u64(rhs as u64)
    }
}

impl SubSpecImpl<usize> for Percentage {
    open spec fn obeys_sub_spec() -> bool {
        false
    }

    open spec fn sub_req(self, rhs: usize) -> bool {
        decimal_difference(self@, integer_view(rhs as int)) is Some
    }

    open spec fn sub_spec(self, rhs: usize) -> Percentage {
        arbitrary()
    }
}

impl Sub<Percentage> for usize {
    type Output = Percentage;

    /// The fraction `self` less `rhs`.
    fn sub(self, rhs: Percentage) -> (r: Percentage)
        ensures
            decimal_difference(integer_view(self as int), rhs@) == Some(r@),
    {
        Percentage::from_u64(self as u64) - rhs
    }
}

impl SubSpecImpl<Percentage> for usize {
    open spec fn obeys_sub_spec() -> bool {
        false
    }

    open spec fn sub_req(self, rhs: Percentage) -> bool {
        decimal_difference(integer_view(self as int), rhs@) is Some
    }

    open spec fn sub_spec(self, rhs: Percentage) -> Percentage {
        arbitrary()
    }
}

impl Sub<u8> for Percentage {
    type Output = Percentage;

    /// `self` less the fraction `rhs`.
    fn sub(self, rhs: u8) -> (r: Percentage)
        ensures
            decimal_difference(self@, integer_view(rhs as int)) == Some(r@),
    {
        self - Percentage::from_u64(rhs as u64)
    }
}

impl SubSpecImpl<u8> for Percentage {
    open spec fn obeys_sub_spec() -> bool {
        false
    }

    open spec fn sub_req(self, rhs: u8) -> bool {
        decimal_difference(self@, integer_view(rhs as int)) is Some
    }

    open spec fn sub_spec(self, rhs: u8) -> Percentage {
        arbitrary()
    }
}

impl Sub<Percentage> for u8 {
    type Output = Percentage;

    /// The fraction `self` less `rhs`.
    fn sub(self, rhs: Percentage) -> (r: Percentage)
        ensures
            decimal_difference(integer_view(self as int), rhs@) == Some(r@),
    {
        Percentage::from_u64(self as u64) - rhs
    }
}

impl SubSpecImpl<Percentage> for u8 {
    open spec fn obeys_sub_spec() -> bool {
        false
    }

    open spec fn sub_req(self, rhs: Percentage) -> bool {
        decimal_difference(integer_view(self as int), rhs@) is Some
    }

    open spec fn sub_spec(self, rhs: Percentage) -> Percentage {
        arbitrary()
    }
}

impl Sub<u16> for Percentage {
    type Output = Percentage;

    /// `self` less the fraction `rhs`.
    fn sub(self, rhs: u16) -> (r: Percentage)
        ensures
            decimal_difference(self@, integer_view(rhs as int)) == Some(r@),
    {
        self - Percentage::from_u64(rhs as u64)
    }
}

impl SubSpecImpl<u16> for Percentage {
    open spec fn obeys_sub_spec() -> bool {
        false
    }

    open spec fn sub_req(self, rhs: u16) -> bool {
        decimal_difference(self@, integer_view(rhs as int)) is Some
    }

    open spec fn sub_spec(self, rhs: u16) -> Percentage {
        arbitrary()
    }
}

impl Sub<Percentage> for u16 {
    type Output = Percentage;

    /// The fraction `self` less `rhs`.
    fn sub(self, rhs: Percentage) -> (r: Percentage)
        ensures
            decimal_difference(integer_view(self as int), rhs@) == Some(r@),
    {
        Percentage::from_u64(self as u64) - rhs
    }
}

impl SubSpecImpl<Percentage> for u16 {
    open spec fn obeys_sub_spec() -> bool {
        false
    }

    open spec fn sub_req(self, rhs: Percentage) -> bool {
        decimal_difference(integer_view(self as int), rhs@) is Some
    }

    open spec fn sub_spec(self, rhs: Percentage) -> Percentage {
        arbitrary()
    }
}

impl Sub<u32> for Percentage {
    type Output = Percentage;

    /// `self` less the fraction `rhs`.
    fn sub(self, rhs: u32) -> (r: Percentage)
        ensures
            decimal_difference(self@, integer_view(rhs as int)) == Some(r@),
    {
        self - Percentage::from_u64(rhs as u64)
    }
}

impl SubSpecImpl<u32> for Percentage {
    open spec fn obeys_sub_spec() -> bool {
        false
    }

    open spec fn sub_req(self, rhs: u32) -> bool {
        decimal_difference(self@, integer_view(rhs as int)) is Some
    }

    open spec fn sub_spec(self, rhs: u32) -> Percentage {
        arbitrary()
    }
}

impl Sub<Percentage> for u32 {
    type Output = Percentage;

    /// The fraction `self` less `rhs`.
    fn sub(self, rhs: Percentage) -> (r: Percentage)
        ensures
            decimal_difference(integer_view(self as int), rhs@) == Some(r@),
    {
        Percentage::from_u64(self as u64) - rhs
    }
}

impl SubSpecImpl<Percentage> for u32 {
    open spec fn obeys_sub_spec() -> bool {
        false
    }

    open spec fn sub_req(self, rhs: Percentage) -> bool {
        decimal_difference(integer_view(self as int), rhs@) is Some
    }

    open spec fn sub_spec(self, rhs: Percentage) -> Percentage {
        arbitrary()
    }
}

impl Sub<u64> for Percentage {
    type Output = Percentage;

    /// `self` less the fraction `rhs`.
    fn sub(self, rhs: u64) -> (r: Percentage)
        ensures
            decimal_difference(self@, integer_view(rhs as int)) == Some(r@),
    {
        self - Percentage::from_u64(rhs as u64)
    }
}

impl SubSpecImpl<u64> for Percentage {
    open spec fn obeys_sub_spec() -> bool {
        false
    }

    open spec fn sub_req(self, rhs: u64) -> bool {
        decimal_difference(self@, integer_view(rhs as int)) is Some
    }

    open spec fn sub_spec(self, rhs: u64) -> Percentage {
        arbitrary()
    }
}

impl Sub<Percentage> for u64 {
    type Output = Percentage;

    /// The fraction `self` less `rhs`.
    fn sub(self, rhs: Percentage) -> (r: Percentage)
        ensures
            decimal_difference(integer_view(self as int), rhs@) == Some(r@),
    {
        Percentage::from_u64(self as u64) - rhs
    }
}

impl SubSpecImpl<Percentage> for u64 {
    open spec fn obeys_sub_spec() -> bool {
        false
    }

    open spec fn sub_req(self, rhs: Percentage) -> bool {
        decimal_difference(integer_view(self as int), rhs@) is Some
    }

    open spec fn sub_spec(self, rhs: Percentage) -> Percentage {
        arbitrary()
    }
}

} // verus!
