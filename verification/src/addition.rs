//! Sums with integers: `p + n` and `n + p`, for every integer type.
//!
//! The integer is added as the fraction that it is: `p + 1` adds 100%. Both
//! forms add the integer to the percentage. They are to be called where the
//! decimal sum is in a decimal's range, which `add_req` states:
//! [`Percentage::try_add`] with [`Percentage::from_i64`] or
//! [`Percentage::from_u64`] finds out whether it is. As with the other
//! operators, `ensures` states the sum and `add_spec` is left open.
use crate::decimal::{decimal_sum, integer_view};
use crate::percentage::Percentage;
use std::ops::Add;
use vstd::prelude::*;
use vstd::std_specs::ops::AddSpecImpl;

verus! {

impl Add<isize> for Percentage {
    type Output = Percentage;

    /// `self` and the fraction `rhs`, added.
    fn add(self, rhs: isize) -> (r: Percentage)
        ensures
            decimal_sum(self@, integer_view(rhs as int)) == Some(r@),
    {
        self + Percentage::from_i64(rhs as i64)
    }
}

impl AddSpecImpl<isize> for Percentage {
    open spec fn obeys_add_spec() -> bool {
        false
    }

    open spec fn add_req(self, rhs: isize) -> bool {
        decimal_sum(self@, integer_view(rhs as int)) is Some
    }

    open spec fn add_spec(self, rhs: isize) -> Percentage {
        arbitrary()
    }
}

impl Add<Percentage> for isize {
    type Output = Percentage;

    /// `rhs` and the fraction `self`, added.
    fn add(self, rhs: Percentage) -> (r: Percentage)
        ensures
            decimal_sum(rhs@, integer_view(self as int)) == Some(r@),
    {
        rhs + self
    }
}

impl AddSpecImpl<Percentage> for isize {
    open spec fn obeys_add_spec() -> bool {
        false
    }

    open spec fn add_req(self, rhs: Percentage) -> bool {
        decimal_sum(rhs@, integer_view(self as int)) is Some
    }

    open spec fn add_spec(self, rhs: Percentage) -> Percentage {
        arbitrary()
    }
}

impl Add<i8> for Percentage {
    type Output = Percentage;

    /// `self` and the fraction `rhs`, added.
    fn add(self, rhs: i8) -> (r: Percentage)
        ensures
            decimal_sum(self@, integer_view(rhs as int)) == Some(r@),
    {
        self + Percentage::from_i64(rhs as i64)
    }
}

impl AddSpecImpl<i8> for Percentage {
    open spec fn obeys_add_spec() -> bool {
        false
    }

    open spec fn add_req(self, rhs: i8) -> bool {
        decimal_sum(self@, integer_view(rhs as int)) is Some
    }

    open spec fn add_spec(self, rhs: i8) -> Percentage {
        arbitrary()
    }
}

impl Add<Percentage> for i8 {
    type Output = Percentage;

    /// `rhs` and the fraction `self`, added.
    fn add(self, rhs: Percentage) -> (r: Percentage)
        ensures
            decimal_sum(rhs@, integer_view(self as int)) == Some(r@),
    {
        rhs + self
    }
}

impl AddSpecImpl<Percentage> for i8 {
    open spec fn obeys_add_spec() -> bool {
        false
    }

    open spec fn add_req(self, rhs: Percentage) -> bool {
        decimal_sum(rhs@, integer_view(self as int)) is Some
    }

    open spec fn add_spec(self, rhs: Percentage) -> Percentage {
        arbitrary()
    }
}

impl Add<i16> for Percentage {
    type Output = Percentage;

    /// `self` and the fraction `rhs`, added.
    fn add(self, rhs: i16) -> (r: Percentage)
        ensures
            decimal_sum(self@, integer_view(rhs as int)) == Some(r@),
    {
        self + Percentage::from_i64(rhs as i64)
    }
}

impl AddSpecImpl<i16> for Percentage {
    open spec fn obeys_add_spec() -> bool {
        false
    }

    open spec fn add_req(self, rhs: i16) -> bool {
        decimal_sum(self@, integer_view(rhs as int)) is Some
    }

    open spec fn add_spec(self, rhs: i16) -> Percentage {
        arbitrary()
    }
}

impl Add<Percentage> for i16 {
    type Output = Percentage;

    /// `rhs` and the fraction `self`, added.
    fn add(self, rhs: Percentage) -> (r: Percentage)
        ensures
            decimal_sum(rhs@, integer_view(self as int)) == Some(r@),
    {
        rhs + self
    }
}

impl AddSpecImpl<Percentage> for i16 {
    open spec fn obeys_add_spec() -> bool {
        false
    }

    open spec fn add_req(self, rhs: Percentage) -> bool {
        decimal_sum(rhs@, integer_view(self as int)) is Some
    }

    open spec fn add_spec(self, rhs: Percentage) -> Percentage {
        arbitrary()
    }
}

impl Add<i32> for Percentage {
    type Output = Percentage;

    /// `self` and the fraction `rhs`, added.
    fn add(self, rhs: i32) -> (r: Percentage)
        ensures
            decimal_sum(self@, integer_view(rhs as int)) == Some(r@),
    {
        self + Percentage::from_i64(rhs as i64)
    }
}

impl AddSpecImpl<i32> for Percentage {
    open spec fn obeys_add_spec() -> bool {
        false
    }

    open spec fn add_req(self, rhs: i32) -> bool {
        decimal_sum(self@, integer_view(rhs as int)) is Some
    }

    open spec fn add_spec(self, rhs: i32) -> Percentage {
        arbitrary()
    }
}

impl Add<Percentage> for i32 {
    type Output = Percentage;

    /// `rhs` and the fraction `self`, added.
    fn add(self, rhs: Percentage) -> (r: Percentage)
        ensures
            decimal_sum(rhs@, integer_view(self as int)) == Some(r@),
    {
        rhs + self
    }
}

impl AddSpecImpl<Percentage> for i32 {
    open spec fn obeys_add_spec() -> bool {
        false
    }

    open spec fn add_req(self, rhs: Percentage) -> bool {
        decimal_sum(rhs@, integer_view(self as int)) is Some
    }

    open spec fn add_spec(self, rhs: Percentage) -> Percentage {
        arbitrary()
    }
}

impl Add<i64> for Percentage {
    type Output = Percentage;

    /// `self` and the fraction `rhs`, added.
    fn add(self, rhs: i64) -> (r: Percentage)
        ensures
            decimal_sum(self@, integer_view(rhs as int)) == Some(r@),
    {
        self + Percentage::from_i64(rhs as i64)
    }
}

impl AddSpecImpl<i64> for Percentage {
    open spec fn obeys_add_spec() -> bool {
        false
    }

    open spec fn add_req(self, rhs: i64) -> bool {
        decimal_sum(self@, integer_view(rhs as int)) is Some
    }

    open spec fn add_spec(self, rhs: i64) -> Percentage {
        arbitrary()
    }
}

impl Add<Percentage> for i64 {
    type Output = Percentage;

    /// `rhs` and the fraction `self`, added.
    fn add(self, rhs: Percentage) -> (r: Percentage)
        ensures
            decimal_sum(rhs@, integer_view(self as int)) == Some(r@),
    {
        rhs + self
    }
}

impl AddSpecImpl<Percentage> for i64 {
    open spec fn obeys_add_spec() -> bool {
        false
    }

    open spec fn add_req(self, rhs: Percentage) -> bool {
        decimal_sum(rhs@, integer_view(self as int)) is Some
    }

    open spec fn add_spec(self, rhs: Percentage) -> Percentage {
        arbitrary()
    }
}

impl Add<usize> for Percentage {
    type Output = Percentage;

    /// `self` and the fraction `rhs`, added.
    fn add(self, rhs: usize) -> (r: Percentage)
        ensures
            decimal_sum(self@, integer_view(rhs as int)) == Some(r@),
    {
        self + Percentage::from_u64(rhs as u64)
    }
}

impl AddSpecImpl<usize> for Percentage {
    open spec fn obeys_add_spec() -> bool {
        false
    }

    open spec fn add_req(self, rhs: usize) -> bool {
        decimal_sum(self@, integer_view(rhs as int)) is Some
    }

    open spec fn add_spec(self, rhs: usize) -> Percentage {
        arbitrary()
    }
}

impl Add<Percentage> for usize {
    type Output = Percentage;

    /// `rhs` and the fraction `self`, added.
    fn add(self, rhs: Percentage) -> (r: Percentage)
        ensures
            decimal_sum(rhs@, integer_view(self as int)) == Some(r@),
    {
        rhs + self
    }
}

impl AddSpecImpl<Percentage> for usize {
    open spec fn obeys_add_spec() -> bool {
        false
    }

    open spec fn add_req(self, rhs: Percentage) -> bool {
        decimal_sum(rhs@, integer_view(self as int)) is Some
    }

    open spec fn add_spec(self, rhs: Percentage) -> Percentage {
        arbitrary()
    }
}

impl Add<u8> for Percentage {
    type Output = Percentage;

    /// `self` and the fraction `rhs`, added.
    fn add(self, rhs: u8) -> (r: Percentage)
        ensures
            decimal_sum(self@, integer_view(rhs as int)) == Some(r@),
    {
        self + Percentage::from_u64(rhs as u64)
    }
}

impl AddSpecImpl<u8> for Percentage {
    open spec fn obeys_add_spec() -> bool {
        false
    }

    open spec fn add_req(self, rhs: u8) -> bool {
        decimal_sum(self@, integer_view(rhs as int)) is Some
    }

    open spec fn add_spec(self, rhs: u8) -> Percentage {
        arbitrary()
    }
}

impl Add<Percentage> for u8 {
    type Output = Percentage;

    /// `rhs` and the fraction `self`, added.
    fn add(self, rhs: Percentage) -> (r: Percentage)
        ensures
            decimal_sum(rhs@, integer_view(self as int)) == Some(r@),
    {
        rhs + self
    }
}

impl AddSpecImpl<Percentage> for u8 {
    open spec fn obeys_add_spec() -> bool {
        false
    }

    open spec fn add_req(self, rhs: Percentage) -> bool {
        decimal_sum(rhs@, integer_view(self as int)) is Some
    }

    open spec fn add_spec(self, rhs: Percentage) -> Percentage {
        arbitrary()
    }
}

impl Add<u16> for Percentage {
    type Output = Percentage;

    /// `self` and the fraction `rhs`, added.
    fn add(self, rhs: u16) -> (r: Percentage)
        ensures
            decimal_sum(self@, integer_view(rhs as int)) == Some(r@),
    {
        self + Percentage::from_u64(rhs as u64)
    }
}

impl AddSpecImpl<u16> for Percentage {
    open spec fn obeys_add_spec() -> bool {
        false
    }

    open spec fn add_req(self, rhs: u16) -> bool {
        decimal_sum(self@, integer_view(rhs as int)) is Some
    }

    open spec fn add_spec(self, rhs: u16) -> Percentage {
        arbitrary()
    }
}

impl Add<Percentage> for u16 {
    type Output = Percentage;

    /// `rhs` and the fraction `self`, added.
    fn add(self, rhs: Percentage) -> (r: Percentage)
        ensures
            decimal_sum(rhs@, integer_view(self as int)) == Some(r@),
    {
        rhs + self
    }
}

impl AddSpecImpl<Percentage> for u16 {
    open spec fn obeys_add_spec() -> bool {
        false
    }

    open spec fn add_req(self, rhs: Percentage) -> bool {
        decimal_sum(rhs@, integer_view(self as int)) is Some
    }

    open spec fn add_spec(self, rhs: Percentage) -> Percentage {
        arbitrary()
    }
}

impl Add<u32> for Percentage {
    type Output = Percentage;

    /// `self` and the fraction `rhs`, added.
    fn add(self, rhs: u32) -> (r: Percentage)
        ensures
            decimal_sum(self@, integer_view(rhs as int)) == Some(r@),
    {
        self + Percentage::from_u64(rhs as u64)
    }
}

impl AddSpecImpl<u32> for Percentage {
    open spec fn obeys_add_spec() -> bool {
        false
    }

    open spec fn add_req(self, rhs: u32) -> bool {
        decimal_sum(self@, integer_view(rhs as int)) is Some
    }

    open spec fn add_spec(self, rhs: u32) -> Percentage {
        arbitrary()
    }
}

impl Add<Percentage> for u32 {
    type Output = Percentage;

    /// `rhs` and the fraction `self`, added.
    fn add(self, rhs: Percentage) -> (r: Percentage)
        ensures
            decimal_sum(rhs@, integer_view(self as int)) == Some(r@),
    {
        rhs + self
    }
}

impl AddSpecImpl<Percentage> for u32 {
    open spec fn obeys_add_spec() -> bool {
        false
    }

    open spec fn add_req(self, rhs: Percentage) -> bool {
        decimal_sum(rhs@, integer_view(self as int)) is Some
    }

    open spec fn add_spec(self, rhs: Percentage) -> Percentage {
        arbitrary()
    }
}

impl Add<u64> for Percentage {
    type Output = Percentage;

    /// `self` and the fraction `rhs`, added.
    fn add(self, rhs: u64) -> (r: Percentage)
        ensures
            decimal_sum(self@, integer_view(rhs as int)) == Some(r@),
    {
        self + Percentage::from_u64(rhs as u64)
    }
}

impl AddSpecImpl<u64> for Percentage {
    open spec fn obeys_add_spec() -> bool {
        false
    }

    open spec fn add_req(self, rhs: u64) -> bool {
        decimal_sum(self@, integer_view(rhs as int)) is Some
    }

    open spec fn add_spec(self, rhs: u64) -> Percentage {
        arbitrary()
    }
}

impl Add<Percentage> for u64 {
    type Output = Percentage;

    /// `rhs` and the fraction `self`, added.
    fn add(self, rhs: Percentage) -> (r: Percentage)
        ensures
            decimal_sum(rhs@, integer_view(self as int)) == Some(r@),
    {
        rhs + self
    }
}

impl AddSpecImpl<Percentage> for u64 {
    open spec fn obeys_add_spec() -> bool {
        false
    }

    open spec fn add_req(self, rhs: Percentage) -> bool {
        decimal_sum(rhs@, integer_view(self as int)) is Some
    }

    open spec fn add_spec(self, rhs: Percentage) -> Percentage {
        arbitrary()
    }
}

} // verus!
