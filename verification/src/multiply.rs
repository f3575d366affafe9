//! Products with integers: `p * n` and `n * p`, for every integer type.
//!
//! Both are the percentage `p` of `n`, brought back to the type of `n` without
//! its fractional digits. They are to be called where the decimal product is in
//! a decimal's range and its integer part fits the type, which `mul_req` states:
//! [`Percentage::try_mul_i64`] and [`Percentage::try_mul_u64`] find out whether
//! it does. The product is an integer, so `mul_spec` states it too.
use crate::integer::{signed_product, unsigned_product};
use crate::percentage::Percentage;
use std::ops::Mul;
use vstd::pervasive::unreached;
use vstd::prelude::*;
use vstd::std_specs::ops::MulSpecImpl;

verus! {

impl Mul<isize> for Percentage {
    type Output = isize;

    /// The percentage of `rhs`, without its fractional digits.
    fn mul(self, rhs: isize) -> (r: isize)
        ensures
            signed_product(
                self@,
                rhs as int,
                isize::MIN as int,
                isize::MAX as int,
            ) == Some(r as int),
    {
        match self.mul_signed(rhs as i64, isize::MIN as i64, isize::MAX as i64) {
            Ok(n) => n as isize,
            Err(_) => unreached(),
        }
    }
}

impl MulSpecImpl<isize> for Percentage {
    open spec fn obeys_mul_spec() -> bool {
        true
    }

    open spec fn mul_req(self, rhs: isize) -> bool {
        signed_product(self@, rhs as int, isize::MIN as int, isize::MAX as int) is Some
    }

    open spec fn mul_spec(self, rhs: isize) -> isize {
        signed_product(self@, rhs as int, isize::MIN as int, isize::MAX as int)->0 as isize
    }
}

impl Mul<Percentage> for isize {
    type Output = isize;

    /// The percentage `rhs` of `self`, without its fractional digits.
    fn mul(self, rhs: Percentage) -> (r: isize)
        ensures
            signed_product(
                rhs@,
                self as int,
                isize::MIN as int,
                isize::MAX as int,
            ) == Some(r as int),
    {
        rhs * self
    }
}

impl MulSpecImpl<Percentage> for isize {
    open spec fn obeys_mul_spec() -> bool {
        true
    }

    open spec fn mul_req(self, rhs: Percentage) -> bool {
        signed_product(rhs@, self as int, isize::MIN as int, isize::MAX as int) is Some
    }

    open spec fn mul_spec(self, rhs: Percentage) -> isize {
        signed_product(rhs@, self as int, isize::MIN as int, isize::MAX as int)->0 as isize
    }
}

impl Mul<i8> for Percentage {
    type Output = i8;

    /// The percentage of `rhs`, without its fractional digits.
    fn mul(self, rhs: i8) -> (r: i8)
        ensures
            signed_product(self@, rhs as int, i8::MIN as int, i8::MAX as int) == Some(r as int),
    {
        match self.mul_signed(rhs as i64, i8::MIN as i64, i8::MAX as i64) {
            Ok(n) => n as i8,
            Err(_) => unreached(),
        }
    }
}

impl MulSpecImpl<i8> for Percentage {
    open spec fn obeys_mul_spec() -> bool {
        true
    }

    open spec fn mul_req(self, rhs: i8) -> bool {
        signed_product(self@, rhs as int, i8::MIN as int, i8::MAX as int) is Some
    }

    open spec fn mul_spec(self, rhs: i8) -> i8 {
        signed_product(self@, rhs as int, i8::MIN as int, i8::MAX as int)->0 as i8
    }
}

impl Mul<Percentage> for i8 {
    type Output = i8;

    /// The percentage `rhs` of `self`, without its fractional digits.
    fn mul(self, rhs: Percentage) -> (r: i8)
        ensures
            signed_product(rhs@, self as int, i8::MIN as int, i8::MAX as int) == Some(r as int),
    {
        rhs * self
    }
}

impl MulSpecImpl<Percentage> for i8 {
    open spec fn obeys_mul_spec() -> bool {
        true
    }

    open spec fn mul_req(self, rhs: Percentage) -> bool {
        signed_product(rhs@, self as int, i8::MIN as int, i8::MAX as int) is Some
    }

    open spec fn mul_spec(self, rhs: Percentage) -> i8 {
        signed_product(rhs@, self as int, i8::MIN as int, i8::MAX as int)->0 as i8
    }
}

impl Mul<i16> for Percentage {
    type Output = i16;

    /// The percentage of `rhs`, without its fractional digits.
    fn mul(self, rhs: i16) -> (r: i16)
        ensures
            signed_product(self@, rhs as int, i16::MIN as int, i16::MAX as int) == Some(r as int),
    {
        match self.mul_signed(rhs as i64, i16::MIN as i64, i16::MAX as i64) {
            Ok(n) => n as i16,
            Err(_) => unreached(),
        }
    }
}

impl MulSpecImpl<i16> for Percentage {
    open spec fn obeys_mul_spec() -> bool {
        true
    }

    open spec fn mul_req(self, rhs: i16) -> bool {
        signed_product(self@, rhs as int, i16::MIN as int, i16::MAX as int) is Some
    }

    open spec fn mul_spec(self, rhs: i16) -> i16 {
        signed_product(self@, rhs as int, i16::MIN as int, i16::MAX as int)->0 as i16
    }
}

impl Mul<Percentage> for i16 {
    type Output = i16;

    /// The percentage `rhs` of `self`, without its fractional digits.
    fn mul(self, rhs: Percentage) -> (r: i16)
        ensures
            signed_product(rhs@, self as int, i16::MIN as int, i16::MAX as int) == Some(r as int),
    {
        rhs * self
    }
}

impl MulSpecImpl<Percentage> for i16 {
    open spec fn obeys_mul_spec() -> bool {
        true
    }

    open spec fn mul_req(self, rhs: Percentage) -> bool {
        signed_product(rhs@, self as int, i16::MIN as int, i16::MAX as int) is Some
    }

    open spec fn mul_spec(self, rhs: Percentage) -> i16 {
        signed_product(rhs@, self as int, i16::MIN as int, i16::MAX as int)->0 as i16
    }
}

impl Mul<i32> for Percentage {
    type Output = i32;

    /// The percentage of `rhs`, without its fractional digits.
    fn mul(self, rhs: i32) -> (r: i32)
        ensures
            signed_product(self@, rhs as int, i32::MIN as int, i32::MAX as int) == Some(r as int),
    {
        match self.mul_signed(rhs as i64, i32::MIN as i64, i32::MAX as i64) {
            Ok(n) => n as i32,
            Err(_) => unreached(),
        }
    }
}

impl MulSpecImpl<i32> for Percentage {
    open spec fn obeys_mul_spec() -> bool {
        true
    }

    open spec fn mul_req(self, rhs: i32) -> bool {
        signed_product(self@, rhs as int, i32::MIN as int, i32::MAX as int) is Some
    }

    open spec fn mul_spec(self, rhs: i32) -> i32 {
        signed_product(self@, rhs as int, i32::MIN as int, i32::MAX as int)->0 as i32
    }
}

impl Mul<Percentage> for i32 {
    type Output = i32;

    /// The percentage `rhs` of `self`, without its fractional digits.
    fn mul(self, rhs: Percentage) -> (r: i32)
        ensures
            signed_product(rhs@, self as int, i32::MIN as int, i32::MAX as int) == Some(r as int),
    {
        rhs * self
    }
}

impl MulSpecImpl<Percentage> for i32 {
    open spec fn obeys_mul_spec() -> bool {
        true
    }

    open spec fn mul_req(self, rhs: Percentage) -> bool {
        signed_product(rhs@, self as int, i32::MIN as int, i32::MAX as int) is Some
    }

    open spec fn mul_spec(self, rhs: Percentage) -> i32 {
        signed_product(rhs@, self as int, i32::MIN as int, i32::MAX as int)->0 as i32
    }
}

impl Mul<i64> for Percentage {
    type Output = i64;

    /// The percentage of `rhs`, without its fractional digits.
    fn mul(self, rhs: i64) -> (r: i64)
        ensures
            signed_product(self@, rhs as int, i64::MIN as int, i64::MAX as int) == Some(r as int),
    {
        match self.mul_signed(rhs as i64, i64::MIN as i64, i64::MAX as i64) {
            Ok(n) => n as i64,
            Err(_) => unreached(),
        }
    }
}

impl MulSpecImpl<i64> for Percentage {
    open spec fn obeys_mul_spec() -> bool {
        true
    }

    open spec fn mul_req(self, rhs: i64) -> bool {
        signed_product(self@, rhs as int, i64::MIN as int, i64::MAX as int) is Some
    }

    open spec fn mul_spec(self, rhs: i64) -> i64 {
        signed_product(self@, rhs as int, i64::MIN as int, i64::MAX as int)->0 as i64
    }
}

impl Mul<Percentage> for i64 {
    type Output = i64;

    /// The percentage `rhs` of `self`, without its fractional digits.
    fn mul(self, rhs: Percentage) -> (r: i64)
        ensures
            signed_product(rhs@, self as int, i64::MIN as int, i64::MAX as int) == Some(r as int),
    {
        rhs * self
    }
}

impl MulSpecImpl<Percentage> for i64 {
    open spec fn obeys_mul_spec() -> bool {
        true
    }

    open spec fn mul_req(self, rhs: Percentage) -> bool {
        signed_product(rhs@, self as int, i64::MIN as int, i64::MAX as int) is Some
    }

    open spec fn mul_spec(self, rhs: Percentage) -> i64 {
        signed_product(rhs@, self as int, i64::MIN as int, i64::MAX as int)->0 as i64
    }
}

impl Mul<usize> for Percentage {
    type Output = usize;

    /// The percentage of `rhs`, without its fractional digits.
    fn mul(self, rhs: usize) -> (r: usize)
        ensures
            unsigned_product(self@, rhs as int, usize::MAX as int) == Some(r as int),
    {
        match self.mul_unsigned(rhs as u64, usize::MAX as u64) {
            Ok(n) => n as usize,
            Err(_) => unreached(),
        }
    }
}

impl MulSpecImpl<usize> for Percentage {
    open spec fn obeys_mul_spec() -> bool {
        true
    }

    open spec fn mul_req(self, rhs: usize) -> bool {
        unsigned_product(self@, rhs as int, usize::MAX as int) is Some
    }

    open spec fn mul_spec(self, rhs: usize) -> usize {
        unsigned_product(self@, rhs as int, usize::MAX as int)->0 as usize
    }
}

impl Mul<Percentage> for usize {
    type Output = usize;

    /// The percentage `rhs` of `self`, without its fractional digits.
    fn mul(self, rhs: Percentage) -> (r: usize)
        ensures
            unsigned_product(rhs@, self as int, usize::MAX as int) == Some(r as int),
    {
        rhs * self
    }
}

impl MulSpecImpl<Percentage> for usize {
    open spec fn obeys_mul_spec() -> bool {
        true
    }

    open spec fn mul_req(self, rhs: Percentage) -> bool {
        unsigned_product(rhs@, self as int, usize::MAX as int) is Some
    }

    open spec fn mul_spec(self, rhs: Percentage) -> usize {
        unsigned_product(rhs@, self as int, usize::MAX as int)->0 as usize
    }
}

impl Mul<u8> for Percentage {
    type Output = u8;

    /// The percentage of `rhs`, without its fractional digits.
    fn mul(self, rhs: u8) -> (r: u8)
        ensures
            unsigned_product(self@, rhs as int, u8::MAX as int) == Some(r as int),
    {
        match self.mul_unsigned(rhs as u64, u8::MAX as u64) {
            Ok(n) => n as u8,
            Err(_) => unreached(),
        }
    }
}

impl MulSpecImpl<u8> for Percentage {
    open spec fn obeys_mul_spec() -> bool {
        true
    }

    open spec fn mul_req(self, rhs: u8) -> bool {
        unsigned_product(self@, rhs as int, u8::MAX as int) is Some
    }

    open spec fn mul_spec(self, rhs: u8) -> u8 {
        unsigned_product(self@, rhs as int, u8::MAX as int)->0 as u8
    }
}

impl Mul<Percentage> for u8 {
    type Output = u8;

    /// The percentage `rhs` of `self`, without its fractional digits.
    fn mul(self, rhs: Percentage) -> (r: u8)
        ensures
            unsigned_product(rhs@, self as int, u8::MAX as int) == Some(r as int),
    {
        rhs * self
    }
}

impl MulSpecImpl<Percentage> for u8 {
    open spec fn obeys_mul_spec() -> bool {
        true
    }

    open spec fn mul_req(self, rhs: Percentage) -> bool {
        unsigned_product(rhs@, self as int, u8::MAX as int) is Some
    }

    open spec fn mul_spec(self, rhs: Percentage) -> u8 {
        unsigned_product(rhs@, self as int, u8::MAX as int)->0 as u8
    }
}

impl Mul<u16> for Percentage {
    type Output = u16;

    /// The percentage of `rhs`, without its fractional digits.
    fn mul(self, rhs: u16) -> (r: u16)
        ensures
            unsigned_product(self@, rhs as int, u16::MAX as int) == Some(r as int),
    {
        match self.mul_unsigned(rhs as u64, u16::MAX as u64) {
            Ok(n) => n as u16,
            Err(_) => unreached(),
        }
    }
}

impl MulSpecImpl<u16> for Percentage {
    open spec fn obeys_mul_spec() -> bool {
        true
    }

    open spec fn mul_req(self, rhs: u16) -> bool {
        unsigned_product(self@, rhs as int, u16::MAX as int) is Some
    }

    open spec fn mul_spec(self, rhs: u16) -> u16 {
        unsigned_product(self@, rhs as int, u16::MAX as int)->0 as u16
    }
}

impl Mul<Percentage> for u16 {
    type Output = u16;

    /// The percentage `rhs` of `self`, without its fractional digits.
    fn mul(self, rhs: Percentage) -> (r: u16)
        ensures
            unsigned_product(rhs@, self as int, u16::MAX as int) == Some(r as int),
    {
        rhs * self
    }
}

impl MulSpecImpl<Percentage> for u16 {
    open spec fn obeys_mul_spec() -> bool {
        true
    }

    open spec fn mul_req(self, rhs: Percentage) -> bool {
        unsigned_product(rhs@, self as int, u16::MAX as int) is Some
    }

    open spec fn mul_spec(self, rhs: Percentage) -> u16 {
        unsigned_product(rhs@, self as int, u16::MAX as int)->0 as u16
    }
}

impl Mul<u32> for Percentage {
    type Output = u32;

    /// The percentage of `rhs`, without its fractional digits.
    fn mul(self, rhs: u32) -> (r: u32)
        ensures
            unsigned_product(self@, rhs as int, u32::MAX as int) == Some(r as int),
    {
        match self.mul_unsigned(rhs as u64, u32::MAX as u64) {
            Ok(n) => n as u32,
            Err(_) => unreached(),
        }
    }
}

impl MulSpecImpl<u32> for Percentage {
    open spec fn obeys_mul_spec() -> bool {
        true
    }

    open spec fn mul_req(self, rhs: u32) -> bool {
        unsigned_product(self@, rhs as int, u32::MAX as int) is Some
    }

    open spec fn mul_spec(self, rhs: u32) -> u32 {
        unsigned_product(self@, rhs as int, u32::MAX as int)->0 as u32
    }
}

impl Mul<Percentage> for u32 {
    type Output = u32;

    /// The percentage `rhs` of `self`, without its fractional digits.
    fn mul(self, rhs: Percentage) -> (r: u32)
        ensures
            unsigned_product(rhs@, self as int, u32::MAX as int) == Some(r as int),
    {
        rhs * self
    }
}

impl MulSpecImpl<Percentage> for u32 {
    open spec fn obeys_mul_spec() -> bool {
        true
    }

    open spec fn mul_req(self, rhs: Percentage) -> bool {
        unsigned_product(rhs@, self as int, u32::MAX as int) is Some
    }

    open spec fn mul_spec(self, rhs: Percentage) -> u32 {
        unsigned_product(rhs@, self as int, u32::MAX as int)->0 as u32
    }
}

impl Mul<u64> for Percentage {
    type Output = u64;

    /// The percentage of `rhs`, without its fractional digits.
    fn mul(self, rhs: u64) -> (r: u64)
        ensures
            unsigned_product(self@, rhs as int, u64::MAX as int) == Some(r as int),
    {
        match self.mul_unsigned(rhs as u64, u64::MAX as u64) {
            Ok(n) => n as u64,
            Err(_) => unreached(),
        }
    }
}

impl MulSpecImpl<u64> for Percentage {
    open spec fn obeys_mul_spec() -> bool {
        true
    }

    open spec fn mul_req(self, rhs: u64) -> bool {
        unsigned_product(self@, rhs as int, u64::MAX as int) is Some
    }

    open spec fn mul_spec(self, rhs: u64) -> u64 {
        unsigned_product(self@, rhs as int, u64::MAX as int)->0 as u64
    }
}

impl Mul<Percentage> for u64 {
    type Output = u64;

    /// The percentage `rhs` of `self`, without its fractional digits.
    fn mul(self, rhs: Percentage) -> (r: u64)
        ensures
            unsigned_product(rhs@, self as int, u64::MAX as int) == Some(r as int),
    {
        rhs * self
    }
}

impl MulSpecImpl<Percentage> for u64 {
    open spec fn obeys_mul_spec() -> bool {
        true
    }

    open spec fn mul_req(self, rhs: Percentage) -> bool {
        unsigned_product(rhs@, self as int, u64::MAX as int) is Some
    }

    open spec fn mul_spec(self, rhs: Percentage) -> u64 {
        unsigned_product(rhs@, self as int, u64::MAX as int)->0 as u64
    }
}

} // verus!
