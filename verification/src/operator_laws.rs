//! What holds of the operators, for every percentage and every operand.
//!
//! Each law is proved from the contracts of the operators that it speaks of.
//! Where the result is an integer, the operators' `*_spec` name it. Where it is
//! a percentage or a decimal, the law takes a result of each operator:
//! `call_ensures(f, args, r)` says that `r` is a result that `f` may return for
//! `args`.
use crate::decimal::{decimal_difference, decimal_view, integer_view};
use crate::percentage::Percentage;
use rust_decimal::Decimal;
use std::ops::{Add, Mul, Sub};
use vstd::prelude::*;
use vstd::std_specs::ops::{AddSpec, MulSpec, SubSpec};

verus! {

/// The product of two references is the product of the two percentages with
/// the factors exchanged: `&p * &q` is `q * p`.
pub proof fn law_mul_by_reference(
    p: Percentage,
    q: Percentage,
    by_reference: Percentage,
    by_value: Percentage,
)
    requires
        call_ensures(<&Percentage as Mul<&Percentage>>::mul, (&p, &q), by_reference),
        call_ensures(<Percentage as Mul<Percentage>>::mul, (q, p), by_value),
    ensures
        (&p).mul_req(&q) == q.mul_req(p),
        by_reference@ == by_value@,
{
}

/// `p * x == x * p` for a decimal `x`: the two are to be called on the same
/// operands, and what they return is the same number.
pub proof fn law_mul_commutes_decimal(
    p: Percentage,
    x: Decimal,
    direct: Decimal,
    commuted: Decimal,
)
    requires
        call_ensures(<Percentage as Mul<Decimal>>::mul, (p, x), direct),
        call_ensures(<Decimal as Mul<Percentage>>::mul, (x, p), commuted),
    ensures
        p.mul_req(x) == x.mul_req(p),
        decimal_view(direct) == decimal_view(commuted),
{
}

/// `p * x == x * p` for an `isize` `x`: the two are to be called on the same
/// operands, and what they return is equal.
pub proof fn law_mul_commutes_isize(p: Percentage, x: isize)
    ensures
        p.mul_req(x) == x.mul_req(p),
        p.mul_spec(x) == x.mul_spec(p),
{
}

/// `p * x == x * p` for an `i8` `x`: the two are to be called on the same
/// operands, and what they return is equal.
pub proof fn law_mul_commutes_i8(p: Percentage, x: i8)
    ensures
        p.mul_req(x) == x.mul_req(p),
        p.mul_spec(x) == x.mul_spec(p),
{
}

/// `p * x == x * p` for an `i16` `x`: the two are to be called on the same
/// operands, and what they return is equal.
pub proof fn law_mul_commutes_i16(p: Percentage, x: i16)
    ensures
        p.mul_req(x) == x.mul_req(p),
        p.mul_spec(x) == x.mul_spec(p),
{
}

/// `p * x == x * p` for an `i32` `x`: the two are to be called on the same
/// operands, and what they return is equal.
pub proof fn law_mul_commutes_i32(p: Percentage, x: i32)
    ensures
        p.mul_req(x) == x.mul_req(p),
        p.mul_spec(x) == x.mul_spec(p),
{
}

/// `p * x == x * p` for an `i64` `x`: the two are to be called on the same
/// operands, and what they return is equal.
pub proof fn law_mul_commutes_i64(p: Percentage, x: i64)
    ensures
        p.mul_req(x) == x.mul_req(p),
        p.mul_spec(x) == x.mul_spec(p),
{
}

/// `p * x == x * p` for a `usize` `x`: the two are to be called on the same
/// operands, and what they return is equal.
pub proof fn law_mul_commutes_usize(p: Percentage, x: usize)
    ensures
        p.mul_req(x) == x.mul_req(p),
        p.mul_spec(x) == x.mul_spec(p),
{
}

/// `p * x == x * p` for a `u8` `x`: the two are to be called on the same
/// operands, and what they return is equal.
pub proof fn law_mul_commutes_u8(p: Percentage, x: u8)
    ensures
        p.mul_req(x) == x.mul_req(p),
        p.mul_spec(x) == x.mul_spec(p),
{
}

/// `p * x == x * p` for a `u16` `x`: the two are to be called on the same
/// operands, and what they return is equal.
pub proof fn law_mul_commutes_u16(p: Percentage, x: u16)
    ensures
        p.mul_req(x) == x.mul_req(p),
        p.mul_spec(x) == x.mul_spec(p),
{
}

/// `p * x == x * p` for a `u32` `x`: the two are to be called on the same
/// operands, and what they return is equal.
pub proof fn law_mul_commutes_u32(p: Percentage, x: u32)
    ensures
        p.mul_req(x) == x.mul_req(p),
        p.mul_spec(x) == x.mul_spec(p),
{
}

/// `p * x == x * p` for a `u64` `x`: the two are to be called on the same
/// operands, and what they return is equal.
pub proof fn law_mul_commutes_u64(p: Percentage, x: u64)
    ensures
        p.mul_req(x) == x.mul_req(p),
        p.mul_spec(x) == x.mul_spec(p),
{
}

/// `p + x == x + p` for a decimal `x`: the two are to be called on the same
/// operands, and what they return is the same number.
pub proof fn law_add_commutes_decimal(
    p: Percentage,
    x: Decimal,
    direct: Percentage,
    commuted: Percentage,
)
    requires
        call_ensures(<Percentage as Add<Decimal>>::add, (p, x), direct),
        call_ensures(<Decimal as Add<Percentage>>::add, (x, p), commuted),
    ensures
        p.add_req(x) == x.add_req(p),
        direct@ == commuted@,
{
}

/// `p + x == x + p` for an `isize` `x`: the two are to be called on the same
/// operands, and what they return is the same number.
pub proof fn law_add_commutes_isize(
    p: Percentage,
    x: isize,
    direct: Percentage,
    commuted: Percentage,
)
    requires
        call_ensures(<Percentage as Add<isize>>::add, (p, x), direct),
        call_ensures(<isize as Add<Percentage>>::add, (x, p), commuted),
    ensures
        p.add_req(x) == x.add_req(p),
        direct@ == commuted@,
{
}

/// `p + x == x + p` for an `i8` `x`: the two are to be called on the same
/// operands, and what they return is the same number.
pub proof fn law_add_commutes_i8(
    p: Percentage,
    x: i8,
    direct: Percentage,
    commuted: Percentage,
)
    requires
        call_ensures(<Percentage as Add<i8>>::add, (p, x), direct),
        call_ensures(<i8 as Add<Percentage>>::add, (x, p), commuted),
    ensures
        p.add_req(x) == x.add_req(p),
        direct@ == commuted@,
{
}

/// `p + x == x + p` for an `i16` `x`: the two are to be called on the same
/// operands, and what they return is the same number.
pub proof fn law_add_commutes_i16(
    p: Percentage,
    x: i16,
    direct: Percentage,
    commuted: Percentage,
)
    requires
        call_ensures(<Percentage as Add<i16>>::add, (p, x), direct),
        call_ensures(<i16 as Add<Percentage>>::add, (x, p), commuted),
    ensures
        p.add_req(x) == x.add_req(p),
        direct@ == commuted@,
{
}

/// `p + x == x + p` for an `i32` `x`: the two are to be called on the same
/// operands, and what they return is the same number.
pub proof fn law_add_commutes_i32(
    p: Percentage,
    x: i32,
    direct: Percentage,
    commuted: Percentage,
)
    requires
        call_ensures(<Percentage as Add<i32>>::add, (p, x), direct),
        call_ensures(<i32 as Add<Percentage>>::add, (x, p), commuted),
    ensures
        p.add_req(x) == x.add_req(p),
        direct@ == commuted@,
{
}

/// `p + x == x + p` for an `i64` `x`: the two are to be called on the same
/// operands, and what they return is the same number.
pub proof fn law_add_commutes_i64(
    p: Percentage,
    x: i64,
    direct: Percentage,
    commuted: Percentage,
)
    requires
        call_ensures(<Percentage as Add<i64>>::add, (p, x), direct),
        call_ensures(<i64 as Add<Percentage>>::add, (x, p), commuted),
    ensures
        p.add_req(x) == x.add_req(p),
        direct@ == commuted@,
{
}

/// `p + x == x + p` for a `usize` `x`: the two are to be called on the same
/// operands, and what they return is the same number.
pub proof fn law_add_commutes_usize(
    p: Percentage,
    x: usize,
    direct: Percentage,
    commuted: Percentage,
)
    requires
        call_ensures(<Percentage as Add<usize>>::add, (p, x), direct),
        call_ensures(<usize as Add<Percentage>>::add, (x, p), commuted),
    ensures
        p.add_req(x) == x.add_req(p),
        direct@ == commuted@,
{
}

/// `p + x == x + p` for a `u8` `x`: the two are to be called on the same
/// operands, and what they return is the same number.
pub proof fn law_add_commutes_u8(
    p: Percentage,
    x: u8,
    direct: Percentage,
    commuted: Percentage,
)
    requires
        call_ensures(<Percentage as Add<u8>>::add, (p, x), direct),
        call_ensures(<u8 as Add<Percentage>>::add, (x, p), commuted),
    ensures
        p.add_req(x) == x.add_req(p),
        direct@ == commuted@,
{
}

/// `p + x == x + p` for a `u16` `x`: the two are to be called on the same
/// operands, and what they return is the same number.
pub proof fn law_add_commutes_u16(
    p: Percentage,
    x: u16,
    direct: Percentage,
    commuted: Percentage,
)
    requires
        call_ensures(<Percentage as Add<u16>>::add, (p, x), direct),
        call_ensures(<u16 as Add<Percentage>>::add, (x, p), commuted),
    ensures
        p.add_req(x) == x.add_req(p),
        direct@ == commuted@,
{
}

/// `p + x == x + p` for a `u32` `x`: the two are to be called on the same
/// operands, and what they return is the same number.
pub proof fn law_add_commutes_u32(
    p: Percentage,
    x: u32,
    direct: Percentage,
    commuted: Percentage,
)
    requires
        call_ensures(<Percentage as Add<u32>>::add, (p, x), direct),
        call_ensures(<u32 as Add<Percentage>>::add, (x, p), commuted),
    ensures
        p.add_req(x) == x.add_req(p),
        direct@ == commuted@,
{
}

/// `p + x == x + p` for a `u64` `x`: the two are to be called on the same
/// operands, and what they return is the same number.
pub proof fn law_add_commutes_u64(
    p: Percentage,
    x: u64,
    direct: Percentage,
    commuted: Percentage,
)
    requires
        call_ensures(<Percentage as Add<u64>>::add, (p, x), direct),
        call_ensures(<u64 as Add<Percentage>>::add, (x, p), commuted),
    ensures
        p.add_req(x) == x.add_req(p),
        direct@ == commuted@,
{
}

/// `p - x` and `x - p` for a decimal `x`: each takes its right operand from its
/// left one, and is to be called where that difference is in a decimal's range.
pub proof fn law_sub_is_oriented_decimal(
    p: Percentage,
    x: Decimal,
    direct: Percentage,
    commuted: Percentage,
)
    requires
        call_ensures(<Percentage as Sub<Decimal>>::sub, (p, x), direct),
        call_ensures(<Decimal as Sub<Percentage>>::sub, (x, p), commuted),
    ensures
        p.sub_req(x) == (decimal_difference(p@, decimal_view(x)) is Some),
        x.sub_req(p) == (decimal_difference(decimal_view(x), p@) is Some),
        decimal_difference(p@, decimal_view(x)) == Some(direct@),
        decimal_difference(decimal_view(x), p@) == Some(commuted@),
{
}

/// `p - x` and `x - p` for an `isize` `x`: each takes its right operand from its
/// left one, and is to be called where that difference is in a decimal's range.
pub proof fn law_sub_is_oriented_isize(
    p: Percentage,
    x: isize,
    direct: Percentage,
    commuted: Percentage,
)
    requires
        call_ensures(<Percentage as Sub<isize>>::sub, (p, x), direct),
        call_ensures(<isize as Sub<Percentage>>::sub, (x, p), commuted),
    ensures
        p.sub_req(x) == (decimal_difference(p@, integer_view(x as int)) is Some),
        x.sub_req(p) == (decimal_difference(integer_view(x as int), p@) is Some),
        decimal_difference(p@, integer_view(x as int)) == Some(direct@),
        decimal_difference(integer_view(x as int), p@) == Some(commuted@),
{
}

/// `p - x` and `x - p` for an `i8` `x`: each takes its right operand from its
/// left one, and is to be called where that difference is in a decimal's range.
pub proof fn law_sub_is_oriented_i8(
    p: Percentage,
    x: i8,
    direct: Percentage,
    commuted: Percentage,
)
    requires
        call_ensures(<Percentage as Sub<i8>>::sub, (p, x), direct),
        call_ensures(<i8 as Sub<Percentage>>::sub, (x, p), commuted),
    ensures
        p.sub_req(x) == (decimal_difference(p@, integer_view(x as int)) is Some),
        x.sub_req(p) == (decimal_difference(integer_view(x as int), p@) is Some),
        decimal_difference(p@, integer_view(x as int)) == Some(direct@),
        decimal_difference(integer_view(x as int), p@) == Some(commuted@),
{
}

/// `p - x` and `x - p` for an `i16` `x`: each takes its right operand from its
/// left one, and is to be called where that difference is in a decimal's range.
pub proof fn law_sub_is_oriented_i16(
    p: Percentage,
    x: i16,
    direct: Percentage,
    commuted: Percentage,
)
    requires
        call_ensures(<Percentage as Sub<i16>>::sub, (p, x), direct),
        call_ensures(<i16 as Sub<Percentage>>::sub, (x, p), commuted),
    ensures
        p.sub_req(x) == (decimal_difference(p@, integer_view(x as int)) is Some),
        x.sub_req(p) == (decimal_difference(integer_view(x as int), p@) is Some),
        decimal_difference(p@, integer_view(x as int)) == Some(direct@),
        decimal_difference(integer_view(x as int), p@) == Some(commuted@),
{
}

/// `p - x` and `x - p` for an `i32` `x`: each takes its right operand from its
/// left one, and is to be called where that difference is in a decimal's range.
pub proof fn law_sub_is_oriented_i32(
    p: Percentage,
    x: i32,
    direct: Percentage,
    commuted: Percentage,
)
    requires
        call_ensures(<Percentage as Sub<i32>>::sub, (p, x), direct),
        call_ensures(<i32 as Sub<Percentage>>::sub, (x, p), commuted),
    ensures
        p.sub_req(x) == (decimal_difference(p@, integer_view(x as int)) is Some),
        x.sub_req(p) == (decimal_difference(integer_view(x as int), p@) is Some),
        decimal_difference(p@, integer_view(x as int)) == Some(direct@),
        decimal_difference(integer_view(x as int), p@) == Some(commuted@),
{
}

/// `p - x` and `x - p` for an `i64` `x`: each takes its right operand from its
/// left one, and is to be called where that difference is in a decimal's range.
pub proof fn law_sub_is_oriented_i64(
    p: Percentage,
    x: i64,
    direct: Percentage,
    commuted: Percentage,
)
    requires
        call_ensures(<Percentage as Sub<i64>>::sub, (p, x), direct),
        call_ensures(<i64 as Sub<Percentage>>::sub, (x, p), commuted),
    ensures
        p.sub_req(x) == (decimal_difference(p@, integer_view(x as int)) is Some),
        x.sub_req(p) == (decimal_difference(integer_view(x as int), p@) is Some),
        decimal_difference(p@, integer_view(x as int)) == Some(direct@),
        decimal_difference(integer_view(x as int), p@) == Some(commuted@),
{
}

/// `p - x` and `x - p` for a `usize` `x`: each takes its right operand from its
/// left one, and is to be called where that difference is in a decimal's range.
pub proof fn law_sub_is_oriented_usize(
    p: Percentage,
    x: usize,
    direct: Percentage,
    commuted: Percentage,
)
    requires
        call_ensures(<Percentage as Sub<usize>>::sub, (p, x), direct),
        call_ensures(<usize as Sub<Percentage>>::sub, (x, p), commuted),
    ensures
        p.sub_req(x) == (decimal_difference(p@, integer_view(x as int)) is Some),
        x.sub_req(p) == (decimal_difference(integer_view(x as int), p@) is Some),
        decimal_difference(p@, integer_view(x as int)) == Some(direct@),
        decimal_difference(integer_view(x as int), p@) == Some(commuted@),
{
}

/// `p - x` and `x - p` for a `u8` `x`: each takes its right operand from its
/// left one, and is to be called where that difference is in a decimal's range.
pub proof fn law_sub_is_oriented_u8(
    p: Percentage,
    x: u8,
    direct: Percentage,
    commuted: Percentage,
)
    requires
        call_ensures(<Percentage as Sub<u8>>::sub, (p, x), direct),
        call_ensures(<u8 as Sub<Percentage>>::sub, (x, p), commuted),
    ensures
        p.sub_req(x) == (decimal_difference(p@, integer_view(x as int)) is Some),
        x.sub_req(p) == (decimal_difference(integer_view(x as int), p@) is Some),
        decimal_difference(p@, integer_view(x as int)) == Some(direct@),
        decimal_difference(integer_view(x as int), p@) == Some(commuted@),
{
}

/// `p - x` and `x - p` for a `u16` `x`: each takes its right operand from its
/// left one, and is to be called where that difference is in a decimal's range.
pub proof fn law_sub_is_oriented_u16(
    p: Percentage,
    x: u16,
    direct: Percentage,
    commuted: Percentage,
)
    requires
        call_ensures(<Percentage as Sub<u16>>::sub, (p, x), direct),
        call_ensures(<u16 as Sub<Percentage>>::sub, (x, p), commuted),
    ensures
        p.sub_req(x) == (decimal_difference(p@, integer_view(x as int)) is Some),
        x.sub_req(p) == (decimal_difference(integer_view(x as int), p@) is Some),
        decimal_difference(p@, integer_view(x as int)) == Some(direct@),
        decimal_difference(integer_view(x as int), p@) == Some(commuted@),
{
}

/// `p - x` and `x - p` for a `u32` `x`: each takes its right operand from its
/// left one, and is to be called where that difference is in a decimal's range.
pub proof fn law_sub_is_oriented_u32(
    p: Percentage,
    x: u32,
    direct: Percentage,
    commuted: Percentage,
)
    requires
        call_ensures(<Percentage as Sub<u32>>::sub, (p, x), direct),
        call_ensures(<u32 as Sub<Percentage>>::sub, (x, p), commuted),
    ensures
        p.sub_req(x) == (decimal_difference(p@, integer_view(x as int)) is Some),
        x.sub_req(p) == (decimal_difference(integer_view(x as int), p@) is Some),
        decimal_difference(p@, integer_view(x as int)) == Some(direct@),
        decimal_difference(integer_view(x as int), p@) == Some(commuted@),
{
}

/// `p - x` and `x - p` for a `u64` `x`: each takes its right operand from its
/// left one, and is to be called where that difference is in a decimal's range.
pub proof fn law_sub_is_oriented_u64(
    p: Percentage,
    x: u64,
    direct: Percentage,
    commuted: Percentage,
)
    requires
        call_ensures(<Percentage as Sub<u64>>::sub, (p, x), direct),
        call_ensures(<u64 as Sub<Percentage>>::sub, (x, p), commuted),
    ensures
        p.sub_req(x) == (decimal_difference(p@, integer_view(x as int)) is Some),
        x.sub_req(p) == (decimal_difference(integer_view(x as int), p@) is Some),
        decimal_difference(p@, integer_view(x as int)) == Some(direct@),
        decimal_difference(integer_view(x as int), p@) == Some(commuted@),
{
}

} // verus!
