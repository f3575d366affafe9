//! The decimal numbers that a percentage is made of.
//!
//! `rust_decimal::Decimal` does the arithmetic. This module gives its values a
//! mathematical model, [`DecimalView`], and states what the rest of the crate
//! relies on: what is written out here is believed of `rust_decimal`, not proved.
use rust_decimal::Decimal;
use vstd::prelude::*;

verus! {

/// `rust_decimal::Decimal`, a 96-bit coefficient with a sign and a power of ten.
#[verifier::external_type_specification]
#[verifier::external_body]
pub struct ExDecimal(Decimal);

/// `rust_decimal::Error`, what `Decimal`'s parser fails with.
#[verifier::external_type_specification]
#[verifier::external_body]
pub struct ExDecimalError(rust_decimal::Error);

/// Ten to the power `e`.
pub open spec fn pow10(e: nat) -> nat
    decreases e,
{
    if e == 0 {
        1
    } else {
        10 * pow10((e - 1) as nat)
    }
}

/// What a `Decimal` holds: the number `coefficient / 10^scale`, negated where
/// `negative` is set.
///
/// Two views may stand for one number (`0.5` and `0.50`), and a zero may carry a
/// sign: [`DecimalView::same_number`] is the equality of the numbers.
pub struct DecimalView {
    pub negative: bool,
    pub coefficient: nat,
    pub scale: nat,
}

impl DecimalView {
    /// The coefficient with its sign.
    pub open spec fn mantissa(self) -> int {
        if self.negative {
            -(self.coefficient as int)
        } else {
            self.coefficient as int
        }
    }

    /// Whether `self` and `other` stand for the same number:
    /// `m1 / 10^e1 == m2 / 10^e2`, cross-multiplied.
    pub open spec fn same_number(self, other: DecimalView) -> bool {
        self.mantissa() * pow10(other.scale) == other.mantissa() * pow10(self.scale)
    }

    /// The number without its fractional digits: rounded toward zero.
    pub open spec fn integer_part(self) -> int {
        let whole = (self.coefficient / pow10(self.scale)) as int;
        if self.negative {
            -whole
        } else {
            whole
        }
    }

    /// The same number with the trailing zeros of its fraction taken off, and a
    /// zero without sign or scale.
    pub open spec fn normalized(self) -> DecimalView
        decreases self.scale,
    {
        if self.coefficient == 0 {
            DecimalView { negative: false, coefficient: 0, scale: 0 }
        } else if self.scale > 0 && self.coefficient % 10 == 0 {
            DecimalView {
                negative: self.negative,
                coefficient: self.coefficient / 10,
                scale: (self.scale - 1) as nat,
            }.normalized()
        } else {
            self
        }
    }

    /// The integer part as a signed integer between `min` and `max`, or `None`
    /// where it lies outside.
    pub open spec fn signed_part(self, min: int, max: int) -> Option<int> {
        if min <= self.integer_part() <= max {
            Some(self.integer_part())
        } else {
            None
        }
    }

    /// The integer part as an unsigned integer up to `max`, or `None` where it
    /// is larger or the sign is set: a value with the sign set has none, even
    /// where its integer part is zero.
    pub open spec fn unsigned_part(self, max: int) -> Option<int> {
        if !self.negative && self.integer_part() <= max {
            Some(self.integer_part())
        } else {
            None
        }
    }
}

/// The view of the integer `n`: scale zero, nothing lost.
pub open spec fn integer_view(n: int) -> DecimalView {
    DecimalView { negative: n < 0, coefficient: (if n < 0 { -n } else { n }) as nat, scale: 0 }
}

/// The views of an optional decimal.
pub open spec fn optional_view(d: Option<Decimal>) -> Option<DecimalView> {
    match d {
        Some(d) => Some(decimal_view(d)),
        None => None,
    }
}

/// The sign, coefficient and scale that `d` holds, as `Decimal::unpack` gives
/// them.
pub uninterp spec fn decimal_view(d: Decimal) -> DecimalView;

/// What `Decimal::checked_add` returns for operands with these views: the sum,
/// rounded where it does not fit, or `None` where it is out of range.
pub uninterp spec fn decimal_sum(a: DecimalView, b: DecimalView) -> Option<DecimalView>;

/// What `Decimal::checked_sub` returns for operands with these views: `a - b`,
/// rounded where it does not fit, or `None` where it is out of range.
pub uninterp spec fn decimal_difference(a: DecimalView, b: DecimalView) -> Option<DecimalView>;

/// What `Decimal::checked_mul` returns for operands with these views: the
/// product, rounded where it does not fit, or `None` where it is out of range.
pub uninterp spec fn decimal_product(a: DecimalView, b: DecimalView) -> Option<DecimalView>;

/// What `Decimal::from_str` reads from `text`, or `None` where it refuses it.
pub uninterp spec fn decimal_parse(text: Seq<char>) -> Option<DecimalView>;

/// What `Decimal`'s `Display` writes for a value with this view.
pub uninterp spec fn decimal_text(v: DecimalView) -> Seq<char>;

/// `Decimal`'s `==`. It compares the numbers, not their digits: the operand of
/// the smaller scale is brought to the larger one and the coefficients are
/// compared, a zero equals a zero whatever their signs and scales.
#[verifier::external_body]
pub(crate) fn equal(a: &Decimal, b: &Decimal) -> (r: bool)
    ensures
        r == decimal_view(*a).same_number(decimal_view(*b)),
{
    a == b
}

/// `Decimal::from(i64)`. The result holds `n` itself, at scale zero.
#[verifier::external_body]
pub(crate) fn from_i64(n: i64) -> (r: Decimal)
    ensures
        decimal_view(r) == integer_view(n as int),
{
    Decimal::from(n)
}

/// `Decimal::from(u64)`. The result holds `n` itself, at scale zero.
#[verifier::external_body]
pub(crate) fn from_u64(n: u64) -> (r: Decimal)
    ensures
        decimal_view(r) == integer_view(n as int),
{
    Decimal::from(n)
}

/// `Decimal::checked_add`. The result is a function of the operands' views.
#[verifier::external_body]
pub(crate) fn checked_add(a: Decimal, b: Decimal) -> (r: Option<Decimal>)
    ensures
        optional_view(r) == decimal_sum(decimal_view(a), decimal_view(b)),
{
    a.checked_add(b)
}

/// `Decimal::checked_sub`. The result is a function of the operands' views.
#[verifier::external_body]
pub(crate) fn checked_sub(a: Decimal, b: Decimal) -> (r: Option<Decimal>)
    ensures
        optional_view(r) == decimal_difference(decimal_view(a), decimal_view(b)),
{
    a.checked_sub(b)
}

/// `Decimal::checked_mul`. The result is a function of the operands' views.
#[verifier::external_body]
pub(crate) fn checked_mul(a: Decimal, b: Decimal) -> (r: Option<Decimal>)
    ensures
        optional_view(r) == decimal_product(decimal_view(a), decimal_view(b)),
{
    a.checked_mul(b)
}

/// `Decimal::normalize`. It strips the trailing zeros of the fraction, as far as
/// the scale goes, and turns a zero into the plain zero.
#[verifier::external_body]
pub(crate) fn normalize(d: &Decimal) -> (r: Decimal)
    ensures
        decimal_view(r) == decimal_view(*d).normalized(),
{
    d.normalize()
}

/// `Decimal`'s `ToPrimitive::to_i64`. It drops the fractional digits and returns
/// what is left where that lies in `i64`'s range, `None` elsewhere.
#[verifier::external_body]
pub(crate) fn to_i64(d: &Decimal) -> (r: Option<i64>)
    ensures
        match r {
            Some(n) => decimal_view(*d).signed_part(i64::MIN as int, i64::MAX as int) == Some(
                n as int,
            ),
            None => decimal_view(*d).signed_part(i64::MIN as int, i64::MAX as int) is None,
        },
{
    rust_decimal::prelude::ToPrimitive::to_i64(d)
}

/// `Decimal`'s `ToPrimitive::to_u64`. It returns `None` for every value whose
/// sign is set, a zero too. Else it drops the fractional digits and returns what
/// is left where that lies in `u64`'s range, `None` elsewhere.
#[verifier::external_body]
pub(crate) fn to_u64(d: &Decimal) -> (r: Option<u64>)
    ensures
        match r {
            Some(n) => decimal_view(*d).unsigned_part(u64::MAX as int) == Some(n as int),
            None => decimal_view(*d).unsigned_part(u64::MAX as int) is None,
        },
{
    rust_decimal::prelude::ToPrimitive::to_u64(d)
}

/// `Decimal::from_str`. Whether it accepts `text`, and the value it then
/// returns, are a function of the text.
#[verifier::external_body]
pub(crate) fn parse(text: &str) -> (r: Result<Decimal, rust_decimal::Error>)
    ensures
        match r {
            Ok(d) => decimal_parse(text@) == Some(decimal_view(d)),
            Err(_) => decimal_parse(text@) is None,
        },
{
    text.parse::<Decimal>()
}

/// `Decimal`'s `to_string`. The text is a function of the value's view.
#[verifier::external_body]
pub(crate) fn to_text(d: &Decimal) -> (r: String)
    ensures
        r@ == decimal_text(decimal_view(*d)),
{
    d.to_string()
}

} // verus!
