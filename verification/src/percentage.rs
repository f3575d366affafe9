//! The percentage type, how it is made and how it is written out.
use crate::decimal::{
    checked_mul, decimal_parse, decimal_product, decimal_text, decimal_view, from_i64,
    integer_view, normalize, parse, to_text, DecimalView,
};
use crate::error::PercentageError;
use rust_decimal::Decimal;
use vstd::pervasive::unreached;
use vstd::prelude::*;
use vstd::string::StringExecFns;

verus! {

/// A percentage, held as a fraction: the decimal `0.1` is 10%.
///
/// Any decimal is a percentage: negative ones and those above one are kept as
/// they are.
#[derive(Clone, Copy)]
pub struct Percentage(pub(crate) Decimal);

impl View for Percentage {
    type V = DecimalView;

    /// The number that the percentage holds, as a fraction.
    open spec fn view(&self) -> DecimalView {
        decimal_view(self.decimal())
    }
}

impl Percentage {
    /// The decimal that the percentage was made of.
    pub open(crate) spec fn decimal(self) -> Decimal {
        self.0
    }

    /// The decimal that the percentage was made of.
    pub fn value(&self) -> (d: Decimal)
        ensures
            d == self.decimal(),
    {
        self.0
    }

    /// What the decimal parser made of a text, as a percentage: `Parse` where
    /// it refused the text.
    pub fn from_parsed(parsed: Result<Decimal, rust_decimal::Error>) -> (r: Result<
        Percentage,
        PercentageError,
    >)
        ensures
            match r {
                Ok(p) => parsed matches Ok(d) && d == p.decimal(),
                Err(e) => e == PercentageError::Parse && parsed is Err,
            },
    {
        match parsed {
            Ok(d) => Ok(Percentage(d)),
            Err(_) => Err(PercentageError::Parse),
        }
    }

    /// The digits of a number of percent with the percent sign behind them.
    pub fn with_percent_sign(digits: String) -> (s: String)
        ensures
            s@ == digits@.push('%'),
    {
        let mut s = digits;
        s.append("%");
        proof {
            reveal_strlit("%");
            assert(digits@ + "%"@ =~= digits@.push('%'));
        }
        s
    }

    /// What [`Percentage::to_string`] writes: the fraction times 100, without
    /// trailing zeros, in the decimal's own digits, then a percent sign. `None`
    /// where the fraction times 100 is out of a decimal's range.
    pub open spec fn text(self) -> Option<Seq<char>> {
        match decimal_product(self@, integer_view(100)) {
            Some(scaled) => Some(decimal_text(scaled.normalized()).push('%')),
            None => None,
        }
    }

    /// Writes the percentage out, as `50%` for the fraction `0.5`, or fails with
    /// `Overflow` where the fraction times 100 is out of a decimal's range.
    pub fn try_to_string(&self) -> (r: Result<String, PercentageError>)
        ensures
            match r {
                Ok(s) => self.text() == Some(s@),
                Err(e) => e == PercentageError::Overflow && self.text() is None,
            },
    {
        match checked_mul(self.0, from_i64(100)) {
            Some(scaled) => Ok(Percentage::with_percent_sign(to_text(&normalize(&scaled)))),
            None => Err(PercentageError::Overflow),
        }
    }

    /// Writes the percentage out, as `50%` for the fraction `0.5`.
    pub fn to_string(&self) -> (s: String)
        requires
            self.text() is Some,
        ensures
            self.text() == Some(s@),
    {
        match self.try_to_string() {
            Ok(s) => s,
            Err(_) => unreached(),
        }
    }
}

impl From<Decimal> for Percentage {
    /// The percentage whose fraction is `p`: `p` is kept as it is.
    fn from(p: Decimal) -> (r: Percentage)
        ensures
            r.decimal() == p,
    {
        Percentage(p)
    }
}

impl vstd::std_specs::convert::FromSpecImpl<Decimal> for Percentage {
    open spec fn obeys_from_spec() -> bool {
        true
    }

    open(crate) spec fn from_spec(p: Decimal) -> Percentage {
        Percentage(p)
    }
}

impl TryFrom<&str> for Percentage {
    type Error = PercentageError;

    /// Reads a percentage from a decimal numeral: `"0.1"` is 10%. Fails with
    /// `Parse` on any text that the decimal parser refuses.
    fn try_from(p: &str) -> (r: Result<Percentage, PercentageError>)
        ensures
            match r {
                Ok(q) => decimal_parse(p@) == Some(q@),
                Err(e) => e == PercentageError::Parse && decimal_parse(p@) is None,
            },
    {
        Percentage::from_parsed(parse(p))
    }
}

impl vstd::std_specs::convert::TryFromSpecImpl<&str> for Percentage {
    open spec fn obeys_try_from_spec() -> bool {
        false
    }

    open spec fn try_from_spec(p: &str) -> Result<Percentage, PercentageError> {
        arbitrary()
    }
}

} // verus!
