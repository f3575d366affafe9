//! How an operation on a percentage can fail.
use vstd::prelude::*;

verus! {

/// The ways in which an operation on a percentage fails.
#[derive(Clone, Copy, Debug, PartialEq, Eq, Structural)]
pub enum PercentageError {
    /// The text is not a decimal numeral.
    Parse,
    /// The sum, difference or product is too large for a decimal.
    Overflow,
    /// The product does not fit the integer type that was asked for.
    OutOfRange,
}

} // verus!
