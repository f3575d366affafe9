//! A percentage type with the precision of a decimal.
//!
//! A [`Percentage`] holds a fraction as a `rust_decimal::Decimal`: `0.1` is 10%.
//! It is added to, taken from and multiplied with other percentages, decimals
//! and integers of every width, in decimal arithmetic. What each operation
//! returns is stated over [`decimal::DecimalView`], the number that a decimal
//! holds.
pub mod addition;
pub mod arithmetic;
pub mod decimal;
pub mod equality;
pub mod error;
pub mod integer;
pub mod laws;
pub mod multiply;
pub mod operator_laws;
pub mod percentage;
pub mod subtraction;

pub use error::PercentageError;
pub use percentage::Percentage;
