//! A stateless calculator over double-precision numbers.
//!
//! The verified part of the crate is everything the calculator decides: how it
//! is constructed, and when a division must be refused. Numbers cross into it
//! as IEEE-754 binary64 bit patterns (what `f64::to_bits` yields), so that the
//! zero-divisor rule is stated and proved on the encoding itself rather than
//! left to a floating-point comparison.

pub mod binary64;
pub mod calculator;

pub use calculator::{CalcError, Calculator, DEFAULT_PRECISION};
