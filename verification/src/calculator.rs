//! The calculator: its construction and its one rule, that nothing is divided
//! by zero.

use vstd::prelude::*;
use crate::binary64::{encodes_zero, is_zero};

verus! {

/// Number of decimal places a new calculator is configured with.
pub const DEFAULT_PRECISION: u32 = 2;

/// Why the calculator refused an operation.
#[derive(Clone, Copy, Debug, PartialEq, Eq, Structural)]
pub enum CalcError {
    /// The divisor was zero, of either sign.
    DivisionByZero,
}

impl CalcError {
    /// The text shown to a user for this error.
    pub fn message(&self) -> (text: &'static str)
        ensures
            text@ == "Division by zero"@,
    {
        match self {
            CalcError::DivisionByZero => "Division by zero",
        }
    }
}

/// A calculator for basic arithmetic.
///
/// It carries a precision setting, fixed when it is made. No operation reads
/// or changes the setting, and no result is rounded to it.
#[derive(Debug, PartialEq, Eq, Structural)]
pub struct Calculator {
    precision: u32,
}

impl Calculator {
    /// The precision setting, in decimal places.
    pub closed spec fn precision(&self) -> nat {
        self.precision as nat
    }

    /// Makes a calculator with the default precision.
    pub fn new() -> (calc: Self)
        ensures
            calc.precision() == DEFAULT_PRECISION,
    {
        Calculator { precision: DEFAULT_PRECISION }
    }

    /// The precision setting is all the state a calculator has: two
    /// calculators that agree on it are the same value.
    pub proof fn lemma_precision_is_whole_state(a: Calculator, b: Calculator)
        requires
            a.precision() == b.precision(),
        ensures
            a == b,
    {
    }

    /// Construction always yields the same state: whatever
    /// [`Calculator::new`] returns, on whichever call, is one and the same
    /// value.
    pub proof fn lemma_new_is_deterministic(first: Calculator, second: Calculator)
        requires
            first.precision() == DEFAULT_PRECISION,
            second.precision() == DEFAULT_PRECISION,
        ensures
            first == second,
    {
        Self::lemma_precision_is_whole_state(first, second);
    }

    /// Decides whether a division by the number encoded in `divisor_bits` may
    /// go ahead.
    ///
    /// It is refused exactly when the divisor is `+0.0` or `-0.0`; every other
    /// divisor, infinities and NaNs included, is let through. The answer is a
    /// function of the divisor alone: neither the dividend, nor the calculator,
    /// nor anything done with it earlier has a part in it.
    pub fn check_divisor(&self, divisor_bits: u64) -> (outcome: Result<(), CalcError>)
        ensures
            outcome is Err <==> encodes_zero(divisor_bits),
            outcome matches Err(error) ==> error == CalcError::DivisionByZero,
    {
        if is_zero(divisor_bits) {
            Err(CalcError::DivisionByZero)
        } else {
            Ok(())
        }
    }
}

} // verus!
