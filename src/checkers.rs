//! The two standard policies, and conversions between them.
use vstd::prelude::*;

use crate::raw::{is_finite, is_finite_spec, is_nan, is_nan_spec, RawFloat};
use crate::FloatChecker;

verus! {

/// Accepts every value but NaN: the value is a "number".
#[derive(Clone, Copy, Debug)]
pub struct NumChecker;

impl<F: RawFloat> FloatChecker<F> for NumChecker {
    open spec fn valid(value: F) -> bool {
        !is_nan_spec(value)
    }

    fn check(value: F) -> (r: bool) {
        !is_nan(value)
    }

    fn diagnostic() -> &'static str {
        "unexpected NaN"
    }

    fn assert_valid(value: F) {
    }
}

/// Accepts every value but NaN and the two infinities.
#[derive(Clone, Copy, Debug)]
pub struct FiniteChecker;

impl<F: RawFloat> FloatChecker<F> for FiniteChecker {
    open spec fn valid(value: F) -> bool {
        is_finite_spec(value)
    }

    fn check(value: F) -> (r: bool) {
        is_finite(value)
    }

    fn diagnostic() -> &'static str {
        "unexpected NaN or infinity"
    }

    fn assert_valid(value: F) {
    }
}

/// Why a narrowing conversion failed: the value is not accepted by the
/// narrower policy.
#[derive(Clone, Copy, Debug, PartialEq, Eq, Structural)]
pub struct IllegalValue;

impl IllegalValue {
    /// The message that describes this error.
    pub fn message(&self) -> (r: &'static str)
        ensures
            r@ == "illegal value"@,
    {
        "illegal value"
    }
}

} // verus!
