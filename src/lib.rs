//! Floating-point values that are checked against a validity policy at every
//! construction and every arithmetic step.
//!
//! A raw float is held as its IEEE-754 bit pattern: `u64` for the 64-bit width
//! and `u32` for the 32-bit width. A `NoisyFloat<F, C>` wraps one raw value of
//! width `F`, governed by the policy `C`; every value built through a checked
//! path satisfies the policy, which gives the wrapper a reflexive equality and
//! a total order.
use vstd::prelude::*;

pub mod checkers;
pub mod float_impl;
pub mod laws;
pub mod raw;
pub mod strategy;

use crate::checkers::{FiniteChecker, IllegalValue, NumChecker};
use crate::raw::{is_finite_spec, RawFloat};
use core::marker::PhantomData;

verus! {

/// A validity policy for raw floats of width `F`: which raw values a
/// `NoisyFloat<F, Self>` may hold. A policy is stateless: validity depends on
/// the raw bits alone.
pub trait FloatChecker<F: RawFloat> {
    /// The values this policy accepts.
    spec fn valid(value: F) -> bool;

    /// Whether `value` is accepted.
    fn check(value: F) -> (r: bool)
        ensures
            r == Self::valid(value),
    ;

    /// Names the condition that a rejected value violates.
    fn diagnostic() -> &'static str;

    /// Stands where a value must already be known to be accepted; a caller
    /// that cannot show it must test with `check` first.
    fn assert_valid(value: F)
        requires
            Self::valid(value),
    ;
}

/// A raw float of width `F` that satisfies the policy `C`.
#[derive(Debug)]
pub struct NoisyFloat<F: RawFloat, C: FloatChecker<F>> {
    value: F,
    checker: PhantomData<C>,
}

impl<F: RawFloat, C: FloatChecker<F>> View for NoisyFloat<F, C> {
    type V = F;

    /// The raw value.
    closed spec fn view(&self) -> F {
        self.value
    }
}

impl<F: RawFloat, C: FloatChecker<F>> NoisyFloat<F, C> {
    #[verifier::type_invariant]
    closed spec fn inv(self) -> bool {
        C::valid(self.value)
    }

    /// Every value built through a checked path satisfies its policy.
    pub open spec fn wf(self) -> bool {
        C::valid(self@)
    }

    /// The value that wraps `value`.
    pub closed spec fn spec_wrap(value: F) -> Self {
        NoisyFloat { value, checker: PhantomData }
    }

    /// A value is determined by its raw value.
    pub proof fn lemma_view_determines(a: Self, b: Self)
        requires
            a@ == b@,
        ensures
            a == b,
    {
    }

    /// `spec_wrap` keeps the raw value.
    pub proof fn lemma_spec_wrap(value: F)
        ensures
            Self::spec_wrap(value)@ == value,
    {
    }

    /// Wraps a raw value that the policy accepts. A caller that cannot show
    /// that it does must use `try_new`.
    pub fn new(value: F) -> (r: Self)
        requires
            C::valid(value),
        ensures
            r@ == value,
    {
        C::assert_valid(value);
        Self::unchecked_new(value)
    }

    /// Wraps `value` if the policy accepts it, else gives `None`.
    pub fn try_new(value: F) -> (r: Option<Self>)
        ensures
            r.is_some() == C::valid(value),
            r matches Some(v) ==> v@ == value,
    {
        if C::check(value) {
            Some(Self::unchecked_new(value))
        } else {
            None
        }
    }

    /// Wraps `value` without testing it: validity is the caller's duty, for
    /// instance where the value comes from another value under the same
    /// policy.
    pub fn unchecked_new(value: F) -> (r: Self)
        requires
            C::valid(value),
        ensures
            r@ == value,
    {
        NoisyFloat { value, checker: PhantomData }
    }

    /// The raw value.
    pub fn raw(self) -> (r: F)
        ensures
            r == self@,
    {
        self.value
    }

    /// The raw value, borrowed.
    pub fn as_ref(&self) -> (r: &F)
        ensures
            *r == self@,
    {
        &self.value
    }
}

impl<F: RawFloat, C: FloatChecker<F>> Clone for NoisyFloat<F, C> {
    fn clone(&self) -> (r: Self)
        ensures
            r@ == self@,
    {
        proof {
            use_type_invariant(self);
        }
        Self::unchecked_new(self.value)
    }
}

impl<F: RawFloat, C: FloatChecker<F>> Copy for NoisyFloat<F, C> {
}

/// Every finite value is a number: widening never fails.
impl<F: RawFloat> From<NoisyFloat<F, FiniteChecker>> for NoisyFloat<F, NumChecker> {
    fn from(value: NoisyFloat<F, FiniteChecker>) -> (r: Self)
        ensures
            r@ == value@,
    {
        proof {
            use_type_invariant(&value);
        }
        Self::unchecked_new(value.raw())
    }
}

impl<F: RawFloat> vstd::std_specs::convert::FromSpecImpl<NoisyFloat<F, FiniteChecker>> for NoisyFloat<F, NumChecker> {
    open spec fn obeys_from_spec() -> bool {
        true
    }

    open spec fn from_spec(v: NoisyFloat<F, FiniteChecker>) -> Self {
        Self::spec_wrap(v@)
    }
}

/// Narrowing succeeds exactly on finite values.
impl<F: RawFloat> TryFrom<NoisyFloat<F, NumChecker>> for NoisyFloat<F, FiniteChecker> {
    type Error = IllegalValue;

    fn try_from(f: NoisyFloat<F, NumChecker>) -> (r: Result<Self, IllegalValue>)
        ensures
            r.is_ok() == is_finite_spec(f@),
            r matches Ok(v) ==> v@ == f@,
    {
        match Self::try_new(f.raw()) {
            Some(v) => Ok(v),
            None => Err(IllegalValue),
        }
    }
}

impl<F: RawFloat> vstd::std_specs::convert::TryFromSpecImpl<NoisyFloat<F, NumChecker>> for NoisyFloat<F, FiniteChecker> {
    open spec fn obeys_try_from_spec() -> bool {
        true
    }

    open spec fn try_from_spec(f: NoisyFloat<F, NumChecker>) -> Result<Self, IllegalValue> {
        if is_finite_spec(f@) {
            Ok(Self::spec_wrap(f@))
        } else {
            Err(IllegalValue)
        }
    }
}

/// A 32-bit float that is not NaN.
pub type N32 = NoisyFloat<u32, NumChecker>;

/// A 64-bit float that is not NaN.
pub type N64 = NoisyFloat<u64, NumChecker>;

/// A 32-bit float that is neither NaN nor infinite.
pub type R32 = NoisyFloat<u32, FiniteChecker>;

/// A 64-bit float that is neither NaN nor infinite.
pub type R64 = NoisyFloat<u64, FiniteChecker>;

/// Builds an `N32` from the bits of a 32-bit float.
pub fn n32(value: u32) -> (r: N32)
    requires
        NumChecker::valid(value),
    ensures
        r@ == value,
{
    N32::new(value)
}

/// Builds an `N64` from the bits of a 64-bit float.
pub fn n64(value: u64) -> (r: N64)
    requires
        NumChecker::valid(value),
    ensures
        r@ == value,
{
    N64::new(value)
}

/// Builds an `R32` from the bits of a 32-bit float.
pub fn r32(value: u32) -> (r: R32)
    requires
        FiniteChecker::valid(value),
    ensures
        r@ == value,
{
    R32::new(value)
}

/// Builds an `R64` from the bits of a 64-bit float.
pub fn r64(value: u64) -> (r: R64)
    requires
        FiniteChecker::valid(value),
    ensures
        r@ == value,
{
    R64::new(value)
}

} // verus!
