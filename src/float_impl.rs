//! Equality, order, hashing and the sign-level operations of `NoisyFloat`.
//!
//! Equality and order are IEEE-754's, computed on the raw value. Since a
//! valid value is never NaN under the standard policies, they form a
//! reflexive equality and a total order there.
use vstd::prelude::*;

use crate::raw::{
    abs_spec, category_spec, classify, epsilon_magnitude, inf_magnitude, infinity_magnitude,
    integer_decode, integer_decode_spec, is_finite, is_finite_spec, is_infinite,
    is_infinite_spec, is_nan, is_nan_spec, is_normal, is_normal_spec, is_zero, is_zero_spec,
    max_spec, min_spec, negate_spec, num_cmp, num_cmp_exec, num_eq, num_eq_exec,
    num_lt, num_lt_exec, one_magnitude, scaled_magnitude, signum_spec, Category, RawFloat,
};
use crate::{FloatChecker, NoisyFloat};
use core::cmp::Ordering;

verus! {

/// The three-way comparison that `cmp` makes: by numeric order, with a pair
/// that is neither less nor equal (only possible with NaN) reported greater.
pub open spec fn total_cmp_spec<F: RawFloat>(a: F, b: F) -> Ordering {
    if num_lt(a, b) {
        Ordering::Less
    } else if num_eq(a, b) {
        Ordering::Equal
    } else {
        Ordering::Greater
    }
}

/// What is hashed for a raw value: both zeros become `+0.0`, any other value
/// stays as it is.
pub open spec fn hash_key_spec<F: RawFloat>(x: F) -> F {
    if x.magnitude_of() == 0 {
        F::compose(false, 0)
    } else {
        x
    }
}

impl<F: RawFloat, C: FloatChecker<F>> PartialEq for NoisyFloat<F, C> {
    fn eq(&self, other: &Self) -> (r: bool) {
        num_eq_exec(self.raw(), other.raw())
    }
}

impl<F: RawFloat, C: FloatChecker<F>> vstd::std_specs::cmp::PartialEqSpecImpl for NoisyFloat<F, C> {
    open spec fn obeys_eq_spec() -> bool {
        true
    }

    open spec fn eq_spec(&self, other: &Self) -> bool {
        num_eq(self@, other@)
    }
}

impl<F: RawFloat, C: FloatChecker<F>> Eq for NoisyFloat<F, C> {
}

impl<F: RawFloat, C: FloatChecker<F>> PartialOrd for NoisyFloat<F, C> {
    fn partial_cmp(&self, other: &Self) -> (r: Option<Ordering>) {
        num_cmp_exec(self.raw(), other.raw())
    }

    fn lt(&self, other: &Self) -> (r: bool) {
        num_lt_exec(self.raw(), other.raw())
    }

    fn le(&self, other: &Self) -> (r: bool) {
        num_lt_exec(self.raw(), other.raw()) || num_eq_exec(self.raw(), other.raw())
    }

    fn gt(&self, other: &Self) -> (r: bool) {
        num_lt_exec(other.raw(), self.raw())
    }

    fn ge(&self, other: &Self) -> (r: bool) {
        num_lt_exec(other.raw(), self.raw()) || num_eq_exec(self.raw(), other.raw())
    }
}

impl<F: RawFloat, C: FloatChecker<F>> vstd::std_specs::cmp::PartialOrdSpecImpl for NoisyFloat<F, C> {
    open spec fn obeys_partial_cmp_spec() -> bool {
        true
    }

    open spec fn partial_cmp_spec(&self, other: &Self) -> Option<Ordering> {
        num_cmp(self@, other@)
    }
}

impl<F: RawFloat, C: FloatChecker<F>> NoisyFloat<F, C> {
    /// The total order of valid values: numeric order, in which `-0.0` and
    /// `+0.0` are equal.
    pub fn cmp(&self, other: &Self) -> (r: Ordering)
        ensures
            r == total_cmp_spec(self@, other@),
    {
        if num_lt_exec(self.raw(), other.raw()) {
            Ordering::Less
        } else if num_eq_exec(self.raw(), other.raw()) {
            Ordering::Equal
        } else {
            Ordering::Greater
        }
    }

    /// The raw value that `hash` feeds to the hasher: `+0.0` for either zero,
    /// so that equal values hash alike.
    pub fn hash_key(&self) -> (r: F)
        ensures
            r == hash_key_spec(self@),
    {
        proof {
            F::lemma_layout();
        }
        if is_zero(self.raw()) {
            F::from_parts(false, 0)
        } else {
            self.raw()
        }
    }

    /// IEEE-754 `==` against a raw value.
    pub fn eq_raw(&self, other: F) -> (r: bool)
        ensures
            r == num_eq(self@, other),
    {
        num_eq_exec(self.raw(), other)
    }

    /// IEEE-754 comparison against a raw value.
    pub fn partial_cmp_raw(&self, other: F) -> (r: Option<Ordering>)
        ensures
            r == num_cmp(self@, other),
    {
        num_cmp_exec(self.raw(), other)
    }

    /// IEEE-754 `<` against a raw value.
    pub fn lt_raw(&self, other: F) -> (r: bool)
        ensures
            r == num_lt(self@, other),
    {
        num_lt_exec(self.raw(), other)
    }

    /// IEEE-754 `<=` against a raw value.
    pub fn le_raw(&self, other: F) -> (r: bool)
        ensures
            r == (num_lt(self@, other) || num_eq(self@, other)),
    {
        num_lt_exec(self.raw(), other) || num_eq_exec(self.raw(), other)
    }

    /// IEEE-754 `>` against a raw value.
    pub fn gt_raw(&self, other: F) -> (r: bool)
        ensures
            r == num_lt(other, self@),
    {
        num_lt_exec(other, self.raw())
    }

    /// IEEE-754 `>=` against a raw value.
    pub fn ge_raw(&self, other: F) -> (r: bool)
        ensures
            r == (num_lt(other, self@) || num_eq(self@, other)),
    {
        num_lt_exec(other, self.raw()) || num_eq_exec(self.raw(), other)
    }
}

impl<F: RawFloat, C: FloatChecker<F>> core::ops::Neg for NoisyFloat<F, C> {
    type Output = Self;

    /// Flips the sign bit; the result must satisfy the policy.
    fn neg(self) -> (r: Self) {
        proof {
            F::lemma_magnitude_bound(self@);
        }
        let r = Self::new(F::from_parts(!self.raw().sign(), self.raw().magnitude()));
        proof {
            Self::lemma_spec_wrap(negate_spec(self@));
            Self::lemma_view_determines(r, Self::spec_wrap(negate_spec(self@)));
        }
        r
    }
}

impl<F: RawFloat, C: FloatChecker<F>> vstd::std_specs::ops::NegSpecImpl for NoisyFloat<F, C> {
    open spec fn obeys_neg_spec() -> bool {
        true
    }

    open spec fn neg_req(self) -> bool {
        C::valid(negate_spec(self@))
    }

    open spec fn neg_spec(self) -> Self {
        Self::spec_wrap(negate_spec(self@))
    }
}

impl<F: RawFloat, C: FloatChecker<F>> NoisyFloat<F, C> {
    /// `+0.0`.
    pub fn zero() -> (r: Self)
        requires
            C::valid(F::compose(false, 0)),
        ensures
            r@ == F::compose(false, 0),
    {
        Self::new(F::from_parts(false, scaled_magnitude::<F>(0)))
    }

    /// `-0.0`.
    pub fn neg_zero() -> (r: Self)
        requires
            C::valid(F::compose(true, 0)),
        ensures
            r@ == F::compose(true, 0),
    {
        Self::new(F::from_parts(true, scaled_magnitude::<F>(0)))
    }

    /// `1.0`.
    pub fn one() -> (r: Self)
        requires
            C::valid(F::compose(false, one_magnitude::<F>())),
        ensures
            r@ == F::compose(false, one_magnitude::<F>()),
    {
        proof {
            F::lemma_layout();
        }
        Self::new(F::from_parts(false, scaled_magnitude::<F>(F::exponent_max_exec() / 2)))
    }

    /// `+infinity`.
    pub fn infinity() -> (r: Self)
        requires
            C::valid(F::compose(false, inf_magnitude::<F>())),
        ensures
            r@ == F::compose(false, inf_magnitude::<F>()),
    {
        proof {
            F::lemma_layout();
        }
        Self::new(F::from_parts(false, infinity_magnitude::<F>()))
    }

    /// `-infinity`.
    pub fn neg_infinity() -> (r: Self)
        requires
            C::valid(F::compose(true, inf_magnitude::<F>())),
        ensures
            r@ == F::compose(true, inf_magnitude::<F>()),
    {
        proof {
            F::lemma_layout();
        }
        Self::new(F::from_parts(true, infinity_magnitude::<F>()))
    }

    /// The largest finite value.
    pub fn max_value() -> (r: Self)
        requires
            C::valid(F::compose(false, (inf_magnitude::<F>() - 1) as nat)),
        ensures
            r@ == F::compose(false, (inf_magnitude::<F>() - 1) as nat),
    {
        proof {
            F::lemma_layout();
        }
        Self::new(F::from_parts(false, infinity_magnitude::<F>() - 1))
    }

    /// The smallest finite value, the negation of `max_value`.
    pub fn min_value() -> (r: Self)
        requires
            C::valid(F::compose(true, (inf_magnitude::<F>() - 1) as nat)),
        ensures
            r@ == F::compose(true, (inf_magnitude::<F>() - 1) as nat),
    {
        proof {
            F::lemma_layout();
        }
        Self::new(F::from_parts(true, infinity_magnitude::<F>() - 1))
    }

    /// The smallest positive normal value.
    pub fn min_positive_value() -> (r: Self)
        requires
            C::valid(F::compose(false, F::unit())),
        ensures
            r@ == F::compose(false, F::unit()),
    {
        proof {
            F::lemma_layout();
        }
        Self::new(F::from_parts(false, scaled_magnitude::<F>(1)))
    }

    /// The machine epsilon: the gap between `1.0` and the next value.
    pub fn epsilon() -> (r: Self)
        requires
            C::valid(F::compose(false, epsilon_magnitude::<F>())),
        ensures
            r@ == F::compose(false, epsilon_magnitude::<F>()),
    {
        proof {
            F::lemma_layout();
        }
        let e = F::exponent_max_exec() / 2 - F::mantissa_bits_exec();
        Self::new(F::from_parts(false, scaled_magnitude::<F>(e)))
    }

    pub fn is_nan(self) -> (r: bool)
        ensures
            r == is_nan_spec(self@),
    {
        is_nan(self.raw())
    }

    pub fn is_infinite(self) -> (r: bool)
        ensures
            r == is_infinite_spec(self@),
    {
        is_infinite(self.raw())
    }

    pub fn is_finite(self) -> (r: bool)
        ensures
            r == is_finite_spec(self@),
    {
        is_finite(self.raw())
    }

    pub fn is_normal(self) -> (r: bool)
        ensures
            r == is_normal_spec(self@),
    {
        is_normal(self.raw())
    }

    /// Either zero.
    pub fn is_zero(&self) -> (r: bool)
        ensures
            r == is_zero_spec(self@),
    {
        is_zero(self.raw())
    }

    pub fn classify(self) -> (r: Category)
        ensures
            r == category_spec(self@),
    {
        classify(self.raw())
    }

    /// Whether the sign bit is clear: true of `+0.0` and `+infinity`.
    pub fn is_sign_positive(self) -> (r: bool)
        ensures
            r == !self@.sign_of(),
    {
        !self.raw().sign()
    }

    /// Whether the sign bit is set: true of `-0.0` and `-infinity`.
    pub fn is_sign_negative(self) -> (r: bool)
        ensures
            r == self@.sign_of(),
    {
        self.raw().sign()
    }

    /// As `is_sign_positive`.
    pub fn is_positive(&self) -> (r: bool)
        ensures
            r == !self@.sign_of(),
    {
        !self.raw().sign()
    }

    /// As `is_sign_negative`.
    pub fn is_negative(&self) -> (r: bool)
        ensures
            r == self@.sign_of(),
    {
        self.raw().sign()
    }

    /// Clears the sign bit; the result must satisfy the policy.
    pub fn abs(self) -> (r: Self)
        requires
            C::valid(abs_spec(self@)),
        ensures
            r@ == abs_spec(self@),
    {
        proof {
            F::lemma_magnitude_bound(self@);
        }
        Self::new(F::from_parts(false, self.raw().magnitude()))
    }

    /// `1.0` with the sign of the value (`-1.0` for `-0.0`), or the
    /// canonical NaN for a NaN; the result must satisfy the policy.
    pub fn signum(self) -> (r: Self)
        requires
            C::valid(signum_spec(self@)),
        ensures
            r@ == signum_spec(self@),
    {
        proof {
            F::lemma_layout();
        }
        if is_nan(self.raw()) {
            let m = infinity_magnitude::<F>() + F::unit_exec() / 2;
            Self::new(F::from_parts(false, m))
        } else {
            let m = scaled_magnitude::<F>(F::exponent_max_exec() / 2);
            Self::new(F::from_parts(self.raw().sign(), m))
        }
    }

    /// The larger value; for two zeros, `self`.
    pub fn max(self, other: Self) -> (r: Self)
        ensures
            r@ == max_spec(self@, other@),
    {
        if is_nan(self.raw()) || num_lt_exec(self.raw(), other.raw()) {
            other
        } else {
            self
        }
    }

    /// The smaller value; for two zeros, `self`.
    pub fn min(self, other: Self) -> (r: Self)
        ensures
            r@ == min_spec(self@, other@),
    {
        if is_nan(self.raw()) || num_lt_exec(other.raw(), self.raw()) {
            other
        } else {
            self
        }
    }

    /// Mantissa, exponent and sign of the value, as integers.
    pub fn integer_decode(self) -> (r: (u64, i16, i8))
        ensures
            r == integer_decode_spec(self@),
    {
        integer_decode(self.raw())
    }
}

/// Relies on `core::hash::Hash::hash` of the raw bit pattern: feeds `key` to
/// `state`. Nothing is promised of the hasher's state.
#[verifier::external_body]
fn hash_raw<F: core::hash::Hash, H: core::hash::Hasher>(key: F, state: &mut H) {
    key.hash(state)
}

/// Equal values hash alike: both zeros are hashed as `+0.0`.
impl<F: RawFloat + core::hash::Hash, C: FloatChecker<F>> core::hash::Hash for NoisyFloat<F, C> {
    fn hash<H: core::hash::Hasher>(&self, state: &mut H) {
        hash_raw(self.hash_key(), state);
    }
}

} // verus!
