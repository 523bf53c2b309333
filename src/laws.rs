//! Laws that relate several operations.
use vstd::prelude::*;

use crate::checkers::{FiniteChecker, NumChecker};
use crate::float_impl::{hash_key_spec, total_cmp_spec};
use crate::raw::{inf_magnitude, is_infinite_spec, num_cmp, num_eq, RawFloat};
use crate::{FloatChecker, NoisyFloat};
use core::cmp::Ordering;
use vstd::std_specs::cmp::PartialEqSpec;
use vstd::std_specs::convert::{FromSpec, TryFromSpec};

verus! {

/// Widening a finite value into the non-NaN policy never fails and keeps the
/// raw value: every value the finite policy accepts, the number policy
/// accepts, and `from` wraps the same raw value.
pub proof fn lemma_widening_keeps_raw<F: RawFloat>(x: F)
    requires
        FiniteChecker::valid(x),
    ensures
        NumChecker::valid(x),
        <NoisyFloat<F, NumChecker> as FromSpec<NoisyFloat<F, FiniteChecker>>>::from_spec(
            NoisyFloat::<F, FiniteChecker>::spec_wrap(x),
        )@ == x,
{
    NoisyFloat::<F, FiniteChecker>::lemma_spec_wrap(x);
    NoisyFloat::<F, NumChecker>::lemma_spec_wrap(x);
}

/// Narrowing a non-NaN value into the finite policy succeeds exactly when the
/// value is not infinite, that is when it is neither `+infinity` nor
/// `-infinity`; on success the raw value is kept.
pub proof fn lemma_narrowing<F: RawFloat>(v: NoisyFloat<F, NumChecker>)
    requires
        v.wf(),
    ensures
        <NoisyFloat<F, FiniteChecker> as TryFromSpec<NoisyFloat<F, NumChecker>>>::try_from_spec(
            v,
        ).is_ok() <==> !is_infinite_spec(v@),
        <NoisyFloat<F, FiniteChecker> as TryFromSpec<NoisyFloat<F, NumChecker>>>::try_from_spec(
            v,
        ).is_err() <==> (v@ == F::compose(false, inf_magnitude::<F>()) || v@ == F::compose(
            true,
            inf_magnitude::<F>(),
        )),
        <NoisyFloat<F, FiniteChecker> as TryFromSpec<NoisyFloat<F, NumChecker>>>::try_from_spec(
            v,
        ) matches Ok(w) ==> w@ == v@,
{
    F::lemma_layout();
    NoisyFloat::<F, FiniteChecker>::lemma_spec_wrap(v@);
    F::lemma_compose(false, inf_magnitude::<F>());
    F::lemma_compose(true, inf_magnitude::<F>());
    if is_infinite_spec(v@) {
        let c = F::compose(v@.sign_of(), inf_magnitude::<F>());
        F::lemma_parts_determine(v@, c);
    }
}

/// Equality of values is IEEE-754 equality of their raw values, and equal
/// values hash alike, `+0.0` and `-0.0` included.
pub proof fn lemma_eq_hash<F: RawFloat, C: FloatChecker<F>>(a: NoisyFloat<F, C>, b: NoisyFloat<F, C>)
    requires
        a.wf(),
        b.wf(),
    ensures
        a.eq_spec(&b) <==> num_eq(a@, b@),
        a.eq_spec(&b) ==> hash_key_spec(a@) == hash_key_spec(b@),
{
    if num_eq(a@, b@) && a@.magnitude_of() != 0 {
        F::lemma_parts_determine(a@, b@);
    }
}

/// On values that are never NaN, `cmp` is a total order: reflexive,
/// antisymmetric, transitive and total, and it agrees with `partial_cmp`.
pub proof fn lemma_total_order<F: RawFloat>(
    a: NoisyFloat<F, NumChecker>,
    b: NoisyFloat<F, NumChecker>,
    c: NoisyFloat<F, NumChecker>,
)
    requires
        a.wf(),
        b.wf(),
        c.wf(),
    ensures
        total_cmp_spec(a@, a@) == Ordering::Equal,
        total_cmp_spec(a@, b@) == Ordering::Less <==> total_cmp_spec(b@, a@) == Ordering::Greater,
        total_cmp_spec(a@, b@) == Ordering::Equal <==> total_cmp_spec(b@, a@) == Ordering::Equal,
        total_cmp_spec(a@, b@) != Ordering::Greater && total_cmp_spec(b@, c@) != Ordering::Greater
            ==> total_cmp_spec(a@, c@) != Ordering::Greater,
        num_cmp(a@, b@) == Some(total_cmp_spec(a@, b@)),
        total_cmp_spec(a@, b@) == Ordering::Equal <==> a.eq_spec(&b),
{
}

/// An infinite raw value is rejected by the finite policy and accepted by the
/// number policy: dividing a nonzero finite value by zero can yield a
/// `NoisyFloat` under the number policy only.
pub proof fn lemma_infinity_policies<F: RawFloat>(x: F)
    requires
        is_infinite_spec(x),
    ensures
        !FiniteChecker::valid(x),
        NumChecker::valid(x),
{
}

/// Reconstructing a value from its raw value through `try_new` gives the same
/// value back, and never fails.
pub proof fn lemma_round_trip<F: RawFloat, C: FloatChecker<F>>(v: NoisyFloat<F, C>)
    requires
        v.wf(),
    ensures
        C::valid(v@),
        forall|w: NoisyFloat<F, C>| w@ == v@ ==> w == v,
{
    assert forall|w: NoisyFloat<F, C>| w@ == v@ implies w == v by {
        NoisyFloat::<F, C>::lemma_view_determines(w, v);
    }
}

} // verus!
