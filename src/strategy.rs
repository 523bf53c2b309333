//! The value domains of the generators for property-based tests.
//!
//! A generator draws raw floats from a set of classes, in the manner of
//! proptest's float strategies: a sign (positive, negative) and a kind
//! (normal, subnormal, zero, infinite, NaN). The generator for a policy draws
//! from exactly the classes whose values the policy accepts.
use vstd::prelude::*;

use crate::checkers::{FiniteChecker, NumChecker};
use crate::raw::{
    is_infinite_spec, is_nan_spec, is_normal_spec, is_subnormal_spec, is_zero_spec,
    lemma_classes, RawFloat,
};
use crate::FloatChecker;
use core::marker::PhantomData;

verus! {

/// Which classes of raw float a generator draws from.
#[derive(Clone, Copy, Debug, PartialEq, Eq, Structural)]
pub struct FloatClasses {
    pub positive: bool,
    pub negative: bool,
    pub normal: bool,
    pub subnormal: bool,
    pub zero: bool,
    pub infinite: bool,
    pub nan: bool,
}

/// Whether a generator drawing from `c` can produce `x`.
pub open spec fn generates<F: RawFloat>(c: FloatClasses, x: F) -> bool {
    &&& if x.sign_of() {
        c.negative
    } else {
        c.positive
    }
    &&& {
        ||| c.normal && is_normal_spec(x)
        ||| c.subnormal && is_subnormal_spec(x)
        ||| c.zero && is_zero_spec(x)
        ||| c.infinite && is_infinite_spec(x)
        ||| c.nan && is_nan_spec(x)
    }
}

/// The strategy that generates any value a policy `C` accepts, at width `F`.
pub struct Any<F, C>(PhantomData<(F, C)>);

impl<F: RawFloat> Any<F, NumChecker> {
    pub fn new() -> (r: Self) {
        Any(PhantomData)
    }

    /// Both signs, every class but NaN.
    pub fn classes(&self) -> (r: FloatClasses)
        ensures
            forall|x: F| #[trigger] generates(r, x) <==> NumChecker::valid(x),
    {
        let r = FloatClasses {
            positive: true,
            negative: true,
            normal: true,
            subnormal: true,
            zero: true,
            infinite: true,
            nan: false,
        };
        assert forall|x: F| #[trigger] generates(r, x) <==> NumChecker::valid(x) by {
            F::lemma_layout();
            lemma_classes(x);
        }
        r
    }
}

impl<F: RawFloat> Any<F, FiniteChecker> {
    pub fn new() -> (r: Self) {
        Any(PhantomData)
    }

    /// Both signs, the finite classes.
    pub fn classes(&self) -> (r: FloatClasses)
        ensures
            forall|x: F| #[trigger] generates(r, x) <==> FiniteChecker::valid(x),
    {
        let r = FloatClasses {
            positive: true,
            negative: true,
            normal: true,
            subnormal: true,
            zero: true,
            infinite: false,
            nan: false,
        };
        assert forall|x: F| #[trigger] generates(r, x) <==> FiniteChecker::valid(x) by {
            F::lemma_layout();
            lemma_classes(x);
        }
        r
    }
}

} // verus!
