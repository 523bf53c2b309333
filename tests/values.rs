use noisy_float::checkers::{FiniteChecker, NumChecker};
use noisy_float::raw::Category;
use noisy_float::strategy::Any;
use noisy_float::{n32, n64, r32, r64, FloatChecker, NoisyFloat, N32, N64, R32, R64};
use std::cmp::Ordering;
use std::collections::hash_map::DefaultHasher;
use std::convert::TryFrom;
use std::hash::{Hash, Hasher};

fn hash_of<T: Hash>(t: &T) -> u64 {
    let mut h = DefaultHasher::new();
    t.hash(&mut h);
    h.finish()
}

#[test]
fn widening_keeps_raw_value() {
    for x in [2.5f64, -0.0, 0.0, f64::MAX, f64::MIN, f64::MIN_POSITIVE, 1e-310] {
        let r = r64(x.to_bits());
        let n: N64 = N64::from(r);
        assert_eq!(n.raw(), x.to_bits());
    }
}

#[test]
fn narrowing_fails_only_on_infinities() {
    let inf = n64(f64::INFINITY.to_bits());
    let neg_inf = n64(f64::NEG_INFINITY.to_bits());
    let err = R64::try_from(inf).unwrap_err();
    assert_eq!(err.message(), "illegal value");
    assert!(R64::try_from(neg_inf).is_err());
    for x in [1.0f64, -7.25, 0.0, -0.0, f64::MAX] {
        let v = R64::try_from(n64(x.to_bits())).unwrap();
        assert_eq!(v.raw(), x.to_bits());
    }
}

#[test]
fn equality_follows_numeric_equality() {
    let pairs = [(1.0f64, 1.0f64), (0.0, -0.0), (1.0, 2.0), (-3.0, 3.0), (f64::INFINITY, f64::INFINITY)];
    for (a, b) in pairs {
        let (x, y) = (n64(a.to_bits()), n64(b.to_bits()));
        assert_eq!(x == y, a == b);
        assert_eq!(x.eq_raw(b.to_bits()), a == b);
        if x == y {
            assert_eq!(hash_of(&x), hash_of(&y));
        }
    }
}

#[test]
fn signed_zeros_are_equal_everywhere() {
    let neg = n64((-0.0f64).to_bits());
    let pos = n64(0.0f64.to_bits());
    assert!(neg == pos);
    assert_eq!(hash_of(&neg), hash_of(&pos));
    assert_eq!(neg.cmp(&pos), Ordering::Equal);
    assert_eq!(neg.partial_cmp(&pos), Some(Ordering::Equal));
    assert!(!(neg < pos));
    assert!(!(neg > pos));
    assert!(neg <= pos && neg >= pos);
    assert_eq!(neg.hash_key(), 0u64);
    assert_eq!(neg.raw(), (-0.0f64).to_bits());
    let neg32 = n32((-0.0f32).to_bits());
    let pos32 = n32(0.0f32.to_bits());
    assert!(neg32 == pos32);
    assert_eq!(hash_of(&neg32), hash_of(&pos32));
}

#[test]
fn sorting_gives_a_monotone_sequence() {
    let xs = [
        3.5f64, -0.0, f64::INFINITY, -1e-310, 0.0, f64::MIN, 1.0, f64::NEG_INFINITY, -2.0, 1e-310,
        f64::MAX, -0.5, 2.0, f64::MIN_POSITIVE,
    ];
    let mut vs: Vec<N64> = xs.iter().map(|x| n64(x.to_bits())).collect();
    vs.sort_by(|a, b| a.cmp(b));
    for w in vs.windows(2) {
        assert!(w[0] <= w[1]);
        assert_ne!(w[0].cmp(&w[1]), Ordering::Greater);
        assert!(f64::from_bits(w[0].raw()) <= f64::from_bits(w[1].raw()));
    }
    for a in &vs {
        assert_eq!(a.cmp(a), Ordering::Equal);
        for b in &vs {
            let fa = f64::from_bits(a.raw());
            let fb = f64::from_bits(b.raw());
            assert_eq!(a.partial_cmp(b), fa.partial_cmp(&fb));
            assert_eq!(Some(a.cmp(b)), fa.partial_cmp(&fb));
            assert_eq!(a.cmp(b), b.cmp(a).reverse());
        }
    }
}

#[test]
fn arithmetic_result_is_revalidated() {
    let a = r64(1.0f64.to_bits());
    let b = r64(2.0f64.to_bits());
    let sum = f64::from_bits(a.raw()) + f64::from_bits(b.raw());
    let c = R64::try_new(sum.to_bits()).unwrap();
    assert_eq!(c.raw(), 3.0f64.to_bits());
    assert!(c == r64(3.0f64.to_bits()));
}

#[test]
fn division_by_zero_is_valid_only_for_numbers() {
    let q = 5.0f64 / 0.0;
    assert!(<NumChecker as FloatChecker<u64>>::check(q.to_bits()));
    assert!(!<FiniteChecker as FloatChecker<u64>>::check(q.to_bits()));
    let n = N64::try_new(q.to_bits()).unwrap();
    assert!(n.is_infinite());
    assert!(R64::try_new(q.to_bits()).is_none());
    let q32 = -5.0f32 / 0.0;
    assert!(N32::try_new(q32.to_bits()).unwrap().is_infinite());
    assert!(R32::try_new(q32.to_bits()).is_none());
}

#[test]
fn zero_by_zero_is_rejected_by_both() {
    let q = 0.0f64 / 0.0;
    assert!(N64::try_new(q.to_bits()).is_none());
    assert!(R64::try_new(q.to_bits()).is_none());
    assert!(N32::try_new(f32::NAN.to_bits()).is_none());
}

#[test]
fn round_trip_through_try_new() {
    for x in [0.0f64, -0.0, 1.5, -1e300, f64::INFINITY, f64::NEG_INFINITY, 4e-320] {
        let v = n64(x.to_bits());
        let w = N64::try_new(v.raw()).unwrap();
        assert!(w == v);
        assert_eq!(w.raw(), v.raw());
    }
    for x in [0.0f32, -2.5, f32::MAX, 1e-40] {
        let v = r32(x.to_bits());
        let w = R32::try_new(v.raw()).unwrap();
        assert_eq!(w.raw(), x.to_bits());
    }
}

#[test]
fn checkers_name_their_condition() {
    assert_eq!(<NumChecker as FloatChecker<u64>>::diagnostic(), "unexpected NaN");
    assert_eq!(<FiniteChecker as FloatChecker<u32>>::diagnostic(), "unexpected NaN or infinity");
}

#[test]
fn constants_match_native_floats() {
    assert_eq!(N64::zero().raw(), 0.0f64.to_bits());
    assert_eq!(N64::neg_zero().raw(), (-0.0f64).to_bits());
    assert_eq!(N64::one().raw(), 1.0f64.to_bits());
    assert_eq!(N64::infinity().raw(), f64::INFINITY.to_bits());
    assert_eq!(N64::neg_infinity().raw(), f64::NEG_INFINITY.to_bits());
    assert_eq!(R64::max_value().raw(), f64::MAX.to_bits());
    assert_eq!(R64::min_value().raw(), f64::MIN.to_bits());
    assert_eq!(R64::min_positive_value().raw(), f64::MIN_POSITIVE.to_bits());
    assert_eq!(R64::epsilon().raw(), f64::EPSILON.to_bits());
    assert_eq!(R32::zero().raw(), 0.0f32.to_bits());
    assert_eq!(R32::one().raw(), 1.0f32.to_bits());
    assert_eq!(N32::infinity().raw(), f32::INFINITY.to_bits());
    assert_eq!(R32::max_value().raw(), f32::MAX.to_bits());
    assert_eq!(R32::min_value().raw(), f32::MIN.to_bits());
    assert_eq!(R32::min_positive_value().raw(), f32::MIN_POSITIVE.to_bits());
    assert_eq!(R32::epsilon().raw(), f32::EPSILON.to_bits());
}

#[test]
fn classification_matches_native_floats() {
    let xs = [0.0f64, -0.0, 1.0, -1e-310, f64::MIN_POSITIVE, f64::MAX, f64::INFINITY, f64::NEG_INFINITY];
    for x in xs {
        let v = n64(x.to_bits());
        assert_eq!(v.is_nan(), x.is_nan());
        assert_eq!(v.is_infinite(), x.is_infinite());
        assert_eq!(v.is_finite(), x.is_finite());
        assert_eq!(v.is_normal(), x.is_normal());
        assert_eq!(v.is_zero(), x == 0.0);
        assert_eq!(v.is_sign_positive(), x.is_sign_positive());
        assert_eq!(v.is_sign_negative(), x.is_sign_negative());
        assert_eq!(v.is_positive(), x.is_sign_positive());
        assert_eq!(v.is_negative(), x.is_sign_negative());
        let expected = match x.classify() {
            std::num::FpCategory::Nan => Category::Nan,
            std::num::FpCategory::Infinite => Category::Infinite,
            std::num::FpCategory::Zero => Category::Zero,
            std::num::FpCategory::Subnormal => Category::Subnormal,
            std::num::FpCategory::Normal => Category::Normal,
        };
        assert_eq!(v.classify(), expected);
    }
    assert_eq!(r32(1e-40f32.to_bits()).classify(), Category::Subnormal);
}

#[test]
fn sign_operations_match_native_floats() {
    for x in [0.0f64, -0.0, 2.5, -2.5, f64::INFINITY, f64::NEG_INFINITY, -1e-310] {
        let v = n64(x.to_bits());
        assert_eq!((-v).raw(), (-x).to_bits());
        assert_eq!(v.abs().raw(), x.abs().to_bits());
        assert_eq!(v.signum().raw(), x.signum().to_bits());
    }
    let v = r32((-3.0f32).to_bits());
    assert_eq!((-v).raw(), 3.0f32.to_bits());
    assert_eq!(v.signum().raw(), (-1.0f32).to_bits());
}

#[test]
fn max_and_min_pick_the_right_value() {
    let a = n64(1.0f64.to_bits());
    let b = n64((-4.0f64).to_bits());
    assert_eq!(a.max(b).raw(), 1.0f64.to_bits());
    assert_eq!(a.min(b).raw(), (-4.0f64).to_bits());
    assert_eq!(b.max(a).raw(), 1.0f64.to_bits());
    assert_eq!(b.min(a).raw(), (-4.0f64).to_bits());
    let inf = n64(f64::INFINITY.to_bits());
    assert_eq!(a.max(inf).raw(), f64::INFINITY.to_bits());
}

#[test]
fn integer_decode_matches_num_traits() {
    for x in [1.0f64, -2.5, 0.0, -0.0, 1e-310, f64::MAX, f64::INFINITY] {
        assert_eq!(n64(x.to_bits()).integer_decode(), num_traits::Float::integer_decode(x));
    }
    for x in [1.0f32, -2.5, 0.0, 1e-40, f32::MAX] {
        assert_eq!(r32(x.to_bits()).integer_decode(), num_traits::Float::integer_decode(x));
    }
}

#[test]
fn raw_comparisons_follow_native_floats() {
    let v = r64(1.5f64.to_bits());
    for y in [1.0f64, 1.5, 2.0, f64::NAN] {
        let b = y.to_bits();
        assert_eq!(v.lt_raw(b), 1.5 < y);
        assert_eq!(v.le_raw(b), 1.5 <= y);
        assert_eq!(v.gt_raw(b), 1.5 > y);
        assert_eq!(v.ge_raw(b), 1.5 >= y);
        assert_eq!(v.eq_raw(b), 1.5 == y);
        assert_eq!(v.partial_cmp_raw(b), 1.5f64.partial_cmp(&y));
    }
}

#[test]
fn generators_draw_from_the_policy_classes() {
    let num = Any::<u64, NumChecker>::new().classes();
    assert!(num.infinite && !num.nan && num.positive && num.negative);
    assert!(num.normal && num.subnormal && num.zero);
    let fin = Any::<u64, FiniteChecker>::new().classes();
    assert!(!fin.infinite && !fin.nan && fin.zero && fin.subnormal);
}

#[test]
fn clone_and_as_ref_keep_the_raw_value() {
    let v: NoisyFloat<u64, NumChecker> = n64(7.0f64.to_bits());
    let w = v.clone();
    assert_eq!(*w.as_ref(), 7.0f64.to_bits());
    assert_eq!(r64(7.0f64.to_bits()).raw(), v.raw());
}
