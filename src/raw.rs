//! IEEE-754 binary floats held as their bit patterns.
//!
//! A raw float of either width is seen through two fields: the sign bit, and
//! the magnitude, that is the bits below the sign (the biased exponent field
//! followed by the stored mantissa). Classification, numeric equality and
//! numeric order are all functions of those two fields.
use vstd::prelude::*;

verus! {

/// A width of IEEE-754 binary float, represented by its bit pattern.
pub trait RawFloat: Copy + Sized {
    /// `2^m`, where `m` is the number of stored mantissa bits.
    spec fn unit() -> nat;

    /// The all-ones value of the biased exponent field.
    spec fn exponent_max() -> nat;

    /// The number of stored mantissa bits: `unit() == 2^mantissa_bits()`.
    spec fn mantissa_bits() -> nat;

    /// Whether the sign bit is set.
    spec fn sign_of(self) -> bool;

    /// The bits below the sign bit, as a number.
    spec fn magnitude_of(self) -> nat;

    /// The layout facts that generic code relies on.
    proof fn lemma_layout()
        ensures
            Self::unit() >= 2,
            3 <= Self::exponent_max() <= 0x7ff,
            Self::mantissa_bits() < Self::exponent_max() / 2,
            Self::unit() < Self::exponent_max() * Self::unit(),
            (Self::exponent_max() + 1) * Self::unit() == Self::exponent_max() * Self::unit()
                + Self::unit(),
            (Self::exponent_max() + 1) * Self::unit() <= 0x8000_0000_0000_0000,
    ;

    /// A magnitude fits below the sign bit.
    proof fn lemma_magnitude_bound(x: Self)
        ensures
            x.magnitude_of() < (Self::exponent_max() + 1) * Self::unit(),
    ;

    /// The raw value with the given sign bit and magnitude.
    spec fn compose(negative: bool, magnitude: nat) -> Self;

    /// `compose` sets the two fields it is given.
    proof fn lemma_compose(negative: bool, magnitude: nat)
        requires
            magnitude < (Self::exponent_max() + 1) * Self::unit(),
        ensures
            Self::compose(negative, magnitude).sign_of() == negative,
            Self::compose(negative, magnitude).magnitude_of() == magnitude,
    ;

    /// Two raw values with the same sign and magnitude are the same value.
    proof fn lemma_parts_determine(x: Self, y: Self)
        requires
            x.sign_of() == y.sign_of(),
            x.magnitude_of() == y.magnitude_of(),
        ensures
            x == y,
    ;

    fn unit_exec() -> (r: u64)
        ensures
            r == Self::unit(),
    ;

    fn exponent_max_exec() -> (r: u64)
        ensures
            r == Self::exponent_max(),
    ;

    fn mantissa_bits_exec() -> (r: u64)
        ensures
            r == Self::mantissa_bits(),
    ;

    fn sign(self) -> (r: bool)
        ensures
            r == self.sign_of(),
    ;

    fn magnitude(self) -> (r: u64)
        ensures
            r == self.magnitude_of(),
    ;

    /// The raw value with the given sign bit and magnitude.
    fn from_parts(negative: bool, magnitude: u64) -> (r: Self)
        requires
            magnitude < (Self::exponent_max() + 1) * Self::unit(),
        ensures
            r == Self::compose(negative, magnitude as nat),
            r.sign_of() == negative,
            r.magnitude_of() == magnitude,
    ;
}

/// The magnitude of an infinity: exponent field all ones, mantissa zero.
pub open spec fn inf_magnitude<F: RawFloat>() -> nat {
    F::exponent_max() * F::unit()
}

pub open spec fn exponent_field<F: RawFloat>(x: F) -> nat {
    x.magnitude_of() / F::unit()
}

pub open spec fn mantissa_field<F: RawFloat>(x: F) -> nat {
    x.magnitude_of() % F::unit()
}

pub open spec fn is_nan_spec<F: RawFloat>(x: F) -> bool {
    x.magnitude_of() > inf_magnitude::<F>()
}

pub open spec fn is_infinite_spec<F: RawFloat>(x: F) -> bool {
    x.magnitude_of() == inf_magnitude::<F>()
}

pub open spec fn is_finite_spec<F: RawFloat>(x: F) -> bool {
    x.magnitude_of() < inf_magnitude::<F>()
}

/// Either zero: `+0.0` or `-0.0`.
pub open spec fn is_zero_spec<F: RawFloat>(x: F) -> bool {
    x.magnitude_of() == 0
}

pub open spec fn is_normal_spec<F: RawFloat>(x: F) -> bool {
    0 < exponent_field(x) < F::exponent_max()
}

pub open spec fn is_subnormal_spec<F: RawFloat>(x: F) -> bool {
    exponent_field(x) == 0 && mantissa_field(x) != 0
}

/// Where a non-NaN value stands on the number line. IEEE-754 lays out the
/// magnitudes of one sign in increasing order, so numeric order on non-NaN
/// values is the order of this key, and both zeros get the key 0.
pub open spec fn order_key<F: RawFloat>(x: F) -> int {
    if x.sign_of() {
        -(x.magnitude_of() as int)
    } else {
        x.magnitude_of() as int
    }
}

/// IEEE-754 equality: false when either side is NaN, `+0.0 == -0.0`.
pub open spec fn num_eq<F: RawFloat>(a: F, b: F) -> bool {
    !is_nan_spec(a) && !is_nan_spec(b) && order_key(a) == order_key(b)
}

/// IEEE-754 less-than: false when either side is NaN.
pub open spec fn num_lt<F: RawFloat>(a: F, b: F) -> bool {
    !is_nan_spec(a) && !is_nan_spec(b) && order_key(a) < order_key(b)
}

/// IEEE-754 three-way comparison: `None` when either side is NaN.
pub open spec fn num_cmp<F: RawFloat>(a: F, b: F) -> Option<core::cmp::Ordering> {
    if is_nan_spec(a) || is_nan_spec(b) {
        None
    } else if order_key(a) < order_key(b) {
        Some(core::cmp::Ordering::Less)
    } else if order_key(a) == order_key(b) {
        Some(core::cmp::Ordering::Equal)
    } else {
        Some(core::cmp::Ordering::Greater)
    }
}

/// The classes of IEEE-754 values, as `core::num::FpCategory` names them.
#[derive(Clone, Copy, Debug, PartialEq, Eq, Structural)]
pub enum Category {
    Nan,
    Infinite,
    Zero,
    Subnormal,
    Normal,
}

pub open spec fn category_spec<F: RawFloat>(x: F) -> Category {
    if is_nan_spec(x) {
        Category::Nan
    } else if is_infinite_spec(x) {
        Category::Infinite
    } else if is_zero_spec(x) {
        Category::Zero
    } else if exponent_field(x) == 0 {
        Category::Subnormal
    } else {
        Category::Normal
    }
}

/// The magnitude of an infinity, computed.
pub fn infinity_magnitude<F: RawFloat>() -> (r: u64)
    ensures
        r == inf_magnitude::<F>(),
        r < 0x8000_0000_0000_0000,
{
    proof {
        F::lemma_layout();
    }
    F::exponent_max_exec() * F::unit_exec()
}

pub fn is_nan<F: RawFloat>(x: F) -> (r: bool)
    ensures
        r == is_nan_spec(x),
{
    x.magnitude() > infinity_magnitude::<F>()
}

pub fn is_infinite<F: RawFloat>(x: F) -> (r: bool)
    ensures
        r == is_infinite_spec(x),
{
    x.magnitude() == infinity_magnitude::<F>()
}

pub fn is_finite<F: RawFloat>(x: F) -> (r: bool)
    ensures
        r == is_finite_spec(x),
{
    x.magnitude() < infinity_magnitude::<F>()
}

pub fn is_zero<F: RawFloat>(x: F) -> (r: bool)
    ensures
        r == is_zero_spec(x),
{
    x.magnitude() == 0
}

pub fn is_normal<F: RawFloat>(x: F) -> (r: bool)
    ensures
        r == is_normal_spec(x),
{
    proof {
        F::lemma_layout();
        F::lemma_magnitude_bound(x);
    }
    let e = x.magnitude() / F::unit_exec();
    0 < e && e < F::exponent_max_exec()
}

pub fn classify<F: RawFloat>(x: F) -> (r: Category)
    ensures
        r == category_spec(x),
{
    proof {
        F::lemma_layout();
        F::lemma_magnitude_bound(x);
    }
    if is_nan(x) {
        Category::Nan
    } else if is_infinite(x) {
        Category::Infinite
    } else if is_zero(x) {
        Category::Zero
    } else if x.magnitude() / F::unit_exec() == 0 {
        Category::Subnormal
    } else {
        Category::Normal
    }
}

/// IEEE-754 `==` on raw values.
pub fn num_eq_exec<F: RawFloat>(a: F, b: F) -> (r: bool)
    ensures
        r == num_eq(a, b),
{
    if is_nan(a) || is_nan(b) {
        false
    } else if a.magnitude() == 0 && b.magnitude() == 0 {
        true
    } else {
        a.sign() == b.sign() && a.magnitude() == b.magnitude()
    }
}

/// IEEE-754 `<` on raw values.
pub fn num_lt_exec<F: RawFloat>(a: F, b: F) -> (r: bool)
    ensures
        r == num_lt(a, b),
{
    if is_nan(a) || is_nan(b) {
        false
    } else {
        let (ma, mb) = (a.magnitude(), b.magnitude());
        match (a.sign(), b.sign()) {
            (false, false) => ma < mb,
            (true, true) => mb < ma,
            (true, false) => !(ma == 0 && mb == 0),
            (false, true) => false,
        }
    }
}

/// IEEE-754 three-way comparison on raw values.
pub fn num_cmp_exec<F: RawFloat>(a: F, b: F) -> (r: Option<core::cmp::Ordering>)
    ensures
        r == num_cmp(a, b),
{
    if is_nan(a) || is_nan(b) {
        None
    } else if num_lt_exec(a, b) {
        Some(core::cmp::Ordering::Less)
    } else if num_eq_exec(a, b) {
        Some(core::cmp::Ordering::Equal)
    } else {
        Some(core::cmp::Ordering::Greater)
    }
}

/// The magnitude of `1.0`: the exponent field holds the bias.
pub open spec fn one_magnitude<F: RawFloat>() -> nat {
    (F::exponent_max() / 2) * F::unit()
}

/// The magnitude of the machine epsilon `2^-m`, for `m` mantissa bits.
pub open spec fn epsilon_magnitude<F: RawFloat>() -> nat {
    (F::exponent_max() / 2 - F::mantissa_bits()) as nat * F::unit()
}

/// The magnitude of the canonical quiet NaN: top mantissa bit set.
pub open spec fn nan_magnitude<F: RawFloat>() -> nat {
    inf_magnitude::<F>() + F::unit() / 2
}

/// The same value with the sign bit flipped.
pub open spec fn negate_spec<F: RawFloat>(x: F) -> F {
    F::compose(!x.sign_of(), x.magnitude_of())
}

/// The same value with the sign bit cleared.
pub open spec fn abs_spec<F: RawFloat>(x: F) -> F {
    F::compose(false, x.magnitude_of())
}

/// `1.0` carrying the sign of `x`; the canonical NaN for a NaN.
pub open spec fn signum_spec<F: RawFloat>(x: F) -> F {
    if is_nan_spec(x) {
        F::compose(false, nan_magnitude::<F>())
    } else {
        F::compose(x.sign_of(), one_magnitude::<F>())
    }
}

/// The larger of two values; a NaN gives way to the other argument.
pub open spec fn max_spec<F: RawFloat>(a: F, b: F) -> F {
    if is_nan_spec(a) || num_lt(a, b) {
        b
    } else {
        a
    }
}

/// The smaller of two values; a NaN gives way to the other argument.
pub open spec fn min_spec<F: RawFloat>(a: F, b: F) -> F {
    if is_nan_spec(a) || num_lt(b, a) {
        b
    } else {
        a
    }
}

/// `x` as an integer mantissa, a power-of-two exponent and a sign, with
/// `x == sign * mantissa * 2^exponent` for finite `x`.
pub open spec fn integer_decode_spec<F: RawFloat>(x: F) -> (u64, i16, i8) {
    let e = exponent_field(x);
    let m = mantissa_field(x);
    let mantissa = if e == 0 {
        2 * m
    } else {
        m + F::unit()
    };
    let exponent = e - (F::exponent_max() / 2 + F::mantissa_bits());
    (mantissa as u64, exponent as i16, if x.sign_of() {
        -1i8
    } else {
        1i8
    })
}

/// Each raw value falls in exactly one class.
pub proof fn lemma_classes<F: RawFloat>(x: F)
    ensures
        is_zero_spec(x) ==> exponent_field(x) == 0 && mantissa_field(x) == 0,
        exponent_field(x) == 0 && mantissa_field(x) == 0 ==> is_zero_spec(x),
        exponent_field(x) == F::exponent_max() <==> (is_infinite_spec(x) || is_nan_spec(x)),
        exponent_field(x) <= F::exponent_max(),
{
    F::lemma_layout();
    F::lemma_magnitude_bound(x);
    let u = F::unit();
    let mag = x.magnitude_of();
    let emax = F::exponent_max();
    vstd::arithmetic::div_mod::lemma_fundamental_div_mod(mag as int, u as int);
    assert(mag / u == 0 && mag % u == 0 ==> mag == 0) by (nonlinear_arith)
        requires
            mag == u * (mag / u) + mag % u,
    ;
    assert(mag == 0 ==> mag / u == 0 && mag % u == 0) by (nonlinear_arith)
        requires
            u > 0,
    ;
    assert(mag / u <= emax) by (nonlinear_arith)
        requires
            mag < (emax + 1) * u,
            u > 0,
    ;
    assert(mag / u == emax <==> mag >= emax * u) by (nonlinear_arith)
        requires
            mag < (emax + 1) * u,
            u > 0,
            mag == u * (mag / u) + mag % u,
            mag % u < u,
    ;
}

/// `e` times the unit: the magnitude whose exponent field is `e` and whose
/// mantissa is zero.
pub fn scaled_magnitude<F: RawFloat>(e: u64) -> (r: u64)
    requires
        e <= F::exponent_max(),
    ensures
        r == e * F::unit(),
        r < (F::exponent_max() + 1) * F::unit(),
{
    proof {
        F::lemma_layout();
        assert(e * F::unit() <= F::exponent_max() * F::unit()) by (nonlinear_arith)
            requires
                e <= F::exponent_max(),
        ;
    }
    e * F::unit_exec()
}

/// Splits a raw value as `integer_decode_spec` does.
pub fn integer_decode<F: RawFloat>(x: F) -> (r: (u64, i16, i8))
    ensures
        r == integer_decode_spec(x),
{
    proof {
        F::lemma_layout();
        F::lemma_magnitude_bound(x);
        let u = F::unit();
        let mag = x.magnitude_of();
        assert(mag / u <= F::exponent_max()) by (nonlinear_arith)
            requires
                mag < (F::exponent_max() + 1) * u,
                u > 0,
        ;
    }
    let unit = F::unit_exec();
    let e = x.magnitude() / unit;
    let m = x.magnitude() % unit;
    let mantissa = if e == 0 {
        2 * m
    } else {
        m + unit
    };
    let offset = F::exponent_max_exec() / 2 + F::mantissa_bits_exec();
    let exponent = (e as i16) - (offset as i16);
    let sign: i8 = if x.sign() {
        -1
    } else {
        1
    };
    (mantissa, exponent, sign)
}

impl RawFloat for u64 {
    open spec fn unit() -> nat {
        0x10_0000_0000_0000
    }

    open spec fn exponent_max() -> nat {
        0x7ff
    }

    open spec fn mantissa_bits() -> nat {
        52
    }

    open spec fn sign_of(self) -> bool {
        self >= 0x8000_0000_0000_0000
    }

    open spec fn magnitude_of(self) -> nat {
        (self % 0x8000_0000_0000_0000) as nat
    }

    open spec fn compose(negative: bool, magnitude: nat) -> Self {
        if negative {
            (magnitude + 0x8000_0000_0000_0000) as u64
        } else {
            magnitude as u64
        }
    }

    proof fn lemma_compose(negative: bool, magnitude: nat) {
    }

    proof fn lemma_layout() {
    }

    proof fn lemma_magnitude_bound(x: Self) {
    }

    proof fn lemma_parts_determine(x: Self, y: Self) {
    }

    fn unit_exec() -> (r: u64) {
        0x10_0000_0000_0000
    }

    fn exponent_max_exec() -> (r: u64) {
        0x7ff
    }

    fn mantissa_bits_exec() -> (r: u64) {
        52
    }

    fn sign(self) -> (r: bool) {
        self >= 0x8000_0000_0000_0000
    }

    fn magnitude(self) -> (r: u64) {
        self % 0x8000_0000_0000_0000
    }

    fn from_parts(negative: bool, magnitude: u64) -> (r: Self) {
        if negative {
            magnitude + 0x8000_0000_0000_0000
        } else {
            magnitude
        }
    }
}

impl RawFloat for u32 {
    open spec fn unit() -> nat {
        0x80_0000
    }

    open spec fn exponent_max() -> nat {
        0xff
    }

    open spec fn mantissa_bits() -> nat {
        23
    }

    open spec fn sign_of(self) -> bool {
        self >= 0x8000_0000
    }

    open spec fn magnitude_of(self) -> nat {
        (self % 0x8000_0000) as nat
    }

    open spec fn compose(negative: bool, magnitude: nat) -> Self {
        if negative {
            (magnitude + 0x8000_0000) as u32
        } else {
            magnitude as u32
        }
    }

    proof fn lemma_compose(negative: bool, magnitude: nat) {
    }

    proof fn lemma_layout() {
    }

    proof fn lemma_magnitude_bound(x: Self) {
    }

    proof fn lemma_parts_determine(x: Self, y: Self) {
    }

    fn unit_exec() -> (r: u64) {
        0x80_0000
    }

    fn exponent_max_exec() -> (r: u64) {
        0xff
    }

    fn mantissa_bits_exec() -> (r: u64) {
        23
    }

    fn sign(self) -> (r: bool) {
        self >= 0x8000_0000
    }

    fn magnitude(self) -> (r: u64) {
        (self % 0x8000_0000) as u64
    }

    fn from_parts(negative: bool, magnitude: u64) -> (r: Self) {
        if negative {
            magnitude as u32 + 0x8000_0000
        } else {
            magnitude as u32
        }
    }
}

} // verus!
