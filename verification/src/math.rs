//! Numbers and vectors as the renderer's control logic sees them.
//!
//! Radiometric arithmetic is done by the caller. What is decided here needs
//! only the order and the sign of a number, and both can be read off its
//! IEEE 754 binary64 encoding with integer operations alone. A [`Scalar`]
//! therefore holds the 64 bits of the encoding and nothing else.

use vstd::arithmetic::power2::{
    lemma2_to64, lemma2_to64_rest, lemma_pow2_adds, lemma_pow2_pos, lemma_pow2_strictly_increases,
    lemma_pow2_unfold, pow2,
};
use vstd::prelude::*;

verus! {

/// The bit that holds the sign of an encoded number.
pub const SIGN_BIT: u64 = 0x8000_0000_0000_0000;

/// The encoding of positive infinity. Every larger magnitude is a NaN.
pub const INFINITY_BITS: u64 = 0x7ff0_0000_0000_0000;

/// The encoding of the largest finite number.
pub const MAX_BITS: u64 = 0x7fef_ffff_ffff_ffff;

/// Two to the power of 52, the number of fractions that an encoding can
/// hold.
pub const FRACTIONS: u64 = 0x10_0000_0000_0000;

/// The encoding of `0.5`.
pub const HALF_BITS: u64 = 0x3fe0_0000_0000_0000;

/// The encoding of `1.0`.
pub const ONE_BITS: u64 = 0x3ff0_0000_0000_0000;

/// The encoding of `1.5`.
pub const ONE_AND_HALF_BITS: u64 = 0x3ff8_0000_0000_0000;

/// A binary64 number, held by its encoding.
#[derive(Clone, Copy, Debug)]
pub struct Scalar {
    pub bits: u64,
}

impl Scalar {
    /// The encoding without its sign bit.
    pub open spec fn magnitude(self) -> int {
        if self.bits >= SIGN_BIT {
            self.bits - SIGN_BIT
        } else {
            self.bits as int
        }
    }

    /// Whether the sign bit is set.
    pub open spec fn spec_is_sign_negative(self) -> bool {
        self.bits >= SIGN_BIT
    }

    /// Whether the encoding is that of a NaN.
    pub open spec fn spec_is_nan(self) -> bool {
        self.magnitude() > INFINITY_BITS
    }

    /// An integer that orders the numbers that are not NaN as their values
    /// are ordered, which [`lemma_rank_orders_values`] proves: the
    /// magnitude, negated under a set sign bit. Both zeros have rank 0.
    pub open spec fn rank(self) -> int {
        if self.bits >= SIGN_BIT {
            -self.magnitude()
        } else {
            self.magnitude()
        }
    }

    /// The exponent field of the encoding.
    pub open spec fn exponent(self) -> int {
        self.magnitude() / (FRACTIONS as int)
    }

    /// The fraction field of the encoding.
    pub open spec fn fraction(self) -> int {
        self.magnitude() % (FRACTIONS as int)
    }

    /// The significand: the fraction, with the leading bit that a normal
    /// number leaves out.
    pub open spec fn significand(self) -> int {
        if self.exponent() == 0 {
            self.fraction()
        } else {
            FRACTIONS + self.fraction()
        }
    }

    /// The power of two by which the significand is scaled, counted from
    /// that of the smallest numbers.
    pub open spec fn binade(self) -> nat {
        if self.exponent() == 0 {
            0
        } else {
            (self.exponent() - 1) as nat
        }
    }

    /// The size of a number that is not a NaN, in units of the smallest
    /// positive number, which is two to the power of -1074. An infinity
    /// counts as the power of two that follows the largest finite number.
    pub open spec fn size(self) -> int {
        self.significand() * pow2(self.binade())
    }

    /// The value of a number that is not a NaN, in units of the smallest
    /// positive number: its size, negative under a set sign bit.
    pub open spec fn value(self) -> int {
        if self.bits >= SIGN_BIT {
            -self.size()
        } else {
            self.size()
        }
    }

    /// Whether the number is `+0.0` or `-0.0`.
    pub open spec fn spec_is_zero(self) -> bool {
        self.magnitude() == 0
    }

    /// `self < other` as IEEE 754 has it: false as soon as one side is a NaN.
    pub open spec fn spec_lt(self, other: Scalar) -> bool {
        !self.spec_is_nan() && !other.spec_is_nan() && self.rank() < other.rank()
    }

    /// `self <= other` as IEEE 754 has it.
    pub open spec fn spec_le(self, other: Scalar) -> bool {
        !self.spec_is_nan() && !other.spec_is_nan() && self.rank() <= other.rank()
    }

    /// `self > other` as IEEE 754 has it.
    pub open spec fn spec_gt(self, other: Scalar) -> bool {
        other.spec_lt(self)
    }

    /// `self >= other` as IEEE 754 has it.
    pub open spec fn spec_ge(self, other: Scalar) -> bool {
        other.spec_le(self)
    }

    /// `self == other` as IEEE 754 has it: the zeros are equal, a NaN equals
    /// nothing.
    pub open spec fn spec_equals(self, other: Scalar) -> bool {
        !self.spec_is_nan() && !other.spec_is_nan() && self.rank() == other.rank()
    }

    /// The number with its sign bit flipped.
    pub open spec fn spec_neg(self) -> Scalar {
        if self.bits >= SIGN_BIT {
            Scalar { bits: (self.bits - SIGN_BIT) as u64 }
        } else {
            Scalar { bits: (self.bits + SIGN_BIT) as u64 }
        }
    }

    /// The number with its sign bit cleared.
    pub open spec fn spec_abs(self) -> Scalar {
        Scalar { bits: self.magnitude() as u64 }
    }

    /// The smaller of two numbers; where exactly one is a NaN, the other;
    /// where neither is smaller, `self`.
    pub open spec fn spec_min(self, other: Scalar) -> Scalar {
        if self.spec_is_nan() {
            other
        } else if other.spec_lt(self) {
            other
        } else {
            self
        }
    }

    /// The larger of two numbers; where exactly one is a NaN, the other;
    /// where neither is larger, `self`.
    pub open spec fn spec_max(self, other: Scalar) -> Scalar {
        if self.spec_is_nan() {
            other
        } else if self.spec_lt(other) {
            other
        } else {
            self
        }
    }

    /// The number with the given encoding.
    pub fn from_bits(bits: u64) -> (r: Scalar)
        ensures
            r.bits == bits,
    {
        Scalar { bits }
    }

    /// The encoding of the number.
    pub fn to_bits(self) -> (r: u64)
        ensures
            r == self.bits,
    {
        self.bits
    }

    /// `+0.0`.
    pub fn zero() -> (r: Scalar)
        ensures
            r.bits == 0,
    {
        Scalar { bits: 0 }
    }

    /// `0.5`.
    pub fn half() -> (r: Scalar)
        ensures
            r.bits == HALF_BITS,
    {
        Scalar { bits: HALF_BITS }
    }

    /// `1.0`.
    pub fn one() -> (r: Scalar)
        ensures
            r.bits == ONE_BITS,
    {
        Scalar { bits: ONE_BITS }
    }

    /// The largest finite number.
    pub fn max_value() -> (r: Scalar)
        ensures
            r.bits == MAX_BITS,
    {
        Scalar { bits: MAX_BITS }
    }

    fn magnitude_bits(self) -> (r: u64)
        ensures
            r == self.magnitude(),
            r < SIGN_BIT,
    {
        if self.bits >= SIGN_BIT {
            self.bits - SIGN_BIT
        } else {
            self.bits
        }
    }

    #[verifier::when_used_as_spec(spec_is_sign_negative)]
    pub fn is_sign_negative(self) -> (r: bool)
        ensures
            r == self.spec_is_sign_negative(),
    {
        self.bits >= SIGN_BIT
    }

    #[verifier::when_used_as_spec(spec_is_nan)]
    pub fn is_nan(self) -> (r: bool)
        ensures
            r == self.spec_is_nan(),
    {
        self.magnitude_bits() > INFINITY_BITS
    }

    #[verifier::when_used_as_spec(spec_is_zero)]
    pub fn is_zero(self) -> (r: bool)
        ensures
            r == self.spec_is_zero(),
    {
        self.magnitude_bits() == 0
    }

    #[verifier::when_used_as_spec(spec_lt)]
    pub fn lt(self, other: Scalar) -> (r: bool)
        ensures
            r == self.spec_lt(other),
    {
        if self.is_nan() || other.is_nan() {
            return false;
        }
        let a = self.magnitude_bits();
        let b = other.magnitude_bits();
        if self.bits >= SIGN_BIT {
            if other.bits >= SIGN_BIT {
                b < a
            } else {
                a != 0 || b != 0
            }
        } else {
            if other.bits >= SIGN_BIT {
                false
            } else {
                a < b
            }
        }
    }

    #[verifier::when_used_as_spec(spec_le)]
    pub fn le(self, other: Scalar) -> (r: bool)
        ensures
            r == self.spec_le(other),
    {
        if self.is_nan() || other.is_nan() {
            return false;
        }
        !other.lt(self)
    }

    #[verifier::when_used_as_spec(spec_gt)]
    pub fn gt(self, other: Scalar) -> (r: bool)
        ensures
            r == self.spec_gt(other),
    {
        other.lt(self)
    }

    #[verifier::when_used_as_spec(spec_ge)]
    pub fn ge(self, other: Scalar) -> (r: bool)
        ensures
            r == self.spec_ge(other),
    {
        other.le(self)
    }

    #[verifier::when_used_as_spec(spec_equals)]
    pub fn equals(self, other: Scalar) -> (r: bool)
        ensures
            r == self.spec_equals(other),
    {
        if self.is_nan() || other.is_nan() {
            return false;
        }
        let a = self.magnitude_bits();
        let b = other.magnitude_bits();
        if (self.bits >= SIGN_BIT) == (other.bits >= SIGN_BIT) {
            a == b
        } else {
            a == 0 && b == 0
        }
    }

    #[verifier::when_used_as_spec(spec_neg)]
    pub fn neg(self) -> (r: Scalar)
        ensures
            r == self.spec_neg(),
    {
        if self.bits >= SIGN_BIT {
            Scalar { bits: self.bits - SIGN_BIT }
        } else {
            Scalar { bits: self.bits + SIGN_BIT }
        }
    }

    #[verifier::when_used_as_spec(spec_abs)]
    pub fn abs(self) -> (r: Scalar)
        ensures
            r == self.spec_abs(),
    {
        Scalar { bits: self.magnitude_bits() }
    }

    #[verifier::when_used_as_spec(spec_min)]
    pub fn min(self, other: Scalar) -> (r: Scalar)
        ensures
            r == self.spec_min(other),
    {
        if self.is_nan() {
            other
        } else if other.lt(self) {
            other
        } else {
            self
        }
    }

    #[verifier::when_used_as_spec(spec_max)]
    pub fn max(self, other: Scalar) -> (r: Scalar)
        ensures
            r == self.spec_max(other),
    {
        if self.is_nan() {
            other
        } else if self.lt(other) {
            other
        } else {
            self
        }
    }
}

/// Of two numbers that are not NaN, the one with the larger encoding
/// without sign is the larger in size.
pub proof fn lemma_size_increases(a: Scalar, b: Scalar)
    requires
        a.magnitude() < b.magnitude() <= INFINITY_BITS,
    ensures
        0 <= a.size() < b.size(),
{
    let p1 = pow2(a.binade());
    let p2 = pow2(b.binade());
    let s1 = a.significand();
    let s2 = b.significand();
    lemma_pow2_pos(a.binade());
    lemma_pow2_pos(b.binade());
    assert(0 <= s1 * p1) by (nonlinear_arith)
        requires
            0 <= s1,
            0 < p1,
    ;
    if a.exponent() == b.exponent() {
        assert(s1 * p1 < s2 * p2) by (nonlinear_arith)
            requires
                0 <= s1 < s2,
                0 < p1,
                p1 == p2,
        ;
    } else if a.binade() == b.binade() {
        assert(s1 * p1 < s2 * p2) by (nonlinear_arith)
            requires
                0 <= s1 < s2,
                0 < p1,
                p1 == p2,
        ;
    } else {
        let below = (b.binade() - 1) as nat;
        lemma_pow2_unfold(b.binade());
        if a.binade() < below {
            lemma_pow2_strictly_increases(a.binade(), below);
        }
        assert(s1 * p1 < s2 * p2) by (nonlinear_arith)
            requires
                0 <= s1 < 2 * 0x10_0000_0000_0000,
                0x10_0000_0000_0000 <= s2,
                0 < p1,
                2 * p1 <= p2,
        ;
    }
}

/// The rank orders the numbers that are not NaN as their values are
/// ordered: of two such numbers the one of lower rank is the smaller, and
/// numbers of one rank are equal in value.
pub proof fn lemma_rank_orders_values(a: Scalar, b: Scalar)
    requires
        !a.spec_is_nan(),
        !b.spec_is_nan(),
    ensures
        (a.rank() < b.rank()) == (a.value() < b.value()),
        (a.rank() == b.rank()) == (a.value() == b.value()),
        a.spec_lt(b) == (a.value() < b.value()),
        a.spec_le(b) == (a.value() <= b.value()),
        a.spec_equals(b) == (a.value() == b.value()),
        a.spec_is_zero() == (a.value() == 0),
{
    let zero = Scalar { bits: 0 };
    assert(zero.size() == 0) by {
        lemma_pow2_pos(0);
        assert(zero.significand() == 0);
        assert(0 * pow2(0) == 0);
    }
    if a.magnitude() > 0 {
        lemma_size_increases(zero, a.spec_abs());
        assert(a.spec_abs().size() == a.size());
    } else {
        assert(a.size() == 0) by {
            assert(a.significand() == 0);
            assert(0 * pow2(a.binade()) == 0);
        }
    }
    if b.magnitude() > 0 {
        lemma_size_increases(zero, b.spec_abs());
        assert(b.spec_abs().size() == b.size());
    } else {
        assert(b.size() == 0) by {
            assert(b.significand() == 0);
            assert(0 * pow2(b.binade()) == 0);
        }
    }
    if a.magnitude() < b.magnitude() {
        lemma_size_increases(a.spec_abs(), b.spec_abs());
        assert(a.spec_abs().size() == a.size());
        assert(b.spec_abs().size() == b.size());
    } else if b.magnitude() < a.magnitude() {
        lemma_size_increases(b.spec_abs(), a.spec_abs());
        assert(a.spec_abs().size() == a.size());
        assert(b.spec_abs().size() == b.size());
    } else {
        assert(a.size() == b.size());
    }
}

/// The constants have the values that they are named after: one is two to
/// the power of 1074 of the smallest positive number, a half is half of
/// that and one and a half three halves of it.
pub proof fn lemma_values_of_constants()
    ensures
        (Scalar { bits: 0 }).value() == 0,
        (Scalar { bits: ONE_BITS }).value() == pow2(1074),
        2 * (Scalar { bits: HALF_BITS }).value() == pow2(1074),
        2 * (Scalar { bits: ONE_AND_HALF_BITS }).value() == 3 * pow2(1074),
        (Scalar { bits: MAX_BITS }).value() == (2 * FRACTIONS - 1) * pow2(2045),
        (Scalar { bits: INFINITY_BITS }).value() == 2 * FRACTIONS * pow2(2045),
{
    lemma2_to64();
    lemma2_to64_rest();
    let one = Scalar { bits: ONE_BITS };
    let half = Scalar { bits: HALF_BITS };
    let more = Scalar { bits: ONE_AND_HALF_BITS };
    let max = Scalar { bits: MAX_BITS };
    let inf = Scalar { bits: INFINITY_BITS };
    assert((Scalar { bits: 0 }).significand() == 0);
    assert(0 * pow2(0) == 0);
    assert(one.exponent() == 1023 && one.fraction() == 0);
    assert(half.exponent() == 1022 && half.fraction() == 0);
    assert(more.exponent() == 1023 && more.fraction() == 0x8_0000_0000_0000);
    assert(max.exponent() == 2046 && max.fraction() == FRACTIONS - 1);
    assert(inf.exponent() == 2047 && inf.fraction() == 0);
    lemma_pow2_adds(52, 1022);
    lemma_pow2_adds(52, 1021);
    lemma_pow2_adds(1, 1021);
    lemma_pow2_adds(1, 1073);
    lemma_pow2_adds(51, 1022);
    lemma_pow2_adds(1, 2045);
    assert(pow2(52) == FRACTIONS);
    assert(pow2(51) == 0x8_0000_0000_0000);
    assert(one.value() == FRACTIONS * pow2(1022));
    assert(half.value() == FRACTIONS * pow2(1021));
    assert(more.value() == (FRACTIONS + 0x8_0000_0000_0000) * pow2(1022));
    assert(2 * half.value() == pow2(1074)) by (nonlinear_arith)
        requires
            half.value() == pow2(52) * pow2(1021),
            pow2(1) * pow2(1021) == pow2(1022),
            pow2(52) * pow2(1022) == pow2(1074),
            pow2(1) == 2,
    ;
    assert(2 * more.value() == 3 * pow2(1074)) by (nonlinear_arith)
        requires
            more.value() == (pow2(52) + pow2(51)) * pow2(1022),
            2 * pow2(51) == pow2(52),
            pow2(52) * pow2(1022) == pow2(1074),
    ;
    assert(inf.value() == 2 * FRACTIONS * pow2(2045)) by (nonlinear_arith)
        requires
            inf.value() == FRACTIONS * pow2(2046),
            pow2(1) * pow2(2045) == pow2(2046),
            pow2(1) == 2,
    ;
}

/// Negation changes the sign of the rank and nothing else, so it reverses
/// the order.
pub proof fn lemma_neg_reverses(a: Scalar, b: Scalar)
    ensures
        a.spec_neg().rank() == -a.rank(),
        a.spec_neg().spec_is_nan() == a.spec_is_nan(),
        a.spec_neg().spec_neg() == a,
        a.spec_lt(b) == b.spec_neg().spec_lt(a.spec_neg()),
{
}

/// Among the numbers that are not NaN the order is total: of two such
/// numbers exactly one of `<`, `==`, `>` holds.
pub proof fn lemma_order_total(a: Scalar, b: Scalar)
    requires
        !a.spec_is_nan(),
        !b.spec_is_nan(),
    ensures
        a.spec_lt(b) || a.spec_equals(b) || a.spec_gt(b),
        !(a.spec_lt(b) && a.spec_equals(b)),
        !(a.spec_lt(b) && a.spec_gt(b)),
        !(a.spec_equals(b) && a.spec_gt(b)),
        a.spec_le(b) == (a.spec_lt(b) || a.spec_equals(b)),
{
}

/// The order is transitive.
pub proof fn lemma_order_transitive(a: Scalar, b: Scalar, c: Scalar)
    requires
        a.spec_le(b),
        b.spec_le(c),
    ensures
        a.spec_le(c),
        a.spec_lt(b) || b.spec_lt(c) ==> a.spec_lt(c),
{
}

/// Restricting a value to an interval.
pub trait Clamp: Sized {
    /// Whether `min` and `max` bound an interval: `min <= max`.
    spec fn bounds(min: Self, max: Self) -> bool;

    /// The value restricted to `[min, max]`.
    spec fn clamped(self, min: Self, max: Self) -> Self;

    /// `min` where the value lies below it, `max` where it lies above, the
    /// value itself otherwise.
    fn clamp(&self, min: Self, max: Self) -> (r: Self)
        requires
            Self::bounds(min, max),
        ensures
            r == self.clamped(min, max),
    ;
}

impl Clamp for Scalar {
    open spec fn bounds(min: Scalar, max: Scalar) -> bool {
        min.spec_le(max)
    }

    open spec fn clamped(self, min: Scalar, max: Scalar) -> Scalar {
        if self.spec_lt(min) {
            min
        } else if self.spec_gt(max) {
            max
        } else {
            self
        }
    }

    fn clamp(&self, min: Scalar, max: Scalar) -> (r: Scalar) {
        if self.lt(min) {
            min
        } else if self.gt(max) {
            max
        } else {
            *self
        }
    }
}

/// A clamped number lies in the interval, unless it is a NaN, which stays as
/// it is; a number inside the interval is not changed.
pub proof fn lemma_clamp_in_bounds(x: Scalar, min: Scalar, max: Scalar)
    requires
        min.spec_le(max),
    ensures
        x.spec_is_nan() ==> x.clamped(min, max) == x,
        !x.spec_is_nan() ==> min.spec_le(x.clamped(min, max)) && x.clamped(min, max).spec_le(max),
        min.spec_le(x) && x.spec_le(max) ==> x.clamped(min, max) == x,
{
}

/// A direction or a displacement in space, or the three channels of a colour.
#[derive(Clone, Copy, Debug)]
pub struct Vector {
    pub x: Scalar,
    pub y: Scalar,
    pub z: Scalar,
}

/// A unit vector that stands on a surface.
pub type Normal = Vector;

impl Vector {
    /// Whether every component is a zero.
    pub open spec fn spec_is_zero(self) -> bool {
        self.x.spec_is_zero() && self.y.spec_is_zero() && self.z.spec_is_zero()
    }

    /// The vector with the sign of every component flipped.
    pub open spec fn spec_neg(self) -> Vector {
        Vector { x: self.x.spec_neg(), y: self.y.spec_neg(), z: self.z.spec_neg() }
    }

    pub fn new(x: Scalar, y: Scalar, z: Scalar) -> (r: Vector)
        ensures
            r == (Vector { x, y, z }),
    {
        Vector { x, y, z }
    }

    /// The vector whose components are all `+0.0`.
    pub fn zero() -> (r: Vector)
        ensures
            r == (Vector { x: Scalar { bits: 0 }, y: Scalar { bits: 0 }, z: Scalar { bits: 0 } }),
            r.spec_is_zero(),
    {
        Vector { x: Scalar::zero(), y: Scalar::zero(), z: Scalar::zero() }
    }

    /// The test that the integrators use to skip work that cannot
    /// contribute: equality with the zero vector.
    #[verifier::when_used_as_spec(spec_is_zero)]
    pub fn is_zero(self) -> (r: bool)
        ensures
            r == self.spec_is_zero(),
    {
        self.x.is_zero() && self.y.is_zero() && self.z.is_zero()
    }

    #[verifier::when_used_as_spec(spec_neg)]
    pub fn neg(self) -> (r: Vector)
        ensures
            r == self.spec_neg(),
    {
        Vector { x: self.x.neg(), y: self.y.neg(), z: self.z.neg() }
    }
}

/// The plane in which the first of the two vectors is built that make a
/// frame with a given one.
#[derive(Clone, Copy, Debug, PartialEq, Eq, Structural)]
pub enum TangentPlane {
    /// The plane of the x and the z axis.
    Xz,
    /// The plane of the y and the z axis.
    Yz,
}

/// The plane in which to build a vector at right angles to `v1`: of its x
/// and its y component the one that is larger in size is used, so that the
/// vector that is built does not vanish for a `v1` along an axis.
pub fn coordinate_system(v1: &Vector) -> (r: TangentPlane)
    ensures
        r == if v1.x.spec_abs().spec_gt(v1.y.spec_abs()) {
            TangentPlane::Xz
        } else {
            TangentPlane::Yz
        },
{
    if v1.x.abs().gt(v1.y.abs()) {
        TangentPlane::Xz
    } else {
        TangentPlane::Yz
    }
}

/// Of a vector that is not zero and has no NaN, one of the two components
/// that [`coordinate_system`] builds on is not zero: the larger of x and y
/// in the plane that it chooses, or else z.
pub proof fn lemma_tangent_plane_is_safe(v1: Vector)
    requires
        !v1.x.spec_is_nan(),
        !v1.y.spec_is_nan(),
        !v1.spec_is_zero(),
    ensures
        v1.x.spec_abs().spec_gt(v1.y.spec_abs()) ==> !v1.x.spec_is_zero(),
        !v1.x.spec_abs().spec_gt(v1.y.spec_abs()) ==> !v1.y.spec_is_zero() || !v1.z.spec_is_zero(),
{
}

/// A position in space.
#[derive(Clone, Copy, Debug)]
pub struct Point {
    pub x: Scalar,
    pub y: Scalar,
    pub z: Scalar,
}

impl Point {
    pub fn new(x: Scalar, y: Scalar, z: Scalar) -> (r: Point)
        ensures
            r == (Point { x, y, z }),
    {
        Point { x, y, z }
    }
}

} // verus!
