//! Fixed-point arithmetic of the simulation.
//!
//! Every scalar of the simulation (a length, a speed, a force, a mass, a zoom
//! distance) is an integer count of thousandths of its unit, and a time step is
//! a count of microseconds. Products are taken exactly, quotients are rounded
//! toward zero, and a value that is stored is first brought into the range of
//! `i64`. The same inputs therefore give the same frame on every machine.

use vstd::prelude::*;

verus! {

/// One whole unit, counted in thousandths.
pub const UNIT: i64 = 1000;

/// One second, counted in microseconds.
pub const MICROS_PER_SECOND: i64 = 1_000_000;

/// The value of `i64` nearest to `x`.
pub open spec fn saturate(x: int) -> i64 {
    if x < i64::MIN {
        i64::MIN
    } else if x > i64::MAX {
        i64::MAX
    } else {
        x as i64
    }
}

/// `a / b` rounded toward zero, for a positive `b`.
pub open spec fn quotient(a: int, b: int) -> int
    recommends
        b > 0,
{
    if a >= 0 {
        a / b
    } else {
        -((-a) / b)
    }
}

/// The size of `x` without its sign.
pub open spec fn magnitude(x: int) -> nat {
    if x < 0 {
        (-x) as nat
    } else {
        x as nat
    }
}

/// Whether `r` is the integer part of the square root of `n`.
pub open spec fn is_floor_sqrt(n: nat, r: nat) -> bool {
    r * r <= n && n < (r + 1) * (r + 1)
}

/// The integer part of the square root of `n`.
pub open spec fn floor_sqrt(n: nat) -> nat {
    choose|r: nat| is_floor_sqrt(n, r)
}

/// A quotient is no larger in magnitude than its dividend.
pub proof fn lemma_quotient_bounded(a: int, b: int)
    requires
        b > 0,
    ensures
        a >= 0 ==> 0 <= quotient(a, b) <= a,
        a <= 0 ==> a <= quotient(a, b) <= 0,
{
    if a >= 0 {
        assert(0 <= a / b <= a) by (nonlinear_arith)
            requires
                a >= 0,
                b > 0,
        ;
    } else {
        assert(0 <= (-a) / b <= -a) by (nonlinear_arith)
            requires
                a < 0,
                b > 0,
        ;
    }
}

/// Squaring is monotone on the naturals.
pub proof fn lemma_square_monotone(a: nat, b: nat)
    requires
        a <= b,
    ensures
        a * a <= b * b,
{
    assert(a * a <= b * b) by (nonlinear_arith)
        requires
            a <= b,
    ;
}

/// A natural number has exactly one integer square root.
pub proof fn lemma_floor_sqrt_unique(n: nat, r: nat, s: nat)
    requires
        is_floor_sqrt(n, r),
        is_floor_sqrt(n, s),
    ensures
        r == s,
{
    if r < s {
        lemma_square_monotone(r + 1, s);
    } else if s < r {
        lemma_square_monotone(s + 1, r);
    }
}

/// `floor_sqrt(n)` is the one `r` with `r * r <= n < (r + 1) * (r + 1)`.
pub proof fn lemma_floor_sqrt_is(n: nat, r: nat)
    requires
        is_floor_sqrt(n, r),
    ensures
        floor_sqrt(n) == r,
{
    lemma_floor_sqrt_unique(n, r, floor_sqrt(n));
}

/// The square of a vector's length is the sum of the squares of its
/// coordinates' sizes.
proof fn lemma_norm_squared(v: Vec3)
    ensures
        v.norm_squared() == magnitude(v.x as int) * magnitude(v.x as int) + magnitude(v.y as int)
            * magnitude(v.y as int) + magnitude(v.z as int) * magnitude(v.z as int),
{
    let sum = v.x * v.x + v.y * v.y + v.z * v.z;
    let x = magnitude(v.x as int);
    let y = magnitude(v.y as int);
    let z = magnitude(v.z as int);
    assert(sum == x * x + y * y + z * z && sum >= 0) by (nonlinear_arith)
        requires
            sum == v.x * v.x + v.y * v.y + v.z * v.z,
            x == v.x || x == -v.x,
            y == v.y || y == -v.y,
            z == v.z || z == -v.z,
    ;
}

/// A vector with a coordinate larger than `bound` is longer than `bound`, and
/// one whose coordinates together are no larger than `bound` is not.
pub proof fn lemma_length_without_squares(v: Vec3, bound: nat)
    ensures
        v.beyond(bound) ==> v.longer_than(bound),
        v.within(bound) ==> !v.longer_than(bound),
{
    let x = magnitude(v.x as int);
    let y = magnitude(v.y as int);
    let z = magnitude(v.z as int);
    lemma_norm_squared(v);
    if v.beyond(bound) {
        assert(x * x + y * y + z * z > bound * bound) by (nonlinear_arith)
            requires
                x > bound || y > bound || z > bound,
        ;
    }
    if v.within(bound) {
        assert(x * x + y * y + z * z <= bound * bound) by (nonlinear_arith)
            requires
                x + y + z <= bound,
        ;
    }
}

/// A vector that lies along one axis is as long as its one coordinate is large.
pub proof fn lemma_axis_length(v: Vec3)
    ensures
        v.axis_length() matches Some(l) ==> v.norm() == l,
{
    if let Some(l) = v.axis_length() {
        lemma_norm_squared(v);
        assert(0nat * 0nat == 0) by (nonlinear_arith);
        assert(v.norm_squared() == l * l);
        assert(is_floor_sqrt(l * l, l)) by (nonlinear_arith);
        lemma_floor_sqrt_is(l * l, l);
    }
}

/// Brings an exact intermediate result into the range of a stored scalar.
pub fn saturating(x: i128) -> (r: i64)
    ensures
        r == saturate(x as int),
{
    if x < i64::MIN as i128 {
        i64::MIN
    } else if x > i64::MAX as i128 {
        i64::MAX
    } else {
        x as i64
    }
}

/// The integer part of the square root of `n`, found by bisection.
pub fn isqrt(n: u128) -> (r: u64)
    ensures
        is_floor_sqrt(n as nat, r as nat),
        r == floor_sqrt(n as nat),
{
    let mut lo: u128 = 0;
    let mut hi: u128 = 0x1_0000_0000_0000_0000;
    while hi - lo > 1
        invariant
            lo < hi <= 0x1_0000_0000_0000_0000,
            lo * lo <= n,
            n < hi * hi,
        decreases hi - lo,
    {
        let mid: u128 = lo + (hi - lo) / 2;
        assert(mid * mid <= 0xffff_ffff_ffff_ffff * 0xffff_ffff_ffff_ffff) by (nonlinear_arith)
            requires
                0 <= mid <= 0xffff_ffff_ffff_ffff,
        ;
        if mid * mid <= n {
            lo = mid;
        } else {
            hi = mid;
        }
    }
    proof {
        lemma_floor_sqrt_is(n as nat, lo as nat);
    }
    lo as u64
}

/// A point or a direction of the simulation's space, each coordinate in
/// thousandths. `y` points up; an entity that faces along `z` has its left
/// along `x`.
#[derive(Clone, Copy, PartialEq, Eq, Structural, Debug)]
pub struct Vec3 {
    pub x: i64,
    pub y: i64,
    pub z: i64,
}

impl Vec3 {
    /// The origin.
    pub open spec fn zero() -> Vec3 {
        Vec3 { x: 0, y: 0, z: 0 }
    }

    /// The sum of two vectors, coordinate by coordinate.
    pub open spec fn plus(self, other: Vec3) -> Vec3 {
        Vec3 {
            x: saturate(self.x + other.x),
            y: saturate(self.y + other.y),
            z: saturate(self.z + other.z),
        }
    }

    /// The difference of two vectors, coordinate by coordinate.
    pub open spec fn minus(self, other: Vec3) -> Vec3 {
        Vec3 {
            x: saturate(self.x - other.x),
            y: saturate(self.y - other.y),
            z: saturate(self.z - other.z),
        }
    }

    /// The vector times `num / den`.
    pub open spec fn scaled(self, num: int, den: int) -> Vec3
        recommends
            den > 0,
    {
        Vec3 {
            x: saturate(quotient(self.x * num, den)),
            y: saturate(quotient(self.y * num, den)),
            z: saturate(quotient(self.z * num, den)),
        }
    }

    /// The square of the vector's length, in millionths.
    pub open spec fn norm_squared(self) -> nat {
        (self.x * self.x + self.y * self.y + self.z * self.z) as nat
    }

    /// The vector's length, rounded down to a thousandth.
    pub open spec fn norm(self) -> nat {
        floor_sqrt(self.norm_squared())
    }

    /// Whether the vector is longer than `bound` thousandths. Lengths are
    /// compared by their squares, so nothing is rounded.
    pub open spec fn longer_than(self, bound: nat) -> bool {
        self.norm_squared() > bound * bound
    }

    /// Whether one coordinate alone is larger than `bound`. Such a vector is
    /// longer than `bound`, and it takes no squares to see it.
    pub open spec fn beyond(self, bound: nat) -> bool {
        magnitude(self.x as int) > bound || magnitude(self.y as int) > bound || magnitude(
            self.z as int,
        ) > bound
    }

    /// Whether the coordinates together are no larger than `bound`. Such a
    /// vector is no longer than `bound`, and it takes no squares to see it.
    pub open spec fn within(self, bound: nat) -> bool {
        magnitude(self.x as int) + magnitude(self.y as int) + magnitude(self.z as int) <= bound
    }

    /// The length of a vector that lies along one axis: the size of the one
    /// coordinate that is not zero.
    pub open spec fn axis_length(self) -> Option<nat> {
        if self.x == 0 && self.y == 0 {
            Some(magnitude(self.z as int))
        } else if self.x == 0 && self.z == 0 {
            Some(magnitude(self.y as int))
        } else if self.y == 0 && self.z == 0 {
            Some(magnitude(self.x as int))
        } else {
            None
        }
    }

    /// The origin.
    pub fn origin() -> (r: Vec3)
        ensures
            r == Vec3::zero(),
    {
        Vec3 { x: 0, y: 0, z: 0 }
    }

    /// Adds two vectors.
    pub fn add_vec(self, other: Vec3) -> (r: Vec3)
        ensures
            r == self.plus(other),
    {
        Vec3 {
            x: saturating(self.x as i128 + other.x as i128),
            y: saturating(self.y as i128 + other.y as i128),
            z: saturating(self.z as i128 + other.z as i128),
        }
    }

    /// Subtracts `other` from the vector.
    pub fn sub_vec(self, other: Vec3) -> (r: Vec3)
        ensures
            r == self.minus(other),
    {
        Vec3 {
            x: saturating(self.x as i128 - other.x as i128),
            y: saturating(self.y as i128 - other.y as i128),
            z: saturating(self.z as i128 - other.z as i128),
        }
    }

    /// Multiplies the vector by `num / den`.
    pub fn scale(self, num: u64, den: u32) -> (r: Vec3)
        requires
            den > 0,
        ensures
            r == self.scaled(num as int, den as int),
    {
        Vec3 {
            x: scale_scalar(self.x, num, den),
            y: scale_scalar(self.y, num, den),
            z: scale_scalar(self.z, num, den),
        }
    }

    /// The square of the vector's length.
    pub fn length_squared(self) -> (r: u128)
        ensures
            r == self.norm_squared(),
    {
        let xx = square(self.x);
        let yy = square(self.y);
        let zz = square(self.z);
        xx + yy + zz
    }

    /// The vector's length, rounded down.
    pub fn length(self) -> (r: u64)
        ensures
            r == self.norm(),
            self.axis_length() matches Some(l) ==> r == l,
    {
        proof {
            lemma_axis_length(self);
        }
        isqrt(self.length_squared())
    }

    /// Whether the vector is longer than `bound`.
    pub fn is_longer_than(self, bound: u32) -> (r: bool)
        ensures
            r == self.longer_than(bound as nat),
            self.beyond(bound as nat) ==> r,
            self.within(bound as nat) ==> !r,
    {
        proof {
            lemma_length_without_squares(self, bound as nat);
        }
        assert(bound * bound <= 0xffff_ffff * 0xffff_ffff) by (nonlinear_arith)
            requires
                0 <= bound <= 0xffff_ffff,
        ;
        let limit: u128 = bound as u128 * bound as u128;
        self.length_squared() > limit
    }
}

/// `value * num / den`, rounded toward zero and saturated.
pub fn scale_scalar(value: i64, num: u64, den: u32) -> (r: i64)
    requires
        den > 0,
    ensures
        r == saturate(quotient(value * num, den as int)),
{
    assert(-0x8000_0000_0000_0000 * 0xffff_ffff_ffff_ffff <= value * num
        <= 0x7fff_ffff_ffff_ffff * 0xffff_ffff_ffff_ffff) by (nonlinear_arith)
        requires
            -0x8000_0000_0000_0000 <= value <= 0x7fff_ffff_ffff_ffff,
            0 <= num <= 0xffff_ffff_ffff_ffff,
    ;
    let product: i128 = value as i128 * num as i128;
    saturating(product / den as i128)
}

/// The exact product of two scalars.
pub fn product(a: i64, b: i64) -> (r: i128)
    ensures
        r == a * b,
        -0x4000_0000_0000_0000_0000_0000_0000_0000 <= r,
        r <= 0x4000_0000_0000_0000_0000_0000_0000_0000,
{
    assert(-0x8000_0000_0000_0000 * 0x8000_0000_0000_0000 <= a * b <= 0x8000_0000_0000_0000
        * 0x8000_0000_0000_0000) by (nonlinear_arith)
        requires
            -0x8000_0000_0000_0000 <= a <= 0x7fff_ffff_ffff_ffff,
            -0x8000_0000_0000_0000 <= b <= 0x7fff_ffff_ffff_ffff,
    ;
    a as i128 * b as i128
}

/// The square of a coordinate.
pub fn square(value: i64) -> (r: u128)
    ensures
        r == value * value,
        r <= 0x4000_0000_0000_0000_0000_0000_0000_0000,
{
    assert(0 <= value * value <= 0x8000_0000_0000_0000 * 0x8000_0000_0000_0000) by (nonlinear_arith)
        requires
            -0x8000_0000_0000_0000 <= value <= 0x7fff_ffff_ffff_ffff,
    ;
    let wide: i128 = value as i128;
    (wide * wide) as u128
}

} // verus!
