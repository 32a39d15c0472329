//! Fixed-point scalars and vectors.
//!
//! A scalar carries `SCALE` subunits per world unit. Division in the
//! executable code truncates toward zero, as machine division does; the spec
//! function `tdiv` mirrors that exactly, so every contract pins the computed
//! value down to the subunit.

use vstd::arithmetic::div_mod::{
    lemma_div_is_ordered, lemma_div_multiples_vanish, lemma_div_pos_is_pos,
};
use vstd::prelude::*;

verus! {

/// Subunits per world unit of every fixed-point length, speed or velocity.
pub const SCALE: i64 = 1000;

/// Greatest magnitude, in subunits, a coordinate or a velocity component may
/// carry. Keeps every product this library forms inside `i64`.
pub const MAX_COORD: i64 = 1_000_000_000;

/// A three-component fixed-point vector, `SCALE` subunits per unit.
#[derive(Clone, Copy, Debug, PartialEq, Eq, Structural)]
pub struct Vec3 {
    pub x: i64,
    pub y: i64,
    pub z: i64,
}

/// The value of `SCALE * SCALE`, the scale that a product of two fixed-point
/// scalars carries.
pub proof fn lemma_scale_squared()
    ensures
        SCALE * SCALE == 1_000_000,
{
    assert(SCALE * SCALE == 1_000_000) by (nonlinear_arith)
        requires SCALE == 1000;
}

/// Division truncated toward zero, the rounding of machine division.
/// Meaningful for `b > 0`; spec-level `/` alone is Euclidean.
pub open spec fn tdiv(a: int, b: int) -> int {
    if a >= 0 {
        a / b
    } else {
        -((-a) / b)
    }
}

/// `tdiv` stays within `c` when the dividend stays within `c` times the
/// divisor.
pub proof fn lemma_tdiv_le_bound(n: int, d: int, c: int)
    requires
        1 <= d,
        0 <= c,
        -(c * d) <= n <= c * d,
    ensures
        -c <= tdiv(n, d) <= c,
{
    assert(c * d == d * c) by (nonlinear_arith);
    if n >= 0 {
        lemma_div_pos_is_pos(n, d);
        lemma_div_is_ordered(n, c * d, d);
        lemma_div_multiples_vanish(c, d);
    } else {
        lemma_div_pos_is_pos(-n, d);
        lemma_div_is_ordered(-n, c * d, d);
        lemma_div_multiples_vanish(c, d);
    }
}

/// Dividing out a factor the dividend carries is exact, whatever the sign.
pub proof fn lemma_tdiv_cancel(a: int, d: int)
    requires
        1 <= d,
    ensures
        tdiv(a * d, d) == a,
{
    if a >= 0 {
        assert(a * d == d * a) by (nonlinear_arith);
        lemma_div_multiples_vanish(a, d);
    } else {
        assert(-(a * d) == d * (-a)) by (nonlinear_arith);
        lemma_div_multiples_vanish(-a, d);
        assert(a * d < 0) by (nonlinear_arith)
            requires a < 0, 1 <= d;
    }
}

/// Truncating division of zero is zero.
pub proof fn lemma_tdiv_zero(d: int)
    requires
        1 <= d,
    ensures
        tdiv(0, d) == 0,
{
    assert(0 * d == 0) by (nonlinear_arith);
    lemma_tdiv_cancel(0, d);
}

/// Truncating division toward zero never grows the magnitude of a
/// nonnegative-divisor quotient beyond the exact quotient's side of zero.
pub proof fn lemma_tdiv_sign(n: int, d: int)
    requires
        1 <= d,
    ensures
        n >= 0 ==> 0 <= tdiv(n, d) <= n,
        n <= 0 ==> n <= tdiv(n, d) <= 0,
{
    if n >= 0 {
        lemma_div_pos_is_pos(n, d);
        vstd::arithmetic::div_mod::lemma_div_nonincreasing(n, d);
    } else {
        lemma_div_pos_is_pos(-n, d);
        vstd::arithmetic::div_mod::lemma_div_nonincreasing(-n, d);
    }
}

/// `a * b / SCALE` truncated toward zero: the product of two fixed-point
/// scalars, carried back to `SCALE` subunits per unit.
pub fn mul_scale(a: i64, b: i64) -> (r: i64)
    requires
        -2_000_000 <= a <= 2_000_000,
        0 <= b <= MAX_COORD,
    ensures
        r == tdiv(a * b, SCALE as int),
        -SCALE <= a <= SCALE ==> -b <= r <= b,
        b <= SCALE ==> (0 <= a ==> 0 <= r <= a) && (a <= 0 ==> a <= r <= 0),
{
    proof {
        assert((0 <= a ==> 0 <= a * b <= 2_000_000_000_000_000) && (a <= 0 ==> 0 <= (-a) * b
            <= 2_000_000_000_000_000) && ((-a) * b == -(a * b))) by (nonlinear_arith)
            requires
                -2_000_000 <= a <= 2_000_000,
                0 <= b <= MAX_COORD,
                MAX_COORD == 1_000_000_000;
    }
    let r = if a >= 0 {
        (a * b) / SCALE
    } else {
        -(((-a) * b) / SCALE)
    };
    proof {
        if -SCALE <= a <= SCALE {
            assert(-(b * SCALE) <= a * b <= b * SCALE) by (nonlinear_arith)
                requires -SCALE <= a <= SCALE, 0 <= b;
            lemma_tdiv_le_bound(a * b, SCALE as int, b as int);
        }
        if b <= SCALE {
            if a >= 0 {
                assert(a * b <= a * SCALE) by (nonlinear_arith)
                    requires 0 <= a, 0 <= b <= SCALE;
                lemma_tdiv_le_bound(a * b, SCALE as int, a as int);
            } else {
                assert(-((-a) * SCALE) <= a * b) by (nonlinear_arith)
                    requires a <= 0, 0 <= b <= SCALE;
                lemma_tdiv_le_bound(a * b, SCALE as int, (-a) as int);
            }
        }
    }
    r
}

/// The floor of the square root: the greatest `r` with `r * r <= n`.
pub open spec fn sqrt_floor(n: nat) -> nat
    decreases n,
{
    if n == 0 {
        0
    } else {
        let p = sqrt_floor((n - 1) as nat);
        if (p + 1) * (p + 1) <= n {
            p + 1
        } else {
            p
        }
    }
}

pub proof fn lemma_sqrt_floor_bounds(n: nat)
    ensures
        sqrt_floor(n) * sqrt_floor(n) <= n,
        n < (sqrt_floor(n) + 1) * (sqrt_floor(n) + 1),
    decreases n,
{
    if n == 0 {
        let s = sqrt_floor(n);
        assert((s + 1) * (s + 1) == 1) by (nonlinear_arith)
            requires s == 0;
    } else {
        lemma_sqrt_floor_bounds((n - 1) as nat);
        let p = sqrt_floor((n - 1) as nat);
        if (p + 1) * (p + 1) <= n {
            assert(n <= (p + 1) * (p + 1));
            assert((p + 1) * (p + 1) < (p + 2) * (p + 2)) by (nonlinear_arith);
        }
    }
}

pub proof fn lemma_sqrt_floor_unique(n: nat, r: nat)
    requires
        r * r <= n,
        n < (r + 1) * (r + 1),
    ensures
        r == sqrt_floor(n),
{
    let s = sqrt_floor(n);
    lemma_sqrt_floor_bounds(n);
    if r < s {
        assert((r + 1) * (r + 1) <= s * s) by (nonlinear_arith)
            requires r + 1 <= s;
    }
    if s < r {
        assert((s + 1) * (s + 1) <= r * r) by (nonlinear_arith)
            requires s + 1 <= r;
    }
}

/// Integer square root of a small number, exactly `sqrt_floor`.
pub fn isqrt(n: u64) -> (r: u64)
    requires
        n <= 0xffff_ffff,
    ensures
        r == sqrt_floor(n as nat),
        r * r <= n < (r + 1) * (r + 1),
{
    let mut r: u64 = 0;
    let mut sq: u64 = 0;
    while sq + 2 * r + 1 <= n
        invariant
            n <= 0xffff_ffff,
            sq == r * r,
            sq <= n,
            r <= n,
        decreases n - r,
    {
        proof {
            assert((r + 1) * (r + 1) == r * r + 2 * r + 1) by (nonlinear_arith);
            assert(r + 1 <= (r + 1) * (r + 1)) by (nonlinear_arith);
        }
        sq = sq + 2 * r + 1;
        r = r + 1;
    }
    proof {
        assert((r + 1) * (r + 1) == r * r + 2 * r + 1) by (nonlinear_arith);
        lemma_sqrt_floor_unique(n as nat, r as nat);
    }
    r
}

/// Squared length of the vector `(x, y, z)`, in squared subunits.
pub open spec fn spec_len2(x: int, y: int, z: int) -> int {
    x * x + y * y + z * z
}

impl Vec3 {
    /// Squared length, in squared subunits.
    pub open spec fn len2(self) -> int {
        spec_len2(self.x as int, self.y as int, self.z as int)
    }

    /// Dot product, in squared subunits.
    pub open spec fn dot(self, other: Vec3) -> int {
        self.x * other.x + self.y * other.y + self.z * other.z
    }

    /// Every component within `b` subunits of zero.
    pub open spec fn bounded(self, b: int) -> bool {
        -b <= self.x <= b && -b <= self.y <= b && -b <= self.z <= b
    }

    pub fn zero() -> (r: Vec3)
        ensures
            r == (Vec3 { x: 0, y: 0, z: 0 }),
    {
        Vec3 { x: 0, y: 0, z: 0 }
    }

    pub fn add(self, other: Vec3) -> (r: Vec3)
        requires
            self.bounded(MAX_COORD as int),
            other.bounded(MAX_COORD as int),
        ensures
            r.x == self.x + other.x,
            r.y == self.y + other.y,
            r.z == self.z + other.z,
    {
        Vec3 { x: self.x + other.x, y: self.y + other.y, z: self.z + other.z }
    }

    pub fn sub(self, other: Vec3) -> (r: Vec3)
        requires
            self.bounded(MAX_COORD as int),
            other.bounded(MAX_COORD as int),
        ensures
            r.x == self.x - other.x,
            r.y == self.y - other.y,
            r.z == self.z - other.z,
    {
        Vec3 { x: self.x - other.x, y: self.y - other.y, z: self.z - other.z }
    }

    pub fn neg(self) -> (r: Vec3)
        requires
            self.bounded(MAX_COORD as int),
        ensures
            r.x == -self.x,
            r.y == -self.y,
            r.z == -self.z,
    {
        Vec3 { x: -self.x, y: -self.y, z: -self.z }
    }
}

/// `a * SCALE / l`, truncated toward zero: one component of a normalization.
fn scale_div(a: i64, l: i64) -> (r: i64)
    requires
        1 <= l,
        -4 * SCALE <= a <= 4 * SCALE,
    ensures
        r == tdiv(a * SCALE, l as int),
{
    if a >= 0 {
        (a * SCALE) / l
    } else {
        proof {
            assert(tdiv(a * SCALE, l as int) == -((-(a * SCALE)) / (l as int)));
            assert(-(a * SCALE) == (-a) * SCALE) by (nonlinear_arith);
        }
        -(((-a) * SCALE) / l)
    }
}

/// The normalized vector, componentwise: `v * SCALE / |v|` truncated toward
/// zero, or zero when `v` is zero.
pub open spec fn spec_normalize(x: int, y: int, z: int) -> (int, int, int) {
    let n2 = spec_len2(x, y, z);
    if n2 == 0 {
        (0, 0, 0)
    } else {
        let l = sqrt_floor(n2 as nat) as int;
        (tdiv(x * SCALE, l), tdiv(y * SCALE, l), tdiv(z * SCALE, l))
    }
}

/// No component of a normalized vector leaves `[-SCALE, SCALE]`.
pub proof fn lemma_normalize_bounds(x: int, y: int, z: int)
    ensures
        -SCALE <= spec_normalize(x, y, z).0 <= SCALE,
        -SCALE <= spec_normalize(x, y, z).1 <= SCALE,
        -SCALE <= spec_normalize(x, y, z).2 <= SCALE,
{
    let n2 = spec_len2(x, y, z);
    assert(x * x >= 0 && y * y >= 0 && z * z >= 0) by (nonlinear_arith);
    if n2 != 0 {
        let l = sqrt_floor(n2 as nat) as int;
        lemma_sqrt_floor_bounds(n2 as nat);
        assert(1 <= l) by (nonlinear_arith)
            requires l * l <= n2, n2 < (l + 1) * (l + 1), n2 >= 1, l >= 0;
        assert(-l <= x <= l && -l <= y <= l && -l <= z <= l) by (nonlinear_arith)
            requires
                x * x >= 0 && y * y >= 0 && z * z >= 0,
                x * x + y * y + z * z < (l + 1) * (l + 1),
                l >= 1;
        assert(-(SCALE * l) <= x * SCALE <= SCALE * l && -(SCALE * l) <= y * SCALE <= SCALE * l
            && -(SCALE * l) <= z * SCALE <= SCALE * l) by (nonlinear_arith)
            requires -l <= x <= l && -l <= y <= l && -l <= z <= l, l >= 1, SCALE >= 0;
        lemma_tdiv_le_bound(x * SCALE, l, SCALE as int);
        lemma_tdiv_le_bound(y * SCALE, l, SCALE as int);
        lemma_tdiv_le_bound(z * SCALE, l, SCALE as int);
    }
}

/// Scales `v` to unit length (up to truncation), or returns zero for zero:
/// the guard that keeps diagonal movement no faster than axis-aligned.
pub fn normalize_or_zero(v: Vec3) -> (r: Vec3)
    requires
        v.bounded(4 * SCALE as int),
    ensures
        (r.x as int, r.y as int, r.z as int) == spec_normalize(v.x as int, v.y as int, v.z as int),
        r.bounded(SCALE as int),
{
    proof {
        lemma_normalize_bounds(v.x as int, v.y as int, v.z as int);
        assert(v.x * v.x <= 16 * SCALE * SCALE && v.y * v.y <= 16 * SCALE * SCALE
            && v.z * v.z <= 16 * SCALE * SCALE && v.x * v.x >= 0 && v.y * v.y >= 0
            && v.z * v.z >= 0) by (nonlinear_arith)
            requires v.bounded(4 * SCALE as int);
    }
    let n2: i64 = v.x * v.x + v.y * v.y + v.z * v.z;
    if n2 == 0 {
        Vec3 { x: 0, y: 0, z: 0 }
    } else {
        let l: u64 = isqrt(n2 as u64);
        proof {
            assert(1 <= l && l < 7000) by (nonlinear_arith)
                requires l * l <= n2 as u64, n2 >= 1, n2 <= 48_000_000,
                    (n2 as u64) < (l + 1) * (l + 1);
        }
        Vec3 {
            x: scale_div(v.x, l as i64),
            y: scale_div(v.y, l as i64),
            z: scale_div(v.z, l as i64),
        }
    }
}

/// `v` held to the interval `[lo, hi]`.
pub open spec fn spec_clamp(v: int, lo: int, hi: int) -> int {
    if v < lo {
        lo
    } else if v > hi {
        hi
    } else {
        v
    }
}

pub fn clamp(v: i64, lo: i64, hi: i64) -> (r: i64)
    requires
        lo <= hi,
    ensures
        r == spec_clamp(v as int, lo as int, hi as int),
{
    if v < lo {
        lo
    } else if v > hi {
        hi
    } else {
        v
    }
}

} // verus!
