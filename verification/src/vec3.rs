//! Fixed-point 2D and 3D vectors: interpolation toward a target and
//! normalization to unit length, each with an exact contract.
use vstd::prelude::*;
use vstd::arithmetic::div_mod::{
    lemma_div_is_ordered, lemma_fundamental_div_mod_converse,
};
use vstd::arithmetic::mul::lemma_mul_inequality;
use crate::FIX_ONE;
use crate::fixed::{div_floor, isqrt, magnitude, sqrt_floor, lemma_sqrt_floor_bounds};

verus! {

/// Largest coordinate magnitude the library operates on.
pub const COORD_LIMIT: i64 = 0x100_0000_0000;

/// Largest interpolation factor the library operates on.
pub const FACTOR_LIMIT: i64 = 0x100_0000;

/// Largest coordinate magnitude `lerp` accepts; wide enough for a target
/// assembled from a rotated offset and an anchor position.
pub const LERP_LIMIT: i64 = 0x2000_0000_0000;

/// A coordinate within the library's operating range.
pub open spec fn coord_ok(v: int) -> bool {
    -COORD_LIMIT <= v <= COORD_LIMIT
}

/// A 2D fixed-point vector.
#[derive(Clone, Copy, PartialEq, Eq, Structural, Debug)]
pub struct Vec2Fix {
    pub x: i64,
    pub y: i64,
}

/// A 3D fixed-point vector.
#[derive(Clone, Copy, PartialEq, Eq, Structural, Debug)]
pub struct Vec3Fix {
    pub x: i64,
    pub y: i64,
    pub z: i64,
}

impl Vec3Fix {
    /// All coordinates within the library's operating range.
    pub open spec fn wf(self) -> bool {
        coord_ok(self.x as int) && coord_ok(self.y as int) && coord_ok(self.z as int)
    }

    /// The origin.
    pub open spec fn zero_spec() -> Vec3Fix {
        Vec3Fix { x: 0, y: 0, z: 0 }
    }

    /// Builds the origin.
    pub fn zero() -> (r: Vec3Fix)
        ensures
            r == Self::zero_spec(),
    {
        Vec3Fix { x: 0, y: 0, z: 0 }
    }

    /// Componentwise sum.
    pub open spec fn add_spec(self, other: Vec3Fix) -> Vec3Fix {
        Vec3Fix {
            x: (self.x + other.x) as i64,
            y: (self.y + other.y) as i64,
            z: (self.z + other.z) as i64,
        }
    }

    /// Adds another vector componentwise.
    pub fn add(self, other: Vec3Fix) -> (r: Vec3Fix)
        requires
            i64::MIN <= self.x + other.x <= i64::MAX,
            i64::MIN <= self.y + other.y <= i64::MAX,
            i64::MIN <= self.z + other.z <= i64::MAX,
        ensures
            r == self.add_spec(other),
            r.x == self.x + other.x,
            r.y == self.y + other.y,
            r.z == self.z + other.z,
    {
        Vec3Fix { x: self.x + other.x, y: self.y + other.y, z: self.z + other.z }
    }
}

/// One axis of `lerp`: moves `a` toward `b` by the fraction `t` of the gap,
/// rounding the step away from `a` so that any positive factor makes
/// progress and the factor `FIX_ONE` lands exactly on `b`.
pub open spec fn lerp_axis_spec(a: int, b: int, t: int) -> int {
    if b >= a {
        a + ((b - a) * t + (FIX_ONE - 1)) / (FIX_ONE as int)
    } else {
        a - ((a - b) * t + (FIX_ONE - 1)) / (FIX_ONE as int)
    }
}

/// The rounded step stays within the gap while the factor is at most one,
/// and covers the whole gap at exactly one.
proof fn lemma_lerp_step_le(d: int, t: int)
    requires
        0 <= d,
        0 <= t <= FIX_ONE,
    ensures
        0 <= (d * t + (FIX_ONE - 1)) / (FIX_ONE as int) <= d,
        t == FIX_ONE ==> (d * t + (FIX_ONE - 1)) / (FIX_ONE as int) == d,
        t >= 1 && d >= 1 ==> (d * t + (FIX_ONE - 1)) / (FIX_ONE as int) >= 1,
{
    lemma_mul_inequality(t, 65536, d);
    assert(d * t == t * d && d * 65536 == 65536 * d) by (nonlinear_arith);
    lemma_div_is_ordered(0, d * t + 65535, 65536);
    lemma_div_is_ordered(d * t + 65535, d * 65536 + 65535, 65536);
    lemma_fundamental_div_mod_converse(d * 65536 + 65535, 65536, d, 65535);
    if t >= 1 && d >= 1 {
        lemma_mul_inequality(1, t, d);
        lemma_div_is_ordered(65536, d * t + 65535, 65536);
        assert(65536int / 65536 == 1);
    }
}

/// Moves `a` toward `b` by the fraction `t` (fixed-point) of the gap.
pub fn lerp_axis(a: i64, b: i64, t: i64) -> (r: i64)
    requires
        -LERP_LIMIT <= a <= LERP_LIMIT,
        -LERP_LIMIT <= b <= LERP_LIMIT,
        0 <= t <= FACTOR_LIMIT,
    ensures
        r == lerp_axis_spec(a as int, b as int, t as int),
{
    if b >= a {
        let d: u64 = (b - a) as u64;
        proof {
            assert((d as int) * (t as int) <= 0x4000_0000_0000int * 0x100_0000) by (nonlinear_arith)
                requires 0 <= d <= 0x4000_0000_0000int && 0 <= t <= 0x100_0000;
            lemma_div_is_ordered(
                (d as int) * (t as int) + 65535,
                0x4000_0000_0000int * 0x100_0000 + 65535,
                65536,
            );
        }
        let step: u128 = ((d as u128) * (t as u128) + 65535) / 65536;
        a + (step as i64)
    } else {
        let d: u64 = (a - b) as u64;
        proof {
            assert((d as int) * (t as int) <= 0x4000_0000_0000int * 0x100_0000) by (nonlinear_arith)
                requires 0 <= d <= 0x4000_0000_0000int && 0 <= t <= 0x100_0000;
            lemma_div_is_ordered(
                (d as int) * (t as int) + 65535,
                0x4000_0000_0000int * 0x100_0000 + 65535,
                65536,
            );
        }
        let step: u128 = ((d as u128) * (t as u128) + 65535) / 65536;
        a - (step as i64)
    }
}

/// One interpolation step never moves past the target while the factor is
/// at most one; any positive factor strictly shrinks a nonzero gap; and the
/// factor `FIX_ONE` reaches the target exactly.
pub proof fn lemma_lerp_axis_converges(a: int, b: int, t: int)
    requires
        0 <= t <= FIX_ONE,
    ensures
        b >= a ==> a <= lerp_axis_spec(a, b, t) <= b,
        b < a ==> b <= lerp_axis_spec(a, b, t) <= a,
        t >= 1 && a != b && b >= a ==> b - lerp_axis_spec(a, b, t) < b - a,
        t >= 1 && a != b && b < a ==> lerp_axis_spec(a, b, t) - b < a - b,
        t == FIX_ONE ==> lerp_axis_spec(a, b, t) == b,
{
    if b >= a {
        lemma_lerp_step_le(b - a, t);
    } else {
        lemma_lerp_step_le(a - b, t);
    }
}

/// Componentwise interpolation of a 3D point toward a target.
pub open spec fn lerp_spec(a: Vec3Fix, b: Vec3Fix, t: int) -> Vec3Fix {
    Vec3Fix {
        x: lerp_axis_spec(a.x as int, b.x as int, t) as i64,
        y: lerp_axis_spec(a.y as int, b.y as int, t) as i64,
        z: lerp_axis_spec(a.z as int, b.z as int, t) as i64,
    }
}

/// Largest coordinate magnitude `normalize_or_zero` accepts; wide enough
/// for any vector a well-formed rotation produces from a well-formed input.
pub const NORM_INPUT_LIMIT: i64 = 0x1000_0000_0000;

/// The squared Euclidean length of a vector, in raw units.
pub open spec fn norm_sq_spec(v: Vec3Fix) -> int {
    v.x * v.x + v.y * v.y + v.z * v.z
}

/// The vector rescaled to unit length (fixed-point), rounding each
/// coordinate toward negative infinity; the zero vector stays zero.
pub open spec fn normalize_spec(v: Vec3Fix) -> Vec3Fix {
    if v == Vec3Fix::zero_spec() {
        Vec3Fix::zero_spec()
    } else {
        let len = sqrt_floor(norm_sq_spec(v) as nat) as int;
        Vec3Fix {
            x: ((v.x * FIX_ONE) / len) as i64,
            y: ((v.y * FIX_ONE) / len) as i64,
            z: ((v.z * FIX_ONE) / len) as i64,
        }
    }
}

/// A square is monotone in the magnitude of its argument.
proof fn lemma_abs_le_of_sq_le(a: int, b: int)
    requires
        0 <= b,
        a * a <= b * b + 2 * b,
    ensures
        -b <= a <= b,
{
    if a > b {
        assert(a * a > b * b + 2 * b) by (nonlinear_arith)
            requires a >= b + 1 && b >= 0;
    }
    if a < -b {
        assert(a * a > b * b + 2 * b) by (nonlinear_arith)
            requires a <= -b - 1 && b >= 0;
    }
}

/// A coordinate divided by a length at least as large gives a fixed-point
/// value of at most one in magnitude.
proof fn lemma_scaled_ratio_bounds(a: int, len: int)
    requires
        0 < len,
        -len <= a <= len,
    ensures
        -FIX_ONE <= (a * FIX_ONE) / len <= FIX_ONE,
{
    lemma_mul_inequality(a, len, 65536);
    lemma_mul_inequality(-len, a, 65536);
    assert(a * 65536 == 65536 * a && len * 65536 == 65536 * len && (-len) * 65536 == -(len
        * 65536)) by (nonlinear_arith);
    lemma_div_is_ordered(a * 65536, len * 65536, len);
    lemma_div_is_ordered(-(len * 65536), a * 65536, len);
    lemma_fundamental_div_mod_converse(len * 65536, len, 65536, 0);
    lemma_fundamental_div_mod_converse(-(len * 65536), len, -65536, 0);
    assert(65536 * len == len * 65536 && (-65536) * len == -(len * 65536)) by (nonlinear_arith);
}

impl Vec3Fix {
    /// Rescales this vector to unit length (fixed-point), rounding each
    /// coordinate toward negative infinity; a zero vector is returned
    /// unchanged rather than rejected.
    pub fn normalize_or_zero(self) -> (r: Vec3Fix)
        requires
            -NORM_INPUT_LIMIT <= self.x <= NORM_INPUT_LIMIT,
            -NORM_INPUT_LIMIT <= self.y <= NORM_INPUT_LIMIT,
            -NORM_INPUT_LIMIT <= self.z <= NORM_INPUT_LIMIT,
        ensures
            r == normalize_spec(self),
            self == Self::zero_spec() ==> r == Self::zero_spec(),
            -FIX_ONE <= r.x <= FIX_ONE,
            -FIX_ONE <= r.y <= FIX_ONE,
            -FIX_ONE <= r.z <= FIX_ONE,
    {
        let mx = magnitude(self.x);
        let my = magnitude(self.y);
        let mz = magnitude(self.z);
        proof {
            assert(mx * mx == self.x * self.x && mx * mx <= 0x1000_0000_0000int
                * 0x1000_0000_0000) by (nonlinear_arith)
                requires
                    mx == if self.x >= 0 { self.x as int } else { -(self.x as int) },
                    -0x1000_0000_0000 <= self.x <= 0x1000_0000_0000;
            assert(my * my == self.y * self.y && my * my <= 0x1000_0000_0000int
                * 0x1000_0000_0000) by (nonlinear_arith)
                requires
                    my == if self.y >= 0 { self.y as int } else { -(self.y as int) },
                    -0x1000_0000_0000 <= self.y <= 0x1000_0000_0000;
            assert(mz * mz == self.z * self.z && mz * mz <= 0x1000_0000_0000int
                * 0x1000_0000_0000) by (nonlinear_arith)
                requires
                    mz == if self.z >= 0 { self.z as int } else { -(self.z as int) },
                    -0x1000_0000_0000 <= self.z <= 0x1000_0000_0000;
        }
        let n2: u128 = mx * mx + my * my + mz * mz;
        let len: u64 = isqrt(n2);
        if len == 0 {
            proof {
                lemma_sqrt_floor_bounds(n2 as nat);
                assert((0nat + 1) * (0nat + 1) == 1) by (nonlinear_arith);
                assert(self.x == 0 && self.y == 0 && self.z == 0) by (nonlinear_arith)
                    requires
                        self.x * self.x + self.y * self.y + self.z * self.z == 0;
            }
            Vec3Fix { x: 0, y: 0, z: 0 }
        } else {
            proof {
                lemma_sqrt_floor_bounds(n2 as nat);
                assert(len < 0x1_0000_0000_0000u64) by (nonlinear_arith)
                    requires
                        (len as int) * (len as int) <= n2,
                        n2 < 0x1_0000_0000_0000int * 0x1_0000_0000_0000;
                assert((len as int + 1) * (len as int + 1) == (len as int) * (len as int) + 2 * (
                len as int) + 1) by (nonlinear_arith);
                assert((len as int) * (len as int) + 2 * (len as int) >= n2);
                lemma_abs_le_of_sq_le(self.x as int, len as int);
                lemma_abs_le_of_sq_le(self.y as int, len as int);
                lemma_abs_le_of_sq_le(self.z as int, len as int);
                lemma_scaled_ratio_bounds(self.x as int, len as int);
                lemma_scaled_ratio_bounds(self.y as int, len as int);
                lemma_scaled_ratio_bounds(self.z as int, len as int);
            }
            let x = div_floor(self.x * FIX_ONE, len as i64);
            let y = div_floor(self.y * FIX_ONE, len as i64);
            let z = div_floor(self.z * FIX_ONE, len as i64);
            Vec3Fix { x, y, z }
        }
    }

    /// Moves this point toward `target` by the fraction `t` of each gap.
    pub fn lerp(self, target: Vec3Fix, t: i64) -> (r: Vec3Fix)
        requires
            -LERP_LIMIT <= self.x <= LERP_LIMIT,
            -LERP_LIMIT <= self.y <= LERP_LIMIT,
            -LERP_LIMIT <= self.z <= LERP_LIMIT,
            -LERP_LIMIT <= target.x <= LERP_LIMIT,
            -LERP_LIMIT <= target.y <= LERP_LIMIT,
            -LERP_LIMIT <= target.z <= LERP_LIMIT,
            0 <= t <= FACTOR_LIMIT,
        ensures
            r == lerp_spec(self, target, t as int),
    {
        let x = lerp_axis(self.x, target.x, t);
        let y = lerp_axis(self.y, target.y, t);
        let z = lerp_axis(self.z, target.z, t);
        Vec3Fix { x, y, z }
    }
}

} // verus!
