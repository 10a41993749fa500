//! Fixed-point quaternions: rotating a vector by a unit quaternion is a
//! polynomial in the components and is computed and verified exactly here.
use vstd::prelude::*;
use crate::FIX_ONE;
use crate::fixed::{fix_mul, fix_mul_spec, lemma_fix_mul_bound};
use crate::vec3::{Vec3Fix, NORM_INPUT_LIMIT};

verus! {

/// A fixed-point quaternion. A rotation is represented by a unit
/// quaternion, whose components lie within one (`FIX_ONE`) in magnitude.
#[derive(Clone, Copy, PartialEq, Eq, Structural, Debug)]
pub struct QuatFix {
    pub x: i64,
    pub y: i64,
    pub z: i64,
    pub w: i64,
}

impl QuatFix {
    /// All components within one in magnitude.
    pub open spec fn wf(self) -> bool {
        &&& -FIX_ONE <= self.x <= FIX_ONE
        &&& -FIX_ONE <= self.y <= FIX_ONE
        &&& -FIX_ONE <= self.z <= FIX_ONE
        &&& -FIX_ONE <= self.w <= FIX_ONE
    }

    /// The rotation that leaves every vector in place.
    pub open spec fn identity_spec() -> QuatFix {
        QuatFix { x: 0, y: 0, z: 0, w: FIX_ONE }
    }

    /// Builds the identity rotation.
    pub fn identity() -> (r: QuatFix)
        ensures
            r == Self::identity_spec(),
            r.wf(),
    {
        QuatFix { x: 0, y: 0, z: 0, w: FIX_ONE }
    }

    /// The vector part of the quaternion.
    pub open spec fn vec_part(self) -> Vec3Fix {
        Vec3Fix { x: self.x, y: self.y, z: self.z }
    }
}

/// The fixed-point cross product of two vectors.
pub open spec fn cross_fix_spec(a: Vec3Fix, b: Vec3Fix) -> Vec3Fix {
    Vec3Fix {
        x: (fix_mul_spec(a.y as int, b.z as int) - fix_mul_spec(a.z as int, b.y as int)) as i64,
        y: (fix_mul_spec(a.z as int, b.x as int) - fix_mul_spec(a.x as int, b.z as int)) as i64,
        z: (fix_mul_spec(a.x as int, b.y as int) - fix_mul_spec(a.y as int, b.x as int)) as i64,
    }
}

/// The vector with every coordinate doubled.
pub open spec fn double_spec(v: Vec3Fix) -> Vec3Fix {
    Vec3Fix { x: (2 * v.x) as i64, y: (2 * v.y) as i64, z: (2 * v.z) as i64 }
}

/// The rotation of `v` by the unit quaternion `q`, computed as
/// `v + w*t + qv x t` where `t = 2 * (qv x v)` and `qv` is the vector part.
pub open spec fn rotate_spec(q: QuatFix, v: Vec3Fix) -> Vec3Fix {
    let t = double_spec(cross_fix_spec(q.vec_part(), v));
    let c = cross_fix_spec(q.vec_part(), t);
    Vec3Fix {
        x: (v.x + fix_mul_spec(q.w as int, t.x as int) + c.x) as i64,
        y: (v.y + fix_mul_spec(q.w as int, t.y as int) + c.y) as i64,
        z: (v.z + fix_mul_spec(q.w as int, t.z as int) + c.z) as i64,
    }
}

/// Bounds on every product inside a cross product of `a` (components within
/// one) and `b` (components within `bm`).
proof fn lemma_cross_bounds(a: Vec3Fix, b: Vec3Fix, bm: int)
    requires
        0 <= bm,
        -FIX_ONE <= a.x <= FIX_ONE,
        -FIX_ONE <= a.y <= FIX_ONE,
        -FIX_ONE <= a.z <= FIX_ONE,
        -bm <= b.x <= bm,
        -bm <= b.y <= bm,
        -bm <= b.z <= bm,
    ensures
        -bm - 1 <= fix_mul_spec(a.y as int, b.z as int) <= bm,
        -bm - 1 <= fix_mul_spec(a.z as int, b.y as int) <= bm,
        -bm - 1 <= fix_mul_spec(a.z as int, b.x as int) <= bm,
        -bm - 1 <= fix_mul_spec(a.x as int, b.z as int) <= bm,
        -bm - 1 <= fix_mul_spec(a.x as int, b.y as int) <= bm,
        -bm - 1 <= fix_mul_spec(a.y as int, b.x as int) <= bm,
{
    lemma_fix_mul_bound(a.y as int, b.z as int, 65536, bm);
    lemma_fix_mul_bound(a.z as int, b.y as int, 65536, bm);
    lemma_fix_mul_bound(a.z as int, b.x as int, 65536, bm);
    lemma_fix_mul_bound(a.x as int, b.z as int, 65536, bm);
    lemma_fix_mul_bound(a.x as int, b.y as int, 65536, bm);
    lemma_fix_mul_bound(a.y as int, b.x as int, 65536, bm);
    assert((65536 * bm) / 65536 == bm) by (nonlinear_arith);
}

/// The fixed-point cross product of a unit quaternion's vector part with a
/// vector of components within `0x2000_0000_0000`.
fn cross_fix(a: Vec3Fix, b: Vec3Fix) -> (r: Vec3Fix)
    requires
        -FIX_ONE <= a.x <= FIX_ONE,
        -FIX_ONE <= a.y <= FIX_ONE,
        -FIX_ONE <= a.z <= FIX_ONE,
        -0x2000_0000_0000 <= b.x <= 0x2000_0000_0000,
        -0x2000_0000_0000 <= b.y <= 0x2000_0000_0000,
        -0x2000_0000_0000 <= b.z <= 0x2000_0000_0000,
    ensures
        r == cross_fix_spec(a, b),
{
    proof {
        lemma_cross_bounds(a, b, 0x2000_0000_0000);
    }
    let x = fix_mul(a.y, b.z) - fix_mul(a.z, b.y);
    let y = fix_mul(a.z, b.x) - fix_mul(a.x, b.z);
    let z = fix_mul(a.x, b.y) - fix_mul(a.y, b.x);
    Vec3Fix { x, y, z }
}

impl QuatFix {
    /// Rotates `v` by this quaternion. A zero vector stays zero, and the
    /// result of rotating a well-formed vector stays within the range that
    /// `normalize_or_zero` accepts.
    pub fn rotate(self, v: Vec3Fix) -> (r: Vec3Fix)
        requires
            self.wf(),
            v.wf(),
        ensures
            r == rotate_spec(self, v),
            v == Vec3Fix::zero_spec() ==> r == Vec3Fix::zero_spec(),
            -NORM_INPUT_LIMIT <= r.x <= NORM_INPUT_LIMIT,
            -NORM_INPUT_LIMIT <= r.y <= NORM_INPUT_LIMIT,
            -NORM_INPUT_LIMIT <= r.z <= NORM_INPUT_LIMIT,
    {
        let qv = Vec3Fix { x: self.x, y: self.y, z: self.z };
        proof {
            lemma_cross_bounds(qv, v, 0x100_0000_0000);
        }
        let c1 = cross_fix(qv, v);
        let t = Vec3Fix { x: 2 * c1.x, y: 2 * c1.y, z: 2 * c1.z };
        proof {
            lemma_cross_bounds(qv, t, 0x400_0000_0002);
            lemma_fix_mul_bound(self.w as int, t.x as int, 65536, 0x400_0000_0002);
            lemma_fix_mul_bound(self.w as int, t.y as int, 65536, 0x400_0000_0002);
            lemma_fix_mul_bound(self.w as int, t.z as int, 65536, 0x400_0000_0002);
            assert((65536int * 0x400_0000_0002) / 65536 == 0x400_0000_0002) by (nonlinear_arith);
        }
        let wt = Vec3Fix { x: fix_mul(self.w, t.x), y: fix_mul(self.w, t.y), z: fix_mul(self.w, t.z) };
        let c2 = cross_fix(qv, t);
        let r = Vec3Fix { x: v.x + wt.x + c2.x, y: v.y + wt.y + c2.y, z: v.z + wt.z + c2.z };
        proof {
            if v == Vec3Fix::zero_spec() {
                assert(v.x == 0 && v.y == 0 && v.z == 0);
                assert((qv.y as int) * (v.z as int) == 0 && (qv.z as int) * (v.y as int) == 0 && (
                qv.z as int) * (v.x as int) == 0 && (qv.x as int) * (v.z as int) == 0 && (
                qv.x as int) * (v.y as int) == 0 && (qv.y as int) * (v.x as int) == 0)
                    by (nonlinear_arith)
                    requires v.x == 0 && v.y == 0 && v.z == 0;
                assert(0int / 65536 == 0);
                assert(c1 == Vec3Fix::zero_spec());
                assert(t == Vec3Fix::zero_spec());
                assert((self.w as int) * (t.x as int) == 0 && (self.w as int) * (t.y as int) == 0
                    && (self.w as int) * (t.z as int) == 0) by (nonlinear_arith)
                    requires t.x == 0 && t.y == 0 && t.z == 0;
                assert((qv.y as int) * (t.z as int) == 0 && (qv.z as int) * (t.y as int) == 0 && (
                qv.z as int) * (t.x as int) == 0 && (qv.x as int) * (t.z as int) == 0 && (
                qv.x as int) * (t.y as int) == 0 && (qv.y as int) * (t.x as int) == 0)
                    by (nonlinear_arith)
                    requires t.x == 0 && t.y == 0 && t.z == 0;
                assert(wt == Vec3Fix::zero_spec());
                assert(c2 == Vec3Fix::zero_spec());
                assert(r == Vec3Fix::zero_spec());
            }
        }
        r
    }
}

} // verus!
