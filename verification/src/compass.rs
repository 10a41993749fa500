//! The movement compass: a read-only snapshot of the camera's resolved
//! rotation and position, with derived directional queries.
use vstd::prelude::*;
use vstd::arithmetic::div_mod::lemma_fundamental_div_mod_converse;
use crate::FIX_ONE;
use crate::fixed::lemma_sqrt_floor_unique;
use crate::quat::{rotate_spec, QuatFix};
use crate::update::CameraOrientation;
use crate::vec3::{normalize_spec, norm_sq_spec, Vec2Fix, Vec3Fix, COORD_LIMIT};

verus! {

/// A snapshot of the camera's current world rotation and position, for
/// movement logic that wants to steer relative to where the camera looks.
#[derive(Clone, Copy, PartialEq, Eq, Structural, Debug)]
pub struct MovementCompass(pub QuatFix, pub Vec3Fix);

/// The canonical forward axis: one unit down the negative z axis.
pub open spec fn forward_axis_spec() -> Vec3Fix {
    Vec3Fix { x: 0, y: 0, z: (-FIX_ONE) as i64 }
}

/// The direction an input pair points before rotation: x to the right,
/// y forward (negative z), nothing vertical.
pub open spec fn input_axis_spec(input: Vec2Fix) -> Vec3Fix {
    Vec3Fix { x: input.x, y: 0, z: (-input.y) as i64 }
}

impl MovementCompass {
    /// A compass at the origin with the identity rotation.
    pub open spec fn initial_spec() -> MovementCompass {
        MovementCompass(QuatFix::identity_spec(), Vec3Fix::zero_spec())
    }

    /// What `direction` returns: the unit forward vector of the stored
    /// rotation.
    pub open spec fn direction_spec(self) -> Vec3Fix {
        normalize_spec(rotate_spec(self.0, forward_axis_spec()))
    }

    /// What `interpolate_direction` returns: the input pair laid onto the
    /// horizontal plane, rotated by the stored rotation and rescaled to
    /// unit length; zero input gives the zero vector.
    pub open spec fn interpolate_direction_spec(self, input: Vec2Fix) -> Vec3Fix {
        normalize_spec(rotate_spec(self.0, input_axis_spec(input)))
    }

    /// Builds the startup snapshot: identity rotation at the origin.
    pub fn initial() -> (r: MovementCompass)
        ensures
            r == Self::initial_spec(),
    {
        MovementCompass(QuatFix::identity(), Vec3Fix::zero())
    }

    /// Returns the forward vector of the compass: the stored rotation
    /// applied to the canonical forward axis, at unit length.
    pub fn direction(&self) -> (r: Vec3Fix)
        requires
            self.0.wf(),
        ensures
            r == self.direction_spec(),
            -FIX_ONE <= r.x <= FIX_ONE,
            -FIX_ONE <= r.y <= FIX_ONE,
            -FIX_ONE <= r.z <= FIX_ONE,
    {
        let forward = Vec3Fix { x: 0, y: 0, z: -FIX_ONE };
        self.0.rotate(forward).normalize_or_zero()
    }

    /// Returns the stored position, verbatim.
    pub fn position(&self) -> (r: Vec3Fix)
        ensures
            r == self.1,
    {
        self.1
    }

    /// Converts a 2D input pair into the world-space direction it points
    /// relative to where the camera is facing: the pair is laid onto the
    /// horizontal plane, rotated by the stored rotation and rescaled to
    /// unit length. A degenerate (zero) input gives the zero vector.
    pub fn interpolate_direction(&self, input: Vec2Fix) -> (r: Vec3Fix)
        requires
            self.0.wf(),
            -COORD_LIMIT <= input.x <= COORD_LIMIT,
            -COORD_LIMIT <= input.y <= COORD_LIMIT,
        ensures
            r == self.interpolate_direction_spec(input),
            input.x == 0 && input.y == 0 ==> r == Vec3Fix::zero_spec(),
            -FIX_ONE <= r.x <= FIX_ONE,
            -FIX_ONE <= r.y <= FIX_ONE,
            -FIX_ONE <= r.z <= FIX_ONE,
    {
        let v = Vec3Fix { x: input.x, y: 0, z: -input.y };
        self.0.rotate(v).normalize_or_zero()
    }
}

/// Handles the per-frame orientation notification: copies the resolved
/// rotation and position into the compass. Pure assignment.
pub fn update_compass(compass: &mut MovementCompass, orientation: &CameraOrientation)
    ensures
        final(compass).0 == orientation.rotation,
        final(compass).1 == orientation.translation,
{
    compass.0 = orientation.rotation;
    compass.1 = orientation.translation;
}

/// Rotating by the identity quaternion moves nothing.
pub proof fn lemma_rotate_identity(v: Vec3Fix)
    requires
        v.wf(),
    ensures
        rotate_spec(QuatFix::identity_spec(), v) == v,
{
    let q = QuatFix::identity_spec();
    assert(0int * v.z == 0 && 0int * v.y == 0 && 0int * v.x == 0) by (nonlinear_arith);
    assert(0int / 65536 == 0);
    let t = crate::quat::double_spec(crate::quat::cross_fix_spec(q.vec_part(), v));
    assert(t == Vec3Fix::zero_spec());
    assert(65536int * 0 == 0 && 0int * 0 == 0) by (nonlinear_arith);
    assert(rotate_spec(q, v) == v);
}

/// Under the identity rotation, a unit input along +x points along the
/// world +x axis, and a unit input along +y points forward, along -z.
pub proof fn lemma_interpolate_direction_identity()
    ensures
        MovementCompass::initial_spec().interpolate_direction_spec(
            Vec2Fix { x: FIX_ONE, y: 0 },
        ) == (Vec3Fix { x: FIX_ONE, y: 0, z: 0 }),
        MovementCompass::initial_spec().interpolate_direction_spec(
            Vec2Fix { x: 0, y: FIX_ONE },
        ) == (Vec3Fix { x: 0, y: 0, z: (-FIX_ONE) as i64 }),
{
    let vx = Vec3Fix { x: FIX_ONE, y: 0, z: 0 };
    let vy = Vec3Fix { x: 0, y: 0, z: (-FIX_ONE) as i64 };
    lemma_rotate_identity(vx);
    lemma_rotate_identity(vy);
    assert(65536int * 65536 == 0x1_0000_0000 && (-65536int) * (-65536int) == 0x1_0000_0000 && 0int
        * 0 == 0 && 65537int * 65537 == 0x1_0002_0001) by (nonlinear_arith);
    assert(norm_sq_spec(vx) == 0x1_0000_0000);
    assert(norm_sq_spec(vy) == 0x1_0000_0000);
    lemma_sqrt_floor_unique(0x1_0000_0000nat, 65536nat);
    lemma_fundamental_div_mod_converse(0x1_0000_0000, 65536, 65536, 0);
    lemma_fundamental_div_mod_converse(-0x1_0000_0000, 65536, -65536, 0);
    lemma_fundamental_div_mod_converse(0, 65536, 0, 0);
    assert(normalize_spec(vx) == vx);
    assert(normalize_spec(vy) == vy);
}

} // verus!
