//! Camera configuration and the accumulated yaw/pitch state, with the only
//! two intended mutation paths for angular state.
use vstd::prelude::*;
use crate::limits::RotationLimits;
use crate::vec3::Vec3Fix;

verus! {

/// Sensitivities, smoothing rate, accumulated yaw/pitch angles and the pitch
/// clamp range. Angles are fixed-point degrees. `rotate_pitch` and
/// `rotate_yaw` are the mutation paths for the angle fields: every other
/// component treats them as read-only. Pitch (`x_angle`) is re-clamped to
/// the configured limits by every mutation; yaw (`y_angle`) is unbounded.
#[derive(Clone, Copy, PartialEq, Eq, Structural, Debug)]
pub struct CameraSettings {
    pub x_sensitivity: i64,
    pub y_sensitivity: i64,
    pub smoothing: i64,
    pub head_position: Vec3Fix,
    pub x_limits: RotationLimits,
    pub x_angle: i64,
    pub y_angle: i64,
}

/// The settings after a pitch rotation: the delta is added and the result
/// re-clamped to the configured limits.
pub open spec fn rotate_pitch_spec(s: CameraSettings, delta: int) -> CameraSettings {
    CameraSettings { x_angle: s.x_limits.clamp_spec(s.x_angle + delta) as i64, ..s }
}

/// The settings after a yaw rotation: the delta is added, unclamped.
pub open spec fn rotate_yaw_spec(s: CameraSettings, delta: int) -> CameraSettings {
    CameraSettings { y_angle: (s.y_angle + delta) as i64, ..s }
}

impl CameraSettings {
    /// A configuration with everything zeroed.
    pub open spec fn new_spec() -> CameraSettings {
        CameraSettings {
            x_sensitivity: 0,
            y_sensitivity: 0,
            smoothing: 0,
            head_position: Vec3Fix { x: 0, y: 0, z: 0 },
            x_limits: RotationLimits { min_degrees: 0, max_degrees: 0 },
            x_angle: 0,
            y_angle: 0,
        }
    }

    /// Builds a configuration with everything zeroed.
    pub fn new() -> (r: CameraSettings)
        ensures
            r == Self::new_spec(),
    {
        CameraSettings {
            x_sensitivity: 0,
            y_sensitivity: 0,
            smoothing: 0,
            head_position: Vec3Fix { x: 0, y: 0, z: 0 },
            x_limits: RotationLimits { min_degrees: 0, max_degrees: 0 },
            x_angle: 0,
            y_angle: 0,
        }
    }

    /// Adds `delta` to the accumulated pitch and re-clamps it to the
    /// configured limits, so the limits hold after every mutation, however
    /// large the delta. Nothing else changes.
    pub fn rotate_pitch(&mut self, delta: i64)
        requires
            i64::MIN <= old(self).x_angle + delta <= i64::MAX,
        ensures
            *final(self) == rotate_pitch_spec(*old(self), delta as int),
            final(self).x_angle == old(self).x_limits.clamp_spec(old(self).x_angle + delta),
            old(self).x_limits.min_degrees <= old(self).x_limits.max_degrees ==> old(
                self,
            ).x_limits.min_degrees <= final(self).x_angle <= old(self).x_limits.max_degrees,
    {
        self.x_angle = self.x_limits.clamp(self.x_angle + delta);
    }

    /// Adds `delta` to the accumulated yaw, unclamped. Nothing else changes.
    pub fn rotate_yaw(&mut self, delta: i64)
        requires
            i64::MIN <= old(self).y_angle + delta <= i64::MAX,
        ensures
            *final(self) == rotate_yaw_spec(*old(self), delta as int),
            final(self).y_angle == old(self).y_angle + delta,
    {
        self.y_angle = self.y_angle + delta;
    }
}

/// Yaw accumulation is purely additive: rotating by `d1` and then by `d2`
/// leaves the same state as rotating once by `d1 + d2`.
pub proof fn lemma_rotate_yaw_additive(s: CameraSettings, d1: int, d2: int)
    requires
        i64::MIN <= s.y_angle + d1 <= i64::MAX,
        i64::MIN <= s.y_angle + d1 + d2 <= i64::MAX,
    ensures
        rotate_yaw_spec(rotate_yaw_spec(s, d1), d2) == rotate_yaw_spec(s, d1 + d2),
{
}

} // verus!
