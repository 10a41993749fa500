//! Builder-style configuration for the camera controller: a plain value
//! assembled once at startup, which the host-engine glue turns into the
//! running systems' settings.
use vstd::prelude::*;
use crate::limits::RotationLimits;
use crate::settings::CameraSettings;

verus! {

/// The camera controller's configuration, built fluently and handed to the
/// host engine at startup.
#[derive(Clone, Copy, PartialEq, Eq, Structural, Debug)]
pub struct VictimlessCameraPlugin(pub CameraSettings);

impl VictimlessCameraPlugin {
    /// A configuration with everything zeroed.
    pub fn new() -> (r: Self)
        ensures
            r.0 == CameraSettings::new_spec(),
    {
        VictimlessCameraPlugin(CameraSettings::new())
    }

    /// Sets the horizontal (yaw) input sensitivity.
    pub fn with_x_sensitivity(self, value: i64) -> (r: Self)
        ensures
            r.0 == (CameraSettings { x_sensitivity: value, ..self.0 }),
    {
        let mut settings = self.0;
        settings.x_sensitivity = value;
        VictimlessCameraPlugin(settings)
    }

    /// Sets the vertical (pitch) input sensitivity.
    pub fn with_y_sensitivity(self, value: i64) -> (r: Self)
        ensures
            r.0 == (CameraSettings { y_sensitivity: value, ..self.0 }),
    {
        let mut settings = self.0;
        settings.y_sensitivity = value;
        VictimlessCameraPlugin(settings)
    }

    /// Sets the per-second smoothing rate for position and rotation.
    pub fn with_smoothing(self, value: i64) -> (r: Self)
        ensures
            r.0 == (CameraSettings { smoothing: value, ..self.0 }),
    {
        let mut settings = self.0;
        settings.smoothing = value;
        VictimlessCameraPlugin(settings)
    }

    /// Sets the pitch clamp range, in fixed-point degrees.
    pub fn with_x_limits(self, min: i64, max: i64) -> (r: Self)
        ensures
            r.0 == (CameraSettings {
                x_limits: RotationLimits { min_degrees: min, max_degrees: max },
                ..self.0
            }),
    {
        let mut settings = self.0;
        settings.x_limits = RotationLimits { min_degrees: min, max_degrees: max };
        VictimlessCameraPlugin(settings)
    }
}

} // verus!
