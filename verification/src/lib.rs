//! An orbit-camera controller core: accumulates rotation input into clamped
//! yaw/pitch state, derives a target transform from an anchor, smooths
//! position and rotation toward that target over time, and republishes the
//! camera's resolved orientation and position as a movement compass.
//!
//! All angles, coordinates and rates are fixed-point values: an `i64` counts
//! units of `1 / FIX_ONE`. Angles are measured in degrees.
use vstd::prelude::*;

pub mod compass;
pub mod fixed;
pub mod input;
pub mod limits;
pub mod plugin;
pub mod quat;
pub mod settings;
pub mod update;
pub mod vec3;

verus! {

/// Number of fixed-point units that make up the value one.
pub const FIX_ONE: i64 = 65536;

} // verus!
