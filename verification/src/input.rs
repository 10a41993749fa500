//! Translation of queued rotation-input events into angle deltas: each event
//! is scaled by sensitivity and the frame's elapsed time, with the sign
//! inverted for conventional mouse-look semantics, and folded into the
//! accumulated angles in order.
use vstd::prelude::*;
use crate::fixed::{fix_mul, fix_mul_spec, lemma_fix_mul_bound};
use crate::settings::{rotate_pitch_spec, rotate_yaw_spec, CameraSettings};
use crate::vec3::Vec2Fix;

verus! {

/// A request to rotate the camera by a 2D input delta.
#[derive(Clone, Copy, PartialEq, Eq, Structural, Debug)]
pub struct RotateCameraEvent(pub Vec2Fix);

/// One full turn, in fixed-point degrees.
pub const FULL_TURN_DEGREES: i64 = 360 * 65536;

/// Largest input coordinate, sensitivity, elapsed time or event count the
/// handler operates on.
pub const INPUT_LIMIT: i64 = 0x10_0000;

/// Largest angle delta a single scaled event can produce.
pub const DELTA_LIMIT: i64 = 0x20_0000_0000;

/// Largest accumulated angle the handler accepts; leaves headroom for a
/// whole queue of maximal deltas.
pub const ANGLE_LIMIT: i64 = 0x4000_0000_0000_0000;

/// The angle delta of one input axis: the input value, sign-inverted, times
/// a full turn, the elapsed seconds, and the sensitivity.
pub open spec fn scaled_delta_spec(v: int, elapsed: int, sensitivity: int) -> int {
    fix_mul_spec(fix_mul_spec(fix_mul_spec(-v, FULL_TURN_DEGREES as int), elapsed), sensitivity)
}

/// A single scaled event delta lies within `DELTA_LIMIT`.
pub proof fn lemma_scaled_delta_bound(v: int, elapsed: int, sensitivity: int)
    requires
        -INPUT_LIMIT <= v <= INPUT_LIMIT,
        -INPUT_LIMIT <= elapsed <= INPUT_LIMIT,
        -INPUT_LIMIT <= sensitivity <= INPUT_LIMIT,
    ensures
        -DELTA_LIMIT <= scaled_delta_spec(v, elapsed, sensitivity) <= DELTA_LIMIT,
{
    lemma_fix_mul_bound(-v, FULL_TURN_DEGREES as int, 0x10_0000, 0x168_0000);
    lemma_fix_mul_bound(
        fix_mul_spec(-v, FULL_TURN_DEGREES as int),
        elapsed,
        0x1680_0001,
        0x10_0000,
    );
    lemma_fix_mul_bound(
        fix_mul_spec(fix_mul_spec(-v, FULL_TURN_DEGREES as int), elapsed),
        sensitivity,
        0x1_6800_0011,
        0x10_0000,
    );
}

/// Scales one input axis into an angle delta.
pub fn scaled_rotation_delta(v: i64, elapsed: i64, sensitivity: i64) -> (r: i64)
    requires
        -INPUT_LIMIT <= v <= INPUT_LIMIT,
        -INPUT_LIMIT <= elapsed <= INPUT_LIMIT,
        -INPUT_LIMIT <= sensitivity <= INPUT_LIMIT,
    ensures
        r == scaled_delta_spec(v as int, elapsed as int, sensitivity as int),
        -DELTA_LIMIT <= r <= DELTA_LIMIT,
{
    proof {
        lemma_fix_mul_bound(-(v as int), FULL_TURN_DEGREES as int, 0x10_0000, 0x168_0000);
    }
    let a = fix_mul(-v, FULL_TURN_DEGREES);
    proof {
        lemma_fix_mul_bound(a as int, elapsed as int, 0x1680_0001, 0x10_0000);
    }
    let b = fix_mul(a, elapsed);
    proof {
        lemma_fix_mul_bound(b as int, sensitivity as int, 0x1_6800_0011, 0x10_0000);
    }
    let c = fix_mul(b, sensitivity);
    proof {
        lemma_scaled_delta_bound(v as int, elapsed as int, sensitivity as int);
    }
    c
}

/// The settings after one event: a nonzero x axis turns the yaw, a nonzero
/// y axis turns the pitch, each scaled by its own sensitivity; zero axes
/// mutate nothing.
pub open spec fn apply_event_spec(
    s: CameraSettings,
    e: RotateCameraEvent,
    elapsed: int,
) -> CameraSettings {
    let s1 = if e.0.x != 0 {
        rotate_yaw_spec(s, scaled_delta_spec(e.0.x as int, elapsed, s.x_sensitivity as int))
    } else {
        s
    };
    if e.0.y != 0 {
        rotate_pitch_spec(s1, scaled_delta_spec(e.0.y as int, elapsed, s1.y_sensitivity as int))
    } else {
        s1
    }
}

/// The settings after the first `n` events of the queue, applied in order.
pub open spec fn apply_events_spec(
    s: CameraSettings,
    events: Seq<RotateCameraEvent>,
    elapsed: int,
    n: int,
) -> CameraSettings
    decreases n,
{
    if n <= 0 {
        s
    } else {
        apply_event_spec(apply_events_spec(s, events, elapsed, n - 1), events[n - 1], elapsed)
    }
}

/// Consumes the queued rotation events in order, scaling each by the
/// frame's elapsed time and the configured sensitivities and folding the
/// deltas into the accumulated angles.
pub fn read_camera_rotation_inputs(
    settings: &mut CameraSettings,
    events: &Vec<RotateCameraEvent>,
    elapsed: i64,
)
    requires
        0 <= elapsed <= INPUT_LIMIT,
        -INPUT_LIMIT <= old(settings).x_sensitivity <= INPUT_LIMIT,
        -INPUT_LIMIT <= old(settings).y_sensitivity <= INPUT_LIMIT,
        -ANGLE_LIMIT <= old(settings).x_angle <= ANGLE_LIMIT,
        -ANGLE_LIMIT <= old(settings).y_angle <= ANGLE_LIMIT,
        -ANGLE_LIMIT <= old(settings).x_limits.min_degrees <= ANGLE_LIMIT,
        -ANGLE_LIMIT <= old(settings).x_limits.max_degrees <= ANGLE_LIMIT,
        events.len() <= INPUT_LIMIT,
        forall|i: int|
            0 <= i < events.len() ==> -INPUT_LIMIT <= (#[trigger] events[i]).0.x <= INPUT_LIMIT
                && -INPUT_LIMIT <= events[i].0.y <= INPUT_LIMIT,
    ensures
        *final(settings) == apply_events_spec(
            *old(settings),
            events@,
            elapsed as int,
            events.len() as int,
        ),
{
    let n = events.len();
    let mut i: usize = 0;
    while i < n
        invariant
            0 <= i <= n,
            n == events.len(),
            n <= INPUT_LIMIT,
            0 <= elapsed <= INPUT_LIMIT,
            *settings == apply_events_spec(*old(settings), events@, elapsed as int, i as int),
            settings.x_sensitivity == old(settings).x_sensitivity,
            settings.y_sensitivity == old(settings).y_sensitivity,
            settings.x_limits == old(settings).x_limits,
            -INPUT_LIMIT <= settings.x_sensitivity <= INPUT_LIMIT,
            -INPUT_LIMIT <= settings.y_sensitivity <= INPUT_LIMIT,
            -ANGLE_LIMIT <= settings.x_limits.min_degrees <= ANGLE_LIMIT,
            -ANGLE_LIMIT <= settings.x_limits.max_degrees <= ANGLE_LIMIT,
            -ANGLE_LIMIT <= settings.x_angle <= ANGLE_LIMIT,
            -ANGLE_LIMIT - (i as int) * (DELTA_LIMIT as int) <= settings.y_angle <= ANGLE_LIMIT
                + (i as int) * (DELTA_LIMIT as int),
            forall|j: int|
                0 <= j < events.len() ==> -INPUT_LIMIT <= (#[trigger] events[j]).0.x <= INPUT_LIMIT
                    && -INPUT_LIMIT <= events[j].0.y <= INPUT_LIMIT,
        decreases n - i,
    {
        let e = events[i];
        if e.0.x != 0 {
            let d = scaled_rotation_delta(e.0.x, elapsed, settings.x_sensitivity);
            settings.rotate_yaw(d);
        }
        if e.0.y != 0 {
            let d = scaled_rotation_delta(e.0.y, elapsed, settings.y_sensitivity);
            settings.rotate_pitch(d);
        }
        i = i + 1;
    }
}

} // verus!
