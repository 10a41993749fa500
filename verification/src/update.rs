//! The per-tick camera updaters, over an explicit scene model: at most one
//! camera and at most one anchor, and a missing one makes the tick a silent
//! no-op rather than an error.
use vstd::prelude::*;
use vstd::arithmetic::div_mod::lemma_div_pos_is_pos;
use crate::FIX_ONE;
use crate::fixed::{fix_mul, fix_mul_spec, lemma_fix_mul_bound};
use crate::input::INPUT_LIMIT;
use crate::quat::{rotate_spec, QuatFix};
use crate::settings::CameraSettings;
use crate::vec3::{lemma_lerp_axis_converges, lerp_spec, Vec3Fix};

verus! {

/// A position and an orientation, as the host scene graph holds them for
/// an entity.
#[derive(Clone, Copy, PartialEq, Eq, Structural, Debug)]
pub struct TransformFix {
    pub translation: Vec3Fix,
    pub rotation: QuatFix,
}

/// The object the camera follows, with an optional offset in the camera's
/// rotated local space.
#[derive(Clone, Copy, PartialEq, Eq, Structural, Debug)]
pub struct CameraAnchor(pub Option<Vec3Fix>);

/// The anchor entity as the updaters see it: its transform and its
/// `CameraAnchor` component.
#[derive(Clone, Copy, PartialEq, Eq, Structural, Debug)]
pub struct AnchorEntity {
    pub transform: TransformFix,
    pub anchor: CameraAnchor,
}

/// The slice of the scene the updaters read and write: the uniquely-tagged
/// camera's transform and the uniquely-tagged anchor entity, either of
/// which may be absent.
#[derive(Clone, Copy, PartialEq, Eq, Structural, Debug)]
pub struct CameraWorld {
    pub camera: Option<TransformFix>,
    pub anchor: Option<AnchorEntity>,
}

/// The resolved orientation and position of the camera for one frame,
/// published to whoever keeps the movement compass.
#[derive(Clone, Copy, PartialEq, Eq, Structural, Debug)]
pub struct CameraOrientation {
    pub rotation: QuatFix,
    pub translation: Vec3Fix,
}

/// A camera slot whose translation, if present, is within range.
pub open spec fn camera_translation_wf(c: Option<TransformFix>) -> bool {
    match c {
        Some(t) => t.translation.wf(),
        None => true,
    }
}

/// An anchor slot whose translation and optional offset, if present, are
/// within range.
pub open spec fn anchor_wf(a: Option<AnchorEntity>) -> bool {
    match a {
        Some(entity) => entity.transform.translation.wf() && match entity.anchor.0 {
            Some(offset) => offset.wf(),
            None => true,
        },
        None => true,
    }
}

/// The position the camera should move toward: the anchor's position,
/// displaced by the anchor's offset rotated into the camera's desired
/// orientation when an offset is configured.
pub open spec fn translation_target_spec(
    anchor_transform: TransformFix,
    anchor: CameraAnchor,
    desired_rotation: QuatFix,
) -> Vec3Fix {
    match anchor.0 {
        Some(offset) => rotate_spec(desired_rotation, offset).add_spec(
            anchor_transform.translation,
        ),
        None => anchor_transform.translation,
    }
}

/// The interpolation factor of one tick: elapsed seconds times the
/// smoothing rate, uncapped, as the translation path uses it.
pub open spec fn raw_factor_spec(elapsed: int, smoothing: int) -> int {
    fix_mul_spec(elapsed, smoothing)
}

/// The scene after one translation tick: with a camera and an anchor
/// present, the camera's position moves toward the target by the tick's
/// factor; otherwise nothing changes.
pub open spec fn translate_camera_spec(
    world: CameraWorld,
    settings: CameraSettings,
    elapsed: int,
    desired_rotation: QuatFix,
) -> CameraWorld {
    match (world.camera, world.anchor) {
        (Some(cam), Some(entity)) => {
            let target = translation_target_spec(entity.transform, entity.anchor, desired_rotation);
            let moved = lerp_spec(
                cam.translation,
                target,
                raw_factor_spec(elapsed, settings.smoothing as int),
            );
            CameraWorld {
                camera: Some(TransformFix { translation: moved, rotation: cam.rotation }),
                ..world
            }
        },
        _ => world,
    }
}

/// Repositions the camera once per tick: interpolates its position toward
/// the anchor-derived target, and does nothing when the camera or the
/// anchor is absent.
pub fn translate_camera(
    world: &mut CameraWorld,
    settings: &CameraSettings,
    elapsed: i64,
    desired_rotation: QuatFix,
)
    requires
        0 <= elapsed <= INPUT_LIMIT,
        0 <= settings.smoothing <= INPUT_LIMIT,
        desired_rotation.wf(),
        camera_translation_wf(old(world).camera),
        anchor_wf(old(world).anchor),
    ensures
        *final(world) == translate_camera_spec(
            *old(world),
            *settings,
            elapsed as int,
            desired_rotation,
        ),
        old(world).camera is None ==> *final(world) == *old(world),
        old(world).anchor is None ==> *final(world) == *old(world),
{
    proof {
        lemma_fix_mul_bound(elapsed as int, settings.smoothing as int, 0x10_0000, 0x10_0000);
        assert(elapsed * settings.smoothing >= 0) by (nonlinear_arith)
            requires elapsed >= 0 && settings.smoothing >= 0;
        lemma_div_pos_is_pos(elapsed * settings.smoothing, 65536);
    }
    let factor = fix_mul(elapsed, settings.smoothing);
    if world.camera.is_some() && world.anchor.is_some() {
        let cam = world.camera.unwrap();
        let entity = world.anchor.unwrap();
        let target = match entity.anchor.0 {
            Some(offset) => desired_rotation.rotate(offset).add(entity.transform.translation),
            None => entity.transform.translation,
        };
        let moved = cam.translation.lerp(target, factor);
        world.camera = Some(TransformFix { translation: moved, rotation: cam.rotation });
    }
}

/// With both entities present, a fixed anchor and a factor of at most one,
/// each tick keeps the camera between where it was and the target, moves
/// it strictly closer on every axis where it differs, and a factor of
/// exactly one lands it on the target.
pub proof fn lemma_translation_converges(
    world: CameraWorld,
    settings: CameraSettings,
    elapsed: int,
    desired_rotation: QuatFix,
)
    requires
        world.camera is Some,
        world.anchor is Some,
        1 <= raw_factor_spec(elapsed, settings.smoothing as int) <= FIX_ONE,
    ensures
        ({
            let target = translation_target_spec(
                world.anchor.unwrap().transform,
                world.anchor.unwrap().anchor,
                desired_rotation,
            );
            let before = world.camera.unwrap().translation;
            let after = translate_camera_spec(
                world,
                settings,
                elapsed,
                desired_rotation,
            ).camera.unwrap().translation;
            &&& before.x != target.x ==> abs_spec(target.x - after.x) < abs_spec(
                target.x - before.x,
            )
            &&& before.y != target.y ==> abs_spec(target.y - after.y) < abs_spec(
                target.y - before.y,
            )
            &&& before.z != target.z ==> abs_spec(target.z - after.z) < abs_spec(
                target.z - before.z,
            )
            &&& abs_spec(target.x - after.x) <= abs_spec(target.x - before.x)
            &&& abs_spec(target.y - after.y) <= abs_spec(target.y - before.y)
            &&& abs_spec(target.z - after.z) <= abs_spec(target.z - before.z)
            &&& raw_factor_spec(elapsed, settings.smoothing as int) == FIX_ONE ==> after == target
        }),
{
    let target = translation_target_spec(
        world.anchor.unwrap().transform,
        world.anchor.unwrap().anchor,
        desired_rotation,
    );
    let before = world.camera.unwrap().translation;
    let t = raw_factor_spec(elapsed, settings.smoothing as int);
    lemma_lerp_axis_converges(before.x as int, target.x as int, t);
    lemma_lerp_axis_converges(before.y as int, target.y as int, t);
    lemma_lerp_axis_converges(before.z as int, target.z as int, t);
}

/// The magnitude of a value.
pub open spec fn abs_spec(v: int) -> int {
    if v >= 0 {
        v
    } else {
        -v
    }
}

/// What one rotation tick asks of the scene: turn toward the orientation
/// derived from the accumulated yaw and pitch, by the clamped factor.
#[derive(Clone, Copy, PartialEq, Eq, Structural, Debug)]
pub struct RotationCommand {
    pub yaw_degrees: i64,
    pub pitch_degrees: i64,
    pub factor: i64,
}

/// The interpolation factor of one rotation tick: elapsed seconds times
/// the smoothing rate, clamped to one so that a large product snaps the
/// orientation all the way to its target.
pub open spec fn rotation_factor_spec(elapsed: int, smoothing: int) -> int {
    if fix_mul_spec(elapsed, smoothing) > FIX_ONE {
        FIX_ONE as int
    } else {
        fix_mul_spec(elapsed, smoothing)
    }
}

/// Decides one rotation tick: nothing to do without a camera; otherwise
/// the desired yaw and pitch are the accumulated angles and the factor is
/// the tick's clamped interpolation weight.
pub fn rotation_step(
    world: &CameraWorld,
    settings: &CameraSettings,
    elapsed: i64,
) -> (r: Option<RotationCommand>)
    requires
        0 <= elapsed <= INPUT_LIMIT,
        0 <= settings.smoothing <= INPUT_LIMIT,
    ensures
        r is Some <==> world.camera is Some,
        r is Some ==> r.unwrap() == (RotationCommand {
            yaw_degrees: settings.y_angle,
            pitch_degrees: settings.x_angle,
            factor: rotation_factor_spec(elapsed as int, settings.smoothing as int) as i64,
        }),
        r is Some ==> 0 <= r.unwrap().factor <= FIX_ONE,
        r is Some && fix_mul_spec(elapsed as int, settings.smoothing as int) >= FIX_ONE
            ==> r.unwrap().factor == FIX_ONE,
{
    if world.camera.is_none() {
        return None;
    }
    proof {
        lemma_fix_mul_bound(elapsed as int, settings.smoothing as int, 0x10_0000, 0x10_0000);
        assert(elapsed * settings.smoothing >= 0) by (nonlinear_arith)
            requires elapsed >= 0 && settings.smoothing >= 0;
        lemma_div_pos_is_pos(elapsed * settings.smoothing, 65536);
    }
    let product = fix_mul(elapsed, settings.smoothing);
    let factor = if product > FIX_ONE {
        FIX_ONE
    } else {
        product
    };
    Some(
        RotationCommand {
            yaw_degrees: settings.y_angle,
            pitch_degrees: settings.x_angle,
            factor,
        },
    )
}

/// Writes the interpolated orientation back to the camera's transform and
/// returns the notification that publishes the resolved orientation and
/// position for this frame.
pub fn apply_camera_rotation(world: &mut CameraWorld, new_rotation: QuatFix) -> (ev:
    CameraOrientation)
    requires
        old(world).camera is Some,
    ensures
        final(world).camera == Some(
            TransformFix {
                translation: old(world).camera.unwrap().translation,
                rotation: new_rotation,
            },
        ),
        final(world).anchor == old(world).anchor,
        ev == (CameraOrientation {
            rotation: new_rotation,
            translation: old(world).camera.unwrap().translation,
        }),
{
    let cam = world.camera.unwrap();
    world.camera = Some(TransformFix { translation: cam.translation, rotation: new_rotation });
    CameraOrientation { rotation: new_rotation, translation: cam.translation }
}

} // verus!
