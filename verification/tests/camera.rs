use victimless_camera::compass::{update_compass, MovementCompass};
use victimless_camera::fixed::{div_floor, fix_mul, isqrt};
use victimless_camera::input::{read_camera_rotation_inputs, scaled_rotation_delta, RotateCameraEvent};
use victimless_camera::limits::RotationLimits;
use victimless_camera::plugin::VictimlessCameraPlugin;
use victimless_camera::quat::QuatFix;
use victimless_camera::settings::CameraSettings;
use victimless_camera::update::{
    apply_camera_rotation, rotation_step, translate_camera, AnchorEntity, CameraAnchor,
    CameraOrientation, CameraWorld, TransformFix,
};
use victimless_camera::vec3::{Vec2Fix, Vec3Fix};
use victimless_camera::FIX_ONE;

const DEG: i64 = FIX_ONE;

fn base_settings() -> CameraSettings {
    let mut s = CameraSettings::new();
    s.x_sensitivity = FIX_ONE;
    s.y_sensitivity = FIX_ONE;
    s.smoothing = FIX_ONE;
    s.x_limits = RotationLimits {
        min_degrees: -45 * DEG,
        max_degrees: 60 * DEG,
    };
    s
}

fn world_with(camera: Vec3Fix, anchor: Vec3Fix, offset: Option<Vec3Fix>) -> CameraWorld {
    CameraWorld {
        camera: Some(TransformFix {
            translation: camera,
            rotation: QuatFix::identity(),
        }),
        anchor: Some(AnchorEntity {
            transform: TransformFix {
                translation: anchor,
                rotation: QuatFix::identity(),
            },
            anchor: CameraAnchor(offset),
        }),
    }
}

#[test]
fn clamp_above_max_returns_max() {
    let limits = RotationLimits {
        min_degrees: -45 * DEG,
        max_degrees: 60 * DEG,
    };
    assert_eq!(limits.clamp(100 * DEG), 60 * DEG);
}

#[test]
fn clamp_below_min_returns_min() {
    let limits = RotationLimits {
        min_degrees: -45 * DEG,
        max_degrees: 60 * DEG,
    };
    assert_eq!(limits.clamp(-90 * DEG), -45 * DEG);
}

#[test]
fn clamp_inside_range_is_unchanged() {
    let limits = RotationLimits {
        min_degrees: -45 * DEG,
        max_degrees: 60 * DEG,
    };
    assert_eq!(limits.clamp(10 * DEG), 10 * DEG);
}

#[test]
fn rotate_pitch_saturates_at_limits() {
    let mut s = base_settings();
    s.rotate_pitch(100000 * DEG);
    assert_eq!(s.x_angle, 60 * DEG);
    s.rotate_pitch(-300000 * DEG);
    assert_eq!(s.x_angle, -45 * DEG);
    s.rotate_pitch(10 * DEG);
    assert_eq!(s.x_angle, -35 * DEG);
}

#[test]
fn rotate_yaw_is_additive() {
    let mut one = base_settings();
    one.rotate_yaw(7 * DEG);
    one.rotate_yaw(-19 * DEG);
    let mut two = base_settings();
    two.rotate_yaw(7 * DEG - 19 * DEG);
    assert_eq!(one, two);
    assert_eq!(one.y_angle, -12 * DEG);
}

#[test]
fn fix_mul_rounds_toward_negative_infinity() {
    assert_eq!(fix_mul(3 * FIX_ONE, 5 * FIX_ONE), 15 * FIX_ONE);
    assert_eq!(fix_mul(-3 * FIX_ONE, 5 * FIX_ONE), -15 * FIX_ONE);
    assert_eq!(fix_mul(1, 1), 0);
    assert_eq!(fix_mul(-1, 1), -1);
}

#[test]
fn quarter_turn_event_turns_yaw_by_ninety_degrees() {
    // sensitivity one, one elapsed second, input x = 0.25:
    // the yaw delta is -0.25 of a full turn, exactly -90 degrees.
    let delta = scaled_rotation_delta(FIX_ONE / 4, FIX_ONE, FIX_ONE);
    assert_eq!(delta, -90 * DEG);

    let mut s = base_settings();
    let events = vec![RotateCameraEvent(Vec2Fix {
        x: FIX_ONE / 4,
        y: 0,
    })];
    read_camera_rotation_inputs(&mut s, &events, FIX_ONE);
    assert_eq!(s.y_angle, -90 * DEG);
    assert_eq!(s.x_angle, 0);
}

#[test]
fn zero_axes_produce_no_mutation() {
    let mut s = base_settings();
    let events = vec![RotateCameraEvent(Vec2Fix { x: 0, y: 0 })];
    read_camera_rotation_inputs(&mut s, &events, FIX_ONE);
    assert_eq!(s, base_settings());
}

#[test]
fn events_apply_in_order_with_both_axes() {
    let mut s = base_settings();
    let events = vec![
        RotateCameraEvent(Vec2Fix { x: FIX_ONE / 4, y: 0 }),
        RotateCameraEvent(Vec2Fix {
            x: -FIX_ONE / 8,
            y: FIX_ONE / 2,
        }),
    ];
    read_camera_rotation_inputs(&mut s, &events, FIX_ONE);
    assert_eq!(s.y_angle, -90 * DEG + 45 * DEG);
    // pitch asked for -180 degrees and saturated at the lower limit
    assert_eq!(s.x_angle, -45 * DEG);
}

#[test]
fn translation_converges_monotonically_without_offset() {
    // smoothing 0.25 per second, kept fixed while the anchor stands still
    let mut s = base_settings();
    s.smoothing = FIX_ONE / 4;
    let anchor = Vec3Fix {
        x: 10 * FIX_ONE,
        y: 0,
        z: -3 * FIX_ONE,
    };
    let mut world = world_with(Vec3Fix { x: 0, y: 0, z: 0 }, anchor, None);
    let mut last = i64::MAX;
    for _ in 0..50 {
        translate_camera(&mut world, &s, FIX_ONE, QuatFix::identity());
        let cam = world.camera.unwrap().translation;
        let dist = (anchor.x - cam.x).abs() + (anchor.y - cam.y).abs() + (anchor.z - cam.z).abs();
        assert!(dist < last);
        last = dist;
        if dist == 0 {
            break;
        }
    }
    assert!(last < FIX_ONE / 100);
}

#[test]
fn translation_factor_one_snaps_to_anchor() {
    let s = base_settings();
    let anchor = Vec3Fix {
        x: 7 * FIX_ONE,
        y: 2 * FIX_ONE,
        z: 0,
    };
    let mut world = world_with(Vec3Fix { x: -FIX_ONE, y: 0, z: 9 }, anchor, None);
    translate_camera(&mut world, &s, FIX_ONE, QuatFix::identity());
    assert_eq!(world.camera.unwrap().translation, anchor);
}

#[test]
fn translation_applies_rotated_offset_under_identity() {
    let s = base_settings();
    let anchor = Vec3Fix {
        x: FIX_ONE,
        y: FIX_ONE,
        z: FIX_ONE,
    };
    let offset = Vec3Fix {
        x: 0,
        y: 2 * FIX_ONE,
        z: 5 * FIX_ONE,
    };
    let mut world = world_with(Vec3Fix { x: 0, y: 0, z: 0 }, anchor, Some(offset));
    translate_camera(&mut world, &s, FIX_ONE, QuatFix::identity());
    let cam = world.camera.unwrap().translation;
    assert_eq!(
        cam,
        Vec3Fix {
            x: FIX_ONE,
            y: 3 * FIX_ONE,
            z: 6 * FIX_ONE,
        }
    );
}

#[test]
fn missing_camera_is_a_silent_noop() {
    let s = base_settings();
    let mut world = CameraWorld {
        camera: None,
        anchor: Some(AnchorEntity {
            transform: TransformFix {
                translation: Vec3Fix { x: FIX_ONE, y: 0, z: 0 },
                rotation: QuatFix::identity(),
            },
            anchor: CameraAnchor(None),
        }),
    };
    let before = world;
    translate_camera(&mut world, &s, FIX_ONE, QuatFix::identity());
    assert_eq!(world, before);
    assert!(rotation_step(&world, &s, FIX_ONE).is_none());
}

#[test]
fn missing_anchor_is_a_silent_noop() {
    let s = base_settings();
    let mut world = CameraWorld {
        camera: Some(TransformFix {
            translation: Vec3Fix { x: 0, y: 0, z: 0 },
            rotation: QuatFix::identity(),
        }),
        anchor: None,
    };
    let before = world;
    translate_camera(&mut world, &s, FIX_ONE, QuatFix::identity());
    assert_eq!(world, before);
}

#[test]
fn rotation_step_reports_angles_and_clamped_factor() {
    let mut s = base_settings();
    s.smoothing = 2 * FIX_ONE;
    s.rotate_yaw(30 * DEG);
    s.rotate_pitch(10 * DEG);
    let world = world_with(Vec3Fix { x: 0, y: 0, z: 0 }, Vec3Fix { x: 0, y: 0, z: 0 }, None);
    let command = rotation_step(&world, &s, FIX_ONE).unwrap();
    assert_eq!(command.yaw_degrees, 30 * DEG);
    assert_eq!(command.pitch_degrees, 10 * DEG);
    // elapsed * smoothing = 2, clamped to exactly one
    assert_eq!(command.factor, FIX_ONE);

    let gentle = rotation_step(&world, &s, FIX_ONE / 8).unwrap();
    assert_eq!(gentle.factor, FIX_ONE / 4);
}

#[test]
fn apply_camera_rotation_publishes_the_new_orientation() {
    let mut world = world_with(
        Vec3Fix { x: 4 * FIX_ONE, y: 0, z: 0 },
        Vec3Fix { x: 0, y: 0, z: 0 },
        None,
    );
    let new_rotation = QuatFix {
        x: 0,
        y: 46341,
        z: 0,
        w: 46341,
    };
    let event = apply_camera_rotation(&mut world, new_rotation);
    assert_eq!(world.camera.unwrap().rotation, new_rotation);
    assert_eq!(event.rotation, new_rotation);
    assert_eq!(
        event.translation,
        Vec3Fix { x: 4 * FIX_ONE, y: 0, z: 0 }
    );
}

#[test]
fn update_compass_copies_the_notification() {
    let mut compass = MovementCompass::initial();
    let orientation = CameraOrientation {
        rotation: QuatFix { x: 1, y: 2, z: 3, w: 4 },
        translation: Vec3Fix { x: 5, y: 6, z: 7 },
    };
    update_compass(&mut compass, &orientation);
    assert_eq!(compass.0, orientation.rotation);
    assert_eq!(compass.1, orientation.translation);
    assert_eq!(compass.position(), orientation.translation);
}

#[test]
fn interpolate_direction_zero_input_gives_zero_vector() {
    let compass = MovementCompass::initial();
    let r = compass.interpolate_direction(Vec2Fix { x: 0, y: 0 });
    assert_eq!(r, Vec3Fix { x: 0, y: 0, z: 0 });
}

#[test]
fn interpolate_direction_identity_maps_x_to_x_and_y_to_forward() {
    let compass = MovementCompass::initial();
    let right = compass.interpolate_direction(Vec2Fix { x: FIX_ONE, y: 0 });
    assert_eq!(right, Vec3Fix { x: FIX_ONE, y: 0, z: 0 });
    let forward = compass.interpolate_direction(Vec2Fix { x: 0, y: FIX_ONE });
    assert_eq!(forward, Vec3Fix { x: 0, y: 0, z: -FIX_ONE });
}

#[test]
fn direction_under_identity_is_negative_z() {
    let compass = MovementCompass::initial();
    assert_eq!(
        compass.direction(),
        Vec3Fix { x: 0, y: 0, z: -FIX_ONE }
    );
}

#[test]
fn interpolate_direction_normalizes_long_inputs() {
    let compass = MovementCompass::initial();
    // input (3, 4): the rotated vector is (3, 0, -4) scaled; its length is 5
    let r = compass.interpolate_direction(Vec2Fix {
        x: 3 * FIX_ONE,
        y: 4 * FIX_ONE,
    });
    // x: 3 * 65536 * 65536 / (5 * 65536) rounded down
    assert_eq!(r.x, 39321);
    assert_eq!(r.y, 0);
    assert_eq!(r.z, -52429);
}

#[test]
fn builder_sets_each_field() {
    let plugin = VictimlessCameraPlugin::new()
        .with_x_sensitivity(3 * FIX_ONE)
        .with_y_sensitivity(FIX_ONE / 2)
        .with_smoothing(5 * FIX_ONE)
        .with_x_limits(-30 * DEG, 80 * DEG);
    assert_eq!(plugin.0.x_sensitivity, 3 * FIX_ONE);
    assert_eq!(plugin.0.y_sensitivity, FIX_ONE / 2);
    assert_eq!(plugin.0.smoothing, 5 * FIX_ONE);
    assert_eq!(plugin.0.x_limits.min_degrees, -30 * DEG);
    assert_eq!(plugin.0.x_limits.max_degrees, 80 * DEG);
    assert_eq!(plugin.0.x_angle, 0);
    assert_eq!(plugin.0.y_angle, 0);
}

#[test]
fn inverted_limits_send_everything_to_a_bound() {
    let limits = RotationLimits {
        min_degrees: 60 * DEG,
        max_degrees: -45 * DEG,
    };
    // below min: the min branch wins first
    assert_eq!(limits.clamp(0), 60 * DEG);
    // at or above min: everything is above max, so max wins
    assert_eq!(limits.clamp(70 * DEG), -45 * DEG);
}

#[test]
fn fixed_point_rotation_matches_the_host_engine_math() {
    // a quarter turn about the y axis, as bevy's math library computes it
    let q = bevy::math::Quat::from_rotation_y(std::f32::consts::FRAC_PI_2);
    let to_fix = |f: f32| (f * 65536.0).round() as i64;
    let qf = QuatFix {
        x: to_fix(q.x),
        y: to_fix(q.y),
        z: to_fix(q.z),
        w: to_fix(q.w),
    };
    let v = bevy::math::Vec3::new(1.0, 0.0, 0.0);
    let rotated = q * v;
    let compass = MovementCompass(qf, Vec3Fix { x: 0, y: 0, z: 0 });
    let r = compass.interpolate_direction(Vec2Fix { x: FIX_ONE, y: 0 });
    assert!((r.x - to_fix(rotated.x)).abs() <= 32);
    assert!((r.y - to_fix(rotated.y)).abs() <= 32);
    assert!((r.z - to_fix(rotated.z)).abs() <= 32);
}

#[test]
fn host_engine_slerp_snaps_at_factor_one() {
    // the rotation updater clamps its factor at one; at one, slerp lands on
    // the desired orientation
    let a = bevy::math::Quat::from_rotation_y(0.3);
    let b = bevy::math::Quat::from_rotation_y(2.1) * bevy::math::Quat::from_rotation_x(0.4);
    let s = a.slerp(b, 1.0);
    assert!(s.angle_between(b) < 1e-3);
}

#[test]
fn isqrt_rounds_down() {
    assert_eq!(isqrt(0), 0);
    assert_eq!(isqrt(15), 3);
    assert_eq!(isqrt(16), 4);
    assert_eq!(isqrt(17), 4);
    assert_eq!(isqrt((1u128 << 90) - 1), (1 << 45) - 1);
}

#[test]
fn div_floor_rounds_toward_negative_infinity() {
    assert_eq!(div_floor(7, 2), 3);
    assert_eq!(div_floor(-7, 2), -4);
    assert_eq!(div_floor(-8, 2), -4);
}

#[test]
fn rotate_pitch_at_a_limit_stays_there() {
    let mut s = base_settings();
    s.rotate_pitch(60 * DEG);
    assert_eq!(s.x_angle, 60 * DEG);
    s.rotate_pitch(1);
    assert_eq!(s.x_angle, 60 * DEG);
    s.rotate_pitch(-1);
    assert_eq!(s.x_angle, 60 * DEG - 1);
}
