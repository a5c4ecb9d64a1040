//! Camera integration behavior, checked against live glam arithmetic.

use rendercore::camera::{Camera, CameraMoveDirection};
use rendercore::mat4::Mat4b;
use rendercore::vec3::{Vec2b, Vec3b};

fn v3(v: glam::Vec3) -> Vec3b {
    let a = v.to_array();
    Vec3b { x: a[0].to_bits(), y: a[1].to_bits(), z: a[2].to_bits() }
}

fn v3f(v: Vec3b) -> glam::Vec3 {
    glam::Vec3::new(f32::from_bits(v.x), f32::from_bits(v.y), f32::from_bits(v.z))
}

const DT: u32 = 0x3C88_8889;

#[test]
fn constants_match_their_float_values() {
    assert_eq!(f32::from_bits(rendercore::camera::B_ACCELERATION), 50.0f32);
    assert_eq!(f32::from_bits(rendercore::camera::B_MAX_VELOCITY), 5.0f32);
    assert_eq!(
        f32::from_bits(rendercore::camera::B_ANGULAR_ACCELERATION),
        6.0f32 * std::f32::consts::PI
    );
    assert_eq!(
        f32::from_bits(rendercore::camera::B_MAX_ANGULAR_VELOCITY),
        2.0f32 * std::f32::consts::PI
    );
    assert_eq!(f32::from_bits(rendercore::camera::B_FRAC_PI_4), std::f32::consts::PI / 4.0);
    assert_eq!(f32::from_bits(rendercore::camera::B_PIXEL_SCALE), 1024.0f32);
    assert_eq!(f32::from_bits(rendercore::camera::B_DAMPING_BASE), 1e-4f32);
    assert_eq!(f32::from_bits(rendercore::engine::B_DT), 1.0f32 / 60.0f32);
    assert_eq!(f32::from_bits(rendercore::renderer::B_FOV_Y), 45.0f32.to_radians());
    assert_eq!(f32::from_bits(rendercore::renderer::B_Z_NEAR), 0.1f32);
    assert_eq!(f32::from_bits(rendercore::renderer::B_Z_FAR), 100.0f32);
    assert_eq!(f32::from_bits(rendercore::renderer::B_DEPTH_CLEAR), 1.0f32);
    assert_eq!(f64::from_bits(rendercore::renderer::B64_ONE), 1.0f64);
    assert_eq!(f32::from_bits(rendercore::geometry::B_POS_INFINITY), f32::INFINITY);
    assert_eq!(f32::from_bits(rendercore::geometry::B_NEG_INFINITY), f32::NEG_INFINITY);
    assert_eq!(f32::from_bits(rendercore::geometry::B_TWO), 2.0f32);
}

#[test]
fn new_camera_is_at_rest_at_origin() {
    let c = Camera::new();
    assert_eq!(v3f(c.position), glam::Vec3::ZERO);
    assert_eq!(v3f(c.velocity), glam::Vec3::ZERO);
    let q = glam::Quat::from_xyzw(
        f32::from_bits(c.rotation.x),
        f32::from_bits(c.rotation.y),
        f32::from_bits(c.rotation.z),
        f32::from_bits(c.rotation.w),
    );
    assert_eq!(q, glam::Quat::IDENTITY);
}

#[test]
fn forward_movement_saturates_at_max_velocity() {
    // Camera at origin, identity orientation: move forward for 60 steps.
    // With acceleration 50 and max speed 5, the speed saturates after
    // 0.1 s, i.e. by step 6.
    let mut c = Camera::new();
    let dirs = [CameraMoveDirection::Forward];
    for step in 0..60 {
        c.move_to(&dirs, DT);
        let v = v3f(c.velocity);
        if step >= 6 {
            assert!((v.length() - 5.0).abs() < 1e-4, "step {step}: {v}");
        }
    }
    let v = v3f(c.velocity);
    assert!(v.x.abs() < 1e-6);
    assert!(v.y.abs() < 1e-6);
    assert!((v.z - 5.0).abs() < 1e-4);
}

#[test]
fn velocity_is_clamped_for_arbitrary_states() {
    // The clamp invariant: after move_to the speed never exceeds the
    // maximum, whatever the starting state and requested directions.
    let rotations = [
        glam::Quat::IDENTITY,
        glam::Quat::from_rotation_y(0.7),
        glam::Quat::from_rotation_x(-1.2) * glam::Quat::from_rotation_y(2.9),
    ];
    let starts = [glam::Vec3::ZERO, glam::Vec3::new(4.0, -3.0, 2.0), glam::Vec3::new(-40.0, 0.5, 9.0)];
    let dir_sets: [&[CameraMoveDirection]; 3] = [
        &[CameraMoveDirection::Forward],
        &[CameraMoveDirection::Forward, CameraMoveDirection::Left],
        &[
            CameraMoveDirection::Backward,
            CameraMoveDirection::Right,
            CameraMoveDirection::Right,
        ],
    ];
    for q in rotations {
        for v0 in starts {
            for dirs in dir_sets {
                let mut c = Camera::new();
                let qa = q.to_array();
                c.rotation.x = qa[0].to_bits();
                c.rotation.y = qa[1].to_bits();
                c.rotation.z = qa[2].to_bits();
                c.rotation.w = qa[3].to_bits();
                c.velocity = v3(v0);
                c.move_to(dirs, DT);
                let v = v3f(c.velocity);
                assert!(v.length() <= 5.0 + 1e-4);

                // And the change matches the requested directions rotated
                // into world space, computed independently.
                let m = glam::Mat4::from_quat(q);
                let forward = m.z_axis.truncate();
                let strafe = m.x_axis.truncate();
                let (mut dx, mut dz) = (0.0f32, 0.0f32);
                for d in dirs {
                    match d {
                        CameraMoveDirection::Forward => dz += 1.0,
                        CameraMoveDirection::Left => dx -= 1.0,
                        CameraMoveDirection::Backward => dz -= 1.0,
                        CameraMoveDirection::Right => dx += 1.0,
                    }
                }
                dx *= 50.0 * f32::from_bits(DT);
                dz *= 50.0 * f32::from_bits(DT);
                let expected = (v0 + ((dz * forward) + (dx * strafe))).clamp_length(0.0, 5.0);
                assert_eq!(c.velocity, v3(expected));
            }
        }
    }
}

#[test]
fn damping_strictly_shrinks_velocity() {
    // With no further input, each update strictly shrinks a nonzero
    // velocity, and repeated updates drive it to zero.
    let mut c = Camera::new();
    c.velocity = v3(glam::Vec3::new(1.0, -2.0, 3.0));
    let mut prev = v3f(c.velocity).length();
    for _ in 0..120 {
        c.update(DT);
        let len = v3f(c.velocity).length();
        if prev > 0.0 {
            assert!(len < prev);
        }
        prev = len;
    }
    assert!(prev < 1e-6);
}

#[test]
fn update_integrates_position_and_rederives_rotation() {
    let mut c = Camera::new();
    c.velocity = v3(glam::Vec3::new(0.6, 0.0, -1.5));
    c.angular_velocity = v3(glam::Vec3::new(0.02, -0.01, 0.0));
    c.angles = v3(glam::Vec3::new(0.3, 0.4, 0.0));
    let p0 = v3f(c.position);
    let v0 = v3f(c.velocity);
    let a0 = v3f(c.angles);
    let w0 = v3f(c.angular_velocity);
    c.update(DT);

    let dt = f32::from_bits(DT);
    assert_eq!(c.position, v3(p0 + v0 * dt));
    let damp = (1e-4f32).powf(dt);
    assert_eq!(c.velocity, v3(v0 * damp));
    assert_eq!(c.angles, v3(a0 + w0));
    assert_eq!(c.angular_velocity, v3(w0 * damp));

    let angles = a0 + w0;
    let qp = glam::Quat::from_rotation_x(angles.x);
    let qy = glam::Quat::from_rotation_y(angles.y);
    let expected = (qy * qp).normalize().to_array();
    assert_eq!(c.rotation.x, expected[0].to_bits());
    assert_eq!(c.rotation.y, expected[1].to_bits());
    assert_eq!(c.rotation.z, expected[2].to_bits());
    assert_eq!(c.rotation.w, expected[3].to_bits());
}

#[test]
fn look_accumulates_and_clamps_angular_velocity() {
    let mut c = Camera::new();
    let offset = glam::Vec2::new(512.0, -100.0);
    c.look(Vec2b { x: offset.x.to_bits(), y: offset.y.to_bits() }, DT);

    let dt = f32::from_bits(DT);
    let dp = (std::f32::consts::PI / 4.0) * (offset / 1024.0);
    let aa = 6.0f32 * std::f32::consts::PI;
    let pushed = glam::Vec3::new(aa * dp.y * dt, aa * dp.x * dt, 0.0);
    let expected = pushed.clamp_length(0.0, 2.0 * std::f32::consts::PI);
    assert_eq!(c.angular_velocity, v3(expected));
}

#[test]
fn view_matrix_matches_inverse_camera_transform() {
    let mut c = Camera::new();
    c.set_position(v3(glam::Vec3::new(1.0, 2.0, -3.5)));
    let q = glam::Quat::from_rotation_y(0.8) * glam::Quat::from_rotation_x(0.1);
    let qa = q.normalize().to_array();
    c.rotation.x = qa[0].to_bits();
    c.rotation.y = qa[1].to_bits();
    c.rotation.z = qa[2].to_bits();
    c.rotation.w = qa[3].to_bits();

    let m: Mat4b = c.matrix();
    let qn = glam::Quat::from_xyzw(
        f32::from_bits(c.rotation.x),
        f32::from_bits(c.rotation.y),
        f32::from_bits(c.rotation.z),
        f32::from_bits(c.rotation.w),
    );
    let t = glam::Mat4::from_translation(-v3f(c.position));
    let r = glam::Mat4::from_quat(qn.conjugate());
    let expected = (r * t).to_cols_array();
    for i in 0..16 {
        assert_eq!(m.e[i], expected[i].to_bits(), "word {i}");
    }
}
