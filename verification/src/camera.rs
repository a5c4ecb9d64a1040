//! First-person camera with damped linear and angular motion.
//!
//! State lives in world units per second and is advanced once per frame.
//! All values are IEEE-754 bit patterns; every step of the integration is
//! specified exactly in terms of the named floating-point kernels, so the
//! contracts pin the whole data flow of each update.

use crate::mat4::{column3_of, mat_from_quat, mat_from_quat_of, mat_mul, mat_mul_of, translation_mat, Mat4b};
use crate::numeric::{f32_add, f32_add_of, f32_div, f32_div_of, f32_mul, f32_mul_of, f32_powf, i32_to_f32, f32_of_i32};
use crate::quat::{quat_conjugate_of, quat_identity, quat_mul, quat_mul_of, quat_normalize, quat_normalize_of, quat_rot_x, quat_rot_y, QuatB};
use crate::vec3::{v3_add, v3_add_of, v3_clamp_length, v3_clamp_length_of, v3_neg_of, v3_scale, v3_scale_of, Vec2b, Vec3b};
use vstd::prelude::*;

verus! {

/// Bit pattern of `0.0f32`.
pub const B_ZERO: u32 = 0x0000_0000;

/// Bit pattern of `50.0f32`: the default linear acceleration.
pub const B_ACCELERATION: u32 = 0x4248_0000;

/// Bit pattern of `5.0f32`: the default maximum linear speed.
pub const B_MAX_VELOCITY: u32 = 0x40A0_0000;

/// Bit pattern of `6.0f32 * PI`: the default angular acceleration.
pub const B_ANGULAR_ACCELERATION: u32 = 0x4196_CBE4;

/// Bit pattern of `2.0f32 * PI`: the default maximum angular speed.
pub const B_MAX_ANGULAR_VELOCITY: u32 = 0x40C9_0FDB;

/// Bit pattern of `PI / 4.0f32`: the angle a 1024-pixel offset maps to.
pub const B_FRAC_PI_4: u32 = 0x3F49_0FDB;

/// Bit pattern of `1024.0f32`: the pixel scale of the look mapping.
pub const B_PIXEL_SCALE: u32 = 0x4480_0000;

/// Bit pattern of `1.0e-4f32`: the per-second velocity retention base.
pub const B_DAMPING_BASE: u32 = 0x38D1_B717;

/// Largest direction count for which single-precision accumulation of unit
/// steps stays exact (2^24).
pub const MAX_DIRECTIONS: usize = 0x0100_0000;

/// Camera state.
///
/// Temporal properties use world units/sec as a unit system.  The
/// orientation is re-derived from the accumulated pitch/yaw angles on every
/// update; angular velocity only feeds the angle accumulator.
#[derive(Clone, Copy, PartialEq, Eq, Structural, Debug)]
pub struct Camera {
    pub position: Vec3b,
    pub rotation: QuatB,
    pub angles: Vec3b,
    pub velocity: Vec3b,
    pub angular_velocity: Vec3b,
    pub acceleration: u32,
    pub max_velocity: u32,
    pub angular_acceleration: u32,
    pub max_angular_velocity: u32,
}

/// A movement request in camera-local axes.
#[derive(Clone, Copy, Debug)]
pub enum CameraMoveDirection {
    Forward,
    Left,
    Backward,
    Right,
}

/// Contribution of one direction to the local x (strafe) axis.
pub open spec fn dir_dx(d: CameraMoveDirection) -> int {
    match d {
        CameraMoveDirection::Left => -1,
        CameraMoveDirection::Right => 1,
        _ => 0,
    }
}

/// Contribution of one direction to the local z (forward) axis.
pub open spec fn dir_dz(d: CameraMoveDirection) -> int {
    match d {
        CameraMoveDirection::Forward => 1,
        CameraMoveDirection::Backward => -1,
        _ => 0,
    }
}

/// Sum of the strafe contributions of a direction sequence.
pub open spec fn dx_sum(ds: Seq<CameraMoveDirection>) -> int
    decreases ds.len(),
{
    if ds.len() == 0 {
        0
    } else {
        dx_sum(ds.drop_last()) + dir_dx(ds.last())
    }
}

/// Sum of the forward contributions of a direction sequence.
pub open spec fn dz_sum(ds: Seq<CameraMoveDirection>) -> int
    decreases ds.len(),
{
    if ds.len() == 0 {
        0
    } else {
        dz_sum(ds.drop_last()) + dir_dz(ds.last())
    }
}

/// The velocity `move_to` leaves behind: the old velocity plus the scaled
/// local direction sum, its length clamped to `[0, max]`.
pub open spec fn moved_velocity(
    velocity: Vec3b,
    rotation: QuatB,
    acceleration: u32,
    max_velocity: u32,
    dx: int,
    dz: int,
    dt: u32,
) -> Vec3b {
    let m = mat_from_quat_of(rotation);
    let forward = column3_of(m, 2);
    let strafe = column3_of(m, 0);
    let step = f32_mul_of(acceleration, dt);
    let dxs = f32_mul_of(f32_of_i32(dx as i32), step);
    let dzs = f32_mul_of(f32_of_i32(dz as i32), step);
    let pushed = v3_add_of(velocity, v3_add_of(v3_scale_of(forward, dzs), v3_scale_of(strafe, dxs)));
    v3_clamp_length_of(pushed, B_ZERO, max_velocity)
}

/// The angular velocity `look` leaves behind: the pixel offset mapped to an
/// angle (1024 px = pi/4 rad, the axes swapped so vertical motion drives
/// pitch), scaled by the angular acceleration, added in, and clamped.
pub open spec fn looked_angular_velocity(
    angular_velocity: Vec3b,
    angular_acceleration: u32,
    max_angular_velocity: u32,
    offset: Vec2b,
    dt: u32,
) -> Vec3b {
    let dpx = f32_mul_of(B_FRAC_PI_4, f32_div_of(offset.x, B_PIXEL_SCALE));
    let dpy = f32_mul_of(B_FRAC_PI_4, f32_div_of(offset.y, B_PIXEL_SCALE));
    let pushed = Vec3b {
        x: f32_add_of(angular_velocity.x, f32_mul_of(f32_mul_of(angular_acceleration, dpy), dt)),
        y: f32_add_of(angular_velocity.y, f32_mul_of(f32_mul_of(angular_acceleration, dpx), dt)),
        z: angular_velocity.z,
    };
    v3_clamp_length_of(pushed, B_ZERO, max_angular_velocity)
}

/// The camera after `move_to`: only the velocity changes.
pub open spec fn camera_after_move(c: Camera, dirs: Seq<CameraMoveDirection>, dt: u32) -> Camera {
    Camera {
        velocity: moved_velocity(
            c.velocity,
            c.rotation,
            c.acceleration,
            c.max_velocity,
            dx_sum(dirs),
            dz_sum(dirs),
            dt,
        ),
        ..c
    }
}

/// The camera after `look`: only the angular velocity changes.
pub open spec fn camera_after_look(c: Camera, offset: Vec2b, dt: u32) -> Camera {
    Camera {
        angular_velocity: looked_angular_velocity(
            c.angular_velocity,
            c.angular_acceleration,
            c.max_angular_velocity,
            offset,
            dt,
        ),
        ..c
    }
}

/// The camera after `update`, given the values the platform math library
/// returned: `damp` for the damping factor `(1e-4)^dt`, `qp` and `qy` for
/// the pitch and yaw quaternions of the accumulated angles.  The position
/// integrates `velocity * dt`; one shared damping factor scales both
/// velocities; the angles accumulate the raw angular velocity; the
/// orientation is the normalized yaw-pitch composition.
pub open spec fn camera_after_update_with(
    c: Camera,
    dt: u32,
    damp: u32,
    qp: QuatB,
    qy: QuatB,
) -> Camera {
    let angles = v3_add_of(c.angles, c.angular_velocity);
    Camera {
        position: v3_add_of(c.position, v3_scale_of(c.velocity, dt)),
        velocity: v3_scale_of(c.velocity, damp),
        angles,
        rotation: quat_normalize_of(quat_mul_of(qy, qp)),
        angular_velocity: v3_scale_of(c.angular_velocity, damp),
        ..c
    }
}

/// The view matrix: the conjugate rotation applied after the negated
/// translation.
pub open spec fn view_matrix_of(position: Vec3b, rotation: QuatB) -> Mat4b {
    mat_mul_of(mat_from_quat_of(quat_conjugate_of(rotation)), translation_mat(v3_neg_of(position)))
}

/// The camera `new` builds: at the origin, identity orientation, at rest,
/// with the default tuning constants.
pub open spec fn default_camera() -> Camera {
    Camera {
        position: Vec3b { x: 0u32, y: 0u32, z: 0u32 },
        rotation: quat_identity(),
        angles: Vec3b { x: 0u32, y: 0u32, z: 0u32 },
        velocity: Vec3b { x: 0u32, y: 0u32, z: 0u32 },
        angular_velocity: Vec3b { x: 0u32, y: 0u32, z: 0u32 },
        acceleration: B_ACCELERATION,
        max_velocity: B_MAX_VELOCITY,
        angular_acceleration: B_ANGULAR_ACCELERATION,
        max_angular_velocity: B_MAX_ANGULAR_VELOCITY,
    }
}

impl Camera {
    /// A camera at the origin with identity orientation and the default
    /// tuning constants.
    pub fn new() -> (r: Camera)
        ensures
            r == default_camera(),
    {
        Camera {
            position: Vec3b::zero(),
            rotation: QuatB::identity(),
            angles: Vec3b::zero(),
            velocity: Vec3b::zero(),
            angular_velocity: Vec3b::zero(),
            acceleration: B_ACCELERATION,
            max_velocity: B_MAX_VELOCITY,
            angular_acceleration: B_ANGULAR_ACCELERATION,
            max_angular_velocity: B_MAX_ANGULAR_VELOCITY,
        }
    }

    /// Accumulate movement impulses for this frame.
    ///
    /// Unit contributions of the requested directions are summed in
    /// camera-local axes, scaled by `acceleration * dt`, added to the
    /// velocity, and the velocity's length is clamped to `[0,
    /// max_velocity]`.  The length bound keeps the unit-step sum exact in
    /// single precision.
    pub fn move_to(&mut self, directions: &[CameraMoveDirection], dt: u32)
        requires
            directions@.len() <= MAX_DIRECTIONS,
        ensures
            *final(self) == camera_after_move(*old(self), directions@, dt),
    {
        let m = mat_from_quat(self.rotation);
        let forward = m.z_axis_vec3();
        let strafe = m.x_axis_vec3();

        let mut dx: i32 = 0;
        let mut dz: i32 = 0;
        let mut i: usize = 0;
        while i < directions.len()
            invariant
                i <= directions@.len(),
                directions@.len() <= MAX_DIRECTIONS,
                dx == dx_sum(directions@.take(i as int)),
                dz == dz_sum(directions@.take(i as int)),
                -(i as int) <= dx as int <= i as int,
                -(i as int) <= dz as int <= i as int,
            decreases directions@.len() - i,
        {
            proof {
                assert(directions@.take(i + 1).drop_last() =~= directions@.take(i as int));
            }
            match directions[i] {
                CameraMoveDirection::Forward => { dz = dz + 1; },
                CameraMoveDirection::Left => { dx = dx - 1; },
                CameraMoveDirection::Backward => { dz = dz - 1; },
                CameraMoveDirection::Right => { dx = dx + 1; },
            }
            i = i + 1;
        }
        proof {
            assert(directions@.take(directions@.len() as int) =~= directions@);
        }

        let step = f32_mul(self.acceleration, dt);
        let dxs = f32_mul(i32_to_f32(dx), step);
        let dzs = f32_mul(i32_to_f32(dz), step);
        let pushed = v3_add(self.velocity, v3_add(v3_scale(forward, dzs), v3_scale(strafe, dxs)));
        self.velocity = v3_clamp_length(pushed, B_ZERO, self.max_velocity);
    }

    /// Accumulate a look impulse from a pixel offset.
    pub fn look(&mut self, offset: Vec2b, dt: u32)
        ensures
            *final(self) == camera_after_look(*old(self), offset, dt),
    {
        let dpx = f32_mul(B_FRAC_PI_4, f32_div(offset.x, B_PIXEL_SCALE));
        let dpy = f32_mul(B_FRAC_PI_4, f32_div(offset.y, B_PIXEL_SCALE));
        let av = self.angular_velocity;
        let pushed = Vec3b {
            x: f32_add(av.x, f32_mul(f32_mul(self.angular_acceleration, dpy), dt)),
            y: f32_add(av.y, f32_mul(f32_mul(self.angular_acceleration, dpx), dt)),
            z: av.z,
        };
        self.angular_velocity = v3_clamp_length(pushed, B_ZERO, self.max_angular_velocity);
    }

    /// Place the camera.
    pub fn set_position(&mut self, position: Vec3b)
        ensures
            *final(self) == (Camera { position, ..*old(self) }),
    {
        self.position = position;
    }

    /// Advance the state by `dt` seconds.
    ///
    /// The position integrates `velocity * dt`; both velocities retain the
    /// fraction `(1e-4)^dt` of their magnitude; the angles accumulate the
    /// raw angular velocity (an Euler step per update, deliberately not
    /// scaled by `dt`); the orientation is re-derived from the angles.
    /// The damping factor and the two rotation quaternions come from the
    /// platform math library, so the contract carries them as values: one
    /// shared factor damps both velocities, and the rotation is the
    /// normalized yaw-pitch composition of the two quaternions.
    pub fn update(&mut self, dt: u32)
        ensures
            exists|damp: u32, qp: QuatB, qy: QuatB|
                *final(self) == camera_after_update_with(*old(self), dt, damp, qp, qy),
    {
        // Movement
        self.position = v3_add(self.position, v3_scale(self.velocity, dt));
        let damp = f32_powf(B_DAMPING_BASE, dt);
        self.velocity = v3_scale(self.velocity, damp);

        // Rotation
        self.angles = v3_add(self.angles, self.angular_velocity);
        let qp = quat_rot_x(self.angles.x);
        let qy = quat_rot_y(self.angles.y);
        self.rotation = quat_normalize(quat_mul(qy, qp));
        self.angular_velocity = v3_scale(self.angular_velocity, damp);
        proof {
            assert(*self == camera_after_update_with(*old(self), dt, damp, qp, qy));
        }
    }

    /// The view matrix: rotate by the conjugate orientation after
    /// translating by the negated position.
    pub fn matrix(&self) -> (r: Mat4b)
        ensures
            r == view_matrix_of(self.position, self.rotation),
    {
        let t = Mat4b::from_translation(self.position.neg());
        let r = mat_from_quat(self.rotation.conjugate());
        mat_mul(r, t)
    }
}

} // verus!
