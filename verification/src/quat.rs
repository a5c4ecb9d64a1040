//! Quaternions of IEEE-754 bit patterns.
//!
//! `QuatB` stores the bit pattern of each component in `x, y, z, w` order,
//! the memory order of `glam::Quat`.  Trigonometric constructors, the
//! Hamilton product and normalization are trusted `glam` kernels; the
//! conjugate is a plain sign-bit flip and is implemented and verified here.

use crate::vec3::SIGN_BIT;
use vstd::prelude::*;

verus! {

/// A quaternion of four single-precision bit patterns.
#[derive(Clone, Copy, PartialEq, Eq, Structural, Debug)]
pub struct QuatB {
    pub x: u32,
    pub y: u32,
    pub z: u32,
    pub w: u32,
}

/// The bit pattern of `1.0f32`, the `w` component of the identity.
pub const B_ONE_W: u32 = 0x3F80_0000;

impl QuatB {
    /// The identity quaternion `(0, 0, 0, 1)`: no rotation.
    pub fn identity() -> (r: QuatB)
        ensures
            r == quat_identity(),
    {
        QuatB { x: 0, y: 0, z: 0, w: B_ONE_W }
    }

    /// The conjugate: every imaginary component negated.
    ///
    /// Negating an IEEE-754 value flips its sign bit, so the conjugate needs
    /// no floating-point arithmetic; `glam::Quat::conjugate` is the same
    /// sign-bit flip.
    pub fn conjugate(self) -> (r: QuatB)
        ensures
            r == quat_conjugate_of(self),
    {
        QuatB { x: self.x ^ SIGN_BIT, y: self.y ^ SIGN_BIT, z: self.z ^ SIGN_BIT, w: self.w }
    }
}

/// The identity quaternion's bit patterns.
pub open spec fn quat_identity() -> QuatB {
    QuatB { x: 0u32, y: 0u32, z: 0u32, w: B_ONE_W }
}

/// Sign-bit flip of the three imaginary components.
pub open spec fn quat_conjugate_of(q: QuatB) -> QuatB {
    QuatB { x: q.x ^ SIGN_BIT, y: q.y ^ SIGN_BIT, z: q.z ^ SIGN_BIT, w: q.w }
}

/// Bit patterns of the Hamilton product `a * b`.
pub uninterp spec fn quat_mul_of(a: QuatB, b: QuatB) -> QuatB;

/// Bit patterns of `q` scaled to unit length.
pub uninterp spec fn quat_normalize_of(q: QuatB) -> QuatB;

/// Relies on glam::Quat::from_rotation_x: the quaternion
/// `(sin(angle/2), 0, 0, cos(angle/2))`.  `sin_cos` rests on the platform
/// math library, whose precision varies, so nothing is assumed of the
/// result: callers carry the returned quaternion.
#[verifier::external_body]
pub(crate) fn quat_rot_x(angle: u32) -> QuatB {
    let q = glam::Quat::from_rotation_x(bytemuck::cast(angle));
    let c = bytemuck::cast::<glam::Quat, [u32; 4]>(q);
    QuatB { x: c[0], y: c[1], z: c[2], w: c[3] }
}

/// Relies on glam::Quat::from_rotation_y: the quaternion
/// `(0, sin(angle/2), 0, cos(angle/2))`.  As with the x rotation, nothing
/// is assumed of the platform-computed result.
#[verifier::external_body]
pub(crate) fn quat_rot_y(angle: u32) -> QuatB {
    let q = glam::Quat::from_rotation_y(bytemuck::cast(angle));
    let c = bytemuck::cast::<glam::Quat, [u32; 4]>(q);
    QuatB { x: c[0], y: c[1], z: c[2], w: c[3] }
}

/// Relies on glam::Quat's `Mul`, the Hamilton product.
#[verifier::external_body]
pub(crate) fn quat_mul(a: QuatB, b: QuatB) -> (r: QuatB)
    ensures
        r == quat_mul_of(a, b),
{
    let qa: glam::Quat = bytemuck::cast([a.x, a.y, a.z, a.w]);
    let qb: glam::Quat = bytemuck::cast([b.x, b.y, b.z, b.w]);
    let c = bytemuck::cast::<glam::Quat, [u32; 4]>(qa * qb);
    QuatB { x: c[0], y: c[1], z: c[2], w: c[3] }
}

/// Relies on glam::Quat::normalize, which scales the quaternion by the
/// reciprocal of its length.
#[verifier::external_body]
pub(crate) fn quat_normalize(q: QuatB) -> (r: QuatB)
    ensures
        r == quat_normalize_of(q),
{
    let qq: glam::Quat = bytemuck::cast([q.x, q.y, q.z, q.w]);
    let c = bytemuck::cast::<glam::Quat, [u32; 4]>(qq.normalize());
    QuatB { x: c[0], y: c[1], z: c[2], w: c[3] }
}

} // verus!
