//! Column-major 4x4 matrices of IEEE-754 bit patterns.
//!
//! `Mat4b` stores 16 single-precision bit patterns in `glam::Mat4`'s memory
//! order: the four columns `x_axis, y_axis, z_axis, w_axis`, each `(x, y,
//! z, w)`.  This is also the order in which the words are uploaded to the
//! GPU.  Building a translation matrix or reading a column is pure data
//! movement and is verified; rotation, projection and the matrix product
//! are trusted `glam` kernels.

use crate::quat::QuatB;
use crate::vec3::Vec3b;
use vstd::prelude::*;

verus! {

/// The bit pattern of `1.0f32`.
pub const B_ONE: u32 = 0x3F80_0000;

/// A 4x4 matrix of single-precision bit patterns, column-major.
#[derive(Clone, Copy, PartialEq, Debug)]
#[verifier::ext_equal]
pub struct Mat4b {
    pub e: [u32; 16],
}

/// The identity matrix's 16 words in column-major order.
pub open spec fn identity_seq() -> Seq<u32> {
    seq![
        B_ONE, 0u32, 0u32, 0u32,
        0u32, B_ONE, 0u32, 0u32,
        0u32, 0u32, B_ONE, 0u32,
        0u32, 0u32, 0u32, B_ONE,
    ]
}

/// The translation matrix's 16 words: the identity with `t` in the fourth
/// column.
pub open spec fn translation_seq(t: Vec3b) -> Seq<u32> {
    seq![
        B_ONE, 0u32, 0u32, 0u32,
        0u32, B_ONE, 0u32, 0u32,
        0u32, 0u32, B_ONE, 0u32,
        t.x, t.y, t.z, B_ONE,
    ]
}

/// The identity matrix.
pub open spec fn identity_mat() -> Mat4b {
    Mat4b {
        e: [
            B_ONE, 0u32, 0u32, 0u32,
            0u32, B_ONE, 0u32, 0u32,
            0u32, 0u32, B_ONE, 0u32,
            0u32, 0u32, 0u32, B_ONE,
        ],
    }
}

/// The matrix that translates by `t`: the identity with `t` in the fourth
/// column.
pub open spec fn translation_mat(t: Vec3b) -> Mat4b {
    Mat4b {
        e: [
            B_ONE, 0u32, 0u32, 0u32,
            0u32, B_ONE, 0u32, 0u32,
            0u32, 0u32, B_ONE, 0u32,
            t.x, t.y, t.z, B_ONE,
        ],
    }
}

/// The first three words of column `c` of `m`, as a vector.
pub open spec fn column3_of(m: Mat4b, c: int) -> Vec3b {
    Vec3b { x: m.e@[4 * c], y: m.e@[4 * c + 1], z: m.e@[4 * c + 2] }
}

impl Mat4b {
    /// The identity matrix.
    pub fn identity() -> (r: Mat4b)
        ensures
            r == identity_mat(),
            r.e@ == identity_seq(),
    {
        let m = Mat4b {
            e: [
                B_ONE, 0, 0, 0,
                0, B_ONE, 0, 0,
                0, 0, B_ONE, 0,
                0, 0, 0, B_ONE,
            ],
        };
        proof {
            assert(m.e@ =~= identity_seq());
        }
        m
    }

    /// The matrix that translates by `t`: the identity with `t` as the
    /// fourth column.  Pure data movement, as in glam::Mat4::from_translation.
    pub fn from_translation(t: Vec3b) -> (r: Mat4b)
        ensures
            r == translation_mat(t),
            r.e@ == translation_seq(t),
    {
        let m = Mat4b {
            e: [
                B_ONE, 0, 0, 0,
                0, B_ONE, 0, 0,
                0, 0, B_ONE, 0,
                t.x, t.y, t.z, B_ONE,
            ],
        };
        proof {
            assert(m.e@ =~= translation_seq(t));
        }
        m
    }

    /// The first three words of the first column (`x_axis` truncated).
    pub fn x_axis_vec3(&self) -> (r: Vec3b)
        ensures
            r == column3_of(*self, 0),
    {
        Vec3b { x: self.e[0], y: self.e[1], z: self.e[2] }
    }

    /// The first three words of the third column (`z_axis` truncated).
    pub fn z_axis_vec3(&self) -> (r: Vec3b)
        ensures
            r == column3_of(*self, 2),
    {
        Vec3b { x: self.e[8], y: self.e[9], z: self.e[10] }
    }
}

/// Bit patterns of the rotation matrix of the quaternion `q`.
pub uninterp spec fn mat_from_quat_of(q: QuatB) -> Mat4b;

/// Bit patterns of the matrix product `a * b`.
pub uninterp spec fn mat_mul_of(a: Mat4b, b: Mat4b) -> Mat4b;

/// Relies on glam::Mat4::from_quat, the rotation matrix of a quaternion.
#[verifier::external_body]
pub(crate) fn mat_from_quat(q: QuatB) -> (r: Mat4b)
    ensures
        r == mat_from_quat_of(q),
{
    let qq: glam::Quat = bytemuck::cast([q.x, q.y, q.z, q.w]);
    Mat4b { e: bytemuck::cast::<glam::Mat4, [u32; 16]>(glam::Mat4::from_quat(qq)) }
}

/// Relies on glam::Mat4's `Mul`, the matrix product.
#[verifier::external_body]
pub(crate) fn mat_mul(a: Mat4b, b: Mat4b) -> (r: Mat4b)
    ensures
        r == mat_mul_of(a, b),
{
    let ma: glam::Mat4 = bytemuck::cast(a.e);
    let mb: glam::Mat4 = bytemuck::cast(b.e);
    Mat4b { e: bytemuck::cast::<glam::Mat4, [u32; 16]>(ma * mb) }
}

/// Relies on glam::Mat4::perspective_lh, the left-handed perspective
/// projection with depth range `[0, 1]`.  It computes `sin_cos` of half
/// the field of view through the platform math library, whose precision
/// varies, so nothing is assumed of the result: callers carry the
/// returned matrix.
#[verifier::external_body]
pub(crate) fn mat_perspective_lh(fov_y: u32, aspect: u32, z_near: u32, z_far: u32) -> Mat4b {
    let s = bytemuck::cast::<[u32; 4], glam::Vec4>([fov_y, aspect, z_near, z_far]);
    let m = glam::Mat4::perspective_lh(s.x, s.y, s.z, s.w);
    Mat4b { e: bytemuck::cast::<glam::Mat4, [u32; 16]>(m) }
}

} // verus!
