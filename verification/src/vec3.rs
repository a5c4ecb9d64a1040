//! Three-component vectors of IEEE-754 bit patterns.
//!
//! `Vec3b` stores the bit pattern of each component.  Arithmetic kernels are
//! trusted wrappers around `glam::Vec3`; sign negation is a plain sign-bit
//! flip and is implemented and verified here.  The kernels' rounding is
//! fixed exactly by IEEE-754, so their results are named; where operands
//! produce a NaN, the standard fixes only NaN-ness, and the names also fix
//! the payload per operand pair.

use vstd::prelude::*;

verus! {

/// A vector of three single-precision bit patterns.
#[derive(Clone, Copy, PartialEq, Eq, Structural, Debug)]
pub struct Vec3b {
    pub x: u32,
    pub y: u32,
    pub z: u32,
}

/// A vector of two single-precision bit patterns.
#[derive(Clone, Copy, PartialEq, Eq, Structural, Debug)]
pub struct Vec2b {
    pub x: u32,
    pub y: u32,
}

impl Vec3b {
    /// The all-zero vector, the bit pattern of `(0.0, 0.0, 0.0)`.
    pub fn zero() -> (r: Vec3b)
        ensures
            r == (Vec3b { x: 0u32, y: 0u32, z: 0u32 }),
    {
        Vec3b { x: 0, y: 0, z: 0 }
    }

    /// Negation of every component.
    ///
    /// Negating an IEEE-754 value flips its sign bit and leaves every other
    /// bit unchanged, so this needs no floating-point arithmetic.
    pub fn neg(self) -> (r: Vec3b)
        ensures
            r == v3_neg_of(self),
    {
        Vec3b { x: self.x ^ SIGN_BIT, y: self.y ^ SIGN_BIT, z: self.z ^ SIGN_BIT }
    }
}

/// The sign bit of a single-precision value.
pub const SIGN_BIT: u32 = 0x8000_0000;

/// Componentwise sign-bit flip: the IEEE-754 negation of each component.
pub open spec fn v3_neg_of(v: Vec3b) -> Vec3b {
    Vec3b { x: v.x ^ SIGN_BIT, y: v.y ^ SIGN_BIT, z: v.z ^ SIGN_BIT }
}

/// Bit patterns of the componentwise sum `a + b`.
pub uninterp spec fn v3_add_of(a: Vec3b, b: Vec3b) -> Vec3b;

/// Bit patterns of the componentwise difference `a - b`.
pub uninterp spec fn v3_sub_of(a: Vec3b, b: Vec3b) -> Vec3b;

/// Bit patterns of `v` with every component multiplied by the scalar `s`.
pub uninterp spec fn v3_scale_of(v: Vec3b, s: u32) -> Vec3b;

/// Bit patterns of `v` with every component divided by the scalar `s`.
pub uninterp spec fn v3_div_of(v: Vec3b, s: u32) -> Vec3b;

/// Bit patterns of the componentwise minimum of `a` and `b`.
pub uninterp spec fn v3_min_of(a: Vec3b, b: Vec3b) -> Vec3b;

/// Bit patterns of the componentwise maximum of `a` and `b`.
pub uninterp spec fn v3_max_of(a: Vec3b, b: Vec3b) -> Vec3b;

/// Bit patterns of the cross product `a x b`.
pub uninterp spec fn v3_cross_of(a: Vec3b, b: Vec3b) -> Vec3b;

/// Bit patterns of `v` normalized to unit length, or zero when `v` has zero
/// (or non-finite) length.
pub uninterp spec fn v3_normalize_or_zero_of(v: Vec3b) -> Vec3b;

/// Bit patterns of `v` with its length clamped to `[min, max]`; a vector
/// whose length already lies in the interval is returned unchanged.
pub uninterp spec fn v3_clamp_length_of(v: Vec3b, min: u32, max: u32) -> Vec3b;

/// Relies on glam::Vec3's componentwise `Add`.
#[verifier::external_body]
pub(crate) fn v3_add(a: Vec3b, b: Vec3b) -> (r: Vec3b)
    ensures
        r == v3_add_of(a, b),
{
    let va: glam::Vec3 = bytemuck::cast([a.x, a.y, a.z]);
    let vb: glam::Vec3 = bytemuck::cast([b.x, b.y, b.z]);
    let c = bytemuck::cast::<glam::Vec3, [u32; 3]>(va + vb);
    Vec3b { x: c[0], y: c[1], z: c[2] }
}

/// Relies on glam::Vec3's componentwise `Sub`.
#[verifier::external_body]
pub(crate) fn v3_sub(a: Vec3b, b: Vec3b) -> (r: Vec3b)
    ensures
        r == v3_sub_of(a, b),
{
    let va: glam::Vec3 = bytemuck::cast([a.x, a.y, a.z]);
    let vb: glam::Vec3 = bytemuck::cast([b.x, b.y, b.z]);
    let c = bytemuck::cast::<glam::Vec3, [u32; 3]>(va - vb);
    Vec3b { x: c[0], y: c[1], z: c[2] }
}

/// Relies on glam::Vec3's `Mul<f32>`, which multiplies every component by
/// the scalar.
#[verifier::external_body]
pub(crate) fn v3_scale(v: Vec3b, s: u32) -> (r: Vec3b)
    ensures
        r == v3_scale_of(v, s),
{
    let vv: glam::Vec3 = bytemuck::cast([v.x, v.y, v.z]);
    let sf = bytemuck::cast::<[u32; 2], glam::Vec2>([s, s]).x;
    let c = bytemuck::cast::<glam::Vec3, [u32; 3]>(vv * sf);
    Vec3b { x: c[0], y: c[1], z: c[2] }
}

/// Relies on glam::Vec3's `Div<f32>`, which divides every component by the
/// scalar.
#[verifier::external_body]
pub(crate) fn v3_div(v: Vec3b, s: u32) -> (r: Vec3b)
    ensures
        r == v3_div_of(v, s),
{
    let vv: glam::Vec3 = bytemuck::cast([v.x, v.y, v.z]);
    let sf = bytemuck::cast::<[u32; 2], glam::Vec2>([s, s]).x;
    let c = bytemuck::cast::<glam::Vec3, [u32; 3]>(vv / sf);
    Vec3b { x: c[0], y: c[1], z: c[2] }
}

/// Relies on glam::Vec3::min, the componentwise minimum.
#[verifier::external_body]
pub(crate) fn v3_min(a: Vec3b, b: Vec3b) -> (r: Vec3b)
    ensures
        r == v3_min_of(a, b),
{
    let va: glam::Vec3 = bytemuck::cast([a.x, a.y, a.z]);
    let vb: glam::Vec3 = bytemuck::cast([b.x, b.y, b.z]);
    let c = bytemuck::cast::<glam::Vec3, [u32; 3]>(va.min(vb));
    Vec3b { x: c[0], y: c[1], z: c[2] }
}

/// Relies on glam::Vec3::max, the componentwise maximum.
#[verifier::external_body]
pub(crate) fn v3_max(a: Vec3b, b: Vec3b) -> (r: Vec3b)
    ensures
        r == v3_max_of(a, b),
{
    let va: glam::Vec3 = bytemuck::cast([a.x, a.y, a.z]);
    let vb: glam::Vec3 = bytemuck::cast([b.x, b.y, b.z]);
    let c = bytemuck::cast::<glam::Vec3, [u32; 3]>(va.max(vb));
    Vec3b { x: c[0], y: c[1], z: c[2] }
}

/// Relies on glam::Vec3::cross, the vector cross product.
#[verifier::external_body]
pub(crate) fn v3_cross(a: Vec3b, b: Vec3b) -> (r: Vec3b)
    ensures
        r == v3_cross_of(a, b),
{
    let va: glam::Vec3 = bytemuck::cast([a.x, a.y, a.z]);
    let vb: glam::Vec3 = bytemuck::cast([b.x, b.y, b.z]);
    let c = bytemuck::cast::<glam::Vec3, [u32; 3]>(va.cross(vb));
    Vec3b { x: c[0], y: c[1], z: c[2] }
}

/// Relies on glam::Vec3::normalize_or_zero: the input scaled to unit
/// length, or zero when the input's length is zero or not finite.
#[verifier::external_body]
pub(crate) fn v3_normalize_or_zero(v: Vec3b) -> (r: Vec3b)
    ensures
        r == v3_normalize_or_zero_of(v),
{
    let vv: glam::Vec3 = bytemuck::cast([v.x, v.y, v.z]);
    let c = bytemuck::cast::<glam::Vec3, [u32; 3]>(vv.normalize_or_zero());
    Vec3b { x: c[0], y: c[1], z: c[2] }
}

/// Relies on glam::Vec3::clamp_length: rescales the input when its length
/// falls outside `[min, max]`, and returns it unchanged otherwise.
#[verifier::external_body]
pub(crate) fn v3_clamp_length(v: Vec3b, min: u32, max: u32) -> (r: Vec3b)
    ensures
        r == v3_clamp_length_of(v, min, max),
{
    let vv: glam::Vec3 = bytemuck::cast([v.x, v.y, v.z]);
    let clamped = vv.clamp_length(bytemuck::cast(min), bytemuck::cast(max));
    let c = bytemuck::cast::<glam::Vec3, [u32; 3]>(clamped);
    Vec3b { x: c[0], y: c[1], z: c[2] }
}

} // verus!
