//! Scalar float kernels over IEEE-754 bit patterns.
//!
//! A `u32` here always holds the bit pattern of an IEEE-754 single-precision
//! value.  Results of the trusted kernels whose rounding IEEE-754 fixes
//! exactly are named by uninterpreted spec functions: the same operands give
//! the same result, but nothing more is assumed of the values.  (For
//! operands that produce a NaN, only NaN-ness is fixed, not the payload;
//! the names also fix the payload per operand pair.)  `powf` rests on the
//! platform math library, whose precision Rust documents as varying, so its
//! result gets no name: callers carry the returned value.

use vstd::prelude::*;

verus! {

/// Bit pattern of the scalar sum `a + b`.
pub uninterp spec fn f32_add_of(a: u32, b: u32) -> u32;

/// Bit pattern of the scalar product `a * b`.
pub uninterp spec fn f32_mul_of(a: u32, b: u32) -> u32;

/// Bit pattern of the scalar quotient `a / b`.
pub uninterp spec fn f32_div_of(a: u32, b: u32) -> u32;

/// Bit pattern of the scalar difference `a - b`.
pub uninterp spec fn f32_sub_of(a: u32, b: u32) -> u32;

/// Bit pattern of the single-precision value nearest to the integer `i`.
pub uninterp spec fn f32_of_i32(i: i32) -> u32;

/// Bit pattern of the single-precision value nearest to the integer `u`.
pub uninterp spec fn f32_of_u32(u: u32) -> u32;

/// Relies on glam::Vec2's componentwise `Add` (glam `f32/vec2.rs`): lane 0
/// carries the single-precision sum of the operands' lane-0 values.
#[verifier::external_body]
pub(crate) fn f32_add(a: u32, b: u32) -> (r: u32)
    ensures
        r == f32_add_of(a, b),
{
    let va: glam::Vec2 = bytemuck::cast([a, 0u32]);
    let vb: glam::Vec2 = bytemuck::cast([b, 0u32]);
    bytemuck::cast::<glam::Vec2, [u32; 2]>(va + vb)[0]
}

/// Relies on glam::Vec2's componentwise `Mul`: lane 0 carries the
/// single-precision product of the operands' lane-0 values.
#[verifier::external_body]
pub(crate) fn f32_mul(a: u32, b: u32) -> (r: u32)
    ensures
        r == f32_mul_of(a, b),
{
    let va: glam::Vec2 = bytemuck::cast([a, 0u32]);
    let vb: glam::Vec2 = bytemuck::cast([b, 0u32]);
    bytemuck::cast::<glam::Vec2, [u32; 2]>(va * vb)[0]
}

/// Relies on glam::Vec2's componentwise `Div`: lane 0 carries the
/// single-precision quotient of the operands' lane-0 values.
#[verifier::external_body]
pub(crate) fn f32_div(a: u32, b: u32) -> (r: u32)
    ensures
        r == f32_div_of(a, b),
{
    let va: glam::Vec2 = bytemuck::cast([a, 1u32]);
    let vb: glam::Vec2 = bytemuck::cast([b, 1u32]);
    bytemuck::cast::<glam::Vec2, [u32; 2]>(va / vb)[0]
}

/// Relies on glam::Vec2's componentwise `Sub`: lane 0 carries the
/// single-precision difference of the operands' lane-0 values.
#[verifier::external_body]
pub(crate) fn f32_sub(a: u32, b: u32) -> (r: u32)
    ensures
        r == f32_sub_of(a, b),
{
    let va: glam::Vec2 = bytemuck::cast([a, 0u32]);
    let vb: glam::Vec2 = bytemuck::cast([b, 0u32]);
    bytemuck::cast::<glam::Vec2, [u32; 2]>(va - vb)[0]
}

/// Relies on glam::Vec2::powf, which applies single-precision `powf`
/// componentwise: lane 0 carries `base` raised to `exp`.  `powf`'s
/// precision is platform-dependent and its result may vary between
/// invocations, so nothing is assumed of it: callers carry the returned
/// value.
#[verifier::external_body]
pub(crate) fn f32_powf(base: u32, exp: u32) -> u32 {
    let vb: glam::Vec2 = bytemuck::cast([base, 0u32]);
    bytemuck::cast::<glam::Vec2, [u32; 2]>(vb.powf(bytemuck::cast(exp)))[0]
}

/// Relies on glam::IVec2::as_vec2, which converts each lane to the nearest
/// single-precision value.
#[verifier::external_body]
pub(crate) fn i32_to_f32(i: i32) -> (r: u32)
    ensures
        r == f32_of_i32(i),
{
    bytemuck::cast::<glam::Vec2, [u32; 2]>(glam::IVec2::new(i, 0).as_vec2())[0]
}

/// Relies on glam::UVec2::as_vec2, which converts each lane to the nearest
/// single-precision value.
#[verifier::external_body]
pub(crate) fn u32_to_f32(u: u32) -> (r: u32)
    ensures
        r == f32_of_u32(u),
{
    bytemuck::cast::<glam::Vec2, [u32; 2]>(glam::UVec2::new(u, 0).as_vec2())[0]
}

} // verus!
