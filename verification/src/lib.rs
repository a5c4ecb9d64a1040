//! Core of a small real-time renderer, verified with Verus.
//!
//! Geometry, camera motion and uniform-buffer layout are modelled over raw
//! IEEE-754 bit patterns (`u32` words).  Floating-point kernels are supplied
//! by the `glam` crate behind narrow trusted wrappers; everything that
//! combines them — mesh construction and validation, bounding boxes and
//! centering, normal generation, camera integration, uniform serialization
//! and per-frame draw planning — is verified.

pub mod bytes;
pub mod camera;
pub mod demo;
pub mod engine;
pub mod geometry;
pub mod input;
pub mod mat4;
pub mod mesh;
pub mod model;
pub mod numeric;
pub mod quat;
pub mod renderer;
pub mod scene;
pub mod uniform;
pub mod vec3;
