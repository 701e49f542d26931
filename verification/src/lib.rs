//! Verified core of a small real-time rendering pipeline.
//!
//! The library models the graphics state it manages — shader stages, linked
//! programs with staged uniforms, textures, transformation chains, geometry
//! buffers, a camera and a scene — and computes the exact sequence of
//! graphics-API commands each operation must issue. Scalar values that the
//! graphics API consumes as single-precision floats are carried as their
//! IEEE-754 bit patterns; the floating-point operations themselves are
//! delegated to a linear-algebra crate behind a small trusted boundary.

pub mod camera;
pub mod commands;
pub mod random;
pub mod scene;
pub mod shader;
pub mod textures;
pub mod transformation;
pub mod geometry;
pub mod gl_program;
pub mod linalg;
