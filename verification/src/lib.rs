//! Verified core of a small interactive 3D-rendering demo.
//!
//! The crate covers the two algorithmic pieces of the renderer: the camera
//! system (keyboard input handling, movement planning, and the GPU-uniform
//! byte layout) and the model loader's preparation work (texture path
//! resolution, per-vertex attribute assembly, triangle-incidence counting
//! for tangent averaging, and the packed buffer layouts).
//!
//! Floating-point scalars never enter this crate: a scalar is carried as the
//! `u32` bit pattern of its IEEE-754 single-precision encoding. Everything
//! verified here either moves such scalars around unchanged or works on
//! integers, so the contracts are exact. The floating-point arithmetic
//! itself (view matrices, tangent accumulation) lives with the unverified
//! renderer around this crate.

pub mod camera;
pub mod layout;
pub mod resources;
