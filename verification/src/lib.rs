//! A Monte-Carlo path tracer over fixed-point arithmetic.
//!
//! Geometry, materials, camera and the recursive light-transport integrator
//! are all verified: every public operation carries a contract that pins its
//! result down exactly, and the whole render is a pure function of the scene,
//! the camera and a sampler seed.
//!
//! Real quantities are carried as `i64` values scaled by [`fixed::FX_ONE`]
//! (24 fractional bits). Arithmetic truncates toward zero and saturates
//! symmetrically, so every operation is total and exactly specified.

pub mod camera;
pub mod color;
pub mod fixed;
pub mod hittable;
pub mod list;
pub mod material;
pub mod sphere;
pub mod world;
pub mod random;
pub mod ray;
pub mod render;
pub mod sampler;
pub mod vector3;
