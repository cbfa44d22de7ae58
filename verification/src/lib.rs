//! A small Monte Carlo ray tracer with a verified core.
//!
//! Scenes of spheres with diffuse (Lambertian) and metallic materials are
//! rendered by stochastic path tracing. All scalar arithmetic is fixed-point:
//! an `i64` holds the value scaled by `fixed::FX_ONE`, every operation is
//! total (saturating on overflow), and each function carries an exact
//! contract. Image encoding and parallel scheduling are left to callers.

pub mod camera;
pub mod fixed;
pub mod material;
pub mod object;
pub mod rand;
pub mod render;
pub mod ray;
pub mod sphere;
pub mod vec3;
