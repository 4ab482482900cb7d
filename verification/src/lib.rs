//! A small Monte Carlo ray tracer: spheres, diffuse / metallic / dielectric
//! materials, a thin-lens camera, and a recursive radiance integrator.
//!
//! All geometry and radiance arithmetic is carried out in saturating
//! fixed-point scalars (see [`fixed`]), so every numeric step has an exact,
//! verified meaning.

pub mod camera;
pub mod fixed;
pub mod hit;
pub mod material;
pub mod ray;
pub mod rng;
pub mod sphere;
pub mod vec3;
