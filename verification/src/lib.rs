//! The decision core of a Monte Carlo path tracer for scenes of spheres.
//!
//! Real numbers are held as IEEE 754 single-precision bit patterns
//! ([`scalar::Scalar`]). The library orders and selects them, and never
//! computes with them: whoever drives it evaluates the geometry and hands
//! the results in.

pub mod scalar;
pub mod vec3;
pub mod ray;
pub mod material;
pub mod lambertian;
pub mod metal;
pub mod dielectric;
pub mod hittable;
pub mod sphere;
pub mod hittable_list;
pub mod estimator;
pub mod image;
pub mod scene;
