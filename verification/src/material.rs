//! What a surface is made of, and what a material hands back when light
//! scatters off it.

use vstd::prelude::*;
use crate::dielectric::Dielectric;
use crate::lambertian::Lambertian;
use crate::metal::Metal;
use crate::ray::Ray;
use crate::vec3::Vec3;

verus! {

/// The materials a surface can have.
#[derive(Clone, Copy, Debug)]
pub enum Material {
    Lambertian(Lambertian),
    Metal(Metal),
    Dielectric(Dielectric),
}

/// A scattering event: the colour that multiplies what the outgoing ray
/// brings back, and that ray.
#[derive(Clone, Copy, Debug)]
pub struct Scatter {
    pub attenuation: Vec3,
    pub scattered: Ray,
}

} // verus!
