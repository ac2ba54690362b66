//! The diffuse material.

use vstd::prelude::*;
use crate::hittable::HitRecord;
use crate::material::Scatter;
use crate::ray::Ray;
use crate::vec3::Vec3;

verus! {

/// A matte surface of colour `albedo`.
#[derive(Clone, Copy, Debug)]
pub struct Lambertian {
    pub albedo: Vec3,
}

impl Lambertian {
    pub fn new(albedo: Vec3) -> (r: Lambertian)
        ensures
            r.albedo == albedo,
    {
        Lambertian { albedo }
    }

    /// A diffuse surface always scatters: from the hit point along
    /// `direction` (the normal plus a random point of the unit ball), tinted
    /// by the albedo.
    pub fn scatter(&self, rec: &HitRecord, direction: Vec3) -> (r: Option<Scatter>)
        ensures
            r == Some(Scatter { attenuation: self.albedo, scattered: Ray { a: rec.p, b: direction } }),
    {
        Some(Scatter { attenuation: self.albedo, scattered: Ray::new(rec.p, direction) })
    }
}

} // verus!
