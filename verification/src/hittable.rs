//! Surfaces a ray can hit, and what is recorded of a hit.

use vstd::prelude::*;
use crate::material::Material;
use crate::scalar::Scalar;
use crate::sphere::{Roots, Sphere};
use crate::vec3::Vec3;

verus! {

/// A hit: where, the outward unit normal there, the ray parameter, and a copy
/// of the material of the surface that was hit.
#[derive(Clone, Copy, Debug)]
pub struct HitRecord {
    pub p: Vec3,
    pub normal: Vec3,
    pub t: Scalar,
    pub material: Material,
}

/// The kinds of surface.
#[derive(Clone, Copy, Debug)]
pub enum Hittable {
    Sphere(Sphere),
}

impl Hittable {
    /// The parameter at which a ray whose line meets the surface at `roots`
    /// hits it inside the open interval from `t_min` to `t_max`.
    pub open spec fn hit_at(self, roots: Roots, t_min: Scalar, t_max: Scalar) -> Option<Scalar> {
        match self {
            Hittable::Sphere(_) => roots.first_inside(t_min, t_max),
        }
    }

    /// The surface's material.
    pub open spec fn spec_material(self) -> Material {
        match self {
            Hittable::Sphere(sphere) => sphere.material,
        }
    }

    pub fn hit(&self, roots: &Roots, t_min: Scalar, t_max: Scalar) -> (r: Option<Scalar>)
        ensures
            r == self.hit_at(*roots, t_min, t_max),
    {
        match self {
            Hittable::Sphere(sphere) => sphere.hit(roots, t_min, t_max),
        }
    }

    pub fn material(&self) -> (r: Material)
        ensures
            r == self.spec_material(),
    {
        match self {
            Hittable::Sphere(sphere) => sphere.material,
        }
    }

    /// The record of a hit on this surface at parameter `t`, given the point
    /// `p` of the ray there and the outward unit normal at `p`.
    pub fn record(&self, t: Scalar, p: Vec3, normal: Vec3) -> (r: HitRecord)
        ensures
            r == (HitRecord { p, normal, t, material: self.spec_material() }),
    {
        HitRecord { p, normal, t, material: self.material() }
    }
}

} // verus!
