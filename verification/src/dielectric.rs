//! The transparent material.

use vstd::prelude::*;
use crate::hittable::HitRecord;
use crate::material::Scatter;
use crate::ray::Ray;
use crate::scalar::{Scalar, ONE_BITS, ZERO_BITS};
use crate::vec3::Vec3;

verus! {

/// Glass and the like, with refractive index `ref_idx` against the
/// surrounding medium.
#[derive(Clone, Copy, Debug)]
pub struct Dielectric {
    pub ref_idx: Scalar,
}

/// How a ray meets a transparent surface.
#[derive(Clone, Copy, Debug, PartialEq, Eq, Structural)]
pub enum Crossing {
    /// From outside: against the surface normal.
    Entering,
    /// From inside: along the surface normal.
    Leaving,
}

impl Dielectric {
    /// The colour that glass multiplies light by: white, for it tints
    /// nothing.
    pub open spec fn clear() -> Vec3 {
        Vec3 { x: Scalar::one(), y: Scalar::one(), z: Scalar::one() }
    }

    /// The direction light takes from the surface. Without a refracted
    /// direction the light is reflected; with one, it is reflected when the
    /// sample falls below the reflectance.
    pub open spec fn outgoing(
        reflected: Vec3,
        refracted: Option<Vec3>,
        reflectance: Scalar,
        sample: Scalar,
    ) -> Vec3 {
        match refracted {
            None => reflected,
            Some(bent) => if sample.below(reflectance) {
                reflected
            } else {
                bent
            },
        }
    }

    pub fn new(ref_idx: Scalar) -> (r: Dielectric)
        ensures
            r.ref_idx == ref_idx,
    {
        Dielectric { ref_idx }
    }

    /// Tells on which side the ray arrives, from `incidence`, the dot
    /// product of its direction with the surface normal: leaving when that is
    /// above zero, entering otherwise.
    pub fn crossing(incidence: Scalar) -> (r: Crossing)
        ensures
            r == if Scalar::zero().below(incidence) {
                Crossing::Leaving
            } else {
                Crossing::Entering
            },
    {
        if incidence.gt(Scalar::from_bits(ZERO_BITS)) {
            Crossing::Leaving
        } else {
            Crossing::Entering
        }
    }

    /// The normal that points against the arriving ray: the surface normal
    /// for a ray that enters, its opposite for one that leaves.
    pub fn outward_normal(rec: &HitRecord, crossing: Crossing) -> (r: Vec3)
        ensures
            r == match crossing {
                Crossing::Entering => rec.normal,
                Crossing::Leaving => rec.normal.negated(),
            },
    {
        match crossing {
            Crossing::Entering => rec.normal,
            Crossing::Leaving => rec.normal.neg(),
        }
    }

    /// Glass always scatters, and tints nothing. `refracted` is the bent
    /// direction, absent under total internal reflection; `reflectance` is
    /// the share of light that is reflected at this angle, and `sample` a
    /// uniform draw from zero (included) to one (excluded).
    pub fn scatter(
        &self,
        rec: &HitRecord,
        reflected: Vec3,
        refracted: Option<Vec3>,
        reflectance: Scalar,
        sample: Scalar,
    ) -> (r: Option<Scatter>)
        ensures
            r == Some(
                Scatter {
                    attenuation: Self::clear(),
                    scattered: Ray {
                        a: rec.p,
                        b: Self::outgoing(reflected, refracted, reflectance, sample),
                    },
                },
            ),
    {
        let one = Scalar::from_bits(ONE_BITS);
        let direction = match refracted {
            None => reflected,
            Some(bent) => if sample.lt(reflectance) {
                reflected
            } else {
                bent
            },
        };
        Some(Scatter { attenuation: Vec3::new(one, one, one), scattered: Ray::new(rec.p, direction) })
    }
}

} // verus!
