//! The mirror-like material.

use vstd::prelude::*;
use crate::hittable::HitRecord;
use crate::material::Scatter;
use crate::ray::Ray;
use crate::scalar::{Scalar, ONE_BITS, ZERO_BITS};
use crate::vec3::Vec3;

verus! {

/// A reflecting surface of colour `albedo`. `fuzz` blurs the reflection and
/// lies between zero and one.
#[derive(Clone, Copy, Debug)]
pub struct Metal {
    pub albedo: Vec3,
    pub fuzz: Scalar,
}

impl Metal {
    /// `fuzz` brought into the range from zero to one: what is below zero
    /// becomes zero, and what is not below one (a NaN too) becomes one.
    pub open spec fn clamped(fuzz: Scalar) -> Scalar {
        if fuzz.below(Scalar::one()) {
            if fuzz.below(Scalar::zero()) {
                Scalar::zero()
            } else {
                fuzz
            }
        } else {
            Scalar::one()
        }
    }

    pub fn new(albedo: Vec3, fuzz: Scalar) -> (r: Metal)
        ensures
            r.albedo == albedo,
            r.fuzz == Self::clamped(fuzz),
            !r.fuzz.nan(),
            0 <= r.fuzz.scaled() <= Scalar::one().scaled(),
    {
        let zero = Scalar::from_bits(ZERO_BITS);
        let one = Scalar::from_bits(ONE_BITS);
        if fuzz.lt(one) {
            if fuzz.lt(zero) {
                Metal { albedo, fuzz: zero }
            } else {
                Metal { albedo, fuzz }
            }
        } else {
            Metal { albedo, fuzz: one }
        }
    }

    /// Metal scatters along `direction` (the mirrored incoming direction,
    /// blurred) when that leaves the surface: when `facing`, the dot product
    /// of `direction` with the surface normal, is above zero. Otherwise the
    /// ray is absorbed.
    pub fn scatter(&self, rec: &HitRecord, direction: Vec3, facing: Scalar) -> (r: Option<Scatter>)
        ensures
            r == if Scalar::zero().below(facing) {
                Some(Scatter { attenuation: self.albedo, scattered: Ray { a: rec.p, b: direction } })
            } else {
                None
            },
    {
        if facing.gt(Scalar::from_bits(ZERO_BITS)) {
            Some(Scatter { attenuation: self.albedo, scattered: Ray::new(rec.p, direction) })
        } else {
            None
        }
    }
}

} // verus!
