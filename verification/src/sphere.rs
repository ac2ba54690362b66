//! Spheres, and the two places where a line meets one.

use vstd::prelude::*;
use crate::material::Material;
use crate::scalar::{Scalar, ZERO_BITS};
use crate::vec3::Vec3;

verus! {

/// A sphere of one material.
#[derive(Clone, Copy, Debug)]
pub struct Sphere {
    pub center: Vec3,
    pub radius: Scalar,
    pub material: Material,
}

/// Where a ray's line meets a sphere. With `a` the squared length of the
/// ray's direction, `half_b` the dot product of the direction with the vector
/// from the centre to the ray's origin, and `c` that vector's squared length
/// less the squared radius, the line meets the sphere where
/// `a t^2 + 2 half_b t + c = 0`.
///
/// Held here are the discriminant `half_b^2 - a c` and the two solutions
/// `(-half_b - sqrt(discriminant)) / a` and `(-half_b + sqrt(discriminant)) / a`,
/// the smaller one first.
#[derive(Clone, Copy, Debug)]
pub struct Roots {
    discriminant: Scalar,
    near: Scalar,
    far: Scalar,
}

impl Roots {
    pub closed spec fn discriminant(self) -> Scalar {
        self.discriminant
    }

    /// The smaller solution.
    pub closed spec fn near(self) -> Scalar {
        self.near
    }

    /// The larger solution.
    pub closed spec fn far(self) -> Scalar {
        self.far
    }

    /// Where both solutions are numbers, `near` is not above `far`.
    #[verifier::type_invariant]
    pub open spec fn ordered(self) -> bool {
        !self.far().below(self.near())
    }

    /// The solution at which a ray is taken to hit between `t_min` and
    /// `t_max`, both excluded: none under a negative discriminant; else the
    /// smaller solution if it lies in the interval; else the larger one if
    /// that does.
    pub open spec fn first_inside(self, t_min: Scalar, t_max: Scalar) -> Option<Scalar> {
        if self.discriminant().below(Scalar::zero()) {
            None
        } else if self.near().between(t_min, t_max) {
            Some(self.near())
        } else if self.far().between(t_min, t_max) {
            Some(self.far())
        } else {
            None
        }
    }

    /// The roots from the discriminant and the two solutions, given in
    /// either order.
    pub fn new(discriminant: Scalar, first: Scalar, second: Scalar) -> (r: Roots)
        ensures
            r.discriminant() == discriminant,
            r.near() == if second.below(first) { second } else { first },
            r.far() == if second.below(first) { first } else { second },
            !r.far().below(r.near()),
    {
        if second.lt(first) {
            Roots { discriminant, near: second, far: first }
        } else {
            Roots { discriminant, near: first, far: second }
        }
    }

    /// Lowering the upper end of the interval to `bound` keeps the chosen
    /// solution where it is below `bound`, and leaves none otherwise.
    pub proof fn lemma_lower_bound(self, t_min: Scalar, t_max: Scalar, bound: Scalar)
        requires
            self.ordered(),
            bound == t_max || bound.between(t_min, t_max),
        ensures
            self.first_inside(t_min, bound) == match self.first_inside(t_min, t_max) {
                Some(t) => if t.below(bound) {
                    Some(t)
                } else {
                    None
                },
                None => None,
            },
    {
    }

    /// The solution inside the interval, as `first_inside` chooses it.
    pub fn select(&self, t_min: Scalar, t_max: Scalar) -> (r: Option<Scalar>)
        ensures
            r == self.first_inside(t_min, t_max),
    {
        if self.discriminant.lt(Scalar::from_bits(ZERO_BITS)) {
            return None;
        }
        let mut temp = self.near;
        if !temp.is_between(t_min, t_max) {
            temp = self.far;
        }
        if temp.is_between(t_min, t_max) {
            return Some(temp);
        }
        None
    }
}

impl Sphere {
    pub fn new(center: Vec3, radius: Scalar, material: Material) -> (r: Sphere)
        ensures
            r == (Sphere { center, radius, material }),
    {
        Sphere { center, radius, material }
    }

    /// The parameter at which a ray whose line meets this sphere at `roots`
    /// hits it between `t_min` and `t_max`, both excluded.
    pub fn hit(&self, roots: &Roots, t_min: Scalar, t_max: Scalar) -> (r: Option<Scalar>)
        ensures
            r == roots.first_inside(t_min, t_max),
    {
        roots.select(t_min, t_max)
    }
}

} // verus!
