//! Triples of scalars: points, directions and colours.

use vstd::prelude::*;
use crate::scalar::{Scalar, ONE_BITS, ZERO_BITS};

verus! {

/// Three scalars. As a colour they are red, green and blue.
#[derive(Clone, Copy, Debug)]
pub struct Vec3 {
    pub x: Scalar,
    pub y: Scalar,
    pub z: Scalar,
}

impl Vec3 {
    /// The component at `index`: 0, 1 and 2 for x, y and z.
    pub open spec fn component(self, index: int) -> Scalar
        recommends
            0 <= index < 3,
    {
        if index == 0 {
            self.x
        } else if index == 1 {
            self.y
        } else {
            self.z
        }
    }

    /// This vector with the component at `index` replaced.
    pub open spec fn with_component(self, index: int, value: Scalar) -> Vec3
        recommends
            0 <= index < 3,
    {
        if index == 0 {
            Vec3 { x: value, ..self }
        } else if index == 1 {
            Vec3 { y: value, ..self }
        } else {
            Vec3 { z: value, ..self }
        }
    }

    /// The vector with every component's sign flipped.
    pub open spec fn negated(self) -> Vec3 {
        Vec3 { x: self.x.negated(), y: self.y.negated(), z: self.z.negated() }
    }

    pub fn new(x: Scalar, y: Scalar, z: Scalar) -> (r: Vec3)
        ensures
            r == (Vec3 { x, y, z }),
    {
        Vec3 { x, y, z }
    }

    pub fn x(&self) -> (r: Scalar)
        ensures
            r == self.x,
    {
        self.x
    }

    pub fn y(&self) -> (r: Scalar)
        ensures
            r == self.y,
    {
        self.y
    }

    pub fn z(&self) -> (r: Scalar)
        ensures
            r == self.z,
    {
        self.z
    }

    /// The origin; as a colour, black.
    pub fn zero() -> (r: Vec3)
        ensures
            r.x.bits == 0,
            r.y.bits == 0,
            r.z.bits == 0,
    {
        Vec3 { x: Scalar { bits: 0 }, y: Scalar { bits: 0 }, z: Scalar { bits: 0 } }
    }

    /// The component at `index`. There are three: an index beyond 2 is the
    /// caller's error.
    pub fn index(&self, index: usize) -> (r: &Scalar)
        requires
            index < 3,
        ensures
            *r == self.component(index as int),
    {
        if index == 0 {
            &self.x
        } else if index == 1 {
            &self.y
        } else {
            &self.z
        }
    }

    /// The component at `index`, to be written through.
    pub fn index_mut(&mut self, index: usize) -> (r: &mut Scalar)
        requires
            index < 3,
        ensures
            *r == old(self).component(index as int),
            *final(self) == old(self).with_component(index as int, *final(r)),
    {
        if index == 0 {
            &mut self.x
        } else if index == 1 {
            &mut self.y
        } else {
            &mut self.z
        }
    }

    /// Whether light passes the boundary between two media, bent, or is
    /// thrown back whole. It passes unless the discriminant of the law of
    /// refraction, `1 - ratio^2 (1 - cos^2)`, is negative (or no number).
    pub open spec fn refracts(discriminant: Scalar) -> bool {
        !discriminant.nan() && !discriminant.below(Scalar::zero())
    }

    /// The refracted direction `bent`, where there is one: see `refracts`.
    pub fn refract(discriminant: Scalar, bent: Vec3) -> (r: Option<Vec3>)
        ensures
            r == if Self::refracts(discriminant) {
                Some(bent)
            } else {
                None
            },
    {
        if discriminant.is_nan() || discriminant.lt(Scalar::from_bits(ZERO_BITS)) {
            None
        } else {
            Some(bent)
        }
    }

    /// Whether a point drawn from the cube around the origin is kept as a
    /// point of the unit ball: its squared length has to be below one.
    pub fn in_unit_sphere(squared_length: Scalar) -> (r: bool)
        ensures
            r == squared_length.below(Scalar::one()),
    {
        squared_length.lt(Scalar::from_bits(ONE_BITS))
    }

    /// The opposite vector.
    pub fn neg(self) -> (r: Vec3)
        ensures
            r == self.negated(),
    {
        Vec3 { x: self.x.neg(), y: self.y.neg(), z: self.z.neg() }
    }
}

} // verus!
