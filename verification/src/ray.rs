//! Rays: a point and a direction.

use vstd::prelude::*;
use crate::vec3::Vec3;

verus! {

/// The half-line `a + t * b`. The direction `b` need not have length one.
#[derive(Clone, Copy, Debug)]
pub struct Ray {
    pub a: Vec3,
    pub b: Vec3,
}

impl Ray {
    pub fn new(a: Vec3, b: Vec3) -> (r: Ray)
        ensures
            r == (Ray { a, b }),
    {
        Ray { a, b }
    }

    /// Where the ray starts.
    pub fn origin(&self) -> (r: Vec3)
        ensures
            r == self.a,
    {
        self.a
    }

    /// Where it points.
    pub fn direction(&self) -> (r: Vec3)
        ensures
            r == self.b,
    {
        self.b
    }
}

} // verus!
