//! The rules by which a scene of many small spheres is strewn.

use vstd::prelude::*;
use crate::scalar::Scalar;

verus! {

/// The pattern of 0.8: below it a small sphere is diffuse.
pub const DIFFUSE_BELOW_BITS: u32 = 0x3f4c_cccd;

/// The pattern of 0.95: from 0.8 up to it a small sphere is of metal, from
/// there on of glass.
pub const METAL_BELOW_BITS: u32 = 0x3f73_3333;

/// The pattern of 0.9: a small sphere has to be farther than this from the
/// place of the large metal sphere.
pub const CLEARANCE_BITS: u32 = 0x3f66_6666;

/// What a small sphere is made of.
#[derive(Clone, Copy, Debug, PartialEq, Eq, Structural)]
pub enum Finish {
    Diffuse,
    Metal,
    Glass,
}

/// The finish for a draw from zero to one.
pub open spec fn finish_for(sample: Scalar) -> Finish {
    if sample.below(Scalar { bits: DIFFUSE_BELOW_BITS }) {
        Finish::Diffuse
    } else if sample.below(Scalar { bits: METAL_BELOW_BITS }) {
        Finish::Metal
    } else {
        Finish::Glass
    }
}

/// Picks the finish of a small sphere from a uniform draw: four in five are
/// diffuse, three in twenty of metal, the rest of glass.
pub fn choose_finish(sample: Scalar) -> (r: Finish)
    ensures
        r == finish_for(sample),
{
    if sample.lt(Scalar::from_bits(DIFFUSE_BELOW_BITS)) {
        Finish::Diffuse
    } else if sample.lt(Scalar::from_bits(METAL_BELOW_BITS)) {
        Finish::Metal
    } else {
        Finish::Glass
    }
}

/// Whether a small sphere is placed: `distance`, from its centre to the
/// point (4, 0.2, 0), has to be above 0.9.
pub fn keeps_clear(distance: Scalar) -> (r: bool)
    ensures
        r == (Scalar { bits: CLEARANCE_BITS }).below(distance),
{
    distance.gt(Scalar::from_bits(CLEARANCE_BITS))
}

} // verus!
