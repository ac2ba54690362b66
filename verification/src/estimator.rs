//! The radiance estimator's rule: what follows from probing the scene at a
//! given depth of a light path.

use vstd::prelude::*;
use crate::hittable_list::{Hit, HittableList};
use crate::scalar::Scalar;
use crate::sphere::Roots;

verus! {

/// The depth at which a path is cut off.
pub const MAX_DEPTH: i32 = 50;

/// The pattern of 0.001, below which a hit is not counted: a ray that has
/// just left a surface would otherwise hit it again at once.
pub const T_MIN_BITS: u32 = 0x3a83_126f;

/// The pattern of the largest finite number.
pub const T_MAX_BITS: u32 = 0x7f7f_ffff;

/// What the estimator does next.
#[derive(Clone, Copy, Debug)]
pub enum Step {
    /// Nothing was hit: the path ends in the colour of the sky.
    Background,
    /// A surface was hit at the depth bound: the path ends in black.
    Black,
    /// A surface was hit: its material is asked to scatter. If it does, the
    /// path goes on one level deeper, else it ends in black.
    Shade(Hit),
}

/// One level of a path, as the scene and the material answered: what was
/// hit, and whether the material scattered.
pub struct Level {
    pub hit: Option<Hit>,
    pub scatters: bool,
}

/// The lower end of the interval in which hits count.
pub open spec fn t_min() -> Scalar {
    Scalar { bits: T_MIN_BITS }
}

/// Its upper end.
pub open spec fn t_max() -> Scalar {
    Scalar { bits: T_MAX_BITS }
}

/// The step at `depth` for the nearest hit `hit`.
pub open spec fn step_for(depth: i32, hit: Option<Hit>) -> Step {
    match hit {
        None => Step::Background,
        Some(h) => if depth < MAX_DEPTH {
            Step::Shade(h)
        } else {
            Step::Black
        },
    }
}

/// How often a path that stands at `depth` asks a material to scatter, where
/// `levels` tells what happens from there on, level by level.
pub open spec fn consultations(depth: i32, levels: Seq<Level>) -> nat
    decreases levels.len(),
{
    if levels.len() == 0 {
        0
    } else {
        match step_for(depth, levels[0].hit) {
            Step::Shade(_) => if levels[0].scatters {
                1 + consultations((depth + 1) as i32, levels.drop_first())
            } else {
                1
            },
            _ => 0,
        }
    }
}

/// A path asks a material to scatter no more often than there are levels
/// left below the depth bound, whatever the scene and the materials answer.
/// From depth zero that is at most `MAX_DEPTH` times.
pub proof fn lemma_consultations_bounded(depth: i32, levels: Seq<Level>)
    ensures
        depth >= MAX_DEPTH ==> consultations(depth, levels) == 0,
        depth < MAX_DEPTH ==> consultations(depth, levels) <= MAX_DEPTH - depth,
        consultations(0, levels) <= MAX_DEPTH,
    decreases levels.len(),
{
    if levels.len() > 0 && depth < MAX_DEPTH {
        lemma_consultations_bounded((depth + 1) as i32, levels.drop_first());
    }
    if levels.len() > 0 && 0 < MAX_DEPTH {
        lemma_consultations_bounded(1, levels.drop_first());
    }
}

/// Probes the scene for a ray at `depth` of its path and says what follows.
/// `roots` holds, for each surface in turn, where the ray's line meets it.
/// Hits count between 0.001 and the largest finite number.
pub fn color(world: &HittableList, roots: &Vec<Roots>, depth: i32) -> (r: Step)
    requires
        roots@.len() == world@.len(),
    ensures
        r == step_for(depth, world.nearest_hit(roots@, t_min(), t_max())),
        world.hit_is(roots@, t_min(), t_max(), world.nearest_hit(roots@, t_min(), t_max())),
{
    let lo = Scalar::from_bits(T_MIN_BITS);
    let hi = Scalar::from_bits(T_MAX_BITS);
    match world.hit(roots, lo, hi) {
        None => Step::Background,
        Some(h) => if depth < MAX_DEPTH {
            Step::Shade(h)
        } else {
            Step::Black
        },
    }
}

} // verus!
