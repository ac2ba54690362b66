//! A scene: surfaces in a row, and the search for the nearest hit among
//! them.

use vstd::prelude::*;
use crate::hittable::Hittable;
use crate::scalar::Scalar;
use crate::sphere::Roots;

verus! {

/// Which surface of a list a ray hits first, and at which parameter.
#[derive(Clone, Copy, Debug)]
pub struct Hit {
    pub surface: usize,
    pub t: Scalar,
}

/// The surfaces of a scene, in the order in which they were given.
#[derive(Debug)]
pub struct HittableList {
    pub list: Vec<Hittable>,
}

impl View for HittableList {
    type V = Seq<Hittable>;

    open spec fn view(&self) -> Seq<Hittable> {
        self.list@
    }
}

impl HittableList {
    /// What surface `j` reports by itself for the interval from `t_min` to
    /// `t_max`, when `roots[j]` is where the ray's line meets it.
    pub open spec fn candidate(
        &self,
        roots: Seq<Roots>,
        j: int,
        t_min: Scalar,
        t_max: Scalar,
    ) -> Option<Scalar> {
        self@[j].hit_at(roots[j], t_min, t_max)
    }

    /// No surface reports a hit.
    pub open spec fn misses(&self, roots: Seq<Roots>, t_min: Scalar, t_max: Scalar) -> bool {
        forall|j: int|
            0 <= j < self@.len() ==> (#[trigger] self.candidate(roots, j, t_min, t_max)) is None
    }

    /// `hit` is the nearest of the hits that the surfaces report: it is the
    /// report of its surface, no surface reports a smaller parameter, and
    /// every surface before it in the list reports a larger one, if any.
    pub open spec fn nearest(
        &self,
        roots: Seq<Roots>,
        t_min: Scalar,
        t_max: Scalar,
        hit: Hit,
    ) -> bool {
        &&& hit.surface < self@.len()
        &&& self.candidate(roots, hit.surface as int, t_min, t_max) == Some(hit.t)
        &&& forall|j: int|
            0 <= j < self@.len() ==> ((#[trigger] self.candidate(roots, j, t_min, t_max)) matches Some(
                t,
            ) ==> hit.t.scaled() <= t.scaled())
        &&& forall|j: int|
            0 <= j < hit.surface ==> ((#[trigger] self.candidate(roots, j, t_min, t_max)) matches Some(
                t,
            ) ==> hit.t.scaled() < t.scaled())
    }

    /// What `hit` returns: nothing where every surface misses, else the
    /// nearest hit.
    pub open spec fn hit_is(
        &self,
        roots: Seq<Roots>,
        t_min: Scalar,
        t_max: Scalar,
        result: Option<Hit>,
    ) -> bool {
        match result {
            None => self.misses(roots, t_min, t_max),
            Some(hit) => self.nearest(roots, t_min, t_max, hit),
        }
    }

    /// The result that `hit_is` admits. There is exactly one: see
    /// `lemma_hit_unique`.
    pub open spec fn nearest_hit(&self, roots: Seq<Roots>, t_min: Scalar, t_max: Scalar) -> Option<
        Hit,
    > {
        choose|result: Option<Hit>| self.hit_is(roots, t_min, t_max, result)
    }

    /// Two results that `hit_is` admits are the same result.
    pub proof fn lemma_hit_unique(
        &self,
        roots: Seq<Roots>,
        t_min: Scalar,
        t_max: Scalar,
        first: Option<Hit>,
        second: Option<Hit>,
    )
        requires
            self.hit_is(roots, t_min, t_max, first),
            self.hit_is(roots, t_min, t_max, second),
        ensures
            first == second,
    {
        match (first, second) {
            (Some(a), Some(b)) => {
                let ca = self.candidate(roots, a.surface as int, t_min, t_max);
                let cb = self.candidate(roots, b.surface as int, t_min, t_max);
                assert(ca == Some(a.t) && cb == Some(b.t));
                assert(a.t.scaled() == b.t.scaled());
                assert(a.surface == b.surface);
            },
            (Some(a), None) => {
                assert(self.candidate(roots, a.surface as int, t_min, t_max) is Some);
            },
            (None, Some(b)) => {
                assert(self.candidate(roots, b.surface as int, t_min, t_max) is Some);
            },
            (None, None) => {},
        }
    }

    pub fn new(list: Vec<Hittable>) -> (r: HittableList)
        ensures
            r@ == list@,
    {
        HittableList { list }
    }

    /// The number of surfaces.
    pub fn len(&self) -> (r: usize)
        ensures
            r == self@.len(),
    {
        self.list.len()
    }

    /// The surface at `index`.
    pub fn get(&self, index: usize) -> (r: &Hittable)
        requires
            index < self@.len(),
        ensures
            *r == self@[index as int],
    {
        &self.list[index]
    }

    /// The nearest hit of a ray between `t_min` and `t_max`, both excluded.
    /// `roots` holds, for each surface in turn, where the ray's line meets
    /// it. Of two surfaces hit at the same parameter the earlier one is
    /// reported.
    pub fn hit(&self, roots: &Vec<Roots>, t_min: Scalar, t_max: Scalar) -> (r: Option<Hit>)
        requires
            roots@.len() == self@.len(),
        ensures
            self.hit_is(roots@, t_min, t_max, r),
            r == self.nearest_hit(roots@, t_min, t_max),
            r matches Some(hit) ==> hit.t.between(t_min, t_max),
    {
        let mut best: Option<Hit> = None;
        let mut closest_so_far = t_max;
        let mut i: usize = 0;
        while i < self.list.len()
            invariant
                i <= self@.len(),
                roots@.len() == self@.len(),
                closest_so_far == t_max || closest_so_far.between(t_min, t_max),
                match best {
                    None => {
                        &&& closest_so_far == t_max
                        &&& forall|j: int|
                            0 <= j < i ==> (#[trigger] self.candidate(roots@, j, t_min, t_max)) is None
                    },
                    Some(hit) => {
                        &&& closest_so_far == hit.t
                        &&& hit.surface < i
                        &&& self.candidate(roots@, hit.surface as int, t_min, t_max) == Some(hit.t)
                        &&& forall|j: int|
                            0 <= j < i ==> ((#[trigger] self.candidate(roots@, j, t_min, t_max)) matches Some(
                                t,
                            ) ==> hit.t.scaled() <= t.scaled())
                        &&& forall|j: int|
                            0 <= j < hit.surface ==> ((#[trigger] self.candidate(
                                roots@,
                                j,
                                t_min,
                                t_max,
                            )) matches Some(t) ==> hit.t.scaled() < t.scaled())
                    },
                },
            decreases self@.len() - i,
        {
            let entry = &roots[i];
            proof {
                use_type_invariant(entry);
                entry.lemma_lower_bound(t_min, t_max, closest_so_far);
            }
            match self.list[i].hit(entry, t_min, closest_so_far) {
                Some(t) => {
                    best = Some(Hit { surface: i, t });
                    closest_so_far = t;
                },
                None => {},
            }
            i += 1;
        }
        proof {
            self.lemma_hit_unique(
                roots@,
                t_min,
                t_max,
                best,
                self.nearest_hit(roots@, t_min, t_max),
            );
        }
        best
    }
}

} // verus!
