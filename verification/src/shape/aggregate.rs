//! Aggregates of shapes.
//!
//! An aggregate combines many shapes and answers with the *nearest*
//! valid intersection — the one with the smallest hit parameter —
//! across all its members. Two of the three dispatch strategies live on
//! the vector types here; the third is the closed
//! [`Surface`](super::Surface) sum type used as the element of a
//! [`DirectAggregate`]. All strategies fold their members in order with
//! [`nearest`], so for the same members they return the same result.

use vstd::prelude::*;

use super::{Hit, Intersection, Shape};
use crate::geo::ray::Ray;
use crate::scalar::Scalar;

verus! {

/// A homogeneous aggregate over one concrete shape type, resolved by
/// monomorphized direct iteration: the fastest strategy, usable only
/// when every element is the same concrete type.
pub type DirectAggregate<S> = Vec<S>;

/// An open-ended aggregate over boxed shape objects, resolved by dynamic
/// dispatch: slower per call, but extensible at runtime.
pub type DynamicAggregate = Vec<Box<dyn Shape>>;

/// The nearest of a sequence of member outcomes, folded in order: a miss
/// changes nothing, a first hit is kept, and a later hit replaces the
/// current one unless the current one is strictly nearer.
pub open spec fn nearest(hits: Seq<Option<Hit>>) -> Option<Hit>
    decreases hits.len(),
{
    if hits.len() == 0 {
        None
    } else {
        let prev = nearest(hits.drop_last());
        match (prev, hits.last()) {
            (p, None) => p,
            (None, n) => n,
            (Some(p), Some(n)) => if p.t < n.t {
                Some(p)
            } else {
                Some(n)
            },
        }
    }
}

/// The modeled outcomes of every member of `v` for one query.
pub open spec fn member_hits<S: Shape>(v: Seq<S>, ray: Ray, t_min: int, t_max: int) -> Seq<
    Option<Hit>,
> {
    v.map_values(|s: S| s.hit(ray, t_min, t_max))
}

/// Dispatch-strategy equivalence: aggregates that hold members with the
/// same modeled outcomes, in the same order, return the same nearest
/// intersection — whether the members are one concrete shape type, the
/// closed [`Surface`](super::Surface) sum type, or boxed shape objects.
/// The strategies differ only in dispatch cost, never in output.
pub proof fn lemma_dispatch_equivalence<S1: Shape, S2: Shape>(
    a: Seq<S1>,
    b: Seq<S2>,
    ray: Ray,
    t_min: int,
    t_max: int,
)
    requires
        a.len() == b.len(),
        forall|i: int| 0 <= i < a.len() ==> (#[trigger] a[i]).hit(ray, t_min, t_max) == b[i].hit(
            ray,
            t_min,
            t_max,
        ),
    ensures
        nearest(member_hits(a, ray, t_min, t_max)) == nearest(member_hits(b, ray, t_min, t_max)),
{
    assert(member_hits(a, ray, t_min, t_max) =~= member_hits(b, ray, t_min, t_max));
}

impl Shape for Box<dyn Shape> {
    open spec fn hit(&self, ray: Ray, t_min: int, t_max: int) -> Option<Hit> {
        (**self).hit(ray, t_min, t_max)
    }

    open spec fn hit_ok(&self, ray: Ray, t_min: int, t_max: int) -> bool {
        (**self).hit_ok(ray, t_min, t_max)
    }

    fn intersect(&self, ray: &Ray, t_min: Scalar, t_max: Scalar) -> (r: Option<Intersection>) {
        (**self).intersect(ray, t_min, t_max)
    }

    fn intersects(&self, ray: &Ray, t_min: Scalar, t_max: Scalar) -> (r: bool) {
        (**self).intersects(ray, t_min, t_max)
    }
}

impl<S: Shape> Shape for Vec<S> {
    open spec fn hit(&self, ray: Ray, t_min: int, t_max: int) -> Option<Hit> {
        nearest(member_hits(self@, ray, t_min, t_max))
    }

    open spec fn hit_ok(&self, ray: Ray, t_min: int, t_max: int) -> bool {
        forall|i: int| 0 <= i < self@.len() ==> (#[trigger] self@[i]).hit_ok(ray, t_min, t_max)
    }

    fn intersect(&self, ray: &Ray, t_min: Scalar, t_max: Scalar) -> (r: Option<Intersection>) {
        let ghost all = member_hits(self@, *ray, t_min@, t_max@);
        let mut best: Option<Intersection> = None;
        let mut idx: usize = 0;
        proof {
            assert(all.take(0) =~= Seq::<Option<Hit>>::empty());
        }
        while idx < self.len()
            invariant
                idx <= self@.len(),
                all == member_hits(self@, *ray, t_min@, t_max@),
                (best matches Some(i) ==> i.norm.wf()),
                self.hit_ok(*ray, t_min@, t_max@) ==> match best {
                    Some(i) => nearest(all.take(idx as int)) == Some(i@),
                    None => nearest(all.take(idx as int)) is None,
                },
            decreases self@.len() - idx,
        {
            let next = self[idx].intersect(ray, t_min, t_max);
            proof {
                assert(all.take(idx + 1).drop_last() =~= all.take(idx as int));
                assert(all.take(idx + 1).last() == all[idx as int]);
                assert(all[idx as int] == self@[idx as int].hit(*ray, t_min@, t_max@));
            }
            match (&best, &next) {
                (_, None) => {},
                (None, _) => {
                    best = next;
                },
                (Some(cur), Some(nxt)) => {
                    if !cur.t.lt(nxt.t) {
                        best = next;
                    }
                },
            }
            idx += 1;
        }
        proof {
            assert(all.take(self@.len() as int) =~= all);
        }
        best
    }

    fn intersects(&self, ray: &Ray, t_min: Scalar, t_max: Scalar) -> (r: bool) {
        self.intersect(ray, t_min, t_max).is_some()
    }
}

} // verus!
