//! The composite: a list of spheres, intersected nearest-hit-wins.

use crate::hittable::HitRecord;
use crate::ray::Ray;
use crate::sphere::{spec_sphere_hit, Sphere};
use vstd::prelude::*;

verus! {

#[derive(Clone, PartialEq, Eq, Debug)]
pub struct HittableList(pub Vec<Sphere>);

/// Of a best-so-far and a candidate, the strictly closer one; on a tie the
/// earlier member is kept, matching a stable minimum over iteration order.
pub open spec fn spec_closer(best: Option<HitRecord>, cand: Option<HitRecord>) -> Option<
    HitRecord,
> {
    match (best, cand) {
        (Option::None, c) => c,
        (Option::Some(b), Option::None) => Option::Some(b),
        (Option::Some(b), Option::Some(c)) => if c.t < b.t {
            Option::Some(c)
        } else {
            Option::Some(b)
        },
    }
}

/// The intersection of a ray with every member, folded nearest-hit-wins.
pub open spec fn spec_list_hit(spheres: Seq<Sphere>, r: Ray, t_min: int, t_max: int) -> Option<
    HitRecord,
>
    decreases spheres.len(),
{
    if spheres.len() == 0 {
        Option::None
    } else {
        spec_closer(
            spec_list_hit(spheres.drop_last(), r, t_min, t_max),
            spec_sphere_hit(spheres.last(), r, t_min, t_max),
        )
    }
}

impl HittableList {
    pub fn new() -> (l: HittableList)
        ensures
            l.0@ =~= Seq::<Sphere>::empty(),
    {
        HittableList(Vec::new())
    }

    pub fn from_vec(objects: Vec<Sphere>) -> (l: HittableList)
        ensures
            l.0@ == objects@,
    {
        HittableList(objects)
    }

    pub fn add(&mut self, object: Sphere)
        ensures
            final(self).0@ == old(self).0@.push(object),
    {
        self.0.push(object);
    }

    pub fn clear(&mut self)
        ensures
            final(self).0@ =~= Seq::<Sphere>::empty(),
    {
        self.0.clear();
    }

    /// The nearest member intersection in `[t_min, t_max)`, if any.
    pub fn hit(&self, r: &Ray, t_min: i64, t_max: i64) -> (h: Option<HitRecord>)
        ensures
            h == spec_list_hit(self.0@, *r, t_min as int, t_max as int),
    {
        let ghost all = self.0@;
        let mut best: Option<HitRecord> = None;
        let mut i: usize = 0;
        while i < self.0.len()
            invariant
                i <= self.0@.len(),
                self.0@ == all,
                best == spec_list_hit(all.take(i as int), *r, t_min as int, t_max as int),
            decreases self.0@.len() - i,
        {
            let cand = self.0[i].hit(r, t_min, t_max);
            proof {
                assert(all.take(i + 1).drop_last() =~= all.take(i as int));
                assert(all.take(i + 1).last() == all[i as int]);
            }
            best = match (best, cand) {
                (None, c) => c,
                (Some(b), None) => Some(b),
                (Some(b), Some(c)) => if c.t < b.t {
                    Some(c)
                } else {
                    Some(b)
                },
            };
            i = i + 1;
        }
        proof {
            assert(all.take(all.len() as int) =~= all);
        }
        best
    }
}

/// Nearest-hit-wins, stated as a law: whenever some member reports a hit,
/// the list reports one, and at a distance no larger than that member's.
pub proof fn lemma_list_hit_nearest(
    spheres: Seq<Sphere>,
    r: Ray,
    t_min: int,
    t_max: int,
    i: int,
)
    requires
        0 <= i < spheres.len(),
        spec_sphere_hit(spheres[i], r, t_min, t_max) is Some,
    ensures
        spec_list_hit(spheres, r, t_min, t_max) is Some,
        spec_list_hit(spheres, r, t_min, t_max)->Some_0.t <= spec_sphere_hit(
            spheres[i],
            r,
            t_min,
            t_max,
        )->Some_0.t,
    decreases spheres.len(),
{
    if i == spheres.len() - 1 {
        assert(spheres.last() == spheres[i]);
    } else {
        assert(spheres.drop_last()[i] == spheres[i]);
        lemma_list_hit_nearest(spheres.drop_last(), r, t_min, t_max, i);
    }
}

/// Every hit the list reports is the hit of one of its members.
pub proof fn lemma_list_hit_member(spheres: Seq<Sphere>, r: Ray, t_min: int, t_max: int)
    requires
        spec_list_hit(spheres, r, t_min, t_max) is Some,
    ensures
        exists|i: int|
            0 <= i < spheres.len() && spec_sphere_hit(spheres[i], r, t_min, t_max)
                == spec_list_hit(spheres, r, t_min, t_max),
    decreases spheres.len(),
{
    let h = spec_list_hit(spheres, r, t_min, t_max);
    let prev = spec_list_hit(spheres.drop_last(), r, t_min, t_max);
    let cand = spec_sphere_hit(spheres.last(), r, t_min, t_max);
    if h == cand {
        assert(spheres[spheres.len() - 1] == spheres.last());
    } else {
        lemma_list_hit_member(spheres.drop_last(), r, t_min, t_max);
        let j = choose|j: int|
            0 <= j < spheres.drop_last().len() && spec_sphere_hit(
                spheres.drop_last()[j],
                r,
                t_min,
                t_max,
            ) == prev;
        assert(spheres.drop_last()[j] == spheres[j]);
    }
}

} // verus!
