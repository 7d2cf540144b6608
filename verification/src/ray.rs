//! A half-line in space: origin plus scaled direction.

use crate::vector3::{spec_vadd, spec_vscale, Vector3};
use vstd::prelude::*;

verus! {

#[derive(Clone, Copy, PartialEq, Eq, Structural, Debug)]
pub struct Ray {
    pub origin: Vector3,
    pub direction: Vector3,
}

/// The point `origin + t * direction`.
pub open spec fn spec_ray_at(r: Ray, t: int) -> Vector3 {
    spec_vadd(r.origin, spec_vscale(r.direction, t))
}

impl Ray {
    pub fn new(origin: Vector3, direction: Vector3) -> (r: Ray)
        ensures
            r == (Ray { origin, direction }),
    {
        Ray { origin, direction }
    }

    pub fn at(&self, t: i64) -> (p: Vector3)
        ensures
            p == spec_ray_at(*self, t as int),
    {
        self.origin.add(&self.direction.scale(t))
    }
}

} // verus!
