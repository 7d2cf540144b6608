//! The result of a ray striking a surface.
//!
//! A `HitRecord` holds the hit point, the surface normal, the parametric
//! distance, the index of the surface's material in the scene's material
//! arena, and whether the geometric normal had to be flipped. Records are
//! face-corrected before any material sees them: the stored normal always
//! opposes the incoming ray.

use crate::ray::Ray;
use crate::vector3::{lemma_dot_neg, spec_dot, spec_vec_ok, spec_vneg, Vector3};
use vstd::prelude::*;

verus! {

#[derive(Clone, Copy, PartialEq, Eq, Structural, Debug)]
pub struct HitRecord {
    pub p: Vector3,
    pub n: Vector3,
    pub t: i64,
    pub material: usize,
    pub front_face: bool,
}

/// Face correction: keep the normal if it already opposes the ray, flip it
/// otherwise, and record which case held.
pub open spec fn spec_set_face(rec: HitRecord, r: Ray) -> HitRecord {
    let front = spec_dot(r.direction, rec.n) < 0;
    HitRecord { n: if front { rec.n } else { spec_vneg(rec.n) }, front_face: front, ..rec }
}

impl HitRecord {
    pub fn new(p: Vector3, n: Vector3, t: i64, material: usize) -> (rec: HitRecord)
        ensures
            rec == (HitRecord { p, n, t, material, front_face: false }),
    {
        HitRecord { p, n, t, material, front_face: false }
    }

    pub fn set_face(self, r: &Ray) -> (rec: HitRecord)
        ensures
            rec == spec_set_face(self, *r),
    {
        let front_face = r.direction.dot(&self.n) < 0;
        let n = if front_face {
            self.n
        } else {
            self.n.neg()
        };
        HitRecord { n, front_face, ..self }
    }
}

/// After face correction the stored normal never points with the incoming
/// ray: their dot product is at most zero.
pub proof fn lemma_face_correction(rec: HitRecord, r: Ray)
    requires
        spec_vec_ok(rec.n),
    ensures
        spec_dot(r.direction, spec_set_face(rec, r).n) <= 0,
{
    if spec_dot(r.direction, rec.n) >= 0 {
        lemma_dot_neg(r.direction, rec.n);
    }
}

} // verus!
