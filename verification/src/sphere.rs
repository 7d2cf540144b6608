//! The one concrete primitive: a sphere, intersected by solving the
//! quadratic `|origin + t * direction - center|^2 == radius^2`.

use crate::fixed::{
    fx_add, fx_div, fx_mul, fx_neg, fx_sqrt, fx_sub, spec_fxadd, spec_fxdiv, spec_fxmul,
    spec_fxneg, spec_fxsqrt, spec_fxsub,
};
use crate::hittable::{spec_set_face, HitRecord};
use crate::ray::{spec_ray_at, Ray};
use crate::vector3::{spec_dot, spec_norm_sq, spec_vdiv, spec_vsub, Vector3};
use vstd::prelude::*;

verus! {

#[derive(Clone, Copy, PartialEq, Eq, Structural, Debug)]
pub struct Sphere {
    pub center: Vector3,
    pub radius: i64,
    pub material: usize,
}

/// `a` coefficient of the intersection quadratic: `|direction|^2`.
pub open spec fn spec_sphere_a(r: Ray) -> int {
    spec_norm_sq(r.direction)
}

/// Half `b` coefficient: `(origin - center) . direction`.
pub open spec fn spec_sphere_b(s: Sphere, r: Ray) -> int {
    spec_dot(spec_vsub(r.origin, s.center), r.direction)
}

/// `c` coefficient: `|origin - center|^2 - radius^2`.
pub open spec fn spec_sphere_c(s: Sphere, r: Ray) -> int {
    spec_fxsub(
        spec_norm_sq(spec_vsub(r.origin, s.center)),
        spec_fxmul(s.radius as int, s.radius as int),
    )
}

/// Discriminant `b^2 - a * c`.
pub open spec fn spec_sphere_disc(s: Sphere, r: Ray) -> int {
    spec_fxmul(spec_sphere_b(s, r), spec_sphere_b(s, r)) - spec_fxmul(
        spec_sphere_a(r),
        spec_sphere_c(s, r),
    )
}

/// The face-corrected record for a hit of the sphere at distance `t`: the
/// outward normal is `(point - center) / radius`.
pub open spec fn spec_sphere_record(s: Sphere, r: Ray, t: int) -> HitRecord {
    let p = spec_ray_at(r, t);
    let n = spec_vdiv(spec_vsub(p, s.center), s.radius as int);
    spec_set_face(
        HitRecord { p, n, t: t as i64, material: s.material, front_face: false },
        r,
    )
}

/// Root selection: a negative discriminant, or a degenerate direction, means
/// no hit; otherwise the smaller root wins if it lies in `[t_min, t_max)`,
/// else the larger, else there is no hit.
pub open spec fn spec_sphere_hit(s: Sphere, r: Ray, t_min: int, t_max: int) -> Option<HitRecord> {
    let a = spec_sphere_a(r);
    let b = spec_sphere_b(s, r);
    let d = spec_fxsub(
        spec_fxmul(b, b),
        spec_fxmul(a, spec_sphere_c(s, r)),
    );
    if d < 0 || a == 0 {
        None
    } else {
        let sq = spec_fxsqrt(d);
        let root1 = spec_fxdiv(spec_fxsub(spec_fxneg(b), sq), a);
        let root2 = spec_fxdiv(spec_fxadd(spec_fxneg(b), sq), a);
        if t_min <= root1 < t_max {
            Some(spec_sphere_record(s, r, root1))
        } else if t_min <= root2 < t_max {
            Some(spec_sphere_record(s, r, root2))
        } else {
            None
        }
    }
}

impl Sphere {
    pub fn new(center: Vector3, radius: i64, material: usize) -> (s: Sphere)
        ensures
            s == (Sphere { center, radius, material }),
    {
        Sphere { center, radius, material }
    }

    /// The nearest intersection of `r` with this sphere at a parametric
    /// distance in `[t_min, t_max)`, if any.
    pub fn hit(&self, r: &Ray, t_min: i64, t_max: i64) -> (h: Option<HitRecord>)
        ensures
            h == spec_sphere_hit(*self, *r, t_min as int, t_max as int),
    {
        let oc = r.origin.sub(&self.center);
        let a = r.direction.norm_squared();
        let b = oc.dot(&r.direction);
        let c = fx_sub(oc.norm_squared(), fx_mul(self.radius, self.radius));
        let d = fx_sub(fx_mul(b, b), fx_mul(a, c));

        if d < 0 || a == 0 {
            return None;
        }

        let sq = fx_sqrt(d);
        let root1 = fx_div(fx_sub(fx_neg(b), sq), a);
        let root2 = fx_div(fx_add(fx_neg(b), sq), a);
        let root = if t_min <= root1 && root1 < t_max {
            root1
        } else if t_min <= root2 && root2 < t_max {
            root2
        } else {
            return None;
        };

        let p = r.at(root);
        let n = p.sub(&self.center).div_scalar(self.radius);
        Some(HitRecord::new(p, n, root, self.material).set_face(r))
    }
}

/// Every record a sphere reports carries a face-corrected normal: it never
/// points with the incoming ray.
pub proof fn lemma_sphere_hit_normal_opposes(s: Sphere, r: Ray, t_min: int, t_max: int)
    ensures
        spec_sphere_hit(s, r, t_min, t_max) matches Some(h) ==> spec_dot(r.direction, h.n) <= 0,
{
    if spec_sphere_hit(s, r, t_min, t_max) is Some {
        let a = spec_sphere_a(r);
        let b = spec_sphere_b(s, r);
        let d = spec_fxsub(spec_fxmul(b, b), spec_fxmul(a, spec_sphere_c(s, r)));
        let sq = spec_fxsqrt(d);
        let root1 = spec_fxdiv(spec_fxsub(spec_fxneg(b), sq), a);
        let root2 = spec_fxdiv(spec_fxadd(spec_fxneg(b), sq), a);
        let root = if t_min <= root1 < t_max {
            root1
        } else {
            root2
        };
        let p = spec_ray_at(r, root);
        let n = spec_vdiv(spec_vsub(p, s.center), s.radius as int);
        // The raw normal's components are saturated quotients, so negating
        // it is exact and the face correction argument applies.
        assert(crate::vector3::spec_vec_ok(n));
        crate::hittable::lemma_face_correction(
            HitRecord { p, n, t: root as i64, material: s.material, front_face: false },
            r,
        );
    }
}

/// A tangent ray — one whose discriminant is exactly zero — has a single
/// candidate root `-b / a`: both quadratic roots coincide there, so a hit,
/// when the range admits one, is reported at exactly that distance.
pub proof fn lemma_tangent_single_root(s: Sphere, r: Ray, t_min: int, t_max: int)
    requires
        spec_sphere_disc(s, r) == 0,
        spec_sphere_a(r) != 0,
    ensures
        spec_sphere_hit(s, r, t_min, t_max) matches Some(h) ==> h.t == spec_fxdiv(
            spec_fxneg(spec_sphere_b(s, r)),
            spec_sphere_a(r),
        ),
        spec_sphere_hit(s, r, t_min, t_max) is None ==> !(t_min <= spec_fxdiv(
            spec_fxneg(spec_sphere_b(s, r)),
            spec_sphere_a(r),
        ) < t_max),
{
    let a = spec_sphere_a(r);
    let b = spec_sphere_b(s, r);
    let d = spec_fxsub(spec_fxmul(b, b), spec_fxmul(a, spec_sphere_c(s, r)));
    assert(d == 0);
    assert(spec_fxsqrt(0) == 0);
    assert(spec_fxsub(spec_fxneg(b), 0) == spec_fxneg(b));
    assert(spec_fxadd(spec_fxneg(b), 0) == spec_fxneg(b));
}

} // verus!
