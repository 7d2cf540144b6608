//! The scattering model: diffuse, metal and dielectric surfaces, dispatched
//! through a closed sum type. Each `scatter` consumes an incoming ray, a
//! face-corrected hit record and a sampler, and yields either an
//! (attenuation, outgoing ray) pair or absorption.
//!
//! A ray whose direction has zero length cannot be normalized; such a
//! degenerate ray is absorbed, which keeps every scatter total.

use crate::color::{spec_white, Color};
use crate::fixed::{
    fx_add, fx_div, fx_min, fx_mul, fx_neg, fx_sqrt, fx_sub, fx_abs, fx_clamp, spec_fxabs,
    spec_fxadd, spec_fxclamp, spec_fxdiv, spec_fxmin, spec_fxmul, spec_fxneg, spec_fxsqrt,
    spec_fxsub, FX_ONE, FX_TWO,
};
use crate::hittable::HitRecord;
use crate::random::{
    random_in_unit_sphere, random_unit_vector, spec_in_unit_sphere, spec_unit_vector, MAX_REJECTS,
};
use crate::ray::Ray;
use crate::sampler::{spec_next_state, spec_next_u64, spec_unit_fx, Sampler};
use crate::vector3::{
    spec_dot, spec_nearly_zero, spec_norm_sq, spec_normalized, spec_vadd, spec_vneg, spec_vscale,
    spec_vsub, Vector3,
};
use vstd::prelude::*;

verus! {

/// An ideal diffuse surface with a base color.
#[derive(Clone, Copy, PartialEq, Eq, Structural, Debug)]
pub struct Diffuse {
    pub color: Color,
}

/// A mirror with a base color and a fuzz radius in `[0, 1]`.
#[derive(Clone, Copy, PartialEq, Eq, Structural, Debug)]
pub struct Metal {
    pub color: Color,
    pub fuzz: i64,
}

/// A clear interface with a refractive index.
#[derive(Clone, Copy, PartialEq, Eq, Structural, Debug)]
pub struct Dielectric {
    pub index: i64,
}

/// The closed set of surface materials, dispatched by matching.
#[derive(Clone, Copy, PartialEq, Eq, Structural, Debug)]
pub enum Material {
    Diffuse(Diffuse),
    Metal(Metal),
    Dielectric(Dielectric),
}

/// Mirror reflection `v - 2 (v . n) n`.
pub open spec fn spec_reflect(v: Vector3, n: Vector3) -> Vector3 {
    spec_vsub(v, spec_vscale(n, spec_fxmul(FX_TWO as int, spec_dot(v, n))))
}

/// Snell refraction of the unit direction `uv` about `n`, decomposed into
/// tangential and normal parts.
pub open spec fn spec_refract(uv: Vector3, n: Vector3, index: int) -> Vector3 {
    let cos = spec_fxmin(spec_dot(spec_vneg(uv), n), FX_ONE as int);
    let perp = spec_vscale(spec_vadd(uv, spec_vscale(n, cos)), index);
    let par = spec_vscale(
        n,
        spec_fxneg(spec_fxsqrt(spec_fxabs(spec_fxsub(FX_ONE as int, spec_norm_sq(perp))))),
    );
    spec_vadd(perp, par)
}

pub open spec fn spec_pow5(x: int) -> int {
    spec_fxmul(spec_fxmul(spec_fxmul(spec_fxmul(x, x), x), x), x)
}

/// `r0` of the Schlick approximation: `((1 - index) / (1 + index))^2`.
pub open spec fn spec_r0(index: int) -> int {
    let q = spec_fxdiv(spec_fxsub(FX_ONE as int, index), spec_fxadd(FX_ONE as int, index));
    spec_fxmul(q, q)
}

/// Schlick reflectance `r0 + (1 - r0) (1 - cos)^5`.
pub open spec fn spec_schlick(cos: int, index: int) -> int {
    let r0 = spec_r0(index);
    spec_fxadd(
        r0,
        spec_fxmul(spec_fxsub(FX_ONE as int, r0), spec_pow5(spec_fxsub(FX_ONE as int, cos))),
    )
}

/// Diffuse scattering: direction `normal + unit draw`, falling back to the
/// bare normal when that sum is degenerate; always scatters, attenuation is
/// the base color unchanged.
pub open spec fn spec_diffuse_scatter(d: Diffuse, hit: HitRecord, s: u64) -> (Option<
    (Color, Ray),
>, u64) {
    let (u, s1) = spec_unit_vector(s);
    let dir = spec_vadd(hit.n, u);
    let dir2 = if spec_nearly_zero(dir) {
        hit.n
    } else {
        dir
    };
    (Option::Some((d.color, Ray { origin: hit.p, direction: dir2 })), s1)
}

/// Metal scattering: mirror reflection of the normalized incoming direction,
/// perturbed by `fuzz` times a sphere draw; absorbed if the perturbed
/// direction points into the surface.
pub open spec fn spec_metal_scatter(m: Metal, r: Ray, hit: HitRecord, s: u64) -> (Option<
    (Color, Ray),
>, u64) {
    if spec_norm_sq(r.direction) == 0 {
        (Option::None, s)
    } else {
        let reflected = spec_reflect(spec_normalized(r.direction), hit.n);
        let (v, s1) = spec_in_unit_sphere(s, MAX_REJECTS as nat);
        let dir = spec_vadd(reflected, spec_vscale(v, m.fuzz as int));
        if spec_dot(dir, hit.n) > 0 {
            (Option::Some((m.color, Ray { origin: hit.p, direction: dir })), s1)
        } else {
            (Option::None, s1)
        }
    }
}

/// Dielectric scattering: reflect on total internal reflection or a Schlick
/// draw, refract otherwise; attenuation is opaque white either way.
pub open spec fn spec_dielectric_scatter(dl: Dielectric, r: Ray, hit: HitRecord, s: u64) -> (Option<
    (Color, Ray),
>, u64) {
    if spec_norm_sq(r.direction) == 0 {
        (Option::None, s)
    } else {
        let unit = spec_normalized(r.direction);
        let cos = spec_fxmin(spec_fxneg(spec_dot(unit, hit.n)), FX_ONE as int);
        let index = if hit.front_face {
            spec_fxdiv(FX_ONE as int, dl.index as int)
        } else {
            dl.index as int
        };
        let sin = spec_fxsqrt(spec_fxsub(FX_ONE as int, spec_fxmul(cos, cos)));
        if spec_fxmul(index, sin) > FX_ONE as int {
            (
                Option::Some(
                    (spec_white(), Ray { origin: hit.p, direction: spec_reflect(unit, hit.n) }),
                ),
                s,
            )
        } else {
            let draw = spec_unit_fx(spec_next_u64(s));
            let s1 = spec_next_state(s);
            if spec_schlick(cos, index) > draw {
                (
                    Option::Some(
                        (spec_white(), Ray { origin: hit.p, direction: spec_reflect(unit, hit.n) }),
                    ),
                    s1,
                )
            } else {
                (
                    Option::Some(
                        (
                            spec_white(),
                            Ray { origin: hit.p, direction: spec_refract(unit, hit.n, index) },
                        ),
                    ),
                    s1,
                )
            }
        }
    }
}

pub open spec fn spec_scatter(m: Material, r: Ray, hit: HitRecord, s: u64) -> (Option<
    (Color, Ray),
>, u64) {
    match m {
        Material::Diffuse(d) => spec_diffuse_scatter(d, hit, s),
        Material::Metal(mt) => spec_metal_scatter(mt, r, hit, s),
        Material::Dielectric(dl) => spec_dielectric_scatter(dl, r, hit, s),
    }
}

/// Mirror reflection of `v` about `n`.
pub fn reflect(v: &Vector3, n: &Vector3) -> (r: Vector3)
    ensures
        r == spec_reflect(*v, *n),
{
    v.sub(&n.scale(fx_mul(FX_TWO, v.dot(n))))
}

pub fn refract(uv: &Vector3, n: &Vector3, index: i64) -> (r: Vector3)
    ensures
        r == spec_refract(*uv, *n, index as int),
{
    let cos = fx_min(uv.neg().dot(n), FX_ONE);
    let perp = uv.add(&n.scale(cos)).scale(index);
    let par = n.scale(fx_neg(fx_sqrt(fx_abs(fx_sub(FX_ONE, perp.norm_squared())))));
    perp.add(&par)
}

pub fn schlick(cos: i64, index: i64) -> (r: i64)
    ensures
        r == spec_schlick(cos as int, index as int),
{
    let q = fx_div(fx_sub(FX_ONE, index), fx_add(FX_ONE, index));
    let r0 = fx_mul(q, q);
    let x = fx_sub(FX_ONE, cos);
    let p5 = fx_mul(fx_mul(fx_mul(fx_mul(x, x), x), x), x);
    fx_add(r0, fx_mul(fx_sub(FX_ONE, r0), p5))
}

/// At normal incidence (`cos == 1`) the Schlick reflectance is exactly
/// `r0`: the `(1 - cos)^5` correction vanishes without residue.
pub proof fn lemma_schlick_normal_incidence(index: int)
    ensures
        spec_schlick(FX_ONE as int, index) == spec_r0(index),
{
    let r0 = spec_r0(index);
    crate::fixed::lemma_fxmul_zero(0);
    assert(spec_pow5(spec_fxsub(FX_ONE as int, FX_ONE as int)) == 0);
    crate::fixed::lemma_fxmul_zero(spec_fxsub(FX_ONE as int, r0));
}

/// A dielectric of index one is no interface at all: at exact normal
/// incidence (the unit incoming direction is the negated unit normal) it
/// always transmits, with white attenuation and the direction unchanged.
pub proof fn lemma_dielectric_identity_normal_incidence(
    dl: Dielectric,
    r: Ray,
    hit: HitRecord,
    s: u64,
)
    requires
        dl.index == FX_ONE,
        spec_norm_sq(r.direction) > 0,
        spec_normalized(r.direction) == spec_vneg(hit.n),
        spec_norm_sq(hit.n) == FX_ONE,
        crate::vector3::spec_vec_ok(hit.n),
    ensures
        spec_dielectric_scatter(dl, r, hit, s).0 == Option::Some(
            (spec_white(), Ray { origin: hit.p, direction: spec_vneg(hit.n) }),
        ),
{
    let n = hit.n;
    let unit = spec_vneg(n);
    let one = FX_ONE as int;

    crate::vector3::lemma_dot_neg(n, n);
    assert(spec_dot(n, unit) == -one);
    assert(spec_dot(unit, n) == spec_dot(n, unit));
    let cos = spec_fxmin(spec_fxneg(spec_dot(unit, n)), one);
    assert(cos == one);

    vstd::arithmetic::div_mod::lemma_div_by_multiple(one, one);
    assert(spec_fxmul(one, one) == one);
    assert(spec_fxdiv(one, one) == one);
    let index = if hit.front_face {
        spec_fxdiv(one, dl.index as int)
    } else {
        dl.index as int
    };
    assert(index == one);

    let sin = spec_fxsqrt(spec_fxsub(one, spec_fxmul(cos, cos)));
    assert(sin == 0);
    crate::fixed::lemma_fxmul_zero(one);
    assert(!(spec_fxmul(index, sin) > one));

    let draw = spec_unit_fx(crate::sampler::spec_next_u64(s));
    assert(draw >= 0);
    vstd::arithmetic::div_mod::lemma_div_of0(2 * one);
    assert(spec_fxdiv(0, spec_fxadd(one, one)) == 0);
    crate::fixed::lemma_fxmul_zero(0);
    assert(spec_r0(one) == 0);
    lemma_schlick_normal_incidence(one);
    assert(spec_schlick(cos, index) == 0);
    assert(!(spec_schlick(cos, index) > draw));

    assert(spec_vneg(unit) == n);
    let cos2 = spec_fxmin(spec_dot(spec_vneg(unit), n), one);
    assert(cos2 == one);
    crate::fixed::lemma_fxmul_one(n.x as int);
    crate::fixed::lemma_fxmul_one(n.y as int);
    crate::fixed::lemma_fxmul_one(n.z as int);
    assert(spec_vscale(n, one) == n);
    let inner = spec_vadd(unit, spec_vscale(n, cos2));
    assert(inner == (Vector3 { x: 0i64, y: 0i64, z: 0i64 }));
    crate::fixed::lemma_fxmul_zero(one);
    let perp = spec_vscale(inner, index);
    assert(perp == (Vector3 { x: 0i64, y: 0i64, z: 0i64 }));
    crate::fixed::lemma_fxmul_zero(0);
    assert(spec_norm_sq(perp) == 0);
    crate::fixed::lemma_fxsqrt_one();
    assert(spec_fxsqrt(spec_fxabs(spec_fxsub(one, spec_norm_sq(perp)))) == one);
    crate::fixed::lemma_fxmul_neg(n.x as int, one);
    crate::fixed::lemma_fxmul_neg(n.y as int, one);
    crate::fixed::lemma_fxmul_neg(n.z as int, one);
    let par = spec_vscale(n, spec_fxneg(one));
    assert(par == spec_vneg(n));
    assert(spec_refract(unit, n, index) == spec_vadd(perp, par));
    assert(spec_vadd(perp, par) == spec_vneg(n));
}

impl Diffuse {
    pub fn new(color: Color) -> (d: Diffuse)
        ensures
            d == (Diffuse { color }),
    {
        Diffuse { color }
    }

    /// Always scatters; the attenuation is the base color unchanged, and the
    /// outgoing direction is never degenerate when the hit normal is not.
    pub fn scatter(&self, _r: &Ray, hit: &HitRecord, smp: &mut Sampler) -> (res: Option<
        (Color, Ray),
    >)
        ensures
            res == spec_diffuse_scatter(*self, *hit, old(smp).state).0,
            final(smp).state == spec_diffuse_scatter(*self, *hit, old(smp).state).1,
            res matches Some((att, sc)) && att == self.color,
            !spec_nearly_zero(hit.n) ==> (res matches Some((att, sc))
                && !spec_nearly_zero(sc.direction)),
    {
        let u = random_unit_vector(smp);
        let dir = hit.n.add(&u);
        let dir2 = if dir.is_nearly_zero() {
            hit.n
        } else {
            dir
        };
        Some((self.color, Ray::new(hit.p, dir2)))
    }
}

impl Metal {
    pub fn new(color: Color) -> (m: Metal)
        ensures
            m == (Metal { color, fuzz: 0i64 }),
    {
        Metal { color, fuzz: 0 }
    }

    /// The same mirror with its fuzz radius clamped into `[0, 1]`.
    pub fn with_fuzz(self, fuzz: i64) -> (m: Metal)
        ensures
            m.color == self.color,
            m.fuzz == spec_fxclamp(fuzz as int, 0, FX_ONE as int),
    {
        Metal { color: self.color, fuzz: fx_clamp(fuzz, 0, FX_ONE) }
    }

    pub fn scatter(&self, r: &Ray, hit: &HitRecord, smp: &mut Sampler) -> (res: Option<
        (Color, Ray),
    >)
        ensures
            res == spec_metal_scatter(*self, *r, *hit, old(smp).state).0,
            final(smp).state == spec_metal_scatter(*self, *r, *hit, old(smp).state).1,
    {
        if r.direction.norm_squared() == 0 {
            return None;
        }
        proof {
            crate::vector3::lemma_norm_sq_nonneg(r.direction);
        }
        let reflected = reflect(&r.direction.normalized(), &hit.n);
        let offset = random_in_unit_sphere(smp).scale(self.fuzz);
        let dir = reflected.add(&offset);
        if dir.dot(&hit.n) > 0 {
            Some((self.color, Ray::new(hit.p, dir)))
        } else {
            None
        }
    }
}

impl Dielectric {
    pub fn new(index: i64) -> (d: Dielectric)
        ensures
            d == (Dielectric { index }),
    {
        Dielectric { index }
    }

    pub fn scatter(&self, r: &Ray, hit: &HitRecord, smp: &mut Sampler) -> (res: Option<
        (Color, Ray),
    >)
        ensures
            res == spec_dielectric_scatter(*self, *r, *hit, old(smp).state).0,
            final(smp).state == spec_dielectric_scatter(*self, *r, *hit, old(smp).state).1,
    {
        if r.direction.norm_squared() == 0 {
            return None;
        }
        proof {
            crate::vector3::lemma_norm_sq_nonneg(r.direction);
        }
        let unit = r.direction.normalized();
        let cos = fx_min(fx_neg(unit.dot(&hit.n)), FX_ONE);
        let index = if hit.front_face {
            fx_div(FX_ONE, self.index)
        } else {
            self.index
        };
        let sin = fx_sqrt(fx_sub(FX_ONE, fx_mul(cos, cos)));
        let direction = if fx_mul(index, sin) > FX_ONE {
            reflect(&unit, &hit.n)
        } else {
            let draw = smp.next_unit();
            if schlick(cos, index) > draw {
                reflect(&unit, &hit.n)
            } else {
                refract(&unit, &hit.n, index)
            }
        };
        Some((Color::white(), Ray::new(hit.p, direction)))
    }
}

impl Material {
    /// Dispatch to the variant's scattering rule.
    pub fn scatter(&self, r: &Ray, hit: &HitRecord, smp: &mut Sampler) -> (res: Option<
        (Color, Ray),
    >)
        ensures
            res == spec_scatter(*self, *r, *hit, old(smp).state).0,
            final(smp).state == spec_scatter(*self, *r, *hit, old(smp).state).1,
    {
        match self {
            Material::Diffuse(d) => d.scatter(r, hit, smp),
            Material::Metal(m) => m.scatter(r, hit, smp),
            Material::Dielectric(dl) => dl.scatter(r, hit, smp),
        }
    }
}

} // verus!
