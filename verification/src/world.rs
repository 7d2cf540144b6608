//! The scene: geometry, the material arena, and the background radiance
//! queried when a ray escapes without hitting anything.

use crate::color::{spec_lerp, Color};
use crate::fixed::{fx_add, fx_mul, spec_fxadd, spec_fxmul, FX_HALF, FX_ONE};
use crate::hittable::HitRecord;
use crate::list::{spec_list_hit, HittableList};
use crate::material::Material;
use crate::ray::Ray;
use crate::vector3::spec_norm_sq;
use vstd::prelude::*;

verus! {

/// Background radiance as a closed policy: a solid color, or a vertical
/// gradient keyed to the ray direction's normalized `y` component.
#[derive(Clone, Copy, PartialEq, Eq, Structural, Debug)]
pub enum Background {
    Solid(Color),
    VerticalGradient(Color, Color),
}

/// The gradient evaluates `lerp(a, b, (unit_y + 1) / 2)`; a direction of
/// zero length contributes `unit_y == 0`, the gradient's midpoint.
pub open spec fn spec_background(bg: Background, r: Ray) -> Color {
    match bg {
        Background::Solid(c) => c,
        Background::VerticalGradient(a, b) => {
            let uy = if spec_norm_sq(r.direction) == 0 {
                0int
            } else {
                crate::vector3::spec_normalized(r.direction).y as int
            };
            let t = spec_fxmul(FX_HALF as int, spec_fxadd(uy, FX_ONE as int));
            spec_lerp(a, b, t)
        },
    }
}

impl Background {
    pub fn evaluate(&self, r: &Ray) -> (c: Color)
        ensures
            c == spec_background(*self, *r),
    {
        match self {
            Background::Solid(c) => *c,
            Background::VerticalGradient(a, b) => {
                let nsq = r.direction.norm_squared();
                let uy: i64 = if nsq == 0 {
                    0
                } else {
                    proof {
                        crate::vector3::lemma_norm_sq_nonneg(r.direction);
                    }
                    r.direction.normalized().y
                };
                let t = fx_mul(FX_HALF, fx_add(uy, FX_ONE));
                a.lerp(b, t)
            },
        }
    }
}

/// A geometry list paired with a material arena and a background policy.
/// Spheres refer to materials by index into the arena.
pub struct World {
    pub list: HittableList,
    pub materials: Vec<Material>,
    pub bg: Background,
}

impl World {
    pub fn new(list: HittableList, materials: Vec<Material>, bg: Background) -> (w: World)
        ensures
            w.list.0@ == list.0@,
            w.materials@ == materials@,
            w.bg == bg,
    {
        World { list, materials, bg }
    }

    pub fn background(&self, r: &Ray) -> (c: Color)
        ensures
            c == spec_background(self.bg, *r),
    {
        self.bg.evaluate(r)
    }

    /// Delegates to the list: the nearest member hit in `[t_min, t_max)`.
    pub fn hit(&self, r: &Ray, t_min: i64, t_max: i64) -> (h: Option<HitRecord>)
        ensures
            h == spec_list_hit(self.list.0@, *r, t_min as int, t_max as int),
    {
        self.list.hit(r, t_min, t_max)
    }
}

} // verus!
