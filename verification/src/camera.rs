//! The thin-lens camera: a precomputed basis and viewport, built from eye,
//! target, up vector, field of view, aspect ratio, aperture and focus
//! distance; `ray` jitters the origin inside the lens disk, so objects at
//! the focus distance are sharp and others blur with the aperture.

use crate::fixed::{
    fx_div, fx_mul, fx_tan, spec_fxdiv, spec_fxmul, spec_fxtan, FX_FRAC_PI_2, FX_ONE, FX_TWO,
};
use crate::random::{random_in_unit_disk, spec_in_unit_disk, MAX_REJECTS};
use crate::ray::Ray;
use crate::sampler::Sampler;
use crate::vector3::{
    spec_cross, spec_norm_sq, spec_normalized, spec_vadd, spec_vdiv, spec_vscale, spec_vsub,
    Vector3,
};
use vstd::prelude::*;

verus! {

/// The default aspect ratio, 16:9, in fixed point.
pub const FX_DEFAULT_ASPECT: i64 = 29826161;

/// The look-from and look-at points must differ, and the up vector must not
/// be parallel to the view axis: both normalizations need a nonzero input.
pub open spec fn spec_camera_inputs_ok(lookfrom: Vector3, lookat: Vector3, vup: Vector3) -> bool {
    let axis = spec_vsub(lookfrom, lookat);
    spec_norm_sq(axis) > 0 && spec_norm_sq(spec_cross(vup, spec_normalized(axis))) > 0
}

#[derive(Clone, Copy, PartialEq, Eq, Structural, Debug)]
pub struct Camera {
    pub origin: Vector3,
    pub lower_left_corner: Vector3,
    pub horizontal: Vector3,
    pub vertical: Vector3,
    pub u: Vector3,
    pub v: Vector3,
    pub lens_radius: i64,
}

/// The camera derivation: orthonormal basis, viewport scaled by the focus
/// distance, and the lower-left corner that maps image coordinates
/// `(0, 0)..(1, 1)` across the full viewport.
pub open spec fn spec_camera_new(
    lookfrom: Vector3,
    lookat: Vector3,
    vup: Vector3,
    fov: int,
    aspect_ratio: int,
    aperture: int,
    focus_dist: int,
) -> Camera {
    let viewport_height = spec_fxmul(FX_TWO as int, spec_fxtan(spec_fxdiv(fov, FX_TWO as int)));
    let viewport_width = spec_fxmul(aspect_ratio, viewport_height);
    let w = spec_normalized(spec_vsub(lookfrom, lookat));
    let u = spec_normalized(spec_cross(vup, w));
    let v = spec_cross(w, u);
    let origin = lookfrom;
    let horizontal = spec_vscale(u, spec_fxmul(focus_dist, viewport_width));
    let vertical = spec_vscale(v, spec_fxmul(focus_dist, viewport_height));
    let lower_left_corner = spec_vsub(
        spec_vsub(
            spec_vsub(origin, spec_vdiv(horizontal, FX_TWO as int)),
            spec_vdiv(vertical, FX_TWO as int),
        ),
        spec_vscale(w, focus_dist),
    );
    Camera {
        origin,
        lower_left_corner,
        horizontal,
        vertical,
        u,
        v,
        lens_radius: spec_fxdiv(aperture, FX_TWO as int) as i64,
    }
}

/// The ray through normalized image coordinates `(s, t)`, its origin
/// jittered inside the lens disk; the new sampler state comes second.
pub open spec fn spec_camera_ray(c: Camera, s: int, t: int, state: u64) -> (Ray, u64) {
    let (d, s1) = spec_in_unit_disk(state, MAX_REJECTS as nat);
    let scale = spec_vscale(d, c.lens_radius as int);
    let offset = spec_vadd(spec_vscale(c.u, scale.x as int), spec_vscale(c.v, scale.y as int));
    let origin = spec_vsub(c.origin, offset);
    let direction = spec_vsub(
        spec_vadd(
            spec_vadd(c.lower_left_corner, spec_vscale(c.horizontal, s)),
            spec_vscale(c.vertical, t),
        ),
        origin,
    );
    (Ray { origin, direction }, s1)
}

impl Camera {
    pub fn new(
        lookfrom: Vector3,
        lookat: Vector3,
        vup: Vector3,
        fov: i64,
        aspect_ratio: i64,
        aperture: i64,
        focus_dist: i64,
    ) -> (c: Camera)
        requires
            spec_camera_inputs_ok(lookfrom, lookat, vup),
        ensures
            c == spec_camera_new(
                lookfrom,
                lookat,
                vup,
                fov as int,
                aspect_ratio as int,
                aperture as int,
                focus_dist as int,
            ),
    {
        let viewport_height = fx_mul(FX_TWO, fx_tan(fx_div(fov, FX_TWO)));
        let viewport_width = fx_mul(aspect_ratio, viewport_height);

        let w = lookfrom.sub(&lookat).normalized();
        let u = vup.cross(&w).normalized();
        let v = w.cross(&u);

        let origin = lookfrom;
        let horizontal = u.scale(fx_mul(focus_dist, viewport_width));
        let vertical = v.scale(fx_mul(focus_dist, viewport_height));
        let lower_left_corner = origin.sub(&horizontal.div_scalar(FX_TWO)).sub(
            &vertical.div_scalar(FX_TWO),
        ).sub(&w.scale(focus_dist));

        let lens_radius = fx_div(aperture, FX_TWO);

        Camera { origin, lower_left_corner, horizontal, vertical, u, v, lens_radius }
    }

    /// The ray for image coordinates `(s, t)`, drawing the lens offset from
    /// the sampler.
    pub fn ray(&self, s: i64, t: i64, smp: &mut Sampler) -> (r: Ray)
        ensures
            r == spec_camera_ray(*self, s as int, t as int, old(smp).state).0,
            final(smp).state == spec_camera_ray(*self, s as int, t as int, old(smp).state).1,
    {
        let d = random_in_unit_disk(smp);
        let scale = d.scale(self.lens_radius);
        let offset = self.u.scale(scale.x).add(&self.v.scale(scale.y));
        let origin = self.origin.sub(&offset);
        let direction = self.lower_left_corner.add(&self.horizontal.scale(s)).add(
            &self.vertical.scale(t),
        ).sub(&origin);
        Ray::new(origin, direction)
    }
}

pub struct CameraBuilder {
    pub lookfrom: Vector3,
    pub lookat: Vector3,
    pub vup: Vector3,
    pub fov: i64,
    pub aspect_ratio: i64,
    pub aperture: i64,
    pub focus_dist: i64,
}

impl CameraBuilder {
    /// Defaults: eye at the origin looking down the negative `z` axis, `y`
    /// up, a quarter-turn field of view, 16:9, no aperture, focus at one.
    pub fn new() -> (b: CameraBuilder)
        ensures
            b.lookfrom == (Vector3 { x: 0i64, y: 0i64, z: 0i64 }),
            b.lookat == (Vector3 { x: 0i64, y: 0i64, z: (-FX_ONE) as i64 }),
            b.vup == (Vector3 { x: 0i64, y: FX_ONE, z: 0i64 }),
            b.fov == FX_FRAC_PI_2,
            b.aspect_ratio == FX_DEFAULT_ASPECT,
            b.aperture == 0,
            b.focus_dist == FX_ONE,
    {
        CameraBuilder {
            lookfrom: Vector3::zero(),
            lookat: Vector3::new(0, 0, -FX_ONE),
            vup: Vector3::new(0, FX_ONE, 0),
            fov: FX_FRAC_PI_2,
            aspect_ratio: FX_DEFAULT_ASPECT,
            aperture: 0,
            focus_dist: FX_ONE,
        }
    }

    pub fn build(self) -> (c: Camera)
        requires
            spec_camera_inputs_ok(self.lookfrom, self.lookat, self.vup),
        ensures
            c == spec_camera_new(
                self.lookfrom,
                self.lookat,
                self.vup,
                self.fov as int,
                self.aspect_ratio as int,
                self.aperture as int,
                self.focus_dist as int,
            ),
    {
        Camera::new(
            self.lookfrom,
            self.lookat,
            self.vup,
            self.fov,
            self.aspect_ratio,
            self.aperture,
            self.focus_dist,
        )
    }

    pub fn with_lookfrom(self, lookfrom: Vector3) -> (b: CameraBuilder)
        ensures
            b == (CameraBuilder { lookfrom, ..self }),
    {
        CameraBuilder { lookfrom, ..self }
    }

    pub fn with_lookat(self, lookat: Vector3) -> (b: CameraBuilder)
        ensures
            b == (CameraBuilder { lookat, ..self }),
    {
        CameraBuilder { lookat, ..self }
    }

    pub fn with_vup(self, vup: Vector3) -> (b: CameraBuilder)
        ensures
            b == (CameraBuilder { vup, ..self }),
    {
        CameraBuilder { vup, ..self }
    }

    pub fn with_fov(self, fov: i64) -> (b: CameraBuilder)
        ensures
            b == (CameraBuilder { fov, ..self }),
    {
        CameraBuilder { fov, ..self }
    }

    pub fn with_aspect_ratio(self, aspect_ratio: i64) -> (b: CameraBuilder)
        ensures
            b == (CameraBuilder { aspect_ratio, ..self }),
    {
        CameraBuilder { aspect_ratio, ..self }
    }

    pub fn with_aperture(self, aperture: i64) -> (b: CameraBuilder)
        ensures
            b == (CameraBuilder { aperture, ..self }),
    {
        CameraBuilder { aperture, ..self }
    }

    pub fn with_focus_dist(self, focus_dist: i64) -> (b: CameraBuilder)
        ensures
            b == (CameraBuilder { focus_dist, ..self }),
    {
        CameraBuilder { focus_dist, ..self }
    }
}

} // verus!
