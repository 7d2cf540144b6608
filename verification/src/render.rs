//! The renderer: per-pixel stratified sampling, the recursive light
//! transport integrator, and final averaging with gamma encoding.
//!
//! Every pixel is an independent function of the scene, the camera, the
//! render parameters and a seed: `render` fills the buffer sequentially, and
//! `render_pixel` exposes the same per-pixel function so a caller may
//! distribute pixels over workers and obtain, slot for slot, the identical
//! buffer. Two renders from the same seed are equal by construction.

use crate::camera::{spec_camera_ray, Camera};
use crate::color::{spec_cadd, spec_cdiv, spec_cmul, spec_black, spec_gamma, Color};
use crate::fixed::{
    fx_add, fx_clamp, fx_div, fx_sub, spec_clip, spec_fxadd, spec_fxclamp, spec_fxdiv, spec_fxsub,
    u322fx, usize2fx, FX_MAX, FX_ONE,
};
use crate::list::spec_list_hit;
use crate::material::spec_scatter;
use crate::ray::Ray;
use crate::sampler::{
    mix_seed, spec_mix_seed, spec_next_state, spec_next_u64, spec_unit_fx, Sampler,
};
use crate::world::{spec_background, World};
use vstd::arithmetic::div_mod::lemma_multiply_divide_lt;
use vstd::prelude::*;

verus! {

/// Least admissible hit distance, about `1e-6`: suppresses immediate
/// re-intersection of a scattered ray with its own surface.
pub const T_MIN: i64 = 17;

/// Radiance transported along a ray: black once the depth budget is spent;
/// the background where nothing is hit; otherwise the scattering material's
/// attenuation times the radiance of the scattered ray. A record whose
/// material index falls outside the arena is treated as absorbing.
pub open spec fn spec_ray_color(r: Ray, w: World, depth: u32, s: u64) -> (Color, u64)
    decreases depth,
{
    if depth == 0 {
        (spec_black(), s)
    } else {
        match spec_list_hit(w.list.0@, r, T_MIN as int, FX_MAX as int) {
            Option::None => (spec_background(w.bg, r), s),
            Option::Some(hit) => {
                if hit.material < w.materials@.len() {
                    let scat = spec_scatter(w.materials@[hit.material as int], r, hit, s);
                    match scat.0 {
                        Option::None => (spec_black(), scat.1),
                        Option::Some((att, scattered)) => {
                            let rec = spec_ray_color(scattered, w, (depth - 1) as u32, scat.1);
                            (spec_cmul(att, rec.0), rec.1)
                        },
                    }
                } else {
                    (spec_black(), s)
                }
            },
        }
    }
}

/// Jittered normalized image coordinates for pixel column `i`, row `jj`
/// (already flipped): `(i + draw) / (width - 1)` and likewise for `jj`.
pub open spec fn spec_uv(width: int, height: int, i: int, jj: int, s: u64) -> (int, int, u64) {
    let du = spec_unit_fx(spec_next_u64(s));
    let s1 = spec_next_state(s);
    let dv = spec_unit_fx(spec_next_u64(s1));
    let s2 = spec_next_state(s1);
    let u = spec_fxdiv(
        spec_fxadd(spec_clip(i * (FX_ONE as int)), du),
        spec_fxsub(spec_clip(width * (FX_ONE as int)), FX_ONE as int),
    );
    let v = spec_fxdiv(
        spec_fxadd(spec_clip(jj * (FX_ONE as int)), dv),
        spec_fxsub(spec_clip(height * (FX_ONE as int)), FX_ONE as int),
    );
    (u, v, s2)
}

pub struct Renderer {
    pub image_width: usize,
    pub image_height: usize,
    pub samples: u32,
    pub depth: u32,
    pub camera: Camera,
}

/// Render parameters a render needs: at least two pixels each way (the
/// coordinate map divides by size minus one), at least one sample, and a
/// pixel count that fits the address space.
pub open spec fn spec_renderer_wf(rd: Renderer) -> bool {
    rd.image_width > 1 && rd.image_height > 1 && rd.samples >= 1 && rd.image_width
        * rd.image_height <= usize::MAX
}

/// The running sum of sample radiances for one pixel, folded left from
/// `acc` over `n` more samples.
pub open spec fn spec_sample_sum(
    rd: Renderer,
    w: World,
    i: int,
    jj: int,
    acc: Color,
    n: u32,
    s: u64,
) -> (Color, u64)
    decreases n,
{
    if n == 0 {
        (acc, s)
    } else {
        let uvw = spec_uv(rd.image_width as int, rd.image_height as int, i, jj, s);
        let cr = spec_camera_ray(rd.camera, uvw.0, uvw.1, uvw.2);
        let rc = spec_ray_color(cr.0, w, rd.depth, cr.1);
        spec_sample_sum(rd, w, i, jj, spec_cadd(acc, rc.0), (n - 1) as u32, rc.1)
    }
}

/// The finished pixel `k` (row-major, row zero at the top): the average of
/// `samples` draws from the pixel's own sampler stream, gamma-encoded.
pub open spec fn spec_render_pixel(rd: Renderer, w: World, seed: u64, k: int) -> Color {
    let i = k % (rd.image_width as int);
    let j = k / (rd.image_width as int);
    let jj = rd.image_height as int - j;
    let s0 = spec_mix_seed(seed, (k % 0x10000000000000000) as u64);
    let sum = spec_sample_sum(rd, w, i, jj, spec_black(), rd.samples, s0).0;
    spec_gamma(spec_cdiv(sum, spec_clip(rd.samples * (FX_ONE as int))))
}

impl Renderer {
    pub fn new(
        image_width: usize,
        image_height: usize,
        samples: u32,
        depth: u32,
        camera: Camera,
    ) -> (rd: Renderer)
        ensures
            rd == (Renderer { image_width, image_height, samples, depth, camera }),
    {
        Renderer { image_width, image_height, samples, depth, camera }
    }

    /// Radiance along `r`, recursing while the depth budget lasts. With
    /// `depth == 0` the result is black whatever the scene holds.
    pub fn ray_color(r: &Ray, world: &World, depth: u32, smp: &mut Sampler) -> (c: Color)
        ensures
            c == spec_ray_color(*r, *world, depth, old(smp).state).0,
            final(smp).state == spec_ray_color(*r, *world, depth, old(smp).state).1,
            depth == 0 ==> c == spec_black(),
        decreases depth,
    {
        if depth == 0 {
            return Color::black();
        }
        match world.hit(r, T_MIN, FX_MAX) {
            None => world.background(r),
            Some(hit) => {
                if hit.material < world.materials.len() {
                    let material = world.materials[hit.material];
                    match material.scatter(r, &hit, smp) {
                        None => Color::black(),
                        Some((att, scattered)) => {
                            let c = Self::ray_color(&scattered, world, depth - 1, smp);
                            att.mul(&c)
                        },
                    }
                } else {
                    Color::black()
                }
            },
        }
    }

    fn uv(&self, i: usize, jj: usize, smp: &mut Sampler) -> (r: (i64, i64))
        ensures
            r.0 == spec_uv(
                self.image_width as int,
                self.image_height as int,
                i as int,
                jj as int,
                old(smp).state,
            ).0,
            r.1 == spec_uv(
                self.image_width as int,
                self.image_height as int,
                i as int,
                jj as int,
                old(smp).state,
            ).1,
            final(smp).state == spec_uv(
                self.image_width as int,
                self.image_height as int,
                i as int,
                jj as int,
                old(smp).state,
            ).2,
    {
        let du = smp.next_unit();
        let dv = smp.next_unit();
        let u = fx_div(fx_add(usize2fx(i), du), fx_sub(usize2fx(self.image_width), FX_ONE));
        let v = fx_div(fx_add(usize2fx(jj), dv), fx_sub(usize2fx(self.image_height), FX_ONE));
        (u, v)
    }

    /// One pixel of the image, a pure function of scene, parameters, seed
    /// and index. Distributing calls over workers and writing each result
    /// to its slot reproduces exactly the buffer `render` yields.
    fn sample_sum(&self, world: &World, i: usize, jj: usize, smp: &mut Sampler) -> (sum: Color)
        ensures
            sum == spec_sample_sum(
                *self,
                *world,
                i as int,
                jj as int,
                spec_black(),
                self.samples,
                old(smp).state,
            ).0,
            final(smp).state == spec_sample_sum(
                *self,
                *world,
                i as int,
                jj as int,
                spec_black(),
                self.samples,
                old(smp).state,
            ).1,
    {
        let ghost s0 = smp.state;
        let ghost target = spec_sample_sum(
            *self,
            *world,
            i as int,
            jj as int,
            spec_black(),
            self.samples,
            s0,
        );
        let mut sum = Color::black();
        let mut n: u32 = self.samples;
        while n > 0
            invariant
                spec_sample_sum(*self, *world, i as int, jj as int, sum, n, smp.state) == target,
            decreases n,
        {
            let ghost gsum = sum;
            let ghost gn = n;
            let ghost gs = smp.state;
            let (u, v) = self.uv(i, jj, smp);
            let r = self.camera.ray(u, v, smp);
            let c = Self::ray_color(&r, world, self.depth, smp);
            sum = sum.add(&c);
            n = n - 1;
            proof {
                let uvw = spec_uv(
                    self.image_width as int,
                    self.image_height as int,
                    i as int,
                    jj as int,
                    gs,
                );
                let cr = spec_camera_ray(self.camera, uvw.0, uvw.1, uvw.2);
                let rc = spec_ray_color(cr.0, *world, self.depth, cr.1);
                assert(c == rc.0 && smp.state == rc.1);
                assert(sum == spec_cadd(gsum, rc.0) && n == gn - 1);
                assert(spec_sample_sum(*self, *world, i as int, jj as int, gsum, gn, gs)
                    == spec_sample_sum(*self, *world, i as int, jj as int, sum, n, smp.state));
            }
        }
        sum
    }

    #[verifier::rlimit(100)]
    pub fn render_pixel(&self, world: &World, seed: u64, k: usize) -> (c: Color)
        requires
            spec_renderer_wf(*self),
            k < self.image_width * self.image_height,
        ensures
            c == spec_render_pixel(*self, *world, seed, k as int),
    {
        let i = k % self.image_width;
        let j = k / self.image_width;
        proof {
            lemma_multiply_divide_lt(k as int, self.image_width as int, self.image_height as int);
        }
        let jj = self.image_height - j;
        proof {
            vstd::arithmetic::div_mod::lemma_small_mod(k as nat, 0x10000000000000000);
            assert(i as int == (k as int) % (self.image_width as int));
            assert(jj as int == self.image_height as int - (k as int) / (self.image_width as int));
            assert(k as u64 == ((k as int) % 0x10000000000000000) as u64);
        }
        let mut smp = Sampler::new(mix_seed(seed, k as u64));
        let sum = self.sample_sum(world, i, jj, &mut smp);
        sum.div_scalar(u322fx(self.samples)).gamma()
    }

    /// The whole image, row-major with row zero at the top: slot `k` holds
    /// exactly `render_pixel(world, seed, k)`. The buffer is a function of
    /// its arguments alone, so equal seeds give bit-equal renders.
    pub fn render(&self, world: &World, seed: u64) -> (buf: Vec<Color>)
        requires
            spec_renderer_wf(*self),
        ensures
            buf@.len() == self.image_width * self.image_height,
            forall|k: int|
                0 <= k < buf@.len() ==> buf@[k] == spec_render_pixel(*self, *world, seed, k),
    {
        let size = self.image_width * self.image_height;
        let mut buf: Vec<Color> = Vec::new();
        let mut k: usize = 0;
        while k < size
            invariant
                k <= size,
                size == self.image_width * self.image_height,
                spec_renderer_wf(*self),
                buf@.len() == k,
                forall|q: int|
                    0 <= q < k ==> buf@[q] == spec_render_pixel(*self, *world, seed, q),
            decreases size - k,
        {
            let c = self.render_pixel(world, seed, k);
            buf.push(c);
            k = k + 1;
        }
        buf
    }
}

/// A channel value clamped to `[0, 1]` and scaled to an 8-bit intensity.
pub open spec fn spec_channel_byte(c: int) -> int {
    (255 * spec_fxclamp(c, 0, FX_ONE as int)) / (FX_ONE as int)
}

pub struct Image {
    pub width: usize,
    pub height: usize,
    pub buffer: Vec<Color>,
}

impl Image {
    pub fn new(width: usize, height: usize, buffer: Vec<Color>) -> (img: Image)
        ensures
            img.width == width,
            img.height == height,
            img.buffer@ == buffer@,
    {
        Image { width, height, buffer }
    }

    /// The buffer as packed 8-bit RGB triples, each channel clamped to
    /// `[0, 1]` and scaled to `0..=255`. Writing these bytes to a raster
    /// file is a caller's concern.
    pub fn to_rgb8(&self) -> (bytes: Vec<u8>)
        ensures
            bytes@.len() == 3 * self.buffer@.len(),
            forall|q: int|
                0 <= q < self.buffer@.len() ==> {
                    &&& bytes@[3 * q] == spec_channel_byte(self.buffer@[q].r as int)
                    &&& bytes@[3 * q + 1] == spec_channel_byte(self.buffer@[q].g as int)
                    &&& bytes@[3 * q + 2] == spec_channel_byte(self.buffer@[q].b as int)
                },
    {
        let mut bytes: Vec<u8> = Vec::new();
        let mut q: usize = 0;
        while q < self.buffer.len()
            invariant
                q <= self.buffer@.len(),
                bytes@.len() == 3 * q,
                forall|p: int|
                    0 <= p < q ==> {
                        &&& bytes@[3 * p] == spec_channel_byte(self.buffer@[p].r as int)
                        &&& bytes@[3 * p + 1] == spec_channel_byte(self.buffer@[p].g as int)
                        &&& bytes@[3 * p + 2] == spec_channel_byte(self.buffer@[p].b as int)
                    },
            decreases self.buffer@.len() - q,
        {
            let c = self.buffer[q];
            bytes.push(channel_byte(c.r));
            bytes.push(channel_byte(c.g));
            bytes.push(channel_byte(c.b));
            q = q + 1;
        }
        bytes
    }
}

fn channel_byte(c: i64) -> (b: u8)
    ensures
        b == spec_channel_byte(c as int),
{
    let cl = fx_clamp(c, 0, FX_ONE);
    proof {
        vstd::arithmetic::div_mod::lemma_div_is_ordered(
            255 * (cl as int),
            255 * (FX_ONE as int),
            FX_ONE as int,
        );
        vstd::arithmetic::div_mod::lemma_div_by_multiple(255, FX_ONE as int);
        vstd::arithmetic::div_mod::lemma_div_basics_4(255 * (cl as int), FX_ONE as int);
    }
    ((255u64 * (cl as u64)) / (FX_ONE as u64)) as u8
}

/// A world with no geometry leaves every ray to the background: with any
/// depth budget left, transported radiance is exactly the background color,
/// and the sampler state is untouched.
pub proof fn lemma_empty_world_background(w: World, r: Ray, depth: u32, s: u64)
    requires
        w.list.0@.len() == 0,
        depth > 0,
    ensures
        spec_ray_color(r, w, depth, s).0 == spec_background(w.bg, r),
        spec_ray_color(r, w, depth, s).1 == s,
{
    assert(spec_list_hit(w.list.0@, r, T_MIN as int, FX_MAX as int) is None);
}

} // verus!
