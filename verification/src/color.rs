//! Linear radiance triples. Components are fixed-point values, not clamped
//! at construction: clamping happens only at raster-encoding time.

use crate::fixed::{
    fx_add, fx_div, fx_mul, fx_sqrt, fx_sub, spec_fxadd, spec_fxdiv, spec_fxmul, spec_fxsqrt,
    spec_fxsub, FX_ONE,
};
use crate::vector3::Vector3;
use vstd::prelude::*;

verus! {

#[derive(Clone, Copy, PartialEq, Eq, Structural, Debug)]
pub struct Color {
    pub r: i64,
    pub g: i64,
    pub b: i64,
}

pub open spec fn spec_black() -> Color {
    Color { r: 0i64, g: 0i64, b: 0i64 }
}

pub open spec fn spec_white() -> Color {
    Color { r: FX_ONE, g: FX_ONE, b: FX_ONE }
}

pub open spec fn spec_cadd(a: Color, b: Color) -> Color {
    Color {
        r: spec_fxadd(a.r as int, b.r as int) as i64,
        g: spec_fxadd(a.g as int, b.g as int) as i64,
        b: spec_fxadd(a.b as int, b.b as int) as i64,
    }
}

pub open spec fn spec_cmul(a: Color, b: Color) -> Color {
    Color {
        r: spec_fxmul(a.r as int, b.r as int) as i64,
        g: spec_fxmul(a.g as int, b.g as int) as i64,
        b: spec_fxmul(a.b as int, b.b as int) as i64,
    }
}

pub open spec fn spec_cscale(a: Color, t: int) -> Color {
    Color {
        r: spec_fxmul(a.r as int, t) as i64,
        g: spec_fxmul(a.g as int, t) as i64,
        b: spec_fxmul(a.b as int, t) as i64,
    }
}

pub open spec fn spec_cdiv(a: Color, t: int) -> Color {
    Color {
        r: spec_fxdiv(a.r as int, t) as i64,
        g: spec_fxdiv(a.g as int, t) as i64,
        b: spec_fxdiv(a.b as int, t) as i64,
    }
}

/// Square-root gamma encoding of each channel.
pub open spec fn spec_gamma(a: Color) -> Color {
    Color {
        r: spec_fxsqrt(a.r as int) as i64,
        g: spec_fxsqrt(a.g as int) as i64,
        b: spec_fxsqrt(a.b as int) as i64,
    }
}

/// `(1 - t) * a + t * b`, each operation in fixed point.
pub open spec fn spec_lerp(a: Color, b: Color, t: int) -> Color {
    spec_cadd(spec_cscale(a, spec_fxsub(FX_ONE as int, t)), spec_cscale(b, t))
}

impl Color {
    pub fn new(r: i64, g: i64, b: i64) -> (c: Color)
        ensures
            c == (Color { r, g, b }),
    {
        Color { r, g, b }
    }

    pub fn black() -> (c: Color)
        ensures
            c == spec_black(),
    {
        Color { r: 0, g: 0, b: 0 }
    }

    pub fn white() -> (c: Color)
        ensures
            c == spec_white(),
    {
        Color { r: FX_ONE, g: FX_ONE, b: FX_ONE }
    }

    pub fn add(&self, o: &Color) -> (c: Color)
        ensures
            c == spec_cadd(*self, *o),
    {
        Color { r: fx_add(self.r, o.r), g: fx_add(self.g, o.g), b: fx_add(self.b, o.b) }
    }

    pub fn mul(&self, o: &Color) -> (c: Color)
        ensures
            c == spec_cmul(*self, *o),
    {
        Color { r: fx_mul(self.r, o.r), g: fx_mul(self.g, o.g), b: fx_mul(self.b, o.b) }
    }

    pub fn scale(&self, t: i64) -> (c: Color)
        ensures
            c == spec_cscale(*self, t as int),
    {
        Color { r: fx_mul(self.r, t), g: fx_mul(self.g, t), b: fx_mul(self.b, t) }
    }

    pub fn div_scalar(&self, t: i64) -> (c: Color)
        ensures
            c == spec_cdiv(*self, t as int),
    {
        Color { r: fx_div(self.r, t), g: fx_div(self.g, t), b: fx_div(self.b, t) }
    }

    pub fn gamma(self) -> (c: Color)
        ensures
            c == spec_gamma(self),
    {
        Color { r: fx_sqrt(self.r), g: fx_sqrt(self.g), b: fx_sqrt(self.b) }
    }

    pub fn lerp(&self, other: &Color, t: i64) -> (c: Color)
        ensures
            c == spec_lerp(*self, *other, t as int),
    {
        self.scale(fx_sub(FX_ONE, t)).add(&other.scale(t))
    }

    pub fn from_vector(v: &Vector3) -> (c: Color)
        ensures
            c == (Color { r: v.x, g: v.y, b: v.z }),
    {
        Color { r: v.x, g: v.y, b: v.z }
    }
}

} // verus!
