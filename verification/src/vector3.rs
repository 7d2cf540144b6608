//! 3-component vectors over fixed-point scalars, used for positions,
//! directions, normals and offsets.

use crate::fixed::{
    fx_add, fx_div, fx_mul, fx_neg, fx_sqrt, fx_sub, spec_abs, spec_fxadd, spec_fxdiv, spec_fxmul,
    spec_fxneg, spec_fxsqrt, spec_fxsub, spec_tdiv, fx_ok, FX_MAX, FX_ONE,
};
use vstd::prelude::*;

verus! {

/// Components below this magnitude (one quantum, the finest the encoding
/// resolves) count as zero when testing for a degenerate direction.
pub const FX_NEAR_ZERO: i64 = 1;

#[derive(Clone, Copy, PartialEq, Eq, Structural, Debug)]
pub struct Vector3 {
    pub x: i64,
    pub y: i64,
    pub z: i64,
}

/// All components clear of the asymmetric `i64::MIN`, so negation is exact.
pub open spec fn spec_vec_ok(u: Vector3) -> bool {
    fx_ok(u.x as int) && fx_ok(u.y as int) && fx_ok(u.z as int)
}

pub open spec fn spec_vadd(u: Vector3, v: Vector3) -> Vector3 {
    Vector3 {
        x: spec_fxadd(u.x as int, v.x as int) as i64,
        y: spec_fxadd(u.y as int, v.y as int) as i64,
        z: spec_fxadd(u.z as int, v.z as int) as i64,
    }
}

pub open spec fn spec_vsub(u: Vector3, v: Vector3) -> Vector3 {
    Vector3 {
        x: spec_fxsub(u.x as int, v.x as int) as i64,
        y: spec_fxsub(u.y as int, v.y as int) as i64,
        z: spec_fxsub(u.z as int, v.z as int) as i64,
    }
}

pub open spec fn spec_vneg(u: Vector3) -> Vector3 {
    Vector3 {
        x: spec_fxneg(u.x as int) as i64,
        y: spec_fxneg(u.y as int) as i64,
        z: spec_fxneg(u.z as int) as i64,
    }
}

pub open spec fn spec_vscale(u: Vector3, t: int) -> Vector3 {
    Vector3 {
        x: spec_fxmul(u.x as int, t) as i64,
        y: spec_fxmul(u.y as int, t) as i64,
        z: spec_fxmul(u.z as int, t) as i64,
    }
}

pub open spec fn spec_vdiv(u: Vector3, t: int) -> Vector3 {
    Vector3 {
        x: spec_fxdiv(u.x as int, t) as i64,
        y: spec_fxdiv(u.y as int, t) as i64,
        z: spec_fxdiv(u.z as int, t) as i64,
    }
}

pub open spec fn spec_dot(u: Vector3, v: Vector3) -> int {
    spec_fxadd(
        spec_fxadd(spec_fxmul(u.x as int, v.x as int), spec_fxmul(u.y as int, v.y as int)),
        spec_fxmul(u.z as int, v.z as int),
    )
}

pub open spec fn spec_cross(u: Vector3, v: Vector3) -> Vector3 {
    Vector3 {
        x: spec_fxsub(spec_fxmul(u.y as int, v.z as int), spec_fxmul(u.z as int, v.y as int)) as i64,
        y: spec_fxsub(spec_fxmul(u.z as int, v.x as int), spec_fxmul(u.x as int, v.z as int)) as i64,
        z: spec_fxsub(spec_fxmul(u.x as int, v.y as int), spec_fxmul(u.y as int, v.x as int)) as i64,
    }
}

pub open spec fn spec_norm_sq(u: Vector3) -> int {
    spec_dot(u, u)
}

pub open spec fn spec_norm(u: Vector3) -> int {
    spec_fxsqrt(spec_norm_sq(u))
}

pub open spec fn spec_normalized(u: Vector3) -> Vector3 {
    spec_vdiv(u, spec_norm(u))
}

pub open spec fn spec_nearly_zero(u: Vector3) -> bool {
    spec_abs(u.x as int) < FX_NEAR_ZERO && spec_abs(u.y as int) < FX_NEAR_ZERO && spec_abs(
        u.z as int,
    ) < FX_NEAR_ZERO
}

/// A squared norm is never negative: each squared term is nonnegative and
/// addition preserves that.
pub proof fn lemma_norm_sq_nonneg(v: Vector3)
    ensures
        spec_norm_sq(v) >= 0,
{
    assert((v.x as int) * (v.x as int) >= 0) by (nonlinear_arith);
    assert((v.y as int) * (v.y as int) >= 0) by (nonlinear_arith);
    assert((v.z as int) * (v.z as int) >= 0) by (nonlinear_arith);
    vstd::arithmetic::div_mod::lemma_div_basics_4(
        (v.x as int) * (v.x as int),
        FX_ONE as int,
    );
    vstd::arithmetic::div_mod::lemma_div_basics_4(
        (v.y as int) * (v.y as int),
        FX_ONE as int,
    );
    vstd::arithmetic::div_mod::lemma_div_basics_4(
        (v.z as int) * (v.z as int),
        FX_ONE as int,
    );
}

proof fn lemma_sq_term(x: int)
    requires
        spec_abs(x) <= 0x40000000000,
    ensures
        spec_fxmul(x, x) == (x * x) / (FX_ONE as int),
        0 <= (x * x) / (FX_ONE as int) <= 0x1000000000000000,
        (FX_ONE as int) * ((x * x) / (FX_ONE as int)) <= x * x,
        x * x <= (FX_ONE as int) * ((x * x) / (FX_ONE as int)) + (FX_ONE as int) - 1,
{
    let s = FX_ONE as int;
    assert(0 <= x * x <= 0x1000000000000000 * s) by (nonlinear_arith)
        requires
            -0x40000000000 <= x <= 0x40000000000,
            s == 16777216,
    ;
    vstd::arithmetic::div_mod::lemma_div_basics_4(x * x, s);
    vstd::arithmetic::div_mod::lemma_div_is_ordered(x * x, 0x1000000000000000 * s, s);
    vstd::arithmetic::div_mod::lemma_div_by_multiple(0x1000000000000000, s);
    vstd::arithmetic::div_mod::lemma_fundamental_div_mod(x * x, s);
    vstd::arithmetic::div_mod::lemma_mod_bound(x * x, s);
}

proof fn lemma_unit_term(x: int, n: int)
    requires
        spec_abs(x) <= 0x40000000000,
        n >= FX_ONE as int,
    ensures
        ({
            let s = FX_ONE as int;
            let q = (spec_abs(x) * s) / n;
            &&& 0 <= q <= spec_abs(x)
            &&& q * n <= spec_abs(x) * s
            &&& spec_fxdiv(x, n) == (if x < 0 {
                -q
            } else {
                q
            })
            &&& spec_fxmul(spec_fxdiv(x, n), spec_fxdiv(x, n)) == (q * q) / s
            &&& 0 <= (q * q) / s <= 0x1000000000000000
            &&& (FX_ONE as int) * ((q * q) / s) <= q * q
            &&& q * q <= (FX_ONE as int) * ((q * q) / s) + (FX_ONE as int) - 1
            &&& (q * q) * (n * n) <= (x * x) * (s * s)
            &&& (q * q) * (n * n) >= (x * x) * (s * s) - 2 * ((spec_abs(x) * s) * n)
        }),
{
    let s = FX_ONE as int;
    let ax = spec_abs(x);
    let a = ax * s;
    assert(0 <= a) by (nonlinear_arith)
        requires
            a == ax * s,
            ax >= 0,
            s > 0,
    ;
    assert(x >= 0 ==> x * s == a);
    assert(x < 0 ==> x * s == -a) by (nonlinear_arith)
        requires
            a == ax * s,
            x < 0 ==> ax == -x,
            s > 0,
    ;
    let q = a / n;
    vstd::arithmetic::div_mod::lemma_div_basics_4(a, n);
    vstd::arithmetic::div_mod::lemma_div_is_ordered_by_denominator(a, s, n);
    vstd::arithmetic::div_mod::lemma_div_by_multiple(ax, s);
    assert(q <= ax);
    vstd::arithmetic::div_mod::lemma_fundamental_div_mod(a, n);
    vstd::arithmetic::div_mod::lemma_mod_bound(a, n);
    assert(n * q <= a);
    assert(q * n <= a) by (nonlinear_arith)
        requires
            n * q <= a,
    ;
    let u = spec_fxdiv(x, n);
    assert(u == (if x < 0 {
        -q
    } else {
        q
    }));
    assert(u * u == q * q) by (nonlinear_arith)
        requires
            u == q || u == -q,
    ;
    lemma_sq_term(q);
    assert(spec_fxmul(u, u) == (q * q) / s);
    assert(ax * ax == x * x) by (nonlinear_arith)
        requires
            (x >= 0 && ax == x) || (x < 0 && ax == -x),
    ;
    assert((q * q) * (n * n) <= (x * x) * (s * s)) by (nonlinear_arith)
        requires
            0 <= q,
            0 <= n,
            q * n <= ax * s,
            ax * ax == x * x,
            ax >= 0,
            s > 0,
    ;
    assert(q * n + n > a);
    assert((q * q) * (n * n) >= (x * x) * (s * s) - 2 * (a * n)) by (nonlinear_arith)
        requires
            0 <= q,
            0 < n,
            q * n + n > a,
            a == ax * s,
            ax * ax == x * x,
            ax >= 0,
            s > 0,
    ;
}

proof fn lemma_normalized_norm_sq_upper(v: Vector3)
    requires
        spec_abs(v.x as int) <= 0x40000000000,
        spec_abs(v.y as int) <= 0x40000000000,
        spec_abs(v.z as int) <= 0x40000000000,
        spec_norm_sq(v) >= FX_ONE,
    ensures
        spec_norm_sq(spec_normalized(v)) <= FX_ONE + 8,
{
    let s = FX_ONE as int;
    let x = v.x as int;
    let y = v.y as int;
    let z = v.z as int;
    lemma_sq_term(x);
    lemma_sq_term(y);
    lemma_sq_term(z);
    let tx = (x * x) / s;
    let ty = (y * y) / s;
    let tz = (z * z) / s;
    let nsq = tx + ty + tz;
    assert(spec_norm_sq(v) == nsq);
    assert(0 < nsq * s) by (nonlinear_arith)
        requires
            nsq >= s,
            s > 0,
    ;
    crate::fixed::lemma_isqrt_bounds(nsq * s);
    let n = crate::fixed::spec_isqrt(nsq * s);
    assert(spec_norm(v) == n);
    assert(nsq * s <= n * n + 2 * n) by (nonlinear_arith)
        requires
            nsq * s < (n + 1) * (n + 1),
    ;
    assert(n >= s) by (nonlinear_arith)
        requires
            n >= 0,
            nsq >= s,
            nsq * s < (n + 1) * (n + 1),
            s == 16777216,
    ;
    lemma_unit_term(x, n);
    lemma_unit_term(y, n);
    lemma_unit_term(z, n);
    let qx = (spec_abs(x) * s) / n;
    let qy = (spec_abs(y) * s) / n;
    let qz = (spec_abs(z) * s) / n;
    let u = spec_normalized(v);
    assert(u.x as int == spec_fxdiv(x, n));
    assert(u.y as int == spec_fxdiv(y, n));
    assert(u.z as int == spec_fxdiv(z, n));
    let nsq_u = spec_norm_sq(u);
    assert(nsq_u == (qx * qx) / s + (qy * qy) / s + (qz * qz) / s);
    assert(s * nsq_u <= qx * qx + qy * qy + qz * qz) by (nonlinear_arith)
        requires
            nsq_u == (qx * qx) / s + (qy * qy) / s + (qz * qz) / s,
            s * ((qx * qx) / s) <= qx * qx,
            s * ((qy * qy) / s) <= qy * qy,
            s * ((qz * qz) / s) <= qz * qz,
    ;
    assert((s * nsq_u) * (n * n) <= (qx * qx + qy * qy + qz * qz) * (n * n)) by (nonlinear_arith)
        requires
            s * nsq_u <= qx * qx + qy * qy + qz * qz,
            n * n >= 0,
    ;
    assert((qx * qx + qy * qy + qz * qz) * (n * n) == (qx * qx) * (n * n) + (qy * qy) * (n * n) + (
    qz * qz) * (n * n)) by (nonlinear_arith);
    assert(((x * x) + (y * y) + (z * z)) * (s * s) == (x * x) * (s * s) + (y * y) * (s * s) + (z
        * z) * (s * s)) by (nonlinear_arith);
    assert((s * nsq_u) * (n * n) <= ((x * x) + (y * y) + (z * z)) * (s * s));
    assert((x * x) + (y * y) + (z * z) <= s * nsq + 3 * s) by (nonlinear_arith)
        requires
            x * x <= s * tx + s - 1,
            y * y <= s * ty + s - 1,
            z * z <= s * tz + s - 1,
            nsq == tx + ty + tz,
    ;
    assert(nsq_u * (n * n) <= (nsq * s + 3 * s) * s) by (nonlinear_arith)
        requires
            (s * nsq_u) * (n * n) <= ((x * x) + (y * y) + (z * z)) * (s * s),
            (x * x) + (y * y) + (z * z) <= s * nsq + 3 * s,
            s > 0,
            (s * s) >= 0,
    ;
    assert(nsq_u * (n * n) <= (n * n + 2 * n) * s + 3 * (s * s)) by (nonlinear_arith)
        requires
            nsq_u * (n * n) <= (nsq * s + 3 * s) * s,
            nsq * s <= n * n + 2 * n,
            s > 0,
    ;
    if nsq_u >= s + 9 {
        assert(false) by (nonlinear_arith)
            requires
                nsq_u >= s + 9,
                nsq_u * (n * n) <= (n * n + 2 * n) * s + 3 * (s * s),
                n >= s,
                s == 16777216,
        ;
    }
}

proof fn lemma_normalized_norm_sq_lower(v: Vector3)
    requires
        spec_abs(v.x as int) <= 0x40000000000,
        spec_abs(v.y as int) <= 0x40000000000,
        spec_abs(v.z as int) <= 0x40000000000,
        spec_norm_sq(v) >= FX_ONE,
    ensures
        spec_norm_sq(spec_normalized(v)) >= FX_ONE - 10,
{
    let s = FX_ONE as int;
    let x = v.x as int;
    let y = v.y as int;
    let z = v.z as int;
    lemma_sq_term(x);
    lemma_sq_term(y);
    lemma_sq_term(z);
    let tx = (x * x) / s;
    let ty = (y * y) / s;
    let tz = (z * z) / s;
    let nsq = tx + ty + tz;
    assert(spec_norm_sq(v) == nsq);
    assert(0 < nsq * s) by (nonlinear_arith)
        requires
            nsq >= s,
            s > 0,
    ;
    crate::fixed::lemma_isqrt_bounds(nsq * s);
    let n = crate::fixed::spec_isqrt(nsq * s);
    assert(spec_norm(v) == n);
    assert(nsq * s <= n * n + 2 * n) by (nonlinear_arith)
        requires
            nsq * s < (n + 1) * (n + 1),
    ;
    assert(n >= s) by (nonlinear_arith)
        requires
            n >= 0,
            nsq >= s,
            nsq * s < (n + 1) * (n + 1),
            s == 16777216,
    ;
    lemma_unit_term(x, n);
    lemma_unit_term(y, n);
    lemma_unit_term(z, n);
    let ax = spec_abs(x);
    let ay = spec_abs(y);
    let az = spec_abs(z);
    let qx = (ax * s) / n;
    let qy = (ay * s) / n;
    let qz = (az * s) / n;
    let u = spec_normalized(v);
    assert(u.x as int == spec_fxdiv(x, n));
    assert(u.y as int == spec_fxdiv(y, n));
    assert(u.z as int == spec_fxdiv(z, n));
    let nsq_u = spec_norm_sq(u);
    assert(nsq_u == (qx * qx) / s + (qy * qy) / s + (qz * qz) / s);
    assert(ax * ax == x * x && ay * ay == y * y && az * az == z * z) by (nonlinear_arith)
        requires
            (x >= 0 && ax == x) || (x < 0 && ax == -x),
            (y >= 0 && ay == y) || (y < 0 && ay == -y),
            (z >= 0 && az == z) || (z < 0 && az == -z),
    ;
    assert(s * tx <= s * nsq && s * ty <= s * nsq && s * tz <= s * nsq) by (nonlinear_arith)
        requires
            tx <= nsq,
            ty <= nsq,
            tz <= nsq,
            s > 0,
    ;

    // Each component is at most two quanta beyond the norm itself.
    assert(ax * ax <= n * n + 2 * n + s - 1) by (nonlinear_arith)
        requires
            ax * ax == x * x,
            x * x <= s * tx + s - 1,
            tx <= nsq,
            s > 0,
            nsq * s <= n * n + 2 * n,
            s * tx <= s * nsq,
    ;
    assert(ax <= n + 2) by (nonlinear_arith)
        requires
            ax >= 0,
            n >= 0,
            ax * ax <= n * n + 2 * n + s - 1,
            s <= 2 * n + 4,
    ;
    assert(ay * ay <= n * n + 2 * n + s - 1) by (nonlinear_arith)
        requires
            ay * ay == y * y,
            y * y <= s * ty + s - 1,
            s * ty <= s * nsq,
            nsq * s <= n * n + 2 * n,
    ;
    assert(ay <= n + 2) by (nonlinear_arith)
        requires
            ay >= 0,
            n >= 0,
            ay * ay <= n * n + 2 * n + s - 1,
            s <= 2 * n + 4,
    ;
    assert(az * az <= n * n + 2 * n + s - 1) by (nonlinear_arith)
        requires
            az * az == z * z,
            z * z <= s * tz + s - 1,
            s * tz <= s * nsq,
            nsq * s <= n * n + 2 * n,
    ;
    assert(az <= n + 2) by (nonlinear_arith)
        requires
            az >= 0,
            n >= 0,
            az * az <= n * n + 2 * n + s - 1,
            s <= 2 * n + 4,
    ;
    // The truncated sum loses less than three units against the squares.
    assert(s * nsq_u >= (qx * qx + qy * qy + qz * qz) - 3 * s) by (nonlinear_arith)
        requires
            nsq_u == (qx * qx) / s + (qy * qy) / s + (qz * qz) / s,
            qx * qx <= s * ((qx * qx) / s) + s - 1,
            qy * qy <= s * ((qy * qy) / s) + s - 1,
            qz * qz <= s * ((qz * qz) / s) + s - 1,
    ;
    assert((s * nsq_u) * (n * n) >= (qx * qx + qy * qy + qz * qz) * (n * n) - (3 * s) * (n * n))
        by (nonlinear_arith)
        requires
            s * nsq_u >= (qx * qx + qy * qy + qz * qz) - 3 * s,
            n * n >= 0,
    ;
    assert((qx * qx + qy * qy + qz * qz) * (n * n) == (qx * qx) * (n * n) + (qy * qy) * (n * n) + (
    qz * qz) * (n * n)) by (nonlinear_arith);
    assert((qx * qx) * (n * n) + (qy * qy) * (n * n) + (qz * qz) * (n * n) >= ((x * x) + (y * y) + (
    z * z)) * (s * s) - 2 * (((ax + ay + az) * s) * n)) by (nonlinear_arith)
        requires
            (qx * qx) * (n * n) >= (x * x) * (s * s) - 2 * ((ax * s) * n),
            (qy * qy) * (n * n) >= (y * y) * (s * s) - 2 * ((ay * s) * n),
            (qz * qz) * (n * n) >= (z * z) * (s * s) - 2 * ((az * s) * n),
    ;
    assert(2 * (((ax + ay + az) * s) * n) <= 2 * (((3 * n + 6) * s) * n)) by (nonlinear_arith)
        requires
            ax + ay + az <= 3 * n + 6,
            s > 0,
            n > 0,
    ;
    assert(((x * x) + (y * y) + (z * z)) * (s * s) >= (s * nsq) * (s * s)) by (nonlinear_arith)
        requires
            s * tx <= x * x,
            s * ty <= y * y,
            s * tz <= z * z,
            nsq == tx + ty + tz,
            s * s >= 0,
    ;
    assert((s * nsq) * (s * s) >= (n * n) * (s * s)) by (nonlinear_arith)
        requires
            nsq * s >= n * n,
            s * s >= 0,
    ;
    assert((s * nsq_u) * (n * n) >= (n * n) * (s * s) - 2 * (((3 * n + 6) * s) * n) - (3 * s) * (n
        * n));
    assert(nsq_u >= s - 10) by (nonlinear_arith)
        requires
            (s * nsq_u) * (n * n) >= (n * n) * (s * s) - 2 * (((3 * n + 6) * s) * n) - (3 * s) * (n
                * n),
            n >= s,
            s == 16777216,
    ;
}

/// The unit-length law of normalization: a vector of length at least one,
/// with components clear of the saturation range, normalizes to a vector
/// whose squared norm equals one to within ten quanta of the encoding.
pub proof fn lemma_normalized_unit_length(v: Vector3)
    requires
        spec_abs(v.x as int) <= 0x40000000000,
        spec_abs(v.y as int) <= 0x40000000000,
        spec_abs(v.z as int) <= 0x40000000000,
        spec_norm_sq(v) >= FX_ONE,
    ensures
        FX_ONE - 10 <= spec_norm_sq(spec_normalized(v)) <= FX_ONE + 8,
{
    lemma_normalized_norm_sq_upper(v);
    lemma_normalized_norm_sq_lower(v);
}

/// An exact instance of normalization having unit length: an axis-aligned
/// vector whose length is a whole number of units normalizes to exactly the
/// unit axis vector, whose squared norm is exactly one.
pub proof fn lemma_normalized_axis_unit(k: int)
    requires
        1 <= k <= 700000,
    ensures
        spec_normalized(Vector3 { x: (k * (FX_ONE as int)) as i64, y: 0i64, z: 0i64 }) == (Vector3 {
            x: FX_ONE,
            y: 0i64,
            z: 0i64,
        }),
        spec_norm_sq(Vector3 { x: FX_ONE, y: 0i64, z: 0i64 }) == FX_ONE,
{
    let one = FX_ONE as int;
    let a = k * one;
    let v = Vector3 { x: a as i64, y: 0i64, z: 0i64 };
    assert(0 < a <= 700000 * one) by (nonlinear_arith)
        requires
            1 <= k <= 700000,
            a == k * one,
            one == 16777216,
    ;
    crate::fixed::lemma_fxmul_zero(0);
    assert(a * a == (k * k * one) * one) by (nonlinear_arith)
        requires
            a == k * one,
    ;
    vstd::arithmetic::div_mod::lemma_div_by_multiple(k * k * one, one);
    assert(spec_tdiv(a * a, one) == k * k * one);
    assert(0 < k * k * one <= FX_MAX as int) by (nonlinear_arith)
        requires
            1 <= k <= 700000,
            one == 16777216,
    ;
    assert(spec_fxmul(a, a) == k * k * one);
    assert(spec_norm_sq(v) == k * k * one);
    assert((k * k * one) * one == a * a) by (nonlinear_arith)
        requires
            a == k * one,
    ;
    assert((a + 1) * (a + 1) > a * a) by (nonlinear_arith)
        requires
            a > 0,
    ;
    crate::fixed::lemma_isqrt_unique(a * a, a);
    assert(spec_norm(v) == a);
    assert(a * one == one * a) by (nonlinear_arith);
    vstd::arithmetic::div_mod::lemma_div_by_multiple(one, a);
    assert(spec_tdiv(a * one, a) == one);
    assert(spec_fxdiv(a, a) == one);
    vstd::arithmetic::div_mod::lemma_div_of0(a);
    assert(spec_fxdiv(0, a) == 0);
    vstd::arithmetic::div_mod::lemma_div_by_multiple(one, one);
    assert(spec_fxmul(one, one) == one);
}

/// Against a negated vector, a dot product negates exactly.
pub proof fn lemma_dot_neg(d: Vector3, n: Vector3)
    requires
        spec_vec_ok(n),
    ensures
        spec_dot(d, spec_vneg(n)) == -spec_dot(d, n),
{
    crate::fixed::lemma_fxmul_neg(d.x as int, n.x as int);
    crate::fixed::lemma_fxmul_neg(d.y as int, n.y as int);
    crate::fixed::lemma_fxmul_neg(d.z as int, n.z as int);
    crate::fixed::lemma_fxadd_neg(
        spec_fxmul(d.x as int, n.x as int),
        spec_fxmul(d.y as int, n.y as int),
    );
    crate::fixed::lemma_fxadd_neg(
        spec_fxadd(spec_fxmul(d.x as int, n.x as int), spec_fxmul(d.y as int, n.y as int)),
        spec_fxmul(d.z as int, n.z as int),
    );
}

impl Vector3 {
    pub fn new(x: i64, y: i64, z: i64) -> (v: Vector3)
        ensures
            v == (Vector3 { x, y, z }),
    {
        Vector3 { x, y, z }
    }

    pub fn zero() -> (v: Vector3)
        ensures
            v == (Vector3 { x: 0i64, y: 0i64, z: 0i64 }),
    {
        Vector3 { x: 0, y: 0, z: 0 }
    }

    pub fn add(&self, v: &Vector3) -> (r: Vector3)
        ensures
            r == spec_vadd(*self, *v),
    {
        Vector3 { x: fx_add(self.x, v.x), y: fx_add(self.y, v.y), z: fx_add(self.z, v.z) }
    }

    pub fn sub(&self, v: &Vector3) -> (r: Vector3)
        ensures
            r == spec_vsub(*self, *v),
    {
        Vector3 { x: fx_sub(self.x, v.x), y: fx_sub(self.y, v.y), z: fx_sub(self.z, v.z) }
    }

    pub fn neg(&self) -> (r: Vector3)
        ensures
            r == spec_vneg(*self),
    {
        Vector3 { x: fx_neg(self.x), y: fx_neg(self.y), z: fx_neg(self.z) }
    }

    pub fn scale(&self, t: i64) -> (r: Vector3)
        ensures
            r == spec_vscale(*self, t as int),
    {
        Vector3 { x: fx_mul(self.x, t), y: fx_mul(self.y, t), z: fx_mul(self.z, t) }
    }

    pub fn div_scalar(&self, t: i64) -> (r: Vector3)
        ensures
            r == spec_vdiv(*self, t as int),
    {
        Vector3 { x: fx_div(self.x, t), y: fx_div(self.y, t), z: fx_div(self.z, t) }
    }

    pub fn dot(&self, v: &Vector3) -> (r: i64)
        ensures
            r == spec_dot(*self, *v),
    {
        fx_add(fx_add(fx_mul(self.x, v.x), fx_mul(self.y, v.y)), fx_mul(self.z, v.z))
    }

    pub fn cross(&self, v: &Vector3) -> (r: Vector3)
        ensures
            r == spec_cross(*self, *v),
    {
        Vector3 {
            x: fx_sub(fx_mul(self.y, v.z), fx_mul(self.z, v.y)),
            y: fx_sub(fx_mul(self.z, v.x), fx_mul(self.x, v.z)),
            z: fx_sub(fx_mul(self.x, v.y), fx_mul(self.y, v.x)),
        }
    }

    pub fn norm_squared(&self) -> (r: i64)
        ensures
            r == spec_norm_sq(*self),
    {
        self.dot(self)
    }

    pub fn norm(&self) -> (r: i64)
        ensures
            r == spec_norm(*self),
    {
        fx_sqrt(self.norm_squared())
    }

    /// Direction of `self` with unit length (up to truncation). A zero-length
    /// vector has no direction: callers must avoid it.
    pub fn normalized(&self) -> (r: Vector3)
        requires
            spec_norm_sq(*self) > 0,
        ensures
            r == spec_normalized(*self),
    {
        let n = self.norm();
        self.div_scalar(n)
    }

    pub fn is_nearly_zero(&self) -> (r: bool)
        ensures
            r == spec_nearly_zero(*self),
    {
        let ax = if self.x < 0 { self.x > -FX_NEAR_ZERO } else { self.x < FX_NEAR_ZERO };
        let ay = if self.y < 0 { self.y > -FX_NEAR_ZERO } else { self.y < FX_NEAR_ZERO };
        let az = if self.z < 0 { self.z > -FX_NEAR_ZERO } else { self.z < FX_NEAR_ZERO };
        ax && ay && az
    }
}

} // verus!
