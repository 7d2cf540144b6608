//! Fixed-point scalar arithmetic: the number system of the tracer.
//!
//! A real quantity is carried as an `i64` holding `value * FX_ONE`, so one
//! real unit is `FX_ONE` and there are 24 fractional bits. Multiplication
//! and division truncate toward zero, as the corresponding real operations
//! on a machine do, and every operation saturates into the symmetric range
//! `[-FX_MAX, FX_MAX]`, so each one is total and its result is stated
//! exactly by its spec twin.

use vstd::arithmetic::div_mod::{lemma_div_basics_4, lemma_div_basics_5};
use vstd::prelude::*;

verus! {

/// One real unit: 2^24.
pub const FX_ONE: i64 = 16777216;

/// Half a unit: 2^23.
pub const FX_HALF: i64 = 8388608;

/// Two units.
pub const FX_TWO: i64 = 33554432;

/// A quarter turn, `pi / 2`, in fixed point.
pub const FX_FRAC_PI_2: i64 = 26353589;

/// Largest representable magnitude. Saturation is symmetric, so the
/// negation of every representable value is itself representable.
pub const FX_MAX: i64 = 9223372036854775807;

/// A scalar is in the saturated range (in particular, never `i64::MIN`).
pub open spec fn fx_ok(x: int) -> bool {
    -FX_MAX <= x <= FX_MAX
}

/// Saturate a mathematical integer into the representable range.
pub open spec fn spec_clip(x: int) -> int {
    if x > FX_MAX {
        FX_MAX as int
    } else if x < -FX_MAX {
        -FX_MAX as int
    } else {
        x
    }
}

pub open spec fn spec_abs(x: int) -> int {
    if x < 0 {
        -x
    } else {
        x
    }
}

/// Division truncating toward zero (division by zero yields zero; callers
/// that care branch before dividing).
pub open spec fn spec_tdiv(n: int, d: int) -> int {
    if d == 0 {
        0
    } else if (n < 0) == (d < 0) {
        spec_abs(n) / spec_abs(d)
    } else {
        -(spec_abs(n) / spec_abs(d))
    }
}

pub open spec fn spec_fxadd(a: int, b: int) -> int {
    spec_clip(a + b)
}

pub open spec fn spec_fxsub(a: int, b: int) -> int {
    spec_clip(a - b)
}

pub open spec fn spec_fxneg(a: int) -> int {
    spec_clip(-a)
}

pub open spec fn spec_fxmul(a: int, b: int) -> int {
    spec_clip(spec_tdiv(a * b, FX_ONE as int))
}

/// Division of fixed-point values; a zero divisor saturates toward the
/// dividend's sign, the way the real quotient runs away to infinity.
pub open spec fn spec_fxdiv(a: int, b: int) -> int {
    if b == 0 {
        if a > 0 {
            FX_MAX as int
        } else if a < 0 {
            -FX_MAX as int
        } else {
            0
        }
    } else {
        spec_clip(spec_tdiv(a * (FX_ONE as int), b))
    }
}

pub open spec fn spec_fxmin(a: int, b: int) -> int {
    if a < b {
        a
    } else {
        b
    }
}

pub open spec fn spec_fxabs(a: int) -> int {
    spec_clip(spec_abs(a))
}

pub open spec fn spec_fxclamp(x: int, lo: int, hi: int) -> int {
    if x < lo {
        lo
    } else if x > hi {
        hi
    } else {
        x
    }
}

/// Integer square root: the largest `r` with `r * r <= n` (zero for `n <= 0`).
pub open spec fn spec_isqrt(n: int) -> int
    decreases n,
{
    if n <= 0 {
        0
    } else {
        let r = spec_isqrt(n - 1);
        if (r + 1) * (r + 1) <= n {
            r + 1
        } else {
            r
        }
    }
}

/// Square root of a fixed-point value: `sqrt(a / FX_ONE) * FX_ONE`,
/// rounded down. Negative inputs yield zero.
pub open spec fn spec_fxsqrt(a: int) -> int {
    if a <= 0 {
        0
    } else {
        spec_isqrt(a * (FX_ONE as int))
    }
}

pub proof fn lemma_isqrt_bounds(n: int)
    requires
        n >= 0,
    ensures
        spec_isqrt(n) >= 0,
        spec_isqrt(n) * spec_isqrt(n) <= n,
        (spec_isqrt(n) + 1) * (spec_isqrt(n) + 1) > n,
    decreases n,
{
    if n == 0 {
        assert(spec_isqrt(0) == 0);
    } else {
        lemma_isqrt_bounds(n - 1);
        let r = spec_isqrt(n - 1);
        if (r + 1) * (r + 1) <= n {
            assert(spec_isqrt(n) == r + 1);
            assert((r + 1) * (r + 1) >= n) by {
                assert((r + 1) * (r + 1) > n - 1);
            }
            assert((r + 2) * (r + 2) == (r + 1) * (r + 1) + 2 * r + 3) by (nonlinear_arith);
            assert((r + 2) * (r + 2) > n);
        } else {
            assert(spec_isqrt(n) == r);
            assert(r * r <= n - 1);
        }
    }
}

pub proof fn lemma_isqrt_unique(n: int, r: int)
    requires
        n >= 0,
        r >= 0,
        r * r <= n,
        (r + 1) * (r + 1) > n,
    ensures
        r == spec_isqrt(n),
{
    lemma_isqrt_bounds(n);
    let s = spec_isqrt(n);
    if r < s {
        assert((r + 1) * (r + 1) <= s * s) by (nonlinear_arith)
            requires
                0 <= r,
                r + 1 <= s,
        ;
        assert(false);
    }
    if s < r {
        assert((s + 1) * (s + 1) <= r * r) by (nonlinear_arith)
            requires
                0 <= s,
                s + 1 <= r,
        ;
        assert(false);
    }
}

pub proof fn lemma_tdiv_neg(n: int, d: int)
    ensures
        spec_tdiv(-n, d) == -spec_tdiv(n, d),
{
}

pub proof fn lemma_clip_neg(x: int)
    ensures
        spec_clip(-x) == -spec_clip(x),
{
}

/// Negating one factor negates a product exactly: truncation is toward zero
/// and saturation is symmetric.
pub proof fn lemma_fxmul_neg(a: int, b: int)
    ensures
        spec_fxmul(a, -b) == -spec_fxmul(a, b),
{
    assert(a * (-b) == -(a * b)) by (nonlinear_arith);
    lemma_tdiv_neg(a * b, FX_ONE as int);
    lemma_clip_neg(spec_tdiv(a * b, FX_ONE as int));
}

pub proof fn lemma_fxadd_neg(a: int, b: int)
    ensures
        spec_fxadd(-a, -b) == -spec_fxadd(a, b),
{
    lemma_clip_neg(a + b);
}

/// Multiplying by one is exact.
pub proof fn lemma_fxmul_one(a: int)
    requires
        fx_ok(a),
    ensures
        spec_fxmul(a, FX_ONE as int) == a,
{
    if a >= 0 {
        vstd::arithmetic::div_mod::lemma_div_by_multiple(a, FX_ONE as int);
        assert(spec_abs(a * (FX_ONE as int)) == a * (FX_ONE as int)) by (nonlinear_arith)
            requires
                a >= 0,
        ;
    } else {
        vstd::arithmetic::div_mod::lemma_div_by_multiple(-a, FX_ONE as int);
        assert(spec_abs(a * (FX_ONE as int)) == (-a) * (FX_ONE as int)) by (nonlinear_arith)
            requires
                a < 0,
        ;
    }
}

/// Multiplying by zero is exactly zero.
pub proof fn lemma_fxmul_zero(a: int)
    ensures
        spec_fxmul(a, 0) == 0,
        spec_fxmul(0, a) == 0,
{
    vstd::arithmetic::div_mod::lemma_div_of0(FX_ONE as int);
}

/// The square root of one is exactly one.
pub proof fn lemma_fxsqrt_one()
    ensures
        spec_fxsqrt(FX_ONE as int) == FX_ONE as int,
{
    let s = FX_ONE as int;
    assert(s * s <= s * s);
    assert((s + 1) * (s + 1) > s * s) by (nonlinear_arith)
        requires
            s > 0,
    ;
    lemma_isqrt_unique(s * s, s);
}

fn clamp_i128(x: i128) -> (r: i64)
    ensures
        r == spec_clip(x as int),
{
    if x > FX_MAX as i128 {
        FX_MAX
    } else if x < -(FX_MAX as i128) {
        -FX_MAX
    } else {
        x as i64
    }
}

fn tdiv_i128(n: i128, d: i128) -> (q: i128)
    requires
        n > i128::MIN,
        d != 0,
        d > i128::MIN,
    ensures
        q == spec_tdiv(n as int, d as int),
{
    let na: u128 = if n < 0 {
        (-n) as u128
    } else {
        n as u128
    };
    let da: u128 = if d < 0 {
        (-d) as u128
    } else {
        d as u128
    };
    let qa: u128 = na / da;
    proof {
        assert(na == spec_abs(n as int));
        assert(da == spec_abs(d as int));
        lemma_div_basics_4(na as int, da as int);
        lemma_div_basics_5(na as int, da as int);
        assert(qa <= na);
    }
    if (n < 0) != (d < 0) {
        -(qa as i128)
    } else {
        qa as i128
    }
}

pub fn fx_add(a: i64, b: i64) -> (r: i64)
    ensures
        r == spec_fxadd(a as int, b as int),
{
    clamp_i128(a as i128 + b as i128)
}

pub fn fx_sub(a: i64, b: i64) -> (r: i64)
    ensures
        r == spec_fxsub(a as int, b as int),
{
    clamp_i128(a as i128 - b as i128)
}

pub fn fx_neg(a: i64) -> (r: i64)
    ensures
        r == spec_fxneg(a as int),
{
    clamp_i128(-(a as i128))
}

pub fn fx_mul(a: i64, b: i64) -> (r: i64)
    ensures
        r == spec_fxmul(a as int, b as int),
{
    proof {
        assert(-0x40000000000000000000000000000000 <= (a as int) * (b as int)
            <= 0x40000000000000000000000000000000) by (nonlinear_arith)
            requires
                -0x8000000000000000 <= a as int <= 0x7fffffffffffffff,
                -0x8000000000000000 <= b as int <= 0x7fffffffffffffff,
        ;
    }
    let p: i128 = (a as i128) * (b as i128);
    let q = tdiv_i128(p, FX_ONE as i128);
    clamp_i128(q)
}

pub fn fx_div(a: i64, b: i64) -> (r: i64)
    ensures
        r == spec_fxdiv(a as int, b as int),
{
    if b == 0 {
        if a > 0 {
            FX_MAX
        } else if a < 0 {
            -FX_MAX
        } else {
            0
        }
    } else {
        proof {
            assert(-0x40000000000000000000000000000000 <= (a as int) * (FX_ONE as int)
                <= 0x40000000000000000000000000000000) by (nonlinear_arith)
                requires
                    -0x8000000000000000 <= a as int <= 0x7fffffffffffffff,
            ;
        }
        let p: i128 = (a as i128) * (FX_ONE as i128);
        let q = tdiv_i128(p, b as i128);
        clamp_i128(q)
    }
}

pub fn fx_min(a: i64, b: i64) -> (r: i64)
    ensures
        r == spec_fxmin(a as int, b as int),
{
    if a < b {
        a
    } else {
        b
    }
}

pub fn fx_abs(a: i64) -> (r: i64)
    ensures
        r == spec_fxabs(a as int),
{
    if a < 0 {
        fx_neg(a)
    } else {
        a
    }
}

pub fn fx_clamp(x: i64, lo: i64, hi: i64) -> (r: i64)
    ensures
        r == spec_fxclamp(x as int, lo as int, hi as int),
{
    if x < lo {
        lo
    } else if x > hi {
        hi
    } else {
        x
    }
}

fn isqrt_u128(n: u128) -> (r: u128)
    ensures
        (r as int) * (r as int) <= n as int,
        ((r as int) + 1) * ((r as int) + 1) > n as int,
{
    let mut lo: u128 = 0;
    let mut hi: u128 = 18446744073709551616;
    proof {
        assert((18446744073709551616 as int) * (18446744073709551616 as int) > u128::MAX as int)
            by (nonlinear_arith);
    }
    while hi - lo > 1
        invariant
            (lo as int) * (lo as int) <= n as int,
            (hi as int) * (hi as int) > n as int,
            lo < hi,
            hi <= 18446744073709551616,
        decreases hi - lo,
    {
        let mid: u128 = lo + (hi - lo) / 2;
        proof {
            assert(lo < mid && mid < hi);
            assert((mid as int) * (mid as int) <= (18446744073709551615 as int) * (
            18446744073709551615 as int)) by (nonlinear_arith)
                requires
                    0 <= mid as int <= 18446744073709551615,
            ;
            assert((18446744073709551615 as int) * (18446744073709551615 as int) < u128::MAX as int)
                by (nonlinear_arith);
        }
        if mid * mid <= n {
            lo = mid;
        } else {
            hi = mid;
        }
    }
    lo
}

pub fn fx_sqrt(a: i64) -> (r: i64)
    ensures
        r == spec_fxsqrt(a as int),
{
    if a <= 0 {
        0
    } else {
        proof {
            assert(0 <= (a as int) * (FX_ONE as int) < 0x8000000000000000000000)
                by (nonlinear_arith)
                requires
                    0 < a as int <= 0x7fffffffffffffff,
            ;
        }
        let n: u128 = (a as u128) * (FX_ONE as u128);
        let s = isqrt_u128(n);
        proof {
            lemma_isqrt_unique(n as int, s as int);
            assert((s as int) < 0x100000000000) by (nonlinear_arith)
                requires
                    0 <= s as int,
                    (s as int) * (s as int) <= n as int,
                    (n as int) < 0x8000000000000000000000,
        ;
        }
        s as i64
    }
}

/// Taylor sine to the seventh power: `x - x^3/6 + x^5/120 - x^7/5040`.
pub open spec fn spec_fxsin(x: int) -> int {
    let x2 = spec_fxmul(x, x);
    let x3 = spec_fxmul(x2, x);
    let x5 = spec_fxmul(x3, x2);
    let x7 = spec_fxmul(x5, x2);
    spec_fxsub(
        spec_fxadd(spec_fxsub(x, spec_fxdiv(x3, 100663296)), spec_fxdiv(x5, 2013265920)),
        spec_fxdiv(x7, 84557168640),
    )
}

/// Taylor cosine to the sixth power: `1 - x^2/2 + x^4/24 - x^6/720`.
pub open spec fn spec_fxcos(x: int) -> int {
    let x2 = spec_fxmul(x, x);
    let x4 = spec_fxmul(x2, x2);
    let x6 = spec_fxmul(x4, x2);
    spec_fxsub(
        spec_fxadd(spec_fxsub(FX_ONE as int, spec_fxdiv(x2, FX_TWO as int)), spec_fxdiv(
            x4,
            402653184,
        )),
        spec_fxdiv(x6, 12079595520),
    )
}

/// Tangent as the quotient of the two series; where the cosine term is not
/// positive (at or beyond a quarter turn) the tangent saturates.
pub open spec fn spec_fxtan(x: int) -> int {
    let c = spec_fxcos(x);
    if c <= 0 {
        FX_MAX as int
    } else {
        spec_fxdiv(spec_fxsin(x), c)
    }
}

pub fn fx_sin(x: i64) -> (r: i64)
    ensures
        r == spec_fxsin(x as int),
{
    let x2 = fx_mul(x, x);
    let x3 = fx_mul(x2, x);
    let x5 = fx_mul(x3, x2);
    let x7 = fx_mul(x5, x2);
    fx_sub(fx_add(fx_sub(x, fx_div(x3, 100663296)), fx_div(x5, 2013265920)), fx_div(
        x7,
        84557168640,
    ))
}

pub fn fx_cos(x: i64) -> (r: i64)
    ensures
        r == spec_fxcos(x as int),
{
    let x2 = fx_mul(x, x);
    let x4 = fx_mul(x2, x2);
    let x6 = fx_mul(x4, x2);
    fx_sub(fx_add(fx_sub(FX_ONE, fx_div(x2, FX_TWO)), fx_div(x4, 402653184)), fx_div(
        x6,
        12079595520,
    ))
}

pub fn fx_tan(x: i64) -> (r: i64)
    ensures
        r == spec_fxtan(x as int),
{
    let c = fx_cos(x);
    if c <= 0 {
        FX_MAX
    } else {
        fx_div(fx_sin(x), c)
    }
}

/// An integer count of units, as a fixed-point value.
pub fn int2fx(n: i64) -> (r: i64)
    ensures
        r == spec_clip(n * (FX_ONE as int)),
{
    proof {
        assert(-0x40000000000000000000000000000000 <= (n as int) * (FX_ONE as int)
            <= 0x40000000000000000000000000000000) by (nonlinear_arith)
            requires
                -0x8000000000000000 <= n as int <= 0x7fffffffffffffff,
        ;
    }
    clamp_i128((n as i128) * (FX_ONE as i128))
}

pub fn usize2fx(n: usize) -> (r: i64)
    ensures
        r == spec_clip(n * (FX_ONE as int)),
{
    proof {
        assert(0 <= (n as int) * (FX_ONE as int) <= 0x40000000000000000000000000000000)
            by (nonlinear_arith)
            requires
                0 <= n as int <= 0xffffffffffffffff,
        ;
    }
    clamp_i128((n as i128) * (FX_ONE as i128))
}

pub fn u322fx(n: u32) -> (r: i64)
    ensures
        r == spec_clip(n * (FX_ONE as int)),
{
    proof {
        assert(0 <= (n as int) * (FX_ONE as int) <= 0x40000000000000000000000000000000)
            by (nonlinear_arith)
            requires
                0 <= n as int <= 0xffffffff,
        ;
    }
    clamp_i128((n as i128) * (FX_ONE as i128))
}

} // verus!
