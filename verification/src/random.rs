//! Rejection-sampled points in the unit sphere and unit disk.
//!
//! Each generator draws coordinates in `[-1, 1]` and keeps the first point
//! that falls inside the target region. Attempts are capped: after
//! `MAX_REJECTS` misses (astronomically unlikely) a fixed interior point is
//! returned, which keeps every draw a total function of the sampler state.

use crate::fixed::{FX_HALF, FX_ONE};
use crate::sampler::{spec_next_state, spec_next_u64, spec_symmetric_fx, Sampler};
use crate::vector3::{spec_dot, spec_norm_sq, spec_normalized, spec_vneg, Vector3};
use vstd::prelude::*;

verus! {

/// Attempts before a rejection sampler falls back to a fixed interior point,
/// `(1/2, 0, 0)` for the sphere and the center for the disk.
pub const MAX_REJECTS: u32 = 32;

/// One point drawn toward the unit sphere: the candidate and the state after.
pub open spec fn spec_in_unit_sphere(s: u64, tries: nat) -> (Vector3, u64)
    decreases tries,
{
    if tries == 0 {
        (Vector3 { x: FX_HALF, y: 0i64, z: 0i64 }, s)
    } else {
        let x = spec_symmetric_fx(spec_next_u64(s));
        let s1 = spec_next_state(s);
        let y = spec_symmetric_fx(spec_next_u64(s1));
        let s2 = spec_next_state(s1);
        let z = spec_symmetric_fx(spec_next_u64(s2));
        let s3 = spec_next_state(s2);
        let v = Vector3 { x: x as i64, y: y as i64, z: z as i64 };
        if 0 < spec_norm_sq(v) < FX_ONE {
            (v, s3)
        } else {
            spec_in_unit_sphere(s3, (tries - 1) as nat)
        }
    }
}

pub open spec fn spec_unit_vector(s: u64) -> (Vector3, u64) {
    let (w, s1) = spec_in_unit_sphere(s, MAX_REJECTS as nat);
    (spec_normalized(w), s1)
}

pub open spec fn spec_in_hemisphere(n: Vector3, s: u64) -> (Vector3, u64) {
    let (v, s1) = spec_in_unit_sphere(s, MAX_REJECTS as nat);
    if spec_dot(v, n) > 0 {
        (v, s1)
    } else {
        (spec_vneg(v), s1)
    }
}

/// One point drawn toward the unit disk in the plane `z == 0`.
pub open spec fn spec_in_unit_disk(s: u64, tries: nat) -> (Vector3, u64)
    decreases tries,
{
    if tries == 0 {
        (Vector3 { x: 0i64, y: 0i64, z: 0i64 }, s)
    } else {
        let x = spec_symmetric_fx(spec_next_u64(s));
        let s1 = spec_next_state(s);
        let y = spec_symmetric_fx(spec_next_u64(s1));
        let s2 = spec_next_state(s1);
        let v = Vector3 { x: x as i64, y: y as i64, z: 0i64 };
        if spec_norm_sq(v) < FX_ONE {
            (v, s2)
        } else {
            spec_in_unit_disk(s2, (tries - 1) as nat)
        }
    }
}

/// Every candidate the sphere sampler can yield is strictly inside the unit
/// sphere and has nonzero length, the fallback point included.
pub proof fn lemma_in_unit_sphere_bounds(s: u64, tries: nat)
    ensures
        0 < spec_norm_sq(spec_in_unit_sphere(s, tries).0) < FX_ONE,
    decreases tries,
{
    if tries == 0 {
        assert(FX_HALF * FX_HALF == 4194304 * (FX_ONE as int)) by (nonlinear_arith);
        vstd::arithmetic::div_mod::lemma_div_by_multiple(4194304, FX_ONE as int);
        assert(0 < spec_norm_sq(Vector3 { x: FX_HALF, y: 0i64, z: 0i64 }) < FX_ONE);
    } else {
        let s1 = spec_next_state(s);
        let s2 = spec_next_state(s1);
        let s3 = spec_next_state(s2);
        lemma_in_unit_sphere_bounds(s3, (tries - 1) as nat);
    }
}

fn in_unit_sphere_tries(smp: &mut Sampler, tries: u32) -> (v: Vector3)
    ensures
        v == spec_in_unit_sphere(old(smp).state, tries as nat).0,
        final(smp).state == spec_in_unit_sphere(old(smp).state, tries as nat).1,
    decreases tries,
{
    if tries == 0 {
        Vector3::new(FX_HALF, 0, 0)
    } else {
        let x = smp.next_symmetric();
        let y = smp.next_symmetric();
        let z = smp.next_symmetric();
        let v = Vector3::new(x, y, z);
        let nsq = v.norm_squared();
        if 0 < nsq && nsq < FX_ONE {
            v
        } else {
            in_unit_sphere_tries(smp, tries - 1)
        }
    }
}

/// A point uniformly distributed (up to rejection) inside the unit sphere.
pub fn random_in_unit_sphere(smp: &mut Sampler) -> (v: Vector3)
    ensures
        v == spec_in_unit_sphere(old(smp).state, MAX_REJECTS as nat).0,
        final(smp).state == spec_in_unit_sphere(old(smp).state, MAX_REJECTS as nat).1,
        0 < spec_norm_sq(v) < FX_ONE,
{
    proof {
        lemma_in_unit_sphere_bounds(smp.state, MAX_REJECTS as nat);
    }
    in_unit_sphere_tries(smp, MAX_REJECTS)
}

/// A direction of unit length: a sphere draw, normalized.
pub fn random_unit_vector(smp: &mut Sampler) -> (v: Vector3)
    ensures
        v == spec_unit_vector(old(smp).state).0,
        final(smp).state == spec_unit_vector(old(smp).state).1,
{
    let w = random_in_unit_sphere(smp);
    w.normalized()
}

/// A sphere draw folded into the hemisphere around `n`.
pub fn random_in_hemisphere(n: &Vector3, smp: &mut Sampler) -> (v: Vector3)
    ensures
        v == spec_in_hemisphere(*n, old(smp).state).0,
        final(smp).state == spec_in_hemisphere(*n, old(smp).state).1,
{
    let w = random_in_unit_sphere(smp);
    if w.dot(n) > 0 {
        w
    } else {
        w.neg()
    }
}

fn in_unit_disk_tries(smp: &mut Sampler, tries: u32) -> (v: Vector3)
    ensures
        v == spec_in_unit_disk(old(smp).state, tries as nat).0,
        final(smp).state == spec_in_unit_disk(old(smp).state, tries as nat).1,
    decreases tries,
{
    if tries == 0 {
        Vector3::new(0, 0, 0)
    } else {
        let x = smp.next_symmetric();
        let y = smp.next_symmetric();
        let v = Vector3::new(x, y, 0);
        let nsq = v.norm_squared();
        if nsq < FX_ONE {
            v
        } else {
            in_unit_disk_tries(smp, tries - 1)
        }
    }
}

/// A point uniformly distributed (up to rejection) inside the unit disk.
pub fn random_in_unit_disk(smp: &mut Sampler) -> (v: Vector3)
    ensures
        v == spec_in_unit_disk(old(smp).state, MAX_REJECTS as nat).0,
        final(smp).state == spec_in_unit_disk(old(smp).state, MAX_REJECTS as nat).1,
{
    in_unit_disk_tries(smp, MAX_REJECTS)
}

} // verus!
