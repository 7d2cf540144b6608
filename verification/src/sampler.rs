//! The random source. A `Sampler` is a deterministic splitmix64 stream: every
//! draw is an exact function of the state, so any computation threaded
//! through one is itself a pure function of its seed — which is what makes a
//! whole render reproducible. Fresh entropy for a seed comes from the `rand`
//! crate, behind the one trusted declaration of this crate.

use crate::fixed::FX_ONE;
use vstd::prelude::*;

verus! {

/// Relies on rand::random: draws a value from thread-local entropy. Nothing
/// is promised of the result; every caller must cope with any value.
pub assume_specification<T>[ rand::random::<T> ]() -> (r: T)
    where
        rand::distributions::Standard: rand::distributions::Distribution<T>,
;

pub open spec fn spec_wadd64(a: int, b: int) -> u64 {
    ((a + b) % 0x10000000000000000) as u64
}

pub open spec fn spec_wmul64(a: int, b: int) -> u64 {
    ((a * b) % 0x10000000000000000) as u64
}

/// The splitmix64 output mix of a state word.
pub open spec fn spec_mix64(z0: u64) -> u64 {
    let z1 = spec_wmul64((z0 ^ (z0 >> 30)) as int, 0xbf58476d1ce4e5b9);
    let z2 = spec_wmul64((z1 ^ (z1 >> 27)) as int, 0x94d049bb133111eb);
    z2 ^ (z2 >> 31)
}

/// The state after one draw.
pub open spec fn spec_next_state(s: u64) -> u64 {
    spec_wadd64(s as int, 0x9e3779b97f4a7c15)
}

/// The word one draw yields.
pub open spec fn spec_next_u64(s: u64) -> u64 {
    spec_mix64(spec_next_state(s))
}

/// A draw mapped into `[0, FX_ONE)`: a fixed-point value in `[0, 1)`.
pub open spec fn spec_unit_fx(u: u64) -> int {
    (u % (FX_ONE as u64)) as int
}

/// A draw mapped into `[-FX_ONE, FX_ONE]`: a fixed-point value in `[-1, 1]`.
pub open spec fn spec_symmetric_fx(u: u64) -> int {
    (u % 33554433) as int - FX_ONE
}

/// The seed of the `k`-th derived stream: the base seed advanced by `k`
/// golden-ratio steps, so distinct indices get well-separated streams.
pub open spec fn spec_mix_seed(seed: u64, k: u64) -> u64 {
    spec_wadd64(seed as int, spec_wmul64(k as int, 0x9e3779b97f4a7c15) as int)
}

pub fn mix_seed(seed: u64, k: u64) -> (r: u64)
    ensures
        r == spec_mix_seed(seed, k),
{
    let stride = wmul64(k, 0x9e3779b97f4a7c15);
    (((seed as u128) + (stride as u128)) % 0x10000000000000000u128) as u64
}

fn wmul64(a: u64, b: u64) -> (r: u64)
    ensures
        r == spec_wmul64(a as int, b as int),
{
    proof {
        assert(0 <= (a as int) * (b as int) < 0x100000000000000000000000000000000)
            by (nonlinear_arith)
            requires
                0 <= (a as int) < 0x10000000000000000,
                0 <= (b as int) < 0x10000000000000000,
        ;
    }
    (((a as u128) * (b as u128)) % 0x10000000000000000u128) as u64
}

pub struct Sampler {
    pub state: u64,
}

impl Sampler {
    /// A sampler that will replay exactly the stream determined by `seed`.
    pub fn new(seed: u64) -> (s: Sampler)
        ensures
            s.state == seed,
    {
        Sampler { state: seed }
    }

    /// A sampler seeded from the process's entropy source.
    pub fn from_entropy() -> Sampler {
        Sampler { state: rand::random::<u64>() }
    }

    /// Advance the stream by one step and yield its output word.
    pub fn next_u64(&mut self) -> (r: u64)
        ensures
            final(self).state == spec_next_state(old(self).state),
            r == spec_next_u64(old(self).state),
    {
        let s1: u64 = (((self.state as u128) + 0x9e3779b97f4a7c15u128) % 0x10000000000000000u128)
            as u64;
        self.state = s1;
        let z1 = wmul64(s1 ^ (s1 >> 30), 0xbf58476d1ce4e5b9);
        let z2 = wmul64(z1 ^ (z1 >> 27), 0x94d049bb133111eb);
        z2 ^ (z2 >> 31)
    }

    /// A fixed-point draw in `[0, 1)`.
    pub fn next_unit(&mut self) -> (r: i64)
        ensures
            final(self).state == spec_next_state(old(self).state),
            r == spec_unit_fx(spec_next_u64(old(self).state)),
            0 <= r < FX_ONE,
    {
        let u = self.next_u64();
        (u % (FX_ONE as u64)) as i64
    }

    /// A fixed-point draw in `[-1, 1]`.
    pub fn next_symmetric(&mut self) -> (r: i64)
        ensures
            final(self).state == spec_next_state(old(self).state),
            r == spec_symmetric_fx(spec_next_u64(old(self).state)),
            -FX_ONE <= r <= FX_ONE,
    {
        let u = self.next_u64();
        (u % 33554433) as i64 - FX_ONE
    }
}

} // verus!
