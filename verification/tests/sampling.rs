//! The rejection-sampled generators: region membership and reproducibility.

use lumo::fixed::FX_ONE;
use lumo::random::{
    random_in_hemisphere, random_in_unit_disk, random_in_unit_sphere, random_unit_vector,
};
use lumo::sampler::Sampler;
use lumo::vector3::Vector3;

#[test]
fn sphere_draws_land_strictly_inside_the_unit_sphere() {
    for seed in 0..64u64 {
        let mut smp = Sampler::new(seed);
        let v = random_in_unit_sphere(&mut smp);
        let nsq = v.norm_squared();
        assert!(0 < nsq && nsq < FX_ONE, "nsq {nsq} at seed {seed}");
    }
}

#[test]
fn unit_vector_draws_have_unit_length() {
    for seed in 0..64u64 {
        let mut smp = Sampler::new(seed);
        let v = random_unit_vector(&mut smp);
        let len = ((v.x as f64).powi(2) + (v.y as f64).powi(2) + (v.z as f64).powi(2)).sqrt()
            / FX_ONE as f64;
        assert!((len - 1.0).abs() < 1e-4, "length {len} at seed {seed}");
    }
}

#[test]
fn hemisphere_draws_do_not_oppose_the_normal() {
    let n = Vector3::new(0, FX_ONE, 0);
    for seed in 0..64u64 {
        let mut smp = Sampler::new(seed);
        let v = random_in_hemisphere(&n, &mut smp);
        assert!(v.dot(&n) >= 0);
    }
}

#[test]
fn disk_draws_lie_flat_inside_the_unit_disk() {
    for seed in 0..64u64 {
        let mut smp = Sampler::new(seed);
        let v = random_in_unit_disk(&mut smp);
        assert_eq!(v.z, 0);
        assert!(v.norm_squared() < FX_ONE);
    }
}

#[test]
fn draws_replay_from_an_equal_state() {
    let mut a = Sampler::new(31);
    let mut b = Sampler::new(31);
    let va = random_in_unit_sphere(&mut a);
    let vb = random_in_unit_sphere(&mut b);
    assert_eq!(va, vb);
    assert_eq!(a.state, b.state);
}
