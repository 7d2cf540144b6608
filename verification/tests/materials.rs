//! Scattering behaviour of the three materials and the Schlick formula.

use lumo::color::Color;
use lumo::fixed::{fx_add, fx_div, fx_mul, fx_sub, FX_HALF, FX_ONE};
use lumo::hittable::HitRecord;
use lumo::material::{refract, schlick, Dielectric, Diffuse, Material, Metal};
use lumo::ray::Ray;
use lumo::sampler::Sampler;
use lumo::vector3::Vector3;

fn upward_hit(material: usize) -> HitRecord {
    let rec = HitRecord::new(
        Vector3::new(0, 0, 0),
        Vector3::new(0, FX_ONE, 0),
        FX_ONE,
        material,
    );
    // A downward incoming ray keeps the upward normal and marks the front.
    rec.set_face(&Ray::new(
        Vector3::new(0, FX_ONE, 0),
        Vector3::new(0, -FX_ONE, 0),
    ))
}

#[test]
fn diffuse_attenuation_is_the_base_color() {
    let base = Color::new(FX_HALF, 11744051, 3355443);
    let d = Diffuse::new(base);
    let r = Ray::new(Vector3::new(0, FX_ONE, 0), Vector3::new(0, -FX_ONE, 0));
    for seed in [0u64, 1, 2, 42, 987654321] {
        let mut smp = Sampler::new(seed);
        let (att, scattered) = d
            .scatter(&r, &upward_hit(0), &mut smp)
            .expect("diffuse always scatters");
        assert_eq!(att, base);
        assert!(!scattered.direction.is_nearly_zero());
        assert_eq!(scattered.origin, Vector3::new(0, 0, 0));
    }
}

#[test]
fn metal_reflects_about_the_normal() {
    let base = Color::new(FX_ONE, FX_HALF, 0);
    let m = Metal::new(base);
    assert_eq!(m.fuzz, 0);
    // Incoming at 45 degrees onto an upward-facing surface.
    let r = Ray::new(
        Vector3::new(-FX_ONE, FX_ONE, 0),
        Vector3::new(FX_ONE, -FX_ONE, 0),
    );
    let mut smp = Sampler::new(3);
    let (att, scattered) = m
        .scatter(&r, &upward_hit(0), &mut smp)
        .expect("mirror must reflect upward");
    assert_eq!(att, base);
    // The reflection flips the vertical component and keeps the horizontal.
    assert!(scattered.direction.y > 0);
    assert_eq!(scattered.direction.x, scattered.direction.y);
    assert_eq!(scattered.direction.z, 0);
}

#[test]
fn metal_absorbs_reflections_into_the_surface() {
    let m = Metal::new(Color::white());
    // A ray running away from the surface reflects into it and is absorbed.
    let r = Ray::new(Vector3::new(0, 0, 0), Vector3::new(0, FX_ONE, 0));
    let hit = HitRecord::new(
        Vector3::new(0, 0, 0),
        Vector3::new(0, FX_ONE, 0),
        FX_ONE,
        0,
    );
    let mut smp = Sampler::new(5);
    assert!(m.scatter(&r, &hit, &mut smp).is_none());
}

#[test]
fn metal_fuzz_is_clamped() {
    let m = Metal::new(Color::white()).with_fuzz(5 * FX_ONE);
    assert_eq!(m.fuzz, FX_ONE);
    let m2 = Metal::new(Color::white()).with_fuzz(-FX_ONE);
    assert_eq!(m2.fuzz, 0);
    let m3 = Metal::new(Color::white()).with_fuzz(FX_HALF);
    assert_eq!(m3.fuzz, FX_HALF);
}

#[test]
fn degenerate_incoming_ray_is_absorbed() {
    let r = Ray::new(Vector3::new(0, 0, 0), Vector3::new(0, 0, 0));
    let mut smp = Sampler::new(9);
    assert!(Metal::new(Color::white())
        .scatter(&r, &upward_hit(0), &mut smp)
        .is_none());
    assert!(Dielectric::new(FX_ONE + FX_HALF)
        .scatter(&r, &upward_hit(0), &mut smp)
        .is_none());
}

#[test]
fn dielectric_index_one_transmits_unchanged() {
    // Index 1: no interface. At normal incidence the direction survives
    // exactly, the attenuation is opaque white.
    let dl = Dielectric::new(FX_ONE);
    let hit = upward_hit(0);
    assert!(hit.front_face);
    let r = Ray::new(Vector3::new(0, FX_ONE, 0), Vector3::new(0, -FX_ONE, 0));
    for seed in [0u64, 11, 222, 3333] {
        let mut smp = Sampler::new(seed);
        let (att, scattered) = dl.scatter(&r, &hit, &mut smp).expect("always scatters");
        assert_eq!(att, Color::white());
        assert_eq!(
            (scattered.direction.x, scattered.direction.y, scattered.direction.z),
            (0, -FX_ONE, 0)
        );
    }
}

#[test]
fn refract_at_normal_incidence_keeps_the_direction() {
    let uv = Vector3::new(0, -FX_ONE, 0);
    let n = Vector3::new(0, FX_ONE, 0);
    let out = refract(&uv, &n, FX_ONE);
    assert_eq!((out.x, out.y, out.z), (0, -FX_ONE, 0));
}

#[test]
fn schlick_at_normal_incidence_equals_r0() {
    for index in [FX_ONE, FX_ONE + FX_HALF, 2 * FX_ONE, 40265318] {
        let q = fx_div(fx_sub(FX_ONE, index), fx_add(FX_ONE, index));
        let r0 = fx_mul(q, q);
        assert_eq!(schlick(FX_ONE, index), r0);
    }
    // Glass at 1.5: r0 == ((1 - 1.5) / (1 + 1.5))^2 == 0.04.
    let glass = schlick(FX_ONE, FX_ONE + FX_HALF);
    assert_eq!(glass, 671088);
    assert!((glass as f64 / FX_ONE as f64 - 0.04).abs() < 1e-6);
}

#[test]
fn schlick_grows_toward_grazing_incidence() {
    let index = FX_ONE + FX_HALF;
    let at_normal = schlick(FX_ONE, index);
    let grazing = schlick(FX_ONE / 10, index);
    assert!(grazing > at_normal);
}

#[test]
fn material_dispatch_matches_the_variants() {
    let base = Color::new(FX_ONE, 0, 0);
    let r = Ray::new(Vector3::new(0, FX_ONE, 0), Vector3::new(0, -FX_ONE, 0));
    let hit = upward_hit(0);

    let mut s1 = Sampler::new(77);
    let mut s2 = Sampler::new(77);
    let direct = Diffuse::new(base).scatter(&r, &hit, &mut s1);
    let through = Material::Diffuse(Diffuse::new(base)).scatter(&r, &hit, &mut s2);
    assert_eq!(direct, through);
    assert_eq!(s1.state, s2.state);
}
