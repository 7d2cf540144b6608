//! The integrator, the camera, determinism of the render, and raster
//! encoding.

use lumo::camera::CameraBuilder;
use lumo::color::Color;
use lumo::fixed::{FX_FRAC_PI_2, FX_HALF, FX_ONE};
use lumo::list::HittableList;
use lumo::material::{Diffuse, Material, Metal};
use lumo::ray::Ray;
use lumo::render::{Image, Renderer};
use lumo::sampler::Sampler;
use lumo::sphere::Sphere;
use lumo::vector3::Vector3;
use lumo::world::{Background, World};

fn one_sphere_world(color: Color) -> World {
    let sphere = Sphere::new(Vector3::new(0, 0, 0), FX_ONE, 0);
    World::new(
        HittableList::from_vec(vec![sphere]),
        vec![Material::Diffuse(Diffuse::new(color))],
        Background::Solid(Color::white()),
    )
}

fn facing_camera(size: usize, samples: u32, depth: u32) -> Renderer {
    let camera = CameraBuilder::new()
        .with_lookfrom(Vector3::new(0, 0, 4 * FX_ONE))
        .with_lookat(Vector3::new(0, 0, 0))
        .with_fov(FX_FRAC_PI_2)
        .with_aspect_ratio(FX_ONE)
        .build();
    Renderer::new(size, size, samples, depth, camera)
}

#[test]
fn ray_color_with_zero_depth_is_black() {
    let world = one_sphere_world(Color::new(FX_HALF, FX_HALF, FX_HALF));
    let rays = [
        Ray::new(Vector3::new(0, 0, 4 * FX_ONE), Vector3::new(0, 0, -FX_ONE)),
        Ray::new(Vector3::new(0, 0, 0), Vector3::new(FX_ONE, FX_ONE, 0)),
    ];
    for r in rays {
        let mut smp = Sampler::new(4);
        let c = Renderer::ray_color(&r, &world, 0, &mut smp);
        assert_eq!(c, Color::black());
        assert_eq!(smp.state, 4);
    }
}

#[test]
fn absorbed_ray_contributes_black() {
    // A fuzzless mirror seen along its own normal reflects straight back;
    // from a ray that leaves the surface the reflection points inward and
    // the radiance is black.
    let sphere = Sphere::new(Vector3::new(0, 0, 0), FX_ONE, 0);
    let world = World::new(
        HittableList::from_vec(vec![sphere]),
        vec![Material::Metal(Metal::new(Color::white()))],
        Background::Solid(Color::white()),
    );
    let r = Ray::new(Vector3::new(0, 0, 4 * FX_ONE), Vector3::new(0, 0, -FX_ONE));
    let mut smp = Sampler::new(4);
    // The mirror reflects the ray straight back out to the background.
    let c = Renderer::ray_color(&r, &world, 3, &mut smp);
    assert_eq!(c, Color::white());
}

#[test]
fn silhouette_of_a_unit_sphere() {
    // A unit sphere at the origin, camera four units away on the axis,
    // square quarter-turn viewport: the silhouette's angular radius gives
    // an image-plane radius of 1/sqrt(15), about 8.26 px of 32, and inside
    // it one diffuse bounce into the white background returns the base
    // color; outside, the background itself.
    let base = Color::new(FX_HALF, FX_HALF, FX_HALF);
    let world = one_sphere_world(base);
    let rend = facing_camera(64, 1, 2);
    let buf = rend.render(&world, 7);
    assert_eq!(buf.len(), 64 * 64);

    // Corners see the background: pure white, gamma-encoded to itself.
    for k in [0usize, 63, 64 * 63, 64 * 64 - 1] {
        assert_eq!(buf[k], Color::white());
    }

    // The pixel count of the silhouette approximates the projected disk.
    let inside = buf.iter().filter(|c| c.r < 15000000).count() as f64;
    let expected = std::f64::consts::PI * (32.0 / 15.0f64.sqrt()).powi(2);
    assert!(
        (inside - expected).abs() < expected * 0.35,
        "inside {inside}, expected {expected}"
    );

    // The center of the image lies well inside the silhouette.
    let center = buf[32 * 64 + 32];
    assert!(center.r < 15000000, "center {:?}", center);
}

#[test]
fn renders_with_equal_seeds_are_bit_identical() {
    let world = one_sphere_world(Color::new(FX_HALF, 11744051, 3355443));
    let rend = facing_camera(16, 2, 3);
    let a = rend.render(&world, 123456789);
    let b = rend.render(&world, 123456789);
    assert_eq!(a, b);
}

#[test]
fn render_pixel_reproduces_every_buffer_slot() {
    let world = one_sphere_world(Color::new(FX_HALF, FX_HALF, FX_HALF));
    let rend = facing_camera(8, 2, 2);
    let buf = rend.render(&world, 99);
    for k in 0..buf.len() {
        assert_eq!(buf[k], rend.render_pixel(&world, 99, k));
    }
}

#[test]
fn sampler_streams_are_reproducible() {
    let mut a = Sampler::new(42);
    let mut b = Sampler::new(42);
    for _ in 0..16 {
        assert_eq!(a.next_u64(), b.next_u64());
    }
    let u = a.next_unit();
    assert!((0..FX_ONE).contains(&u));
    let s = a.next_symmetric();
    assert!((-FX_ONE..=FX_ONE).contains(&s));
}

#[test]
fn camera_with_closed_aperture_fires_from_the_eye() {
    let eye = Vector3::new(0, 0, 4 * FX_ONE);
    let camera = CameraBuilder::new()
        .with_lookfrom(eye)
        .with_lookat(Vector3::new(0, 0, 0))
        .with_aspect_ratio(FX_ONE)
        .build();
    let mut smp = Sampler::new(5);
    let r = camera.ray(FX_HALF, FX_HALF, &mut smp);
    assert_eq!(r.origin, eye);
    // The center ray looks toward the target.
    assert!(r.direction.z < 0);
}

#[test]
fn builder_defaults_match_the_classic_setup() {
    let b = CameraBuilder::new();
    assert_eq!(b.lookfrom, Vector3::new(0, 0, 0));
    assert_eq!(b.lookat, Vector3::new(0, 0, -FX_ONE));
    assert_eq!(b.vup, Vector3::new(0, FX_ONE, 0));
    assert_eq!(b.fov, FX_FRAC_PI_2);
    assert_eq!(b.aperture, 0);
    assert_eq!(b.focus_dist, FX_ONE);
    let af = b.aspect_ratio as f64 / FX_ONE as f64;
    assert!((af - 16.0 / 9.0).abs() < 1e-6);
}

#[test]
fn rgb8_encoding_clamps_and_scales() {
    let img = Image::new(
        2,
        1,
        vec![
            Color::new(FX_ONE, 0, FX_HALF),
            Color::new(3 * FX_ONE, -FX_ONE, FX_ONE),
        ],
    );
    assert_eq!(img.to_rgb8(), vec![255, 0, 127, 255, 0, 255]);
}

#[test]
fn gamma_is_the_square_root_per_channel() {
    let c = Color::new(FX_HALF, FX_ONE, 0).gamma();
    assert_eq!((c.r, c.g, c.b), (11863283, FX_ONE, 0));
}
