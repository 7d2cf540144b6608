//! Sphere intersection, face orientation, nearest-hit selection and the
//! empty world.

use lumo::fixed::{FX_MAX, FX_ONE};
use lumo::color::Color;
use lumo::list::HittableList;
use lumo::material::{Diffuse, Material};
use lumo::ray::Ray;
use lumo::render::{Renderer, T_MIN};
use lumo::sampler::Sampler;
use lumo::sphere::Sphere;
use lumo::vector3::Vector3;
use lumo::world::{Background, World};

#[test]
fn ray_at_center_from_outside_hits_front_face() {
    let s = Sphere::new(Vector3::new(0, 0, -2 * FX_ONE), FX_ONE, 0);
    let r = Ray::new(Vector3::new(0, 0, 0), Vector3::new(0, 0, -FX_ONE));
    let hit = s.hit(&r, T_MIN, FX_MAX).expect("must hit");
    assert_eq!(hit.t, FX_ONE);
    assert!(hit.front_face);
    // The normal opposes the ray exactly: anti-parallel unit vectors.
    assert_eq!((hit.n.x, hit.n.y, hit.n.z), (0, 0, FX_ONE));
    assert_eq!(r.direction.dot(&hit.n), -FX_ONE);
}

#[test]
fn ray_from_inside_reports_back_face() {
    let s = Sphere::new(Vector3::new(0, 0, -2 * FX_ONE), FX_ONE, 0);
    // Origin at the sphere's center: strictly inside.
    let r = Ray::new(Vector3::new(0, 0, -2 * FX_ONE), Vector3::new(0, 0, -FX_ONE));
    let hit = s.hit(&r, T_MIN, FX_MAX).expect("must hit");
    assert_eq!(hit.t, FX_ONE);
    assert!(!hit.front_face);
    // The geometric normal was flipped to oppose the ray.
    assert_eq!((hit.n.x, hit.n.y, hit.n.z), (0, 0, FX_ONE));
}

#[test]
fn tangent_ray_yields_the_double_root() {
    // Origin (-2, 1, 0), direction +x, unit sphere at the origin: the
    // discriminant is exactly zero and the single root is -b / a == 2.
    let s = Sphere::new(Vector3::new(0, 0, 0), FX_ONE, 0);
    let r = Ray::new(Vector3::new(-2 * FX_ONE, FX_ONE, 0), Vector3::new(FX_ONE, 0, 0));
    let hit = s.hit(&r, T_MIN, FX_MAX).expect("tangent must report one root");
    assert_eq!(hit.t, 2 * FX_ONE);
    assert_eq!((hit.p.x, hit.p.y, hit.p.z), (0, FX_ONE, 0));
}

#[test]
fn missing_ray_reports_no_hit() {
    let s = Sphere::new(Vector3::new(0, 0, -4 * FX_ONE), FX_ONE, 0);
    let r = Ray::new(Vector3::new(0, 0, 0), Vector3::new(0, FX_ONE, 0));
    assert!(s.hit(&r, T_MIN, FX_MAX).is_none());
}

#[test]
fn degenerate_direction_reports_no_hit() {
    let s = Sphere::new(Vector3::new(0, 0, -2 * FX_ONE), FX_ONE, 0);
    let r = Ray::new(Vector3::new(0, 0, 0), Vector3::new(0, 0, 0));
    assert!(s.hit(&r, T_MIN, FX_MAX).is_none());
}

#[test]
fn hit_range_excludes_near_and_far() {
    let s = Sphere::new(Vector3::new(0, 0, -2 * FX_ONE), FX_ONE, 0);
    let r = Ray::new(Vector3::new(0, 0, 0), Vector3::new(0, 0, -FX_ONE));
    // Both roots (t = 1 and t = 3) lie outside [4, max).
    assert!(s.hit(&r, 4 * FX_ONE, FX_MAX).is_none());
    // With the near root excluded, the far root is reported.
    let far = s.hit(&r, 2 * FX_ONE, FX_MAX).expect("far root");
    assert_eq!(far.t, 3 * FX_ONE);
    assert!(!far.front_face);
}

#[test]
fn list_reports_the_nearest_member() {
    let near = Sphere::new(Vector3::new(0, 0, -2 * FX_ONE), FX_ONE, 0);
    let far = Sphere::new(Vector3::new(0, 0, -4 * FX_ONE), FX_ONE, 1);
    let mut list = HittableList::new();
    list.add(far);
    list.add(near);
    let r = Ray::new(Vector3::new(0, 0, 0), Vector3::new(0, 0, -FX_ONE));
    let hit = list.hit(&r, T_MIN, FX_MAX).expect("must hit");
    assert_eq!(hit.t, FX_ONE);
    assert_eq!(hit.material, 0);
}

#[test]
fn list_tie_keeps_the_first_member() {
    let a = Sphere::new(Vector3::new(0, 0, -2 * FX_ONE), FX_ONE, 7);
    let b = Sphere::new(Vector3::new(0, 0, -2 * FX_ONE), FX_ONE, 8);
    let list = HittableList::from_vec(vec![a, b]);
    let r = Ray::new(Vector3::new(0, 0, 0), Vector3::new(0, 0, -FX_ONE));
    let hit = list.hit(&r, T_MIN, FX_MAX).expect("must hit");
    assert_eq!(hit.material, 7);
}

#[test]
fn empty_list_reports_nothing() {
    let list = HittableList::new();
    let r = Ray::new(Vector3::new(0, 0, 0), Vector3::new(0, 0, -FX_ONE));
    assert!(list.hit(&r, T_MIN, FX_MAX).is_none());
}

#[test]
fn empty_world_returns_the_background_for_every_ray() {
    let bg = Color::new(FX_ONE, FX_ONE / 2, FX_ONE / 4);
    let world = World::new(HittableList::new(), Vec::new(), Background::Solid(bg));
    let dirs = [
        Vector3::new(0, 0, -FX_ONE),
        Vector3::new(FX_ONE, FX_ONE, 0),
        Vector3::new(-FX_ONE, 3 * FX_ONE, 5 * FX_ONE),
    ];
    for d in dirs {
        let r = Ray::new(Vector3::new(0, 0, 0), d);
        let mut smp = Sampler::new(1);
        let c = Renderer::ray_color(&r, &world, 4, &mut smp);
        assert_eq!(c, bg);
        // No sampler draw is spent on a miss.
        assert_eq!(smp.state, 1);
    }
}

#[test]
fn gradient_background_endpoints_are_exact() {
    let top = Color::new(FX_ONE, FX_ONE, FX_ONE);
    let blue = Color::new(FX_ONE / 2, 11744051, FX_ONE);
    let bg = Background::VerticalGradient(top, blue);
    // Straight up: t == 1, the second color exactly.
    let up = Ray::new(Vector3::new(0, 0, 0), Vector3::new(0, FX_ONE, 0));
    assert_eq!(bg.evaluate(&up), blue);
    // Straight down: t == 0, the first color exactly.
    let down = Ray::new(Vector3::new(0, 0, 0), Vector3::new(0, -FX_ONE, 0));
    assert_eq!(bg.evaluate(&down), top);
}

#[test]
fn world_delegates_hits_to_its_list() {
    let s = Sphere::new(Vector3::new(0, 0, -2 * FX_ONE), FX_ONE, 0);
    let mats = vec![Material::Diffuse(Diffuse::new(Color::new(FX_ONE, 0, 0)))];
    let world = World::new(
        HittableList::from_vec(vec![s]),
        mats,
        Background::Solid(Color::black()),
    );
    let r = Ray::new(Vector3::new(0, 0, 0), Vector3::new(0, 0, -FX_ONE));
    let hit = world.hit(&r, T_MIN, FX_MAX).expect("must hit");
    assert_eq!(hit.t, FX_ONE);
}
