//! Vector algebra and the unit-length property of normalization.

use lumo::fixed::{FX_HALF, FX_ONE};
use lumo::vector3::Vector3;

fn fx(x: f64) -> i64 {
    (x * FX_ONE as f64) as i64
}

fn to_f(x: i64) -> f64 {
    x as f64 / FX_ONE as f64
}

#[test]
fn dot_product_exact() {
    let u = Vector3::new(FX_ONE, 2 * FX_ONE, 3 * FX_ONE);
    let v = Vector3::new(4 * FX_ONE, 5 * FX_ONE, 6 * FX_ONE);
    assert_eq!(u.dot(&v), 32 * FX_ONE);
}

#[test]
fn cross_product_of_axes() {
    let x = Vector3::new(FX_ONE, 0, 0);
    let y = Vector3::new(0, FX_ONE, 0);
    let c = x.cross(&y);
    assert_eq!((c.x, c.y, c.z), (0, 0, FX_ONE));
    let c2 = y.cross(&x);
    assert_eq!((c2.x, c2.y, c2.z), (0, 0, -FX_ONE));
}

#[test]
fn arithmetic_componentwise() {
    let u = Vector3::new(FX_ONE, -FX_ONE, FX_HALF);
    let v = Vector3::new(FX_HALF, FX_ONE, 0);
    let s = u.add(&v);
    assert_eq!((s.x, s.y, s.z), (FX_ONE + FX_HALF, 0, FX_HALF));
    let d = u.sub(&v);
    assert_eq!((d.x, d.y, d.z), (FX_HALF, -2 * FX_ONE, FX_HALF));
    let n = u.neg();
    assert_eq!((n.x, n.y, n.z), (-FX_ONE, FX_ONE, -FX_HALF));
    let sc = u.scale(2 * FX_ONE);
    assert_eq!((sc.x, sc.y, sc.z), (2 * FX_ONE, -2 * FX_ONE, FX_ONE));
}

#[test]
fn normalized_has_unit_length() {
    // Non-degenerate vectors normalize to unit length within the tolerance
    // the 24-bit encoding can express (a few quanta of error).
    let cases = [
        (1.0, 2.0, 3.0),
        (0.3, -0.7, 0.2),
        (-5.0, 0.25, 1.5),
        (100.0, -40.0, 3.0),
    ];
    for (a, b, c) in cases {
        let v = Vector3::new(fx(a), fx(b), fx(c));
        let u = v.normalized();
        let len = (to_f(u.x).powi(2) + to_f(u.y).powi(2) + to_f(u.z).powi(2)).sqrt();
        assert!((len - 1.0).abs() < 1e-6, "length {len} for ({a}, {b}, {c})");
    }
    // A vector much shorter than one unit is close to the resolution floor:
    // its normalization still lands within the coarser quantization error.
    let small = Vector3::new(fx(0.05), fx(0.02), fx(-0.01)).normalized();
    let len = (to_f(small.x).powi(2) + to_f(small.y).powi(2) + to_f(small.z).powi(2)).sqrt();
    assert!((len - 1.0).abs() < 1e-4, "length {len} for the small vector");
}

#[test]
fn normalized_axis_vector_is_exact() {
    let v = Vector3::new(7 * FX_ONE, 0, 0);
    let u = v.normalized();
    assert_eq!((u.x, u.y, u.z), (FX_ONE, 0, 0));
    assert_eq!(u.norm_squared(), FX_ONE);
}

#[test]
fn normalized_exact_components() {
    let v = Vector3::new(FX_ONE, 2 * FX_ONE, 3 * FX_ONE);
    assert_eq!(v.norm_squared(), 14 * FX_ONE);
    assert_eq!(v.norm(), 62774594);
    let u = v.normalized();
    assert_eq!((u.x, u.y, u.z), (4483899, 8967799, 13451698));
}

#[test]
fn nearly_zero_threshold_is_one_quantum() {
    assert!(Vector3::new(0, 0, 0).is_nearly_zero());
    assert!(!Vector3::new(1, 0, 0).is_nearly_zero());
    assert!(!Vector3::new(0, -1, 0).is_nearly_zero());
    assert!(!Vector3::new(FX_ONE, FX_ONE, FX_ONE).is_nearly_zero());
}
