use raytracing::color::{Color, Color3d};
use raytracing::point::{Point, Point3d};
use raytracing::ray::Ray;
use raytracing::scalar::Scalar;
use raytracing::vec::{Vec3d, NEAR_ZERO_DELTA};

fn s(x: f32) -> Scalar {
    Scalar(x.to_bits())
}

fn v(x: f32, y: f32, z: f32) -> Vec3d {
    Vec3d::new(s(x), s(y), s(z))
}

fn bits(a: Vec3d) -> [u32; 3] {
    [a.0 .0, a.1 .0, a.2 .0]
}

#[test]
fn near_zero_bound_is_one_hundred_millionth() {
    assert_eq!(NEAR_ZERO_DELTA, 1e-8f32.to_bits());
}

#[test]
fn near_zero_needs_every_component_small() {
    assert!(v(0.0, 0.0, 0.0).near_zero());
    assert!(v(-0.0, 0.0, -0.0).near_zero());
    assert!(v(9e-9, -9e-9, 1e-20).near_zero());
    assert!(!v(1e-8, 0.0, 0.0).near_zero());
    assert!(!v(0.0, -1e-8, 0.0).near_zero());
    assert!(!v(0.0, 0.0, 1.0).near_zero());
    assert!(!v(f32::NAN, 0.0, 0.0).near_zero());
    assert!(!v(0.0, f32::INFINITY, 0.0).near_zero());
}

#[test]
fn near_zero_agrees_with_the_hardware() {
    let values = [0.0f32, -0.0, 1e-9, -1e-9, 9.999_999e-9, 1e-8, 1.000_000_1e-8, 1e-7, 1.0, f32::NAN];
    for a in values {
        for b in values {
            for c in values {
                let delta: f32 = 1e-8;
                let expected = a.abs() < delta && b.abs() < delta && c.abs() < delta;
                assert_eq!(v(a, b, c).near_zero(), expected, "{a:?} {b:?} {c:?}");
            }
        }
    }
}

#[test]
fn negation_flips_every_sign() {
    let a = v(1.0, -2.5, 0.0);
    assert_eq!(bits(-a), bits(v(-1.0, 2.5, -0.0)));
    assert_eq!(bits(-(-a)), bits(a));
    assert_ne!(bits(-a), bits(a));
}

#[test]
fn default_vector_is_zero() {
    assert_eq!(bits(Vec3d::default()), bits(v(0.0, 0.0, 0.0)));
}

#[test]
fn default_ray_runs_along_the_first_axis() {
    let ray = Ray::default();
    assert_eq!(bits(ray.origin), bits(v(0.0, 0.0, 0.0)));
    assert_eq!(bits(ray.direction), bits(v(1.0, 0.0, 0.0)));
}

#[test]
fn ray_keeps_origin_and_direction() {
    let ray = Ray::new(v(1.0, 2.0, 3.0), v(0.0, -1.0, 0.5));
    assert_eq!(bits(ray.origin), bits(v(1.0, 2.0, 3.0)));
    assert_eq!(bits(ray.direction), bits(v(0.0, -1.0, 0.5)));
}

#[test]
fn coordinates_and_channels_by_name() {
    let p: Point3d = v(1.0, 2.0, 3.0);
    assert_eq!([p.x().0, p.y().0, p.z().0], bits(p));
    let c: Color3d = v(0.5, 0.7, 1.0);
    assert_eq!([c.red().0, c.green().0, c.blue().0], bits(c));
    assert_eq!(f32::from_bits(c.green().0), 0.7);
}

#[test]
fn unit_sphere_keeps_what_is_strictly_inside() {
    assert!(Vec3d::inside_unit_sphere(s(0.0)));
    assert!(Vec3d::inside_unit_sphere(s(0.999_999_94)));
    assert!(!Vec3d::inside_unit_sphere(s(1.0)));
    assert!(!Vec3d::inside_unit_sphere(s(2.75)));
    assert!(!Vec3d::inside_unit_sphere(s(f32::NAN)));
}
