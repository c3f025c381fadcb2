use raytracing::color::Color3d;
use raytracing::hit::{Hit, Hittable};
use raytracing::material::Material;
use raytracing::ray::Ray;
use raytracing::scalar::Scalar;
use raytracing::shading::{ray_color, Radiance, SHADOW_EPSILON};
use raytracing::vec::Vec3d;
use std::cell::Cell;

fn s(x: f32) -> Scalar {
    Scalar(x.to_bits())
}

fn f(x: Scalar) -> f32 {
    f32::from_bits(x.0)
}

fn v(x: f32, y: f32, z: f32) -> Vec3d {
    Vec3d::new(s(x), s(y), s(z))
}

fn xyz(a: Vec3d) -> [f32; 3] {
    [f(a.0), f(a.1), f(a.2)]
}

/// A material that dims by a fixed color and sends the ray straight up from
/// the hit.
#[derive(Clone, Copy, Debug)]
struct Dye([f32; 3]);

impl Material for Dye {
    fn scatter(&self, _r_in: &Ray, rec: &Hit<Dye>) -> (Color3d, Ray) {
        (v(self.0[0], self.0[1], self.0[2]), Ray::new(rec.point, v(0.0, 1.0, 0.0)))
    }
}

/// A floor at height zero that is hit by every ray that points down, and
/// counts how often it was asked.
struct Floor {
    dye: Dye,
    asked: Cell<usize>,
    window: Cell<(u32, u32)>,
}

fn floor(dye: [f32; 3]) -> Floor {
    Floor { dye: Dye(dye), asked: Cell::new(0), window: Cell::new((0, 0)) }
}

impl Hittable for Floor {
    type Mat = Dye;

    fn hit(&self, ray: &Ray, time_min: Scalar, time_max: Scalar) -> Option<Hit<Dye>> {
        self.asked.set(self.asked.get() + 1);
        self.window.set((time_min.0, time_max.0));
        if f(ray.direction.1) < 0.0 {
            let point = v(f(ray.origin.0), 0.0, f(ray.origin.2));
            Some(Hit::new(point, s(1.0), &v(0.0, 1.0, 0.0), s(f(ray.direction.1)), self.dye))
        } else {
            None
        }
    }
}

/// A box of mirrors: every ray hits, whatever its direction.
struct Closed(Dye);

impl Hittable for Closed {
    type Mat = Dye;

    fn hit(&self, ray: &Ray, _time_min: Scalar, _time_max: Scalar) -> Option<Hit<Dye>> {
        Some(Hit::new(ray.origin, s(1.0), &v(0.0, 1.0, 0.0), s(-1.0), self.0))
    }
}

fn downward() -> Ray {
    Ray::new(v(2.0, 5.0, -3.0), v(0.0, -1.0, 0.0))
}

fn upward() -> Ray {
    Ray::new(v(0.0, 0.0, 0.0), v(0.0, 1.0, 0.0))
}

#[test]
fn shadow_epsilon_is_one_thousandth() {
    assert_eq!(SHADOW_EPSILON, 0.001f32.to_bits());
}

#[test]
fn no_bounce_left_is_black() {
    let world = floor([0.5, 0.5, 0.5]);
    assert!(matches!(ray_color(&downward(), &world, 0), Radiance::Black));
    assert!(matches!(ray_color(&upward(), &world, 0), Radiance::Black));
    assert_eq!(world.asked.get(), 0);
    assert!(matches!(ray_color(&upward(), &Closed(Dye([1.0, 1.0, 1.0])), 0), Radiance::Black));
}

#[test]
fn a_ray_that_hits_nothing_sees_the_sky() {
    let world = floor([0.5, 0.5, 0.5]);
    match ray_color(&upward(), &world, 5) {
        Radiance::Sky(ray) => {
            assert_eq!(xyz(ray.origin), [0.0, 0.0, 0.0]);
            assert_eq!(xyz(ray.direction), [0.0, 1.0, 0.0]);
        },
        other => panic!("{other:?}"),
    }
    assert_eq!(world.asked.get(), 1);
}

#[test]
fn the_world_is_asked_past_the_surface_only() {
    let world = floor([0.5, 0.5, 0.5]);
    let _ = ray_color(&upward(), &world, 1);
    let (lo, hi) = world.window.get();
    assert_eq!(f32::from_bits(lo), 0.001);
    assert_eq!(f32::from_bits(hi), f32::INFINITY);
}

#[test]
fn one_bounce_tints_the_sky() {
    let world = floor([0.1, 0.2, 0.5]);
    match ray_color(&downward(), &world, 5) {
        Radiance::Tinted(attenuation, rest) => {
            assert_eq!(xyz(attenuation), [0.1, 0.2, 0.5]);
            match *rest {
                Radiance::Sky(ray) => {
                    assert_eq!(xyz(ray.origin), [2.0, 0.0, -3.0]);
                    assert_eq!(xyz(ray.direction), [0.0, 1.0, 0.0]);
                },
                other => panic!("{other:?}"),
            }
        },
        other => panic!("{other:?}"),
    }
    assert_eq!(world.asked.get(), 2);
}

#[test]
fn an_absorbed_ray_is_black() {
    for dye in [[0.0f32, 0.0, 0.0], [1e-9, -1e-9, 0.0], [-0.0, 0.0, 9e-9]] {
        let world = floor(dye);
        assert!(matches!(ray_color(&downward(), &world, 5), Radiance::Black));
        assert_eq!(world.asked.get(), 1);
    }
    let world = floor([0.0, 1e-8, 0.0]);
    assert!(matches!(ray_color(&downward(), &world, 5), Radiance::Tinted(..)));
}

fn factors(mut color: Radiance) -> (Vec<[f32; 3]>, Radiance) {
    let mut found = vec![];
    loop {
        match color {
            Radiance::Tinted(attenuation, rest) => {
                found.push(xyz(attenuation));
                color = *rest;
            },
            end => return (found, end),
        }
    }
}

#[test]
fn bounces_stop_at_the_limit() {
    let world = Closed(Dye([0.9, 0.8, 0.7]));
    for depth in [1usize, 2, 5, 50] {
        let (found, end) = factors(ray_color(&downward(), &world, depth));
        assert_eq!(found.len(), depth);
        assert!(found.iter().all(|a| *a == [0.9, 0.8, 0.7]));
        assert!(matches!(end, Radiance::Black));
    }
}

fn sky(ray: &Ray) -> Color3d {
    let d = xyz(ray.direction);
    let length = (d[0] * d[0] + d[1] * d[1] + d[2] * d[2]).sqrt();
    let t = 0.5 * (d[1] / length + 1.0);
    v((1.0 - t) * 1.0 + t * 0.5, (1.0 - t) * 1.0 + t * 0.7, (1.0 - t) * 1.0 + t * 1.0)
}

fn tint(attenuation: &Color3d, color: Color3d) -> Color3d {
    let (a, c) = (xyz(*attenuation), xyz(color));
    v(a[0] * c[0], a[1] * c[1], a[2] * c[2])
}

fn bits(a: Vec3d) -> [u32; 3] {
    [a.0 .0, a.1 .0, a.2 .0]
}

#[test]
fn color_is_the_product_along_the_path() {
    let world = floor([0.5, 0.25, 1.0]);
    let color = ray_color(&downward(), &world, 3);
    assert_eq!(xyz(color.evaluate(&sky, &tint)), [0.25, 0.175, 1.0]);
}

#[test]
fn straight_up_is_pure_sky_blue() {
    let world = floor([0.5, 0.5, 0.5]);
    let color = ray_color(&upward(), &world, 5);
    assert_eq!(xyz(color.evaluate(&sky, &tint)), [0.5, 0.7, 1.0]);
}

#[test]
fn black_is_zero_in_every_channel() {
    let bright = |_: &Ray| v(9.0, 9.0, 9.0);
    assert_eq!(bits(Radiance::Black.evaluate(&bright, &tint)), [0, 0, 0]);
    let world = Closed(Dye([0.9, 0.8, 0.7]));
    assert_eq!(bits(ray_color(&downward(), &world, 0).evaluate(&bright, &tint)), [0, 0, 0]);
    let world = floor([0.0, 0.0, 0.0]);
    assert_eq!(bits(ray_color(&downward(), &world, 7).evaluate(&bright, &tint)), [0, 0, 0]);
}

#[test]
fn factors_are_multiplied_innermost_first() {
    let color = Radiance::Tinted(
        v(2.0, 2.0, 2.0),
        Box::new(Radiance::Tinted(v(3.0, 3.0, 3.0), Box::new(Radiance::Sky(upward())))),
    );
    let order = std::cell::RefCell::new(vec![]);
    let log = |attenuation: &Color3d, color: Color3d| {
        order.borrow_mut().push(f(attenuation.0));
        tint(attenuation, color)
    };
    assert_eq!(xyz(color.evaluate(&sky, &log)), [3.0, 4.2, 6.0]);
    assert_eq!(*order.borrow(), vec![3.0, 2.0]);
}

#[test]
fn exhausted_bounces_end_in_black() {
    let world = Closed(Dye([0.5, 0.5, 0.5]));
    let color = ray_color(&downward(), &world, 4);
    assert_eq!(xyz(color.evaluate(&sky, &tint)), [0.0, 0.0, 0.0]);
}
