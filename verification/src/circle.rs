//! The sphere, the one surface of this renderer.

use crate::hit::Hit;
use crate::point::Point3d;
use crate::scalar::{Scalar, ZERO};
use crate::vec::Vec3d;
use vstd::prelude::*;

verus! {

/// What the caller's arithmetic found for one ray and one sphere. With `oc`
/// the vector from the sphere's center to the ray's origin and `d` the ray's
/// direction, the ray's parameter `t` at the surface solves
/// `a t^2 + b t + c = 0` for `a = d.d`, `b = 2 oc.d`, `c = oc.oc - radius^2`.
#[derive(Clone, Copy, Debug)]
pub struct Crossing {
    /// `b^2 - 4 a c`.
    pub discriminant: Scalar,
    /// The smaller solution, `(-b - sqrt(discriminant)) / (2 a)`.
    pub root: Scalar,
    /// The ray's position at `root`.
    pub point: Point3d,
    /// The outward normal at `point`: `(point - center) / radius`.
    pub normal: Vec3d,
    /// The dot product of the ray's direction with `normal`.
    pub facing: Scalar,
}

impl Crossing {
    /// The ray reaches the surface, and the smaller solution lies in the
    /// window. The larger solution is never tried, so a ray that starts
    /// inside the sphere, or whose window starts behind the near side, does
    /// not hit.
    pub open spec fn within(self, time_min: Scalar, time_max: Scalar) -> bool {
        &&& Scalar(ZERO).at_most(self.discriminant)
        &&& time_min.at_most(self.root)
        &&& self.root.at_most(time_max)
    }
}

/// A sphere.
#[derive(Debug)]
pub struct Circle<M> {
    /// The radius; positive, which is the caller's to see to.
    pub radius: Scalar,
    /// The center.
    pub origin: Point3d,
    /// What the sphere is made of.
    pub material: M,
}

impl<M: Copy> Circle<M> {
    /// The sphere of the given radius and material around `origin`.
    pub fn new(radius: Scalar, origin: Point3d, material: M) -> (circle: Circle<M>)
        ensures
            circle.radius == radius,
            circle.origin == origin,
            circle.material == material,
    {
        Circle { radius, origin, material }
    }

    /// The hit that the sphere reports for a ray of which `crossing` was
    /// computed: the record at the smaller solution, with the normal turned
    /// against the ray, where that solution exists and lies in
    /// `[time_min, time_max]`, and nothing otherwise.
    pub fn hit(&self, crossing: &Crossing, time_min: Scalar, time_max: Scalar) -> (found: Option<
        Hit<M>,
    >)
        ensures
            found == if crossing.within(time_min, time_max) {
                Some(
                    Hit::oriented(
                        crossing.point,
                        crossing.root,
                        crossing.normal,
                        crossing.facing,
                        self.material,
                    ),
                )
            } else {
                None
            },
    {
        if crossing.discriminant.ge(&Scalar(ZERO)) {
            if crossing.root.ge(&time_min) && crossing.root.le(&time_max) {
                return Some(
                    Hit::new(
                        crossing.point,
                        crossing.root,
                        &crossing.normal,
                        crossing.facing,
                        self.material,
                    ),
                );
            }
        }
        None
    }
}

} // verus!
