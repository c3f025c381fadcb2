//! Rays.

use crate::point::Point3d;
use crate::scalar::{Scalar, ONE, ZERO};
use crate::vec::Vec3d;
use vstd::prelude::*;

verus! {

/// A half-line: the points `origin + t * direction` for `t >= 0`. The
/// direction need not have length one.
#[derive(Clone, Copy, Debug)]
pub struct Ray {
    pub origin: Point3d,
    pub direction: Vec3d,
}

impl Ray {
    /// The ray from `origin` along `direction`.
    pub fn new(origin: Point3d, direction: Vec3d) -> (ray: Ray)
        ensures
            ray.origin == origin,
            ray.direction == direction,
    {
        Ray { origin, direction }
    }
}

impl Default for Ray {
    /// The ray from the world's origin along the first axis.
    fn default() -> (ray: Ray)
        ensures
            ray.origin == Vec3d(Scalar(ZERO), Scalar(ZERO), Scalar(ZERO)),
            ray.direction == Vec3d(Scalar(ONE), Scalar(ZERO), Scalar(ZERO)),
    {
        Ray::new(
            Point3d::new(Scalar(ZERO), Scalar(ZERO), Scalar(ZERO)),
            Vec3d::new(Scalar(ONE), Scalar(ZERO), Scalar(ZERO)),
        )
    }
}

} // verus!
