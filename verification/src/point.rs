//! Points in space.

use crate::scalar::Scalar;
use crate::vec::Vec3d;
use vstd::prelude::*;

verus! {

/// A position, as a vector from the world's origin.
pub type Point3d = Vec3d;

/// Access to coordinates by name.
pub trait Point {
    /// The first coordinate.
    fn x(&self) -> Scalar;

    /// The second coordinate, which points up.
    fn y(&self) -> Scalar;

    /// The third coordinate.
    fn z(&self) -> Scalar;
}

impl Point for Point3d {
    fn x(&self) -> (r: Scalar)
        ensures
            r == self.0,
    {
        self.0
    }

    fn y(&self) -> (r: Scalar)
        ensures
            r == self.1,
    {
        self.1
    }

    fn z(&self) -> (r: Scalar)
        ensures
            r == self.2,
    {
        self.2
    }
}

} // verus!
