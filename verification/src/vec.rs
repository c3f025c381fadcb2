//! A vector of three numbers: a point, a direction or a color.

use crate::scalar::{Scalar, ONE, ZERO};
use std::ops::Neg;
use vstd::prelude::*;
use vstd::std_specs::ops::NegSpecImpl;

verus! {

/// The encoding of 1e-8, the bound under which a component counts as zero.
pub const NEAR_ZERO_DELTA: u32 = 0x322b_cc77;

/// Three components, in the order x, y, z or red, green, blue.
#[derive(Clone, Copy, Debug)]
pub struct Vec3d(pub Scalar, pub Scalar, pub Scalar);

impl Vec3d {
    /// The vector with every component negated.
    pub open spec fn negated(self) -> Vec3d {
        Vec3d(self.0.negated(), self.1.negated(), self.2.negated())
    }

    /// Every component is smaller in absolute value than 1e-8. A component
    /// that is no number is not.
    pub open spec fn is_near_zero(self) -> bool {
        &&& self.0.absolute().below(Scalar(NEAR_ZERO_DELTA))
        &&& self.1.absolute().below(Scalar(NEAR_ZERO_DELTA))
        &&& self.2.absolute().below(Scalar(NEAR_ZERO_DELTA))
    }

    /// The vector of the three components.
    pub fn new(x: Scalar, y: Scalar, z: Scalar) -> (v: Vec3d)
        ensures
            v == Vec3d(x, y, z),
    {
        Vec3d(x, y, z)
    }

    /// Whether a vector of squared length `length_squared` lies strictly
    /// inside the unit sphere. A sampler that draws from the cube around the
    /// sphere keeps the first draw of which this holds, and that draw is then
    /// uniform over the ball; the same test on two components samples the
    /// unit disk.
    pub fn inside_unit_sphere(length_squared: Scalar) -> (r: bool)
        ensures
            r == length_squared.below(Scalar(ONE)),
    {
        length_squared.lt(&Scalar(ONE))
    }

    /// Whether the vector is too short to serve as a direction or to carry
    /// any light.
    pub fn near_zero(&self) -> (r: bool)
        ensures
            r == self.is_near_zero(),
    {
        let delta = Scalar(NEAR_ZERO_DELTA);
        self.0.abs().lt(&delta) && self.1.abs().lt(&delta) && self.2.abs().lt(&delta)
    }
}

impl Default for Vec3d {
    /// The zero vector.
    fn default() -> (v: Vec3d)
        ensures
            v == Vec3d(Scalar(ZERO), Scalar(ZERO), Scalar(ZERO)),
    {
        Vec3d::new(Scalar(ZERO), Scalar(ZERO), Scalar(ZERO))
    }
}

impl std::ops::Neg for Vec3d {
    type Output = Vec3d;

    /// The vector of the opposite direction and the same length.
    fn neg(self) -> (v: Vec3d)
        ensures
            v == self.negated(),
    {
        Vec3d::new(self.0.neg(), self.1.neg(), self.2.neg())
    }
}

impl NegSpecImpl for Vec3d {
    open spec fn obeys_neg_spec() -> bool {
        true
    }

    open spec fn neg_req(self) -> bool {
        true
    }

    open spec fn neg_spec(self) -> Vec3d {
        self.negated()
    }
}

} // verus!
