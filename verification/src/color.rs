//! Colors.

use crate::scalar::{Scalar, ONE, ZERO};
use crate::vec::Vec3d;
use vstd::prelude::*;

verus! {

/// A color, or a factor by which a surface dims each channel of the light
/// that leaves it.
pub type Color3d = Vec3d;

/// Access to channels by name.
pub trait Color {
    /// The red channel.
    fn red(&self) -> Scalar;

    /// The green channel.
    fn green(&self) -> Scalar;

    /// The blue channel.
    fn blue(&self) -> Scalar;
}

impl Color for Color3d {
    fn red(&self) -> (r: Scalar)
        ensures
            r == self.0,
    {
        self.0
    }

    fn green(&self) -> (r: Scalar)
        ensures
            r == self.1,
    {
        self.1
    }

    fn blue(&self) -> (r: Scalar)
        ensures
            r == self.2,
    {
        self.2
    }
}

/// No light: zero in every channel.
pub open spec fn black() -> Color3d {
    Vec3d(Scalar(ZERO), Scalar(ZERO), Scalar(ZERO))
}

/// Full light: one in every channel.
pub open spec fn white() -> Color3d {
    Vec3d(Scalar(ONE), Scalar(ONE), Scalar(ONE))
}

/// Black is near zero, so a ray that a material turns black ends there;
/// white is not.
pub proof fn lemma_black_is_near_zero()
    ensures
        black().is_near_zero(),
        !white().is_near_zero(),
{
    let zero = Scalar(ZERO);
    let one = Scalar(ONE);
    let delta = Scalar(crate::vec::NEAR_ZERO_DELTA);
    crate::scalar::lemma_weight_increases(zero, delta);
    crate::scalar::lemma_weight_increases(delta, one);
}

} // verus!
