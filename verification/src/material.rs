//! What surfaces are made of, and what each does to the light that meets it.
//!
//! A material's sampling and vector arithmetic are the caller's. The types
//! here take what the caller computed and decide the rest: which direction
//! stands, and how much light goes on.

use crate::color::{black, white, Color3d};
use crate::hit::Hit;
use crate::ray::Ray;
use crate::scalar::{Scalar, ONE, ZERO};
use crate::vec::Vec3d;
use vstd::prelude::*;

verus! {

/// A material: what becomes of a ray that hits it.
pub trait Material: Sized {
    /// The factor by which the surface dims the light, and the ray along
    /// which the light goes on. A factor near zero says that the ray was
    /// absorbed.
    fn scatter(&self, r_in: &Ray, rec: &Hit<Self>) -> (Color3d, Ray);
}

/// A matte surface, which sends light on in a random direction around the
/// normal.
#[derive(Clone, Copy, Debug)]
pub struct Lambertian {
    /// The share of each channel that the surface sends on.
    pub albedo: Color3d,
}

impl Lambertian {
    /// The matte material of the given albedo.
    pub fn new(albedo: Color3d) -> (material: Lambertian)
        ensures
            material.albedo == albedo,
    {
        Lambertian { albedo }
    }

    /// Scatters at `rec`. `candidate` is the sum of the hit's normal and a
    /// random unit vector. It is the direction of the scattered ray unless it
    /// is near zero, which happens where the random vector is all but
    /// opposite to the normal; the ray then leaves along the normal. The
    /// scattered ray starts at the hit, and the albedo is the attenuation:
    /// this material absorbs no ray.
    pub fn scatter<M>(&self, rec: &Hit<M>, candidate: Vec3d) -> (out: (Color3d, Ray))
        ensures
            out.0 == self.albedo,
            out.1.origin == rec.point,
            out.1.direction == if candidate.is_near_zero() {
                rec.normal
            } else {
                candidate
            },
    {
        let mut scatter_direction = candidate;
        if scatter_direction.near_zero() {
            scatter_direction = rec.normal;
        }
        (self.albedo, Ray::new(rec.point, scatter_direction))
    }
}

/// A mirror, more or less blurred.
#[derive(Clone, Copy, Debug)]
pub struct Metal {
    albedo: Color3d,
    fuzziness: Scalar,
}

impl Metal {
    /// The share of each channel that the surface reflects.
    pub closed spec fn tint(&self) -> Color3d {
        self.albedo
    }

    /// The radius of the ball from which the reflected direction is
    /// perturbed.
    pub closed spec fn fuzz(&self) -> Scalar {
        self.fuzziness
    }

    /// The fuzz is not above one.
    #[verifier::type_invariant]
    pub closed spec fn wf(self) -> bool {
        !Scalar(ONE).below(self.fuzziness)
    }

    /// The metal of the given albedo. A fuzziness above one is taken as one.
    pub fn new(albedo: Color3d, fuzziness: Scalar) -> (material: Metal)
        ensures
            material.tint() == albedo,
            material.fuzz() == if Scalar(ONE).below(fuzziness) {
                Scalar(ONE)
            } else {
                fuzziness
            },
    {
        let mut fuzziness = fuzziness;
        if fuzziness.gt(&Scalar(ONE)) {
            fuzziness = Scalar(ONE);
        }
        Metal { albedo, fuzziness }
    }

    /// The share of each channel that the surface reflects.
    pub fn albedo(&self) -> (albedo: Color3d)
        ensures
            albedo == self.tint(),
    {
        self.albedo
    }

    /// The radius of the ball from which the reflected direction is
    /// perturbed; never above one.
    pub fn fuzziness(&self) -> (fuzziness: Scalar)
        ensures
            fuzziness == self.fuzz(),
            !Scalar(ONE).below(fuzziness),
    {
        proof {
            use_type_invariant(self);
        }
        self.fuzziness
    }

    /// Scatters at `rec`. `reflected` is the mirror image of the incoming
    /// unit direction about the hit's normal, plus `fuzziness()` times a
    /// random point of the unit ball; `facing` is the dot product of
    /// `reflected` with the normal. The scattered ray starts at the hit and
    /// runs along `reflected`. Where it would run into the surface or along
    /// it, `facing <= 0`, the ray is absorbed and the attenuation is black;
    /// otherwise the attenuation is the albedo.
    pub fn scatter<M>(&self, rec: &Hit<M>, reflected: Vec3d, facing: Scalar) -> (out: (
        Color3d,
        Ray,
    ))
        ensures
            out.0 == if facing.at_most(Scalar(ZERO)) {
                black()
            } else {
                self.tint()
            },
            out.1.origin == rec.point,
            out.1.direction == reflected,
    {
        let scattered = Ray::new(rec.point, reflected);
        let mut attenuation = self.albedo;
        if facing.le(&Scalar(ZERO)) {
            attenuation = Color3d::new(Scalar(ZERO), Scalar(ZERO), Scalar(ZERO));
        }
        (attenuation, scattered)
    }
}

/// What the caller's arithmetic found for a ray that meets a clear surface.
/// With `ratio` the refraction ratio, `u` the incoming unit direction and `n`
/// the hit's normal, `cos = min(-u.n, 1)` and `sin = sqrt(1 - cos^2)`.
#[derive(Clone, Copy, Debug)]
pub struct Refraction {
    /// `ratio * sin`; above one, Snell's law has no solution.
    pub sine: Scalar,
    /// Schlick's approximation of the share of light that is reflected:
    /// `r0 + (1 - r0) (1 - cos)^5` for `r0 = ((1 - ratio) / (1 + ratio))^2`.
    pub reflectance: Scalar,
    /// A uniform draw from `[0, 1)`.
    pub draw: Scalar,
    /// `u` mirrored about `n`.
    pub reflected: Vec3d,
    /// `u` bent by Snell's law: `perp + parallel` for
    /// `perp = ratio * (u + cos * n)` and
    /// `parallel = -sqrt(|1 - perp.perp|) * n`.
    pub refracted: Vec3d,
}

impl Refraction {
    /// The ray cannot be refracted: all of it is reflected.
    pub open spec fn total(self) -> bool {
        Scalar(ONE).below(self.sine)
    }

    /// The ray is reflected: it cannot be refracted, or the draw fell below
    /// the reflectance.
    pub open spec fn reflects(self) -> bool {
        self.total() || self.draw.below(self.reflectance)
    }

    /// The direction in which the ray goes on.
    pub open spec fn direction(self) -> Vec3d {
        if self.reflects() {
            self.reflected
        } else {
            self.refracted
        }
    }
}

/// A clear material such as glass or water, which reflects some rays and
/// lets the others through, bent.
#[derive(Clone, Copy, Debug)]
pub struct Dialectric {
    refraction_index: Scalar,
}

impl Dialectric {
    /// The material's refraction index, relative to what surrounds it.
    pub closed spec fn index(&self) -> Scalar {
        self.refraction_index
    }

    /// The clear material of the given refraction index.
    pub fn new(refraction_index: Scalar) -> (material: Dialectric)
        ensures
            material.index() == refraction_index,
    {
        Dialectric { refraction_index }
    }

    /// The material's refraction index.
    pub fn refraction_index(&self) -> (index: Scalar)
        ensures
            index == self.index(),
    {
        self.refraction_index
    }

    /// The refraction ratio for a ray that meets the surface: `reciprocal`,
    /// which the caller computes as one over the index, where the ray enters
    /// through the front face, and the index itself where it leaves.
    pub fn refraction_ratio(&self, front_face: bool, reciprocal: Scalar) -> (ratio: Scalar)
        ensures
            ratio == if front_face {
                reciprocal
            } else {
                self.index()
            },
    {
        if front_face {
            reciprocal
        } else {
            self.refraction_index
        }
    }

    /// Whether a ray cannot be refracted, given the refraction ratio times
    /// the sine of its angle to the normal. Such a ray is reflected whatever
    /// the reflectance and the draw are, so the caller need not draw for it.
    pub fn cannot_refract(sine: Scalar) -> (r: bool)
        ensures
            r == Scalar(ONE).below(sine),
    {
        sine.gt(&Scalar(ONE))
    }

    /// Scatters at `rec`. The scattered ray starts at the hit and runs along
    /// the reflected direction where the ray cannot be refracted or the draw
    /// fell below the reflectance, and along the refracted one otherwise.
    /// Either way the attenuation is white: this material takes no light.
    pub fn scatter<M>(&self, rec: &Hit<M>, bend: &Refraction) -> (out: (Color3d, Ray))
        ensures
            out.0 == white(),
            out.1.origin == rec.point,
            out.1.direction == bend.direction(),
    {
        let attenuation = Color3d::new(Scalar(ONE), Scalar(ONE), Scalar(ONE));
        let direction = if Dialectric::cannot_refract(bend.sine) || bend.reflectance.gt(
            &bend.draw,
        ) {
            bend.reflected
        } else {
            bend.refracted
        };
        (attenuation, Ray::new(rec.point, direction))
    }
}

} // verus!
