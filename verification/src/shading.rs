//! The color of a ray: what the recursion over bounces decides.
//!
//! A ray's color is a product: the attenuation of each surface that the
//! light bounced off, times the light at the end of the path. The factors are
//! found here; multiplying them out is arithmetic, and the caller's.

use crate::color::{black, Color3d};
use crate::hit::{Hit, Hittable};
use crate::material::Material;
use crate::ray::Ray;
use crate::scalar::{Scalar, INFINITY, ZERO};
use vstd::prelude::*;

verus! {

/// The encoding of 0.001, the least parameter at which a bounced ray may hit
/// again: nearer hits are the surface it has just left.
pub const SHADOW_EPSILON: u32 = 0x3a83_126f;

/// The color of a ray, as the product that it is.
#[derive(Debug)]
pub enum Radiance {
    /// No light: the ray was absorbed, or ran out of bounces.
    Black,
    /// The light of the sky behind the ray, which hit nothing.
    Sky(Ray),
    /// The color of the scattered ray, each channel times that of the
    /// attenuation.
    Tinted(Color3d, Box<Radiance>),
}

impl Radiance {
    /// The number of surfaces that the light bounced off.
    pub open spec fn bounces(self) -> nat
        decreases self,
    {
        match self {
            Radiance::Tinted(_, rest) => 1 + rest.bounces(),
            _ => 0,
        }
    }

    /// No factor of the product is near zero.
    pub open spec fn unabsorbed(self) -> bool
        decreases self,
    {
        match self {
            Radiance::Tinted(attenuation, rest) => !attenuation.is_near_zero() && rest.unabsorbed(),
            _ => true,
        }
    }

    /// The light at the end of the path.
    pub open spec fn source(self) -> Radiance
        decreases self,
    {
        match self {
            Radiance::Tinted(_, rest) => rest.source(),
            _ => self,
        }
    }

    /// `out` is a value of this color under the caller's arithmetic: black
    /// for black, what `sky` gives for the ray that left the scene, and what
    /// `tint` makes of an attenuation and a value of the color under it.
    pub open spec fn evaluates<S: Fn(&Ray) -> Color3d, T: Fn(&Color3d, Color3d) -> Color3d>(
        self,
        sky: &S,
        tint: &T,
        out: Color3d,
    ) -> bool
        decreases self,
    {
        match self {
            Radiance::Black => out == black(),
            Radiance::Sky(ray) => call_ensures(*sky, (&ray,), out),
            Radiance::Tinted(attenuation, rest) => exists|inner: Color3d|
                {
                    &&& rest.evaluates(sky, tint, inner)
                    &&& #[trigger] call_ensures(*tint, (&attenuation, inner), out)
                },
        }
    }

    /// Multiplies the color out, innermost factor first, with the caller's
    /// arithmetic: `sky` is the light of the sky along a ray, and `tint` the
    /// product of an attenuation and a color, channel by channel.
    pub fn evaluate<S: Fn(&Ray) -> Color3d, T: Fn(&Color3d, Color3d) -> Color3d>(
        &self,
        sky: &S,
        tint: &T,
    ) -> (out: Color3d)
        requires
            forall|ray: &Ray| call_requires(*sky, (ray,)),
            forall|attenuation: &Color3d, color: Color3d|
                call_requires(*tint, (attenuation, color)),
        ensures
            self.evaluates(sky, tint, out),
            *self == Radiance::Black ==> out == black(),
        decreases self,
    {
        match self {
            Radiance::Black => Color3d::new(Scalar(ZERO), Scalar(ZERO), Scalar(ZERO)),
            Radiance::Sky(ray) => sky(ray),
            Radiance::Tinted(attenuation, rest) => {
                let inner = rest.evaluate(sky, tint);
                tint(attenuation, inner)
            },
        }
    }
}

/// `out` is a color of `ray` in `world` with `depth` bounces left.
///
/// With no bounce left the color is black. Otherwise the world is asked for
/// a hit at a parameter of 0.001 or more. Where it reports none, the color
/// is the sky's. Where it reports one, its material scatters the ray; an
/// attenuation near zero makes the color black, and any other tints the
/// color that the scattered ray has with one bounce less. What the world
/// and the material answer is theirs to say: the relation holds of every
/// answer that their contracts allow.
pub open spec fn shades<W: Hittable>(world: &W, ray: Ray, depth: nat, out: Radiance) -> bool
    decreases depth,
{
    if depth == 0 {
        out == Radiance::Black
    } else {
        exists|found: Option<Hit<W::Mat>>|
            {
                &&& #[trigger] call_ensures(
                    W::hit,
                    (world, &ray, Scalar(SHADOW_EPSILON), Scalar(INFINITY)),
                    found,
                )
                &&& match found {
                    None => out == Radiance::Sky(ray),
                    Some(rec) => exists|attenuation: Color3d, scattered: Ray|
                        {
                            &&& #[trigger] call_ensures(
                                <W::Mat as Material>::scatter,
                                (&rec.material, &ray, &rec),
                                (attenuation, scattered),
                            )
                            &&& if attenuation.is_near_zero() {
                                out == Radiance::Black
                            } else {
                                &&& out matches Radiance::Tinted(tint, rest)
                                &&& tint == attenuation
                                &&& shades(world, scattered, (depth - 1) as nat, *rest)
                            }
                        },
                }
            }
    }
}

/// The color of `ray` in `world`, after at most `recursion_depth` bounces.
pub fn ray_color<W: Hittable>(ray: &Ray, world: &W, recursion_depth: usize) -> (out: Radiance)
    ensures
        shades(world, *ray, recursion_depth as nat, out),
        recursion_depth == 0 ==> out == Radiance::Black,
        out.bounces() <= recursion_depth,
        out.unabsorbed(),
        out.bounces() == recursion_depth ==> out.source() == Radiance::Black,
    decreases recursion_depth,
{
    if recursion_depth == 0 {
        return Radiance::Black;
    }
    if let Some(hit) = world.hit(ray, Scalar(SHADOW_EPSILON), Scalar(INFINITY)) {
        let (attenuation, scattered) = hit.material.scatter(ray, &hit);
        if attenuation.near_zero() {
            return Radiance::Black;
        }
        let rest = ray_color(&scattered, world, recursion_depth - 1);
        return Radiance::Tinted(attenuation, Box::new(rest));
    }
    Radiance::Sky(*ray)
}

} // verus!
