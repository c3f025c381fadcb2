//! The decisions of a small ray tracer for scenes of spheres.
//!
//! A render is arithmetic and decisions in turn: solve a quadratic, then
//! decide whether the root counts as a hit; mirror a direction, then decide
//! whether the ray was absorbed; multiply colors, then decide whether to
//! bounce again. The arithmetic is done in single precision with random
//! draws mixed in, and no contract could say what it yields. The decisions
//! can be stated exactly, and this crate holds them: which face a ray met
//! and which way the normal is turned, which surface of a scene a ray is
//! taken to hit, what each material sends on and with how much light, when
//! the recursion over bounces ends and what its result is the product of,
//! and the text of the image file.
//!
//! Numbers cross the border as their encodings ([`scalar::Scalar`]). The
//! caller computes, and hands over what it found; the functions here compare,
//! choose, assemble and format.

pub mod circle;
pub mod color;
pub mod hit;
pub mod material;
pub mod p3;
pub mod point;
pub mod ray;
pub mod scalar;
pub mod shading;
pub mod vec;
