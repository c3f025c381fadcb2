//! Single-precision numbers as the renderer's logic sees them.
//!
//! This crate never adds or multiplies: the arithmetic of a render is the
//! caller's. What the crate does with a number is carry it, flip its sign,
//! compare it and cut it to a whole number, and all of that can be done on
//! the 32-bit IEEE 754 encoding with integer operations alone. A [`Scalar`]
//! is that encoding. Its meaning is fixed by [`Scalar::units`], the number
//! it stands for counted in steps of 2^-149, and the contracts here are
//! stated over that value.

use vstd::arithmetic::div_mod::{
    lemma_basic_div, lemma_div_denominator, lemma_div_multiples_vanish, lemma_div_nonincreasing,
    lemma_fundamental_div_mod,
};
use vstd::arithmetic::power2::{
    lemma2_to64, lemma2_to64_rest, lemma_pow2_adds, lemma_pow2_pos, lemma_pow2_strictly_increases,
    lemma_pow2_unfold, pow2,
};
use vstd::bits::{lemma_u64_shl_is_mul, lemma_u64_shr_is_div};
use vstd::prelude::*;
use vstd::std_specs::ops::NegSpecImpl;

verus! {

/// The encoding of positive zero.
pub const ZERO: u32 = 0;

/// The encoding of one.
pub const ONE: u32 = 0x3f80_0000;

/// The encoding of positive infinity.
pub const INFINITY: u32 = 0x7f80_0000;

/// The sign bit of an encoding.
pub const SIGN: u32 = 0x8000_0000;

/// The smallest magnitude with a non-zero exponent field; also the weight of
/// the hidden leading bit of a normal number's significand.
pub const HIDDEN: u32 = 0x0080_0000;

/// A single-precision IEEE 754 number, held as its 32-bit encoding: one sign
/// bit, eight exponent bits, twenty-three fraction bits.
#[derive(Clone, Copy, Debug)]
pub struct Scalar(pub u32);

impl Scalar {
    /// The sign bit is set.
    pub open spec fn sign(self) -> bool {
        self.0 >= SIGN
    }

    /// The encoding without its sign bit.
    pub open spec fn magnitude(self) -> nat {
        if self.0 >= SIGN {
            (self.0 - SIGN) as nat
        } else {
            self.0 as nat
        }
    }

    /// The exponent field, 0 to 255.
    pub open spec fn exponent(self) -> nat {
        self.magnitude() / (HIDDEN as nat)
    }

    /// The fraction field, below 2^23.
    pub open spec fn fraction(self) -> nat {
        self.magnitude() % (HIDDEN as nat)
    }

    /// The encoding stands for no number.
    pub open spec fn nan(self) -> bool {
        self.magnitude() > INFINITY
    }

    /// The absolute value in steps of 2^-149. A subnormal number is its
    /// fraction field; a normal one is its 24-bit significand shifted by the
    /// exponent. Infinity gets the weight that the same rule gives it, which
    /// is above that of every finite number.
    pub open spec fn weight(self) -> nat {
        if self.exponent() == 0 {
            self.fraction()
        } else {
            ((HIDDEN + self.fraction()) * pow2((self.exponent() - 1) as nat)) as nat
        }
    }

    /// The value in steps of 2^-149, meaningful where `!self.nan()`. Both
    /// zeros have the value 0.
    pub open spec fn units(self) -> int {
        if self.sign() {
            -(self.weight() as int)
        } else {
            self.weight() as int
        }
    }

    /// `self < other` as IEEE 754 defines it: by value, and false as soon as
    /// one side is no number.
    pub open spec fn below(self, other: Scalar) -> bool {
        !self.nan() && !other.nan() && self.units() < other.units()
    }

    /// `self <= other` as IEEE 754 defines it.
    pub open spec fn at_most(self, other: Scalar) -> bool {
        !self.nan() && !other.nan() && self.units() <= other.units()
    }

    /// The same magnitude under the other sign.
    pub open spec fn negated(self) -> Scalar {
        if self.0 >= SIGN {
            Scalar((self.0 - SIGN) as u32)
        } else {
            Scalar((self.0 + SIGN) as u32)
        }
    }

    /// The same magnitude with the sign bit clear.
    pub open spec fn absolute(self) -> Scalar {
        Scalar(self.magnitude() as u32)
    }

    /// The number without what follows the point: rounded toward zero, and 0
    /// for a negative number and for no number.
    pub open spec fn whole(self) -> nat {
        if self.nan() || self.sign() {
            0
        } else {
            self.weight() / pow2(149)
        }
    }

    /// The encoding read as a signed magnitude. The executable comparisons
    /// order by this; `lemma_rank_orders_by_value` shows that it orders as the
    /// values do.
    pub open spec fn rank(self) -> int {
        if self.sign() {
            -(self.magnitude() as int)
        } else {
            self.magnitude() as int
        }
    }

    /// Whether the encoding stands for no number.
    pub fn is_nan(&self) -> (r: bool)
        ensures
            r == self.nan(),
    {
        if self.0 >= SIGN {
            self.0 - SIGN > INFINITY
        } else {
            self.0 > INFINITY
        }
    }

    fn signed_magnitude(&self) -> (r: i64)
        ensures
            r == self.rank(),
    {
        if self.0 >= SIGN {
            -((self.0 - SIGN) as i64)
        } else {
            self.0 as i64
        }
    }

    /// `self < other`.
    pub fn lt(&self, other: &Scalar) -> (r: bool)
        ensures
            r == self.below(*other),
    {
        if self.is_nan() || other.is_nan() {
            false
        } else {
            proof {
                lemma_rank_orders_by_value(*self, *other);
            }
            self.signed_magnitude() < other.signed_magnitude()
        }
    }

    /// `self <= other`.
    pub fn le(&self, other: &Scalar) -> (r: bool)
        ensures
            r == self.at_most(*other),
    {
        if self.is_nan() || other.is_nan() {
            false
        } else {
            proof {
                lemma_rank_orders_by_value(*self, *other);
            }
            self.signed_magnitude() <= other.signed_magnitude()
        }
    }

    /// `self > other`.
    pub fn gt(&self, other: &Scalar) -> (r: bool)
        ensures
            r == other.below(*self),
    {
        other.lt(self)
    }

    /// `self >= other`.
    pub fn ge(&self, other: &Scalar) -> (r: bool)
        ensures
            r == other.at_most(*self),
    {
        other.le(self)
    }

    /// The absolute value: the sign bit is cleared, also on an encoding that
    /// stands for no number.
    pub fn abs(&self) -> (r: Scalar)
        ensures
            r == self.absolute(),
            !r.sign(),
            r.weight() == self.weight(),
            r.nan() == self.nan(),
    {
        if self.0 >= SIGN {
            Scalar(self.0 - SIGN)
        } else {
            Scalar(self.0)
        }
    }

    /// The whole part of the number as an integer: toward zero, 0 for a
    /// negative number and for no number, and the greatest integer for a
    /// number above it.
    pub fn truncate(&self) -> (n: usize)
        ensures
            n == if self.whole() > usize::MAX {
                usize::MAX as nat
            } else {
                self.whole()
            },
    {
        if self.0 >= SIGN || self.0 > INFINITY {
            return 0;
        }
        let exponent: u32 = self.0 / HIDDEN;
        let fraction: u32 = self.0 % HIDDEN;
        proof {
            lemma_whole(*self);
            lemma2_to64();
            lemma2_to64_rest();
        }
        if exponent < 127 {
            return 0;
        }
        let significand: u64 = (HIDDEN + fraction) as u64;
        if exponent <= 150 {
            let shift: u64 = (150 - exponent) as u64;
            proof {
                lemma_u64_shr_is_div(significand, shift);
                lemma_pow2_pos(shift as nat);
                lemma_div_nonincreasing(
                    significand as int,
                    pow2(shift as nat) as int,
                );
            }
            let level: u64 = significand >> shift;
            level as usize
        } else if exponent > 190 {
            proof {
                let k = (exponent - 150) as nat;
                if k > 41 {
                    lemma_pow2_strictly_increases(41, k);
                }
                assert(significand * pow2(k) >= 0x80_0000 * 0x200_0000_0000) by (nonlinear_arith)
                    requires
                        significand >= 0x80_0000,
                        pow2(k) >= 0x200_0000_0000,
                ;
            }
            usize::MAX
        } else {
            let shift: u64 = (exponent - 150) as u64;
            proof {
                if shift < 40 {
                    lemma_pow2_strictly_increases(shift as nat, 40);
                }
                assert(significand * pow2(shift as nat) < 0x100_0000 * 0x100_0000_0000)
                    by (nonlinear_arith)
                    requires
                        significand < 0x100_0000,
                        pow2(shift as nat) <= 0x100_0000_0000,
                ;
                lemma_u64_shl_is_mul(significand, shift);
            }
            let level: u64 = significand << shift;
            if level > usize::MAX as u64 {
                usize::MAX
            } else {
                level as usize
            }
        }
    }
}

impl std::ops::Neg for Scalar {
    type Output = Scalar;

    /// The negation: the sign bit is flipped, also on an encoding that stands
    /// for no number.
    fn neg(self) -> (r: Scalar)
        ensures
            r == self.negated(),
            r.sign() != self.sign(),
            r.magnitude() == self.magnitude(),
            r.units() == -self.units(),
            r.nan() == self.nan(),
    {
        if self.0 >= SIGN {
            Scalar(self.0 - SIGN)
        } else {
            Scalar(self.0 + SIGN)
        }
    }
}

impl NegSpecImpl for Scalar {
    open spec fn obeys_neg_spec() -> bool {
        true
    }

    open spec fn neg_req(self) -> bool {
        true
    }

    open spec fn neg_spec(self) -> Scalar {
        self.negated()
    }
}

/// A larger magnitude weighs more: within one exponent the fraction decides,
/// and a number with a larger exponent outweighs every number with a smaller
/// one.
pub proof fn lemma_weight_increases(a: Scalar, b: Scalar)
    requires
        a.magnitude() < b.magnitude(),
    ensures
        a.weight() < b.weight(),
{
    let ea = a.exponent();
    let eb = b.exponent();
    let fa = a.fraction();
    let fb = b.fraction();
    let h = HIDDEN as nat;
    assert(a.magnitude() == h * ea + fa && b.magnitude() == h * eb + fb) by {
        lemma_fundamental_div_mod(a.magnitude() as int, h as int);
        lemma_fundamental_div_mod(b.magnitude() as int, h as int);
    }
    assert(ea <= eb) by (nonlinear_arith)
        requires
            h * ea + fa < h * eb + fb,
            fa < h,
            fb < h,
            h > 0,
    ;
    if ea == eb {
        if ea > 0 {
            let p = pow2((ea - 1) as nat);
            lemma_pow2_pos((ea - 1) as nat);
            assert((h + fa) * p < (h + fb) * p) by (nonlinear_arith)
                requires
                    fa < fb,
                    p > 0,
            ;
        }
    } else {
        let q = pow2((eb - 1) as nat);
        lemma_pow2_pos((eb - 1) as nat);
        assert(h * q <= (h + fb) * q) by (nonlinear_arith)
            requires
                q > 0,
        ;
        if ea == 0 {
            assert(h * 1 <= h * q) by (nonlinear_arith)
                requires
                    q >= 1,
            ;
        } else {
            let p = pow2((ea - 1) as nat);
            lemma_pow2_unfold(ea);
            if ea < eb - 1 {
                lemma_pow2_strictly_increases(ea, (eb - 1) as nat);
            }
            lemma_pow2_pos((ea - 1) as nat);
            assert((h + fa) * p < h * (2 * p)) by (nonlinear_arith)
                requires
                    fa < h,
                    p > 0,
            ;
            assert(h * (2 * p) <= h * q) by (nonlinear_arith)
                requires
                    2 * p <= q,
            ;
        }
    }
}

/// The encodings, read as signed magnitudes, are ordered as the values are.
/// This is what lets a comparison of two numbers be made on their encodings.
pub proof fn lemma_rank_orders_by_value(a: Scalar, b: Scalar)
    ensures
        a.rank() < b.rank() <==> a.units() < b.units(),
        a.rank() == b.rank() <==> a.units() == b.units(),
{
    if a.magnitude() < b.magnitude() {
        lemma_weight_increases(a, b);
    } else if b.magnitude() < a.magnitude() {
        lemma_weight_increases(b, a);
    }
    let zero = Scalar(ZERO);
    if a.magnitude() > 0 {
        lemma_weight_increases(zero, a);
    }
    if b.magnitude() > 0 {
        lemma_weight_increases(zero, b);
    }
}

/// The whole part of a number that is not negative, by the size of its
/// exponent: below one there is none; up to 2^24 the significand loses its
/// low bits; above, it gains zeros.
pub proof fn lemma_whole(a: Scalar)
    requires
        !a.nan(),
        !a.sign(),
    ensures
        a.exponent() < 127 ==> a.whole() == 0,
        127 <= a.exponent() <= 150 ==> a.whole() == (HIDDEN + a.fraction()) as nat / pow2(
            (150 - a.exponent()) as nat,
        ),
        150 < a.exponent() ==> a.whole() == (HIDDEN + a.fraction()) * pow2(
            (a.exponent() - 150) as nat,
        ),
{
    let e = a.exponent();
    let significand = (HIDDEN + a.fraction()) as int;
    let unit = pow2(149) as int;
    lemma_pow2_pos(149);
    lemma2_to64();
    if e == 0 {
        lemma_pow2_strictly_increases(23, 149);
        lemma_basic_div(a.weight() as int, unit);
    } else {
        let low = pow2((e - 1) as nat) as int;
        lemma_pow2_pos((e - 1) as nat);
        if e <= 150 {
            let high = pow2((150 - e) as nat) as int;
            lemma_pow2_pos((150 - e) as nat);
            lemma_pow2_adds((e - 1) as nat, (150 - e) as nat);
            lemma_div_multiples_vanish(significand, low);
            lemma_div_denominator(significand * low, low, high);
            if e < 127 {
                lemma_pow2_strictly_increases(23, (150 - e) as nat);
                lemma_pow2_unfold(24);
                if 150 - e > 24 {
                    lemma_pow2_strictly_increases(24, (150 - e) as nat);
                }
                lemma_basic_div(significand, high);
            }
        } else {
            let high = pow2((e - 150) as nat) as int;
            lemma_pow2_adds(149, (e - 150) as nat);
            assert(significand * (unit * high) == unit * (significand * high))
                by (nonlinear_arith);
            lemma_div_multiples_vanish(significand * high, unit);
        }
    }
}

} // verus!
