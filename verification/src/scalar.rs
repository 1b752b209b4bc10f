//! Single-precision numbers held by their bit patterns.
//!
//! A mesh is made of IEEE 754 binary32 numbers. The generators only ever
//! select, negate and halve the numbers they are given, and all three are
//! exact operations on the encoding: bit 31 is the sign, bits 30..23 the
//! biased exponent, bits 22..0 the fraction.

use vstd::arithmetic::power2::{lemma2_to64, lemma_pow2_unfold, pow2};
use vstd::prelude::*;

verus! {

/// The sign bit.
pub const SIGN_BIT: u32 = 0x8000_0000;

/// The lowest exponent bit, which is also the number of fractions per exponent.
pub const FRACTION_RANGE: u32 = 0x0080_0000;

/// The magnitude of both infinities; every larger magnitude is a NaN.
pub const INFINITY_MAGNITUDE: u32 = 0x7F80_0000;

/// The fraction bit that tells a quiet NaN from a signaling one.
pub const QUIET_BIT: u32 = 0x0040_0000;

/// The bit pattern of `0.0`.
pub const ZERO_BITS: u32 = 0;

/// The bit pattern of `1.0`.
pub const ONE_BITS: u32 = 0x3F80_0000;

/// The bit pattern of `-1.0`.
pub const NEG_ONE_BITS: u32 = 0xBF80_0000;

/// The bit pattern of `2.0`.
pub const TWO_BITS: u32 = 0x4000_0000;

/// A single-precision number held by its IEEE 754 binary32 bit pattern.
///
/// Two scalars are equal when their bit patterns are: `0.0` and `-0.0`
/// differ, and a NaN equals itself.
#[derive(Clone, Copy, Debug, PartialEq, Eq, Hash, Structural)]
pub struct Scalar {
    pub bits: u32,
}

/// Half of a count of units, rounded to the nearest whole count, a tie going
/// to the even one.
pub open spec fn nearest_even_half(units: nat) -> nat {
    let floor = units / 2;
    if units % 2 == 1 && floor % 2 == 1 {
        floor + 1
    } else {
        floor
    }
}

impl Scalar {
    /// Whether the sign bit is set.
    pub open spec fn is_negative(self) -> bool {
        self.bits >= SIGN_BIT
    }

    /// The bit pattern without its sign bit.
    pub open spec fn magnitude(self) -> nat {
        if self.bits >= SIGN_BIT {
            (self.bits - SIGN_BIT) as nat
        } else {
            self.bits as nat
        }
    }

    /// The biased exponent, 0 to 255.
    pub open spec fn exponent(self) -> nat {
        self.magnitude() / (FRACTION_RANGE as nat)
    }

    /// The 23 fraction bits.
    pub open spec fn fraction(self) -> nat {
        self.magnitude() % (FRACTION_RANGE as nat)
    }

    pub open spec fn is_nan(self) -> bool {
        self.magnitude() > INFINITY_MAGNITUDE
    }

    pub open spec fn is_infinite(self) -> bool {
        self.magnitude() == INFINITY_MAGNITUDE
    }

    /// Zero, subnormal or normal.
    pub open spec fn is_finite(self) -> bool {
        self.magnitude() < INFINITY_MAGNITUDE
    }

    /// The absolute value of a finite scalar, counted in units of 2^-149,
    /// the smallest positive number of the format.
    pub open spec fn units(self) -> nat {
        if self.exponent() == 0 {
            self.fraction()
        } else {
            (FRACTION_RANGE + self.fraction()) as nat * pow2((self.exponent() - 1) as nat)
        }
    }

    /// The scalar with the other sign and the same magnitude.
    pub open spec fn negated(self) -> Scalar {
        if self.bits >= SIGN_BIT {
            Scalar { bits: (self.bits - SIGN_BIT) as u32 }
        } else {
            Scalar { bits: (self.bits + SIGN_BIT) as u32 }
        }
    }

    /// The scalar divided by two.
    ///
    /// A number with exponent 2 or more loses one from its exponent. Below
    /// that the magnitude is itself the count of units and is halved, a tie
    /// going to the even count. An infinity stays; a NaN stays, made quiet.
    pub open spec fn halved(self) -> Scalar {
        let magnitude = self.magnitude();
        if magnitude > INFINITY_MAGNITUDE {
            if self.fraction() < QUIET_BIT {
                Scalar { bits: (self.bits + QUIET_BIT) as u32 }
            } else {
                self
            }
        } else if magnitude == INFINITY_MAGNITUDE {
            self
        } else if magnitude >= 2 * FRACTION_RANGE {
            Scalar { bits: (self.bits - FRACTION_RANGE) as u32 }
        } else {
            Scalar { bits: (self.bits - magnitude + nearest_even_half(magnitude)) as u32 }
        }
    }

    pub fn from_bits(bits: u32) -> (r: Scalar)
        ensures
            r.bits == bits,
    {
        Scalar { bits }
    }

    pub fn to_bits(self) -> (bits: u32)
        ensures
            bits == self.bits,
    {
        self.bits
    }

    pub open spec fn spec_zero() -> Scalar {
        Scalar { bits: ZERO_BITS }
    }

    pub open spec fn spec_one() -> Scalar {
        Scalar { bits: ONE_BITS }
    }

    pub open spec fn spec_neg_one() -> Scalar {
        Scalar { bits: NEG_ONE_BITS }
    }

    pub open spec fn spec_two() -> Scalar {
        Scalar { bits: TWO_BITS }
    }

    /// `0.0`
    #[verifier::when_used_as_spec(spec_zero)]
    pub fn zero() -> (r: Scalar)
        ensures
            r == Self::spec_zero(),
    {
        Scalar { bits: ZERO_BITS }
    }

    /// `1.0`
    #[verifier::when_used_as_spec(spec_one)]
    pub fn one() -> (r: Scalar)
        ensures
            r == Self::spec_one(),
    {
        Scalar { bits: ONE_BITS }
    }

    /// `-1.0`
    #[verifier::when_used_as_spec(spec_neg_one)]
    pub fn neg_one() -> (r: Scalar)
        ensures
            r == Self::spec_neg_one(),
    {
        Scalar { bits: NEG_ONE_BITS }
    }

    /// `2.0`
    #[verifier::when_used_as_spec(spec_two)]
    pub fn two() -> (r: Scalar)
        ensures
            r == Self::spec_two(),
    {
        Scalar { bits: TWO_BITS }
    }

    /// Flips the sign, of a NaN too.
    pub fn neg(self) -> (r: Scalar)
        ensures
            r == self.negated(),
            r.is_negative() != self.is_negative(),
            r.magnitude() == self.magnitude(),
    {
        if self.bits >= SIGN_BIT {
            Scalar { bits: self.bits - SIGN_BIT }
        } else {
            Scalar { bits: self.bits + SIGN_BIT }
        }
    }

    /// Divides by two, rounding to nearest with ties to even.
    pub fn half(self) -> (r: Scalar)
        ensures
            r == self.halved(),
            r.is_negative() == self.is_negative(),
            self.is_nan() ==> r.is_nan(),
            self.is_infinite() ==> r == self,
            self.is_finite() ==> r.is_finite() && r.units() == nearest_even_half(self.units()),
    {
        proof {
            lemma_halved_sign(self);
            if self.is_finite() {
                lemma_halved_units(self);
            }
        }
        let sign: u32 = if self.bits >= SIGN_BIT {
            SIGN_BIT
        } else {
            0
        };
        let magnitude: u32 = self.bits - sign;
        if magnitude > INFINITY_MAGNITUDE {
            if magnitude % FRACTION_RANGE < QUIET_BIT {
                Scalar { bits: self.bits + QUIET_BIT }
            } else {
                self
            }
        } else if magnitude == INFINITY_MAGNITUDE {
            self
        } else if magnitude >= 2 * FRACTION_RANGE {
            Scalar { bits: self.bits - FRACTION_RANGE }
        } else {
            let floor: u32 = magnitude / 2;
            let rounded: u32 = if magnitude % 2 == 1 && floor % 2 == 1 {
                floor + 1
            } else {
                floor
            };
            Scalar { bits: sign + rounded }
        }
    }
}

/// Halving keeps the sign bit, keeps a NaN a NaN and an infinity as it is.
pub proof fn lemma_halved_sign(x: Scalar)
    ensures
        x.halved().is_negative() == x.is_negative(),
        x.is_nan() ==> x.halved().is_nan(),
        x.is_infinite() ==> x.halved() == x,
        x.is_finite() ==> x.halved().is_finite(),
{
}

/// Halving a finite scalar gives the finite scalar nearest to half its
/// value, the even one of two that are equally near.
pub proof fn lemma_halved_units(x: Scalar)
    requires
        x.is_finite(),
    ensures
        x.halved().is_finite(),
        x.halved().units() == nearest_even_half(x.units()),
{
    let h = x.halved();
    let m = x.magnitude();
    lemma2_to64();
    if m >= 2 * FRACTION_RANGE {
        let e = x.exponent();
        assert(e >= 2);
        assert(h.magnitude() == m - FRACTION_RANGE);
        assert(h.exponent() == e - 1);
        assert(h.fraction() == x.fraction());
        lemma_pow2_unfold((e - 1) as nat);
        let p = pow2((e - 2) as nat);
        let f = (FRACTION_RANGE + x.fraction()) as nat;
        assert(pow2((e - 1) as nat) == 2 * p);
        assert(f * (2 * p) == 2 * (f * p)) by (nonlinear_arith);
        assert(x.units() == 2 * h.units());
    } else {
        lemma_small_units(x);
        lemma_small_units(h);
    }
}

/// Below exponent 2 the magnitude of a scalar is its count of units.
proof fn lemma_small_units(x: Scalar)
    requires
        x.magnitude() < 2 * FRACTION_RANGE,
    ensures
        x.units() == x.magnitude(),
{
    lemma2_to64();
    let m = x.magnitude();
    if x.exponent() != 0 {
        assert(x.exponent() == 1);
        assert(x.fraction() == m - FRACTION_RANGE);
        assert(pow2(0) == 1);
        assert((FRACTION_RANGE + x.fraction()) as nat * 1 == m);
    }
}

/// Negating and halving can be done in either order.
pub proof fn lemma_halved_negated(x: Scalar)
    ensures
        x.negated().halved() == x.halved().negated(),
{
}

} // verus!
