//! Scalar quantities as IEEE-754 binary64 bit patterns.
//!
//! A [`Scalar`] is the 64-bit encoding of a double: one sign bit, eleven
//! exponent bits, fifty-two fraction bits.  The encoding is kept exactly as
//! it arrives, so a value read back is the value that was stored.  Ordering
//! and classification are decided on the encoding alone; no arithmetic is
//! ever performed on a `Scalar` here.

use vstd::prelude::*;

verus! {

/// Mask of the sign bit.
pub const SIGN_MASK: u64 = 0x8000_0000_0000_0000;

/// Mask of exponent and fraction: the encoding of the absolute value.
pub const MAGNITUDE_MASK: u64 = 0x7fff_ffff_ffff_ffff;

/// Magnitude of the two infinities; every larger magnitude encodes a NaN.
pub const INFINITY_BITS: u64 = 0x7ff0_0000_0000_0000;

/// Encoding of `1.0`.
pub const ONE_BITS: u64 = 0x3ff0_0000_0000_0000;

/// Mask of the fraction.
pub const FRACTION_MASK: u64 = 0x000f_ffff_ffff_ffff;

/// Mask of the exponent, once it is shifted down past the fraction.
pub const EXPONENT_MASK: u64 = 0x7ff;

/// Number of fraction bits.
pub const FRACTION_BITS: u64 = 52;

/// A double-precision number, held as its encoding.
///
/// `==` on `Scalar` compares encodings: it tells `0.0` from `-0.0` and finds a
/// NaN equal to itself.  Use [`Scalar::same_value`] for numeric equality.
#[derive(Clone, Copy, Debug, PartialEq, Eq, Structural)]
pub struct Scalar {
    pub bits: u64,
}

impl Scalar {
    /// Encoding of the absolute value.
    pub open spec fn magnitude(self) -> u64 {
        self.bits & MAGNITUDE_MASK
    }

    /// The biased exponent.
    pub open spec fn exponent(self) -> u64 {
        (self.bits >> FRACTION_BITS) & EXPONENT_MASK
    }

    /// The fraction.
    pub open spec fn fraction(self) -> u64 {
        self.bits & FRACTION_MASK
    }

    /// The sign bit is set.
    pub open spec fn sign_set(self) -> bool {
        self.bits & SIGN_MASK != 0
    }

    /// The encoding is a NaN.
    pub open spec fn nan(self) -> bool {
        self.magnitude() > INFINITY_BITS
    }

    /// The encoding is neither a NaN nor an infinity.
    pub open spec fn finite(self) -> bool {
        self.magnitude() < INFINITY_BITS
    }

    /// An integer that orders the non-NaN encodings as the numbers they
    /// encode are ordered.  Both zeros map to `0`.
    pub open spec fn key(self) -> int {
        if self.sign_set() {
            -(self.magnitude() as int)
        } else {
            self.magnitude() as int
        }
    }

    /// `self < other` as IEEE-754 defines it: false when either is a NaN.
    pub open spec fn below(self, other: Scalar) -> bool {
        !self.nan() && !other.nan() && self.key() < other.key()
    }

    /// `self <= other` as IEEE-754 defines it: false when either is a NaN.
    pub open spec fn at_most(self, other: Scalar) -> bool {
        !self.nan() && !other.nan() && self.key() <= other.key()
    }

    /// `self == other` as IEEE-754 defines it: false when either is a NaN,
    /// true of the two zeros.
    pub open spec fn same(self, other: Scalar) -> bool {
        !self.nan() && !other.nan() && self.key() == other.key()
    }

    /// `self > 0`.
    pub open spec fn positive(self) -> bool {
        !self.nan() && self.key() > 0
    }

    /// `0 <= self <= 1`.
    pub open spec fn unit(self) -> bool {
        !self.nan() && 0 <= self.key() <= ONE_BITS
    }

    /// The number whose encoding is `bits`.
    pub fn from_bits(bits: u64) -> (r: Scalar)
        ensures
            r.bits == bits,
    {
        Scalar { bits }
    }

    /// The encoding.
    pub fn to_bits(self) -> (bits: u64)
        ensures
            bits == self.bits,
    {
        self.bits
    }

    /// Positive zero.
    pub fn zero() -> (r: Scalar)
        ensures
            r.bits == 0,
            r.key() == 0,
            r.finite(),
            r.unit(),
    {
        assert(0u64 & MAGNITUDE_MASK == 0) by (bit_vector);
        assert(0u64 & SIGN_MASK == 0) by (bit_vector);
        Scalar { bits: 0 }
    }

    /// The number one.
    pub fn one() -> (r: Scalar)
        ensures
            r.bits == ONE_BITS,
            r.key() == ONE_BITS,
            r.finite(),
            r.unit(),
    {
        assert(ONE_BITS & MAGNITUDE_MASK == ONE_BITS) by (bit_vector);
        assert(ONE_BITS & SIGN_MASK == 0) by (bit_vector);
        Scalar { bits: ONE_BITS }
    }

    /// Whether the encoding is a NaN.
    pub fn is_nan(self) -> (r: bool)
        ensures
            r == self.nan(),
    {
        (self.bits & MAGNITUDE_MASK) > INFINITY_BITS
    }

    /// Whether the number is finite.
    pub fn is_finite(self) -> (r: bool)
        ensures
            r == self.finite(),
    {
        (self.bits & MAGNITUDE_MASK) < INFINITY_BITS
    }

    /// `self < other`.
    pub fn lt(self, other: Scalar) -> (r: bool)
        ensures
            r == self.below(other),
    {
        if self.is_nan() || other.is_nan() {
            return false;
        }
        let a: u64 = self.bits & MAGNITUDE_MASK;
        let b: u64 = other.bits & MAGNITUDE_MASK;
        let a_neg: bool = self.bits & SIGN_MASK != 0;
        let b_neg: bool = other.bits & SIGN_MASK != 0;
        if a_neg {
            if b_neg {
                b < a
            } else {
                a != 0 || b != 0
            }
        } else {
            if b_neg {
                false
            } else {
                a < b
            }
        }
    }

    /// `self <= other`.
    pub fn le(self, other: Scalar) -> (r: bool)
        ensures
            r == self.at_most(other),
    {
        if self.is_nan() || other.is_nan() {
            return false;
        }
        !other.lt(self)
    }

    /// `self > other`.
    pub fn gt(self, other: Scalar) -> (r: bool)
        ensures
            r == other.below(self),
    {
        other.lt(self)
    }

    /// `self >= other`.
    pub fn ge(self, other: Scalar) -> (r: bool)
        ensures
            r == other.at_most(self),
    {
        other.le(self)
    }

    /// Numeric equality: `self == other` on the numbers encoded.
    pub fn same_value(self, other: Scalar) -> (r: bool)
        ensures
            r == self.same(other),
    {
        self.le(other) && other.le(self)
    }

    /// `self > 0`.
    pub fn is_positive(self) -> (r: bool)
        ensures
            r == self.positive(),
    {
        let m: u64 = self.bits & MAGNITUDE_MASK;
        m <= INFINITY_BITS && m != 0 && self.bits & SIGN_MASK == 0
    }

    /// `0 <= self <= 1`.
    pub fn is_unit(self) -> (r: bool)
        ensures
            r == self.unit(),
    {
        let m: u64 = self.bits & MAGNITUDE_MASK;
        if self.bits & SIGN_MASK != 0 {
            m == 0
        } else {
            m <= ONE_BITS
        }
    }
}

/// The encodings of zero and one are ordered as the numbers are, and the
/// unit interval is what lies between them.
pub proof fn unit_interval_bounds()
    ensures
        (Scalar { bits: 0 }).key() == 0,
        (Scalar { bits: 0 }).finite(),
        (Scalar { bits: ONE_BITS }).key() == ONE_BITS,
        (Scalar { bits: ONE_BITS }).finite(),
        forall|x: Scalar|
            #[trigger] x.unit() <==> (Scalar { bits: 0 }).at_most(x) && x.at_most(
                Scalar { bits: ONE_BITS },
            ),
{
    assert(0u64 & MAGNITUDE_MASK == 0) by (bit_vector);
    assert(0u64 & SIGN_MASK == 0) by (bit_vector);
    assert(ONE_BITS & MAGNITUDE_MASK == ONE_BITS) by (bit_vector);
    assert(ONE_BITS & SIGN_MASK == 0) by (bit_vector);
}

/// Magnitudes are ordered by exponent first and fraction second, as the
/// absolute values of the numbers are; the encodings with the largest
/// exponent are the infinities, with the fraction zero, and the NaNs.
pub proof fn magnitude_orders_by_exponent_then_fraction(a: Scalar, b: Scalar)
    ensures
        a.magnitude() < b.magnitude() <==> a.exponent() < b.exponent() || (a.exponent()
            == b.exponent() && a.fraction() < b.fraction()),
        a.finite() <==> a.exponent() < EXPONENT_MASK,
        a.nan() <==> a.exponent() == EXPONENT_MASK && a.fraction() != 0,
{
    let x = a.bits;
    let y = b.bits;
    assert(((x & MAGNITUDE_MASK) < (y & MAGNITUDE_MASK)) == (((x >> FRACTION_BITS) & EXPONENT_MASK)
        < ((y >> FRACTION_BITS) & EXPONENT_MASK) || (((x >> FRACTION_BITS) & EXPONENT_MASK) == ((y
        >> FRACTION_BITS) & EXPONENT_MASK) && (x & FRACTION_MASK) < (y & FRACTION_MASK))))
        by (bit_vector);
    assert(((x & MAGNITUDE_MASK) < INFINITY_BITS) == (((x >> FRACTION_BITS) & EXPONENT_MASK)
        < EXPONENT_MASK)) by (bit_vector);
    assert(((x & MAGNITUDE_MASK) > INFINITY_BITS) == (((x >> FRACTION_BITS) & EXPONENT_MASK)
        == EXPONENT_MASK && (x & FRACTION_MASK) != 0)) by (bit_vector);
}

} // verus!
