//! Single-precision numbers held by their IEEE 754 encoding.
//!
//! Telemetry carries engine speeds as 32-bit binary floating-point numbers.
//! The library never computes with them: it moves them, compares them with
//! each other and compares them with zero. All three are functions of the
//! encoding alone, so a value is kept as its 32 bits and the comparisons are
//! stated over those bits.

use vstd::prelude::*;

verus! {

/// The encoding with every exponent bit set and an empty fraction: positive
/// infinity. Magnitudes above it encode no number.
pub const INFINITY_BITS: u32 = 0x7f80_0000;

/// The sign bit of an encoding.
pub const SIGN_BIT: u32 = 0x8000_0000;

/// One single-precision number, as its IEEE 754 encoding.
///
/// `==` on this type compares encodings. Two encodings of the same number
/// (the two zeros) are different under `==`, and one that encodes no number
/// is `==` to itself; [`Binary32::equals`] compares as numbers instead.
#[derive(Clone, Copy, Debug, PartialEq, Eq, Structural)]
pub struct Binary32 {
    pub bits: u32,
}

impl Binary32 {
    /// The encoding without its sign bit.
    pub open spec fn magnitude(self) -> int {
        if self.bits >= SIGN_BIT {
            self.bits - SIGN_BIT
        } else {
            self.bits as int
        }
    }

    /// Whether the sign bit is set.
    pub open spec fn sign_negative(self) -> bool {
        self.bits >= SIGN_BIT
    }

    /// Whether the encoding is one of those that stand for no number.
    pub open spec fn nan(self) -> bool {
        self.magnitude() > INFINITY_BITS
    }

    /// Whether the encoding is one of the two zeros.
    pub open spec fn zero(self) -> bool {
        self.magnitude() == 0
    }

    /// Equality as numbers: neither side is a NaN, and the encodings agree
    /// or both are zeros.
    pub open spec fn same_number(self, other: Binary32) -> bool {
        &&& !self.nan()
        &&& !other.nan()
        &&& (self.bits == other.bits || (self.zero() && other.zero()))
    }

    /// Strictly greater than zero, as a number.
    pub open spec fn positive(self) -> bool {
        !self.nan() && !self.sign_negative() && !self.zero()
    }

    /// Greater than or equal to zero, as a number. Negative zero is.
    pub open spec fn non_negative(self) -> bool {
        !self.nan() && (!self.sign_negative() || self.zero())
    }

    /// The number with the given encoding.
    pub fn from_bits(bits: u32) -> (r: Binary32)
        ensures
            r.bits == bits,
    {
        Binary32 { bits }
    }

    /// The encoding.
    pub fn to_bits(&self) -> (bits: u32)
        ensures
            bits == self.bits,
    {
        self.bits
    }

    /// Positive zero.
    pub fn zero_value() -> (r: Binary32)
        ensures
            r.bits == 0,
    {
        Binary32 { bits: 0 }
    }

    /// Whether this is a NaN.
    pub fn is_nan(&self) -> (r: bool)
        ensures
            r == self.nan(),
    {
        let m: u32 = if self.bits >= SIGN_BIT {
            self.bits - SIGN_BIT
        } else {
            self.bits
        };
        m > INFINITY_BITS
    }

    /// Whether this is positive or negative zero.
    pub fn is_zero(&self) -> (r: bool)
        ensures
            r == self.zero(),
    {
        self.bits == 0 || self.bits == SIGN_BIT
    }

    /// Compares two values as numbers.
    pub fn equals(&self, other: &Binary32) -> (r: bool)
        ensures
            r == self.same_number(*other),
    {
        if self.is_nan() || other.is_nan() {
            false
        } else {
            self.bits == other.bits || (self.is_zero() && other.is_zero())
        }
    }

    /// Whether the number is strictly greater than zero.
    pub fn is_positive(&self) -> (r: bool)
        ensures
            r == self.positive(),
    {
        0 < self.bits && self.bits <= INFINITY_BITS
    }

    /// Whether the number is greater than or equal to zero.
    pub fn is_non_negative(&self) -> (r: bool)
        ensures
            r == self.non_negative(),
    {
        self.bits <= INFINITY_BITS || self.bits == SIGN_BIT
    }
}

} // verus!
