//! Milliseconds as a binary64 number, handled by its bit pattern.

use vstd::prelude::*;

verus! {

/// The bit pattern of positive infinity; every larger magnitude is a NaN.
pub const INFINITY_BITS: u64 = 0x7FF0_0000_0000_0000;

/// The sign bit of a binary64 number.
pub const SIGN_BIT: u64 = 0x8000_0000_0000_0000;

/// The bit pattern of 16.667, sixty heartbeats a second.
pub const DEFAULT_WAKE_DELAY_BITS: u64 = 0x4030_AAC0_8312_6E98;

/// A number of milliseconds in IEEE 754 binary64, held as its 64 bits.
///
/// Every bit pattern is a value of this type, the infinities and the NaNs
/// too: [`Millis::is_positive_finite`] tells which of them a heartbeat can
/// run at. Two values are equal when their bits are; for positive finite
/// numbers that is equality of the numbers.
#[derive(Clone, Copy, Debug, PartialEq, Eq, Hash, Structural)]
pub struct Millis {
    pub bits: u64,
}

impl Millis {
    /// The bits without the sign.
    pub open spec fn magnitude(self) -> int {
        if self.bits >= SIGN_BIT {
            self.bits - SIGN_BIT
        } else {
            self.bits as int
        }
    }

    /// The sign bit is set. This holds of -0 and of some NaNs too.
    pub open spec fn sign_negative(self) -> bool {
        self.bits >= SIGN_BIT
    }

    /// Positive or negative zero.
    pub open spec fn zero(self) -> bool {
        self.magnitude() == 0
    }

    /// Positive or negative infinity.
    pub open spec fn infinite(self) -> bool {
        self.magnitude() == INFINITY_BITS
    }

    /// Not a number.
    pub open spec fn nan(self) -> bool {
        self.magnitude() > INFINITY_BITS
    }

    /// A number greater than zero and less than infinity: the delays that a
    /// heartbeat can run at.
    pub open spec fn positive_finite(self) -> bool {
        &&& !self.sign_negative()
        &&& !self.zero()
        &&& !self.infinite()
        &&& !self.nan()
    }

    /// The value with the given bits.
    pub fn from_bits(bits: u64) -> (m: Millis)
        ensures
            m.bits == bits,
    {
        Millis { bits }
    }

    /// The bits of the value.
    pub fn to_bits(self) -> (bits: u64)
        ensures
            bits == self.bits,
    {
        self.bits
    }

    /// Whether the value is not a number.
    pub fn is_nan(self) -> (r: bool)
        ensures
            r == self.nan(),
    {
        let magnitude: u64 = if self.bits >= SIGN_BIT {
            self.bits - SIGN_BIT
        } else {
            self.bits
        };
        magnitude > INFINITY_BITS
    }

    /// Whether the value is a number greater than zero and less than
    /// infinity.
    pub fn is_positive_finite(self) -> (r: bool)
        ensures
            r == self.positive_finite(),
            r == (0 < self.bits < INFINITY_BITS),
    {
        0 < self.bits && self.bits < INFINITY_BITS
    }
}

/// The sign, the exponent and the fraction of a positive finite number: the
/// sign bit is clear, the eleven exponent bits are not all set, and the
/// exponent and the fraction are not both zero.
pub proof fn lemma_positive_finite_fields(m: Millis)
    ensures
        m.positive_finite() <==> {
            &&& m.bits >> 63 == 0
            &&& (m.bits >> 52) & 0x7FF != 0x7FF
            &&& m.bits != 0
        },
{
    let bits = m.bits;
    assert((0 < bits < 0x7FF0_0000_0000_0000u64) <==> (bits >> 63 == 0 && (bits >> 52) & 0x7FF
        != 0x7FF && bits != 0)) by (bit_vector);
}

} // verus!
