//! Real values, as they pass through to the engine.

use vstd::prelude::*;

verus! {

/// The bits of the exponent of a 64-bit floating-point number.
pub const EXPONENT_MASK: u64 = 0x7FF0_0000_0000_0000;

/// The bits of the fraction of a 64-bit floating-point number.
pub const FRACTION_MASK: u64 = 0x000F_FFFF_FFFF_FFFF;

/// The bit pattern of the quiet NaN with an empty payload.
pub const NAN_BITS: u64 = 0x7FF8_0000_0000_0000;

/// A 64-bit floating-point number, held as its IEEE 754 bit pattern. The
/// value of a real parameter is handed on as it is and never computed with,
/// so the bits are all that is kept of it.
#[derive(Clone, Copy, Debug)]
pub struct Double {
    pub bits: u64,
}

impl Double {
    /// True when the bits stand for no number: the exponent is all ones and
    /// the fraction is not zero.
    pub open spec fn is_nan(self) -> bool {
        self.bits & EXPONENT_MASK == EXPONENT_MASK && self.bits & FRACTION_MASK != 0
    }

    /// The number with the given bit pattern.
    pub fn from_bits(bits: u64) -> (d: Double)
        ensures
            d.bits == bits,
    {
        Double { bits }
    }

    /// The bit pattern of the number.
    pub fn to_bits(self) -> (bits: u64)
        ensures
            bits == self.bits,
    {
        self.bits
    }

    /// A NaN: what a slot holds before the engine has written a number to it.
    pub fn nan() -> (d: Double)
        ensures
            d.bits == NAN_BITS,
            d.is_nan(),
    {
        proof {
            lemma_nan_bits_are_nan();
        }
        Double { bits: NAN_BITS }
    }
}

/// The bit pattern `NAN_BITS` stands for no number.
pub proof fn lemma_nan_bits_are_nan()
    ensures
        (Double { bits: NAN_BITS }).is_nan(),
{
    assert(NAN_BITS & EXPONENT_MASK == EXPONENT_MASK && NAN_BITS & FRACTION_MASK != 0)
        by (bit_vector)
        requires
            NAN_BITS == 0x7FF8_0000_0000_0000u64,
            EXPONENT_MASK == 0x7FF0_0000_0000_0000u64,
            FRACTION_MASK == 0x000F_FFFF_FFFF_FFFFu64,
    ;
}

} // verus!
