//! Single-precision numbers, carried by their bit patterns.

use vstd::prelude::*;

verus! {

/// A number in the IEEE 754 binary32 format, held as its 32 bits: the sign in
/// the highest bit, then eight bits of exponent and 23 bits of fraction.
#[derive(Debug, Clone, Copy)]
pub struct Float32 {
    pub bits: u32,
}

impl Float32 {
    /// Whether the number is zero. The format has two zeros, one of each
    /// sign; both count.
    pub open spec fn spec_is_zero(self) -> bool {
        self.bits == 0 || self.bits == 0x8000_0000
    }

    /// The number with the given bit pattern.
    pub fn from_bits(bits: u32) -> (number: Float32)
        ensures
            number.bits == bits,
    {
        Float32 { bits }
    }

    /// The bit pattern of the number.
    pub fn to_bits(self) -> (bits: u32)
        ensures
            bits == self.bits,
    {
        self.bits
    }

    /// Whether the number is zero, of either sign.
    pub fn is_zero(self) -> (zero: bool)
        ensures
            zero == self.spec_is_zero(),
    {
        self.bits == 0 || self.bits == 0x8000_0000
    }
}

} // verus!
