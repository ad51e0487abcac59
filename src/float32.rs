use vstd::prelude::*;

verus! {

/// The sign bit of an IEEE-754 single-precision bit pattern.
pub const SIGN_BIT: u32 = 0x8000_0000;

/// The bit pattern of `1.0` in IEEE-754 single precision.
pub const ONE_BITS: u32 = 0x3F80_0000;

/// A single-precision float held as its IEEE-754 bit pattern.
///
/// Values of this type are compared bit for bit, so a value always equals
/// itself and converting it back and forth loses nothing.
#[derive(Clone, Copy, Debug, PartialEq, Eq, Structural)]
pub struct Float32 {
    pub bits: u32,
}

impl Float32 {
    /// The float whose bit pattern is `bits`.
    pub fn from_bits(bits: u32) -> (r: Float32)
        ensures
            r.bits == bits,
    {
        Float32 { bits }
    }

    /// Positive zero.
    pub fn zero() -> (r: Float32)
        ensures
            r.bits == 0,
    {
        Float32 { bits: 0 }
    }

    pub open spec fn is_zero(self) -> bool {
        self.bits == 0 || self.bits == SIGN_BIT
    }

    pub open spec fn spec_neg(self) -> Float32 {
        Float32 { bits: self.bits ^ SIGN_BIT }
    }

    /// IEEE-754 negation: the sign bit flips, every other bit stays.
    pub fn neg(self) -> (r: Float32)
        ensures
            r == self.spec_neg(),
    {
        Float32 { bits: self.bits ^ SIGN_BIT }
    }

    /// Negating twice gives the value back.
    pub proof fn lemma_neg_involutive(self)
        ensures
            self.spec_neg().spec_neg() == self,
    {
        let b = self.bits;
        assert(b ^ 0x8000_0000u32 ^ 0x8000_0000u32 == b) by (bit_vector);
    }
}

} // verus!
