use vstd::prelude::*;

verus! {

/// An angle in degrees, carried as the bit pattern of a double-precision
/// number. The library never computes on coordinates: it stores them and
/// hands them on, so the pattern is all it needs.
#[derive(Clone, Copy, Debug, PartialEq, Eq, Structural)]
pub struct Degrees {
    pub bits: u64,
}

impl Degrees {
    /// The pattern of `+0.0`.
    pub open spec fn zero() -> Degrees {
        Degrees { bits: 0 }
    }

    pub fn from_bits(bits: u64) -> (d: Degrees)
        ensures
            d == (Degrees { bits }),
    {
        Degrees { bits }
    }

    pub fn to_bits(&self) -> (bits: u64)
        ensures
            bits == self.bits,
    {
        self.bits
    }
}

} // verus!
