use vstd::prelude::*;

verus! {

/// An unsigned 256-bit integer held as four 64-bit limbs, least significant
/// first: the form in which a locked-amount target is decoded.
#[derive(Debug, Clone, Copy, PartialEq, Eq)]
pub struct Uint256 {
    pub limbs: [u64; 4],
}

/// 2^64, the weight of one limb over the one below it.
pub open spec fn limb_base() -> int {
    0x1_0000_0000_0000_0000
}

impl Uint256 {
    /// The number that the limbs stand for.
    pub open spec fn value(self) -> int {
        self.limbs[0] as int + limb_base() * (self.limbs[1] as int + limb_base() * (
        self.limbs[2] as int + limb_base() * self.limbs[3] as int))
    }

    /// The number is below 2^64.
    pub open spec fn fits_u64(self) -> bool {
        self.limbs[1] == 0 && self.limbs[2] == 0 && self.limbs[3] == 0
    }

    /// The number as a `u64`, for a number below 2^64.
    pub fn as_u64(&self) -> (r: u64)
        requires
            self.fits_u64(),
        ensures
            r as int == self.value(),
    {
        self.limbs[0]
    }

    /// Whether the number is below 2^64.
    pub fn fits_word(&self) -> (r: bool)
        ensures
            r == self.fits_u64(),
    {
        self.limbs[1] == 0 && self.limbs[2] == 0 && self.limbs[3] == 0
    }
}

} // verus!
