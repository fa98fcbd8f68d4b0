//! Fixed-width unsigned integers used by the trace: 256-bit words held as two
//! 128-bit limbs, and 160-bit account addresses.
use vstd::prelude::*;

verus! {

/// The weight of the high 128-bit limb: 2^128.
pub open spec fn limb_base() -> int {
    (0x1_0000_0000_0000_0000 * 0x1_0000_0000_0000_0000) as int
}

/// A 256-bit unsigned integer, split into a low and a high 128-bit limb.
#[derive(Clone, Copy, Debug, PartialEq, Eq, Structural)]
pub struct Word {
    pub lo: u128,
    pub hi: u128,
}

impl View for Word {
    type V = int;

    open spec fn view(&self) -> int {
        self.hi * limb_base() + self.lo
    }
}

impl Word {
    /// The word 0.
    pub fn zero() -> (r: Word)
        ensures
            r == (Word { lo: 0, hi: 0 }),
            r@ == 0,
    {
        Word { lo: 0, hi: 0 }
    }

    /// The word holding a 64-bit value.
    pub fn from_u64(v: u64) -> (r: Word)
        ensures
            r == (Word { lo: v as u128, hi: 0 }),
            r@ == v,
    {
        Word { lo: v as u128, hi: 0 }
    }

    /// The word holding a 128-bit value.
    pub fn from_u128(v: u128) -> (r: Word)
        ensures
            r == (Word { lo: v, hi: 0 }),
            r@ == v,
    {
        Word { lo: v, hi: 0 }
    }

    /// The word with the given limbs.
    pub fn from_limbs(lo: u128, hi: u128) -> (r: Word)
        ensures
            r.lo == lo,
            r.hi == hi,
            r@ == hi * limb_base() + lo,
    {
        Word { lo, hi }
    }
}

/// A 160-bit account address: a low 128-bit part and a high 32-bit part.
#[derive(Clone, Copy, Debug, PartialEq, Eq, Structural)]
pub struct Address {
    pub lo: u128,
    pub hi: u32,
}

impl View for Address {
    type V = int;

    open spec fn view(&self) -> int {
        self.hi * limb_base() + self.lo
    }
}

impl Address {
    /// The zero address.
    pub fn zero() -> (r: Address)
        ensures
            r == (Address { lo: 0, hi: 0 }),
            r@ == 0,
    {
        Address { lo: 0, hi: 0 }
    }

    /// The address whose numeric value is `v`.
    pub fn from_u64(v: u64) -> (r: Address)
        ensures
            r == (Address { lo: v as u128, hi: 0 }),
            r@ == v,
    {
        Address { lo: v as u128, hi: 0 }
    }

    /// The address with the given parts.
    pub fn from_parts(lo: u128, hi: u32) -> (r: Address)
        ensures
            r.lo == lo,
            r.hi == hi,
            r@ == hi * limb_base() + lo,
    {
        Address { lo, hi }
    }
}

} // verus!
