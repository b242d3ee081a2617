//! Unsigned 256-bit integers, the word of the chain's contracts.

use vstd::prelude::*;

verus! {

/// `2^64`, the weight of the second limb.
pub const LIMB: u128 = 0x1_0000_0000_0000_0000;

/// An unsigned 256-bit integer as four 64-bit limbs, least significant first.
#[derive(Clone, Copy, Debug)]
pub struct U256 {
    pub limbs: [u64; 4],
}

impl View for U256 {
    type V = nat;

    open spec fn view(&self) -> nat {
        (self.limbs[0] as nat) + (self.limbs[1] as nat) * 0x1_0000_0000_0000_0000
            + (self.limbs[2] as nat) * 0x1_0000_0000_0000_0000_0000_0000_0000_0000
            + (self.limbs[3] as nat)
            * 0x1_0000_0000_0000_0000_0000_0000_0000_0000_0000_0000_0000_0000
    }
}

impl U256 {
    /// The integer `value`.
    pub fn from_u128(value: u128) -> (r: U256)
        ensures
            r@ == value,
    {
        let low: u64 = (value % LIMB) as u64;
        let high: u64 = (value / LIMB) as u64;
        U256 { limbs: [low, high, 0, 0] }
    }

    /// The integer as a `u128`, if it is below `2^128`.
    pub fn to_u128(&self) -> (r: Option<u128>)
        ensures
            r is Some <==> self@ <= u128::MAX,
            r matches Some(v) ==> v == self@,
    {
        if self.limbs[2] == 0 && self.limbs[3] == 0 {
            Some((self.limbs[1] as u128) * LIMB + (self.limbs[0] as u128))
        } else {
            None
        }
    }

    /// Whether the integer is zero.
    pub fn is_zero(&self) -> (z: bool)
        ensures
            z == (self@ == 0),
    {
        self.limbs[0] == 0 && self.limbs[1] == 0 && self.limbs[2] == 0 && self.limbs[3] == 0
    }
}

} // verus!
