use vstd::prelude::*;

verus! {

/// The four condition bits of the status byte.
pub enum Flag {
    Carry,
    Parity,
    Zero,
    Sign,
}

impl Flag {
    /// The bit of the status byte that holds this flag.
    pub open spec fn spec_mask(self) -> u8 {
        match self {
            Flag::Carry => 0b0000_0001,
            Flag::Parity => 0b0000_0100,
            Flag::Zero => 0b0100_0000,
            Flag::Sign => 0b1000_0000,
        }
    }
}

impl From<Flag> for u8 {
    fn from(flag: Flag) -> u8 {
        match flag {
            Flag::Carry => 0b0000_0001,
            Flag::Parity => 0b0000_0100,
            Flag::Zero => 0b0100_0000,
            Flag::Sign => 0b1000_0000,
        }
    }
}

impl vstd::std_specs::convert::FromSpecImpl<Flag> for u8 {
    open spec fn obeys_from_spec() -> bool {
        true
    }

    open spec fn from_spec(v: Flag) -> u8 {
        v.spec_mask()
    }
}

pub const CARRY_MASK: u8 = 0b0000_0001;
pub const PARITY_MASK: u8 = 0b0000_0100;
pub const ZERO_MASK: u8 = 0b0100_0000;
pub const SIGN_MASK: u8 = 0b1000_0000;

/// Number of one bits in `v`.
pub open spec fn popcount(v: u8) -> nat
    decreases v,
{
    if v == 0 {
        0
    } else {
        (v % 2) as nat + popcount((v / 2) as u8)
    }
}

/// Even parity: an even number of one bits.
pub open spec fn even_parity(v: u8) -> bool {
    popcount(v) % 2 == 0
}

/// Whether the bit `mask` is set in the status byte `flags`.
pub open spec fn flag_is_set(flags: u8, mask: u8) -> bool {
    flags & mask != 0
}

/// The status byte `flags` with the bit `mask` set (`on`) or cleared.
pub open spec fn with_flag(flags: u8, mask: u8, on: bool) -> u8 {
    if on {
        flags | mask
    } else {
        flags & !mask
    }
}

/// Whether setting `flag` from `value` turns the flag on: carry on a nonzero
/// carry token, parity on even parity, zero on zero, sign on bit 7.
pub open spec fn flag_condition(flag: Flag, value: u8) -> bool {
    match flag {
        Flag::Carry => value != 0,
        Flag::Parity => even_parity(value),
        Flag::Zero => value == 0,
        Flag::Sign => value >= 0x80,
    }
}

/// Computes the even parity of `value`.
pub fn is_even_parity(value: u8) -> (r: bool)
    ensures
        r == even_parity(value),
{
    let mut v: u8 = value;
    let mut even = true;
    while v > 0
        invariant
            even_parity(value) == (even == (popcount(v) % 2 == 0)),
        decreases v,
    {
        if v % 2 == 1 {
            even = !even;
        }
        v = v / 2;
    }
    even
}

} // verus!
