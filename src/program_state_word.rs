use vstd::prelude::*;

use crate::flag::{flag_condition, flag_is_set, is_even_parity, with_flag, Flag};

verus! {

/// The accumulator together with the status byte.
pub struct ProgramStateWord {
    pub flags: u8,
    pub a: u8,
}

impl ProgramStateWord {
    /// The 16-bit view: the status byte high, the accumulator low.
    pub open spec fn spec_get(&self) -> u16 {
        (self.flags as int * 256 + self.a as int) as u16
    }

    pub fn new() -> (r: ProgramStateWord)
        ensures
            r.flags == 0b0000_0010,
            r.a == 0,
    {
        ProgramStateWord { flags: 0b0000_0010, a: 0 }
    }

    pub fn get(&self) -> (r: u16)
        ensures
            r == self.spec_get(),
            r == self.flags as int * 256 + self.a as int,
    {
        (self.flags as u16) * 256 + (self.a as u16)
    }

    pub fn set(&mut self, value: u16)
        ensures
            final(self).flags == value / 256,
            final(self).a == value % 256,
            final(self).spec_get() == value,
    {
        self.flags = (value / 256) as u8;
        self.a = (value % 256) as u8;
    }

    /// The carry flag as 0 or 1.
    pub fn get_carry(&self) -> (r: u8)
        ensures
            r == (if flag_is_set(self.flags, Flag::Carry.spec_mask()) { 1u8 } else { 0u8 }),
    {
        self.get_flag(Flag::Carry)
    }

    fn get_flag(&self, flag: Flag) -> (r: u8)
        ensures
            r == (if flag_is_set(self.flags, flag.spec_mask()) { 1u8 } else { 0u8 }),
    {
        if self.is_flag_set(flag) {
            1
        } else {
            0
        }
    }

    /// Sets the carry flag when `value` is nonzero, else clears it.
    pub fn set_carry(&mut self, value: u8)
        ensures
            final(self).flags == with_flag(
                old(self).flags,
                Flag::Carry.spec_mask(),
                flag_condition(Flag::Carry, value),
            ),
            final(self).a == old(self).a,
    {
        self.set_flag(Flag::Carry, value);
    }

    /// Sets the parity flag when `value` has even parity, else clears it.
    pub fn set_parity(&mut self, value: u8)
        ensures
            final(self).flags == with_flag(
                old(self).flags,
                Flag::Parity.spec_mask(),
                flag_condition(Flag::Parity, value),
            ),
            final(self).a == old(self).a,
    {
        self.set_flag(Flag::Parity, value);
    }

    /// Sets the zero flag when `value` is zero, else clears it.
    pub fn set_zero(&mut self, value: u8)
        ensures
            final(self).flags == with_flag(
                old(self).flags,
                Flag::Zero.spec_mask(),
                flag_condition(Flag::Zero, value),
            ),
            final(self).a == old(self).a,
    {
        self.set_flag(Flag::Zero, value);
    }

    /// Sets the sign flag when bit 7 of `value` is set, else clears it.
    pub fn set_sign(&mut self, value: u8)
        ensures
            final(self).flags == with_flag(
                old(self).flags,
                Flag::Sign.spec_mask(),
                flag_condition(Flag::Sign, value),
            ),
            final(self).a == old(self).a,
    {
        self.set_flag(Flag::Sign, value);
    }

    fn set_flag(&mut self, flag: Flag, value: u8)
        ensures
            final(self).flags == with_flag(
                old(self).flags,
                flag.spec_mask(),
                flag_condition(flag, value),
            ),
            final(self).a == old(self).a,
    {
        let should_set_flag = match flag {
            Flag::Carry => value != 0,
            Flag::Parity => is_even_parity(value),
            Flag::Zero => value == 0,
            Flag::Sign => value >= 0x80,
        };
        let mask = u8::from(flag);
        if should_set_flag {
            self.flags = self.flags | mask;
        } else {
            self.flags = self.flags & !mask;
        }
    }

    pub fn is_carry_set(&self) -> (r: bool)
        ensures
            r == flag_is_set(self.flags, Flag::Carry.spec_mask()),
    {
        self.is_flag_set(Flag::Carry)
    }

    pub fn is_parity_set(&self) -> (r: bool)
        ensures
            r == flag_is_set(self.flags, Flag::Parity.spec_mask()),
    {
        self.is_flag_set(Flag::Parity)
    }

    pub fn is_zero_set(&self) -> (r: bool)
        ensures
            r == flag_is_set(self.flags, Flag::Zero.spec_mask()),
    {
        self.is_flag_set(Flag::Zero)
    }

    pub fn is_sign_set(&self) -> (r: bool)
        ensures
            r == flag_is_set(self.flags, Flag::Sign.spec_mask()),
    {
        self.is_flag_set(Flag::Sign)
    }

    fn is_flag_set(&self, flag: Flag) -> (r: bool)
        ensures
            r == flag_is_set(self.flags, flag.spec_mask()),
    {
        self.flags & u8::from(flag) != 0
    }
}

} // verus!
