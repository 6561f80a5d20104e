use vstd::prelude::*;

verus! {

/// A 16-bit register whose arithmetic wraps modulo 2^16 (program counter, stack pointer).
pub struct PointerRegister {
    register: u16,
}

impl View for PointerRegister {
    type V = u16;

    closed spec fn view(&self) -> u16 {
        self.register
    }
}

/// `value + delta` modulo 2^16.
pub open spec fn wrap_add16(value: u16, delta: int) -> u16 {
    ((value as int + delta) % 0x10000) as u16
}

impl PointerRegister {
    pub fn new() -> (r: PointerRegister)
        ensures
            r@ == 0,
    {
        PointerRegister { register: 0 }
    }

    pub fn get(&self) -> (r: u16)
        ensures
            r == self@,
    {
        self.register
    }

    pub fn set(&mut self, value: u16)
        ensures
            final(self)@ == value,
    {
        self.register = value;
    }

    /// Adds `other`, wrapping modulo 2^16.
    pub fn add_assign(&mut self, other: u16)
        ensures
            final(self)@ == wrap_add16(old(self)@, other as int),
    {
        self.register = ((self.register as u32 + other as u32) % 0x10000) as u16;
    }

    /// Subtracts `other`, wrapping modulo 2^16.
    pub fn sub_assign(&mut self, other: u16)
        ensures
            final(self)@ == wrap_add16(old(self)@, -(other as int)),
    {
        self.register = ((self.register as u32 + 0x10000 - other as u32) % 0x10000) as u16;
    }
}

} // verus!
