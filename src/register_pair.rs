use vstd::prelude::*;

verus! {

/// Two 8-bit registers that also read and write as one big-endian 16-bit value.
pub struct RegisterPair {
    pub rh: u8,
    pub rl: u8,
}

impl RegisterPair {
    /// The 16-bit value of the pair: the high register first.
    pub open spec fn spec_get(&self) -> u16 {
        (self.rh as int * 256 + self.rl as int) as u16
    }

    pub fn new() -> (r: RegisterPair)
        ensures
            r.rh == 0,
            r.rl == 0,
    {
        RegisterPair { rh: 0, rl: 0 }
    }

    pub fn get(&self) -> (r: u16)
        ensures
            r == self.spec_get(),
            r == self.rh as int * 256 + self.rl as int,
    {
        (self.rh as u16) * 256 + (self.rl as u16)
    }

    pub fn set(&mut self, value: u16)
        ensures
            final(self).rh == value / 256,
            final(self).rl == value % 256,
            final(self).spec_get() == value,
    {
        self.rh = (value / 256) as u8;
        self.rl = (value % 256) as u8;
    }
}

} // verus!
