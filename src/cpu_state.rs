use vstd::prelude::*;

use crate::pointer_register::PointerRegister;
use crate::program_state_word::ProgramStateWord;
use crate::register_pair::RegisterPair;

verus! {

/// The processor's registers and its interrupt-enable latch.
pub struct CpuState {
    pub bc: RegisterPair,
    pub de: RegisterPair,
    pub hl: RegisterPair,
    pub psw: ProgramStateWord,
    pub pc: PointerRegister,
    pub sp: PointerRegister,
    pub inte: bool,
}

impl CpuState {
    /// All registers zero, the status byte at its power-on value, interrupts disabled.
    pub fn new() -> (r: CpuState)
        ensures
            r.bc == (RegisterPair { rh: 0, rl: 0 }),
            r.de == (RegisterPair { rh: 0, rl: 0 }),
            r.hl == (RegisterPair { rh: 0, rl: 0 }),
            r.psw == (ProgramStateWord { flags: 0b0000_0010, a: 0 }),
            r.pc@ == 0,
            r.sp@ == 0,
            !r.inte,
    {
        CpuState {
            bc: RegisterPair::new(),
            de: RegisterPair::new(),
            hl: RegisterPair::new(),
            psw: ProgramStateWord::new(),
            pc: PointerRegister::new(),
            sp: PointerRegister::new(),
            inte: false,
        }
    }
}

} // verus!
