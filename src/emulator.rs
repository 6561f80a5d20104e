use vstd::prelude::*;

use crate::cpu_state::CpuState;
use crate::decoder::{decode, DecodeError};
use crate::instruction::Instruction;
use crate::interrupt_timer::InterruptTimers;
use crate::io_ports::{IOPorts, InputPorts, OutputPorts};
use crate::machine::{
    accept_interrupt, alu, execute, execute_arithmetic, execute_control, execute_memory,
    execute_registers, is_arithmetic, is_control, is_memory_transfer, is_register_transfer,
    rotate, run_fetched, run_from, step, zsp_flags, EmulatorError, Machine, Status,
};
use crate::memory::{mem_write, mem_write16, Memory, MEMORY_SIZE};
use crate::program_state_word::ProgramStateWord;

verus! {

/// The emulator: processor, memory image, port bank and interrupt sources,
/// with the count of cycles run.
pub struct Emulator {
    pub cpu_state: CpuState,
    pub memory: Memory,
    pub io_ports: IOPorts,
    pub interrupt_timers: InterruptTimers,
    pub cycles: u64,
}

impl View for Emulator {
    type V = Machine;

    open spec fn view(&self) -> Machine {
        Machine {
            bc: self.cpu_state.bc,
            de: self.cpu_state.de,
            hl: self.cpu_state.hl,
            psw: self.cpu_state.psw,
            pc: self.cpu_state.pc@,
            sp: self.cpu_state.sp@,
            inte: self.cpu_state.inte,
            memory: self.memory@,
            ports: self.io_ports,
            timers: self.interrupt_timers,
            cycles: self.cycles,
        }
    }
}

impl Emulator {
    /// The memory image has its full size.
    pub open spec fn wf(&self) -> bool {
        self.memory.wf()
    }

    /// A powered-on machine: registers and memory zero, ports and interrupt
    /// sources at their initial values.
    pub fn new() -> (r: Emulator)
        ensures
            r.wf(),
            r@.bc.spec_get() == 0,
            r@.de.spec_get() == 0,
            r@.hl.spec_get() == 0,
            r@.psw == (ProgramStateWord { flags: 0b0000_0010, a: 0 }),
            r@.pc == 0,
            r@.sp == 0,
            !r@.inte,
            forall|i: int| 0 <= i < MEMORY_SIZE ==> r@.memory[i] == 0,
            r@.ports.input == InputPorts::initial(),
            r@.ports.output == OutputPorts::initial(),
            r@.ports.shift_register == 0,
            r@.timers == InterruptTimers::initial(),
            r@.cycles == 0,
    {
        Emulator {
            cpu_state: CpuState::new(),
            memory: Memory::new(),
            io_ports: IOPorts::new(),
            interrupt_timers: InterruptTimers::new(),
            cycles: 0,
        }
    }

    /// Copies `rom` into memory from address 0.
    pub fn load_rom(&mut self, rom: &[u8])
        requires
            old(self).wf(),
        ensures
            final(self).wf(),
            final(self)@ == (Machine {
                memory: mem_write(old(self)@.memory, 0, rom@),
                ..old(self)@
            }),
    {
        self.memory.write(0, rom);
    }

    fn get_register(&self, reg: u8) -> (r: u8)
        requires
            self.wf(),
            reg < 8,
        ensures
            r == self@.reg(reg),
    {
        match reg {
            0 => self.cpu_state.bc.rh,
            1 => self.cpu_state.bc.rl,
            2 => self.cpu_state.de.rh,
            3 => self.cpu_state.de.rl,
            4 => self.cpu_state.hl.rh,
            5 => self.cpu_state.hl.rl,
            6 => self.memory.read8(self.cpu_state.hl.get()),
            _ => self.cpu_state.psw.a,
        }
    }

    fn set_register(&mut self, reg: u8, value: u8)
        requires
            old(self).wf(),
            reg < 8,
        ensures
            final(self).wf(),
            final(self)@ == old(self)@.set_reg(reg, value),
    {
        match reg {
            0 => self.cpu_state.bc.rh = value,
            1 => self.cpu_state.bc.rl = value,
            2 => self.cpu_state.de.rh = value,
            3 => self.cpu_state.de.rl = value,
            4 => self.cpu_state.hl.rh = value,
            5 => self.cpu_state.hl.rl = value,
            6 => {
                let address = self.cpu_state.hl.get();
                self.memory.write8(address, value);
            },
            _ => self.cpu_state.psw.a = value,
        }
    }

    fn get_register_pair(&self, rp: u8) -> (r: u16)
        requires
            rp < 5,
        ensures
            r == self@.pair(rp),
    {
        match rp {
            0 => self.cpu_state.bc.get(),
            1 => self.cpu_state.de.get(),
            2 => self.cpu_state.hl.get(),
            3 => self.cpu_state.sp.get(),
            _ => self.cpu_state.psw.get(),
        }
    }

    fn set_register_pair(&mut self, rp: u8, value: u16)
        requires
            old(self).wf(),
            rp < 5,
        ensures
            final(self).wf(),
            final(self)@ == old(self)@.set_pair(rp, value),
    {
        match rp {
            0 => self.cpu_state.bc.set(value),
            1 => self.cpu_state.de.set(value),
            2 => self.cpu_state.hl.set(value),
            3 => self.cpu_state.sp.set(value),
            _ => self.cpu_state.psw.set(value),
        }
    }

    /// The word at SP.
    fn read_sp(&self) -> (r: u16)
        requires
            self.wf(),
        ensures
            r == self@.top(),
    {
        self.memory.read16(self.cpu_state.sp.get())
    }

    /// Stores `data` at SP.
    fn write_sp(&mut self, data: u16)
        requires
            old(self).wf(),
        ensures
            final(self).wf(),
            final(self)@ == (Machine {
                memory: mem_write16(old(self)@.memory, old(self)@.sp, data),
                ..old(self)@
            }),
    {
        let sp = self.cpu_state.sp.get();
        self.memory.write16(sp, data);
    }

    fn push(&mut self, value: u16)
        requires
            old(self).wf(),
        ensures
            final(self).wf(),
            final(self)@ == old(self)@.push(value),
    {
        self.cpu_state.sp.sub_assign(2);
        self.write_sp(value);
    }

    fn advance(&mut self, len: u16)
        requires
            old(self).wf(),
        ensures
            final(self).wf(),
            final(self)@ == old(self)@.advance(len as int),
    {
        self.cpu_state.pc.add_assign(len);
    }

    /// Sets the parity, zero and sign flags from `value`.
    fn set_zsp(&mut self, value: u8)
        requires
            old(self).wf(),
        ensures
            final(self).wf(),
            final(self)@ == old(self)@.with_flags(zsp_flags(old(self)@.psw.flags, value)),
    {
        self.cpu_state.psw.set_parity(value);
        self.cpu_state.psw.set_zero(value);
        self.cpu_state.psw.set_sign(value);
    }

    fn condition(&self, cc: u8) -> (r: bool)
        requires
            cc < 8,
        ensures
            r == self@.condition(cc),
    {
        let psw = &self.cpu_state.psw;
        match cc {
            0 => !psw.is_zero_set(),
            1 => psw.is_zero_set(),
            2 => !psw.is_carry_set(),
            3 => psw.is_carry_set(),
            4 => !psw.is_parity_set(),
            5 => psw.is_parity_set(),
            6 => !psw.is_sign_set(),
            _ => psw.is_sign_set(),
        }
    }

    /// The accumulator operation `op` (ADD, ADC, SUB, SBB, ANA, XRA, ORA, CMP) with operand `x`.
    fn alu_op(&mut self, op: u8, x: u8)
        requires
            old(self).wf(),
            op < 8,
        ensures
            final(self).wf(),
            final(self)@ == old(self)@.alu_op(op, x),
    {
        let a = self.cpu_state.psw.a;
        let c: u16 = if self.cpu_state.psw.is_carry_set() {
            1
        } else {
            0
        };
        let (result, carry): (u8, bool) = match op {
            0 => {
                let s: u16 = a as u16 + x as u16;
                ((s % 256) as u8, s > 255)
            },
            1 => {
                let s: u16 = a as u16 + x as u16 + c;
                ((s % 256) as u8, s > 255)
            },
            3 => {
                let sub: u16 = x as u16 + c;
                (((a as u16 + 512 - sub) % 256) as u8, (a as u16) < sub)
            },
            4 => (a & x, false),
            5 => (a ^ x, false),
            6 => (a | x, false),
            _ => (((a as u16 + 256 - x as u16) % 256) as u8, a < x),
        };
        assert((result, carry) == alu(op, a, x, old(self)@.carry()));
        if op != 7 {
            self.cpu_state.psw.a = result;
        }
        self.cpu_state.psw.set_carry(
            if carry {
                1
            } else {
                0
            },
        );
        self.set_zsp(result);
    }

    /// The rotate `op` (RLC, RRC, RAL, RAR).
    fn rotate_op(&mut self, op: u8)
        requires
            old(self).wf(),
            op < 4,
        ensures
            final(self).wf(),
            final(self)@ == old(self)@.rotate_op(op),
    {
        let a = self.cpu_state.psw.a;
        let c: u8 = self.cpu_state.psw.get_carry();
        let (result, carry): (u8, bool) = match op {
            0 => ((((a as u16 * 2) % 256) as u8) + a / 128, a >= 128),
            1 => (a / 2 + (a % 2) * 128, a % 2 == 1),
            2 => ((((a as u16 * 2) % 256) as u8) + c, a >= 128),
            _ => (a / 2 + c * 128, a % 2 == 1),
        };
        assert((result, carry) == rotate(op, a, old(self)@.carry()));
        self.cpu_state.psw.a = result;
        self.cpu_state.psw.set_carry(
            if carry {
                1
            } else {
                0
            },
        );
    }

    /// INR (`up`) or DCR on register `reg`.
    fn step_register(&mut self, reg: u8, up: bool)
        requires
            old(self).wf(),
            reg < 8,
        ensures
            final(self).wf(),
            final(self)@ == old(self)@.step_reg(reg, if up { 1 } else { 255 }),
    {
        let old_value = self.get_register(reg);
        let value: u8 = if up {
            ((old_value as u16 + 1) % 256) as u8
        } else {
            ((old_value as u16 + 255) % 256) as u8
        };
        self.set_register(reg, value);
        self.set_zsp(value);
    }

    fn jump_if(&mut self, taken: bool, target: u16) -> (r: u16)
        requires
            old(self).wf(),
        ensures
            final(self).wf(),
            (final(self)@, r) == old(self)@.jump_if(taken, target),
    {
        if taken {
            self.cpu_state.pc.set(target);
        } else {
            self.advance(3);
        }
        10
    }

    fn call_if(&mut self, taken: bool, target: u16) -> (r: u16)
        requires
            old(self).wf(),
        ensures
            final(self).wf(),
            (final(self)@, r) == old(self)@.call_if(taken, target),
    {
        self.advance(3);
        if taken {
            let return_address = self.cpu_state.pc.get();
            self.push(return_address);
            self.cpu_state.pc.set(target);
            17
        } else {
            11
        }
    }

    fn return_if(&mut self, taken: bool) -> (r: u16)
        requires
            old(self).wf(),
        ensures
            final(self).wf(),
            (final(self)@, r) == old(self)@.return_if(taken),
    {
        if taken {
            let target = self.read_sp();
            self.cpu_state.pc.set(target);
            self.cpu_state.sp.add_assign(2);
            11
        } else {
            self.advance(1);
            5
        }
    }
    /// Runs `i`: updates registers, memory and ports, moves the program
    /// counter on and returns the cycles it took. On an error nothing changes.
    pub fn execute(&mut self, i: Instruction) -> (r: Result<u16, EmulatorError>)
        requires
            old(self).wf(),
            i.wf(),
        ensures
            final(self).wf(),
            match execute(old(self)@, i) {
                Ok((next, cost)) => r == Ok::<u16, EmulatorError>(cost) && final(self)@ == next,
                Err(e) => r == Err::<u16, EmulatorError>(e) && final(self)@ == old(self)@,
            },
    {
        reveal(execute);
        match i {
            Instruction::Nop | Instruction::Lxi { .. } | Instruction::Inx { .. } | Instruction::Dcx { .. } | Instruction::Mvi { .. } | Instruction::Mov { .. } | Instruction::Hlt | Instruction::Xchg | Instruction::Sphl => self.execute_registers(i),
            Instruction::Stax { .. } | Instruction::Ldax { .. } | Instruction::Shld { .. } | Instruction::Lhld { .. } | Instruction::Sta { .. } | Instruction::Lda { .. } | Instruction::Xthl | Instruction::Push { .. } | Instruction::Pop { .. } => self.execute_memory(i),
            Instruction::Inr { .. } | Instruction::Dcr { .. } | Instruction::Rlc | Instruction::Rrc | Instruction::Ral | Instruction::Rar | Instruction::Dad { .. } | Instruction::Daa | Instruction::Cma | Instruction::Stc | Instruction::Cmc | Instruction::Add { .. } | Instruction::Adc { .. } | Instruction::Sub { .. } | Instruction::Sbb { .. } | Instruction::Ana { .. } | Instruction::Xra { .. } | Instruction::Ora { .. } | Instruction::Cmp { .. } | Instruction::Adi { .. } | Instruction::Aci { .. } | Instruction::Sui { .. } | Instruction::Sbi { .. } | Instruction::Ani { .. } | Instruction::Xri { .. } | Instruction::Ori { .. } | Instruction::Cpi { .. } => self.execute_arithmetic(i),
            _ => self.execute_control(i),
        }
    }

    /// Moves between registers.
    #[verifier::rlimit(100)]
    fn execute_registers(&mut self, i: Instruction) -> (r: Result<u16, EmulatorError>)
        requires
            old(self).wf(),
            i.wf(),
            is_register_transfer(i),
        ensures
            final(self).wf(),
            match execute_registers(old(self)@, i) {
                Ok((next, cost)) => r == Ok::<u16, EmulatorError>(cost) && final(self)@ == next,
                Err(e) => r == Err::<u16, EmulatorError>(e) && final(self)@ == old(self)@,
            },
    {
        match i {
            Instruction::Nop => {
                self.advance(1);
                Ok(4)
            },
            Instruction::Lxi { rp, data } => {
                self.set_register_pair(rp, data);
                self.advance(3);
                Ok(10)
            },
            Instruction::Inx { rp } => {
                let value = self.get_register_pair(rp);
                self.set_register_pair(rp, ((value as u32 + 1) % 0x10000) as u16);
                self.advance(1);
                Ok(5)
            },
            Instruction::Dcx { rp } => {
                let value = self.get_register_pair(rp);
                self.set_register_pair(rp, ((value as u32 + 0xffff) % 0x10000) as u16);
                self.advance(1);
                Ok(5)
            },
            Instruction::Mvi { reg, data } => {
                self.set_register(reg, data);
                self.advance(2);
                Ok(if reg == 6 { 10 } else { 7 })
            },
            Instruction::Mov { dst, src } => {
                self.move_register(dst, src);
                self.advance(1);
                Ok(if dst == 6 || src == 6 { 7 } else { 4 })
            },
            Instruction::Hlt => {
                self.advance(1);
                Ok(7)
            },
            Instruction::Xchg => {
                std::mem::swap(&mut self.cpu_state.de, &mut self.cpu_state.hl);
                self.advance(1);
                Ok(4)
            },
            Instruction::Sphl => {
                let hl = self.cpu_state.hl.get();
                self.cpu_state.sp.set(hl);
                self.advance(1);
                Ok(5)
            },
            // Excluded by the precondition.
            _ => Ok(0),
        }
    }

    /// Moves between registers, memory and the stack.
    #[verifier::rlimit(100)]
    fn execute_memory(&mut self, i: Instruction) -> (r: Result<u16, EmulatorError>)
        requires
            old(self).wf(),
            i.wf(),
            is_memory_transfer(i),
        ensures
            final(self).wf(),
            match execute_memory(old(self)@, i) {
                Ok((next, cost)) => r == Ok::<u16, EmulatorError>(cost) && final(self)@ == next,
                Err(e) => r == Err::<u16, EmulatorError>(e) && final(self)@ == old(self)@,
            },
    {
        match i {
            Instruction::Stax { rp } => {
                let address = self.get_register_pair(rp);
                let a = self.cpu_state.psw.a;
                self.memory.write8(address, a);
                self.advance(1);
                Ok(7)
            },
            Instruction::Ldax { rp } => {
                let address = self.get_register_pair(rp);
                self.cpu_state.psw.a = self.memory.read8(address);
                self.advance(1);
                Ok(7)
            },
            Instruction::Shld { exp } => {
                let hl = self.cpu_state.hl.get();
                self.memory.write16(exp, hl);
                self.advance(3);
                Ok(16)
            },
            Instruction::Lhld { exp } => {
                let value = self.memory.read16(exp);
                self.cpu_state.hl.set(value);
                self.advance(3);
                Ok(16)
            },
            Instruction::Sta { exp } => {
                let a = self.cpu_state.psw.a;
                self.memory.write8(exp, a);
                self.advance(3);
                Ok(13)
            },
            Instruction::Lda { exp } => {
                self.cpu_state.psw.a = self.memory.read8(exp);
                self.advance(3);
                Ok(13)
            },
            Instruction::Pop { rp } => {
                let value = self.read_sp();
                self.cpu_state.sp.add_assign(2);
                self.set_register_pair(rp, value);
                self.advance(1);
                Ok(10)
            },
            Instruction::Push { rp } => {
                let value = self.get_register_pair(rp);
                self.push(value);
                self.advance(1);
                Ok(11)
            },
            Instruction::Xthl => {
                let top = self.read_sp();
                let hl = self.cpu_state.hl.get();
                self.write_sp(hl);
                self.cpu_state.hl.set(top);
                self.advance(1);
                Ok(18)
            },
            // Excluded by the precondition.
            _ => Ok(0),
        }
    }

    /// Arithmetic, logic, rotates and carry operations.
    fn execute_arithmetic(&mut self, i: Instruction) -> (r: Result<u16, EmulatorError>)
        requires
            old(self).wf(),
            i.wf(),
            is_arithmetic(i),
        ensures
            final(self).wf(),
            match execute_arithmetic(old(self)@, i) {
                Ok((next, cost)) => r == Ok::<u16, EmulatorError>(cost) && final(self)@ == next,
                Err(e) => r == Err::<u16, EmulatorError>(e) && final(self)@ == old(self)@,
            },
    {
        match i {
            Instruction::Inr { reg } => {
                self.step_register(reg, true);
                self.advance(1);
                Ok(if reg == 6 { 10 } else { 5 })
            },
            Instruction::Dcr { reg } => {
                self.step_register(reg, false);
                self.advance(1);
                Ok(if reg == 6 { 10 } else { 5 })
            },
            Instruction::Rlc => {
                self.rotate_op(0);
                self.advance(1);
                Ok(4)
            },
            Instruction::Rrc => {
                self.rotate_op(1);
                self.advance(1);
                Ok(4)
            },
            Instruction::Ral => {
                self.rotate_op(2);
                self.advance(1);
                Ok(4)
            },
            Instruction::Rar => {
                self.rotate_op(3);
                self.advance(1);
                Ok(4)
            },
            Instruction::Dad { rp } => {
                let value = self.get_register_pair(rp);
                let sum: u32 = self.cpu_state.hl.get() as u32 + value as u32;
                self.cpu_state.hl.set((sum % 0x10000) as u16);
                self.cpu_state.psw.set_carry(
                    if sum > 0xffff {
                        1
                    } else {
                        0
                    },
                );
                self.advance(1);
                Ok(10)
            },
            Instruction::Daa => {
                let pc = self.cpu_state.pc.get();
                Err(EmulatorError::Unimplemented { pc, opcode: 0x27 })
            },
            Instruction::Cma => {
                self.cpu_state.psw.a = !self.cpu_state.psw.a;
                self.advance(1);
                Ok(4)
            },
            Instruction::Stc => {
                self.cpu_state.psw.set_carry(1);
                self.advance(1);
                Ok(4)
            },
            Instruction::Cmc => {
                let carry: u8 = if self.cpu_state.psw.is_carry_set() {
                    0
                } else {
                    1
                };
                self.cpu_state.psw.set_carry(carry);
                self.advance(1);
                Ok(4)
            },
            Instruction::Add { reg } => self.alu_register(0, reg),
            Instruction::Adc { reg } => self.alu_register(1, reg),
            Instruction::Sub { reg } => self.alu_register(2, reg),
            Instruction::Sbb { reg } => self.alu_register(3, reg),
            Instruction::Ana { reg } => self.alu_register(4, reg),
            Instruction::Xra { reg } => self.alu_register(5, reg),
            Instruction::Ora { reg } => self.alu_register(6, reg),
            Instruction::Cmp { reg } => self.alu_register(7, reg),
            Instruction::Adi { data } => self.alu_immediate(0, data),
            Instruction::Aci { data } => self.alu_immediate(1, data),
            Instruction::Sui { data } => self.alu_immediate(2, data),
            Instruction::Sbi { data } => self.alu_immediate(3, data),
            Instruction::Ani { data } => self.alu_immediate(4, data),
            Instruction::Xri { data } => self.alu_immediate(5, data),
            Instruction::Ori { data } => self.alu_immediate(6, data),
            Instruction::Cpi { data } => self.alu_immediate(7, data),
            // Excluded by the precondition.
            _ => Ok(0),
        }
    }

    /// Jumps, calls, returns, interrupt control and ports.
    #[verifier::rlimit(100)]
    fn execute_control(&mut self, i: Instruction) -> (r: Result<u16, EmulatorError>)
        requires
            old(self).wf(),
            i.wf(),
            is_control(i),
        ensures
            final(self).wf(),
            match execute_control(old(self)@, i) {
                Ok((next, cost)) => r == Ok::<u16, EmulatorError>(cost) && final(self)@ == next,
                Err(e) => r == Err::<u16, EmulatorError>(e) && final(self)@ == old(self)@,
            },
    {
        match i {
            Instruction::Rnz => self.return_on(0),
            Instruction::Rz => self.return_on(1),
            Instruction::Rnc => self.return_on(2),
            Instruction::Rc => self.return_on(3),
            Instruction::Rpo => self.return_on(4),
            Instruction::Rpe => self.return_on(5),
            Instruction::Rp => self.return_on(6),
            Instruction::Rm => self.return_on(7),
            Instruction::Ret => {
                let target = self.read_sp();
                self.cpu_state.pc.set(target);
                self.cpu_state.sp.add_assign(2);
                Ok(10)
            },
            Instruction::Jnz { exp } => self.jump_on(0, exp),
            Instruction::Jz { exp } => self.jump_on(1, exp),
            Instruction::Jnc { exp } => self.jump_on(2, exp),
            Instruction::Jc { exp } => self.jump_on(3, exp),
            Instruction::Jpo { exp } => self.jump_on(4, exp),
            Instruction::Jpe { exp } => self.jump_on(5, exp),
            Instruction::Jp { exp } => self.jump_on(6, exp),
            Instruction::Jm { exp } => self.jump_on(7, exp),
            Instruction::Jmp { exp } => Ok(self.jump_if(true, exp)),
            Instruction::Cnz { sub } => self.call_on(0, sub),
            Instruction::Cz { sub } => self.call_on(1, sub),
            Instruction::Cnc { sub } => self.call_on(2, sub),
            Instruction::Cc { sub } => self.call_on(3, sub),
            Instruction::Cpo { sub } => self.call_on(4, sub),
            Instruction::Cpe { sub } => self.call_on(5, sub),
            Instruction::Cp { sub } => self.call_on(6, sub),
            Instruction::Cm { sub } => self.call_on(7, sub),
            Instruction::Call { sub } => Ok(self.call_if(true, sub)),
            Instruction::Rst { exp } => {
                let pc = self.cpu_state.pc.get();
                self.push(pc);
                self.cpu_state.pc.set((exp * 8) as u16);
                Ok(11)
            },
            Instruction::Out { exp } => {
                let pc = self.cpu_state.pc.get();
                let a = self.cpu_state.psw.a;
                match self.io_ports.write(exp, a) {
                    Ok(()) => {
                        self.advance(2);
                        Ok(10)
                    },
                    Err(e) => Err(EmulatorError::InvalidPort { pc, port: e.port }),
                }
            },
            Instruction::In { exp } => {
                let pc = self.cpu_state.pc.get();
                match self.io_ports.read(exp) {
                    Ok(value) => {
                        self.cpu_state.psw.a = value;
                        self.advance(2);
                        Ok(10)
                    },
                    Err(e) => Err(EmulatorError::InvalidPort { pc, port: e.port }),
                }
            },
            Instruction::Pchl => {
                let hl = self.cpu_state.hl.get();
                self.cpu_state.pc.set(hl);
                Ok(5)
            },
            Instruction::Di => {
                self.cpu_state.inte = false;
                self.advance(1);
                Ok(4)
            },
            Instruction::Ei => {
                self.cpu_state.inte = true;
                self.advance(1);
                Ok(4)
            },
            // Excluded by the precondition.
            _ => Ok(0),
        }
    }

    fn move_register(&mut self, dst: u8, src: u8)
        requires
            old(self).wf(),
            dst < 8,
            src < 8,
        ensures
            final(self).wf(),
            final(self)@ == old(self)@.set_reg(dst, old(self)@.reg(src)),
    {
        let value = self.get_register(src);
        self.set_register(dst, value);
    }

    fn alu_register(&mut self, op: u8, reg: u8) -> (r: Result<u16, EmulatorError>)
        requires
            old(self).wf(),
            op < 8,
            reg < 8,
        ensures
            final(self).wf(),
            final(self)@ == old(self)@.alu_op(op, old(self)@.reg(reg)).advance(1),
            r == Ok::<u16, EmulatorError>(if reg == 6 { 7 } else { 4 }),
    {
        let x = self.get_register(reg);
        self.alu_op(op, x);
        self.advance(1);
        Ok(if reg == 6 { 7 } else { 4 })
    }

    fn alu_immediate(&mut self, op: u8, data: u8) -> (r: Result<u16, EmulatorError>)
        requires
            old(self).wf(),
            op < 8,
        ensures
            final(self).wf(),
            final(self)@ == old(self)@.alu_op(op, data).advance(2),
            r == Ok::<u16, EmulatorError>(7),
    {
        self.alu_op(op, data);
        self.advance(2);
        Ok(7)
    }

    fn jump_on(&mut self, cc: u8, target: u16) -> (r: Result<u16, EmulatorError>)
        requires
            old(self).wf(),
            cc < 8,
        ensures
            final(self).wf(),
            r == Ok::<u16, EmulatorError>(old(self)@.jump_if(old(self)@.condition(cc), target).1),
            final(self)@ == old(self)@.jump_if(old(self)@.condition(cc), target).0,
    {
        let taken = self.condition(cc);
        Ok(self.jump_if(taken, target))
    }

    fn call_on(&mut self, cc: u8, target: u16) -> (r: Result<u16, EmulatorError>)
        requires
            old(self).wf(),
            cc < 8,
        ensures
            final(self).wf(),
            r == Ok::<u16, EmulatorError>(old(self)@.call_if(old(self)@.condition(cc), target).1),
            final(self)@ == old(self)@.call_if(old(self)@.condition(cc), target).0,
    {
        let taken = self.condition(cc);
        Ok(self.call_if(taken, target))
    }

    fn return_on(&mut self, cc: u8) -> (r: Result<u16, EmulatorError>)
        requires
            old(self).wf(),
            cc < 8,
        ensures
            final(self).wf(),
            r == Ok::<u16, EmulatorError>(old(self)@.return_if(old(self)@.condition(cc)).1),
            final(self)@ == old(self)@.return_if(old(self)@.condition(cc)).0,
    {
        let taken = self.condition(cc);
        Ok(self.return_if(taken))
    }
    /// Fetches the three bytes at the program counter. A pending interrupt is
    /// taken off the scheduler; when interrupts are enabled its RST replaces
    /// the opcode and interrupts are disabled, else it is dropped.
    pub fn fetch(&mut self) -> (r: Vec<u8>)
        requires
            old(self).wf(),
        ensures
            final(self).wf(),
            (final(self)@, r@) == accept_interrupt(old(self)@),
    {
        let pc = self.cpu_state.pc.get();
        let mut instruction: Vec<u8> = Vec::new();
        instruction.push(self.memory.read8(pc));
        instruction.push(self.memory.read8(((pc as u32 + 1) % 0x10000) as u16));
        instruction.push(self.memory.read8(((pc as u32 + 2) % 0x10000) as u16));
        if self.interrupt_timers.interrupt {
            if self.cpu_state.inte {
                let number = self.interrupt_timers.number;
                instruction.set(0, 0b1100_0111u8 | (number << 3u8));
                self.cpu_state.inte = false;
            }
            self.interrupt_timers.interrupt = false;
        }
        proof {
            assert(instruction@ =~= accept_interrupt(old(self)@).1);
        }
        instruction
    }

    /// Decodes and runs the fetched bytes, then feeds the cycles it took to
    /// the interrupt sources and the cycle count. On an error nothing changes.
    pub fn execute_fetched(&mut self, instruction: &[u8]) -> (r: Result<Status, EmulatorError>)
        requires
            old(self).wf(),
        ensures
            final(self).wf(),
            (final(self)@, r) == run_fetched(old(self)@, instruction@),
    {
        let pc = self.cpu_state.pc.get();
        match decode(instruction) {
            Err(DecodeError::TooShort) => Err(EmulatorError::TooShort { pc }),
            Err(DecodeError::InvalidOpcode { opcode }) => Err(
                EmulatorError::InvalidOpcode { pc, opcode },
            ),
            Ok(i) => match self.execute(i) {
                Err(e) => Err(e),
                Ok(cost) => {
                    self.interrupt_timers.add_assign(cost);
                    self.cycles = self.cycles.wrapping_add(cost as u64);
                    if matches!(i, Instruction::Hlt) {
                        Ok(Status::Halted)
                    } else {
                        Ok(Status::Running)
                    }
                },
            },
        }
    }

    /// One fetch-decode-execute step.
    pub fn step(&mut self) -> (r: Result<Status, EmulatorError>)
        requires
            old(self).wf(),
        ensures
            final(self).wf(),
            (final(self)@, r) == step(old(self)@),
    {
        let instruction = self.fetch();
        self.execute_fetched(instruction.as_slice())
    }

    /// Runs until a HLT has run (`Ok`) or a step fails. The run is bounded by
    /// `u64::MAX` steps, after which it stops with `StepLimit`.
    pub fn run(&mut self) -> (r: Result<(), EmulatorError>)
        requires
            old(self).wf(),
        ensures
            final(self).wf(),
            (final(self)@, r) == run_from(old(self)@, u64::MAX as nat),
    {
        let mut fuel: u64 = u64::MAX;
        while fuel > 0
            invariant
                self.wf(),
                run_from(self@, fuel as nat) == run_from(old(self)@, u64::MAX as nat),
            decreases fuel,
        {
            match self.step() {
                Err(e) => {
                    return Err(e);
                },
                Ok(Status::Halted) => {
                    return Ok(());
                },
                Ok(Status::Running) => {},
            }
            fuel = fuel - 1;
        }
        Err(EmulatorError::StepLimit)
    }
}

} // verus!
