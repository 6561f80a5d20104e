use vstd::prelude::*;

use crate::decoder::{decoded, DecodeError};
use crate::flag::{flag_condition, flag_is_set, with_flag, Flag};
use crate::instruction::Instruction;
use crate::interrupt_timer::InterruptTimers;
use crate::io_ports::IOPorts;
use crate::memory::{mem_read16, mem_read8, mem_write16, mem_write8};
use crate::pointer_register::wrap_add16;
use crate::program_state_word::ProgramStateWord;
use crate::register_pair::RegisterPair;

verus! {

/// Why emulation stopped short of a HLT.
#[derive(Debug, Clone, Copy, PartialEq, Eq, Structural)]
pub enum EmulatorError {
    /// The bytes at `pc` are too few for the instruction they start.
    TooShort { pc: u16 },
    /// The byte at `pc` is not a defined opcode.
    InvalidOpcode { pc: u16, opcode: u8 },
    /// The instruction at `pc` reads or writes a port that is not wired.
    InvalidPort { pc: u16, port: u8 },
    /// The instruction at `pc` is one this emulator leaves out (DAA).
    Unimplemented { pc: u16, opcode: u8 },
    /// The run reached its bound on the number of instructions.
    StepLimit,
}

/// What one step did, when it did not fail.
#[derive(Debug, Clone, Copy, PartialEq, Eq, Structural)]
pub enum Status {
    /// An instruction other than HLT ran.
    Running,
    /// HLT ran: the program has stopped.
    Halted,
}

/// The whole emulated machine as a value: registers, memory image, ports,
/// interrupt sources and the count of cycles run.
pub struct Machine {
    pub bc: RegisterPair,
    pub de: RegisterPair,
    pub hl: RegisterPair,
    pub psw: ProgramStateWord,
    pub pc: u16,
    pub sp: u16,
    pub inte: bool,
    pub memory: Seq<u8>,
    pub ports: IOPorts,
    pub timers: InterruptTimers,
    pub cycles: u64,
}

/// The register pair that holds the 16-bit value `v`.
pub open spec fn pair_of(v: u16) -> RegisterPair {
    RegisterPair { rh: (v / 256) as u8, rl: (v % 256) as u8 }
}

/// The status byte with the parity, zero and sign flags set from `v`.
pub open spec fn zsp_flags(flags: u8, v: u8) -> u8 {
    let f1 = with_flag(flags, Flag::Parity.spec_mask(), flag_condition(Flag::Parity, v));
    let f2 = with_flag(f1, Flag::Zero.spec_mask(), flag_condition(Flag::Zero, v));
    with_flag(f2, Flag::Sign.spec_mask(), flag_condition(Flag::Sign, v))
}

/// The status byte with the carry flag set to `carry` and the other three set from `v`.
pub open spec fn arith_flags(flags: u8, v: u8, carry: bool) -> u8 {
    zsp_flags(with_flag(flags, Flag::Carry.spec_mask(), carry), v)
}

/// Result and carry out of the accumulator operation `op` (ADD, ADC, SUB,
/// SBB, ANA, XRA, ORA, CMP in that order) on `a` and `x` with carry in `c`.
pub open spec fn alu(op: u8, a: u8, x: u8, c: bool) -> (u8, bool) {
    let cin: int = if c { 1 } else { 0 };
    match op {
        0 => (((a + x) % 256) as u8, a + x > 255),
        1 => (((a + x + cin) % 256) as u8, a + x + cin > 255),
        2 => (((a - x + 256) % 256) as u8, a < x),
        3 => (((a - x - cin + 512) % 256) as u8, a < x + cin),
        4 => (a & x, false),
        5 => (a ^ x, false),
        6 => (a | x, false),
        _ => (((a - x + 256) % 256) as u8, a < x),
    }
}

/// Accumulator and carry out of the rotate `op` (RLC, RRC, RAL, RAR in that
/// order) on `a` with carry in `c`.
pub open spec fn rotate(op: u8, a: u8, c: bool) -> (u8, bool) {
    let cin: int = if c { 1 } else { 0 };
    match op {
        0 => (((a * 2) % 256 + a / 128) as u8, a >= 128),
        1 => ((a / 2 + (a % 2) * 128) as u8, a % 2 == 1),
        2 => (((a * 2) % 256 + cin) as u8, a >= 128),
        _ => ((a / 2 + cin * 128) as u8, a % 2 == 1),
    }
}

impl Machine {
    /// Register `r` in the 3-bit code B, C, D, E, H, L, M, A; M is the byte at HL.
    pub open spec fn reg(self, r: u8) -> u8 {
        match r {
            0 => self.bc.rh,
            1 => self.bc.rl,
            2 => self.de.rh,
            3 => self.de.rl,
            4 => self.hl.rh,
            5 => self.hl.rl,
            6 => mem_read8(self.memory, self.hl.spec_get()),
            _ => self.psw.a,
        }
    }

    pub open spec fn set_reg(self, r: u8, v: u8) -> Machine {
        match r {
            0 => Machine { bc: RegisterPair { rh: v, ..self.bc }, ..self },
            1 => Machine { bc: RegisterPair { rl: v, ..self.bc }, ..self },
            2 => Machine { de: RegisterPair { rh: v, ..self.de }, ..self },
            3 => Machine { de: RegisterPair { rl: v, ..self.de }, ..self },
            4 => Machine { hl: RegisterPair { rh: v, ..self.hl }, ..self },
            5 => Machine { hl: RegisterPair { rl: v, ..self.hl }, ..self },
            6 => Machine { memory: mem_write8(self.memory, self.hl.spec_get(), v), ..self },
            _ => Machine { psw: ProgramStateWord { a: v, ..self.psw }, ..self },
        }
    }

    /// Register pair `rp`: BC, DE, HL, SP, PSW.
    pub open spec fn pair(self, rp: u8) -> u16 {
        match rp {
            0 => self.bc.spec_get(),
            1 => self.de.spec_get(),
            2 => self.hl.spec_get(),
            3 => self.sp,
            _ => self.psw.spec_get(),
        }
    }

    pub open spec fn set_pair(self, rp: u8, v: u16) -> Machine {
        match rp {
            0 => Machine { bc: pair_of(v), ..self },
            1 => Machine { de: pair_of(v), ..self },
            2 => Machine { hl: pair_of(v), ..self },
            3 => Machine { sp: v, ..self },
            _ => Machine { psw: ProgramStateWord { flags: (v / 256) as u8, a: (v % 256) as u8 }, ..self },
        }
    }

    pub open spec fn with_flags(self, flags: u8) -> Machine {
        Machine { psw: ProgramStateWord { flags, ..self.psw }, ..self }
    }

    pub open spec fn carry(self) -> bool {
        flag_is_set(self.psw.flags, Flag::Carry.spec_mask())
    }

    /// Condition `cc` of the conditional jumps, calls and returns: NZ, Z, NC,
    /// C, PO, PE, P, M.
    pub open spec fn condition(self, cc: u8) -> bool {
        let f = self.psw.flags;
        match cc {
            0 => !flag_is_set(f, Flag::Zero.spec_mask()),
            1 => flag_is_set(f, Flag::Zero.spec_mask()),
            2 => !flag_is_set(f, Flag::Carry.spec_mask()),
            3 => flag_is_set(f, Flag::Carry.spec_mask()),
            4 => !flag_is_set(f, Flag::Parity.spec_mask()),
            5 => flag_is_set(f, Flag::Parity.spec_mask()),
            6 => !flag_is_set(f, Flag::Sign.spec_mask()),
            _ => flag_is_set(f, Flag::Sign.spec_mask()),
        }
    }

    /// The program counter moved on by `len` bytes.
    pub open spec fn advance(self, len: int) -> Machine {
        Machine { pc: wrap_add16(self.pc, len), ..self }
    }

    /// SP lowered by two, then `v` stored little-endian at the new SP.
    pub open spec fn push(self, v: u16) -> Machine {
        let sp = wrap_add16(self.sp, -2);
        Machine { sp, memory: mem_write16(self.memory, sp, v), ..self }
    }

    /// The word at SP.
    pub open spec fn top(self) -> u16 {
        mem_read16(self.memory, self.sp)
    }

    /// SP raised by two.
    pub open spec fn pop(self) -> Machine {
        Machine { sp: wrap_add16(self.sp, 2), ..self }
    }

    /// The accumulator operation `op` with operand `x`; CMP leaves A as it was.
    pub open spec fn alu_op(self, op: u8, x: u8) -> Machine {
        let (r, cy) = alu(op, self.psw.a, x, self.carry());
        Machine {
            psw: ProgramStateWord {
                a: if op == 7 { self.psw.a } else { r },
                flags: arith_flags(self.psw.flags, r, cy),
            },
            ..self
        }
    }

    /// The rotate `op`: only A and the carry flag change.
    pub open spec fn rotate_op(self, op: u8) -> Machine {
        let (r, cy) = rotate(op, self.psw.a, self.carry());
        Machine {
            psw: ProgramStateWord {
                a: r,
                flags: with_flag(self.psw.flags, Flag::Carry.spec_mask(), cy),
            },
            ..self
        }
    }

    /// INR (`delta` 1) or DCR (`delta` 255) on register `r`: C is kept.
    pub open spec fn step_reg(self, r: u8, delta: int) -> Machine {
        let v = ((self.reg(r) + delta) % 256) as u8;
        let m = self.set_reg(r, v);
        m.with_flags(zsp_flags(m.psw.flags, v))
    }

    /// A conditional jump: to `target` when taken, else past the three bytes.
    pub open spec fn jump_if(self, taken: bool, target: u16) -> (Machine, u16) {
        if taken {
            (Machine { pc: target, ..self }, 10)
        } else {
            (self.advance(3), 10)
        }
    }

    /// A conditional call: the return address is the instruction after it.
    pub open spec fn call_if(self, taken: bool, target: u16) -> (Machine, u16) {
        let m = self.advance(3);
        if taken {
            (Machine { pc: target, ..m.push(m.pc) }, 17)
        } else {
            (m, 11)
        }
    }

    /// A conditional return.
    pub open spec fn return_if(self, taken: bool) -> (Machine, u16) {
        if taken {
            (Machine { pc: self.top(), ..self.pop() }, 11)
        } else {
            (self.advance(1), 5)
        }
    }
}

/// Cost of an instruction whose register operand may be M.
pub open spec fn cost_m(r: u8, plain: u16, memory: u16) -> u16 {
    if r == 6 {
        memory
    } else {
        plain
    }
}

/// The effect of running `i` on `m`: the next machine (with the program
/// counter moved on) and the cycles it took, or why it cannot run.
#[verifier::opaque]
pub open spec fn execute(m: Machine, i: Instruction) -> Result<(Machine, u16), EmulatorError> {
    execute_registers(m, i)
}

/// Instructions that move data between registers.
pub open spec fn is_register_transfer(i: Instruction) -> bool {
    ||| i is Nop
    ||| i is Lxi
    ||| i is Inx
    ||| i is Dcx
    ||| i is Mvi
    ||| i is Mov
    ||| i is Hlt
    ||| i is Xchg
    ||| i is Sphl
}

/// Moves between registers; other instructions fall through to the next family.
pub open spec fn execute_registers(m: Machine, i: Instruction) -> Result<(Machine, u16), EmulatorError> {
    match i {
        Instruction::Nop => Ok((m.advance(1), 4)),
        Instruction::Lxi { rp, data } => Ok((m.set_pair(rp, data).advance(3), 10)),
        Instruction::Inx { rp } => Ok((m.set_pair(rp, wrap_add16(m.pair(rp), 1)).advance(1), 5)),
        Instruction::Dcx { rp } => Ok((m.set_pair(rp, wrap_add16(m.pair(rp), 0xffff)).advance(1), 5)),
        Instruction::Mvi { reg, data } => Ok((m.set_reg(reg, data).advance(2), cost_m(reg, 7, 10))),
        Instruction::Mov { dst, src } => Ok(
            (
                m.set_reg(dst, m.reg(src)).advance(1),
                if dst == 6 || src == 6 {
                    7
                } else {
                    4
                },
            ),
        ),
        Instruction::Hlt => Ok((m.advance(1), 7)),
        Instruction::Xchg => Ok((Machine { de: m.hl, hl: m.de, ..m }.advance(1), 4)),
        Instruction::Sphl => Ok((Machine { sp: m.hl.spec_get(), ..m }.advance(1), 5)),
        _ => execute_memory(m, i),
    }
}

/// Instructions that move data to or from memory.
pub open spec fn is_memory_transfer(i: Instruction) -> bool {
    ||| i is Stax
    ||| i is Ldax
    ||| i is Shld
    ||| i is Lhld
    ||| i is Sta
    ||| i is Lda
    ||| i is Xthl
    ||| i is Push
    ||| i is Pop
}

/// Moves to and from memory and the stack.
pub open spec fn execute_memory(m: Machine, i: Instruction) -> Result<(Machine, u16), EmulatorError> {
    match i {
        Instruction::Stax { rp } => Ok(
            (
                Machine { memory: mem_write8(m.memory, m.pair(rp), m.psw.a), ..m }.advance(1),
                7,
            ),
        ),
        Instruction::Ldax { rp } => Ok(
            (
                Machine {
                    psw: ProgramStateWord { a: mem_read8(m.memory, m.pair(rp)), ..m.psw },
                    ..m
                }.advance(1),
                7,
            ),
        ),
        Instruction::Shld { exp } => Ok(
            (
                Machine { memory: mem_write16(m.memory, exp, m.hl.spec_get()), ..m }.advance(3),
                16,
            ),
        ),
        Instruction::Lhld { exp } => Ok(
            (Machine { hl: pair_of(mem_read16(m.memory, exp)), ..m }.advance(3), 16),
        ),
        Instruction::Sta { exp } => Ok(
            (Machine { memory: mem_write8(m.memory, exp, m.psw.a), ..m }.advance(3), 13),
        ),
        Instruction::Lda { exp } => Ok(
            (
                Machine {
                    psw: ProgramStateWord { a: mem_read8(m.memory, exp), ..m.psw },
                    ..m
                }.advance(3),
                13,
            ),
        ),
        Instruction::Pop { rp } => Ok((m.pop().set_pair(rp, m.top()).advance(1), 10)),
        Instruction::Push { rp } => Ok((m.push(m.pair(rp)).advance(1), 11)),
        Instruction::Xthl => Ok(
            (
                Machine {
                    memory: mem_write16(m.memory, m.sp, m.hl.spec_get()),
                    hl: pair_of(m.top()),
                    ..m
                }.advance(1),
                18,
            ),
        ),
        _ => execute_arithmetic(m, i),
    }
}

/// Instructions that compute.
pub open spec fn is_arithmetic(i: Instruction) -> bool {
    ||| i is Inr
    ||| i is Dcr
    ||| i is Rlc
    ||| i is Rrc
    ||| i is Ral
    ||| i is Rar
    ||| i is Dad
    ||| i is Daa
    ||| i is Cma
    ||| i is Stc
    ||| i is Cmc
    ||| i is Add
    ||| i is Adc
    ||| i is Sub
    ||| i is Sbb
    ||| i is Ana
    ||| i is Xra
    ||| i is Ora
    ||| i is Cmp
    ||| i is Adi
    ||| i is Aci
    ||| i is Sui
    ||| i is Sbi
    ||| i is Ani
    ||| i is Xri
    ||| i is Ori
    ||| i is Cpi
}

/// Arithmetic, logic, rotates and carry operations.
pub open spec fn execute_arithmetic(m: Machine, i: Instruction) -> Result<(Machine, u16), EmulatorError> {
    match i {
        Instruction::Inr { reg } => Ok((m.step_reg(reg, 1).advance(1), cost_m(reg, 5, 10))),
        Instruction::Dcr { reg } => Ok((m.step_reg(reg, 255).advance(1), cost_m(reg, 5, 10))),
        Instruction::Rlc => Ok((m.rotate_op(0).advance(1), 4)),
        Instruction::Rrc => Ok((m.rotate_op(1).advance(1), 4)),
        Instruction::Ral => Ok((m.rotate_op(2).advance(1), 4)),
        Instruction::Rar => Ok((m.rotate_op(3).advance(1), 4)),
        Instruction::Dad { rp } => {
            let sum = m.hl.spec_get() + m.pair(rp);
            Ok(
                (
                    Machine { hl: pair_of((sum % 0x10000) as u16), ..m }.with_flags(
                        with_flag(m.psw.flags, Flag::Carry.spec_mask(), sum > 0xffff),
                    ).advance(1),
                    10,
                ),
            )
        },
        Instruction::Daa => Err(EmulatorError::Unimplemented { pc: m.pc, opcode: 0x27 }),
        Instruction::Cma => Ok(
            (Machine { psw: ProgramStateWord { a: !m.psw.a, ..m.psw }, ..m }.advance(1), 4),
        ),
        Instruction::Stc => Ok(
            (m.with_flags(with_flag(m.psw.flags, Flag::Carry.spec_mask(), true)).advance(1), 4),
        ),
        Instruction::Cmc => Ok(
            (
                m.with_flags(with_flag(m.psw.flags, Flag::Carry.spec_mask(), !m.carry())).advance(
                    1,
                ),
                4,
            ),
        ),
        Instruction::Add { reg } => Ok((m.alu_op(0, m.reg(reg)).advance(1), cost_m(reg, 4, 7))),
        Instruction::Adc { reg } => Ok((m.alu_op(1, m.reg(reg)).advance(1), cost_m(reg, 4, 7))),
        Instruction::Sub { reg } => Ok((m.alu_op(2, m.reg(reg)).advance(1), cost_m(reg, 4, 7))),
        Instruction::Sbb { reg } => Ok((m.alu_op(3, m.reg(reg)).advance(1), cost_m(reg, 4, 7))),
        Instruction::Ana { reg } => Ok((m.alu_op(4, m.reg(reg)).advance(1), cost_m(reg, 4, 7))),
        Instruction::Xra { reg } => Ok((m.alu_op(5, m.reg(reg)).advance(1), cost_m(reg, 4, 7))),
        Instruction::Ora { reg } => Ok((m.alu_op(6, m.reg(reg)).advance(1), cost_m(reg, 4, 7))),
        Instruction::Cmp { reg } => Ok((m.alu_op(7, m.reg(reg)).advance(1), cost_m(reg, 4, 7))),
        Instruction::Adi { data } => Ok((m.alu_op(0, data).advance(2), 7)),
        Instruction::Aci { data } => Ok((m.alu_op(1, data).advance(2), 7)),
        Instruction::Sui { data } => Ok((m.alu_op(2, data).advance(2), 7)),
        Instruction::Sbi { data } => Ok((m.alu_op(3, data).advance(2), 7)),
        Instruction::Ani { data } => Ok((m.alu_op(4, data).advance(2), 7)),
        Instruction::Xri { data } => Ok((m.alu_op(5, data).advance(2), 7)),
        Instruction::Ori { data } => Ok((m.alu_op(6, data).advance(2), 7)),
        Instruction::Cpi { data } => Ok((m.alu_op(7, data).advance(2), 7)),
        _ => execute_control(m, i),
    }
}

/// Instructions that transfer control or touch ports and interrupts.
pub open spec fn is_control(i: Instruction) -> bool {
    ||| i is Rnz
    ||| i is Rz
    ||| i is Rnc
    ||| i is Rc
    ||| i is Rpo
    ||| i is Rpe
    ||| i is Rp
    ||| i is Rm
    ||| i is Ret
    ||| i is Jnz
    ||| i is Jz
    ||| i is Jnc
    ||| i is Jc
    ||| i is Jpo
    ||| i is Jpe
    ||| i is Jp
    ||| i is Jm
    ||| i is Jmp
    ||| i is Cnz
    ||| i is Cz
    ||| i is Cnc
    ||| i is Cc
    ||| i is Cpo
    ||| i is Cpe
    ||| i is Cp
    ||| i is Cm
    ||| i is Call
    ||| i is Rst
    ||| i is Out
    ||| i is In
    ||| i is Pchl
    ||| i is Di
    ||| i is Ei
}

/// Jumps, calls, returns, interrupt control and ports.
pub open spec fn execute_control(m: Machine, i: Instruction) -> Result<(Machine, u16), EmulatorError> {
    match i {
        Instruction::Rnz => Ok(m.return_if(m.condition(0))),
        Instruction::Rz => Ok(m.return_if(m.condition(1))),
        Instruction::Rnc => Ok(m.return_if(m.condition(2))),
        Instruction::Rc => Ok(m.return_if(m.condition(3))),
        Instruction::Rpo => Ok(m.return_if(m.condition(4))),
        Instruction::Rpe => Ok(m.return_if(m.condition(5))),
        Instruction::Rp => Ok(m.return_if(m.condition(6))),
        Instruction::Rm => Ok(m.return_if(m.condition(7))),
        Instruction::Ret => Ok((Machine { pc: m.top(), ..m.pop() }, 10)),
        Instruction::Jnz { exp } => Ok(m.jump_if(m.condition(0), exp)),
        Instruction::Jz { exp } => Ok(m.jump_if(m.condition(1), exp)),
        Instruction::Jnc { exp } => Ok(m.jump_if(m.condition(2), exp)),
        Instruction::Jc { exp } => Ok(m.jump_if(m.condition(3), exp)),
        Instruction::Jpo { exp } => Ok(m.jump_if(m.condition(4), exp)),
        Instruction::Jpe { exp } => Ok(m.jump_if(m.condition(5), exp)),
        Instruction::Jp { exp } => Ok(m.jump_if(m.condition(6), exp)),
        Instruction::Jm { exp } => Ok(m.jump_if(m.condition(7), exp)),
        Instruction::Jmp { exp } => Ok(m.jump_if(true, exp)),
        Instruction::Cnz { sub } => Ok(m.call_if(m.condition(0), sub)),
        Instruction::Cz { sub } => Ok(m.call_if(m.condition(1), sub)),
        Instruction::Cnc { sub } => Ok(m.call_if(m.condition(2), sub)),
        Instruction::Cc { sub } => Ok(m.call_if(m.condition(3), sub)),
        Instruction::Cpo { sub } => Ok(m.call_if(m.condition(4), sub)),
        Instruction::Cpe { sub } => Ok(m.call_if(m.condition(5), sub)),
        Instruction::Cp { sub } => Ok(m.call_if(m.condition(6), sub)),
        Instruction::Cm { sub } => Ok(m.call_if(m.condition(7), sub)),
        Instruction::Call { sub } => Ok(m.call_if(true, sub)),
        Instruction::Rst { exp } => Ok((Machine { pc: (exp * 8) as u16, ..m.push(m.pc) }, 11)),
        Instruction::Out { exp } => match m.ports.spec_write(exp, m.psw.a) {
            Some(ports) => Ok((Machine { ports, ..m }.advance(2), 10)),
            None => Err(EmulatorError::InvalidPort { pc: m.pc, port: exp }),
        },
        Instruction::In { exp } => match m.ports.spec_read(exp) {
            Some(v) => Ok(
                (Machine { psw: ProgramStateWord { a: v, ..m.psw }, ..m }.advance(2), 10),
            ),
            None => Err(EmulatorError::InvalidPort { pc: m.pc, port: exp }),
        },
        Instruction::Pchl => Ok((Machine { pc: m.hl.spec_get(), ..m }, 5)),
        Instruction::Di => Ok((Machine { inte: false, ..m }.advance(1), 4)),
        Instruction::Ei => Ok((Machine { inte: true, ..m }.advance(1), 4)),
        // Every instruction belongs to one of the families before this one.
        _ => Err(EmulatorError::InvalidOpcode { pc: m.pc, opcode: i.opcode() as u8 }),
    }
}

/// The three bytes from the program counter on.
pub open spec fn fetched(m: Machine) -> Seq<u8> {
    seq![
        mem_read8(m.memory, m.pc),
        mem_read8(m.memory, wrap_add16(m.pc, 1)),
        mem_read8(m.memory, wrap_add16(m.pc, 2)),
    ]
}

/// The RST opcode that delivers interrupt `number`.
pub open spec fn interrupt_opcode(number: u8) -> u8 {
    0b1100_0111u8 | ((number << 3u8) as u8)
}

/// The machine and the fetched bytes after the interrupt check: a pending
/// interrupt is always taken off the scheduler; when interrupts are enabled
/// it also replaces the opcode with its RST and disables them.
pub open spec fn accept_interrupt(m: Machine) -> (Machine, Seq<u8>) {
    let bytes = fetched(m);
    if m.timers.interrupt {
        let timers = InterruptTimers { interrupt: false, ..m.timers };
        if m.inte {
            (
                Machine { inte: false, timers, ..m },
                bytes.update(0, interrupt_opcode(m.timers.number)),
            )
        } else {
            (Machine { timers, ..m }, bytes)
        }
    } else {
        (m, bytes)
    }
}

/// `cost` cycles fed to the interrupt sources and to the cycle count.
pub open spec fn tick(m: Machine, cost: u16) -> Machine {
    Machine {
        timers: m.timers.spec_add(cost),
        cycles: ((m.cycles + cost) % 0x1_0000_0000_0000_0000int) as u64,
        ..m
    }
}

/// Decodes and runs the fetched `bytes` on `m`: the machine after it and
/// what it reports. On a failure the machine is unchanged.
pub open spec fn run_fetched(m: Machine, bytes: Seq<u8>) -> (Machine, Result<Status, EmulatorError>) {
    match decoded(bytes) {
        Err(DecodeError::TooShort) => (m, Err(EmulatorError::TooShort { pc: m.pc })),
        Err(DecodeError::InvalidOpcode { opcode }) => (
            m,
            Err(EmulatorError::InvalidOpcode { pc: m.pc, opcode }),
        ),
        Ok(i) => match execute(m, i) {
            Err(e) => (m, Err(e)),
            Ok((next, cost)) => (
                tick(next, cost),
                Ok(
                    if i == Instruction::Hlt {
                        Status::Halted
                    } else {
                        Status::Running
                    },
                ),
            ),
        },
    }
}

/// One fetch-decode-execute step from `m`: the machine after it and what it
/// reports. On a failure the machine is as the interrupt check left it.
pub open spec fn step(m: Machine) -> (Machine, Result<Status, EmulatorError>) {
    let (m1, bytes) = accept_interrupt(m);
    run_fetched(m1, bytes)
}

/// Steps from `m` until a HLT runs, a step fails, or `fuel` steps have run.
pub open spec fn run_from(m: Machine, fuel: nat) -> (Machine, Result<(), EmulatorError>)
    decreases fuel,
{
    if fuel == 0 {
        (m, Err(EmulatorError::StepLimit))
    } else {
        let (m1, r) = step(m);
        match r {
            Err(e) => (m1, Err(e)),
            Ok(Status::Halted) => (m1, Ok(())),
            Ok(Status::Running) => run_from(m1, (fuel - 1) as nat),
        }
    }
}

} // verus!
