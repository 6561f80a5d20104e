use vstd::prelude::*;

use crate::decoder::{decoded, decodes, DecodeError};
use crate::flag::{even_parity, flag_is_set, with_flag, Flag};
use crate::instruction::{is_defined, is_stack_pair, opcode_len, Instruction};
use crate::machine::{alu, arith_flags, execute, pair_of, zsp_flags, EmulatorError, Machine};
use crate::memory::{mem_read16, mem_read8, mem_write16, mem_write8, slot, MEMORY_SIZE};
use crate::pointer_register::wrap_add16;
use crate::program_state_word::ProgramStateWord;

verus! {

/// Setting or clearing one flag bit makes it read back as set or clear and
/// leaves the other three flag bits as they were.
proof fn lemma_with_flag(f: u8, on: bool)
    ensures
        flag_is_set(with_flag(f, 1, on), 1) == on,
        flag_is_set(with_flag(f, 4, on), 4) == on,
        flag_is_set(with_flag(f, 64, on), 64) == on,
        flag_is_set(with_flag(f, 128, on), 128) == on,
        flag_is_set(with_flag(f, 1, on), 4) == flag_is_set(f, 4),
        flag_is_set(with_flag(f, 1, on), 64) == flag_is_set(f, 64),
        flag_is_set(with_flag(f, 1, on), 128) == flag_is_set(f, 128),
        flag_is_set(with_flag(f, 4, on), 1) == flag_is_set(f, 1),
        flag_is_set(with_flag(f, 4, on), 64) == flag_is_set(f, 64),
        flag_is_set(with_flag(f, 4, on), 128) == flag_is_set(f, 128),
        flag_is_set(with_flag(f, 64, on), 1) == flag_is_set(f, 1),
        flag_is_set(with_flag(f, 64, on), 4) == flag_is_set(f, 4),
        flag_is_set(with_flag(f, 64, on), 128) == flag_is_set(f, 128),
        flag_is_set(with_flag(f, 128, on), 1) == flag_is_set(f, 1),
        flag_is_set(with_flag(f, 128, on), 4) == flag_is_set(f, 4),
        flag_is_set(with_flag(f, 128, on), 64) == flag_is_set(f, 64),
{
    assert(on ==> (f | 1u8) & 1u8 != 0 && (f | 4u8) & 4u8 != 0 && (f | 64u8) & 64u8 != 0 && (f
        | 128u8) & 128u8 != 0) by (bit_vector);
    assert(!on ==> (f & !1u8) & 1u8 == 0 && (f & !4u8) & 4u8 == 0 && (f & !64u8) & 64u8 == 0 && (f
        & !128u8) & 128u8 == 0) by (bit_vector);
    assert(((f | 1u8) & 4u8 != 0) == (f & 4u8 != 0) && ((f | 1u8) & 64u8 != 0) == (f & 64u8 != 0)
        && ((f | 1u8) & 128u8 != 0) == (f & 128u8 != 0) && ((f & !1u8) & 4u8 != 0) == (f & 4u8
        != 0) && ((f & !1u8) & 64u8 != 0) == (f & 64u8 != 0) && ((f & !1u8) & 128u8 != 0) == (f
        & 128u8 != 0)) by (bit_vector);
    assert(((f | 4u8) & 1u8 != 0) == (f & 1u8 != 0) && ((f | 4u8) & 64u8 != 0) == (f & 64u8 != 0)
        && ((f | 4u8) & 128u8 != 0) == (f & 128u8 != 0) && ((f & !4u8) & 1u8 != 0) == (f & 1u8
        != 0) && ((f & !4u8) & 64u8 != 0) == (f & 64u8 != 0) && ((f & !4u8) & 128u8 != 0) == (f
        & 128u8 != 0)) by (bit_vector);
    assert(((f | 64u8) & 1u8 != 0) == (f & 1u8 != 0) && ((f | 64u8) & 4u8 != 0) == (f & 4u8 != 0)
        && ((f | 64u8) & 128u8 != 0) == (f & 128u8 != 0) && ((f & !64u8) & 1u8 != 0) == (f & 1u8
        != 0) && ((f & !64u8) & 4u8 != 0) == (f & 4u8 != 0) && ((f & !64u8) & 128u8 != 0) == (f
        & 128u8 != 0)) by (bit_vector);
    assert(((f | 128u8) & 1u8 != 0) == (f & 1u8 != 0) && ((f | 128u8) & 4u8 != 0) == (f & 4u8
        != 0) && ((f | 128u8) & 64u8 != 0) == (f & 64u8 != 0) && ((f & !128u8) & 1u8 != 0) == (f
        & 1u8 != 0) && ((f & !128u8) & 4u8 != 0) == (f & 4u8 != 0) && ((f & !128u8) & 64u8 != 0)
        == (f & 64u8 != 0)) by (bit_vector);
}

/// After an arithmetic or logic result `v` is stored, the zero flag says
/// whether `v` is zero, the sign flag is bit 7 of `v`, the parity flag says
/// whether `v` has an even number of one bits, and the carry flag is the
/// carry out; INR and DCR set the first three the same way and keep the carry.
pub proof fn lemma_result_flags(flags: u8, v: u8, carry: bool)
    ensures
        flag_is_set(arith_flags(flags, v, carry), Flag::Zero.spec_mask()) == (v == 0),
        flag_is_set(arith_flags(flags, v, carry), Flag::Sign.spec_mask()) == (v & 0x80 != 0),
        flag_is_set(arith_flags(flags, v, carry), Flag::Parity.spec_mask()) == even_parity(v),
        flag_is_set(arith_flags(flags, v, carry), Flag::Carry.spec_mask()) == carry,
        flag_is_set(zsp_flags(flags, v), Flag::Zero.spec_mask()) == (v == 0),
        flag_is_set(zsp_flags(flags, v), Flag::Sign.spec_mask()) == (v & 0x80 != 0),
        flag_is_set(zsp_flags(flags, v), Flag::Parity.spec_mask()) == even_parity(v),
        flag_is_set(zsp_flags(flags, v), Flag::Carry.spec_mask()) == flag_is_set(
            flags,
            Flag::Carry.spec_mask(),
        ),
{
    assert((v & 0x80 != 0) == (v >= 0x80)) by (bit_vector);
    let fc = with_flag(flags, 1, carry);
    lemma_with_flag(flags, carry);
    let f1 = with_flag(fc, 4, even_parity(v));
    let f2 = with_flag(f1, 64, v == 0);
    lemma_with_flag(fc, even_parity(v));
    lemma_with_flag(f1, v == 0);
    lemma_with_flag(f2, v >= 0x80);
    let g1 = with_flag(flags, 4, even_parity(v));
    let g2 = with_flag(g1, 64, v == 0);
    lemma_with_flag(g1, v == 0);
    lemma_with_flag(g2, v >= 0x80);
    lemma_with_flag(flags, even_parity(v));
}

/// Two neighbouring addresses never share a byte of the image.
proof fn lemma_slots_differ(address: u16)
    ensures
        slot(address as int) != slot(address + 1),
        0 <= slot(address as int) < MEMORY_SIZE,
        0 <= slot(address + 1) < MEMORY_SIZE,
{
}

/// A byte written at `address` reads back from `address`.
pub proof fn lemma_write8_read8(m: Seq<u8>, address: u16, x: u8)
    requires
        m.len() == MEMORY_SIZE,
    ensures
        mem_read8(mem_write8(m, address, x), address) == x,
        mem_write8(m, address, x).len() == MEMORY_SIZE,
{
    lemma_slots_differ(address);
}

/// A word written at `address` reads back from `address`, stored low byte
/// first: the low byte at `address`, the high byte at the next address.
pub proof fn lemma_write16_read16(m: Seq<u8>, address: u16, v: u16)
    requires
        m.len() == MEMORY_SIZE,
    ensures
        mem_read16(mem_write16(m, address, v), address) == v,
        mem_read8(mem_write16(m, address, v), address) == v % 256,
        mem_read8(mem_write16(m, address, v), ((address + 1) % 0x10000) as u16) == v / 256,
        mem_write16(m, address, v).len() == MEMORY_SIZE,
{
    lemma_slots_differ(address);
    assert(slot(((address + 1) % 0x10000) as u16 as int) == slot(address + 1));
}

/// Two wrapping advances of a 16-bit value add up.
proof fn lemma_wrap_add16_twice(v: u16, a: int, b: int)
    requires
        0 <= a < 0x10000,
        0 <= b < 0x10000,
    ensures
        wrap_add16(wrap_add16(v, a), b) == wrap_add16(v, a + b),
{
    let s = v + a;
    if s >= 0x10000 {
        assert(wrap_add16(v, a) == s - 0x10000);
    } else {
        assert(wrap_add16(v, a) == s);
    }
    assert(wrap_add16(wrap_add16(v, a), b) == (s + b) % 0x10000);
}

/// The machine after running `i`, or `m` itself where `i` cannot run.
pub open spec fn after(m: Machine, i: Instruction) -> Machine {
    match execute(m, i) {
        Ok((next, _)) => next,
        Err(_) => m,
    }
}

/// The accumulator operations store their result in A (CMP leaves A alone)
/// and set the zero, sign and parity flags from that result and the carry
/// flag from its carry out.
pub proof fn lemma_alu_flags(m: Machine, op: u8, x: u8)
    requires
        op < 8,
    ensures
        ({
            let (r, cy) = alu(op, m.psw.a, x, m.carry());
            let f = m.alu_op(op, x).psw.flags;
            &&& flag_is_set(f, Flag::Zero.spec_mask()) == (r == 0)
            &&& flag_is_set(f, Flag::Sign.spec_mask()) == (r & 0x80 != 0)
            &&& flag_is_set(f, Flag::Parity.spec_mask()) == even_parity(r)
            &&& flag_is_set(f, Flag::Carry.spec_mask()) == cy
            &&& m.alu_op(op, x).psw.a == (if op == 7 { m.psw.a } else { r })
        }),
{
    let (r, cy) = alu(op, m.psw.a, x, m.carry());
    lemma_result_flags(m.psw.flags, r, cy);
}

/// INR and DCR set the zero, sign and parity flags from the new register
/// value and keep the carry flag.
pub proof fn lemma_step_reg_flags(m: Machine, r: u8, delta: int)
    requires
        r < 8,
        m.memory.len() == MEMORY_SIZE,
    ensures
        ({
            let v = ((m.reg(r) + delta) % 256) as u8;
            let n = m.step_reg(r, delta);
            &&& n.reg(r) == v
            &&& flag_is_set(n.psw.flags, Flag::Zero.spec_mask()) == (v == 0)
            &&& flag_is_set(n.psw.flags, Flag::Sign.spec_mask()) == (v & 0x80 != 0)
            &&& flag_is_set(n.psw.flags, Flag::Parity.spec_mask()) == even_parity(v)
            &&& n.carry() == m.carry()
        }),
{
    let v = ((m.reg(r) + delta) % 256) as u8;
    lemma_result_flags(m.set_reg(r, v).psw.flags, v, false);
    lemma_write8_read8(m.memory, m.hl.spec_get(), v);
}

/// A register pair set to `v` reads back as `v`; a word pushed is the word
/// on top of the stack.
pub proof fn lemma_pair_round_trip(m: Machine, rp: u8, v: u16)
    requires
        rp < 5,
        m.memory.len() == MEMORY_SIZE,
    ensures
        m.set_pair(rp, v).pair(rp) == v,
        m.push(v).top() == v,
{
    lemma_write16_read16(m.memory, wrap_add16(m.sp, -2), v);
}

/// A push then a pop leaves SP where it was and changes memory only in the
/// two bytes of the pushed word.
pub proof fn lemma_push_pop(m: Machine, v: u16)
    requires
        m.memory.len() == MEMORY_SIZE,
    ensures
        m.push(v).pop().sp == m.sp,
        m.push(v).pop().memory.len() == MEMORY_SIZE,
        forall|i: int|
            0 <= i < MEMORY_SIZE && i != slot(wrap_add16(m.sp, -2) as int) && i != slot(
                wrap_add16(m.sp, -2) + 1,
            ) ==> #[trigger] m.push(v).pop().memory[i] == m.memory[i],
{
}

/// Lowering a 16-bit value by two and raising it by two gives it back.
proof fn lemma_down_up(v: u16)
    ensures
        wrap_add16(wrap_add16(v, -2), 2) == v,
{
    if v >= 2 {
        assert(wrap_add16(v, -2) == v - 2);
    } else {
        assert(wrap_add16(v, -2) == v + 0xfffe);
    }
}

proof fn lemma_execute_push(m: Machine, rp: u8)
    ensures
        execute(m, Instruction::Push { rp }) == Ok::<(Machine, u16), EmulatorError>(
            (m.push(m.pair(rp)).advance(1), 11u16),
        ),
{
    reveal(execute);
}

proof fn lemma_execute_pop(m: Machine, rp: u8)
    ensures
        execute(m, Instruction::Pop { rp }) == Ok::<(Machine, u16), EmulatorError>(
            (m.pop().set_pair(rp, m.top()).advance(1), 10u16),
        ),
{
    reveal(execute);
}

/// PUSH then POP of the same pair gives back the pair and SP; only the
/// program counter and the two bytes below SP differ from before.
pub proof fn lemma_push_pop_instructions(m: Machine, rp: u8)
    requires
        is_stack_pair(rp),
        m.memory.len() == MEMORY_SIZE,
    ensures
        execute(m, Instruction::Push { rp }) is Ok,
        execute(after(m, Instruction::Push { rp }), Instruction::Pop { rp }) is Ok,
        ({
            let n = after(after(m, Instruction::Push { rp }), Instruction::Pop { rp });
            &&& n.pair(rp) == m.pair(rp)
            &&& n == Machine { pc: wrap_add16(m.pc, 2), memory: n.memory, ..m }
            &&& n.memory.len() == MEMORY_SIZE
            &&& forall|i: int|
                0 <= i < MEMORY_SIZE && i != slot(wrap_add16(m.sp, -2) as int) && i != slot(
                    wrap_add16(m.sp, -2) + 1,
                ) ==> #[trigger] n.memory[i] == m.memory[i]
        }),
{
    let v = m.pair(rp);
    lemma_pair_round_trip(m, rp, v);
    lemma_wrap_add16_twice(m.pc, 1, 1);
    lemma_down_up(m.sp);
    let p = m.push(v).advance(1);
    lemma_execute_push(m, rp);
    assert(p.top() == v);
    let n = p.pop().set_pair(rp, v).advance(1);
    lemma_execute_pop(p, rp);
    assert(n.pair(rp) == v);
    assert(n.sp == m.sp);
    assert(n.bc == m.bc);
    assert(n.de == m.de);
    assert(n.hl == m.hl);
    assert(n.psw == m.psw);
}

/// MOV from a register to itself changes nothing but the program counter.
pub proof fn lemma_mov_same_register(m: Machine, r: u8)
    requires
        r < 8,
        r != 6,
    ensures
        execute(m, Instruction::Mov { dst: r, src: r }) == Ok::<(Machine, u16), EmulatorError>(
            (m.advance(1), 4u16),
        ),
{
    reveal(execute);
    assert(m.set_reg(r, m.reg(r)) == m);
}

/// XCHG twice gives back DE and HL: only the program counter moves.
pub proof fn lemma_xchg_twice(m: Machine)
    ensures
        execute(m, Instruction::Xchg) is Ok,
        after(after(m, Instruction::Xchg), Instruction::Xchg) == m.advance(2),
{
    reveal(execute);
    let once = Machine { de: m.hl, hl: m.de, ..m }.advance(1);
    assert(after(m, Instruction::Xchg) == once);
    assert(after(once, Instruction::Xchg) == Machine { de: once.hl, hl: once.de, ..once }.advance(1));
    lemma_wrap_add16_twice(m.pc, 1, 1);
}

proof fn lemma_execute_xthl(m: Machine)
    ensures
        execute(m, Instruction::Xthl) == Ok::<(Machine, u16), EmulatorError>(
            (
                Machine {
                    memory: mem_write16(m.memory, m.sp, m.hl.spec_get()),
                    hl: pair_of(m.top()),
                    ..m
                }.advance(1),
                18u16,
            ),
        ),
{
    reveal(execute);
}

/// XTHL twice gives back HL and the word at SP: only the program counter moves.
pub proof fn lemma_xthl_twice(m: Machine)
    requires
        m.memory.len() == MEMORY_SIZE,
    ensures
        execute(m, Instruction::Xthl) is Ok,
        after(after(m, Instruction::Xthl), Instruction::Xthl) == m.advance(2),
{
    lemma_wrap_add16_twice(m.pc, 1, 1);
    lemma_execute_xthl(m);
    let once = after(m, Instruction::Xthl);
    lemma_write16_read16(m.memory, m.sp, m.hl.spec_get());
    assert(once.top() == m.hl.spec_get());
    lemma_execute_xthl(once);
    let twice = after(once, Instruction::Xthl);
    lemma_slots_differ(m.sp);
    assert(twice.memory =~= m.memory);
    assert(twice.hl == m.hl);
}

/// CMA twice gives back A: only the program counter moves.
pub proof fn lemma_cma_twice(m: Machine)
    ensures
        execute(m, Instruction::Cma) is Ok,
        after(after(m, Instruction::Cma), Instruction::Cma) == m.advance(2),
{
    reveal(execute);
    let a = m.psw.a;
    assert(!(!a) == a) by (bit_vector);
    let once = Machine { psw: ProgramStateWord { a: !a, ..m.psw }, ..m }.advance(1);
    assert(after(m, Instruction::Cma) == once);
    assert(after(once, Instruction::Cma) == Machine {
        psw: ProgramStateWord { a: !once.psw.a, ..once.psw },
        ..once
    }.advance(1));
    lemma_wrap_add16_twice(m.pc, 1, 1);
}

/// Four right rotations then four left rotations give back the byte; the
/// bit that the last left rotation moves out is bit 0 of the byte.
proof fn lemma_rotations(a: u8)
    ensures
        ({
            let a1 = (a / 2 + (a % 2) * 128) as u8;
            let a2 = (a1 / 2 + (a1 % 2) * 128) as u8;
            let a3 = (a2 / 2 + (a2 % 2) * 128) as u8;
            let a4 = (a3 / 2 + (a3 % 2) * 128) as u8;
            let b1 = ((a4 * 2) % 256 + a4 / 128) as u8;
            let b2 = ((b1 * 2) % 256 + b1 / 128) as u8;
            let b3 = ((b2 * 2) % 256 + b2 / 128) as u8;
            let b4 = ((b3 * 2) % 256 + b3 / 128) as u8;
            b4 == a && (b3 >= 128) == (a % 2 == 1)
        }),
{
    assert({
        let a1 = (a / 2 + (a % 2) * 128) as u8;
        let a2 = (a1 / 2 + (a1 % 2) * 128) as u8;
        let a3 = (a2 / 2 + (a2 % 2) * 128) as u8;
        let a4 = (a3 / 2 + (a3 % 2) * 128) as u8;
        let b1 = ((a4 * 2) % 256 + a4 / 128) as u8;
        let b2 = ((b1 * 2) % 256 + b1 / 128) as u8;
        let b3 = ((b2 * 2) % 256 + b2 / 128) as u8;
        let b4 = ((b3 * 2) % 256 + b3 / 128) as u8;
        b4 == a && (b3 >= 128) == (a % 2 == 1)
    }) by (bit_vector);
}

proof fn lemma_execute_rotate(m: Machine)
    ensures
        execute(m, Instruction::Rlc) == Ok::<(Machine, u16), EmulatorError>(
            (m.rotate_op(0).advance(1), 4u16),
        ),
        execute(m, Instruction::Rrc) == Ok::<(Machine, u16), EmulatorError>(
            (m.rotate_op(1).advance(1), 4u16),
        ),
{
    reveal(execute);
}

/// The machine after four RRC and then four RLC.
pub open spec fn rotated_out_and_back(m: Machine) -> Machine {
    let r1 = after(m, Instruction::Rrc);
    let r2 = after(r1, Instruction::Rrc);
    let r3 = after(r2, Instruction::Rrc);
    let r4 = after(r3, Instruction::Rrc);
    let l1 = after(r4, Instruction::Rlc);
    let l2 = after(l1, Instruction::Rlc);
    let l3 = after(l2, Instruction::Rlc);
    after(l3, Instruction::Rlc)
}

/// Four RRC then four RLC give back A. They give back the carry flag too
/// when it starts equal to bit 0 of A, the bit the last RLC moves out; with
/// the other start value of the carry they cannot, so that case is left out.
pub proof fn lemma_rotate_round_trip(m: Machine)
    requires
        m.carry() == (m.psw.a % 2 == 1),
    ensures
        rotated_out_and_back(m).psw.a == m.psw.a,
        rotated_out_and_back(m).carry() == m.carry(),
{
    let r1 = after(m, Instruction::Rrc);
    let r2 = after(r1, Instruction::Rrc);
    let r3 = after(r2, Instruction::Rrc);
    let r4 = after(r3, Instruction::Rrc);
    let l1 = after(r4, Instruction::Rlc);
    let l2 = after(l1, Instruction::Rlc);
    let l3 = after(l2, Instruction::Rlc);
    let l4 = after(l3, Instruction::Rlc);
    lemma_execute_rotate(m);
    lemma_execute_rotate(r1);
    lemma_execute_rotate(r2);
    lemma_execute_rotate(r3);
    lemma_execute_rotate(r4);
    lemma_execute_rotate(l1);
    lemma_execute_rotate(l2);
    lemma_execute_rotate(l3);
    lemma_rotations(m.psw.a);
    lemma_with_flag(l3.psw.flags, l3.psw.a >= 128);
}

/// Decoding the encoding of an instruction gives the instruction back,
/// whatever bytes follow it; its opcode is defined and its length is the
/// length that the opcode calls for.
#[verifier::rlimit(50)]
pub proof fn lemma_decode_round_trip(i: Instruction, rest: Seq<u8>)
    requires
        i.wf(),
    ensures
        decoded(i.encode() + rest) == Ok::<Instruction, DecodeError>(i),
        is_defined(i.opcode() as u8),
        opcode_len(i.opcode() as u8) == i.spec_len(),
        i.encode().len() == i.spec_len(),
{
    reveal(decoded);
    let bytes = i.encode() + rest;
    assert(bytes[0] == i.opcode() as u8);
    assert(i.operands().len() >= 1 ==> bytes[1] == i.operands()[0]);
    assert(i.operands().len() >= 2 ==> bytes[2] == i.operands()[1]);
    assert(bytes.len() >= i.spec_len());
}

/// The inverse-of-encoding description of decoding admits one result only:
/// any result that meets it is the table's.
#[verifier::rlimit(50)]
pub proof fn lemma_decodes_unique(bytes: Seq<u8>, r: Result<Instruction, DecodeError>)
    requires
        decodes(bytes, r),
    ensures
        r == decoded(bytes),
{
    match r {
        Ok(i) => {
            let rest = bytes.subrange(i.spec_len() as int, bytes.len() as int);
            assert(bytes =~= i.encode() + rest);
            lemma_decode_round_trip(i, rest);
        },
        Err(_) => {
            reveal(decoded);
        },
    }
}

} // verus!
