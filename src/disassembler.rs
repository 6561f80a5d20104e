use vstd::prelude::*;
use vstd::string::StringExecFns;

use crate::decoder::{decode, decoded, DecodeError};
use crate::instruction::{opcode_len, Instruction};

verus! {

/// Names of the registers by their 3-bit code.
pub open spec fn register_name(reg: u8) -> Seq<char> {
    match reg {
        0 => "B"@,
        1 => "C"@,
        2 => "D"@,
        3 => "E"@,
        4 => "H"@,
        5 => "L"@,
        6 => "M"@,
        _ => "A"@,
    }
}

/// Names of the register pairs by code: B, D, H, SP, PSW.
pub open spec fn pair_name(rp: u8) -> Seq<char> {
    match rp {
        0 => "B"@,
        1 => "D"@,
        2 => "H"@,
        3 => "SP"@,
        _ => "PSW"@,
    }
}

/// The lowercase hex digit of `d`.
pub open spec fn hex_digit(d: nat) -> Seq<char> {
    "0123456789abcdef"@.subrange(d as int, d as int + 1)
}

/// `v` in exactly `width` lowercase hex digits.
pub open spec fn hex_fixed(v: nat, width: nat) -> Seq<char>
    decreases width,
{
    if width == 0 {
        Seq::empty()
    } else {
        hex_fixed(v / 16, (width - 1) as nat) + hex_digit(v % 16)
    }
}

/// `v` in lowercase hex without leading zeros.
pub open spec fn hex_min(v: nat) -> Seq<char>
    decreases v,
{
    if v < 16 {
        hex_digit(v)
    } else {
        hex_min(v / 16) + hex_digit(v % 16)
    }
}

/// `v` in hex with a `0x` prefix.
pub open spec fn hex_prefixed(v: nat) -> Seq<char> {
    "0x"@ + hex_min(v)
}

/// The mnemonic, padded to five columns when operands follow it.
pub open spec fn name_of(i: Instruction) -> Seq<char> {
    match i {
        Instruction::Nop => "NOP"@,
        Instruction::Lxi { .. } => "LXI  "@,
        Instruction::Stax { .. } => "STAX "@,
        Instruction::Inx { .. } => "INX  "@,
        Instruction::Inr { .. } => "INR  "@,
        Instruction::Dcr { .. } => "DCR  "@,
        Instruction::Mvi { .. } => "MVI  "@,
        Instruction::Rlc => "RLC"@,
        Instruction::Rrc => "RRC"@,
        Instruction::Ral => "RAL"@,
        Instruction::Rar => "RAR"@,
        Instruction::Dad { .. } => "DAD  "@,
        Instruction::Ldax { .. } => "LDAX "@,
        Instruction::Dcx { .. } => "DCX  "@,
        Instruction::Shld { .. } => "SHLD "@,
        Instruction::Lhld { .. } => "LHLD "@,
        Instruction::Sta { .. } => "STA  "@,
        Instruction::Lda { .. } => "LDA  "@,
        Instruction::Daa => "DAA"@,
        Instruction::Cma => "CMA"@,
        Instruction::Stc => "STC"@,
        Instruction::Cmc => "CMC"@,
        Instruction::Mov { .. } => "MOV  "@,
        Instruction::Hlt => "HLT"@,
        Instruction::Add { .. } => "ADD  "@,
        Instruction::Adc { .. } => "ADC  "@,
        Instruction::Sub { .. } => "SUB  "@,
        Instruction::Sbb { .. } => "SBB  "@,
        Instruction::Ana { .. } => "ANA  "@,
        Instruction::Xra { .. } => "XRA  "@,
        Instruction::Ora { .. } => "ORA  "@,
        Instruction::Cmp { .. } => "CMP  "@,
        Instruction::Rnz => "RNZ"@,
        Instruction::Rz => "RZ"@,
        Instruction::Ret => "RET"@,
        Instruction::Rnc => "RNC"@,
        Instruction::Rc => "RC"@,
        Instruction::Rpo => "RPO"@,
        Instruction::Rpe => "RPE"@,
        Instruction::Rp => "RP"@,
        Instruction::Rm => "RM"@,
        Instruction::Pop { .. } => "POP  "@,
        Instruction::Jnz { .. } => "JNZ  "@,
        Instruction::Jmp { .. } => "JMP  "@,
        Instruction::Jz { .. } => "JZ   "@,
        Instruction::Jnc { .. } => "JNC  "@,
        Instruction::Jc { .. } => "JC   "@,
        Instruction::Jpo { .. } => "JPO  "@,
        Instruction::Jpe { .. } => "JPE  "@,
        Instruction::Jp { .. } => "JP   "@,
        Instruction::Jm { .. } => "JM   "@,
        Instruction::Cnz { .. } => "CNZ  "@,
        Instruction::Cz { .. } => "CZ   "@,
        Instruction::Call { .. } => "CALL "@,
        Instruction::Cnc { .. } => "CNC  "@,
        Instruction::Cc { .. } => "CC   "@,
        Instruction::Cpo { .. } => "CPO  "@,
        Instruction::Cpe { .. } => "CPE  "@,
        Instruction::Cp { .. } => "CP   "@,
        Instruction::Cm { .. } => "CM   "@,
        Instruction::Push { .. } => "PUSH "@,
        Instruction::Adi { .. } => "ADI  "@,
        Instruction::Aci { .. } => "ACI  "@,
        Instruction::Sui { .. } => "SUI  "@,
        Instruction::Sbi { .. } => "SBI  "@,
        Instruction::Ani { .. } => "ANI  "@,
        Instruction::Xri { .. } => "XRI  "@,
        Instruction::Ori { .. } => "ORI  "@,
        Instruction::Cpi { .. } => "CPI  "@,
        Instruction::Rst { .. } => "RST  "@,
        Instruction::Out { .. } => "OUT  "@,
        Instruction::In { .. } => "IN   "@,
        Instruction::Xthl => "XTHL"@,
        Instruction::Pchl => "PCHL"@,
        Instruction::Xchg => "XCHG"@,
        Instruction::Di => "DI"@,
        Instruction::Ei => "EI"@,
        Instruction::Sphl => "SPHL"@,
    }
}

/// The operands as the trace shows them: registers and pairs by name,
/// immediates and addresses in hex, the RST vector as a digit.
pub open spec fn operand_text(i: Instruction) -> Seq<char> {
    match i {
        Instruction::Lxi { rp, data } => pair_name(rp) + ", "@ + hex_prefixed(data as nat),
        Instruction::Stax { rp } => pair_name(rp),
        Instruction::Inx { rp } => pair_name(rp),
        Instruction::Inr { reg } => register_name(reg),
        Instruction::Dcr { reg } => register_name(reg),
        Instruction::Mvi { reg, data } => register_name(reg) + ", "@ + hex_prefixed(data as nat),
        Instruction::Dad { rp } => pair_name(rp),
        Instruction::Ldax { rp } => pair_name(rp),
        Instruction::Dcx { rp } => pair_name(rp),
        Instruction::Shld { exp } => hex_prefixed(exp as nat),
        Instruction::Lhld { exp } => hex_prefixed(exp as nat),
        Instruction::Sta { exp } => hex_prefixed(exp as nat),
        Instruction::Lda { exp } => hex_prefixed(exp as nat),
        Instruction::Mov { dst, src } => register_name(dst) + ", "@ + register_name(src),
        Instruction::Add { reg } => register_name(reg),
        Instruction::Adc { reg } => register_name(reg),
        Instruction::Sub { reg } => register_name(reg),
        Instruction::Sbb { reg } => register_name(reg),
        Instruction::Ana { reg } => register_name(reg),
        Instruction::Xra { reg } => register_name(reg),
        Instruction::Ora { reg } => register_name(reg),
        Instruction::Cmp { reg } => register_name(reg),
        Instruction::Pop { rp } => pair_name(rp),
        Instruction::Jnz { exp } => hex_prefixed(exp as nat),
        Instruction::Jmp { exp } => hex_prefixed(exp as nat),
        Instruction::Jz { exp } => hex_prefixed(exp as nat),
        Instruction::Jnc { exp } => hex_prefixed(exp as nat),
        Instruction::Jc { exp } => hex_prefixed(exp as nat),
        Instruction::Jpo { exp } => hex_prefixed(exp as nat),
        Instruction::Jpe { exp } => hex_prefixed(exp as nat),
        Instruction::Jp { exp } => hex_prefixed(exp as nat),
        Instruction::Jm { exp } => hex_prefixed(exp as nat),
        Instruction::Cnz { sub } => hex_prefixed(sub as nat),
        Instruction::Cz { sub } => hex_prefixed(sub as nat),
        Instruction::Call { sub } => hex_prefixed(sub as nat),
        Instruction::Cnc { sub } => hex_prefixed(sub as nat),
        Instruction::Cc { sub } => hex_prefixed(sub as nat),
        Instruction::Cpo { sub } => hex_prefixed(sub as nat),
        Instruction::Cpe { sub } => hex_prefixed(sub as nat),
        Instruction::Cp { sub } => hex_prefixed(sub as nat),
        Instruction::Cm { sub } => hex_prefixed(sub as nat),
        Instruction::Push { rp } => pair_name(rp),
        Instruction::Adi { data } => hex_prefixed(data as nat),
        Instruction::Aci { data } => hex_prefixed(data as nat),
        Instruction::Sui { data } => hex_prefixed(data as nat),
        Instruction::Sbi { data } => hex_prefixed(data as nat),
        Instruction::Ani { data } => hex_prefixed(data as nat),
        Instruction::Xri { data } => hex_prefixed(data as nat),
        Instruction::Ori { data } => hex_prefixed(data as nat),
        Instruction::Cpi { data } => hex_prefixed(data as nat),
        Instruction::Rst { exp } => hex_digit(exp as nat),
        Instruction::Out { exp } => hex_prefixed(exp as nat),
        Instruction::In { exp } => hex_prefixed(exp as nat),
        _ => Seq::empty(),
    }
}

/// The instruction as assembly text.
pub open spec fn mnemonic(i: Instruction) -> Seq<char> {
    name_of(i) + operand_text(i)
}

/// Each byte in two hex digits followed by a space.
pub open spec fn byte_list(bytes: Seq<u8>) -> Seq<char>
    decreases bytes.len(),
{
    if bytes.len() == 0 {
        Seq::empty()
    } else {
        byte_list(bytes.drop_last()) + hex_fixed(bytes.last() as nat, 2) + " "@
    }
}

pub open spec fn spaces(n: nat) -> Seq<char> {
    Seq::new(n, |k: int| ' ')
}

/// The opcode bytes, left-aligned in a column ten wide.
pub open spec fn opcode_column(bytes: Seq<u8>) -> Seq<char> {
    byte_list(bytes) + spaces((10 - 3 * bytes.len()) as nat)
}

/// One trace line: the address, the bytes of the instruction and its text.
pub open spec fn trace_line(pc: u16, bytes: Seq<u8>, i: Instruction) -> Seq<char> {
    hex_fixed(pc as nat, 4) + "  "@ + opcode_column(bytes.subrange(0, i.spec_len() as int))
        + mnemonic(i)
}

/// The name of register `reg`.
pub fn register(reg: u8) -> (r: &'static str)
    requires
        reg < 8,
    ensures
        r@ == register_name(reg),
{
    match reg {
        0 => "B",
        1 => "C",
        2 => "D",
        3 => "E",
        4 => "H",
        5 => "L",
        6 => "M",
        _ => "A",
    }
}

/// The name of register pair `rp`.
pub fn register_pair(rp: u8) -> (r: &'static str)
    requires
        rp < 5,
    ensures
        r@ == pair_name(rp),
{
    match rp {
        0 => "B",
        1 => "D",
        2 => "H",
        3 => "SP",
        _ => "PSW",
    }
}

fn mnemonic_name(i: Instruction) -> (r: &'static str)
    ensures
        r@ == name_of(i),
{
    match i {
        Instruction::Nop => "NOP",
        Instruction::Lxi { .. } => "LXI  ",
        Instruction::Stax { .. } => "STAX ",
        Instruction::Inx { .. } => "INX  ",
        Instruction::Inr { .. } => "INR  ",
        Instruction::Dcr { .. } => "DCR  ",
        Instruction::Mvi { .. } => "MVI  ",
        Instruction::Rlc => "RLC",
        Instruction::Rrc => "RRC",
        Instruction::Ral => "RAL",
        Instruction::Rar => "RAR",
        Instruction::Dad { .. } => "DAD  ",
        Instruction::Ldax { .. } => "LDAX ",
        Instruction::Dcx { .. } => "DCX  ",
        Instruction::Shld { .. } => "SHLD ",
        Instruction::Lhld { .. } => "LHLD ",
        Instruction::Sta { .. } => "STA  ",
        Instruction::Lda { .. } => "LDA  ",
        Instruction::Daa => "DAA",
        Instruction::Cma => "CMA",
        Instruction::Stc => "STC",
        Instruction::Cmc => "CMC",
        Instruction::Mov { .. } => "MOV  ",
        Instruction::Hlt => "HLT",
        Instruction::Add { .. } => "ADD  ",
        Instruction::Adc { .. } => "ADC  ",
        Instruction::Sub { .. } => "SUB  ",
        Instruction::Sbb { .. } => "SBB  ",
        Instruction::Ana { .. } => "ANA  ",
        Instruction::Xra { .. } => "XRA  ",
        Instruction::Ora { .. } => "ORA  ",
        Instruction::Cmp { .. } => "CMP  ",
        Instruction::Rnz => "RNZ",
        Instruction::Rz => "RZ",
        Instruction::Ret => "RET",
        Instruction::Rnc => "RNC",
        Instruction::Rc => "RC",
        Instruction::Rpo => "RPO",
        Instruction::Rpe => "RPE",
        Instruction::Rp => "RP",
        Instruction::Rm => "RM",
        Instruction::Pop { .. } => "POP  ",
        Instruction::Jnz { .. } => "JNZ  ",
        Instruction::Jmp { .. } => "JMP  ",
        Instruction::Jz { .. } => "JZ   ",
        Instruction::Jnc { .. } => "JNC  ",
        Instruction::Jc { .. } => "JC   ",
        Instruction::Jpo { .. } => "JPO  ",
        Instruction::Jpe { .. } => "JPE  ",
        Instruction::Jp { .. } => "JP   ",
        Instruction::Jm { .. } => "JM   ",
        Instruction::Cnz { .. } => "CNZ  ",
        Instruction::Cz { .. } => "CZ   ",
        Instruction::Call { .. } => "CALL ",
        Instruction::Cnc { .. } => "CNC  ",
        Instruction::Cc { .. } => "CC   ",
        Instruction::Cpo { .. } => "CPO  ",
        Instruction::Cpe { .. } => "CPE  ",
        Instruction::Cp { .. } => "CP   ",
        Instruction::Cm { .. } => "CM   ",
        Instruction::Push { .. } => "PUSH ",
        Instruction::Adi { .. } => "ADI  ",
        Instruction::Aci { .. } => "ACI  ",
        Instruction::Sui { .. } => "SUI  ",
        Instruction::Sbi { .. } => "SBI  ",
        Instruction::Ani { .. } => "ANI  ",
        Instruction::Xri { .. } => "XRI  ",
        Instruction::Ori { .. } => "ORI  ",
        Instruction::Cpi { .. } => "CPI  ",
        Instruction::Rst { .. } => "RST  ",
        Instruction::Out { .. } => "OUT  ",
        Instruction::In { .. } => "IN   ",
        Instruction::Xthl => "XTHL",
        Instruction::Pchl => "PCHL",
        Instruction::Xchg => "XCHG",
        Instruction::Di => "DI",
        Instruction::Ei => "EI",
        Instruction::Sphl => "SPHL",
    }
}

fn append_hex_digit(s: &mut String, d: u16)
    requires
        d < 16,
    ensures
        final(s)@ == old(s)@ + hex_digit(d as nat),
{
    let digits = "0123456789abcdef";
    proof {
        reveal_strlit("0123456789abcdef");
    }
    let c = digits.substring_char(d as usize, d as usize + 1);
    s.append(c);
}

fn append_hex_fixed(s: &mut String, v: u16, width: u8)
    ensures
        final(s)@ == old(s)@ + hex_fixed(v as nat, width as nat),
    decreases width,
{
    if width > 0 {
        append_hex_fixed(s, v / 16, width - 1);
        append_hex_digit(s, v % 16);
        assert(final(s)@ =~= old(s)@ + hex_fixed(v as nat, width as nat));
    } else {
        assert(final(s)@ =~= old(s)@ + hex_fixed(v as nat, width as nat));
    }
}

fn append_hex_min(s: &mut String, v: u16)
    ensures
        final(s)@ == old(s)@ + hex_min(v as nat),
    decreases v,
{
    if v < 16 {
        append_hex_digit(s, v);
    } else {
        append_hex_min(s, v / 16);
        append_hex_digit(s, v % 16);
        assert(final(s)@ =~= old(s)@ + hex_min(v as nat));
    }
}

fn append_hex_prefixed(s: &mut String, v: u16)
    ensures
        final(s)@ == old(s)@ + hex_prefixed(v as nat),
{
    s.append("0x");
    append_hex_min(s, v);
    assert(final(s)@ =~= old(s)@ + hex_prefixed(v as nat));
}

fn append_two(s: &mut String, first: &str, second: &str)
    ensures
        final(s)@ == old(s)@ + (first@ + ", "@ + second@),
{
    s.append(first);
    s.append(", ");
    s.append(second);
    assert(final(s)@ =~= old(s)@ + (first@ + ", "@ + second@));
}

fn append_then_hex(s: &mut String, first: &str, v: u16)
    ensures
        final(s)@ == old(s)@ + (first@ + ", "@ + hex_prefixed(v as nat)),
{
    s.append(first);
    s.append(", ");
    append_hex_prefixed(s, v);
    assert(final(s)@ =~= old(s)@ + (first@ + ", "@ + hex_prefixed(v as nat)));
}

fn append_operands(s: &mut String, i: Instruction)
    requires
        i.wf(),
    ensures
        final(s)@ == old(s)@ + operand_text(i),
{
    match i {
        Instruction::Lxi { rp, data } => append_then_hex(s, register_pair(rp), data),
        Instruction::Stax { rp } => s.append(register_pair(rp)),
        Instruction::Inx { rp } => s.append(register_pair(rp)),
        Instruction::Inr { reg } => s.append(register(reg)),
        Instruction::Dcr { reg } => s.append(register(reg)),
        Instruction::Mvi { reg, data } => append_then_hex(s, register(reg), data as u16),
        Instruction::Dad { rp } => s.append(register_pair(rp)),
        Instruction::Ldax { rp } => s.append(register_pair(rp)),
        Instruction::Dcx { rp } => s.append(register_pair(rp)),
        Instruction::Shld { exp } => append_hex_prefixed(s, exp),
        Instruction::Lhld { exp } => append_hex_prefixed(s, exp),
        Instruction::Sta { exp } => append_hex_prefixed(s, exp),
        Instruction::Lda { exp } => append_hex_prefixed(s, exp),
        Instruction::Mov { dst, src } => append_two(s, register(dst), register(src)),
        Instruction::Add { reg } => s.append(register(reg)),
        Instruction::Adc { reg } => s.append(register(reg)),
        Instruction::Sub { reg } => s.append(register(reg)),
        Instruction::Sbb { reg } => s.append(register(reg)),
        Instruction::Ana { reg } => s.append(register(reg)),
        Instruction::Xra { reg } => s.append(register(reg)),
        Instruction::Ora { reg } => s.append(register(reg)),
        Instruction::Cmp { reg } => s.append(register(reg)),
        Instruction::Pop { rp } => s.append(register_pair(rp)),
        Instruction::Jnz { exp } => append_hex_prefixed(s, exp),
        Instruction::Jmp { exp } => append_hex_prefixed(s, exp),
        Instruction::Jz { exp } => append_hex_prefixed(s, exp),
        Instruction::Jnc { exp } => append_hex_prefixed(s, exp),
        Instruction::Jc { exp } => append_hex_prefixed(s, exp),
        Instruction::Jpo { exp } => append_hex_prefixed(s, exp),
        Instruction::Jpe { exp } => append_hex_prefixed(s, exp),
        Instruction::Jp { exp } => append_hex_prefixed(s, exp),
        Instruction::Jm { exp } => append_hex_prefixed(s, exp),
        Instruction::Cnz { sub } => append_hex_prefixed(s, sub),
        Instruction::Cz { sub } => append_hex_prefixed(s, sub),
        Instruction::Call { sub } => append_hex_prefixed(s, sub),
        Instruction::Cnc { sub } => append_hex_prefixed(s, sub),
        Instruction::Cc { sub } => append_hex_prefixed(s, sub),
        Instruction::Cpo { sub } => append_hex_prefixed(s, sub),
        Instruction::Cpe { sub } => append_hex_prefixed(s, sub),
        Instruction::Cp { sub } => append_hex_prefixed(s, sub),
        Instruction::Cm { sub } => append_hex_prefixed(s, sub),
        Instruction::Push { rp } => s.append(register_pair(rp)),
        Instruction::Adi { data } => append_hex_prefixed(s, data as u16),
        Instruction::Aci { data } => append_hex_prefixed(s, data as u16),
        Instruction::Sui { data } => append_hex_prefixed(s, data as u16),
        Instruction::Sbi { data } => append_hex_prefixed(s, data as u16),
        Instruction::Ani { data } => append_hex_prefixed(s, data as u16),
        Instruction::Xri { data } => append_hex_prefixed(s, data as u16),
        Instruction::Ori { data } => append_hex_prefixed(s, data as u16),
        Instruction::Cpi { data } => append_hex_prefixed(s, data as u16),
        Instruction::Rst { exp } => append_hex_digit(s, exp as u16),
        Instruction::Out { exp } => append_hex_prefixed(s, exp as u16),
        Instruction::In { exp } => append_hex_prefixed(s, exp as u16),
        _ => {
            assert(old(s)@ + operand_text(i) =~= old(s)@);
        },
    }
}

/// The encoded length of an instruction that starts with `opcode`.
fn opcode_length(opcode: u8) -> (r: usize)
    ensures
        r == opcode_len(opcode),
{
    let row = (opcode / 8) % 8;
    let col = opcode % 8;
    if opcode < 0x40 {
        if (col == 1 && row % 2 == 0) || (col == 2 && row >= 4) {
            3
        } else if col == 6 {
            2
        } else {
            1
        }
    } else if opcode >= 0xc0 {
        if col == 2 || col == 4 || opcode == 0xc3 || opcode == 0xcd {
            3
        } else if col == 6 || opcode == 0xd3 || opcode == 0xdb {
            2
        } else {
            1
        }
    } else {
        1
    }
}

/// Appends the first `n` bytes in hex, then spaces to a width of ten.
fn append_opcode_column(s: &mut String, bytes: &[u8], n: usize)
    requires
        n <= 3,
        n <= bytes@.len(),
    ensures
        final(s)@ == old(s)@ + opcode_column(bytes@.subrange(0, n as int)),
{
    proof {
        reveal_strlit(" ");
    }
    let mut k: usize = 0;
    while k < n
        invariant
            k <= n,
            n <= bytes@.len(),
            s@ == old(s)@ + byte_list(bytes@.subrange(0, k as int)),
        decreases n - k,
    {
        append_hex_fixed(s, bytes[k] as u16, 2);
        s.append(" ");
        proof {
            let next = bytes@.subrange(0, k + 1);
            assert(next.drop_last() =~= bytes@.subrange(0, k as int));
            assert(s@ =~= old(s)@ + byte_list(next));
        }
        k = k + 1;
    }
    let width: usize = 10 - 3 * n;
    let mut j: usize = 0;
    while j < width
        invariant
            j <= width,
            width == 10 - 3 * n,
            s@ == old(s)@ + byte_list(bytes@.subrange(0, n as int)) + spaces(j as nat),
        decreases width - j,
    {
        s.append(" ");
        proof {
            reveal_strlit(" ");
            assert(" "@ =~= seq![' ']);
            assert(spaces((j + 1) as nat) =~= spaces(j as nat) + " "@);
            assert(s@ =~= old(s)@ + byte_list(bytes@.subrange(0, n as int)) + spaces(
                (j + 1) as nat,
            ));
        }
        j = j + 1;
    }
    assert(s@ =~= old(s)@ + opcode_column(bytes@.subrange(0, n as int)));
}

/// Decodes the instruction at `program_counter` from the fetched bytes and
/// writes its trace line.
pub fn disassemble(program_counter: u16, instruction: &[u8]) -> (r: Result<
    (Instruction, String),
    DecodeError,
>)
    ensures
        match r {
            Ok((i, line)) => decoded(instruction@) == Ok::<Instruction, DecodeError>(i)
                && line@ == trace_line(program_counter, instruction@, i),
            Err(e) => decoded(instruction@) == Err::<Instruction, DecodeError>(e),
        },
{
    let i = match decode(instruction) {
        Ok(i) => i,
        Err(e) => {
            return Err(e);
        },
    };
    let mut line = String::new();
    append_hex_fixed(&mut line, program_counter, 4);
    line.append("  ");
    let n = opcode_length(instruction[0]);
    append_opcode_column(&mut line, instruction, n);
    line.append(mnemonic_name(i));
    append_operands(&mut line, i);
    assert(line@ =~= trace_line(program_counter, instruction@, i));
    Ok((i, line))
}

} // verus!
