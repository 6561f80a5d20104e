use vstd::prelude::*;

verus! {

/// One decoded instruction. `reg` is a 3-bit register code (B, C, D, E, H, L,
/// M, A); `rp` a register-pair code (0 to 3 for BC, DE, HL, SP; PUSH and POP
/// use 4 for PSW in place of SP); `data` and `exp` / `sub` are the immediate
/// byte or the little-endian word that follow the opcode.
#[derive(Debug, Clone, Copy, PartialEq, Eq, Structural)]
pub enum Instruction {
    Nop,
    Lxi { rp: u8, data: u16 },
    Stax { rp: u8 },
    Inx { rp: u8 },
    Inr { reg: u8 },
    Dcr { reg: u8 },
    Mvi { reg: u8, data: u8 },
    Rlc,
    Rrc,
    Ral,
    Rar,
    Dad { rp: u8 },
    Ldax { rp: u8 },
    Dcx { rp: u8 },
    Shld { exp: u16 },
    Lhld { exp: u16 },
    Sta { exp: u16 },
    Lda { exp: u16 },
    Daa,
    Cma,
    Stc,
    Cmc,
    Mov { dst: u8, src: u8 },
    Hlt,
    Add { reg: u8 },
    Adc { reg: u8 },
    Sub { reg: u8 },
    Sbb { reg: u8 },
    Ana { reg: u8 },
    Xra { reg: u8 },
    Ora { reg: u8 },
    Cmp { reg: u8 },
    Rnz,
    Rz,
    Ret,
    Rnc,
    Rc,
    Rpo,
    Rpe,
    Rp,
    Rm,
    Pop { rp: u8 },
    Jnz { exp: u16 },
    Jmp { exp: u16 },
    Jz { exp: u16 },
    Jnc { exp: u16 },
    Jc { exp: u16 },
    Jpo { exp: u16 },
    Jpe { exp: u16 },
    Jp { exp: u16 },
    Jm { exp: u16 },
    Cnz { sub: u16 },
    Cz { sub: u16 },
    Call { sub: u16 },
    Cnc { sub: u16 },
    Cc { sub: u16 },
    Cpo { sub: u16 },
    Cpe { sub: u16 },
    Cp { sub: u16 },
    Cm { sub: u16 },
    Push { rp: u8 },
    Adi { data: u8 },
    Aci { data: u8 },
    Sui { data: u8 },
    Sbi { data: u8 },
    Ani { data: u8 },
    Xri { data: u8 },
    Ori { data: u8 },
    Cpi { data: u8 },
    Rst { exp: u8 },
    Out { exp: u8 },
    In { exp: u8 },
    Xthl,
    Pchl,
    Xchg,
    Di,
    Ei,
    Sphl,
}

/// The stack-family pair code (4 for PSW) as it stands in the opcode (3).
pub open spec fn stack_pair_field(rp: u8) -> int {
    if rp == 4 {
        3
    } else {
        rp as int
    }
}

/// Whether `rp` names a pair for PUSH and POP: BC, DE, HL or PSW.
pub open spec fn is_stack_pair(rp: u8) -> bool {
    rp == 0 || rp == 1 || rp == 2 || rp == 4
}

/// The two bytes of `w`, low first.
pub open spec fn word_bytes(w: u16) -> Seq<u8> {
    seq![(w % 256) as u8, (w / 256) as u8]
}

impl Instruction {
    /// The operand codes are in range: what an opcode can express.
    pub open spec fn wf(self) -> bool {
        match self {
            Instruction::Lxi { rp, .. } => rp < 4,
            Instruction::Stax { rp } => rp < 2,
            Instruction::Ldax { rp } => rp < 2,
            Instruction::Inx { rp } => rp < 4,
            Instruction::Dcx { rp } => rp < 4,
            Instruction::Dad { rp } => rp < 4,
            Instruction::Inr { reg } => reg < 8,
            Instruction::Dcr { reg } => reg < 8,
            Instruction::Mvi { reg, .. } => reg < 8,
            Instruction::Mov { dst, src } => dst < 8 && src < 8 && !(dst == 6 && src == 6),
            Instruction::Add { reg } => reg < 8,
            Instruction::Adc { reg } => reg < 8,
            Instruction::Sub { reg } => reg < 8,
            Instruction::Sbb { reg } => reg < 8,
            Instruction::Ana { reg } => reg < 8,
            Instruction::Xra { reg } => reg < 8,
            Instruction::Ora { reg } => reg < 8,
            Instruction::Cmp { reg } => reg < 8,
            Instruction::Pop { rp } => is_stack_pair(rp),
            Instruction::Push { rp } => is_stack_pair(rp),
            Instruction::Rst { exp } => exp < 8,
            _ => true,
        }
    }

    /// The opcode byte.
    pub open spec fn opcode(self) -> int {
        match self {
            Instruction::Nop => 0x00,
            Instruction::Lxi { rp, .. } => 0x01 + rp * 16,
            Instruction::Stax { rp } => 0x02 + rp * 16,
            Instruction::Inx { rp } => 0x03 + rp * 16,
            Instruction::Inr { reg } => 0x04 + reg * 8,
            Instruction::Dcr { reg } => 0x05 + reg * 8,
            Instruction::Mvi { reg, .. } => 0x06 + reg * 8,
            Instruction::Rlc => 0x07,
            Instruction::Rrc => 0x0f,
            Instruction::Ral => 0x17,
            Instruction::Rar => 0x1f,
            Instruction::Dad { rp } => 0x09 + rp * 16,
            Instruction::Ldax { rp } => 0x0a + rp * 16,
            Instruction::Dcx { rp } => 0x0b + rp * 16,
            Instruction::Shld { .. } => 0x22,
            Instruction::Lhld { .. } => 0x2a,
            Instruction::Sta { .. } => 0x32,
            Instruction::Lda { .. } => 0x3a,
            Instruction::Daa => 0x27,
            Instruction::Cma => 0x2f,
            Instruction::Stc => 0x37,
            Instruction::Cmc => 0x3f,
            Instruction::Mov { dst, src } => 0x40 + dst * 8 + src,
            Instruction::Hlt => 0x76,
            Instruction::Add { reg } => 0x80 + reg,
            Instruction::Adc { reg } => 0x88 + reg,
            Instruction::Sub { reg } => 0x90 + reg,
            Instruction::Sbb { reg } => 0x98 + reg,
            Instruction::Ana { reg } => 0xa0 + reg,
            Instruction::Xra { reg } => 0xa8 + reg,
            Instruction::Ora { reg } => 0xb0 + reg,
            Instruction::Cmp { reg } => 0xb8 + reg,
            Instruction::Rnz => 0xc0,
            Instruction::Rz => 0xc8,
            Instruction::Ret => 0xc9,
            Instruction::Rnc => 0xd0,
            Instruction::Rc => 0xd8,
            Instruction::Rpo => 0xe0,
            Instruction::Rpe => 0xe8,
            Instruction::Rp => 0xf0,
            Instruction::Rm => 0xf8,
            Instruction::Pop { rp } => 0xc1 + stack_pair_field(rp) * 16,
            Instruction::Jnz { .. } => 0xc2,
            Instruction::Jmp { .. } => 0xc3,
            Instruction::Jz { .. } => 0xca,
            Instruction::Jnc { .. } => 0xd2,
            Instruction::Jc { .. } => 0xda,
            Instruction::Jpo { .. } => 0xe2,
            Instruction::Jpe { .. } => 0xea,
            Instruction::Jp { .. } => 0xf2,
            Instruction::Jm { .. } => 0xfa,
            Instruction::Cnz { .. } => 0xc4,
            Instruction::Cz { .. } => 0xcc,
            Instruction::Call { .. } => 0xcd,
            Instruction::Cnc { .. } => 0xd4,
            Instruction::Cc { .. } => 0xdc,
            Instruction::Cpo { .. } => 0xe4,
            Instruction::Cpe { .. } => 0xec,
            Instruction::Cp { .. } => 0xf4,
            Instruction::Cm { .. } => 0xfc,
            Instruction::Push { rp } => 0xc5 + stack_pair_field(rp) * 16,
            Instruction::Adi { .. } => 0xc6,
            Instruction::Aci { .. } => 0xce,
            Instruction::Sui { .. } => 0xd6,
            Instruction::Sbi { .. } => 0xde,
            Instruction::Ani { .. } => 0xe6,
            Instruction::Xri { .. } => 0xee,
            Instruction::Ori { .. } => 0xf6,
            Instruction::Cpi { .. } => 0xfe,
            Instruction::Rst { exp } => 0xc7 + exp * 8,
            Instruction::Out { .. } => 0xd3,
            Instruction::In { .. } => 0xdb,
            Instruction::Xthl => 0xe3,
            Instruction::Pchl => 0xe9,
            Instruction::Xchg => 0xeb,
            Instruction::Di => 0xf3,
            Instruction::Ei => 0xfb,
            Instruction::Sphl => 0xf9,
        }
    }

    /// The bytes that follow the opcode.
    pub open spec fn operands(self) -> Seq<u8> {
        match self {
            Instruction::Lxi { data, .. } => word_bytes(data),
            Instruction::Shld { exp } => word_bytes(exp),
            Instruction::Lhld { exp } => word_bytes(exp),
            Instruction::Sta { exp } => word_bytes(exp),
            Instruction::Lda { exp } => word_bytes(exp),
            Instruction::Jnz { exp } => word_bytes(exp),
            Instruction::Jmp { exp } => word_bytes(exp),
            Instruction::Jz { exp } => word_bytes(exp),
            Instruction::Jnc { exp } => word_bytes(exp),
            Instruction::Jc { exp } => word_bytes(exp),
            Instruction::Jpo { exp } => word_bytes(exp),
            Instruction::Jpe { exp } => word_bytes(exp),
            Instruction::Jp { exp } => word_bytes(exp),
            Instruction::Jm { exp } => word_bytes(exp),
            Instruction::Cnz { sub } => word_bytes(sub),
            Instruction::Cz { sub } => word_bytes(sub),
            Instruction::Call { sub } => word_bytes(sub),
            Instruction::Cnc { sub } => word_bytes(sub),
            Instruction::Cc { sub } => word_bytes(sub),
            Instruction::Cpo { sub } => word_bytes(sub),
            Instruction::Cpe { sub } => word_bytes(sub),
            Instruction::Cp { sub } => word_bytes(sub),
            Instruction::Cm { sub } => word_bytes(sub),
            Instruction::Mvi { data, .. } => seq![data],
            Instruction::Adi { data } => seq![data],
            Instruction::Aci { data } => seq![data],
            Instruction::Sui { data } => seq![data],
            Instruction::Sbi { data } => seq![data],
            Instruction::Ani { data } => seq![data],
            Instruction::Xri { data } => seq![data],
            Instruction::Ori { data } => seq![data],
            Instruction::Cpi { data } => seq![data],
            Instruction::Out { exp } => seq![exp],
            Instruction::In { exp } => seq![exp],
            _ => Seq::empty(),
        }
    }

    /// The machine code of the instruction: its opcode, then its operands.
    pub open spec fn encode(self) -> Seq<u8> {
        seq![self.opcode() as u8] + self.operands()
    }

    /// Its encoded length: 1, 2 or 3 bytes.
    pub open spec fn spec_len(self) -> nat {
        1 + self.operands().len()
    }
}

/// Whether `opcode` is one of the defined opcodes; the twelve others are not.
pub open spec fn is_defined(opcode: u8) -> bool {
    &&& !(opcode < 0x40 && opcode % 8 == 0 && opcode != 0)
    &&& opcode != 0xcb
    &&& opcode != 0xd9
    &&& opcode != 0xdd
    &&& opcode != 0xed
    &&& opcode != 0xfd
}

/// The encoded length of an instruction that starts with `opcode`.
pub open spec fn opcode_len(opcode: u8) -> nat {
    let row = (opcode / 8) % 8;
    let col = opcode % 8;
    if opcode < 0x40 {
        if (col == 1 && row % 2 == 0) || (col == 2 && row >= 4) {
            3
        } else if col == 6 {
            2
        } else {
            1
        }
    } else if opcode >= 0xc0 {
        if col == 2 || col == 4 || opcode == 0xc3 || opcode == 0xcd {
            3
        } else if col == 6 || opcode == 0xd3 || opcode == 0xdb {
            2
        } else {
            1
        }
    } else {
        1
    }
}

} // verus!
