use vstd::prelude::*;

use crate::instruction::{is_defined, opcode_len, Instruction};

verus! {

/// Why a byte sequence does not decode.
#[derive(Debug, Clone, Copy, PartialEq, Eq, Structural)]
pub enum DecodeError {
    /// Fewer bytes than the instruction needs (or none at all).
    TooShort,
    /// An opcode with no defined meaning.
    InvalidOpcode { opcode: u8 },
}

/// `r` is what decoding `bytes` gives: the instruction whose encoding the
/// bytes start with, when the opcode is defined and all its bytes are there;
/// otherwise the error that says which of the two fails.
pub open spec fn decodes(bytes: Seq<u8>, r: Result<Instruction, DecodeError>) -> bool {
    match r {
        Ok(i) => {
            &&& bytes.len() >= 1
            &&& is_defined(bytes[0])
            &&& bytes.len() >= opcode_len(bytes[0])
            &&& i.wf()
            &&& i.spec_len() == opcode_len(bytes[0])
            &&& i.encode() =~= bytes.subrange(0, i.spec_len() as int)
        },
        Err(DecodeError::TooShort) => bytes.len() == 0 || (is_defined(bytes[0]) && bytes.len()
            < opcode_len(bytes[0])),
        Err(DecodeError::InvalidOpcode { opcode }) => {
            &&& bytes.len() >= 1
            &&& !is_defined(bytes[0])
            &&& opcode == bytes[0]
        },
    }
}

/// The little-endian word in bytes 1 and 2 of `bytes`.
pub open spec fn word_at(bytes: Seq<u8>) -> u16 {
    (bytes[1] + bytes[2] * 256) as u16
}

/// The table of opcodes 0x00 to 0x3f, by row (bits 5..3) and column (bits 2..0).
pub open spec fn decoded_low(bytes: Seq<u8>) -> Result<Instruction, DecodeError> {
    let opcode = bytes[0];
    let row = opcode / 8;
    let n = bytes.len();
    let col = opcode % 8;
    if col == 0 {
        if opcode == 0 {
            Ok(Instruction::Nop)
        } else {
            Err(DecodeError::InvalidOpcode { opcode })
        }
    } else if col == 1 {
        if row % 2 == 1 {
            Ok(Instruction::Dad { rp: row / 2 })
        } else if n < 3 {
            Err(DecodeError::TooShort)
        } else {
            Ok(Instruction::Lxi { rp: row / 2, data: word_at(bytes) })
        }
    } else if col == 2 {
        if row < 4 {
            if row % 2 == 0 {
                Ok(Instruction::Stax { rp: row / 2 })
            } else {
                Ok(Instruction::Ldax { rp: row / 2 })
            }
        } else if n < 3 {
            Err(DecodeError::TooShort)
        } else if row == 4 {
            Ok(Instruction::Shld { exp: word_at(bytes) })
        } else if row == 5 {
            Ok(Instruction::Lhld { exp: word_at(bytes) })
        } else if row == 6 {
            Ok(Instruction::Sta { exp: word_at(bytes) })
        } else {
            Ok(Instruction::Lda { exp: word_at(bytes) })
        }
    } else if col == 3 {
        if row % 2 == 0 {
            Ok(Instruction::Inx { rp: row / 2 })
        } else {
            Ok(Instruction::Dcx { rp: row / 2 })
        }
    } else if col == 4 {
        Ok(Instruction::Inr { reg: row })
    } else if col == 5 {
        Ok(Instruction::Dcr { reg: row })
    } else if col == 6 {
        if n < 2 {
            Err(DecodeError::TooShort)
        } else {
            Ok(Instruction::Mvi { reg: row, data: bytes[1] })
        }
    } else {
        Ok(
            match row {
                0 => Instruction::Rlc,
                1 => Instruction::Rrc,
                2 => Instruction::Ral,
                3 => Instruction::Rar,
                4 => Instruction::Daa,
                5 => Instruction::Cma,
                6 => Instruction::Stc,
                _ => Instruction::Cmc,
            },
        )
    }
}

/// The register-operand arithmetic and logic opcodes 0x80 to 0xbf.
pub open spec fn decoded_alu(opcode: u8) -> Instruction {
    let reg = opcode % 8;
    match (opcode / 8) % 8 {
        0 => Instruction::Add { reg },
        1 => Instruction::Adc { reg },
        2 => Instruction::Sub { reg },
        3 => Instruction::Sbb { reg },
        4 => Instruction::Ana { reg },
        5 => Instruction::Xra { reg },
        6 => Instruction::Ora { reg },
        _ => Instruction::Cmp { reg },
    }
}

/// The PUSH / POP pair code for the opcode field `field`: 3 means PSW (4).
pub open spec fn stack_pair_code(field: u8) -> u8 {
    if field == 3 {
        4
    } else {
        field
    }
}

/// The table of opcodes 0xc0 to 0xff, by row (bits 5..3) and column (bits 2..0).
pub open spec fn decoded_high(bytes: Seq<u8>) -> Result<Instruction, DecodeError> {
    let opcode = bytes[0];
    let row = (opcode / 8) % 8;
    let n = bytes.len();
    let col = opcode % 8;
    if col == 0 {
        Ok(
            match row {
                0 => Instruction::Rnz,
                1 => Instruction::Rz,
                2 => Instruction::Rnc,
                3 => Instruction::Rc,
                4 => Instruction::Rpo,
                5 => Instruction::Rpe,
                6 => Instruction::Rp,
                _ => Instruction::Rm,
            },
        )
    } else if col == 1 {
        match row {
            1 => Ok(Instruction::Ret),
            5 => Ok(Instruction::Pchl),
            7 => Ok(Instruction::Sphl),
            3 => Err(DecodeError::InvalidOpcode { opcode }),
            _ => Ok(Instruction::Pop { rp: stack_pair_code((row / 2) as u8) }),
        }
    } else if col == 2 {
        if n < 3 {
            Err(DecodeError::TooShort)
        } else {
            let exp = word_at(bytes);
            Ok(
                match row {
                    0 => Instruction::Jnz { exp },
                    1 => Instruction::Jz { exp },
                    2 => Instruction::Jnc { exp },
                    3 => Instruction::Jc { exp },
                    4 => Instruction::Jpo { exp },
                    5 => Instruction::Jpe { exp },
                    6 => Instruction::Jp { exp },
                    _ => Instruction::Jm { exp },
                },
            )
        }
    } else if col == 3 {
        match row {
            0 => if n < 3 {
                Err(DecodeError::TooShort)
            } else {
                Ok(Instruction::Jmp { exp: word_at(bytes) })
            },
            1 => Err(DecodeError::InvalidOpcode { opcode }),
            2 => if n < 2 {
                Err(DecodeError::TooShort)
            } else {
                Ok(Instruction::Out { exp: bytes[1] })
            },
            3 => if n < 2 {
                Err(DecodeError::TooShort)
            } else {
                Ok(Instruction::In { exp: bytes[1] })
            },
            4 => Ok(Instruction::Xthl),
            5 => Ok(Instruction::Xchg),
            6 => Ok(Instruction::Di),
            _ => Ok(Instruction::Ei),
        }
    } else if col == 4 {
        if n < 3 {
            Err(DecodeError::TooShort)
        } else {
            let sub = word_at(bytes);
            Ok(
                match row {
                    0 => Instruction::Cnz { sub },
                    1 => Instruction::Cz { sub },
                    2 => Instruction::Cnc { sub },
                    3 => Instruction::Cc { sub },
                    4 => Instruction::Cpo { sub },
                    5 => Instruction::Cpe { sub },
                    6 => Instruction::Cp { sub },
                    _ => Instruction::Cm { sub },
                },
            )
        }
    } else if col == 5 {
        if row % 2 == 0 {
            Ok(Instruction::Push { rp: stack_pair_code((row / 2) as u8) })
        } else if row == 1 {
            if n < 3 {
                Err(DecodeError::TooShort)
            } else {
                Ok(Instruction::Call { sub: word_at(bytes) })
            }
        } else {
            Err(DecodeError::InvalidOpcode { opcode })
        }
    } else if col == 6 {
        if n < 2 {
            Err(DecodeError::TooShort)
        } else {
            let data = bytes[1];
            Ok(
                match row {
                    0 => Instruction::Adi { data },
                    1 => Instruction::Aci { data },
                    2 => Instruction::Sui { data },
                    3 => Instruction::Sbi { data },
                    4 => Instruction::Ani { data },
                    5 => Instruction::Xri { data },
                    6 => Instruction::Ori { data },
                    _ => Instruction::Cpi { data },
                },
            )
        }
    } else {
        Ok(Instruction::Rst { exp: row as u8 })
    }
}

/// The opcode table: what `bytes` decodes to.
#[verifier::opaque]
pub open spec fn decoded(bytes: Seq<u8>) -> Result<Instruction, DecodeError> {
    if bytes.len() == 0 {
        Err(DecodeError::TooShort)
    } else if bytes[0] < 0x40 {
        decoded_low(bytes)
    } else if bytes[0] < 0x80 {
        if bytes[0] == 0x76 {
            Ok(Instruction::Hlt)
        } else {
            Ok(Instruction::Mov { dst: (bytes[0] / 8) % 8, src: bytes[0] % 8 })
        }
    } else if bytes[0] < 0xc0 {
        Ok(decoded_alu(bytes[0]))
    } else {
        decoded_high(bytes)
    }
}

/// The little-endian word in bytes 1 and 2.
fn word(bytes: &[u8]) -> (r: u16)
    requires
        bytes@.len() >= 3,
    ensures
        r % 256 == bytes@[1],
        r / 256 == bytes@[2],
        r == word_at(bytes@),
{
    (bytes[2] as u16) * 256 + (bytes[1] as u16)
}

/// Decodes the instruction at the start of `instruction` (one to three bytes).
pub fn decode(instruction: &[u8]) -> (r: Result<Instruction, DecodeError>)
    ensures
        r == decoded(instruction@),
        decodes(instruction@, r),
{
    reveal(decoded);
    if instruction.len() == 0 {
        return Err(DecodeError::TooShort);
    }
    let opcode = instruction[0];
    if opcode < 0x40 {
        decode_low(instruction)
    } else if opcode < 0x80 {
        if opcode == 0x76 {
            Ok(Instruction::Hlt)
        } else {
            Ok(Instruction::Mov { dst: (opcode / 8) % 8, src: opcode % 8 })
        }
    } else if opcode < 0xc0 {
        Ok(decode_alu(opcode))
    } else {
        decode_high(instruction)
    }
}

/// Register-operand arithmetic and logic, opcodes 0x80 to 0xbf.
fn decode_alu(opcode: u8) -> (r: Instruction)
    requires
        0x80 <= opcode < 0xc0,
    ensures
        r == decoded_alu(opcode),
        r.wf(),
        r.opcode() == opcode,
        r.operands().len() == 0,
{
    let reg = opcode % 8;
    match (opcode / 8) % 8 {
        0 => Instruction::Add { reg },
        1 => Instruction::Adc { reg },
        2 => Instruction::Sub { reg },
        3 => Instruction::Sbb { reg },
        4 => Instruction::Ana { reg },
        5 => Instruction::Xra { reg },
        6 => Instruction::Ora { reg },
        _ => Instruction::Cmp { reg },
    }
}

/// Opcodes 0x00 to 0x3f.
fn decode_low(bytes: &[u8]) -> (r: Result<Instruction, DecodeError>)
    requires
        bytes@.len() >= 1,
        bytes@[0] < 0x40,
    ensures
        r == decoded_low(bytes@),
        decodes(bytes@, r),
{
    let opcode = bytes[0];
    let row = opcode / 8;
    let n = bytes.len();
    match opcode % 8 {
        0 => {
            if opcode == 0 {
                Ok(Instruction::Nop)
            } else {
                Err(DecodeError::InvalidOpcode { opcode })
            }
        },
        1 => {
            if row % 2 == 1 {
                Ok(Instruction::Dad { rp: row / 2 })
            } else if n < 3 {
                Err(DecodeError::TooShort)
            } else {
                Ok(Instruction::Lxi { rp: row / 2, data: word(bytes) })
            }
        },
        2 => {
            if row < 4 {
                if row % 2 == 0 {
                    Ok(Instruction::Stax { rp: row / 2 })
                } else {
                    Ok(Instruction::Ldax { rp: row / 2 })
                }
            } else if n < 3 {
                Err(DecodeError::TooShort)
            } else {
                let exp = word(bytes);
                match row {
                    4 => Ok(Instruction::Shld { exp }),
                    5 => Ok(Instruction::Lhld { exp }),
                    6 => Ok(Instruction::Sta { exp }),
                    _ => Ok(Instruction::Lda { exp }),
                }
            }
        },
        3 => {
            if row % 2 == 0 {
                Ok(Instruction::Inx { rp: row / 2 })
            } else {
                Ok(Instruction::Dcx { rp: row / 2 })
            }
        },
        4 => Ok(Instruction::Inr { reg: row }),
        5 => Ok(Instruction::Dcr { reg: row }),
        6 => {
            if n < 2 {
                Err(DecodeError::TooShort)
            } else {
                Ok(Instruction::Mvi { reg: row, data: bytes[1] })
            }
        },
        _ => {
            match row {
                0 => Ok(Instruction::Rlc),
                1 => Ok(Instruction::Rrc),
                2 => Ok(Instruction::Ral),
                3 => Ok(Instruction::Rar),
                4 => Ok(Instruction::Daa),
                5 => Ok(Instruction::Cma),
                6 => Ok(Instruction::Stc),
                _ => Ok(Instruction::Cmc),
            }
        },
    }
}

/// The stack-family pair code for the opcode field `field`: 3 means PSW (4).
fn stack_pair(field: u8) -> (r: u8)
    requires
        field < 4,
    ensures
        r == (if field == 3 { 4 } else { field }),
{
    if field == 3 {
        4
    } else {
        field
    }
}

/// Opcodes 0xc0 to 0xff.
#[verifier::rlimit(50)]
fn decode_high(bytes: &[u8]) -> (r: Result<Instruction, DecodeError>)
    requires
        bytes@.len() >= 1,
        bytes@[0] >= 0xc0,
    ensures
        r == decoded_high(bytes@),
        decodes(bytes@, r),
{
    let opcode = bytes[0];
    let row = (opcode / 8) % 8;
    let n = bytes.len();
    match opcode % 8 {
        0 => {
            match row {
                0 => Ok(Instruction::Rnz),
                1 => Ok(Instruction::Rz),
                2 => Ok(Instruction::Rnc),
                3 => Ok(Instruction::Rc),
                4 => Ok(Instruction::Rpo),
                5 => Ok(Instruction::Rpe),
                6 => Ok(Instruction::Rp),
                _ => Ok(Instruction::Rm),
            }
        },
        1 => {
            match row {
                1 => Ok(Instruction::Ret),
                5 => Ok(Instruction::Pchl),
                7 => Ok(Instruction::Sphl),
                3 => Err(DecodeError::InvalidOpcode { opcode }),
                _ => Ok(Instruction::Pop { rp: stack_pair(row / 2) }),
            }
        },
        2 => {
            if n < 3 {
                Err(DecodeError::TooShort)
            } else {
                let exp = word(bytes);
                match row {
                    0 => Ok(Instruction::Jnz { exp }),
                    1 => Ok(Instruction::Jz { exp }),
                    2 => Ok(Instruction::Jnc { exp }),
                    3 => Ok(Instruction::Jc { exp }),
                    4 => Ok(Instruction::Jpo { exp }),
                    5 => Ok(Instruction::Jpe { exp }),
                    6 => Ok(Instruction::Jp { exp }),
                    _ => Ok(Instruction::Jm { exp }),
                }
            }
        },
        3 => {
            match row {
                0 => {
                    if n < 3 {
                        Err(DecodeError::TooShort)
                    } else {
                        Ok(Instruction::Jmp { exp: word(bytes) })
                    }
                },
                1 => Err(DecodeError::InvalidOpcode { opcode }),
                2 | 3 => {
                    if n < 2 {
                        Err(DecodeError::TooShort)
                    } else if row == 2 {
                        Ok(Instruction::Out { exp: bytes[1] })
                    } else {
                        Ok(Instruction::In { exp: bytes[1] })
                    }
                },
                4 => Ok(Instruction::Xthl),
                5 => Ok(Instruction::Xchg),
                6 => Ok(Instruction::Di),
                _ => Ok(Instruction::Ei),
            }
        },
        4 => {
            if n < 3 {
                Err(DecodeError::TooShort)
            } else {
                let sub = word(bytes);
                match row {
                    0 => Ok(Instruction::Cnz { sub }),
                    1 => Ok(Instruction::Cz { sub }),
                    2 => Ok(Instruction::Cnc { sub }),
                    3 => Ok(Instruction::Cc { sub }),
                    4 => Ok(Instruction::Cpo { sub }),
                    5 => Ok(Instruction::Cpe { sub }),
                    6 => Ok(Instruction::Cp { sub }),
                    _ => Ok(Instruction::Cm { sub }),
                }
            }
        },
        5 => {
            if row % 2 == 0 {
                Ok(Instruction::Push { rp: stack_pair(row / 2) })
            } else if row == 1 {
                if n < 3 {
                    Err(DecodeError::TooShort)
                } else {
                    Ok(Instruction::Call { sub: word(bytes) })
                }
            } else {
                Err(DecodeError::InvalidOpcode { opcode })
            }
        },
        6 => {
            if n < 2 {
                Err(DecodeError::TooShort)
            } else {
                let data = bytes[1];
                match row {
                    0 => Ok(Instruction::Adi { data }),
                    1 => Ok(Instruction::Aci { data }),
                    2 => Ok(Instruction::Sui { data }),
                    3 => Ok(Instruction::Sbi { data }),
                    4 => Ok(Instruction::Ani { data }),
                    5 => Ok(Instruction::Xri { data }),
                    6 => Ok(Instruction::Ori { data }),
                    _ => Ok(Instruction::Cpi { data }),
                }
            }
        },
        _ => Ok(Instruction::Rst { exp: row }),
    }
}

} // verus!
