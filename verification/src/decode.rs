//! The instruction decoder: from a 32-bit word to a tagged `Instruction`,
//! enforcing the reserved-bit patterns of the opcode table, together with
//! the inverse direction and the proof that decoding an encoded
//! instruction gives the instruction back.

use crate::instruction::{
    cond_code, lemma_long_fields, lemma_short_fields, pack_short, spec_ss_bits,
    spec_ss_imm_flag, Conditional, Instruction, LongConditional, LongInstruction,
    ShortConditional, ShortInstruction, ShortSource,
};
use crate::memory::spec_word_at;
use vstd::prelude::*;

verus! {

/// Why a word failed to decode.
#[derive(PartialEq, Eq, Copy, Clone, Debug, Structural)]
pub enum DecodeError {
    /// The word matches a reserved opcode pattern. `loc` names the bits
    /// that did not match; `opcode` is the whole word.
    InvalidInstruction { loc: u32, opcode: u32 },
    /// A conditional instruction carries conditional code 0.
    InvalidJumpCondition { code: u32 },
}

/// The conditional a 4-bit code names; code 0 is invalid.
pub open spec fn spec_cond_of(code: u32) -> Result<Conditional, DecodeError> {
    if code == 1 {
        Ok(Conditional::Gt)
    } else if code == 2 {
        Ok(Conditional::Le)
    } else if code == 3 {
        Ok(Conditional::Ge)
    } else if code == 4 {
        Ok(Conditional::Lt)
    } else if code == 5 {
        Ok(Conditional::Hi)
    } else if code == 6 {
        Ok(Conditional::Los)
    } else if code == 7 {
        Ok(Conditional::Lonc)
    } else if code == 8 {
        Ok(Conditional::Hisc)
    } else if code == 9 {
        Ok(Conditional::Pl)
    } else if code == 10 {
        Ok(Conditional::Mi)
    } else if code == 11 {
        Ok(Conditional::Ne)
    } else if code == 12 {
        Ok(Conditional::Eq)
    } else if code == 13 {
        Ok(Conditional::Nv)
    } else if code == 14 {
        Ok(Conditional::V)
    } else if code == 15 {
        Ok(Conditional::Alw)
    } else {
        Err(DecodeError::InvalidJumpCondition { code })
    }
}

/// The instruction a 32-bit word decodes to, or the decode error the
/// word's reserved bits earn it.
pub open spec fn spec_decode(w: u32) -> Result<Instruction, DecodeError> {
    let scc = w & 0x1000000 != 0;
    let dest = ((w >> 19) & 0x1f) as u8;
    let rs1 = ((w >> 14) & 0x1f) as u8;
    let imm19 = w & 0x7ffff;
    let ss = if w & 0x2000 != 0 {
        ShortSource::UImm13(w & 0x1fff)
    } else {
        ShortSource::Reg((w & 0x1f) as u8)
    };
    let op = w >> 25;
    let cond = spec_cond_of((w >> 19) & 0xf);
    let group = op / 16;
    let sub = op % 16;
    if group == 0 {
        if sub == 1 {
            Ok(Instruction::Calli(ShortInstruction { scc, dest, rs1, short_source: ss }))
        } else if sub == 2 {
            Ok(Instruction::GetPSW(ShortInstruction { scc, dest, rs1, short_source: ss }))
        } else if sub == 3 {
            Ok(Instruction::GetLPC(ShortInstruction { scc, dest, rs1, short_source: ss }))
        } else if sub == 4 {
            Ok(Instruction::PutPSW(ShortInstruction { scc, dest, rs1, short_source: ss }))
        } else if sub == 8 {
            Ok(Instruction::Callx(ShortInstruction { scc, dest, rs1, short_source: ss }))
        } else if sub == 9 {
            Ok(Instruction::Callr(LongInstruction { scc, dest, imm19 }))
        } else if sub == 12 {
            match cond {
                Ok(c) => Ok(
                    Instruction::Jmpx(ShortConditional { scc, dest: c, rs1, short_source: ss }),
                ),
                Err(e) => Err(e),
            }
        } else if sub == 13 {
            match cond {
                Ok(c) => Ok(Instruction::Jmpr(LongConditional { scc, dest: c, imm19 })),
                Err(e) => Err(e),
            }
        } else if sub == 14 {
            match cond {
                Ok(c) => Ok(
                    Instruction::Ret(ShortConditional { scc, dest: c, rs1, short_source: ss }),
                ),
                Err(e) => Err(e),
            }
        } else if sub == 15 {
            match cond {
                Ok(c) => Ok(
                    Instruction::Reti(ShortConditional { scc, dest: c, rs1, short_source: ss }),
                ),
                Err(e) => Err(e),
            }
        } else {
            Err(DecodeError::InvalidInstruction { loc: 0xf, opcode: w })
        }
    } else if group == 1 {
        if sub == 1 {
            Ok(Instruction::Sll(ShortInstruction { scc, dest, rs1, short_source: ss }))
        } else if sub == 2 {
            Ok(Instruction::Sra(ShortInstruction { scc, dest, rs1, short_source: ss }))
        } else if sub == 3 {
            Ok(Instruction::Srl(ShortInstruction { scc, dest, rs1, short_source: ss }))
        } else if sub == 4 {
            Ok(Instruction::Ldhi(LongInstruction { scc, dest, imm19 }))
        } else if sub == 5 {
            Ok(Instruction::And(ShortInstruction { scc, dest, rs1, short_source: ss }))
        } else if sub == 6 {
            Ok(Instruction::Or(ShortInstruction { scc, dest, rs1, short_source: ss }))
        } else if sub == 7 {
            Ok(Instruction::Xor(ShortInstruction { scc, dest, rs1, short_source: ss }))
        } else if sub == 8 {
            Ok(Instruction::Add(ShortInstruction { scc, dest, rs1, short_source: ss }))
        } else if sub == 9 {
            Ok(Instruction::Addc(ShortInstruction { scc, dest, rs1, short_source: ss }))
        } else if sub == 12 {
            Ok(Instruction::Sub(ShortInstruction { scc, dest, rs1, short_source: ss }))
        } else if sub == 13 {
            Ok(Instruction::Subc(ShortInstruction { scc, dest, rs1, short_source: ss }))
        } else if sub == 14 {
            Ok(Instruction::Subi(ShortInstruction { scc, dest, rs1, short_source: ss }))
        } else if sub == 15 {
            Ok(Instruction::Subci(ShortInstruction { scc, dest, rs1, short_source: ss }))
        } else {
            Err(DecodeError::InvalidInstruction { loc: 0xf, opcode: w })
        }
    } else if group == 2 {
        if sub == 6 {
            Ok(Instruction::Ldxw(ShortInstruction { scc, dest, rs1, short_source: ss }))
        } else if sub == 7 {
            Ok(Instruction::Ldrw(LongInstruction { scc, dest, imm19 }))
        } else if sub == 8 {
            Ok(Instruction::Ldxhu(ShortInstruction { scc, dest, rs1, short_source: ss }))
        } else if sub == 9 {
            Ok(Instruction::Ldrhu(LongInstruction { scc, dest, imm19 }))
        } else if sub == 10 {
            Ok(Instruction::Ldxhs(ShortInstruction { scc, dest, rs1, short_source: ss }))
        } else if sub == 11 {
            Ok(Instruction::Ldrhs(LongInstruction { scc, dest, imm19 }))
        } else if sub == 12 {
            Ok(Instruction::Ldxbu(ShortInstruction { scc, dest, rs1, short_source: ss }))
        } else if sub == 13 {
            Ok(Instruction::Ldrbu(LongInstruction { scc, dest, imm19 }))
        } else if sub == 14 {
            Ok(Instruction::Ldxbs(ShortInstruction { scc, dest, rs1, short_source: ss }))
        } else if sub == 15 {
            Ok(Instruction::Ldrbs(LongInstruction { scc, dest, imm19 }))
        } else {
            Err(DecodeError::InvalidInstruction { loc: 0xf, opcode: w })
        }
    } else if group == 3 {
        if sub == 6 {
            Ok(Instruction::Stxw(ShortInstruction { scc, dest, rs1, short_source: ss }))
        } else if sub == 7 {
            Ok(Instruction::Strw(LongInstruction { scc, dest, imm19 }))
        } else if sub == 10 {
            Ok(Instruction::Stxh(ShortInstruction { scc, dest, rs1, short_source: ss }))
        } else if sub == 11 {
            Ok(Instruction::Strh(LongInstruction { scc, dest, imm19 }))
        } else if sub == 14 {
            Ok(Instruction::Stxb(ShortInstruction { scc, dest, rs1, short_source: ss }))
        } else if sub == 15 {
            Ok(Instruction::Strb(LongInstruction { scc, dest, imm19 }))
        } else {
            Err(DecodeError::InvalidInstruction { loc: 0xf, opcode: w })
        }
    } else {
        // The top opcode bit is reserved for extensions.
        Err(DecodeError::InvalidInstruction { loc: 0x8, opcode: w })
    }
}

/// Lay an instruction out as its 32-bit word.
pub fn encode(inst: Instruction) -> (r: u32)
    ensures
        r == inst.spec_encode(),
{
    inst.encode()
}

/// The encoding of the canonical no-op, `AND r0, r0, 0`.
pub fn noop() -> (r: u32)
    ensures
        r == 0x2a002000u32,
        spec_decode(r) == Ok::<Instruction, DecodeError>(
            Instruction::And(
                ShortInstruction {
                    scc: false,
                    dest: 0,
                    rs1: 0,
                    short_source: ShortSource::UImm13(0),
                },
            ),
        ),
{
    let w = encode(
        Instruction::And(
            ShortInstruction::new(false, 0, 0, ShortSource::UImm13(0)),
        ),
    );
    proof {
        lemma_short_fields(0x15, false, 0, 0, true, 0);
        assert(pack_short(0x15, false, 0, 0, true, 0) == 0x2a002000u32) by (bit_vector);
        lemma_decode_encode_roundtrip(
            Instruction::And(
                ShortInstruction {
                    scc: false,
                    dest: 0,
                    rs1: 0,
                    short_source: ShortSource::UImm13(0),
                },
            ),
        );
    }
    w
}

/// The conditional in bits 22:19 of an instruction word, or an
/// `InvalidJumpCondition` error for code 0.
fn get_cond_from_opcode(opcode: u32) -> (r: Result<Conditional, DecodeError>)
    ensures
        r == spec_cond_of((opcode >> 19) & 0xf),
{
    let code = (opcode >> 19) & 0xf;
    if code == 1 {
        Ok(Conditional::Gt)
    } else if code == 2 {
        Ok(Conditional::Le)
    } else if code == 3 {
        Ok(Conditional::Ge)
    } else if code == 4 {
        Ok(Conditional::Lt)
    } else if code == 5 {
        Ok(Conditional::Hi)
    } else if code == 6 {
        Ok(Conditional::Los)
    } else if code == 7 {
        Ok(Conditional::Lonc)
    } else if code == 8 {
        Ok(Conditional::Hisc)
    } else if code == 9 {
        Ok(Conditional::Pl)
    } else if code == 10 {
        Ok(Conditional::Mi)
    } else if code == 11 {
        Ok(Conditional::Ne)
    } else if code == 12 {
        Ok(Conditional::Eq)
    } else if code == 13 {
        Ok(Conditional::Nv)
    } else if code == 14 {
        Ok(Conditional::V)
    } else if code == 15 {
        Ok(Conditional::Alw)
    } else {
        Err(DecodeError::InvalidJumpCondition { code })
    }
}

/// Decode a 32-bit word into an instruction, refusing the reserved-bit
/// patterns of the opcode table and conditional code 0.
pub fn decode(opcode: u32) -> (r: Result<Instruction, DecodeError>)
    ensures
        r == spec_decode(opcode),
{
    let w = opcode;
    let scc = w & SCC_LOC_WORD != 0;
    let dest = ((w >> 19) & 0x1f) as u8;
    let rs1 = ((w >> 14) & 0x1f) as u8;
    let imm19 = w & 0x7ffff;
    let ss = if w & 0x2000 != 0 {
        ShortSource::UImm13(w & 0x1fff)
    } else {
        ShortSource::Reg((w & 0x1f) as u8)
    };
    let op = w >> 25;
    let group = op / 16;
    let sub = op % 16;
    if group == 0 {
        if sub == 1 {
            Ok(Instruction::Calli(ShortInstruction::new(scc, dest, rs1, ss)))
        } else if sub == 2 {
            Ok(Instruction::GetPSW(ShortInstruction::new(scc, dest, rs1, ss)))
        } else if sub == 3 {
            Ok(Instruction::GetLPC(ShortInstruction::new(scc, dest, rs1, ss)))
        } else if sub == 4 {
            Ok(Instruction::PutPSW(ShortInstruction::new(scc, dest, rs1, ss)))
        } else if sub == 8 {
            Ok(Instruction::Callx(ShortInstruction::new(scc, dest, rs1, ss)))
        } else if sub == 9 {
            Ok(Instruction::Callr(LongInstruction::new(scc, dest, imm19)))
        } else if sub == 12 {
            match get_cond_from_opcode(w) {
                Ok(c) => Ok(Instruction::Jmpx(ShortConditional::new(scc, c, rs1, ss))),
                Err(e) => Err(e),
            }
        } else if sub == 13 {
            match get_cond_from_opcode(w) {
                Ok(c) => Ok(Instruction::Jmpr(LongConditional::new(scc, c, imm19))),
                Err(e) => Err(e),
            }
        } else if sub == 14 {
            match get_cond_from_opcode(w) {
                Ok(c) => Ok(Instruction::Ret(ShortConditional::new(scc, c, rs1, ss))),
                Err(e) => Err(e),
            }
        } else if sub == 15 {
            match get_cond_from_opcode(w) {
                Ok(c) => Ok(Instruction::Reti(ShortConditional::new(scc, c, rs1, ss))),
                Err(e) => Err(e),
            }
        } else {
            Err(DecodeError::InvalidInstruction { loc: 0xf, opcode: w })
        }
    } else if group == 1 {
        if sub == 1 {
            Ok(Instruction::Sll(ShortInstruction::new(scc, dest, rs1, ss)))
        } else if sub == 2 {
            Ok(Instruction::Sra(ShortInstruction::new(scc, dest, rs1, ss)))
        } else if sub == 3 {
            Ok(Instruction::Srl(ShortInstruction::new(scc, dest, rs1, ss)))
        } else if sub == 4 {
            Ok(Instruction::Ldhi(LongInstruction::new(scc, dest, imm19)))
        } else if sub == 5 {
            Ok(Instruction::And(ShortInstruction::new(scc, dest, rs1, ss)))
        } else if sub == 6 {
            Ok(Instruction::Or(ShortInstruction::new(scc, dest, rs1, ss)))
        } else if sub == 7 {
            Ok(Instruction::Xor(ShortInstruction::new(scc, dest, rs1, ss)))
        } else if sub == 8 {
            Ok(Instruction::Add(ShortInstruction::new(scc, dest, rs1, ss)))
        } else if sub == 9 {
            Ok(Instruction::Addc(ShortInstruction::new(scc, dest, rs1, ss)))
        } else if sub == 12 {
            Ok(Instruction::Sub(ShortInstruction::new(scc, dest, rs1, ss)))
        } else if sub == 13 {
            Ok(Instruction::Subc(ShortInstruction::new(scc, dest, rs1, ss)))
        } else if sub == 14 {
            Ok(Instruction::Subi(ShortInstruction::new(scc, dest, rs1, ss)))
        } else if sub == 15 {
            Ok(Instruction::Subci(ShortInstruction::new(scc, dest, rs1, ss)))
        } else {
            Err(DecodeError::InvalidInstruction { loc: 0xf, opcode: w })
        }
    } else if group == 2 {
        if sub == 6 {
            Ok(Instruction::Ldxw(ShortInstruction::new(scc, dest, rs1, ss)))
        } else if sub == 7 {
            Ok(Instruction::Ldrw(LongInstruction::new(scc, dest, imm19)))
        } else if sub == 8 {
            Ok(Instruction::Ldxhu(ShortInstruction::new(scc, dest, rs1, ss)))
        } else if sub == 9 {
            Ok(Instruction::Ldrhu(LongInstruction::new(scc, dest, imm19)))
        } else if sub == 10 {
            Ok(Instruction::Ldxhs(ShortInstruction::new(scc, dest, rs1, ss)))
        } else if sub == 11 {
            Ok(Instruction::Ldrhs(LongInstruction::new(scc, dest, imm19)))
        } else if sub == 12 {
            Ok(Instruction::Ldxbu(ShortInstruction::new(scc, dest, rs1, ss)))
        } else if sub == 13 {
            Ok(Instruction::Ldrbu(LongInstruction::new(scc, dest, imm19)))
        } else if sub == 14 {
            Ok(Instruction::Ldxbs(ShortInstruction::new(scc, dest, rs1, ss)))
        } else if sub == 15 {
            Ok(Instruction::Ldrbs(LongInstruction::new(scc, dest, imm19)))
        } else {
            Err(DecodeError::InvalidInstruction { loc: 0xf, opcode: w })
        }
    } else if group == 3 {
        if sub == 6 {
            Ok(Instruction::Stxw(ShortInstruction::new(scc, dest, rs1, ss)))
        } else if sub == 7 {
            Ok(Instruction::Strw(LongInstruction::new(scc, dest, imm19)))
        } else if sub == 10 {
            Ok(Instruction::Stxh(ShortInstruction::new(scc, dest, rs1, ss)))
        } else if sub == 11 {
            Ok(Instruction::Strh(LongInstruction::new(scc, dest, imm19)))
        } else if sub == 14 {
            Ok(Instruction::Stxb(ShortInstruction::new(scc, dest, rs1, ss)))
        } else if sub == 15 {
            Ok(Instruction::Strb(LongInstruction::new(scc, dest, imm19)))
        } else {
            Err(DecodeError::InvalidInstruction { loc: 0xf, opcode: w })
        }
    } else {
        Err(DecodeError::InvalidInstruction { loc: 0x8, opcode: w })
    }
}

/// Location of the SCC flag, repeated here so the decoder does not pull
/// the whole constant table in.
const SCC_LOC_WORD: u32 = 0x1000000;

/// A conditional code round-trips through its conditional.
proof fn lemma_cond_roundtrip(c: Conditional)
    ensures
        spec_cond_of(cond_code(c)) == Ok::<Conditional, DecodeError>(c),
        1 <= cond_code(c) <= 15,
{
}

/// Decoding the encoding of any well-formed instruction yields the
/// instruction back: the decoder is a left inverse of the encoder over
/// instructions whose fields sit inside their bit ranges.
pub proof fn lemma_decode_encode_roundtrip(x: Instruction)
    requires
        x.wf(),
    ensures
        spec_decode(x.spec_encode()) == Ok::<Instruction, DecodeError>(x),
{
    match x {
        Instruction::Calli(s) => short_case(0x01, s),
        Instruction::GetPSW(s) => short_case(0x02, s),
        Instruction::GetLPC(s) => short_case(0x03, s),
        Instruction::PutPSW(s) => short_case(0x04, s),
        Instruction::Callx(s) => short_case(0x08, s),
        Instruction::Callr(l) => long_case(0x09, l),
        Instruction::Jmpx(s) => short_cond_case(0x0c, s),
        Instruction::Jmpr(l) => long_cond_case(0x0d, l),
        Instruction::Ret(s) => short_cond_case(0x0e, s),
        Instruction::Reti(s) => short_cond_case(0x0f, s),
        Instruction::Sll(s) => short_case(0x11, s),
        Instruction::Sra(s) => short_case(0x12, s),
        Instruction::Srl(s) => short_case(0x13, s),
        Instruction::Ldhi(l) => long_case(0x14, l),
        Instruction::And(s) => short_case(0x15, s),
        Instruction::Or(s) => short_case(0x16, s),
        Instruction::Xor(s) => short_case(0x17, s),
        Instruction::Add(s) => short_case(0x18, s),
        Instruction::Addc(s) => short_case(0x19, s),
        Instruction::Sub(s) => short_case(0x1c, s),
        Instruction::Subc(s) => short_case(0x1d, s),
        Instruction::Subi(s) => short_case(0x1e, s),
        Instruction::Subci(s) => short_case(0x1f, s),
        Instruction::Ldxw(s) => short_case(0x26, s),
        Instruction::Ldrw(l) => long_case(0x27, l),
        Instruction::Ldxhu(s) => short_case(0x28, s),
        Instruction::Ldrhu(l) => long_case(0x29, l),
        Instruction::Ldxhs(s) => short_case(0x2a, s),
        Instruction::Ldrhs(l) => long_case(0x2b, l),
        Instruction::Ldxbu(s) => short_case(0x2c, s),
        Instruction::Ldrbu(l) => long_case(0x2d, l),
        Instruction::Ldxbs(s) => short_case(0x2e, s),
        Instruction::Ldrbs(l) => long_case(0x2f, l),
        Instruction::Stxw(s) => short_case(0x36, s),
        Instruction::Strw(l) => long_case(0x37, l),
        Instruction::Stxh(s) => short_case(0x3a, s),
        Instruction::Strh(l) => long_case(0x3b, l),
        Instruction::Stxb(s) => short_case(0x3e, s),
        Instruction::Strb(l) => long_case(0x3f, l),
    }
}

/// Field extraction for one short-format instruction.
proof fn short_case(op: u32, s: ShortInstruction)
    requires
        op < 0x80,
        s.wf(),
    ensures
        s.spec_encode(op as u8) >> 25 == op,
        (s.spec_encode(op as u8) & 0x1000000 != 0) == s.scc,
        (s.spec_encode(op as u8) >> 19) & 0x1f == s.dest,
        (s.spec_encode(op as u8) >> 14) & 0x1f == s.rs1,
        (s.spec_encode(op as u8) & 0x2000 != 0) == spec_ss_imm_flag(s.short_source),
        s.spec_encode(op as u8) & 0x1fff == spec_ss_bits(s.short_source),
        !spec_ss_imm_flag(s.short_source) ==> s.spec_encode(op as u8) & 0x1f == spec_ss_bits(
            s.short_source,
        ),
{
    lemma_short_fields(
        op,
        s.scc,
        s.dest as u32,
        s.rs1 as u32,
        spec_ss_imm_flag(s.short_source),
        spec_ss_bits(s.short_source),
    );
}

/// Field extraction for one short-format conditional instruction.
proof fn short_cond_case(op: u32, s: ShortConditional)
    requires
        op < 0x80,
        s.wf(),
    ensures
        s.spec_encode(op as u8) >> 25 == op,
        (s.spec_encode(op as u8) & 0x1000000 != 0) == s.scc,
        (s.spec_encode(op as u8) >> 19) & 0xf == cond_code(s.dest),
        spec_cond_of((s.spec_encode(op as u8) >> 19) & 0xf) == Ok::<Conditional, DecodeError>(
            s.dest,
        ),
        (s.spec_encode(op as u8) >> 14) & 0x1f == s.rs1,
        (s.spec_encode(op as u8) & 0x2000 != 0) == spec_ss_imm_flag(s.short_source),
        s.spec_encode(op as u8) & 0x1fff == spec_ss_bits(s.short_source),
        !spec_ss_imm_flag(s.short_source) ==> s.spec_encode(op as u8) & 0x1f == spec_ss_bits(
            s.short_source,
        ),
{
    lemma_cond_roundtrip(s.dest);
    lemma_short_fields(
        op,
        s.scc,
        cond_code(s.dest),
        s.rs1 as u32,
        spec_ss_imm_flag(s.short_source),
        spec_ss_bits(s.short_source),
    );
}

/// Field extraction for one long-format instruction.
proof fn long_case(op: u32, l: LongInstruction)
    requires
        op < 0x80,
        l.wf(),
    ensures
        l.spec_encode(op as u8) >> 25 == op,
        (l.spec_encode(op as u8) & 0x1000000 != 0) == l.scc,
        (l.spec_encode(op as u8) >> 19) & 0x1f == l.dest,
        l.spec_encode(op as u8) & 0x7ffff == l.imm19,
{
    lemma_long_fields(op, l.scc, l.dest as u32, l.imm19);
}

/// Field extraction for one long-format conditional instruction.
proof fn long_cond_case(op: u32, l: LongConditional)
    requires
        op < 0x80,
        l.wf(),
    ensures
        l.spec_encode(op as u8) >> 25 == op,
        (l.spec_encode(op as u8) & 0x1000000 != 0) == l.scc,
        (l.spec_encode(op as u8) >> 19) & 0xf == cond_code(l.dest),
        spec_cond_of((l.spec_encode(op as u8) >> 19) & 0xf) == Ok::<Conditional, DecodeError>(
            l.dest,
        ),
        l.spec_encode(op as u8) & 0x7ffff == l.imm19,
{
    lemma_cond_roundtrip(l.dest);
    lemma_long_fields(op, l.scc, (cond_code(l.dest) + 16) as u32, l.imm19);
}

/// Decode every complete big-endian word of `file` from `pos` on. Returns
/// the first decode error, or nothing when every word decodes.
pub fn decode_file(file: &Vec<u8>, pos: usize) -> (r: Result<(), DecodeError>)
    ensures
        match r {
            Ok(()) => forall|k: int|
                0 <= k && pos + 4 * k + 4 <= file@.len() ==> #[trigger] spec_decode(
                    spec_word_at(file@, pos + 4 * k),
                ) is Ok,
            Err(e) => exists|k: int|
                {
                    &&& 0 <= k
                    &&& pos + 4 * k + 4 <= file@.len()
                    &&& #[trigger] spec_decode(spec_word_at(file@, pos + 4 * k)) == Err::<
                    Instruction,
                    DecodeError>(e)
                },
        },
{
    let len = file.len();
    if len < 4 || pos > len - 4 {
        return Ok(());
    }
    let mut at: usize = pos;
    while at <= len - 4
        invariant
            len == file@.len(),
            4 <= len,
            pos <= at <= len,
            (at - pos) % 4 == 0,
            forall|k: int|
                0 <= k && pos + 4 * k < at ==> #[trigger] spec_decode(
                    spec_word_at(file@, pos + 4 * k),
                ) is Ok,
        decreases file@.len() - at,
    {
        let b0 = file[at];
        let b1 = file[at + 1];
        let b2 = file[at + 2];
        let b3 = file[at + 3];
        let w = (b0 as u32) * 0x1000000 + (b1 as u32) * 0x10000 + (b2 as u32) * 0x100 + (b3 as u32);
        if let Err(e) = decode(w) {
            proof {
                let k = (at - pos) / 4int;
                assert(pos + 4 * k == at);
                assert(spec_decode(spec_word_at(file@, pos + 4 * k)) == Err::<Instruction,
                DecodeError>(e));
            }
            return Err(e);
        }
        proof {
            let k = (at - pos) / 4int;
            assert(pos + 4 * k == at);
            assert forall|j: int| 0 <= j && pos + 4 * j < at + 4 implies #[trigger] spec_decode(
                spec_word_at(file@, pos + 4 * j),
            ) is Ok by {
                if pos + 4 * j < at {
                } else {
                    assert(j == k);
                }
            }
        }
        at = at + 4;
    }
    proof {
        assert forall|k: int| 0 <= k && pos + 4 * k + 4 <= file@.len() implies #[trigger] spec_decode(
            spec_word_at(file@, pos + 4 * k),
        ) is Ok by {
            assert(pos + 4 * k < at);
        }
    }
    Ok(())
}

} // verus!
