//! Decoder tests: every opcode of the table decodes to its instruction.

use riscii::decode::decode;
use riscii::instruction::{
    Conditional, Instruction, LongConditional, LongInstruction, ShortConditional,
    ShortInstruction, ShortSource,
};

type I = Instruction;
type SS = ShortSource;

// Privileged instructions.

#[test]
fn decode_calli() {
    assert_eq!(
        decode(0x0329f00f),
        Ok(I::Calli(ShortInstruction::new(true, 5, 7, SS::UImm13(4111))))
    );
}

#[test]
fn decode_getpsw() {
    assert_eq!(
        decode(0x05293fff),
        Ok(I::GetPSW(ShortInstruction::new(true, 5, 4, SS::UImm13(0x1fff))))
    );
}

#[test]
fn decode_getipc() {
    assert_eq!(
        decode(0x07293f69),
        Ok(I::GetLPC(ShortInstruction::new(true, 5, 4, SS::UImm13(0x1f69))))
    );
}

#[test]
fn decode_putpsw() {
    assert_eq!(
        decode(0x09293f69),
        Ok(I::PutPSW(ShortInstruction::new(true, 5, 4, SS::UImm13(0x1f69))))
    );
}

// (unprivileged) Call/jump/ret instructions.

#[test]
fn decode_callx() {
    assert_eq!(
        decode(0x11293f69),
        Ok(I::Callx(ShortInstruction::new(true, 5, 4, SS::UImm13(0x1f69))))
    );
}

#[test]
fn decode_callr() {
    assert_eq!(
        decode(0x132b3420),
        Ok(I::Callr(LongInstruction::new(true, 5, 0x33420)))
    );
}

#[test]
fn decode_jmpx() {
    assert_eq!(
        decode(0x19293f69),
        Ok(I::Jmpx(ShortConditional::new(
            true,
            Conditional::Hi,
            4,
            SS::UImm13(0x1f69)
        )))
    );
}

#[test]
fn decode_jmpr() {
    assert_eq!(
        decode(0x1bfb3420),
        Ok(I::Jmpr(LongConditional::new(true, Conditional::Alw, 0x33420)))
    );
}

#[test]
fn decode_ret() {
    assert_eq!(
        decode(0x1d293f69),
        Ok(I::Ret(ShortConditional::new(
            true,
            Conditional::Hi,
            4,
            SS::UImm13(0x1f69)
        )))
    );
}

#[test]
fn decode_reti() {
    assert_eq!(
        decode(0x1f293f69),
        Ok(I::Reti(ShortConditional::new(
            true,
            Conditional::Hi,
            4,
            SS::UImm13(0x1f69)
        )))
    );
}

// Arithmetic and logic instructions (except ldhi).

#[test]
fn decode_sll() {
    assert_eq!(
        decode(0x23293f69),
        Ok(I::Sll(ShortInstruction::new(true, 5, 4, SS::UImm13(0x1f69))))
    );
}

#[test]
fn decode_sra() {
    assert_eq!(
        decode(0x25293f69),
        Ok(I::Sra(ShortInstruction::new(true, 5, 4, SS::UImm13(0x1f69))))
    );
}

#[test]
fn decode_srl() {
    assert_eq!(
        decode(0x27293f69),
        Ok(I::Srl(ShortInstruction::new(true, 5, 4, SS::UImm13(0x1f69))))
    );
}

#[test]
fn decode_ldhi() {
    assert_eq!(
        decode(0x292b3f69),
        Ok(I::Ldhi(LongInstruction::new(true, 5, 0x33f69)))
    );
}

#[test]
fn decode_and() {
    assert_eq!(
        decode(0x2b293f69),
        Ok(I::And(ShortInstruction::new(true, 5, 4, SS::UImm13(0x1f69))))
    );
}

#[test]
fn decode_or() {
    assert_eq!(
        decode(0x2d293f69),
        Ok(I::Or(ShortInstruction::new(true, 5, 4, SS::UImm13(0x1f69))))
    );
}

#[test]
fn decode_xor() {
    assert_eq!(
        decode(0x2f293f69),
        Ok(I::Xor(ShortInstruction::new(true, 5, 4, SS::UImm13(0x1f69))))
    );
}

#[test]
fn decode_add() {
    assert_eq!(
        decode(0x31293f69),
        Ok(I::Add(ShortInstruction::new(true, 5, 4, SS::UImm13(0x1f69))))
    );
}

#[test]
fn decode_addc() {
    assert_eq!(
        decode(0x33293f69),
        Ok(I::Addc(ShortInstruction::new(true, 5, 4, SS::UImm13(0x1f69))))
    );
}

#[test]
fn decode_sub() {
    assert_eq!(
        decode(0x39293f69),
        Ok(I::Sub(ShortInstruction::new(true, 5, 4, SS::UImm13(0x1f69))))
    );
}

#[test]
fn decode_subc() {
    assert_eq!(
        decode(0x3b293f69),
        Ok(I::Subc(ShortInstruction::new(true, 5, 4, SS::UImm13(0x1f69))))
    );
}

#[test]
fn decode_subi() {
    assert_eq!(
        decode(0x3d293f69),
        Ok(I::Subi(ShortInstruction::new(true, 5, 4, SS::UImm13(0x1f69))))
    );
}

#[test]
fn decode_subci() {
    assert_eq!(
        decode(0x3f293f69),
        Ok(I::Subci(ShortInstruction::new(true, 5, 4, SS::UImm13(0x1f69))))
    );
}

// Load instructions.

#[test]
fn decode_ldxw() {
    assert_eq!(
        decode(0x4d293f69),
        Ok(I::Ldxw(ShortInstruction::new(true, 5, 4, SS::UImm13(0x1f69))))
    );
}

#[test]
fn decode_ldrw() {
    assert_eq!(
        decode(0x4f2b3f69),
        Ok(I::Ldrw(LongInstruction::new(true, 5, 0x33f69)))
    );
}

#[test]
fn decode_ldxhu() {
    assert_eq!(
        decode(0x51293f69),
        Ok(I::Ldxhu(ShortInstruction::new(true, 5, 4, SS::UImm13(0x1f69))))
    );
}

#[test]
fn decode_ldrhu() {
    assert_eq!(
        decode(0x532b3f69),
        Ok(I::Ldrhu(LongInstruction::new(true, 5, 0x33f69)))
    );
}

#[test]
fn decode_ldxhs() {
    assert_eq!(
        decode(0x55293f69),
        Ok(I::Ldxhs(ShortInstruction::new(true, 5, 4, SS::UImm13(0x1f69))))
    );
}

#[test]
fn decode_ldrhs() {
    assert_eq!(
        decode(0x572b3f69),
        Ok(I::Ldrhs(LongInstruction::new(true, 5, 0x33f69)))
    );
}

#[test]
fn decode_ldxbu() {
    assert_eq!(
        decode(0x59293f69),
        Ok(I::Ldxbu(ShortInstruction::new(true, 5, 4, SS::UImm13(0x1f69))))
    );
}

#[test]
fn decode_ldrbu() {
    assert_eq!(
        decode(0x5b2b3f69),
        Ok(I::Ldrbu(LongInstruction::new(true, 5, 0x33f69)))
    );
}

#[test]
fn decode_ldxbs() {
    assert_eq!(
        decode(0x5d293f69),
        Ok(I::Ldxbs(ShortInstruction::new(true, 5, 4, SS::UImm13(0x1f69))))
    );
}

#[test]
fn decode_ldrbs() {
    assert_eq!(
        decode(0x5f2b3f69),
        Ok(I::Ldrbs(LongInstruction::new(true, 5, 0x33f69)))
    );
}

// Store instructions.

#[test]
fn decode_stxw() {
    assert_eq!(
        decode(0x6d293f69),
        Ok(I::Stxw(ShortInstruction::new(true, 5, 4, SS::UImm13(0x1f69))))
    );
}

#[test]
#[allow(non_snake_case)]
fn decode_Strw() {
    assert_eq!(
        decode(0x6f2b3f69),
        Ok(I::Strw(LongInstruction::new(true, 5, 0x33f69)))
    );
}

#[test]
fn decode_stxh() {
    assert_eq!(
        decode(0x75293f69),
        Ok(I::Stxh(ShortInstruction::new(true, 5, 4, SS::UImm13(0x1f69))))
    );
}

#[test]
#[allow(non_snake_case)]
fn decode_Strh() {
    assert_eq!(
        decode(0x772b3f69),
        Ok(I::Strh(LongInstruction::new(true, 5, 0x33f69)))
    );
}

#[test]
fn decode_stxb() {
    assert_eq!(
        decode(0x7d293f69),
        Ok(I::Stxb(ShortInstruction::new(true, 5, 4, SS::UImm13(0x1f69))))
    );
}

#[test]
#[allow(non_snake_case)]
fn decode_Strb() {
    assert_eq!(
        decode(0x7f2b3f69),
        Ok(I::Strb(LongInstruction::new(true, 5, 0x33f69)))
    );
}

// Short source tests.

#[test]
fn ss_uimm_to_simm1() {
    // The raw immediate is 0x100f; its 13-bit signed reading is the sign
    // extension 0x100f - 0x2000.
    assert_eq!(SS::new(0xf00f, false).uimm_to_simm(), SS::SImm13(-4081));
}

#[test]
fn ss_uimm_to_simm2() {
    assert_eq!(
        SS::new(0xf0ff, false).uimm_to_simm(),
        SS::SImm13(0x10ff - 0x2000)
    );
}
