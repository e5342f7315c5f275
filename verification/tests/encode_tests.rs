//! Encoder tests: every instruction lays out as its expected word.

use riscii::instruction::{
    Conditional, Instruction, LongConditional, LongInstruction, ShortConditional,
    ShortInstruction, ShortSource,
};

type I = Instruction;
type SS = ShortSource;
type SI = ShortInstruction;

#[test]
fn encode_and_noop_imm() {
    assert_eq!(I::And(SI::new(false, 0, 0, SS::UImm13(0))).encode(), 0x2a002000);
}

#[test]
fn encode_and_noop_register() {
    assert_eq!(I::And(SI::new(false, 0, 0, SS::Reg(0))).encode(), 0x2a000000);
}

#[test]
fn encode_calli() {
    assert_eq!(0x0329f00f, I::Calli(ShortInstruction::new(true, 5, 7, SS::UImm13(4111))).encode());
}

#[test]
fn encode_getpsw() {
    assert_eq!(0x05293fff, I::GetPSW(ShortInstruction::new(true, 5, 4, SS::UImm13(0x1fff))).encode());
}

#[test]
fn encode_getipc() {
    assert_eq!(0x07293f69, I::GetLPC(ShortInstruction::new(true, 5, 4, SS::UImm13(0x1f69))).encode());
}

#[test]
fn encode_putpsw() {
    assert_eq!(0x09293f69, I::PutPSW(ShortInstruction::new(true, 5, 4, SS::UImm13(0x1f69))).encode());
}

#[test]
fn encode_callx() {
    assert_eq!(0x11293f69, I::Callx(ShortInstruction::new(true, 5, 4, SS::UImm13(0x1f69))).encode());
}

#[test]
fn encode_sll() {
    assert_eq!(0x23293f69, I::Sll(ShortInstruction::new(true, 5, 4, SS::UImm13(0x1f69))).encode());
}

#[test]
fn encode_sra() {
    assert_eq!(0x25293f69, I::Sra(ShortInstruction::new(true, 5, 4, SS::UImm13(0x1f69))).encode());
}

#[test]
fn encode_srl() {
    assert_eq!(0x27293f69, I::Srl(ShortInstruction::new(true, 5, 4, SS::UImm13(0x1f69))).encode());
}

#[test]
fn encode_and() {
    assert_eq!(0x2b293f69, I::And(ShortInstruction::new(true, 5, 4, SS::UImm13(0x1f69))).encode());
}

#[test]
fn encode_or() {
    assert_eq!(0x2d293f69, I::Or(ShortInstruction::new(true, 5, 4, SS::UImm13(0x1f69))).encode());
}

#[test]
fn encode_xor() {
    assert_eq!(0x2f293f69, I::Xor(ShortInstruction::new(true, 5, 4, SS::UImm13(0x1f69))).encode());
}

#[test]
fn encode_add() {
    assert_eq!(0x31293f69, I::Add(ShortInstruction::new(true, 5, 4, SS::UImm13(0x1f69))).encode());
}

#[test]
fn encode_addc() {
    assert_eq!(0x33293f69, I::Addc(ShortInstruction::new(true, 5, 4, SS::UImm13(0x1f69))).encode());
}

#[test]
fn encode_sub() {
    assert_eq!(0x39293f69, I::Sub(ShortInstruction::new(true, 5, 4, SS::UImm13(0x1f69))).encode());
}

#[test]
fn encode_subc() {
    assert_eq!(0x3b293f69, I::Subc(ShortInstruction::new(true, 5, 4, SS::UImm13(0x1f69))).encode());
}

#[test]
fn encode_subi() {
    assert_eq!(0x3d293f69, I::Subi(ShortInstruction::new(true, 5, 4, SS::UImm13(0x1f69))).encode());
}

#[test]
fn encode_subci() {
    assert_eq!(0x3f293f69, I::Subci(ShortInstruction::new(true, 5, 4, SS::UImm13(0x1f69))).encode());
}

#[test]
fn encode_ldxw() {
    assert_eq!(0x4d293f69, I::Ldxw(ShortInstruction::new(true, 5, 4, SS::UImm13(0x1f69))).encode());
}

#[test]
fn encode_ldxhu() {
    assert_eq!(0x51293f69, I::Ldxhu(ShortInstruction::new(true, 5, 4, SS::UImm13(0x1f69))).encode());
}

#[test]
fn encode_ldxhs() {
    assert_eq!(0x55293f69, I::Ldxhs(ShortInstruction::new(true, 5, 4, SS::UImm13(0x1f69))).encode());
}

#[test]
fn encode_ldxbu() {
    assert_eq!(0x59293f69, I::Ldxbu(ShortInstruction::new(true, 5, 4, SS::UImm13(0x1f69))).encode());
}

#[test]
fn encode_ldxbs() {
    assert_eq!(0x5d293f69, I::Ldxbs(ShortInstruction::new(true, 5, 4, SS::UImm13(0x1f69))).encode());
}

#[test]
fn encode_stxw() {
    assert_eq!(0x6d293f69, I::Stxw(ShortInstruction::new(true, 5, 4, SS::UImm13(0x1f69))).encode());
}

#[test]
fn encode_stxh() {
    assert_eq!(0x75293f69, I::Stxh(ShortInstruction::new(true, 5, 4, SS::UImm13(0x1f69))).encode());
}

#[test]
fn encode_stxb() {
    assert_eq!(0x7d293f69, I::Stxb(ShortInstruction::new(true, 5, 4, SS::UImm13(0x1f69))).encode());
}

#[test]
fn encode_jmpx() {
    assert_eq!(0x19293f69, I::Jmpx(ShortConditional::new(true, Conditional::Hi, 4, SS::UImm13(0x1f69))).encode());
}

#[test]
fn encode_ret() {
    assert_eq!(0x1d293f69, I::Ret(ShortConditional::new(true, Conditional::Hi, 4, SS::UImm13(0x1f69))).encode());
}

#[test]
fn encode_reti() {
    assert_eq!(0x1f293f69, I::Reti(ShortConditional::new(true, Conditional::Hi, 4, SS::UImm13(0x1f69))).encode());
}

#[test]
fn encode_callr() {
    assert_eq!(0x132b3420, I::Callr(LongInstruction::new(true, 5, 0x33420)).encode());
}

#[test]
fn encode_ldhi() {
    assert_eq!(0x292b3f69, I::Ldhi(LongInstruction::new(true, 5, 0x33f69)).encode());
}

#[test]
fn encode_ldrw() {
    assert_eq!(0x4f2b3f69, I::Ldrw(LongInstruction::new(true, 5, 0x33f69)).encode());
}

#[test]
fn encode_ldrhu() {
    assert_eq!(0x532b3f69, I::Ldrhu(LongInstruction::new(true, 5, 0x33f69)).encode());
}

#[test]
fn encode_ldrhs() {
    assert_eq!(0x572b3f69, I::Ldrhs(LongInstruction::new(true, 5, 0x33f69)).encode());
}

#[test]
fn encode_ldrbu() {
    assert_eq!(0x5b2b3f69, I::Ldrbu(LongInstruction::new(true, 5, 0x33f69)).encode());
}

#[test]
fn encode_ldrbs() {
    assert_eq!(0x5f2b3f69, I::Ldrbs(LongInstruction::new(true, 5, 0x33f69)).encode());
}

#[test]
fn encode_strw() {
    assert_eq!(0x6f2b3f69, I::Strw(LongInstruction::new(true, 5, 0x33f69)).encode());
}

#[test]
fn encode_strh() {
    assert_eq!(0x772b3f69, I::Strh(LongInstruction::new(true, 5, 0x33f69)).encode());
}

#[test]
fn encode_strb() {
    assert_eq!(0x7f2b3f69, I::Strb(LongInstruction::new(true, 5, 0x33f69)).encode());
}

#[test]
fn encode_jmpr() {
    assert_eq!(0x1bfb3420, I::Jmpr(LongConditional::new(true, Conditional::Alw, 0x33420)).encode());
}
