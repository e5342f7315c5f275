//! The instruction model: the tagged instruction variant, its two shapes
//! (short source and long immediate), branch conditionals, and the
//! encoder that lays an instruction back out as its 32-bit word.
//!
//! Bit layout of an encoded instruction: bits 31:25 the 7-bit opcode,
//! 24 the SCC flag, 23:19 the destination (a conditional sits in 22:19),
//! 18:14 rs1, 13 the short-source-is-immediate flag, 12:0 the 13-bit
//! immediate (or rs2 in 4:0), and 18:0 the 19-bit immediate of the long
//! format.

use vstd::prelude::*;

verus! {

/// Location of the SCC flag in an encoded instruction.
pub const SCC_LOC: u32 = 0x1000000;
/// Location of the destination register bits.
pub const DEST_LOC: u32 = 0x00f80000;
/// Location of the rs1 bits.
pub const RS1_LOC: u32 = 0x7c000;
/// Location of the rs2 bits.
pub const RS2_LOC: u32 = 0x1f;
/// Location of the 19-bit immediate of the long format.
pub const IMM19_LOC: u32 = 0x7ffff;
/// Location of the short-source-is-immediate flag.
pub const SHORT_SOURCE_TYPE_LOC: u32 = 0x2000;
/// Location of the opcode bits.
pub const OPCODE_LOC: u32 = 0xfe000000;
/// Location of the sign bit of a 13-bit immediate.
pub const SHORT_IMM_SIGN_LOC: u32 = 0x1000;
/// The bits a sign-extended 13-bit immediate fills above its own width.
pub const SHORT_IMM_SIGNEXT_BITS: u32 = 0xffffe000;
/// Location of the sign bit of a 32-bit word.
pub const SIGN_BIT_LOC: u32 = 0x80000000;

/// Types of conditionals the machine supports, a 4-bit code from 1 to 15.
#[derive(PartialEq, Eq, Copy, Clone, Debug, Structural)]
pub enum Conditional {
    /// Greater than (signed >).
    Gt,
    /// Less than or equal to (signed <=).
    Le,
    /// Greater than or equal to (signed >=).
    Ge,
    /// Less than (signed <).
    Lt,
    /// Higher than (unsigned >).
    Hi,
    /// Lower than or same (unsigned <=).
    Los,
    /// Lower than, no carry (unsigned <).
    Lonc,
    /// Higher than, carry set (unsigned >=).
    Hisc,
    /// Plus (sign clear).
    Pl,
    /// Minus (sign set).
    Mi,
    /// Not equal.
    Ne,
    /// Equal.
    Eq,
    /// No overflow (signed arithmetic).
    Nv,
    /// Overflow (signed arithmetic).
    V,
    /// Always (constant 1).
    Alw,
}

/// The 4-bit code a conditional is encoded as.
pub open spec fn cond_code(c: Conditional) -> u32 {
    match c {
        Conditional::Gt => 1,
        Conditional::Le => 2,
        Conditional::Ge => 3,
        Conditional::Lt => 4,
        Conditional::Hi => 5,
        Conditional::Los => 6,
        Conditional::Lonc => 7,
        Conditional::Hisc => 8,
        Conditional::Pl => 9,
        Conditional::Mi => 10,
        Conditional::Ne => 11,
        Conditional::Eq => 12,
        Conditional::Nv => 13,
        Conditional::V => 14,
        Conditional::Alw => 15,
    }
}

/// The 'source' of a short-format instruction: a register name or a
/// 13-bit immediate, which may have been converted to its signed reading.
#[derive(PartialEq, Eq, Copy, Clone, Debug, Structural)]
pub enum ShortSource {
    /// Register name.
    Reg(u8),
    /// Unsigned 13-bit immediate, zero-padded to 32 bits.
    UImm13(u32),
    /// The signed reading of a 13-bit immediate: the value sign-extended
    /// to 32 bits.
    SImm13(i32),
}

/// The low 13 bits of the signed reading of an immediate.
pub open spec fn low13_of_signed(s: i32) -> u32 {
    ((s as i64) & 0x1fff) as u32
}

/// The 13 bits a short source occupies in an encoded instruction.
pub open spec fn spec_ss_bits(ss: ShortSource) -> u32 {
    match ss {
        ShortSource::Reg(r) => r as u32,
        ShortSource::UImm13(u) => u,
        ShortSource::SImm13(s) => low13_of_signed(s),
    }
}

/// Whether a short source is encoded with the immediate flag set.
pub open spec fn spec_ss_imm_flag(ss: ShortSource) -> bool {
    !(ss is Reg)
}

/// A short source is representable: register names are 5 bits and
/// immediates 13 bits, still in their unsigned form.
pub open spec fn ss_wf(ss: ShortSource) -> bool {
    match ss {
        ShortSource::Reg(r) => r < 32,
        ShortSource::UImm13(u) => u < 0x2000,
        ShortSource::SImm13(_) => false,
    }
}

impl ShortSource {
    /// Decode the short source of an instruction word: a 13-bit immediate
    /// when bit 13 is set, a register name otherwise. When `signed` is
    /// given, an immediate is converted to its signed reading.
    pub fn new(opcode: u32, signed: bool) -> (r: ShortSource)
        ensures
            r == ShortSource::spec_new(opcode, signed),
    {
        if opcode & 0x2000 != 0 {
            let tmp = ShortSource::UImm13(opcode & 0x1fff);
            if signed {
                tmp.uimm_to_simm()
            } else {
                tmp
            }
        } else {
            ShortSource::Reg((opcode & 0x1f) as u8)
        }
    }

    /// The short source decoded from an instruction word.
    pub open spec fn spec_new(opcode: u32, signed: bool) -> ShortSource {
        if opcode & 0x2000 != 0 {
            if signed {
                ShortSource::UImm13(opcode & 0x1fff).spec_uimm_to_simm()
            } else {
                ShortSource::UImm13(opcode & 0x1fff)
            }
        } else {
            ShortSource::Reg((opcode & 0x1f) as u8)
        }
    }

    /// Convert an unsigned 13-bit immediate with its sign bit set to its
    /// signed reading, the value sign-extended to 32 bits (`0x1fff`
    /// becomes -1); leave everything else alone.
    pub fn uimm_to_simm(&self) -> (r: ShortSource)
        ensures
            r == self.spec_uimm_to_simm(),
    {
        match *self {
            ShortSource::UImm13(u) => {
                if u & 0x1000 != 0 && u < 0x2000 {
                    ShortSource::SImm13(u as i32 - 0x2000)
                } else {
                    ShortSource::UImm13(u)
                }
            },
            _ => *self,
        }
    }

    /// The signed conversion of a 13-bit immediate: sign extension, so a
    /// raw value with bit 12 set reads as `u - 0x2000`. A value wider
    /// than 13 bits is no immediate and stays as it is.
    pub open spec fn spec_uimm_to_simm(self) -> ShortSource {
        match self {
            ShortSource::UImm13(u) => {
                if u & 0x1000 != 0 && u < 0x2000 {
                    ShortSource::SImm13((u - 0x2000) as i32)
                } else {
                    self
                }
            },
            _ => self,
        }
    }
}

/// Short instruction format data: SCC flag, destination and source
/// registers, and the short source.
#[derive(PartialEq, Eq, Copy, Clone, Debug, Structural)]
pub struct ShortInstruction {
    /// Update the condition codes.
    pub scc: bool,
    /// Destination register.
    pub dest: u8,
    /// Source register.
    pub rs1: u8,
    /// Short source data.
    pub short_source: ShortSource,
}

/// Long instruction format data: SCC flag, destination register, and a
/// 19-bit immediate.
#[derive(PartialEq, Eq, Copy, Clone, Debug, Structural)]
pub struct LongInstruction {
    /// Update the condition codes.
    pub scc: bool,
    /// Destination register.
    pub dest: u8,
    /// 19-bit constant.
    pub imm19: u32,
}

/// Short conditional instruction format data: the destination field holds
/// a branch conditional.
#[derive(PartialEq, Eq, Copy, Clone, Debug, Structural)]
pub struct ShortConditional {
    /// Update the condition codes.
    pub scc: bool,
    /// Branch conditional.
    pub dest: Conditional,
    /// Source register.
    pub rs1: u8,
    /// Short source data.
    pub short_source: ShortSource,
}

/// Long conditional instruction format data: the destination field holds
/// a branch conditional.
#[derive(PartialEq, Eq, Copy, Clone, Debug, Structural)]
pub struct LongConditional {
    /// Update the condition codes.
    pub scc: bool,
    /// Branch conditional.
    pub dest: Conditional,
    /// 19-bit constant.
    pub imm19: u32,
}

/// An instruction word assembled from the short format's fields.
pub open spec fn pack_short(
    op: u32,
    scc: bool,
    dest: u32,
    rs1: u32,
    imm_flag: bool,
    ss: u32,
) -> u32 {
    (op << 25) | (if scc {
        0x1000000u32
    } else {
        0u32
    }) | (dest << 19) | (rs1 << 14) | (if imm_flag {
        0x2000u32
    } else {
        0u32
    }) | ss
}

/// An instruction word assembled from the long format's fields.
pub open spec fn pack_long(op: u32, scc: bool, dest: u32, imm19: u32) -> u32 {
    (op << 25) | (if scc {
        0x1000000u32
    } else {
        0u32
    }) | (dest << 19) | imm19
}

/// Every field of a packed short-format word reads back as packed.
pub proof fn lemma_short_fields(op: u32, scc: bool, dest: u32, rs1: u32, imm_flag: bool, ss: u32)
    by (bit_vector)
    requires
        op < 0x80,
        dest < 0x20,
        rs1 < 0x20,
        ss < 0x2000,
        !imm_flag ==> ss < 0x20,
    ensures
        pack_short(op, scc, dest, rs1, imm_flag, ss) >> 25 == op,
        (pack_short(op, scc, dest, rs1, imm_flag, ss) & 0x1000000 != 0) == scc,
        (pack_short(op, scc, dest, rs1, imm_flag, ss) >> 19) & 0x1f == dest,
        dest < 0x10 ==> (pack_short(op, scc, dest, rs1, imm_flag, ss) >> 19) & 0xf == dest,
        (pack_short(op, scc, dest, rs1, imm_flag, ss) >> 14) & 0x1f == rs1,
        (pack_short(op, scc, dest, rs1, imm_flag, ss) & 0x2000 != 0) == imm_flag,
        pack_short(op, scc, dest, rs1, imm_flag, ss) & 0x1fff == ss,
        !imm_flag ==> pack_short(op, scc, dest, rs1, imm_flag, ss) & 0x1f == ss,
{
}

/// Every field of a packed long-format word reads back as packed.
pub proof fn lemma_long_fields(op: u32, scc: bool, dest: u32, imm19: u32)
    by (bit_vector)
    requires
        op < 0x80,
        dest < 0x20,
        imm19 < 0x80000,
    ensures
        pack_long(op, scc, dest, imm19) >> 25 == op,
        (pack_long(op, scc, dest, imm19) & 0x1000000 != 0) == scc,
        (pack_long(op, scc, dest, imm19) >> 19) & 0x1f == dest,
        (pack_long(op, scc, dest, imm19) >> 19) & 0xf == dest % 16,
        pack_long(op, scc, dest, imm19) & 0x7ffff == imm19,
{
}

impl ShortInstruction {
    /// Create a new short instruction.
    pub fn new(scc: bool, dest: u8, rs1: u8, short_source: ShortSource) -> (r: ShortInstruction)
        ensures
            r == (ShortInstruction { scc, dest, rs1, short_source }),
    {
        ShortInstruction { scc, dest, rs1, short_source }
    }

    /// The fields are representable in their bit ranges.
    pub open spec fn wf(self) -> bool {
        self.dest < 32 && self.rs1 < 32 && ss_wf(self.short_source)
    }

    /// The word this instruction encodes to under the given opcode.
    pub open spec fn spec_encode(self, opcode: u8) -> u32 {
        pack_short(
            opcode as u32,
            self.scc,
            self.dest as u32,
            self.rs1 as u32,
            spec_ss_imm_flag(self.short_source),
            spec_ss_bits(self.short_source),
        )
    }

    /// Lay the instruction out as its 32-bit word under the given opcode.
    pub fn encode(&self, opcode: u8) -> (r: u32)
        ensures
            r == self.spec_encode(opcode),
    {
        let scc = if self.scc {
            SCC_LOC
        } else {
            0
        };
        let dest = (self.dest as u32) << 19;
        let rs1 = (self.rs1 as u32) << 14;
        let (ss_bit, ss) = encode_short_source(&self.short_source);
        ((opcode as u32) << 25) | scc | dest | rs1 | ss_bit | ss
    }
}

impl LongInstruction {
    /// Create a new long instruction.
    pub fn new(scc: bool, dest: u8, imm19: u32) -> (r: LongInstruction)
        ensures
            r == (LongInstruction { scc, dest, imm19 }),
    {
        LongInstruction { scc, dest, imm19 }
    }

    /// The fields are representable in their bit ranges.
    pub open spec fn wf(self) -> bool {
        self.dest < 32 && self.imm19 < 0x80000
    }

    /// The word this instruction encodes to under the given opcode.
    pub open spec fn spec_encode(self, opcode: u8) -> u32 {
        pack_long(opcode as u32, self.scc, self.dest as u32, self.imm19)
    }

    /// Lay the instruction out as its 32-bit word under the given opcode.
    pub fn encode(&self, opcode: u8) -> (r: u32)
        ensures
            r == self.spec_encode(opcode),
    {
        let scc = if self.scc {
            SCC_LOC
        } else {
            0
        };
        let dest = (self.dest as u32) << 19;
        ((opcode as u32) << 25) | scc | dest | self.imm19
    }
}

impl ShortConditional {
    /// Create a new short conditional instruction.
    pub fn new(scc: bool, dest: Conditional, rs1: u8, short_source: ShortSource) -> (r:
        ShortConditional)
        ensures
            r == (ShortConditional { scc, dest, rs1, short_source }),
    {
        ShortConditional { scc, dest, rs1, short_source }
    }

    /// The fields are representable in their bit ranges.
    pub open spec fn wf(self) -> bool {
        self.rs1 < 32 && ss_wf(self.short_source)
    }

    /// The word this instruction encodes to under the given opcode.
    pub open spec fn spec_encode(self, opcode: u8) -> u32 {
        pack_short(
            opcode as u32,
            self.scc,
            cond_code(self.dest),
            self.rs1 as u32,
            spec_ss_imm_flag(self.short_source),
            spec_ss_bits(self.short_source),
        )
    }

    /// Lay the instruction out as its 32-bit word under the given opcode.
    pub fn encode(&self, opcode: u8) -> (r: u32)
        ensures
            r == self.spec_encode(opcode),
    {
        let scc = if self.scc {
            SCC_LOC
        } else {
            0
        };
        let dest = get_opdata_from_cond(self.dest) << 19;
        let rs1 = (self.rs1 as u32) << 14;
        let (ss_bit, ss) = encode_short_source(&self.short_source);
        ((opcode as u32) << 25) | scc | dest | rs1 | ss_bit | ss
    }
}

impl LongConditional {
    /// Create a new long conditional instruction.
    pub fn new(scc: bool, dest: Conditional, imm19: u32) -> (r: LongConditional)
        ensures
            r == (LongConditional { scc, dest, imm19 }),
    {
        LongConditional { scc, dest, imm19 }
    }

    /// The fields are representable in their bit ranges.
    pub open spec fn wf(self) -> bool {
        self.imm19 < 0x80000
    }

    /// The word this instruction encodes to under the given opcode. The
    /// conditional sits in bits 22:19; the fifth destination bit above it
    /// is a don't-care to the decoder and is canonically set in the long
    /// format.
    pub open spec fn spec_encode(self, opcode: u8) -> u32 {
        pack_long(opcode as u32, self.scc, (cond_code(self.dest) + 16) as u32, self.imm19)
    }

    /// Lay the instruction out as its 32-bit word under the given opcode.
    pub fn encode(&self, opcode: u8) -> (r: u32)
        ensures
            r == self.spec_encode(opcode),
    {
        let scc = if self.scc {
            SCC_LOC
        } else {
            0
        };
        let dest = (get_opdata_from_cond(self.dest) + 16) << 19;
        ((opcode as u32) << 25) | scc | dest | self.imm19
    }
}

/// The immediate flag and low 13 bits a short source encodes to.
fn encode_short_source(ss: &ShortSource) -> (r: (u32, u32))
    ensures
        r.0 == if spec_ss_imm_flag(*ss) {
            0x2000u32
        } else {
            0u32
        },
        r.1 == spec_ss_bits(*ss),
{
    match *ss {
        ShortSource::Reg(r) => (0, r as u32),
        ShortSource::UImm13(u) => (SHORT_SOURCE_TYPE_LOC, u),
        ShortSource::SImm13(s) => {
            let low = ((s as i64) & 0x1fff) as u32;
            proof {
                let s64 = s as i64;
                assert(0 <= (s64 & 0x1fff) < 0x2000) by (bit_vector);
            }
            (SHORT_SOURCE_TYPE_LOC, low)
        },
    }
}

/// The 4-bit encoding of a branch conditional.
fn get_opdata_from_cond(cond: Conditional) -> (r: u32)
    ensures
        r == cond_code(cond),
{
    match cond {
        Conditional::Gt => 1,
        Conditional::Le => 2,
        Conditional::Ge => 3,
        Conditional::Lt => 4,
        Conditional::Hi => 5,
        Conditional::Los => 6,
        Conditional::Lonc => 7,
        Conditional::Hisc => 8,
        Conditional::Pl => 9,
        Conditional::Mi => 10,
        Conditional::Ne => 11,
        Conditional::Eq => 12,
        Conditional::Nv => 13,
        Conditional::V => 14,
        Conditional::Alw => 15,
    }
}

/// A machine instruction, decoded. Short-source instructions carry a
/// register or 13-bit immediate second operand; long-immediate
/// instructions carry a 19-bit constant. Conditional forms carry a branch
/// conditional in the destination field.
#[derive(PartialEq, Eq, Copy, Clone, Debug, Structural)]
pub enum Instruction {
    /// Call interrupt (privileged): push a window and save LSTPC in the
    /// new window's destination register.
    Calli(ShortInstruction),
    /// Read the PSW into the destination's low 13 bits; the top 19 bits
    /// are set.
    GetPSW(ShortInstruction),
    /// Read the last program counter into the destination (privileged).
    GetLPC(ShortInstruction),
    /// Replace the PSW with `(rs1 + short_source)<12:0>` (privileged,
    /// takes effect one cycle late).
    PutPSW(ShortInstruction),
    /// Call the procedure at `rs1 + short_source`: push a window, save PC
    /// in the new window's destination register, and branch.
    Callx(ShortInstruction),
    /// Call the procedure at `PC + imm19`: push a window, save PC in the
    /// new window's destination register, and branch.
    Callr(LongInstruction),
    /// Branch to `rs1 + short_source` when the conditional holds.
    Jmpx(ShortConditional),
    /// Branch to `PC + imm19` when the conditional holds.
    Jmpr(LongConditional),
    /// Return: pop a window and branch to `rs1 + short_source + 8` when
    /// the conditional holds.
    Ret(ShortConditional),
    /// Return from interrupt (privileged): as `Ret`.
    Reti(ShortConditional),
    /// Shift left logical.
    Sll(ShortInstruction),
    /// Shift right logical.
    Srl(ShortInstruction),
    /// Shift right arithmetic.
    Sra(ShortInstruction),
    /// Bitwise OR.
    Or(ShortInstruction),
    /// Bitwise AND.
    And(ShortInstruction),
    /// Bitwise XOR.
    Xor(ShortInstruction),
    /// Add: `d := s1 + s2`.
    Add(ShortInstruction),
    /// Add with carry: `d := s1 + s2 + C`.
    Addc(ShortInstruction),
    /// Subtract: `d := s1 - s2`.
    Sub(ShortInstruction),
    /// Subtract with borrow: `d := s1 - s2 + C - 1`.
    Subc(ShortInstruction),
    /// Subtract inverse: `d := s2 - s1`.
    Subi(ShortInstruction),
    /// Subtract inverse with borrow: `d := s2 - s1 + C - 1`.
    Subci(ShortInstruction),
    /// Load the 19-bit immediate into the top 19 bits of the destination,
    /// with the bottom 13 bits zero.
    Ldhi(LongInstruction),
    /// Load word, register-indexed.
    Ldxw(ShortInstruction),
    /// Load word, PC-relative.
    Ldrw(LongInstruction),
    /// Load half-word signed, register-indexed.
    Ldxhs(ShortInstruction),
    /// Load half-word signed, PC-relative.
    Ldrhs(LongInstruction),
    /// Load half-word unsigned, register-indexed.
    Ldxhu(ShortInstruction),
    /// Load half-word unsigned, PC-relative.
    Ldrhu(LongInstruction),
    /// Load byte signed, register-indexed.
    Ldxbs(ShortInstruction),
    /// Load byte signed, PC-relative.
    Ldrbs(LongInstruction),
    /// Load byte unsigned, register-indexed.
    Ldxbu(ShortInstruction),
    /// Load byte unsigned, PC-relative.
    Ldrbu(LongInstruction),
    /// Store word, register-indexed.
    Stxw(ShortInstruction),
    /// Store word, PC-relative.
    Strw(LongInstruction),
    /// Store half-word, register-indexed.
    Stxh(ShortInstruction),
    /// Store half-word, PC-relative.
    Strh(LongInstruction),
    /// Store byte, register-indexed.
    Stxb(ShortInstruction),
    /// Store byte, PC-relative.
    Strb(LongInstruction),
}

impl Instruction {
    /// The fields of the instruction are representable in their bit
    /// ranges, with immediates still in their raw unsigned form.
    pub open spec fn wf(self) -> bool {
        match self {
            Instruction::Calli(s) => s.wf(),
            Instruction::GetPSW(s) => s.wf(),
            Instruction::GetLPC(s) => s.wf(),
            Instruction::PutPSW(s) => s.wf(),
            Instruction::Callx(s) => s.wf(),
            Instruction::Callr(l) => l.wf(),
            Instruction::Jmpx(s) => s.wf(),
            Instruction::Jmpr(l) => l.wf(),
            Instruction::Ret(s) => s.wf(),
            Instruction::Reti(s) => s.wf(),
            Instruction::Sll(s) => s.wf(),
            Instruction::Srl(s) => s.wf(),
            Instruction::Sra(s) => s.wf(),
            Instruction::Or(s) => s.wf(),
            Instruction::And(s) => s.wf(),
            Instruction::Xor(s) => s.wf(),
            Instruction::Add(s) => s.wf(),
            Instruction::Addc(s) => s.wf(),
            Instruction::Sub(s) => s.wf(),
            Instruction::Subc(s) => s.wf(),
            Instruction::Subi(s) => s.wf(),
            Instruction::Subci(s) => s.wf(),
            Instruction::Ldhi(l) => l.wf(),
            Instruction::Ldxw(s) => s.wf(),
            Instruction::Ldrw(l) => l.wf(),
            Instruction::Ldxhs(s) => s.wf(),
            Instruction::Ldrhs(l) => l.wf(),
            Instruction::Ldxhu(s) => s.wf(),
            Instruction::Ldrhu(l) => l.wf(),
            Instruction::Ldxbs(s) => s.wf(),
            Instruction::Ldrbs(l) => l.wf(),
            Instruction::Ldxbu(s) => s.wf(),
            Instruction::Ldrbu(l) => l.wf(),
            Instruction::Stxw(s) => s.wf(),
            Instruction::Strw(l) => l.wf(),
            Instruction::Stxh(s) => s.wf(),
            Instruction::Strh(l) => l.wf(),
            Instruction::Stxb(s) => s.wf(),
            Instruction::Strb(l) => l.wf(),
        }
    }

    /// The 32-bit word the instruction encodes to.
    pub open spec fn spec_encode(self) -> u32 {
        match self {
            Instruction::Calli(s) => s.spec_encode(0x01),
            Instruction::GetPSW(s) => s.spec_encode(0x02),
            Instruction::GetLPC(s) => s.spec_encode(0x03),
            Instruction::PutPSW(s) => s.spec_encode(0x04),
            Instruction::Callx(s) => s.spec_encode(0x08),
            Instruction::Callr(l) => l.spec_encode(0x09),
            Instruction::Jmpx(s) => s.spec_encode(0x0c),
            Instruction::Jmpr(l) => l.spec_encode(0x0d),
            Instruction::Ret(s) => s.spec_encode(0x0e),
            Instruction::Reti(s) => s.spec_encode(0x0f),
            Instruction::Sll(s) => s.spec_encode(0x11),
            Instruction::Sra(s) => s.spec_encode(0x12),
            Instruction::Srl(s) => s.spec_encode(0x13),
            Instruction::Ldhi(l) => l.spec_encode(0x14),
            Instruction::And(s) => s.spec_encode(0x15),
            Instruction::Or(s) => s.spec_encode(0x16),
            Instruction::Xor(s) => s.spec_encode(0x17),
            Instruction::Add(s) => s.spec_encode(0x18),
            Instruction::Addc(s) => s.spec_encode(0x19),
            Instruction::Sub(s) => s.spec_encode(0x1c),
            Instruction::Subc(s) => s.spec_encode(0x1d),
            Instruction::Subi(s) => s.spec_encode(0x1e),
            Instruction::Subci(s) => s.spec_encode(0x1f),
            Instruction::Ldxw(s) => s.spec_encode(0x26),
            Instruction::Ldrw(l) => l.spec_encode(0x27),
            Instruction::Ldxhu(s) => s.spec_encode(0x28),
            Instruction::Ldrhu(l) => l.spec_encode(0x29),
            Instruction::Ldxhs(s) => s.spec_encode(0x2a),
            Instruction::Ldrhs(l) => l.spec_encode(0x2b),
            Instruction::Ldxbu(s) => s.spec_encode(0x2c),
            Instruction::Ldrbu(l) => l.spec_encode(0x2d),
            Instruction::Ldxbs(s) => s.spec_encode(0x2e),
            Instruction::Ldrbs(l) => l.spec_encode(0x2f),
            Instruction::Stxw(s) => s.spec_encode(0x36),
            Instruction::Strw(l) => l.spec_encode(0x37),
            Instruction::Stxh(s) => s.spec_encode(0x3a),
            Instruction::Strh(l) => l.spec_encode(0x3b),
            Instruction::Stxb(s) => s.spec_encode(0x3e),
            Instruction::Strb(l) => l.spec_encode(0x3f),
        }
    }

    /// Lay the instruction out as its 32-bit word.
    pub fn encode(&self) -> (r: u32)
        ensures
            r == self.spec_encode(),
    {
        match *self {
            Instruction::Calli(s) => s.encode(0x01),
            Instruction::GetPSW(s) => s.encode(0x02),
            Instruction::GetLPC(s) => s.encode(0x03),
            Instruction::PutPSW(s) => s.encode(0x04),
            Instruction::Callx(s) => s.encode(0x08),
            Instruction::Callr(l) => l.encode(0x09),
            Instruction::Jmpx(s) => s.encode(0x0c),
            Instruction::Jmpr(l) => l.encode(0x0d),
            Instruction::Ret(s) => s.encode(0x0e),
            Instruction::Reti(s) => s.encode(0x0f),
            Instruction::Sll(s) => s.encode(0x11),
            Instruction::Sra(s) => s.encode(0x12),
            Instruction::Srl(s) => s.encode(0x13),
            Instruction::Ldhi(l) => l.encode(0x14),
            Instruction::And(s) => s.encode(0x15),
            Instruction::Or(s) => s.encode(0x16),
            Instruction::Xor(s) => s.encode(0x17),
            Instruction::Add(s) => s.encode(0x18),
            Instruction::Addc(s) => s.encode(0x19),
            Instruction::Sub(s) => s.encode(0x1c),
            Instruction::Subc(s) => s.encode(0x1d),
            Instruction::Subi(s) => s.encode(0x1e),
            Instruction::Subci(s) => s.encode(0x1f),
            Instruction::Ldxw(s) => s.encode(0x26),
            Instruction::Ldrw(l) => l.encode(0x27),
            Instruction::Ldxhu(s) => s.encode(0x28),
            Instruction::Ldrhu(l) => l.encode(0x29),
            Instruction::Ldxhs(s) => s.encode(0x2a),
            Instruction::Ldrhs(l) => l.encode(0x2b),
            Instruction::Ldxbu(s) => s.encode(0x2c),
            Instruction::Ldrbu(l) => l.encode(0x2d),
            Instruction::Ldxbs(s) => s.encode(0x2e),
            Instruction::Ldrbs(l) => l.encode(0x2f),
            Instruction::Stxw(s) => s.encode(0x36),
            Instruction::Strw(l) => l.encode(0x37),
            Instruction::Stxh(s) => s.encode(0x3a),
            Instruction::Strh(l) => l.encode(0x3b),
            Instruction::Stxb(s) => s.encode(0x3e),
            Instruction::Strb(l) => l.encode(0x3f),
        }
    }
}

} // verus!
