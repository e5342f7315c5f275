//! The arithmetic logic unit: bitwise operations and add/sub with carry,
//! each in a plain form (result only) and an SCC form (result plus the
//! condition-code bits Z, N, V, C).
//!
//! All arithmetic is 32-bit machine arithmetic: results wrap modulo 2^32,
//! C is the unsigned carry-out (for subtractions, the inverted borrow),
//! and V is signed two's-complement overflow.

use crate::data_path::SCCBits;
use vstd::prelude::*;

verus! {

/// The signed (two's-complement) reading of a 32-bit word.
pub open spec fn to_signed(x: u32) -> int {
    if x >= 0x8000_0000 {
        x - 0x1_0000_0000
    } else {
        x as int
    }
}

/// Bit 31 of a 32-bit word, the sign bit.
pub open spec fn sign_of(x: u32) -> bool {
    x >= 0x8000_0000
}

/// True when a signed sum or difference does not fit in 32 bits.
pub open spec fn signed_overflows(s: int) -> bool {
    s < -0x8000_0000 || s > 0x7fff_ffff
}

/// Reduce a sum or difference that is off by at most one wrap into a
/// 32-bit word.
pub open spec fn wrap_u32(s: int) -> u32
    recommends
        -0x1_0000_0000 <= s < 0x2_0000_0000,
{
    if s < 0 {
        (s + 0x1_0000_0000) as u32
    } else if s > 0xffff_ffff {
        (s - 0x1_0000_0000) as u32
    } else {
        s as u32
    }
}

/// The 32-bit sum `ai + bi + carry_in`.
pub open spec fn alu_add(ai: u32, bi: u32, carry_in: int) -> u32 {
    wrap_u32(ai + bi + carry_in)
}

/// The 32-bit difference `minuend - subtrahend + carry_in - 1`
/// (a carry-in of 1 is a plain subtraction; a carry-in of 0 borrows).
pub open spec fn alu_sub(minuend: u32, subtrahend: u32, carry_in: int) -> u32 {
    wrap_u32(minuend - subtrahend + carry_in - 1)
}

/// The condition codes of a bitwise or shift operation: V and C clear,
/// Z and N from the result.
pub open spec fn bitwise_flags(r: u32) -> SCCBits {
    SCCBits { z: r == 0, n: sign_of(r), v: false, c: false }
}

/// The condition codes of an addition: C is the unsigned carry-out and V
/// is signed overflow.
pub open spec fn add_flags(ai: u32, bi: u32, carry_in: int) -> SCCBits {
    let r = alu_add(ai, bi, carry_in);
    SCCBits {
        z: r == 0,
        n: sign_of(r),
        v: signed_overflows(to_signed(ai) + to_signed(bi) + carry_in),
        c: ai + bi + carry_in > 0xffff_ffff,
    }
}

/// The condition codes of a subtraction: C is the inverted unsigned
/// borrow and V is signed overflow.
pub open spec fn sub_flags(minuend: u32, subtrahend: u32, carry_in: int) -> SCCBits {
    let r = alu_sub(minuend, subtrahend, carry_in);
    SCCBits {
        z: r == 0,
        n: sign_of(r),
        v: signed_overflows(to_signed(minuend) - to_signed(subtrahend) + carry_in - 1),
        c: minuend - subtrahend + carry_in - 1 >= 0,
    }
}

/// A logical left shift; amounts of 32 or more shift every bit out.
pub open spec fn alu_sll(x: u32, s: u32) -> u32 {
    if s >= 32 {
        0
    } else {
        x << s
    }
}

/// A logical right shift; amounts of 32 or more shift every bit out.
pub open spec fn alu_srl(x: u32, s: u32) -> u32 {
    if s >= 32 {
        0
    } else {
        x >> s
    }
}

/// An arithmetic right shift: vacated bits are filled with the sign bit.
pub open spec fn alu_sra(x: u32, s: u32) -> u32 {
    if s >= 32 {
        if sign_of(x) {
            0xffff_ffff
        } else {
            0
        }
    } else if s == 0 {
        x
    } else if sign_of(x) {
        (x >> s) | (0xffff_ffffu32 << (32 - s))
    } else {
        x >> s
    }
}

/// Representation of the arithmetic logic unit: two 32-bit input latches.
/// `ai` is fed by the first source (or the program counter), `bi` by the
/// second source or the immediate.
#[derive(Clone, Copy, Debug, PartialEq, Eq, Structural)]
pub struct ALU {
    /// Input latch 1 for the ALU.
    pub ai: u32,
    /// Input latch 2 for the ALU.
    pub bi: u32,
}

impl ALU {
    /// Create a zeroed-out ALU.
    pub fn new() -> (r: ALU)
        ensures
            r.ai == 0,
            r.bi == 0,
    {
        ALU { ai: 0, bi: 0 }
    }

    // Bitwise operations.

    /// Bitwise AND of the input latches.
    pub fn and(&self) -> (r: u32)
        ensures
            r == (self.ai & self.bi),
    {
        self.ai & self.bi
    }

    /// Bitwise AND of the input latches, with condition codes.
    pub fn and_scc(&self) -> (r: (u32, SCCBits))
        ensures
            r.0 == (self.ai & self.bi),
            r.1 == bitwise_flags(r.0),
    {
        let result = self.and();
        (result, Self::flags_of(result))
    }

    /// Bitwise OR of the input latches.
    pub fn or(&self) -> (r: u32)
        ensures
            r == (self.ai | self.bi),
    {
        self.ai | self.bi
    }

    /// Bitwise OR of the input latches, with condition codes.
    pub fn or_scc(&self) -> (r: (u32, SCCBits))
        ensures
            r.0 == (self.ai | self.bi),
            r.1 == bitwise_flags(r.0),
    {
        let result = self.or();
        (result, Self::flags_of(result))
    }

    /// Bitwise XOR of the input latches.
    pub fn xor(&self) -> (r: u32)
        ensures
            r == (self.ai ^ self.bi),
    {
        self.ai ^ self.bi
    }

    /// Bitwise XOR of the input latches, with condition codes.
    pub fn xor_scc(&self) -> (r: (u32, SCCBits))
        ensures
            r.0 == (self.ai ^ self.bi),
            r.1 == bitwise_flags(r.0),
    {
        let result = self.xor();
        (result, Self::flags_of(result))
    }

    // Arithmetic.

    /// The 32-bit sum of the input latches (wrapping).
    pub fn add(&self) -> (r: u32)
        ensures
            r == alu_add(self.ai, self.bi, 0),
    {
        self.ai.wrapping_add(self.bi)
    }

    /// The 32-bit sum of the input latches, with condition codes.
    pub fn add_scc(&self) -> (r: (u32, SCCBits))
        ensures
            r.0 == alu_add(self.ai, self.bi, 0),
            r.1 == add_flags(self.ai, self.bi, 0),
    {
        self.addc_scc(false)
    }

    /// The 32-bit sum of the input latches and the carry bit (wrapping).
    pub fn addc(&self, carry: bool) -> (r: u32)
        ensures
            r == alu_add(self.ai, self.bi, if carry { 1int } else { 0int }),
    {
        self.ai.wrapping_add(self.bi).wrapping_add(if carry { 1 } else { 0 })
    }

    /// The 32-bit sum of the input latches and the carry bit, with
    /// condition codes.
    pub fn addc_scc(&self, carry: bool) -> (r: (u32, SCCBits))
        ensures
            r.0 == alu_add(self.ai, self.bi, if carry { 1int } else { 0int }),
            r.1 == add_flags(self.ai, self.bi, if carry { 1int } else { 0int }),
    {
        let result = self.addc(carry);
        let c = if carry { result <= self.ai && (self.ai != 0 || self.bi != 0) } else {
            result < self.ai
        };
        proof {
            let cin: int = if carry { 1 } else { 0 };
            assert(c == (self.ai + self.bi + cin > 0xffff_ffff));
        }
        let v = (sign_bit(self.ai) == sign_bit(self.bi)) && (sign_bit(result) != sign_bit(
            self.ai,
        ));
        proof {
            let cin: int = if carry { 1 } else { 0 };
            assert(v == signed_overflows(to_signed(self.ai) + to_signed(self.bi) + cin));
        }
        (result, SCCBits { z: result == 0, n: sign_bit(result), v, c })
    }

    /// The 32-bit difference `ai - bi` (wrapping).
    pub fn sub(&self) -> (r: u32)
        ensures
            r == alu_sub(self.ai, self.bi, 1),
    {
        self.ai.wrapping_sub(self.bi)
    }

    /// The 32-bit difference `ai - bi`, with condition codes.
    pub fn sub_scc(&self) -> (r: (u32, SCCBits))
        ensures
            r.0 == alu_sub(self.ai, self.bi, 1),
            r.1 == sub_flags(self.ai, self.bi, 1),
    {
        self.subc_scc(true)
    }

    /// The 32-bit difference `ai - bi + C - 1`: a subtraction that
    /// borrows when the carry bit is clear (wrapping).
    pub fn subc(&self, carry: bool) -> (r: u32)
        ensures
            r == alu_sub(self.ai, self.bi, if carry { 1int } else { 0int }),
    {
        self.ai.wrapping_sub(self.bi).wrapping_sub(if carry { 0 } else { 1 })
    }

    /// The 32-bit difference `ai - bi + C - 1`, with condition codes.
    pub fn subc_scc(&self, carry: bool) -> (r: (u32, SCCBits))
        ensures
            r.0 == alu_sub(self.ai, self.bi, if carry { 1int } else { 0int }),
            r.1 == sub_flags(self.ai, self.bi, if carry { 1int } else { 0int }),
    {
        Self::sub_with_flags(self.ai, self.bi, carry)
    }

    /// The 32-bit difference `bi - ai` (wrapping).
    pub fn subi(&self) -> (r: u32)
        ensures
            r == alu_sub(self.bi, self.ai, 1),
    {
        self.bi.wrapping_sub(self.ai)
    }

    /// The 32-bit difference `bi - ai`, with condition codes.
    pub fn subi_scc(&self) -> (r: (u32, SCCBits))
        ensures
            r.0 == alu_sub(self.bi, self.ai, 1),
            r.1 == sub_flags(self.bi, self.ai, 1),
    {
        Self::sub_with_flags(self.bi, self.ai, true)
    }

    /// The 32-bit difference `bi - ai + C - 1` (wrapping).
    pub fn subci(&self, carry: bool) -> (r: u32)
        ensures
            r == alu_sub(self.bi, self.ai, if carry { 1int } else { 0int }),
    {
        self.bi.wrapping_sub(self.ai).wrapping_sub(if carry { 0 } else { 1 })
    }

    /// The 32-bit difference `bi - ai + C - 1`, with condition codes.
    pub fn subci_scc(&self, carry: bool) -> (r: (u32, SCCBits))
        ensures
            r.0 == alu_sub(self.bi, self.ai, if carry { 1int } else { 0int }),
            r.1 == sub_flags(self.bi, self.ai, if carry { 1int } else { 0int }),
    {
        Self::sub_with_flags(self.bi, self.ai, carry)
    }

    // Shifts. `ai` is the value to shift and `bi` the amount; amounts of
    // 32 or more shift every bit of the value out.

    /// Logical right shift of `ai` by `bi`.
    pub fn shift_right_logical(&self) -> (r: u32)
        ensures
            r == alu_srl(self.ai, self.bi),
    {
        if self.bi >= 32 {
            0
        } else {
            self.ai >> self.bi
        }
    }

    /// Logical right shift of `ai` by `bi`, with condition codes.
    pub fn shift_right_logical_scc(&self) -> (r: (u32, SCCBits))
        ensures
            r.0 == alu_srl(self.ai, self.bi),
            r.1 == bitwise_flags(r.0),
    {
        let result = self.shift_right_logical();
        (result, Self::flags_of(result))
    }

    /// Arithmetic right shift of `ai` by `bi`.
    pub fn shift_right_arithmetic(&self) -> (r: u32)
        ensures
            r == alu_sra(self.ai, self.bi),
    {
        let negative = sign_bit(self.ai);
        if self.bi >= 32 {
            if negative {
                0xffff_ffff
            } else {
                0
            }
        } else if self.bi == 0 {
            self.ai
        } else if negative {
            (self.ai >> self.bi) | (0xffff_ffffu32 << (32 - self.bi))
        } else {
            self.ai >> self.bi
        }
    }

    /// Arithmetic right shift of `ai` by `bi`, with condition codes.
    pub fn shift_right_arithmetic_scc(&self) -> (r: (u32, SCCBits))
        ensures
            r.0 == alu_sra(self.ai, self.bi),
            r.1 == bitwise_flags(r.0),
    {
        let result = self.shift_right_arithmetic();
        (result, Self::flags_of(result))
    }

    /// Logical left shift of `ai` by `bi`.
    pub fn shift_left_logical(&self) -> (r: u32)
        ensures
            r == alu_sll(self.ai, self.bi),
    {
        if self.bi >= 32 {
            0
        } else {
            self.ai << self.bi
        }
    }

    /// Logical left shift of `ai` by `bi`, with condition codes.
    pub fn shift_left_arithmetic_scc(&self) -> (r: (u32, SCCBits))
        ensures
            r.0 == alu_sll(self.ai, self.bi),
            r.1 == bitwise_flags(r.0),
    {
        let result = self.shift_left_logical();
        (result, Self::flags_of(result))
    }

    /// Z and N of a result, with V and C clear, as every bitwise
    /// operation and shift leaves them.
    fn flags_of(result: u32) -> (r: SCCBits)
        ensures
            r == bitwise_flags(result),
    {
        SCCBits { z: result == 0, n: sign_bit(result), v: false, c: false }
    }

    /// Shared body of the subtraction SCC forms: `minuend - subtrahend`
    /// with a borrow when `carry` is clear.
    fn sub_with_flags(minuend: u32, subtrahend: u32, carry: bool) -> (r: (u32, SCCBits))
        ensures
            r.0 == alu_sub(minuend, subtrahend, if carry { 1int } else { 0int }),
            r.1 == sub_flags(minuend, subtrahend, if carry { 1int } else { 0int }),
    {
        let result = minuend.wrapping_sub(subtrahend).wrapping_sub(if carry { 0 } else { 1 });
        let c = if carry { minuend >= subtrahend } else { minuend > subtrahend };
        proof {
            let cin: int = if carry { 1 } else { 0 };
            assert(c == (minuend - subtrahend + cin - 1 >= 0));
        }
        let v = (sign_bit(minuend) != sign_bit(subtrahend)) && (sign_bit(result) != sign_bit(
            minuend,
        ));
        proof {
            let cin: int = if carry { 1 } else { 0 };
            assert(v == signed_overflows(
                to_signed(minuend) - to_signed(subtrahend) + cin - 1,
            ));
        }
        (result, SCCBits { z: result == 0, n: sign_bit(result), v, c })
    }
}

/// For every 32-bit input pair, the SCC form of each ALU operation
/// agrees with the plain form on the result field: the condition codes
/// are computed from exactly the value the plain form returns, with Z and
/// N reading that result.
pub proof fn lemma_scc_agrees_with_plain(ai: u32, bi: u32, carry: bool)
    ensures
        add_flags(ai, bi, 0).z == (alu_add(ai, bi, 0) == 0),
        add_flags(ai, bi, 0).n == sign_of(alu_add(ai, bi, 0)),
        add_flags(ai, bi, if carry { 1int } else { 0int }).z == (alu_add(
            ai,
            bi,
            if carry { 1int } else { 0int },
        ) == 0),
        add_flags(ai, bi, if carry { 1int } else { 0int }).n == sign_of(
            alu_add(ai, bi, if carry { 1int } else { 0int }),
        ),
        sub_flags(ai, bi, if carry { 1int } else { 0int }).z == (alu_sub(
            ai,
            bi,
            if carry { 1int } else { 0int },
        ) == 0),
        sub_flags(ai, bi, if carry { 1int } else { 0int }).n == sign_of(
            alu_sub(ai, bi, if carry { 1int } else { 0int }),
        ),
        sub_flags(bi, ai, if carry { 1int } else { 0int }).z == (alu_sub(
            bi,
            ai,
            if carry { 1int } else { 0int },
        ) == 0),
        bitwise_flags(ai & bi).z == ((ai & bi) == 0),
        bitwise_flags(ai & bi).n == sign_of(ai & bi),
        bitwise_flags(ai | bi).z == ((ai | bi) == 0),
        bitwise_flags(ai ^ bi).z == ((ai ^ bi) == 0),
        bitwise_flags(alu_sll(ai, bi)).z == (alu_sll(ai, bi) == 0),
        bitwise_flags(alu_srl(ai, bi)).z == (alu_srl(ai, bi) == 0),
        bitwise_flags(alu_sra(ai, bi)).z == (alu_sra(ai, bi) == 0),
{
}

/// Whether bit 31 of a word is set, computed without bit operations.
fn sign_bit(x: u32) -> (r: bool)
    ensures
        r == sign_of(x),
{
    x >= 0x8000_0000
}

} // verus!
