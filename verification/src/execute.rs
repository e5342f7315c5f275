//! Architectural instruction execution: one decoded instruction carried
//! to completion against the machine state, with the per-instruction
//! semantics of the whole ISA — operand reads through the register
//! window, ALU results and condition codes, loads and stores with their
//! alignment rules, window push/pop on calls and returns, branch-target
//! alignment traps, privilege checks, and the program-counter chain.
//!
//! `spec_execute` is the mathematical transition function; `execute` is
//! its executable twin, proved to agree with it on every instruction and
//! machine state.

use crate::alu::{alu_add, sign_of};
use crate::cpu::{
    dec_mod8, inc_mod8, lemma_psw_pack_fields, reg_index, spec_reg_read, spec_reg_write,
    ProcessorStatusWord, RegisterFile, NUM_GLOBALS, NUM_WINDOW_REGISTERS,
};
use crate::data_path::{spec_cond_holds, spec_mo_flags, spec_mo_result, MicroOp, SCCBits};
use crate::instruction::{
    cond_code, Conditional, Instruction, LongConditional, LongInstruction, ShortConditional,
    ShortInstruction, ShortSource,
};
use crate::memory::{
    mem_in_range, spec_hword_at, spec_set_hword, spec_set_word, spec_word_at, MemoryError,
};
use crate::system::System;
use vstd::prelude::*;

verus! {

/// A fault raised by an instruction rather than by the memory system.
#[derive(PartialEq, Eq, Copy, Clone, Debug, Structural)]
pub enum TrapError {
    /// A privileged instruction ran outside system mode.
    PrivilegeViolation,
    /// A branch target had bit 0 set.
    BadBranchAlignment,
    /// A call would move the current window onto the saved window
    /// pointer; a window must be spilled before the call can proceed.
    WindowOverflow,
    /// A return would move the current window onto the saved window
    /// pointer; a window must be filled before the return can proceed.
    WindowUnderflow,
}

/// Why an instruction could not execute.
#[derive(PartialEq, Eq, Copy, Clone, Debug, Structural)]
pub enum ExecuteError {
    /// An architectural trap.
    Trap(TrapError),
    /// A memory access was refused.
    Mem(MemoryError),
}

/// The architectural state an instruction reads and writes: registers,
/// status word, the three program counters and memory.
pub ghost struct MachineView {
    /// The register file's contents.
    pub regs: Seq<u32>,
    /// The processor status word.
    pub psw: ProcessorStatusWord,
    /// Next program counter.
    pub nxtpc: u32,
    /// Program counter.
    pub pc: u32,
    /// Last program counter.
    pub lstpc: u32,
    /// Memory contents.
    pub mem: Seq<u8>,
}

/// The architectural state held inside a system.
pub open spec fn view_of(s: System) -> MachineView {
    MachineView {
        regs: s.data_path.regs@,
        psw: s.data_path.psw,
        nxtpc: s.data_path.nxtpc,
        pc: s.data_path.pc,
        lstpc: s.data_path.lstpc,
        mem: s.mem@,
    }
}

/// A register read through the current window.
pub open spec fn mread(m: MachineView, r: u8) -> u32 {
    spec_reg_read(m.regs, r, m.psw.spec_cwp())
}

/// A 13-bit immediate sign-extended to 32 bits.
pub open spec fn sext13(u: u32) -> u32 {
    if u & 0x1000 != 0 {
        u | 0xffffe000
    } else {
        u
    }
}

/// A half-word sign-extended to 32 bits.
pub open spec fn sext16(h: u16) -> u32 {
    if h >= 0x8000 {
        (h + 0xffff0000) as u32
    } else {
        h as u32
    }
}

/// A byte sign-extended to 32 bits.
pub open spec fn sext8(b: u8) -> u32 {
    if b >= 0x80 {
        (b + 0xffffff00) as u32
    } else {
        b as u32
    }
}

/// The unsigned 32-bit reading of a signed value.
pub open spec fn u32_of_i32(s: i32) -> u32 {
    ((s as i64) & 0xffffffff) as u32
}

/// The value a short source contributes as the second operand: a register
/// read, a sign-extended 13-bit immediate, or a signed immediate's
/// two's-complement bits.
pub open spec fn spec_ss_value(ss: ShortSource, m: MachineView) -> u32 {
    match ss {
        ShortSource::Reg(r) => mread(m, r),
        ShortSource::UImm13(u) => sext13(u),
        ShortSource::SImm13(s) => u32_of_i32(s),
    }
}

/// The machine after the program counters advance past a non-branch
/// instruction: LSTPC takes PC, PC takes NXTPC, NXTPC moves on one
/// instruction.
pub open spec fn advanced(m: MachineView) -> MachineView {
    MachineView { lstpc: m.pc, pc: m.nxtpc, nxtpc: alu_add(m.nxtpc, 4, 0), ..m }
}

/// The machine after a taken branch: LSTPC takes PC, PC takes NXTPC,
/// NXTPC takes the target.
pub open spec fn branched(m: MachineView, target: u32) -> MachineView {
    MachineView { lstpc: m.pc, pc: m.nxtpc, nxtpc: target, ..m }
}

/// The machine after a write to a destination register in the current
/// window; register 0 stays hardwired to zero.
pub open spec fn write_dest(m: MachineView, dest: u8, v: u32) -> MachineView {
    MachineView { regs: spec_reg_write(m.regs, dest, v, m.psw.spec_cwp()), ..m }
}

/// The machine with all four condition codes replaced.
pub open spec fn set_cc(m: MachineView, f: SCCBits) -> MachineView {
    MachineView { psw: m.psw.spec_with_cc(f.z, f.n, f.v, f.c), ..m }
}

/// The condition codes of a load or of LDHI: Z and N from the value, V
/// and C cleared.
pub open spec fn load_flags(v: u32) -> SCCBits {
    SCCBits { z: v == 0, n: sign_of(v), v: false, c: false }
}

/// One ALU instruction: the result goes to the destination register, the
/// condition codes retire when SCC is set, and the program counters
/// advance.
pub open spec fn spec_alu_case(m: MachineView, s: ShortInstruction, mo: MicroOp) -> MachineView {
    let a = mread(m, s.rs1);
    let b = spec_ss_value(s.short_source, m);
    let r = spec_mo_result(mo, a, b, m.psw.spec_cc_carry());
    let f = spec_mo_flags(mo, a, b, m.psw.spec_cc_carry());
    let m1 = write_dest(m, s.dest, r);
    let m2 = if s.scc {
        set_cc(m1, f)
    } else {
        m1
    };
    advanced(m2)
}

/// One load: alignment and range are checked as the memory system checks
/// them, the loaded value (extended per the width and signedness) goes to
/// the destination register, and the program counters advance.
pub open spec fn spec_load_case(
    m: MachineView,
    scc: bool,
    dest: u8,
    addr: u32,
    width: int,
    signed: bool,
) -> Result<(MachineView, bool, bool), ExecuteError> {
    if width == 4 && addr % 4 != 0 {
        Err(ExecuteError::Mem(MemoryError::Misaligned))
    } else if width == 2 && addr % 2 != 0 {
        Err(ExecuteError::Mem(MemoryError::Misaligned))
    } else if !mem_in_range(addr, width, m.mem.len() as int) {
        Err(ExecuteError::Mem(MemoryError::OutOfRange))
    } else {
        let v = if width == 4 {
            spec_word_at(m.mem, addr as int)
        } else if width == 2 {
            if signed {
                sext16(spec_hword_at(m.mem, addr as int))
            } else {
                spec_hword_at(m.mem, addr as int) as u32
            }
        } else {
            if signed {
                sext8(m.mem[addr as int])
            } else {
                m.mem[addr as int] as u32
            }
        };
        let m1 = write_dest(m, dest, v);
        let m2 = if scc {
            set_cc(m1, load_flags(v))
        } else {
            m1
        };
        Ok((advanced(m2), false, false))
    }
}

/// One store: alignment and range are checked as the memory system checks
/// them, the destination register's value (truncated to the width) goes
/// to memory, V and C clear when SCC is set, and the program counters
/// advance.
pub open spec fn spec_store_case(
    m: MachineView,
    scc: bool,
    addr: u32,
    width: int,
    value: u32,
) -> Result<(MachineView, bool, bool), ExecuteError> {
    if width == 4 && addr % 4 != 0 {
        Err(ExecuteError::Mem(MemoryError::Misaligned))
    } else if width == 2 && addr % 2 != 0 {
        Err(ExecuteError::Mem(MemoryError::Misaligned))
    } else if !mem_in_range(addr, width, m.mem.len() as int) {
        Err(ExecuteError::Mem(MemoryError::OutOfRange))
    } else {
        let mem1 = if width == 4 {
            spec_set_word(m.mem, addr as int, value)
        } else if width == 2 {
            spec_set_hword(m.mem, addr as int, (value % 0x10000) as u16)
        } else {
            m.mem.update(addr as int, (value % 0x100) as u8)
        };
        let m1 = MachineView { mem: mem1, ..m };
        let m2 = if scc {
            set_cc(
                m1,
                SCCBits {
                    z: m1.psw.spec_cc_zero(),
                    n: m1.psw.spec_cc_neg(),
                    v: false,
                    c: false,
                },
            )
        } else {
            m1
        };
        Ok((advanced(m2), false, false))
    }
}

/// Whether a conditional holds of the machine's condition codes.
pub open spec fn cond_holds(c: Conditional, m: MachineView) -> bool {
    spec_cond_holds(
        cond_code(c),
        m.psw.spec_cc_zero(),
        m.psw.spec_cc_neg(),
        m.psw.spec_cc_overflow(),
        m.psw.spec_cc_carry(),
    )
}

/// One CALLI: privileged; push a window (trapping when the displaced
/// window would need spilling) and save LSTPC in the new window's
/// destination register; Z and N follow LSTPC when SCC is set.
pub open spec fn spec_calli_case(m: MachineView, s: ShortInstruction) -> Result<
    (MachineView, bool, bool),
    ExecuteError,
> {
    if !m.psw.spec_system_mode() {
        Err(ExecuteError::Trap(TrapError::PrivilegeViolation))
    } else if dec_mod8(m.psw.spec_cwp()) == m.psw.spec_swp() {
        Err(ExecuteError::Trap(TrapError::WindowOverflow))
    } else {
        let m1 = MachineView { psw: m.psw.spec_push().0, ..m };
        let m2 = write_dest(m1, s.dest, m.lstpc);
        let m3 = if s.scc {
            set_cc(
                m2,
                SCCBits {
                    z: m.lstpc == 0,
                    n: sign_of(m.lstpc),
                    v: m2.psw.spec_cc_overflow(),
                    c: m2.psw.spec_cc_carry(),
                },
            )
        } else {
            m2
        };
        Ok((advanced(m3), false, false))
    }
}

/// One GETPSW: the 13-bit status cell lands in the destination's low
/// bits with the top 19 bits set.
pub open spec fn spec_getpsw_case(m: MachineView, s: ShortInstruction) -> Result<
    (MachineView, bool, bool),
    ExecuteError,
> {
    let d = (m.psw.0 + 0xffffe000) as u32;
    let m1 = write_dest(m, s.dest, d);
    let m2 = if s.scc {
        set_cc(m1, SCCBits { z: d == 0, n: sign_of(d), v: false, c: false })
    } else {
        m1
    };
    Ok((advanced(m2), false, false))
}

/// One GETLPC: privileged; LSTPC lands in the destination register.
pub open spec fn spec_getlpc_case(m: MachineView, s: ShortInstruction) -> Result<
    (MachineView, bool, bool),
    ExecuteError,
> {
    if !m.psw.spec_system_mode() {
        Err(ExecuteError::Trap(TrapError::PrivilegeViolation))
    } else {
        let m1 = write_dest(m, s.dest, m.lstpc);
        let m2 = if s.scc {
            set_cc(
                m1,
                SCCBits {
                    z: m.lstpc == 0,
                    n: sign_of(m.lstpc),
                    v: m1.psw.spec_cc_overflow(),
                    c: m1.psw.spec_cc_carry(),
                },
            )
        } else {
            m1
        };
        Ok((advanced(m2), false, false))
    }
}

/// One PUTPSW: privileged; the low 13 bits of `rs1 + short_source`
/// become the new status word, in effect one cycle late.
pub open spec fn spec_putpsw_case(m: MachineView, s: ShortInstruction) -> Result<
    (MachineView, bool, bool),
    ExecuteError,
> {
    if !m.psw.spec_system_mode() {
        Err(ExecuteError::Trap(TrapError::PrivilegeViolation))
    } else {
        let v = alu_add(mread(m, s.rs1), spec_ss_value(s.short_source, m), 0);
        let m1 = MachineView { psw: ProcessorStatusWord((v % 0x2000) as u16), ..m };
        Ok((advanced(m1), false, true))
    }
}

/// One conditional jump: advance when the conditional fails, trap on a
/// target with bit 0 set, branch otherwise.
pub open spec fn spec_jump_case(m: MachineView, c: Conditional, target: u32) -> Result<
    (MachineView, bool, bool),
    ExecuteError,
> {
    if !cond_holds(c, m) {
        Ok((advanced(m), false, false))
    } else if target % 2 == 1 {
        Err(ExecuteError::Trap(TrapError::BadBranchAlignment))
    } else {
        Ok((branched(m, target), true, false))
    }
}

/// The architectural transition of one instruction: the machine after it,
/// whether it branched, and whether a new PSW takes effect a cycle late —
/// or the trap or memory fault that stopped it, with the machine
/// untouched.
pub open spec fn spec_execute(inst: Instruction, m: MachineView) -> Result<
    (MachineView, bool, bool),
    ExecuteError,
> {
    match inst {
        Instruction::Calli(s) => spec_calli_case(m, s),
        Instruction::GetPSW(s) => spec_getpsw_case(m, s),
        Instruction::GetLPC(s) => spec_getlpc_case(m, s),
        Instruction::PutPSW(s) => spec_putpsw_case(m, s),
        Instruction::Callx(s) => spec_call_case(
            m,
            s.dest,
            alu_add(mread(m, s.rs1), spec_ss_value(s.short_source, m), 0),
        ),
        Instruction::Callr(l) => spec_call_case(m, l.dest, alu_add(m.pc, l.imm19, 0)),
        Instruction::Jmpx(s) => spec_jump_case(
            m,
            s.dest,
            alu_add(mread(m, s.rs1), spec_ss_value(s.short_source, m), 0),
        ),
        Instruction::Jmpr(l) => spec_jump_case(m, l.dest, alu_add(m.pc, l.imm19, 0)),
        Instruction::Ret(s) => spec_ret_case(m, s),
        Instruction::Reti(s) => {
            if !m.psw.spec_system_mode() {
                Err(ExecuteError::Trap(TrapError::PrivilegeViolation))
            } else {
                spec_ret_case(m, s)
            }
        },
        Instruction::Sll(s) => Ok((spec_alu_case(m, s, MicroOp::AluSll), false, false)),
        Instruction::Srl(s) => Ok((spec_alu_case(m, s, MicroOp::AluSrl), false, false)),
        Instruction::Sra(s) => Ok((spec_alu_case(m, s, MicroOp::AluSra), false, false)),
        Instruction::Or(s) => Ok((spec_alu_case(m, s, MicroOp::AluOr), false, false)),
        Instruction::And(s) => Ok((spec_alu_case(m, s, MicroOp::AluAnd), false, false)),
        Instruction::Xor(s) => Ok((spec_alu_case(m, s, MicroOp::AluXor), false, false)),
        Instruction::Add(s) => Ok((spec_alu_case(m, s, MicroOp::AluAdd), false, false)),
        Instruction::Addc(s) => Ok((spec_alu_case(m, s, MicroOp::AluAddc), false, false)),
        Instruction::Sub(s) => Ok((spec_alu_case(m, s, MicroOp::AluSub), false, false)),
        Instruction::Subc(s) => Ok((spec_alu_case(m, s, MicroOp::AluSubc), false, false)),
        Instruction::Subi(s) => Ok((spec_alu_case(m, s, MicroOp::AluSubi), false, false)),
        Instruction::Subci(s) => Ok((spec_alu_case(m, s, MicroOp::AluSubci), false, false)),
        Instruction::Ldhi(l) => spec_ldhi_case(m, l),
        Instruction::Ldxw(s) => spec_load_case(
            m,
            s.scc,
            s.dest,
            alu_add(mread(m, s.rs1), spec_ss_value(s.short_source, m), 0),
            4,
            false,
        ),
        Instruction::Ldrw(l) => spec_load_case(m, l.scc, l.dest, alu_add(m.pc, l.imm19, 0), 4, false),
        Instruction::Ldxhs(s) => spec_load_case(
            m,
            s.scc,
            s.dest,
            alu_add(mread(m, s.rs1), spec_ss_value(s.short_source, m), 0),
            2,
            true,
        ),
        Instruction::Ldrhs(l) => spec_load_case(m, l.scc, l.dest, alu_add(m.pc, l.imm19, 0), 2, true),
        Instruction::Ldxhu(s) => spec_load_case(
            m,
            s.scc,
            s.dest,
            alu_add(mread(m, s.rs1), spec_ss_value(s.short_source, m), 0),
            2,
            false,
        ),
        Instruction::Ldrhu(l) => spec_load_case(
            m,
            l.scc,
            l.dest,
            alu_add(m.pc, l.imm19, 0),
            2,
            false,
        ),
        Instruction::Ldxbs(s) => spec_load_case(
            m,
            s.scc,
            s.dest,
            alu_add(mread(m, s.rs1), spec_ss_value(s.short_source, m), 0),
            1,
            true,
        ),
        Instruction::Ldrbs(l) => spec_load_case(m, l.scc, l.dest, alu_add(m.pc, l.imm19, 0), 1, true),
        Instruction::Ldxbu(s) => spec_load_case(
            m,
            s.scc,
            s.dest,
            alu_add(mread(m, s.rs1), spec_ss_value(s.short_source, m), 0),
            1,
            false,
        ),
        Instruction::Ldrbu(l) => spec_load_case(
            m,
            l.scc,
            l.dest,
            alu_add(m.pc, l.imm19, 0),
            1,
            false,
        ),
        Instruction::Stxw(s) => spec_store_case(
            m,
            s.scc,
            alu_add(mread(m, s.rs1), spec_ss_value(s.short_source, m), 0),
            4,
            mread(m, s.dest),
        ),
        Instruction::Strw(l) => spec_store_case(
            m,
            l.scc,
            alu_add(m.pc, l.imm19, 0),
            4,
            mread(m, l.dest),
        ),
        Instruction::Stxh(s) => spec_store_case(
            m,
            s.scc,
            alu_add(mread(m, s.rs1), spec_ss_value(s.short_source, m), 0),
            2,
            mread(m, s.dest),
        ),
        Instruction::Strh(l) => spec_store_case(
            m,
            l.scc,
            alu_add(m.pc, l.imm19, 0),
            2,
            mread(m, l.dest),
        ),
        Instruction::Stxb(s) => spec_store_case(
            m,
            s.scc,
            alu_add(mread(m, s.rs1), spec_ss_value(s.short_source, m), 0),
            1,
            mread(m, s.dest),
        ),
        Instruction::Strb(l) => spec_store_case(
            m,
            l.scc,
            alu_add(m.pc, l.imm19, 0),
            1,
            mread(m, l.dest),
        ),
    }
}

/// One LDHI: the 19-bit immediate lands in the top bits of the
/// destination with the bottom 13 bits zero.
pub open spec fn spec_ldhi_case(m: MachineView, l: LongInstruction) -> Result<
    (MachineView, bool, bool),
    ExecuteError,
> {
    let d = l.imm19 << 13;
    let m1 = write_dest(m, l.dest, d);
    let m2 = if l.scc {
        set_cc(m1, load_flags(d))
    } else {
        m1
    };
    Ok((advanced(m2), false, false))
}

/// A call to an aligned target: push a window (the displaced window must
/// be spilled first if the pointers would collide), save the pre-call PC
/// in the new window's destination register, and branch.
pub open spec fn spec_call_case(m: MachineView, dest: u8, target: u32) -> Result<
    (MachineView, bool, bool),
    ExecuteError,
> {
    if target % 2 == 1 {
        Err(ExecuteError::Trap(TrapError::BadBranchAlignment))
    } else if dec_mod8(m.psw.spec_cwp()) == m.psw.spec_swp() {
        Err(ExecuteError::Trap(TrapError::WindowOverflow))
    } else {
        let m1 = MachineView { psw: m.psw.spec_push().0, ..m };
        let m2 = write_dest(m1, dest, m.pc);
        Ok((branched(m2, target), true, false))
    }
}

/// A return: when the conditional holds, branch to `rs1 + short_source +
/// 8` and pop a window (the displaced window must be filled first if the
/// pointers would collide); otherwise just advance.
pub open spec fn spec_ret_case(m: MachineView, s: ShortConditional) -> Result<
    (MachineView, bool, bool),
    ExecuteError,
> {
    if !cond_holds(s.dest, m) {
        Ok((advanced(m), false, false))
    } else {
        let target = alu_add(alu_add(mread(m, s.rs1), spec_ss_value(s.short_source, m), 0), 8, 0);
        if target % 2 == 1 {
            Err(ExecuteError::Trap(TrapError::BadBranchAlignment))
        } else if inc_mod8(m.psw.spec_cwp()) == m.psw.spec_swp() {
            Err(ExecuteError::Trap(TrapError::WindowUnderflow))
        } else {
            let m1 = MachineView { psw: m.psw.spec_pop().0, ..m };
            Ok((branched(m1, target), true, false))
        }
    }
}

/// The result of one executed instruction: a snapshot of the status word
/// and registers after it, and what kind of step it was.
pub struct ExecResult {
    /// The status word after the instruction.
    pub psw: ProcessorStatusWord,
    /// The registers after the instruction.
    pub regs: RegisterFile,
    /// The instruction took a branch.
    pub was_branch: bool,
    /// The instruction replaced the PSW, which takes effect a cycle late.
    pub psw_delayed: bool,
}

impl ExecResult {
    /// Snapshot a system's current status word and registers.
    pub fn from_system(system: &System) -> (r: ExecResult)
        requires
            system.wf(),
        ensures
            r.psw == system.data_path.psw,
            r.regs@ == system.data_path.regs@,
            !r.was_branch,
            !r.psw_delayed,
    {
        ExecResult {
            psw: system.data_path.get_psw(),
            regs: system.data_path.copy_register_file(),
            was_branch: false,
            psw_delayed: false,
        }
    }

    /// Replace the snapshot's status word with the low 13 bits of a word.
    pub fn set_psw(&mut self, psw: u32)
        ensures
            *final(self) == (ExecResult {
                psw: ProcessorStatusWord((psw % 0x2000) as u16),
                ..*old(self)
            }),
    {
        self.psw = ProcessorStatusWord::from_u16((psw % 0x2000) as u16);
    }

    /// A mutable borrow of the snapshot's status word.
    pub fn get_psw_ref(&mut self) -> (r: &mut ProcessorStatusWord)
        ensures
            *r == old(self).psw,
            *final(self) == (ExecResult { psw: *final(r), ..*old(self) }),
    {
        &mut self.psw
    }

    /// A mutable borrow of the snapshot's registers.
    pub fn get_register_file(&mut self) -> (r: &mut RegisterFile)
        ensures
            *r == old(self).regs,
            *final(self) == (ExecResult { regs: *final(r), ..*old(self) }),
    {
        &mut self.regs
    }

    /// Whether the instruction took a branch.
    pub fn was_branch(&self) -> (r: bool)
        ensures
            r == self.was_branch,
    {
        self.was_branch
    }

    /// Record whether the instruction took a branch.
    pub fn set_branch(&mut self, v: bool)
        ensures
            *final(self) == (ExecResult { was_branch: v, ..*old(self) }),
    {
        self.was_branch = v;
    }
}

/// Everything in the system that an instruction does not touch is
/// untouched: the sequencer state, the clock, and every pipeline latch.
pub open spec fn non_arch_unchanged(pre: System, post: System) -> bool {
    post == (System {
        data_path: (crate::data_path::DataPath {
            regs: post.data_path.regs,
            psw: post.data_path.psw,
            nxtpc: post.data_path.nxtpc,
            pc: post.data_path.pc,
            lstpc: post.data_path.lstpc,
            ..pre.data_path
        }),
        mem: post.mem,
        ..pre
    })
}
/// Execute one instruction to architectural completion. The machine
/// steps exactly as `spec_execute` says: on success the returned snapshot
/// holds the new status word and registers; on a trap or memory fault the
/// machine is left untouched.
pub fn execute(instruction: &Instruction, system: &mut System) -> (r: Result<
    ExecResult,
    ExecuteError,
>)
    requires
        instruction.wf(),
        old(system).wf(),
    ensures
        final(system).wf(),
        non_arch_unchanged(*old(system), *final(system)),
        final(system).mem@.len() == old(system).mem@.len(),
        execute_post(*instruction, *old(system), *final(system), r),
{
    match *instruction {
        Instruction::Calli(_) | Instruction::GetPSW(_) | Instruction::GetLPC(_)
            | Instruction::PutPSW(_) | Instruction::Callx(_) | Instruction::Callr(_)
            | Instruction::Jmpx(_) | Instruction::Jmpr(_) | Instruction::Ret(_)
            | Instruction::Reti(_) => execute_control(instruction, system),
        Instruction::Sll(_) | Instruction::Srl(_) | Instruction::Sra(_) | Instruction::Or(_)
            | Instruction::And(_) | Instruction::Xor(_) | Instruction::Add(_)
            | Instruction::Addc(_) | Instruction::Sub(_) | Instruction::Subc(_)
            | Instruction::Subi(_) | Instruction::Subci(_) | Instruction::Ldhi(_) => execute_alu(
            instruction,
            system,
        ),
        Instruction::Ldxw(_) | Instruction::Ldrw(_) | Instruction::Ldxhs(_)
            | Instruction::Ldrhs(_) | Instruction::Ldxhu(_) | Instruction::Ldrhu(_)
            | Instruction::Ldxbs(_) | Instruction::Ldrbs(_) | Instruction::Ldxbu(_)
            | Instruction::Ldrbu(_) => execute_load(instruction, system),
        Instruction::Stxw(_) | Instruction::Strw(_) | Instruction::Stxh(_)
            | Instruction::Strh(_) | Instruction::Stxb(_) | Instruction::Strb(_) => execute_store(
            instruction,
            system,
        ),
    }
}

/// What `execute` guarantees of its result: the machine stepped exactly
/// as `spec_execute` says, and the snapshot matches the new state.
pub open spec fn execute_post(
    inst: Instruction,
    pre: System,
    post: System,
    r: Result<ExecResult, ExecuteError>,
) -> bool {
    match r {
        Ok(res) => {
            &&& spec_execute(inst, view_of(pre)) == Ok::<_, ExecuteError>(
                (view_of(post), res.was_branch, res.psw_delayed),
            )
            &&& res.psw == post.data_path.psw
            &&& res.regs@ == post.data_path.regs@
        },
        Err(e) => {
            &&& spec_execute(inst, view_of(pre)) == Err::<(MachineView, bool, bool), ExecuteError>(
                e,
            )
            &&& view_of(post) == view_of(pre)
        },
    }
}

/// The control instructions of `execute`'s dispatch: calls, jumps,
/// returns and the PSW accessors.
#[verifier::rlimit(100)]
#[verifier::spinoff_prover]
fn execute_control(instruction: &Instruction, system: &mut System) -> (r: Result<
    ExecResult,
    ExecuteError,
>)
    requires
        instruction is Calli || instruction is GetPSW || instruction is GetLPC || instruction
            is PutPSW || instruction is Callx || instruction is Callr || instruction is Jmpx
            || instruction is Jmpr || instruction is Ret || instruction is Reti,
        instruction.wf(),
        old(system).wf(),
    ensures
        final(system).wf(),
        non_arch_unchanged(*old(system), *final(system)),
        final(system).mem@.len() == old(system).mem@.len(),
        execute_post(*instruction, *old(system), *final(system), r),
{
    match *instruction {
        Instruction::Calli(s) => {
            if !system.data_path.psw.get_system_mode() {
                return Err(ExecuteError::Trap(TrapError::PrivilegeViolation));
            }
            let cwp = system.data_path.psw.get_cwp();
            let down = if cwp == 0 {
                7
            } else {
                cwp - 1
            };
            if down == system.data_path.psw.get_swp() {
                return Err(ExecuteError::Trap(TrapError::WindowOverflow));
            }
            let lstpc = system.data_path.lstpc;
            let _ = system.data_path.psw.push();
            let v = system.data_path.psw.get_cc_overflow();
            let c = system.data_path.psw.get_cc_carry();
            Ok(finish_op(system, s.dest, lstpc, s.scc, lstpc == 0, lstpc >= 0x8000_0000, v, c))
        },
        Instruction::GetPSW(s) => {
            let d = system.data_path.psw.get() as u32 + 0xffffe000;
            Ok(finish_op(system, s.dest, d, s.scc, d == 0, d >= 0x8000_0000, false, false))
        },
        Instruction::GetLPC(s) => {
            if !system.data_path.psw.get_system_mode() {
                return Err(ExecuteError::Trap(TrapError::PrivilegeViolation));
            }
            let lstpc = system.data_path.lstpc;
            let v = system.data_path.psw.get_cc_overflow();
            let c = system.data_path.psw.get_cc_carry();
            Ok(finish_op(system, s.dest, lstpc, s.scc, lstpc == 0, lstpc >= 0x8000_0000, v, c))
        },
        Instruction::PutPSW(s) => {
            if !system.data_path.psw.get_system_mode() {
                return Err(ExecuteError::Trap(TrapError::PrivilegeViolation));
            }
            let a = read_reg(system, s.rs1);
            let b = ss_value(system, &s.short_source);
            let v = a.wrapping_add(b);
            system.data_path.psw = ProcessorStatusWord::from_u16((v % 0x2000) as u16);
            system.data_path.increment_pcs();
            let mut res = ExecResult::from_system(system);
            res.psw_delayed = true;
            Ok(res)
        },
        Instruction::Callx(s) => {
            let a = read_reg(system, s.rs1);
            let b = ss_value(system, &s.short_source);
            call_case(system, s.dest, a.wrapping_add(b))
        },
        Instruction::Callr(l) => {
            let target = system.data_path.pc.wrapping_add(l.imm19);
            call_case(system, l.dest, target)
        },
        Instruction::Jmpx(s) => {
            let a = read_reg(system, s.rs1);
            let b = ss_value(system, &s.short_source);
            jump_case(system, s.dest, a.wrapping_add(b))
        },
        Instruction::Jmpr(l) => {
            let target = system.data_path.pc.wrapping_add(l.imm19);
            jump_case(system, l.dest, target)
        },
        Instruction::Ret(s) => ret_case(system, &s),
        Instruction::Reti(s) => {
            if !system.data_path.psw.get_system_mode() {
                return Err(ExecuteError::Trap(TrapError::PrivilegeViolation));
            }
            ret_case(system, &s)
        },
        _ => {
            proof {
                assert(false);
            }
            Err(ExecuteError::Trap(TrapError::PrivilegeViolation))
        },
    }
}

/// The ALU instructions of `execute`'s dispatch, LDHI among them.
#[verifier::rlimit(100)]
#[verifier::spinoff_prover]
fn execute_alu(instruction: &Instruction, system: &mut System) -> (r: Result<
    ExecResult,
    ExecuteError,
>)
    requires
        instruction is Sll || instruction is Srl || instruction is Sra || instruction is Or
            || instruction is And || instruction is Xor || instruction is Add || instruction
            is Addc || instruction is Sub || instruction is Subc || instruction is Subi
            || instruction is Subci || instruction is Ldhi,
        instruction.wf(),
        old(system).wf(),
    ensures
        final(system).wf(),
        non_arch_unchanged(*old(system), *final(system)),
        final(system).mem@.len() == old(system).mem@.len(),
        execute_post(*instruction, *old(system), *final(system), r),
{
    match *instruction {
        Instruction::Sll(s) => alu_case(system, &s, MicroOp::AluSll),
        Instruction::Srl(s) => alu_case(system, &s, MicroOp::AluSrl),
        Instruction::Sra(s) => alu_case(system, &s, MicroOp::AluSra),
        Instruction::Or(s) => alu_case(system, &s, MicroOp::AluOr),
        Instruction::And(s) => alu_case(system, &s, MicroOp::AluAnd),
        Instruction::Xor(s) => alu_case(system, &s, MicroOp::AluXor),
        Instruction::Add(s) => alu_case(system, &s, MicroOp::AluAdd),
        Instruction::Addc(s) => alu_case(system, &s, MicroOp::AluAddc),
        Instruction::Sub(s) => alu_case(system, &s, MicroOp::AluSub),
        Instruction::Subc(s) => alu_case(system, &s, MicroOp::AluSubc),
        Instruction::Subi(s) => alu_case(system, &s, MicroOp::AluSubi),
        Instruction::Subci(s) => alu_case(system, &s, MicroOp::AluSubci),
        Instruction::Ldhi(l) => {
            let d = l.imm19 << 13;
            Ok(finish_op(system, l.dest, d, l.scc, d == 0, d >= 0x8000_0000, false, false))
        },
        _ => {
            proof {
                assert(false);
            }
            Err(ExecuteError::Trap(TrapError::PrivilegeViolation))
        },
    }
}

/// The load instructions of `execute`'s dispatch.
#[verifier::rlimit(100)]
#[verifier::spinoff_prover]
fn execute_load(instruction: &Instruction, system: &mut System) -> (r: Result<
    ExecResult,
    ExecuteError,
>)
    requires
        instruction is Ldxw || instruction is Ldrw || instruction is Ldxhs || instruction
            is Ldrhs || instruction is Ldxhu || instruction is Ldrhu || instruction is Ldxbs
            || instruction is Ldrbs || instruction is Ldxbu || instruction is Ldrbu,
        instruction.wf(),
        old(system).wf(),
    ensures
        final(system).wf(),
        non_arch_unchanged(*old(system), *final(system)),
        final(system).mem@.len() == old(system).mem@.len(),
        execute_post(*instruction, *old(system), *final(system), r),
{
    match *instruction {
        Instruction::Ldxw(s) => {
            let a = read_reg(system, s.rs1);
            let b = ss_value(system, &s.short_source);
            load_word_case(system, s.scc, s.dest, a.wrapping_add(b))
        },
        Instruction::Ldrw(l) => {
            let addr = system.data_path.pc.wrapping_add(l.imm19);
            load_word_case(system, l.scc, l.dest, addr)
        },
        Instruction::Ldxhs(s) => {
            let a = read_reg(system, s.rs1);
            let b = ss_value(system, &s.short_source);
            load_hword_case(system, s.scc, s.dest, a.wrapping_add(b), true)
        },
        Instruction::Ldrhs(l) => {
            let addr = system.data_path.pc.wrapping_add(l.imm19);
            load_hword_case(system, l.scc, l.dest, addr, true)
        },
        Instruction::Ldxhu(s) => {
            let a = read_reg(system, s.rs1);
            let b = ss_value(system, &s.short_source);
            load_hword_case(system, s.scc, s.dest, a.wrapping_add(b), false)
        },
        Instruction::Ldrhu(l) => {
            let addr = system.data_path.pc.wrapping_add(l.imm19);
            load_hword_case(system, l.scc, l.dest, addr, false)
        },
        Instruction::Ldxbs(s) => {
            let a = read_reg(system, s.rs1);
            let b = ss_value(system, &s.short_source);
            load_byte_case(system, s.scc, s.dest, a.wrapping_add(b), true)
        },
        Instruction::Ldrbs(l) => {
            let addr = system.data_path.pc.wrapping_add(l.imm19);
            load_byte_case(system, l.scc, l.dest, addr, true)
        },
        Instruction::Ldxbu(s) => {
            let a = read_reg(system, s.rs1);
            let b = ss_value(system, &s.short_source);
            load_byte_case(system, s.scc, s.dest, a.wrapping_add(b), false)
        },
        Instruction::Ldrbu(l) => {
            let addr = system.data_path.pc.wrapping_add(l.imm19);
            load_byte_case(system, l.scc, l.dest, addr, false)
        },
        _ => {
            proof {
                assert(false);
            }
            Err(ExecuteError::Trap(TrapError::PrivilegeViolation))
        },
    }
}

/// The store instructions of `execute`'s dispatch.
#[verifier::rlimit(100)]
#[verifier::spinoff_prover]
fn execute_store(instruction: &Instruction, system: &mut System) -> (r: Result<
    ExecResult,
    ExecuteError,
>)
    requires
        instruction is Stxw || instruction is Strw || instruction is Stxh || instruction
            is Strh || instruction is Stxb || instruction is Strb,
        instruction.wf(),
        old(system).wf(),
    ensures
        final(system).wf(),
        non_arch_unchanged(*old(system), *final(system)),
        final(system).mem@.len() == old(system).mem@.len(),
        execute_post(*instruction, *old(system), *final(system), r),
{
    match *instruction {
        Instruction::Stxw(s) => {
            let a = read_reg(system, s.rs1);
            let b = ss_value(system, &s.short_source);
            let value = read_reg(system, s.dest);
            store_word_case(system, s.scc, a.wrapping_add(b), value)
        },
        Instruction::Strw(l) => {
            let addr = system.data_path.pc.wrapping_add(l.imm19);
            let value = read_reg(system, l.dest);
            store_word_case(system, l.scc, addr, value)
        },
        Instruction::Stxh(s) => {
            let a = read_reg(system, s.rs1);
            let b = ss_value(system, &s.short_source);
            let value = read_reg(system, s.dest);
            store_hword_case(system, s.scc, a.wrapping_add(b), value)
        },
        Instruction::Strh(l) => {
            let addr = system.data_path.pc.wrapping_add(l.imm19);
            let value = read_reg(system, l.dest);
            store_hword_case(system, l.scc, addr, value)
        },
        Instruction::Stxb(s) => {
            let a = read_reg(system, s.rs1);
            let b = ss_value(system, &s.short_source);
            let value = read_reg(system, s.dest);
            store_byte_case(system, s.scc, a.wrapping_add(b), value)
        },
        Instruction::Strb(l) => {
            let addr = system.data_path.pc.wrapping_add(l.imm19);
            let value = read_reg(system, l.dest);
            store_byte_case(system, l.scc, addr, value)
        },
        _ => {
            proof {
                assert(false);
            }
            Err(ExecuteError::Trap(TrapError::PrivilegeViolation))
        },
    }
}

/// The tail every register-writing, non-branching instruction shares:
/// write the destination, retire the given condition codes when SCC is
/// set, advance the program counters, and snapshot the result.
fn finish_op(
    system: &mut System,
    dest: u8,
    value: u32,
    scc: bool,
    z: bool,
    n: bool,
    v: bool,
    c: bool,
) -> (res: ExecResult)
    requires
        old(system).wf(),
    ensures
        final(system).wf(),
        non_arch_unchanged(*old(system), *final(system)),
        final(system).mem@ == old(system).mem@,
        view_of(*final(system)) == advanced(
            if scc {
                set_cc(write_dest(view_of(*old(system)), dest, value), SCCBits { z, n, v, c })
            } else {
                write_dest(view_of(*old(system)), dest, value)
            },
        ),
        res.psw == final(system).data_path.psw,
        res.regs@ == final(system).data_path.regs@,
        !res.was_branch,
        !res.psw_delayed,
{
    write_with_cc(system, dest, value, scc, z, n, v, c);
    system.data_path.increment_pcs();
    ExecResult::from_system(system)
}

/// Write a destination register and retire the given condition codes
/// when SCC is set.
fn write_with_cc(
    system: &mut System,
    dest: u8,
    value: u32,
    scc: bool,
    z: bool,
    n: bool,
    v: bool,
    c: bool,
)
    requires
        old(system).wf(),
    ensures
        final(system).wf(),
        non_arch_unchanged(*old(system), *final(system)),
        final(system).mem@ == old(system).mem@,
        view_of(*final(system)) == if scc {
            set_cc(write_dest(view_of(*old(system)), dest, value), SCCBits { z, n, v, c })
        } else {
            write_dest(view_of(*old(system)), dest, value)
        },
{
    let cwp = system.data_path.psw.get_cwp();
    system.data_path.regs.write(dest, value, cwp);
    if scc {
        system.data_path.psw.set_cc_bits(z, n, v, c);
    }
}

/// Shared body of the conditional jumps: advance when the conditional
/// fails, trap on a misaligned target, branch otherwise.
fn jump_case(system: &mut System, c: Conditional, target: u32) -> (r: Result<
    ExecResult,
    ExecuteError,
>)
    requires
        old(system).wf(),
    ensures
        final(system).wf(),
        non_arch_unchanged(*old(system), *final(system)),
        final(system).mem@ == old(system).mem@,
        match r {
            Ok(res) => {
                &&& spec_jump_case(view_of(*old(system)), c, target) == Ok::<_, ExecuteError>(
                    (view_of(*final(system)), res.was_branch, res.psw_delayed),
                )
                &&& res.psw == final(system).data_path.psw
                &&& res.regs@ == final(system).data_path.regs@
            },
            Err(e) => {
                &&& spec_jump_case(view_of(*old(system)), c, target) == Err::<
                    (MachineView, bool, bool),
                    ExecuteError,
                >(e)
                &&& view_of(*final(system)) == view_of(*old(system))
            },
        },
{
    if !test_cond_holds(system, c) {
        system.data_path.increment_pcs();
        return Ok(ExecResult::from_system(system));
    }
    if target % 2 == 1 {
        return Err(ExecuteError::Trap(TrapError::BadBranchAlignment));
    }
    system.data_path.branch_to(target);
    let mut res = ExecResult::from_system(system);
    res.was_branch = true;
    Ok(res)
}
/// A register read through the current window.
fn read_reg(system: &System, r: u8) -> (v: u32)
    ensures
        v == mread(view_of(*system), r),
{
    let cwp = system.data_path.psw.get_cwp();
    system.data_path.regs.read(r, cwp)
}

/// The second operand a short source contributes.
fn ss_value(system: &System, ss: &ShortSource) -> (v: u32)
    ensures
        v == spec_ss_value(*ss, view_of(*system)),
{
    match *ss {
        ShortSource::Reg(r) => read_reg(system, r),
        ShortSource::UImm13(u) => {
            if u & 0x1000 != 0 {
                u | 0xffffe000
            } else {
                u
            }
        },
        ShortSource::SImm13(s) => {
            let v = (s as i64) & 0xffffffff;
            proof {
                let s64 = s as i64;
                assert(0 <= (s64 & 0xffffffff) < 0x1_0000_0000) by (bit_vector);
            }
            v as u32
        },
    }
}

/// Whether a conditional holds of the current condition codes.
fn test_cond_holds(system: &System, c: Conditional) -> (r: bool)
    ensures
        r == cond_holds(c, view_of(*system)),
{
    let z = system.data_path.psw.get_cc_zero();
    let n = system.data_path.psw.get_cc_neg();
    let v = system.data_path.psw.get_cc_overflow();
    let cc = system.data_path.psw.get_cc_carry();
    let code: u32 = match c {
        Conditional::Gt => 1,
        Conditional::Le => 2,
        Conditional::Ge => 3,
        Conditional::Lt => 4,
        Conditional::Hi => 5,
        Conditional::Los => 6,
        Conditional::Lonc => 7,
        Conditional::Hisc => 8,
        Conditional::Pl => 9,
        Conditional::Mi => 10,
        Conditional::Ne => 11,
        Conditional::Eq => 12,
        Conditional::Nv => 13,
        Conditional::V => 14,
        Conditional::Alw => 15,
    };
    crate::data_path::test_cond(code, z, n, v, cc)
}

/// Shared body of the ALU instructions.
fn alu_case(system: &mut System, s: &ShortInstruction, mo: MicroOp) -> (r: Result<
    ExecResult,
    ExecuteError,
>)
    requires
        old(system).wf(),
        !(mo is Nop),
    ensures
        final(system).wf(),
        non_arch_unchanged(*old(system), *final(system)),
        r is Ok,
        view_of(*final(system)) == spec_alu_case(view_of(*old(system)), *s, mo),
        r matches Ok(res) ==> res.psw == final(system).data_path.psw && res.regs@ == final(
            system
        ).data_path.regs@ && !res.was_branch && !res.psw_delayed,
{
    let a = read_reg(system, s.rs1);
    let b = ss_value(system, &s.short_source);
    let carry = system.data_path.psw.get_cc_carry();
    let (result, flags) = crate::data_path::alu_compute(mo, a, b, carry);
    let cwp = system.data_path.psw.get_cwp();
    system.data_path.regs.write(s.dest, result, cwp);
    if s.scc {
        system.data_path.psw.set_cc_bits(flags.z, flags.n, flags.v, flags.c);
    }
    system.data_path.increment_pcs();
    Ok(ExecResult::from_system(system))
}

/// Shared body of the calls: push a window, save the pre-call PC in the
/// new window's destination, branch.
fn call_case(system: &mut System, dest: u8, target: u32) -> (r: Result<ExecResult, ExecuteError>)
    requires
        old(system).wf(),
    ensures
        final(system).wf(),
        non_arch_unchanged(*old(system), *final(system)),
        match r {
            Ok(res) => {
                &&& spec_call_case(view_of(*old(system)), dest, target) == Ok::<_, ExecuteError>(
                    (view_of(*final(system)), res.was_branch, res.psw_delayed),
                )
                &&& res.psw == final(system).data_path.psw
                &&& res.regs@ == final(system).data_path.regs@
            },
            Err(e) => {
                &&& spec_call_case(view_of(*old(system)), dest, target) == Err::<
                    (MachineView, bool, bool),
                    ExecuteError,
                >(e)
                &&& view_of(*final(system)) == view_of(*old(system))
            },
        },
{
    if target % 2 == 1 {
        return Err(ExecuteError::Trap(TrapError::BadBranchAlignment));
    }
    let cwp = system.data_path.psw.get_cwp();
    let down = if cwp == 0 {
        7
    } else {
        cwp - 1
    };
    if down == system.data_path.psw.get_swp() {
        return Err(ExecuteError::Trap(TrapError::WindowOverflow));
    }
    let saved_pc = system.data_path.pc;
    let _ = system.data_path.psw.push();
    let new_cwp = system.data_path.psw.get_cwp();
    system.data_path.regs.write(dest, saved_pc, new_cwp);
    system.data_path.branch_to(target);
    let mut res = ExecResult::from_system(system);
    res.was_branch = true;
    Ok(res)
}

/// Shared body of the returns: when the conditional holds, branch to
/// `rs1 + short_source + 8` and pop a window.
fn ret_case(system: &mut System, s: &ShortConditional) -> (r: Result<ExecResult, ExecuteError>)
    requires
        old(system).wf(),
    ensures
        final(system).wf(),
        non_arch_unchanged(*old(system), *final(system)),
        match r {
            Ok(res) => {
                &&& spec_ret_case(view_of(*old(system)), *s) == Ok::<_, ExecuteError>(
                    (view_of(*final(system)), res.was_branch, res.psw_delayed),
                )
                &&& res.psw == final(system).data_path.psw
                &&& res.regs@ == final(system).data_path.regs@
            },
            Err(e) => {
                &&& spec_ret_case(view_of(*old(system)), *s) == Err::<
                    (MachineView, bool, bool),
                    ExecuteError,
                >(e)
                &&& view_of(*final(system)) == view_of(*old(system))
            },
        },
{
    if !test_cond_holds(system, s.dest) {
        system.data_path.increment_pcs();
        return Ok(ExecResult::from_system(system));
    }
    let a = read_reg(system, s.rs1);
    let b = ss_value(system, &s.short_source);
    let target = a.wrapping_add(b).wrapping_add(8);
    if target % 2 == 1 {
        return Err(ExecuteError::Trap(TrapError::BadBranchAlignment));
    }
    let cwp = system.data_path.psw.get_cwp();
    let up = if cwp == 7 {
        0
    } else {
        cwp + 1
    };
    if up == system.data_path.psw.get_swp() {
        return Err(ExecuteError::Trap(TrapError::WindowUnderflow));
    }
    let _ = system.data_path.psw.pop();
    system.data_path.branch_to(target);
    let mut res = ExecResult::from_system(system);
    res.was_branch = true;
    Ok(res)
}

/// Shared body of the word loads.
fn load_word_case(system: &mut System, scc: bool, dest: u8, addr: u32) -> (r: Result<
    ExecResult,
    ExecuteError,
>)
    requires
        old(system).wf(),
    ensures
        final(system).wf(),
        non_arch_unchanged(*old(system), *final(system)),
        load_case_post(view_of(*old(system)), *final(system), scc, dest, addr, 4, false, r),
{
    let v = match system.mem.get_word(addr) {
        Ok(v) => v,
        Err(e) => {
            return Err(ExecuteError::Mem(e));
        },
    };
    finish_load(system, scc, dest, v);
    Ok(ExecResult::from_system(system))
}

/// Shared body of the half-word loads.
fn load_hword_case(system: &mut System, scc: bool, dest: u8, addr: u32, signed: bool) -> (r:
    Result<ExecResult, ExecuteError>)
    requires
        old(system).wf(),
    ensures
        final(system).wf(),
        non_arch_unchanged(*old(system), *final(system)),
        load_case_post(view_of(*old(system)), *final(system), scc, dest, addr, 2, signed, r),
{
    let h = match system.mem.get_hword(addr) {
        Ok(h) => h,
        Err(e) => {
            return Err(ExecuteError::Mem(e));
        },
    };
    let v = if signed {
        if h >= 0x8000 {
            h as u32 + 0xffff0000
        } else {
            h as u32
        }
    } else {
        h as u32
    };
    finish_load(system, scc, dest, v);
    Ok(ExecResult::from_system(system))
}

/// Shared body of the byte loads.
fn load_byte_case(system: &mut System, scc: bool, dest: u8, addr: u32, signed: bool) -> (r: Result<
    ExecResult,
    ExecuteError,
>)
    requires
        old(system).wf(),
    ensures
        final(system).wf(),
        non_arch_unchanged(*old(system), *final(system)),
        load_case_post(view_of(*old(system)), *final(system), scc, dest, addr, 1, signed, r),
{
    let b = match system.mem.get_byte(addr) {
        Ok(b) => b,
        Err(e) => {
            return Err(ExecuteError::Mem(e));
        },
    };
    let v = if signed {
        if b >= 0x80 {
            b as u32 + 0xffffff00
        } else {
            b as u32
        }
    } else {
        b as u32
    };
    finish_load(system, scc, dest, v);
    Ok(ExecResult::from_system(system))
}

/// What any load leaves behind, tied back to `spec_load_case`.
pub open spec fn load_case_post(
    pre: MachineView,
    post: System,
    scc: bool,
    dest: u8,
    addr: u32,
    width: int,
    signed: bool,
    r: Result<ExecResult, ExecuteError>,
) -> bool {
    match r {
        Ok(res) => {
            &&& spec_load_case(pre, scc, dest, addr, width, signed) == Ok::<_, ExecuteError>(
                (view_of(post), false, false),
            )
            &&& res.psw == post.data_path.psw
            &&& res.regs@ == post.data_path.regs@
            &&& !res.was_branch
            &&& !res.psw_delayed
        },
        Err(e) => {
            &&& spec_load_case(pre, scc, dest, addr, width, signed) == Err::<
                (MachineView, bool, bool),
                ExecuteError,
            >(e)
            &&& view_of(post) == pre
        },
    }
}

/// Write a loaded value to its destination, retire the load's condition
/// codes when SCC is set, and advance the program counters.
fn finish_load(system: &mut System, scc: bool, dest: u8, v: u32)
    requires
        old(system).wf(),
    ensures
        final(system).wf(),
        non_arch_unchanged(*old(system), *final(system)),
        view_of(*final(system)) == advanced(
            if scc {
                set_cc(write_dest(view_of(*old(system)), dest, v), load_flags(v))
            } else {
                write_dest(view_of(*old(system)), dest, v)
            },
        ),
{
    let cwp = system.data_path.psw.get_cwp();
    system.data_path.regs.write(dest, v, cwp);
    if scc {
        system.data_path.psw.set_cc_bits(v == 0, v >= 0x8000_0000, false, false);
    }
    system.data_path.increment_pcs();
}

/// What any store leaves behind, tied back to `spec_store_case`.
pub open spec fn store_case_post(
    pre: MachineView,
    post: System,
    scc: bool,
    addr: u32,
    width: int,
    value: u32,
    r: Result<ExecResult, ExecuteError>,
) -> bool {
    match r {
        Ok(res) => {
            &&& spec_store_case(pre, scc, addr, width, value) == Ok::<_, ExecuteError>(
                (view_of(post), false, false),
            )
            &&& res.psw == post.data_path.psw
            &&& res.regs@ == post.data_path.regs@
            &&& !res.was_branch
            &&& !res.psw_delayed
        },
        Err(e) => {
            &&& spec_store_case(pre, scc, addr, width, value) == Err::<
                (MachineView, bool, bool),
                ExecuteError,
            >(e)
            &&& view_of(post) == pre
        },
    }
}

/// Shared body of the word stores.
fn store_word_case(system: &mut System, scc: bool, addr: u32, value: u32) -> (r: Result<
    ExecResult,
    ExecuteError,
>)
    requires
        old(system).wf(),
    ensures
        final(system).wf(),
        non_arch_unchanged(*old(system), *final(system)),
        store_case_post(view_of(*old(system)), *final(system), scc, addr, 4, value, r),
{
    match system.mem.set_word(addr, value) {
        Ok(_) => {},
        Err(e) => {
            return Err(ExecuteError::Mem(e));
        },
    }
    finish_store(system, scc);
    Ok(ExecResult::from_system(system))
}

/// Shared body of the half-word stores.
fn store_hword_case(system: &mut System, scc: bool, addr: u32, value: u32) -> (r: Result<
    ExecResult,
    ExecuteError,
>)
    requires
        old(system).wf(),
    ensures
        final(system).wf(),
        non_arch_unchanged(*old(system), *final(system)),
        store_case_post(view_of(*old(system)), *final(system), scc, addr, 2, value, r),
{
    match system.mem.set_hword(addr, (value % 0x10000) as u16) {
        Ok(_) => {},
        Err(e) => {
            return Err(ExecuteError::Mem(e));
        },
    }
    finish_store(system, scc);
    Ok(ExecResult::from_system(system))
}

/// Shared body of the byte stores.
fn store_byte_case(system: &mut System, scc: bool, addr: u32, value: u32) -> (r: Result<
    ExecResult,
    ExecuteError,
>)
    requires
        old(system).wf(),
    ensures
        final(system).wf(),
        non_arch_unchanged(*old(system), *final(system)),
        store_case_post(view_of(*old(system)), *final(system), scc, addr, 1, value, r),
{
    match system.mem.set_byte(addr, (value % 0x100) as u8) {
        Ok(_) => {},
        Err(e) => {
            return Err(ExecuteError::Mem(e));
        },
    }
    finish_store(system, scc);
    Ok(ExecResult::from_system(system))
}

/// Clear V and C when SCC is set and advance the program counters, as
/// every store does after its memory write.
fn finish_store(system: &mut System, scc: bool)
    requires
        old(system).wf(),
    ensures
        final(system).wf(),
        non_arch_unchanged(*old(system), *final(system)),
        view_of(*final(system)) == advanced(
            if scc {
                set_cc(
                    view_of(*old(system)),
                    SCCBits {
                        z: old(system).data_path.psw.spec_cc_zero(),
                        n: old(system).data_path.psw.spec_cc_neg(),
                        v: false,
                        c: false,
                    },
                )
            } else {
                view_of(*old(system))
            },
        ),
{
    if scc {
        let z = system.data_path.psw.get_cc_zero();
        let n = system.data_path.psw.get_cc_neg();
        system.data_path.psw.set_cc_bits(z, n, false, false);
    }
    system.data_path.increment_pcs();
}

/// The branch target an instruction computes, for the instructions that
/// can branch.
pub open spec fn spec_branch_target(inst: Instruction, m: MachineView) -> u32 {
    match inst {
        Instruction::Callx(s) => alu_add(mread(m, s.rs1), spec_ss_value(s.short_source, m), 0),
        Instruction::Callr(l) => alu_add(m.pc, l.imm19, 0),
        Instruction::Jmpx(s) => alu_add(mread(m, s.rs1), spec_ss_value(s.short_source, m), 0),
        Instruction::Jmpr(l) => alu_add(m.pc, l.imm19, 0),
        Instruction::Ret(s) => alu_add(
            alu_add(mread(m, s.rs1), spec_ss_value(s.short_source, m), 0),
            8,
            0,
        ),
        Instruction::Reti(s) => alu_add(
            alu_add(mread(m, s.rs1), spec_ss_value(s.short_source, m), 0),
            8,
            0,
        ),
        _ => 0,
    }
}

/// Every non-branch step moves the program counter chain one instruction
/// on: LSTPC takes the old PC, PC takes the old NXTPC, and NXTPC advances
/// by one instruction.
pub proof fn lemma_nonbranch_advances_pcs(
    inst: Instruction,
    m: MachineView,
    m2: MachineView,
    delayed: bool,
)
    requires
        spec_execute(inst, m) == Ok::<(MachineView, bool, bool), ExecuteError>(
            (m2, false, delayed),
        ),
    ensures
        m2.lstpc == m.pc,
        m2.pc == m.nxtpc,
        m2.nxtpc == alu_add(m.nxtpc, 4, 0),
{
    match inst {
        Instruction::Calli(_) => {},
        Instruction::GetPSW(_) => {},
        Instruction::GetLPC(_) => {},
        Instruction::PutPSW(_) => {},
        Instruction::Callx(_) => {},
        Instruction::Callr(_) => {},
        Instruction::Jmpx(_) => {},
        Instruction::Jmpr(_) => {},
        Instruction::Ret(_) => {},
        Instruction::Reti(_) => {},
        _ => {},
    }
}

/// A call whose target is aligned and whose window push does not collide
/// with the saved window pointer succeeds, rotates the current window
/// down one, saves the pre-call PC in the destination register of the new
/// window, and branches: NXTPC takes the target while PC takes the old
/// NXTPC. The destination must be a real register (not the hardwired
/// register 0) whose slot in the new window maps inside the file.
pub proof fn lemma_call_rotates_window(m: MachineView, dest: u8, target: u32)
    requires
        m.psw.wf(),
        m.regs.len() == NUM_GLOBALS + NUM_WINDOW_REGISTERS,
        target % 2 == 0,
        dec_mod8(m.psw.spec_cwp()) != m.psw.spec_swp(),
        1 <= dest <= 31,
        reg_index(dest, dec_mod8(m.psw.spec_cwp())) < m.regs.len(),
    ensures
        spec_call_case(m, dest, target) matches Ok(res) && res.1 && !res.2
            && res.0.psw.spec_cwp() == dec_mod8(m.psw.spec_cwp())
            && res.0.psw.spec_swp() == m.psw.spec_swp()
            && spec_reg_read(res.0.regs, dest, res.0.psw.spec_cwp()) == m.pc
            && res.0.lstpc == m.pc
            && res.0.pc == m.nxtpc
            && res.0.nxtpc == target
            && res.0.mem == m.mem,
{
    let cwp = m.psw.spec_cwp();
    let swp = m.psw.spec_swp();
    assert(cwp < 8 && swp < 8) by {
        let x = m.psw.0;
        assert(((x >> 10) & 7) < 8 && ((x >> 7) & 7) < 8) by (bit_vector);
    }
    lemma_psw_pack_fields(
        dec_mod8(cwp),
        swp,
        m.psw.spec_interrupt_enabled(),
        m.psw.spec_system_mode(),
        m.psw.spec_previous_system_mode(),
        m.psw.spec_cc_zero(),
        m.psw.spec_cc_neg(),
        m.psw.spec_cc_overflow(),
        m.psw.spec_cc_carry(),
    );
}

/// Every taken branch with an aligned target sets PC to the old NXTPC,
/// LSTPC to the old PC, and NXTPC to the target.
pub proof fn lemma_branch_sets_pcs(
    inst: Instruction,
    m: MachineView,
    m2: MachineView,
    delayed: bool,
)
    requires
        spec_execute(inst, m) == Ok::<(MachineView, bool, bool), ExecuteError>(
            (m2, true, delayed),
        ),
    ensures
        m2.lstpc == m.pc,
        m2.pc == m.nxtpc,
        m2.nxtpc == spec_branch_target(inst, m),
        m2.nxtpc % 2 == 0,
{
    match inst {
        Instruction::Callx(_) => {},
        Instruction::Callr(_) => {},
        Instruction::Jmpx(_) => {},
        Instruction::Jmpr(_) => {},
        Instruction::Ret(_) => {},
        Instruction::Reti(_) => {},
        _ => {},
    }
}

} // verus!
