//! Inter-stage pipeline latches, buses, and per-phase routing.
//!
//! The datapath owns the register file, the processor status word, the
//! ALU and shifter, and three generations of pipeline latches (stage 1 is
//! being decoded, stage 2 is executing, stage 3 is committing).

use crate::alu::{
    add_flags, alu_add, alu_sll, alu_sra, alu_srl, alu_sub, bitwise_flags, sign_of, sub_flags,
    ALU,
};
use crate::cpu::{
    spec_reg_read, spec_reg_write, OutputPins, ProcessorStatusWord, RegisterFile,
    SIZEOF_INSTRUCTION,
};
use crate::shifter::Shifter;
use vstd::prelude::*;

verus! {

/// Condition-code outputs of one ALU operation.
#[derive(Copy, Clone, Debug, PartialEq, Eq, Structural)]
pub struct SCCBits {
    /// Zero: the result is 0.
    pub z: bool,
    /// Negative: bit 31 of the result is set.
    pub n: bool,
    /// Overflow: signed two's-complement overflow occurred.
    pub v: bool,
    /// Carry: unsigned carry-out for additions, inverted borrow for subtractions.
    pub c: bool,
}

/// Control bundle decoded from an opcode; one copy rides along with each
/// pipeline stage.
#[derive(Clone, Copy, Debug, PartialEq, Eq, Structural)]
pub struct Control {
    /// The instruction uses the long (19-bit immediate) format.
    pub long: bool,
    /// The second ALU operand comes from the immediate latch.
    pub immediate: bool,
    /// The instruction accesses memory.
    pub memory: bool,
    /// The memory access is a store.
    pub store: bool,
    /// The address computation is relative to the program counter.
    pub pc_relative: bool,
    /// A sub-word load sign-extends its result.
    pub signed_load: bool,
    /// The destination field holds a branch conditional, not a register.
    pub conditional: bool,
    /// The destination of the instruction is the processor status word.
    pub dest_is_psw: bool,
}

impl Control {
    /// A control bundle with every bit clear (a pipeline bubble).
    pub fn new() -> (r: Control)
        ensures
            r == Control::noop_spec(),
    {
        Control {
            long: false,
            immediate: false,
            memory: false,
            store: false,
            pc_relative: false,
            signed_load: false,
            conditional: false,
            dest_is_psw: false,
        }
    }

    /// The all-clear control bundle.
    pub open spec fn noop_spec() -> Control {
        Control {
            long: false,
            immediate: false,
            memory: false,
            store: false,
            pc_relative: false,
            signed_load: false,
            conditional: false,
            dest_is_psw: false,
        }
    }

    /// A control bundle with every bit given explicitly.
    pub fn init(
        long: bool,
        immediate: bool,
        memory: bool,
        store: bool,
        pc_relative: bool,
        signed_load: bool,
        conditional: bool,
        dest_is_psw: bool,
    ) -> (r: Control)
        ensures
            r.long == long,
            r.immediate == immediate,
            r.memory == memory,
            r.store == store,
            r.pc_relative == pc_relative,
            r.signed_load == signed_load,
            r.conditional == conditional,
            r.dest_is_psw == dest_is_psw,
    {
        Control {
            long,
            immediate,
            memory,
            store,
            pc_relative,
            signed_load,
            conditional,
            dest_is_psw,
        }
    }
}

/// The control bundle an instruction word decodes to.
pub open spec fn spec_control_of(w: u32) -> Control {
    let op = w >> 25;
    let group = op / 16;
    let sub = op % 16;
    let long = op == 0x09 || op == 0x0d || op == 0x14 || ((group == 2 || group == 3) && sub % 2
        == 1);
    Control {
        long,
        immediate: long || w & 0x2000 != 0,
        memory: group == 2 || group == 3,
        store: group == 3,
        pc_relative: op == 0x09 || op == 0x0d || ((group == 2 || group == 3) && sub % 2 == 1),
        signed_load: group == 2 && (sub == 10 || sub == 11 || sub == 14 || sub == 15),
        conditional: group == 0 && (sub == 12 || sub == 13 || sub == 14 || sub == 15),
        dest_is_psw: op == 4,
    }
}

/// One per-phase action of a decoded instruction cycle: either nothing, or
/// an ALU operation settling its result into the destination latch in
/// phase three.
#[derive(PartialEq, Eq, Copy, Clone, Debug, Structural)]
pub enum MicroOp {
    /// Do nothing this phase.
    Nop,
    /// Settle `ai & bi`.
    AluAnd,
    /// Settle `ai | bi`.
    AluOr,
    /// Settle `ai ^ bi`.
    AluXor,
    /// Settle `ai + bi`.
    AluAdd,
    /// Settle `ai + bi + C`.
    AluAddc,
    /// Settle `ai - bi`.
    AluSub,
    /// Settle `ai - bi + C - 1`.
    AluSubc,
    /// Settle `bi - ai`.
    AluSubi,
    /// Settle `bi - ai + C - 1`.
    AluSubci,
    /// Settle `ai << bi`.
    AluSll,
    /// Settle `ai >> bi` (logical).
    AluSrl,
    /// Settle `ai >> bi` (arithmetic).
    AluSra,
}

/// The result an ALU micro-op settles, over the input latches and the
/// carry flag.
pub open spec fn spec_mo_result(mo: MicroOp, ai: u32, bi: u32, carry: bool) -> u32 {
    let cin: int = if carry {
        1
    } else {
        0
    };
    match mo {
        MicroOp::Nop => 0,
        MicroOp::AluAnd => ai & bi,
        MicroOp::AluOr => ai | bi,
        MicroOp::AluXor => ai ^ bi,
        MicroOp::AluAdd => alu_add(ai, bi, 0),
        MicroOp::AluAddc => alu_add(ai, bi, cin),
        MicroOp::AluSub => alu_sub(ai, bi, 1),
        MicroOp::AluSubc => alu_sub(ai, bi, cin),
        MicroOp::AluSubi => alu_sub(bi, ai, 1),
        MicroOp::AluSubci => alu_sub(bi, ai, cin),
        MicroOp::AluSll => alu_sll(ai, bi),
        MicroOp::AluSrl => alu_srl(ai, bi),
        MicroOp::AluSra => alu_sra(ai, bi),
    }
}

/// The condition codes an ALU micro-op yields when SCC is set.
pub open spec fn spec_mo_flags(mo: MicroOp, ai: u32, bi: u32, carry: bool) -> SCCBits {
    let cin: int = if carry {
        1
    } else {
        0
    };
    match mo {
        MicroOp::Nop => bitwise_flags(0),
        MicroOp::AluAnd => bitwise_flags(ai & bi),
        MicroOp::AluOr => bitwise_flags(ai | bi),
        MicroOp::AluXor => bitwise_flags(ai ^ bi),
        MicroOp::AluAdd => add_flags(ai, bi, 0),
        MicroOp::AluAddc => add_flags(ai, bi, cin),
        MicroOp::AluSub => sub_flags(ai, bi, 1),
        MicroOp::AluSubc => sub_flags(ai, bi, cin),
        MicroOp::AluSubi => sub_flags(bi, ai, 1),
        MicroOp::AluSubci => sub_flags(bi, ai, cin),
        MicroOp::AluSll => bitwise_flags(alu_sll(ai, bi)),
        MicroOp::AluSrl => bitwise_flags(alu_srl(ai, bi)),
        MicroOp::AluSra => bitwise_flags(alu_sra(ai, bi)),
    }
}

/// The datapath after a per-phase action runs: a no-op leaves it alone;
/// an ALU action settles its result into the destination latch and, when
/// the executing instruction's SCC flag is set, retires its condition
/// codes into the PSW.
pub open spec fn spec_mo_step(mo: MicroOp, dp: DataPath) -> DataPath {
    if mo is Nop {
        dp
    } else {
        let r = spec_mo_result(mo, dp.alu.ai, dp.alu.bi, dp.psw.spec_cc_carry());
        let f = spec_mo_flags(mo, dp.alu.ai, dp.alu.bi, dp.psw.spec_cc_carry());
        DataPath {
            dst_latch: r,
            psw: if dp.scc_flag2 {
                dp.psw.spec_with_cc(f.z, f.n, f.v, f.c)
            } else {
                dp.psw
            },
            ..dp
        }
    }
}

/// A single per-phase callback of an instruction cycle.
#[derive(PartialEq, Eq, Copy, Clone, Debug, Structural)]
pub struct MicroOperation(pub MicroOp);

impl MicroOperation {
    /// Wrap a per-phase action.
    pub fn new(op: MicroOp) -> (r: MicroOperation)
        ensures
            r.0 == op,
    {
        MicroOperation(op)
    }

    /// The do-nothing action, used for bubbles and for phases an
    /// instruction leaves idle.
    pub fn noop() -> (r: MicroOperation)
        ensures
            r.0 == MicroOp::Nop,
    {
        MicroOperation(MicroOp::Nop)
    }

    /// Run the action on the datapath: a no-op leaves it alone; an ALU
    /// action settles its result into the destination latch and, when the
    /// executing instruction's SCC flag is set, retires its condition
    /// codes into the PSW.
    pub fn call(&self, dp: &mut DataPath)
        requires
            old(dp).psw.wf(),
        ensures
            *final(dp) == spec_mo_step(self.0, *old(dp)),
            final(dp).psw.wf(),
    {
        if let MicroOp::Nop = self.0 {
            return ;
        }
        let carry = dp.psw.get_cc_carry();
        let (result, flags) = alu_compute(self.0, dp.alu.ai, dp.alu.bi, carry);
        dp.dst_latch = result;
        if dp.scc_flag2 {
            dp.psw.set_cc_bits(flags.z, flags.n, flags.v, flags.c);
        }
    }
}

/// Run one ALU micro-op on explicit operands, yielding the result and the
/// condition codes it would retire.
pub fn alu_compute(mo: MicroOp, ai: u32, bi: u32, carry: bool) -> (r: (u32, SCCBits))
    requires
        !(mo is Nop),
    ensures
        r.0 == spec_mo_result(mo, ai, bi, carry),
        r.1 == spec_mo_flags(mo, ai, bi, carry),
{
    let alu = ALU { ai, bi };
    match mo {
        MicroOp::Nop => (0, SCCBits { z: true, n: false, v: false, c: false }),
        MicroOp::AluAnd => alu.and_scc(),
        MicroOp::AluOr => alu.or_scc(),
        MicroOp::AluXor => alu.xor_scc(),
        MicroOp::AluAdd => alu.add_scc(),
        MicroOp::AluAddc => alu.addc_scc(carry),
        MicroOp::AluSub => alu.sub_scc(),
        MicroOp::AluSubc => alu.subc_scc(carry),
        MicroOp::AluSubi => alu.subi_scc(),
        MicroOp::AluSubci => alu.subci_scc(carry),
        MicroOp::AluSll => alu.shift_left_arithmetic_scc(),
        MicroOp::AluSrl => alu.shift_right_logical_scc(),
        MicroOp::AluSra => alu.shift_right_arithmetic_scc(),
    }
}

/// The four per-phase callbacks of one decoded instruction.
#[derive(PartialEq, Eq, Copy, Clone, Debug, Structural)]
pub struct InstructionCycle {
    /// Phase-one action.
    pub p1: MicroOperation,
    /// Phase-two action.
    pub p2: MicroOperation,
    /// Phase-three action.
    pub p3: MicroOperation,
    /// Phase-four action.
    pub p4: MicroOperation,
}

impl InstructionCycle {
    /// The all-idle cycle, used for bubbles.
    pub fn noop_cycle() -> (r: InstructionCycle)
        ensures
            r == InstructionCycle::spec_noop_cycle(),
    {
        InstructionCycle {
            p1: MicroOperation(MicroOp::Nop),
            p2: MicroOperation(MicroOp::Nop),
            p3: MicroOperation(MicroOp::Nop),
            p4: MicroOperation(MicroOp::Nop),
        }
    }

    /// The all-idle cycle.
    pub open spec fn spec_noop_cycle() -> InstructionCycle {
        InstructionCycle {
            p1: MicroOperation(MicroOp::Nop),
            p2: MicroOperation(MicroOp::Nop),
            p3: MicroOperation(MicroOp::Nop),
            p4: MicroOperation(MicroOp::Nop),
        }
    }
}

/// The phase-three ALU action an instruction word calls for; every other
/// phase of every instruction, and every phase of the non-ALU
/// instructions, is left to the sequencer's own routing.
pub open spec fn spec_cycle_of(w: u32) -> InstructionCycle {
    InstructionCycle {
        p1: MicroOperation(MicroOp::Nop),
        p2: MicroOperation(MicroOp::Nop),
        p3: MicroOperation(spec_alu_op_of(w >> 25)),
        p4: MicroOperation(MicroOp::Nop),
    }
}

/// The ALU micro-op of a 7-bit opcode, `Nop` for everything that is not
/// a plain ALU instruction.
pub open spec fn spec_alu_op_of(op: u32) -> MicroOp {
    if op == 0x11 {
        MicroOp::AluSll
    } else if op == 0x12 {
        MicroOp::AluSra
    } else if op == 0x13 {
        MicroOp::AluSrl
    } else if op == 0x15 {
        MicroOp::AluAnd
    } else if op == 0x16 {
        MicroOp::AluOr
    } else if op == 0x17 {
        MicroOp::AluXor
    } else if op == 0x18 {
        MicroOp::AluAdd
    } else if op == 0x19 {
        MicroOp::AluAddc
    } else if op == 0x1c {
        MicroOp::AluSub
    } else if op == 0x1d {
        MicroOp::AluSubc
    } else if op == 0x1e {
        MicroOp::AluSubi
    } else if op == 0x1f {
        MicroOp::AluSubci
    } else {
        MicroOp::Nop
    }
}

/// The emulated datapath: registers, PSW, ALU, shifter, pipeline latches
/// and the output pins.
#[derive(Debug, Clone)]
pub struct DataPath {
    /// The register file.
    pub regs: RegisterFile,
    /// Processor status.
    pub psw: ProcessorStatusWord,
    /// Temporary latch for the committing instruction's result.
    pub dst_latch: u32,
    /// Next program counter: address of the instruction being fetched.
    pub nxtpc: u32,
    /// Program counter: address of the instruction being executed.
    pub pc: u32,
    /// Last program counter: address of the last retired (or aborted)
    /// instruction.
    pub lstpc: u32,
    /// Pins for communicating with memory.
    pub output_pins: OutputPins,
    /// Arithmetic logic unit.
    pub alu: ALU,
    /// Shifter unit.
    pub shifter: Shifter,
    /// Data-or-immediate latch: memory data or the materialized immediate.
    pub dimm: u32,
    /// Raw 19-bit immediate of the instruction being decoded.
    pub imm: u32,
    /// Byte address register: bottom two bits of the memory address.
    pub bar: u8,
    /// Destination register address, decode stage.
    pub rd1: u8,
    /// Destination register address, execute stage.
    pub rd2: u8,
    /// Destination register address, commit stage.
    pub rd3: u8,
    /// First source register, decode stage.
    pub rs1_1: u8,
    /// Second source register, decode stage.
    pub rs2_1: u8,
    /// First source register, execute stage.
    pub rs1_2: u8,
    /// Second source register, execute stage.
    pub rs2_2: u8,
    /// Opcode, decode stage.
    pub op1: u8,
    /// Opcode, execute stage.
    pub op2: u8,
    /// SCC flag, decode stage.
    pub scc_flag1: bool,
    /// SCC flag, execute stage.
    pub scc_flag2: bool,
    /// SCC flag, commit stage.
    pub scc_flag3: bool,
    /// Immediate flag, decode stage.
    pub imm_flag1: bool,
    /// Immediate flag, execute stage.
    pub imm_flag2: bool,
    /// Control bits, decode stage.
    pub control1: Control,
    /// Control bits, execute stage.
    pub control2: Control,
    /// Control bits, commit stage.
    pub control3: Control,
}

impl DataPath {
    /// The register file holds its 138 registers and the PSW sits in its
    /// 13 bits.
    pub open spec fn wf(&self) -> bool {
        self.regs.wf() && self.psw.wf()
    }

    /// The datapath after the pipeline latches advance one instruction.
    pub open spec fn spec_shifted(self) -> DataPath {
        DataPath {
            control3: self.control2,
            control2: self.control1,
            rd3: self.rd2,
            rd2: self.rd1,
            rs1_2: self.rs1_1,
            rs2_2: self.rs2_1,
            scc_flag3: self.scc_flag2,
            scc_flag2: self.scc_flag1,
            imm_flag2: self.imm_flag1,
            op2: self.op1,
            dimm: if self.control1.long {
                self.imm << 13
            } else if self.imm & 0x1000 != 0 {
                self.imm | 0xffffe000
            } else {
                self.imm
            },
            ..self
        }
    }

    /// The datapath after the source registers (or the program counter)
    /// are routed onto the ALU input latches.
    pub open spec fn spec_routed_regs(self) -> DataPath {
        if self.control1.pc_relative {
            DataPath { alu: (ALU { ai: self.pc, bi: self.alu.bi }), ..self }
        } else {
            DataPath {
                alu: (ALU {
                    ai: spec_reg_read(self.regs@, self.rs1_2, self.psw.spec_cwp()),
                    bi: spec_reg_read(self.regs@, self.rs2_2, self.psw.spec_cwp()),
                }),
                ..self
            }
        }
    }

    /// The datapath after the immediate is routed into the ALU's second
    /// input latch, when the decoded instruction takes one.
    pub open spec fn spec_routed_imm(self) -> DataPath {
        if self.control1.immediate {
            DataPath { alu: (ALU { ai: self.alu.ai, bi: self.dimm }), ..self }
        } else {
            self
        }
    }

    /// The datapath after a fetched instruction word is captured into the
    /// decode-stage latches.
    pub open spec fn spec_with_input(self, value: u32) -> DataPath {
        DataPath {
            dimm: value,
            op1: (value >> 25) as u8,
            imm_flag1: value & 0x2000 != 0,
            scc_flag1: value & 0x1000000 != 0,
            rd1: ((value >> 19) & 0x1f) as u8,
            rs1_1: ((value >> 14) & 0x1f) as u8,
            rs2_1: (value & 0x1f) as u8,
            imm: value & 0x7ffff,
            ..self
        }
    }

    /// Create a datapath with every register, latch and flag zeroed.
    pub fn new() -> (r: DataPath)
        ensures
            r.wf(),
            r.psw.0 == 0,
            r.nxtpc == 0,
            r.pc == 0,
            r.lstpc == 0,
            r.dst_latch == 0,
            forall|i: int| 0 <= i < r.regs@.len() ==> r.regs@[i] == 0u32,
            r.control1 == Control::noop_spec(),
            r.control2 == Control::noop_spec(),
            r.control3 == Control::noop_spec(),
            r.alu == (ALU { ai: 0u32, bi: 0u32 }),
            r.shifter == (Shifter { src: 0u32, s_ham: 0u8 }),
            r.output_pins == (OutputPins {
                address: 0u32,
                data: 0u32,
                width_code_word: false,
                width_code_half: false,
                read_write: false,
                system_mode: false,
                instr_or_data_write: false,
            }),
            r.dimm == 0,
            r.imm == 0,
            r.bar == 0,
            r.rd1 == 0,
            r.rd2 == 0,
            r.rd3 == 0,
            r.rs1_1 == 0,
            r.rs2_1 == 0,
            r.rs1_2 == 0,
            r.rs2_2 == 0,
            r.op1 == 0,
            r.op2 == 0,
            !r.scc_flag1,
            !r.scc_flag2,
            !r.scc_flag3,
            !r.imm_flag1,
            !r.imm_flag2,
    {
        DataPath {
            regs: RegisterFile::new(),
            psw: ProcessorStatusWord::new(),
            shifter: Shifter::new(),
            dst_latch: 0,
            alu: ALU::new(),
            bar: 0,
            rd1: 0,
            rd2: 0,
            rd3: 0,
            rs1_1: 0,
            rs2_1: 0,
            rs1_2: 0,
            rs2_2: 0,
            op1: 0,
            op2: 0,
            dimm: 0,
            imm: 0,
            nxtpc: 0,
            pc: 0,
            lstpc: 0,
            output_pins: OutputPins::new(),
            scc_flag1: false,
            scc_flag2: false,
            scc_flag3: false,
            imm_flag1: false,
            imm_flag2: false,
            control1: Control::new(),
            control2: Control::new(),
            control3: Control::new(),
        }
    }

    /// Commit the previous instruction: write the destination latch to
    /// the commit-stage destination register in the current window. Only
    /// this step ever writes the register file.
    pub fn commit(&mut self)
        requires
            old(self).wf(),
        ensures
            final(self).wf(),
            final(self).regs@ == spec_reg_write(
                old(self).regs@,
                old(self).rd3,
                old(self).dst_latch,
                old(self).psw.spec_cwp(),
            ),
            *final(self) == (DataPath { regs: final(self).regs, ..*old(self) }),
    {
        let dest_value = self.dst_latch;
        let dest_reg = self.rd3;
        let cwp = self.psw.get_cwp();
        self.regs.write(dest_reg, dest_value, cwp);
    }

    /// Route the source registers onto the ALU input latches; a
    /// PC-relative instruction routes the program counter into `ai`
    /// instead.
    pub fn route_regs_to_alu(&mut self)
        requires
            old(self).wf(),
        ensures
            final(self).wf(),
            *final(self) == old(self).spec_routed_regs(),
    {
        if self.control1.pc_relative {
            self.alu.ai = self.pc;
        } else {
            let src1 = self.rs1_2;
            let src2 = self.rs2_2;
            let cwp = self.psw.get_cwp();
            let read1 = self.regs.read(src1, cwp);
            let read2 = self.regs.read(src2, cwp);
            self.alu.ai = read1;
            self.alu.bi = read2;
        }
    }

    /// Capture a fetched instruction word into the decode-stage latches.
    /// No architectural state changes.
    pub fn set_input_pins(&mut self, value: u32)
        ensures
            *final(self) == old(self).spec_with_input(value),
    {
        self.dimm = value;
        proof {
            assert(value >> 25 < 0x100 && (value >> 19) & 0x1f < 0x100 && (value >> 14) & 0x1f
                < 0x100 && value & 0x1f < 0x100) by (bit_vector);
        }
        self.op1 = (value >> 25) as u8;
        self.imm_flag1 = value & 0x2000 != 0;
        self.scc_flag1 = value & 0x1000000 != 0;
        self.rd1 = ((value >> 19) & 0x1f) as u8;
        self.rs1_1 = ((value >> 14) & 0x1f) as u8;
        self.rs2_1 = (value & 0x1f) as u8;
        self.imm = value & 0x7ffff;
    }

    /// The address on the output pins.
    pub fn get_out_address(&self) -> (r: u32)
        ensures
            r == self.output_pins.address,
    {
        self.output_pins.address
    }

    /// The data on the output pins.
    pub fn get_out_data(&self) -> (r: u32)
        ensures
            r == self.output_pins.data,
    {
        self.output_pins.data
    }

    /// A borrow of the output pins.
    pub fn get_output_pins_ref(&self) -> (r: &OutputPins)
        ensures
            *r == self.output_pins,
    {
        &self.output_pins
    }

    /// Route the materialized immediate into the ALU's second input latch
    /// when the decoded instruction takes an immediate operand.
    pub fn route_imm_to_alu(&mut self)
        ensures
            *final(self) == old(self).spec_routed_imm(),
    {
        if self.control1.immediate {
            self.alu.bi = self.dimm;
        }
    }

    /// Advance the pipeline one instruction: stage two moves to stage
    /// three, stage one to stage two, and the data-or-immediate latch is
    /// re-materialized from the raw immediate — placed in the top 19 bits
    /// for the long format, sign-extended for a 13-bit immediate with its
    /// sign bit set.
    pub fn shift_pipeline_latches(&mut self)
        ensures
            *final(self) == old(self).spec_shifted(),
    {
        self.control3 = self.control2;
        self.control2 = self.control1;
        self.rd3 = self.rd2;
        self.rd2 = self.rd1;
        self.rs1_2 = self.rs1_1;
        self.rs2_2 = self.rs2_1;
        self.scc_flag3 = self.scc_flag2;
        self.scc_flag2 = self.scc_flag1;
        self.imm_flag2 = self.imm_flag1;
        self.op2 = self.op1;
        self.dimm = if self.control2.long {
            self.imm << 13
        } else {
            if self.imm & SHORT_IMM_SIGN_LOC_WORD != 0 {
                self.imm | 0xffffe000
            } else {
                self.imm
            }
        };
    }

    /// Advance the program counters past a retiring non-branch
    /// instruction: LSTPC takes PC, PC takes NXTPC, and NXTPC moves one
    /// instruction on.
    pub fn increment_pcs(&mut self)
        ensures
            *final(self) == (DataPath {
                lstpc: old(self).pc,
                pc: old(self).nxtpc,
                nxtpc: crate::alu::alu_add(old(self).nxtpc, SIZEOF_INSTRUCTION, 0),
                ..*old(self)
            }),
    {
        self.lstpc = self.pc;
        self.pc = self.nxtpc;
        self.nxtpc = self.nxtpc.wrapping_add(SIZEOF_INSTRUCTION);
    }

    /// Take a branch: LSTPC takes PC, PC takes NXTPC, and NXTPC takes the
    /// branch target.
    pub fn branch_to(&mut self, address: u32)
        ensures
            *final(self) == (DataPath {
                lstpc: old(self).pc,
                pc: old(self).nxtpc,
                nxtpc: address,
                ..*old(self)
            }),
    {
        self.lstpc = self.pc;
        self.pc = self.nxtpc;
        self.nxtpc = address;
    }

    /// The 13-bit PSW cell, zero-padded to 32 bits.
    pub fn get_psw_as_u32(&self) -> (r: u32)
        ensures
            r == self.psw.0 as u32,
    {
        self.psw.get() as u32
    }

    /// A call pushes the register window stack.
    pub fn call(&mut self, addr: u32) -> (spill: bool)
        requires
            old(self).psw.wf(),
        ensures
            *final(self) == (DataPath { psw: old(self).psw.spec_push().0, ..*old(self) }),
            spill == old(self).psw.spec_push().1,
            final(self).psw.wf(),
    {
        let _ = addr;
        self.psw.push()
    }

    /// A return pops the register window stack.
    pub fn ret(&mut self) -> (fill: bool)
        requires
            old(self).psw.wf(),
        ensures
            *final(self) == (DataPath { psw: old(self).psw.spec_pop().0, ..*old(self) }),
            fill == old(self).psw.spec_pop().1,
            final(self).psw.wf(),
    {
        self.psw.pop()
    }

    /// A mutable borrow of the register file.
    pub fn get_register_file(&mut self) -> (r: &mut RegisterFile)
        ensures
            *r == old(self).regs,
            *final(self) == (DataPath { regs: *final(r), ..*old(self) }),
    {
        &mut self.regs
    }

    /// A copy of the register file.
    pub fn copy_register_file(&self) -> (r: RegisterFile)
        requires
            self.wf(),
        ensures
            r@ == self.regs@,
    {
        self.regs.duplicate()
    }

    /// The last program counter.
    pub fn get_last_pc(&self) -> (r: u32)
        ensures
            r == self.lstpc,
    {
        self.lstpc
    }

    /// The program counter.
    pub fn get_pc(&self) -> (r: u32)
        ensures
            r == self.pc,
    {
        self.pc
    }

    /// The next program counter.
    pub fn get_next_pc(&self) -> (r: u32)
        ensures
            r == self.nxtpc,
    {
        self.nxtpc
    }

    /// The processor status word.
    pub fn get_psw(&self) -> (r: ProcessorStatusWord)
        ensures
            r == self.psw,
    {
        self.psw
    }

    /// Replace the processor status word with a packed cell, keeping only
    /// its 13 bits.
    pub fn set_psw(&mut self, psw: u16)
        ensures
            *final(self) == (DataPath {
                psw: ProcessorStatusWord((psw % 0x2000) as u16),
                ..*old(self)
            }),
            final(self).psw.wf(),
    {
        self.psw = ProcessorStatusWord::from_u16(psw);
    }

    /// Evaluate the 4-bit conditional held in the execute-stage
    /// destination latch against the PSW's condition codes.
    pub fn test_conditional(&self) -> (r: bool)
        ensures
            r == spec_cond_holds(
                (self.rd2 & 0xf) as u32,
                self.psw.spec_cc_zero(),
                self.psw.spec_cc_neg(),
                self.psw.spec_cc_overflow(),
                self.psw.spec_cc_carry(),
            ),
    {
        let n = self.psw.get_cc_neg();
        let v = self.psw.get_cc_overflow();
        let z = self.psw.get_cc_zero();
        let c = self.psw.get_cc_carry();
        let code = (self.rd2 & 0xf) as u32;
        test_cond(code, z, n, v, c)
    }

    /// Decode the instruction word sitting in the data-or-immediate
    /// latch: fill the decode-stage control bundle and hand back the
    /// per-phase actions of the instruction's cycle.
    pub fn decode(&mut self) -> (r: InstructionCycle)
        ensures
            *final(self) == (DataPath { control1: spec_control_of(old(self).dimm), ..*old(self) }),
            r == spec_cycle_of(old(self).dimm),
    {
        let instruction = self.dimm;
        let op = instruction >> 25;
        let group = op / 16;
        let sub = op % 16;
        let long = op == 0x09 || op == 0x0d || op == 0x14 || ((group == 2 || group == 3) && sub % 2
            == 1);
        let memory = group == 2 || group == 3;
        let store = group == 3;
        let pc_relative = op == 0x09 || op == 0x0d || ((group == 2 || group == 3) && sub % 2 == 1);
        let signed_load = group == 2 && (sub == 10 || sub == 11 || sub == 14 || sub == 15);
        let conditional = group == 0 && (sub == 12 || sub == 13 || sub == 14 || sub == 15);
        let dest_is_psw = op == 4;
        let immediate = long || instruction & SHORT_SOURCE_TYPE_LOC_WORD != 0;
        self.control1 = Control::init(
            long,
            immediate,
            memory,
            store,
            pc_relative,
            signed_load,
            conditional,
            dest_is_psw,
        );
        InstructionCycle {
            p1: MicroOperation(MicroOp::Nop),
            p2: MicroOperation(MicroOp::Nop),
            p3: MicroOperation(alu_op_of(op)),
            p4: MicroOperation(MicroOp::Nop),
        }
    }

    /// Whether the instruction now executing accesses memory; the
    /// sequencer suspends the pipeline for a cycle when it does.
    pub fn current_instruction_is_memory(&self) -> (r: bool)
        ensures
            r == self.control2.memory,
    {
        self.control2.memory
    }

    /// Settle the ALU's sum into the destination latch.
    pub fn add_step(&mut self)
        ensures
            *final(self) == (DataPath {
                dst_latch: alu_add(old(self).alu.ai, old(self).alu.bi, 0),
                ..*old(self)
            }),
    {
        self.dst_latch = self.alu.add();
    }

    /// Retire Z and N from the settled result into the PSW, gated by the
    /// committing instruction's SCC flag.
    pub fn set_cc_codes_arithmetic(&mut self)
        requires
            old(self).psw.wf(),
        ensures
            old(self).scc_flag3 ==> *final(self) == (DataPath {
                psw: old(self).psw.spec_with_cc(
                    old(self).dst_latch == 0,
                    sign_of(old(self).dst_latch),
                    old(self).psw.spec_cc_overflow(),
                    old(self).psw.spec_cc_carry(),
                ),
                ..*old(self)
            }),
            !old(self).scc_flag3 ==> *final(self) == *old(self),
            final(self).psw.wf(),
    {
        if self.scc_flag3 {
            let z = self.dst_latch == 0;
            let n = self.dst_latch >= 0x8000_0000;
            let v = self.psw.get_cc_overflow();
            let c = self.psw.get_cc_carry();
            self.psw.set_cc_bits(z, n, v, c);
        }
    }
}

/// Location of the short-source-is-immediate flag, repeated locally.
const SHORT_SOURCE_TYPE_LOC_WORD: u32 = 0x2000;

/// Location of the sign bit of a 13-bit immediate, repeated locally.
const SHORT_IMM_SIGN_LOC_WORD: u32 = 0x1000;

/// Whether a 4-bit conditional code holds of the condition codes, as the
/// hardware's comparison table has it. Code 0 never holds.
pub open spec fn spec_cond_holds(code: u32, z: bool, n: bool, v: bool, c: bool) -> bool {
    if code == 1 {
        !((n != v) || z)
    } else if code == 2 {
        (n != v) || z
    } else if code == 3 {
        !(n != v)
    } else if code == 4 {
        n != v
    } else if code == 5 {
        !(!c || z)
    } else if code == 6 {
        !c || z
    } else if code == 7 {
        !c
    } else if code == 8 {
        c
    } else if code == 9 {
        !n
    } else if code == 10 {
        n
    } else if code == 11 {
        !z
    } else if code == 12 {
        z
    } else if code == 13 {
        !v
    } else if code == 14 {
        v
    } else if code == 15 {
        true
    } else {
        false
    }
}

/// Evaluate a 4-bit conditional code against the condition codes.
pub fn test_cond(code: u32, z: bool, n: bool, v: bool, c: bool) -> (r: bool)
    ensures
        r == spec_cond_holds(code, z, n, v, c),
{
    if code == 1 {
        !((n != v) || z)
    } else if code == 2 {
        (n != v) || z
    } else if code == 3 {
        !(n != v)
    } else if code == 4 {
        n != v
    } else if code == 5 {
        !(!c || z)
    } else if code == 6 {
        !c || z
    } else if code == 7 {
        !c
    } else if code == 8 {
        c
    } else if code == 9 {
        !n
    } else if code == 10 {
        n
    } else if code == 11 {
        !z
    } else if code == 12 {
        z
    } else if code == 13 {
        !v
    } else if code == 14 {
        v
    } else if code == 15 {
        true
    } else {
        false
    }
}

/// The executable twin of `spec_alu_op_of`, over the 7-bit opcode.
fn alu_op_of(op: u32) -> (r: MicroOp)
    ensures
        r == spec_alu_op_of(op),
{
    if op == 0x11 {
        MicroOp::AluSll
    } else if op == 0x12 {
        MicroOp::AluSra
    } else if op == 0x13 {
        MicroOp::AluSrl
    } else if op == 0x15 {
        MicroOp::AluAnd
    } else if op == 0x16 {
        MicroOp::AluOr
    } else if op == 0x17 {
        MicroOp::AluXor
    } else if op == 0x18 {
        MicroOp::AluAdd
    } else if op == 0x19 {
        MicroOp::AluAddc
    } else if op == 0x1c {
        MicroOp::AluSub
    } else if op == 0x1d {
        MicroOp::AluSubc
    } else if op == 0x1e {
        MicroOp::AluSubi
    } else if op == 0x1f {
        MicroOp::AluSubci
    } else {
        MicroOp::Nop
    }
}

} // verus!
