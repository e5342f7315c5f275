//! Machine-level tests: ALU boundary behaviour, the register window file,
//! the PSW window stack, memory round trips, and whole instructions run
//! through the executor.

use riscii::alu::ALU;
use riscii::clock::{Clock, Phase};
use riscii::config::Config;
use riscii::cpu::{ProcessorStatusWord, RegisterFile};
use riscii::decode::{decode, decode_file, noop, DecodeError};
use riscii::execute::{execute, ExecuteError, TrapError};
use riscii::instruction::{
    Conditional, Instruction, LongConditional, LongInstruction, ShortConditional,
    ShortInstruction, ShortSource,
};
use riscii::memory::{Memory, MemoryError};
use riscii::register::State;
use riscii::shifter::Shifter;
use riscii::system::System;

fn test_config(mem: u32) -> Config {
    Config::with_settings(mem, 1, String::new(), String::new(), 0, 0, 0, 0, 0, false)
}

fn test_system(mem: u32) -> System {
    System::new(&test_config(mem))
}

// ALU boundary behaviour.

#[test]
fn alu_add_signed_overflow() {
    let alu = ALU { ai: 0x7fffffff, bi: 1 };
    let (r, f) = alu.add_scc();
    assert_eq!(r, 0x80000000);
    assert!(f.v);
    assert!(f.n);
    assert!(!f.c);
    assert!(!f.z);
}

#[test]
fn alu_sub_borrow() {
    let alu = ALU { ai: 0, bi: 1 };
    let (r, f) = alu.sub_scc();
    assert_eq!(r, 0xffffffff);
    assert!(!f.v);
    assert!(f.n);
    assert!(!f.c);
    assert!(!f.z);
}

#[test]
fn alu_sll_by_32_yields_zero() {
    let alu = ALU { ai: 0xdeadbeef, bi: 32 };
    assert_eq!(alu.shift_left_logical(), 0);
    let (r, f) = alu.shift_left_arithmetic_scc();
    assert_eq!(r, 0);
    assert!(f.z);
}

#[test]
fn alu_add_carry_flag() {
    let alu = ALU { ai: 0xffffffff, bi: 0x00000001 };
    let (r, f) = alu.add_scc();
    assert_eq!(r, 0);
    assert!(f.z);
    assert!(!f.n);
    assert!(f.c);
    assert!(!f.v);
}

#[test]
fn alu_scc_forms_agree_with_plain() {
    let alu = ALU { ai: 0x12345678, bi: 0x9abcdef0 };
    assert_eq!(alu.add(), alu.add_scc().0);
    assert_eq!(alu.addc(true), alu.addc_scc(true).0);
    assert_eq!(alu.sub(), alu.sub_scc().0);
    assert_eq!(alu.subc(false), alu.subc_scc(false).0);
    assert_eq!(alu.subi(), alu.subi_scc().0);
    assert_eq!(alu.subci(true), alu.subci_scc(true).0);
    assert_eq!(alu.and(), alu.and_scc().0);
    assert_eq!(alu.or(), alu.or_scc().0);
    assert_eq!(alu.xor(), alu.xor_scc().0);
    assert_eq!(alu.shift_left_logical(), alu.shift_left_arithmetic_scc().0);
    assert_eq!(alu.shift_right_logical(), alu.shift_right_logical_scc().0);
    assert_eq!(alu.shift_right_arithmetic(), alu.shift_right_arithmetic_scc().0);
}

#[test]
fn alu_sra_fills_sign() {
    let alu = ALU { ai: 0x80000000, bi: 4 };
    assert_eq!(alu.shift_right_arithmetic(), 0xf8000000);
    let positive = ALU { ai: 0x40000000, bi: 4 };
    assert_eq!(positive.shift_right_arithmetic(), 0x04000000);
}

// Register file and windows.

#[test]
fn register_zero_reads_zero_after_write() {
    let mut regs = RegisterFile::new();
    regs.write(0, 0xdeadbeef, 0);
    assert_eq!(regs.read(0, 0), 0);
    regs.write(0, 1, 3);
    assert_eq!(regs.read(0, 5), 0);
}

#[test]
fn register_window_offset_is_one_window() {
    let regs = RegisterFile::new();
    let a = regs.get_real_address(10, 0).unwrap();
    let b = regs.get_real_address(10, 1).unwrap();
    assert_eq!(b - a, 16);
    let mut regs = RegisterFile::new();
    regs.write(10, 0x1111, 0);
    regs.write(10, 0x2222, 1);
    assert_eq!(regs.read(10, 0), 0x1111);
    assert_eq!(regs.read(10, 1), 0x2222);
    // Address 26 of one window aliases address 10 of the next.
    assert_eq!(regs.read(26, 0), 0x2222);
}

#[test]
fn psw_push_pop_restores() {
    let mut psw = ProcessorStatusWord::init(3, 6, true, false, true, true, false, true, false);
    let before = psw.get();
    let spill = psw.push();
    assert!(!spill);
    assert_eq!(psw.get_cwp(), 2);
    let fill = psw.pop();
    assert!(!fill);
    assert_eq!(psw.get(), before);
}

#[test]
fn psw_push_pop_restores_across_spill() {
    // CWP one above SWP: pushing collides and spills, popping fills back.
    let mut psw = ProcessorStatusWord::init(4, 3, false, false, false, false, false, false, false);
    let before = psw.get();
    let spill = psw.push();
    assert!(spill);
    assert_eq!(psw.get_cwp(), 3);
    assert_eq!(psw.get_swp(), 4);
    let fill = psw.pop();
    assert!(fill);
    assert_eq!(psw.get(), before);
}

#[test]
fn psw_field_round_trip() {
    let mut psw = ProcessorStatusWord::new();
    psw.set_cwp(5);
    psw.set_swp(2);
    psw.set_cc_zero(true);
    psw.set_cc_carry(true);
    psw.set_system_mode(true);
    assert_eq!(psw.get_cwp(), 5);
    assert_eq!(psw.get_swp(), 2);
    assert!(psw.get_cc_zero());
    assert!(psw.get_cc_carry());
    assert!(psw.get_system_mode());
    assert!(!psw.get_cc_neg());
    assert!(!psw.get_cc_overflow());
    assert!(!psw.get_interrupt_enabled());
    assert!(!psw.get_previous_system_mode());
}

// Memory.

#[test]
fn memory_word_round_trip() {
    let mut mem = Memory::from_size(0x200);
    assert_eq!(mem.set_word(0x100, 0xdeadbeef), Ok(0xdeadbeef));
    assert_eq!(mem.get_word(0x100), Ok(0xdeadbeef));
    // Big-endian on the wire.
    assert_eq!(mem.get_byte(0x100), Ok(0xde));
    assert_eq!(mem.get_byte(0x103), Ok(0xef));
}

#[test]
fn memory_hword_and_byte_round_trip() {
    let mut mem = Memory::from_size(0x100);
    assert_eq!(mem.set_hword(0x10, 0xbeef), Ok(0xbeef));
    assert_eq!(mem.get_hword(0x10), Ok(0xbeef));
    assert_eq!(mem.set_byte(0x20, 0xab), Ok(0xab));
    assert_eq!(mem.get_byte(0x20), Ok(0xab));
}

#[test]
fn memory_rejects_misaligned() {
    let mut mem = Memory::from_size(0x100);
    assert_eq!(mem.get_word(0x2), Err(MemoryError::Misaligned));
    assert_eq!(mem.get_word(0x1), Err(MemoryError::Misaligned));
    assert_eq!(mem.get_hword(0x3), Err(MemoryError::Misaligned));
    assert_eq!(mem.set_word(0x6, 1), Err(MemoryError::Misaligned));
    assert_eq!(mem.set_hword(0x7, 1), Err(MemoryError::Misaligned));
}

#[test]
fn memory_rejects_out_of_range() {
    let mut mem = Memory::from_size(0x10);
    assert_eq!(mem.get_word(0x10), Err(MemoryError::OutOfRange));
    assert_eq!(mem.get_byte(0x10), Err(MemoryError::OutOfRange));
    assert_eq!(mem.set_word(0x10, 1), Err(MemoryError::OutOfRange));
    assert_eq!(mem.set_byte(0x55, 1), Err(MemoryError::OutOfRange));
    assert_eq!(mem.get_word(0xfffffffc), Err(MemoryError::OutOfRange));
}

#[test]
fn memory_write_buf() {
    let mut mem = Memory::from_size(0x10);
    assert_eq!(mem.write_buf(4, &[1, 2, 3]), Ok(()));
    assert_eq!(mem.get_byte(4), Ok(1));
    assert_eq!(mem.get_byte(6), Ok(3));
    assert_eq!(mem.write_buf(14, &[1, 2, 3]), Err(MemoryError::OutOfRange));
}

#[test]
fn register_file_flush_to_mem() {
    let mut regs = RegisterFile::new();
    regs.write(1, 0xcafe0001, 0);
    regs.write(10, 0xcafe0002, 0);
    let mut mem = Memory::from_size(0x1000);
    assert_eq!(regs.flush_to_mem(&mut mem, 0x400), Ok(()));
    assert_eq!(mem.get_word(0x400 + 4 * 1), Ok(0xcafe0001));
    assert_eq!(mem.get_word(0x400 + 4 * 20), Ok(0xcafe0002));
    assert_eq!(
        regs.flush_to_mem(&mut mem, 0x2),
        Err(MemoryError::Misaligned)
    );
    assert_eq!(
        regs.flush_to_mem(&mut mem, 0xf00),
        Err(MemoryError::OutOfRange)
    );
}

// Encode/decode scenarios.

#[test]
fn encode_decode_and_zero() {
    let decoded = decode(0x2a002000).unwrap();
    assert_eq!(
        decoded,
        Instruction::And(ShortInstruction::new(false, 0, 0, ShortSource::UImm13(0)))
    );
    assert_eq!(decoded.encode(), 0x2a002000);
    assert_eq!(noop(), 0x2a002000);
}

#[test]
fn decode_rejects_reserved_patterns() {
    assert_eq!(
        decode(0x00000000),
        Err(DecodeError::InvalidInstruction { loc: 0xf, opcode: 0 })
    );
    assert_eq!(
        decode(0x80000000),
        Err(DecodeError::InvalidInstruction { loc: 0x8, opcode: 0x80000000 })
    );
}

#[test]
fn decode_rejects_condition_zero() {
    // A JMPX whose conditional field is zero.
    let w = 0x0cu32 << 25;
    assert_eq!(decode(w), Err(DecodeError::InvalidJumpCondition { code: 0 }));
}

#[test]
fn decode_file_reports_first_error() {
    let good = noop().to_be_bytes();
    let mut file: Vec<u8> = Vec::new();
    file.extend_from_slice(&good);
    file.extend_from_slice(&good);
    assert_eq!(decode_file(&file, 0), Ok(()));
    file.extend_from_slice(&[0, 0, 0, 0]);
    assert_eq!(
        decode_file(&file, 0),
        Err(DecodeError::InvalidInstruction { loc: 0xf, opcode: 0 })
    );
}

#[test]
fn round_trip_every_opcode() {
    let si = ShortInstruction::new(true, 9, 17, ShortSource::Reg(3));
    let li = LongInstruction::new(false, 22, 0x7ffff);
    let sc = ShortConditional::new(false, Conditional::Lt, 31, ShortSource::UImm13(0x1fff));
    let lc = LongConditional::new(true, Conditional::Nv, 0x12345);
    let cases = vec![
        Instruction::Calli(si),
        Instruction::GetPSW(si),
        Instruction::GetLPC(si),
        Instruction::PutPSW(si),
        Instruction::Callx(si),
        Instruction::Callr(li),
        Instruction::Jmpx(sc),
        Instruction::Jmpr(lc),
        Instruction::Ret(sc),
        Instruction::Reti(sc),
        Instruction::Sll(si),
        Instruction::Srl(si),
        Instruction::Sra(si),
        Instruction::Or(si),
        Instruction::And(si),
        Instruction::Xor(si),
        Instruction::Add(si),
        Instruction::Addc(si),
        Instruction::Sub(si),
        Instruction::Subc(si),
        Instruction::Subi(si),
        Instruction::Subci(si),
        Instruction::Ldhi(li),
        Instruction::Ldxw(si),
        Instruction::Ldrw(li),
        Instruction::Ldxhs(si),
        Instruction::Ldrhs(li),
        Instruction::Ldxhu(si),
        Instruction::Ldrhu(li),
        Instruction::Ldxbs(si),
        Instruction::Ldrbs(li),
        Instruction::Ldxbu(si),
        Instruction::Ldrbu(li),
        Instruction::Stxw(si),
        Instruction::Strw(li),
        Instruction::Stxh(si),
        Instruction::Strh(li),
        Instruction::Stxb(si),
        Instruction::Strb(li),
    ];
    for inst in cases {
        assert_eq!(decode(inst.encode()), Ok(inst));
    }
}

// Executed instructions.

#[test]
fn callr_rotates_window_and_saves_pc() {
    let mut sys = test_system(0x1000);
    sys.data_path.pc = 0x40;
    sys.data_path.nxtpc = 0x44;
    assert_eq!(sys.data_path.psw.get_cwp(), 0);
    let inst = Instruction::Callr(LongInstruction::new(false, 10, 0x100));
    let res = execute(&inst, &mut sys).unwrap();
    assert!(res.was_branch());
    assert_eq!(sys.data_path.psw.get_cwp(), 7);
    // The destination register of the new window holds the pre-call PC.
    assert_eq!(sys.data_path.regs.read(10, 7), 0x40);
    assert_eq!(sys.data_path.get_next_pc(), 0x140);
}

#[test]
fn ldrw_round_trip_through_memory() {
    let mut sys = test_system(0x1000);
    assert_eq!(sys.get_mem_ref().set_word(0x100, 0xdeadbeef), Ok(0xdeadbeef));
    let inst = Instruction::Ldrw(LongInstruction::new(false, 1, 0x100));
    assert_eq!(sys.data_path.pc, 0);
    let res = execute(&inst, &mut sys);
    assert!(res.is_ok());
    assert_eq!(sys.data_path.regs.read(1, 0), 0xdeadbeef);
}

#[test]
fn jmpr_misaligned_target_traps() {
    let mut sys = test_system(0x1000);
    sys.data_path.pc = 0;
    sys.data_path.nxtpc = 4;
    sys.data_path.lstpc = 0xfffffffc;
    let inst = Instruction::Jmpr(LongConditional::new(false, Conditional::Alw, 0x1001));
    let r = execute(&inst, &mut sys);
    assert_eq!(r.err(), Some(ExecuteError::Trap(TrapError::BadBranchAlignment)));
    // The program counters are untouched.
    assert_eq!(sys.data_path.get_pc(), 0);
    assert_eq!(sys.data_path.get_next_pc(), 4);
    assert_eq!(sys.data_path.get_last_pc(), 0xfffffffc);
}

#[test]
fn conditional_skip() {
    // With Z set, an EQ jump branches and an NE jump advances by 4.
    let mut sys = test_system(0x1000);
    sys.data_path.psw.set_cc_zero(true);
    sys.data_path.pc = 0x10;
    sys.data_path.nxtpc = 0x14;
    let eq = Instruction::Jmpr(LongConditional::new(false, Conditional::Eq, 0x200));
    let res = execute(&eq, &mut sys).unwrap();
    assert!(res.was_branch());
    assert_eq!(sys.data_path.get_pc(), 0x14);
    assert_eq!(sys.data_path.get_next_pc(), 0x210);

    let mut sys = test_system(0x1000);
    sys.data_path.psw.set_cc_zero(true);
    sys.data_path.pc = 0x10;
    sys.data_path.nxtpc = 0x14;
    let ne = Instruction::Jmpr(LongConditional::new(false, Conditional::Ne, 0x200));
    let res = execute(&ne, &mut sys).unwrap();
    assert!(!res.was_branch());
    assert_eq!(sys.data_path.get_last_pc(), 0x10);
    assert_eq!(sys.data_path.get_pc(), 0x14);
    assert_eq!(sys.data_path.get_next_pc(), 0x18);
}

#[test]
fn add_instruction_updates_register_and_flags() {
    let mut sys = test_system(0x1000);
    sys.data_path.regs.write(4, 0x7fffffff, 0);
    let inst = Instruction::Add(
        ShortInstruction::new(true, 5, 4, ShortSource::UImm13(1)),
    );
    execute(&inst, &mut sys).unwrap();
    assert_eq!(sys.data_path.regs.read(5, 0), 0x80000000);
    assert!(sys.data_path.psw.get_cc_overflow());
    assert!(sys.data_path.psw.get_cc_neg());
    assert!(!sys.data_path.psw.get_cc_carry());
    assert!(!sys.data_path.psw.get_cc_zero());
}

#[test]
fn short_immediate_is_sign_extended() {
    // An immediate with bit 12 set acts as a negative operand.
    let mut sys = test_system(0x1000);
    sys.data_path.regs.write(4, 10, 0);
    let inst = Instruction::Add(
        ShortInstruction::new(false, 5, 4, ShortSource::UImm13(0x1fff)),
    );
    execute(&inst, &mut sys).unwrap();
    assert_eq!(sys.data_path.regs.read(5, 0), 9);
}

#[test]
fn ldhi_places_immediate_high() {
    let mut sys = test_system(0x100);
    let inst = Instruction::Ldhi(LongInstruction::new(false, 3, 0x33f69));
    execute(&inst, &mut sys).unwrap();
    assert_eq!(sys.data_path.regs.read(3, 0), 0x33f69u32 << 13);
}

#[test]
fn getpsw_sets_top_bits() {
    let mut sys = test_system(0x100);
    sys.data_path.set_psw(0x0005);
    let inst = Instruction::GetPSW(
        ShortInstruction::new(false, 6, 0, ShortSource::Reg(0)),
    );
    execute(&inst, &mut sys).unwrap();
    assert_eq!(sys.data_path.regs.read(6, 0), 0xffffe005);
}

#[test]
fn privileged_instructions_trap_in_user_mode() {
    let mut sys = test_system(0x100);
    assert!(!sys.data_path.psw.get_system_mode());
    let reti = Instruction::Reti(
        ShortConditional::new(false, Conditional::Alw, 0, ShortSource::Reg(0)),
    );
    assert_eq!(
        execute(&reti, &mut sys).err(),
        Some(ExecuteError::Trap(TrapError::PrivilegeViolation))
    );
    let getlpc = Instruction::GetLPC(
        ShortInstruction::new(false, 1, 0, ShortSource::Reg(0)),
    );
    assert_eq!(
        execute(&getlpc, &mut sys).err(),
        Some(ExecuteError::Trap(TrapError::PrivilegeViolation))
    );
    let putpsw = Instruction::PutPSW(
        ShortInstruction::new(false, 0, 0, ShortSource::UImm13(0)),
    );
    assert_eq!(
        execute(&putpsw, &mut sys).err(),
        Some(ExecuteError::Trap(TrapError::PrivilegeViolation))
    );
    let calli = Instruction::Calli(
        ShortInstruction::new(false, 1, 0, ShortSource::Reg(0)),
    );
    assert_eq!(
        execute(&calli, &mut sys).err(),
        Some(ExecuteError::Trap(TrapError::PrivilegeViolation))
    );
}

#[test]
fn window_overflow_and_underflow_trap() {
    // CWP one above SWP: a call collides with the saved window pointer.
    let mut sys = test_system(0x100);
    sys.data_path.psw.set_cwp(1);
    sys.data_path.psw.set_swp(0);
    let call = Instruction::Callx(
        ShortInstruction::new(false, 10, 0, ShortSource::UImm13(0x40)),
    );
    assert_eq!(
        execute(&call, &mut sys).err(),
        Some(ExecuteError::Trap(TrapError::WindowOverflow))
    );
    // CWP one below SWP: a taken return collides the other way.
    let mut sys = test_system(0x100);
    sys.data_path.psw.set_cwp(6);
    sys.data_path.psw.set_swp(7);
    let ret = Instruction::Ret(
        ShortConditional::new(false, Conditional::Alw, 0, ShortSource::Reg(0)),
    );
    assert_eq!(
        execute(&ret, &mut sys).err(),
        Some(ExecuteError::Trap(TrapError::WindowUnderflow))
    );
}

#[test]
fn load_faults_surface_as_bus_errors() {
    let mut sys = test_system(0x100);
    let misaligned = Instruction::Ldrw(LongInstruction::new(false, 1, 0x2));
    assert_eq!(
        execute(&misaligned, &mut sys).err(),
        Some(ExecuteError::Mem(MemoryError::Misaligned))
    );
    let out_of_range = Instruction::Ldrw(LongInstruction::new(false, 1, 0x200));
    assert_eq!(
        execute(&out_of_range, &mut sys).err(),
        Some(ExecuteError::Mem(MemoryError::OutOfRange))
    );
}

#[test]
fn store_then_load_round_trip() {
    let mut sys = test_system(0x1000);
    sys.data_path.regs.write(2, 0x12345678, 0);
    let store = Instruction::Stxw(
        ShortInstruction::new(false, 2, 0, ShortSource::UImm13(0x20)),
    );
    execute(&store, &mut sys).unwrap();
    assert_eq!(sys.get_mem_ref().get_word(0x20), Ok(0x12345678));
    let load = Instruction::Ldxbu(
        ShortInstruction::new(false, 3, 0, ShortSource::UImm13(0x20)),
    );
    execute(&load, &mut sys).unwrap();
    assert_eq!(sys.data_path.regs.read(3, 0), 0x12);
}

#[test]
fn signed_byte_load_sign_extends() {
    let mut sys = test_system(0x100);
    assert_eq!(sys.get_mem_ref().set_byte(0x10, 0xff), Ok(0xff));
    let load = Instruction::Ldrbs(LongInstruction::new(false, 2, 0x10));
    execute(&load, &mut sys).unwrap();
    assert_eq!(sys.data_path.regs.read(2, 0), 0xffffffff);
    let load_u = Instruction::Ldrbu(LongInstruction::new(false, 3, 0x10));
    execute(&load_u, &mut sys).unwrap();
    assert_eq!(sys.data_path.regs.read(3, 0), 0xff);
}

#[test]
fn nonbranch_advances_pcs_by_four() {
    let mut sys = test_system(0x100);
    sys.data_path.pc = 0x20;
    sys.data_path.nxtpc = 0x24;
    sys.data_path.lstpc = 0x1c;
    let inst = Instruction::Xor(
        ShortInstruction::new(false, 1, 0, ShortSource::Reg(0)),
    );
    execute(&inst, &mut sys).unwrap();
    assert_eq!(sys.data_path.get_last_pc(), 0x20);
    assert_eq!(sys.data_path.get_pc(), 0x24);
    assert_eq!(sys.data_path.get_next_pc(), 0x28);
}

// Register checkpoints.

#[test]
fn state_dump_round_trip() {
    let mut state = State::new();
    state.nxtpc = 0x44;
    state.pc = 0x40;
    state.lstpc = 0x3c;
    state.globals[3] = 0xabcd1234;
    state.window_regs[127] = 0x55aa55aa;
    let buf = state.to_buf();
    assert_eq!(buf.len(), riscii::register::SIZEOF_STATE);
    let back = State::from_buf(&buf);
    assert_eq!(back, state);
}

#[test]
fn state_register_zero_reads_zero() {
    let mut buf = vec![0u8; riscii::register::SIZEOF_STATE];
    // Saved bytes claim a non-zero register 0.
    buf[12] = 0xff;
    let state = State::from_buf(&buf);
    assert_eq!(state.globals[0], 0);
}

// Clock and sequencer.

#[test]
fn clock_paces_at_rate() {
    let config = Config::with_settings(0, 1, String::new(), String::new(), 2, 0, 0, 0, 0, false);
    let mut clock = Clock::new(&config);
    assert!(!clock.tick_and_wait(Phase::One));
    assert!(!clock.tick_and_wait(Phase::Two));
    assert!(clock.tick_and_wait(Phase::One));
    clock.start_interval();
    assert_eq!(clock.count, 0);
    let unpaced = Config::new();
    let mut clock = Clock::new(&unpaced);
    assert!(!clock.tick_and_wait(Phase::One));
}

#[test]
fn system_ticks_through_phases() {
    let mut sys = test_system(0x100);
    assert_eq!(sys.phase(), Phase::One);
    sys.tick();
    assert_eq!(sys.phase(), Phase::Two);
    sys.tick();
    assert_eq!(sys.phase(), Phase::Three);
    sys.tick();
    assert_eq!(sys.phase(), Phase::Four);
    sys.tick();
    assert_eq!(sys.phase(), Phase::One);
    // Memory never changes under ticking; the fetched word was the no-op
    // pattern of zeroed memory.
    assert_eq!(sys.get_mem_ref().get_word(0), Ok(0));
}

#[test]
fn config_getters_report_settings() {
    let c = Config::with_settings(
        0x8000, 2, String::from("cfg"), String::from("cache"), 100, 640, 480, 320, 240, true,
    );
    assert_eq!(c.get_mem_size(), 0x8000);
    assert_eq!(c.get_ncpus(), 2);
    assert_eq!(c.get_clock_rate(), 100);
    assert_eq!(c.get_win_width(), 640);
    assert_eq!(c.get_win_height(), 480);
    assert_eq!(c.get_debug_win_width(), 320);
    assert_eq!(c.get_debug_win_height(), 240);
    assert!(c.is_debug_mode());
}

#[test]
fn simm_reading_is_sign_extension() {
    // The signed reading of a 13-bit immediate is its sign extension.
    assert_eq!(
        ShortSource::UImm13(0x1fff).uimm_to_simm(),
        ShortSource::SImm13(-1)
    );
    // The signed form carries the same 13 bits, so it encodes back to the
    // same instruction word as the raw form.
    let raw = Instruction::And(ShortInstruction::new(false, 1, 2, ShortSource::UImm13(0x1fff)));
    let signed = Instruction::And(ShortInstruction::new(false, 1, 2, ShortSource::SImm13(-1)));
    assert_eq!(raw.encode(), signed.encode());
    // Values without the sign bit, and register sources, stay as they are.
    assert_eq!(
        ShortSource::UImm13(0x0fff).uimm_to_simm(),
        ShortSource::UImm13(0x0fff)
    );
    assert_eq!(ShortSource::Reg(3).uimm_to_simm(), ShortSource::Reg(3));
}

#[test]
fn shifter_shifts_and_aligns() {
    let s = Shifter { src: 0x1, s_ham: 4 };
    assert_eq!(s.shift_left(), 0x10);
    let s = Shifter { src: 0x80, s_ham: 3 };
    assert_eq!(s.shift_right(), 0x10);
    // A load starting at byte offset 1 rotates that byte into the low end.
    assert_eq!(Shifter::align_load(0x11223344, 0), 0x11223344);
    assert_eq!(Shifter::align_load(0x11223344, 1), 0x22334411);
    assert_eq!(Shifter::align_load(0x11223344, 3), 0x44112233);
}
