//! The system sequencer: one CPU, its memory and its clock, stepped one
//! clock phase at a time. Each call to `tick` performs one phase of the
//! four-phase cycle and advances to the next; an instruction in the
//! execute stage that accesses memory suspends the pipeline for one full
//! cycle so its data phase can share the memory bus with the following
//! fetch.

use crate::clock::{Clock, Phase};
use crate::config::Config;
use crate::cpu::{spec_reg_write, OutputPins};
use crate::data_path::{spec_control_of, spec_cycle_of, spec_mo_step, DataPath, InstructionCycle};
use crate::memory::{mem_in_range, spec_word_at, Memory};
use vstd::prelude::*;

verus! {

/// The word a fetch at `addr` latches onto the input pins: the stored
/// word for an aligned in-range address, 0 for a bad one.
pub open spec fn spec_fetched(mem: Seq<u8>, addr: u32) -> u32 {
    if addr % 4 == 0 && mem_in_range(addr, 4, mem.len() as int) {
        spec_word_at(mem, addr as int)
    } else {
        0
    }
}

/// An emulated machine: datapath, memory, clock and the sequencer state
/// that threads them through the four clock phases.
pub struct System {
    /// The datapath.
    pub data_path: DataPath,
    /// Memory state.
    pub mem: Memory,
    /// The four-phase clock and its pacing counter.
    pub clock: Clock,
    /// Per-phase actions of the instruction now flowing through the
    /// pipeline.
    pub cycle_ops: InstructionCycle,
    /// The clock phase the next tick performs.
    pub phase: Phase,
    /// The CPU's output pins as memory sees them.
    pub pins_out: OutputPins,
    /// True while the pipeline is suspended for a memory access.
    pub pipeline_suspended: bool,
}

impl System {
    /// The datapath is well-formed and the decoded cycle only ever acts
    /// in phase three.
    pub open spec fn wf(&self) -> bool {
        &&& self.data_path.wf()
        &&& self.cycle_ops.p1.0 is Nop
        &&& self.cycle_ops.p2.0 is Nop
        &&& self.cycle_ops.p4.0 is Nop
    }

    /// Create a machine with zeroed state and the memory and clock the
    /// configuration asks for.
    pub fn new(config: &Config) -> (r: System)
        ensures
            r.wf(),
            r.mem@.len() == config.spec_mem_size(),
            forall|i: int| 0 <= i < r.mem@.len() ==> r.mem@[i] == 0u8,
            r.clock.rate == config.spec_clock_rate(),
            r.clock.count == 0,
            r.phase == Phase::One,
            !r.pipeline_suspended,
            r.data_path.psw.0 == 0,
            forall|i: int| 0 <= i < r.data_path.regs@.len() ==> r.data_path.regs@[i] == 0u32,
            r.cycle_ops == InstructionCycle::spec_noop_cycle(),
            r.pins_out == (OutputPins {
                address: 0u32,
                data: 0u32,
                width_code_word: false,
                width_code_half: false,
                read_write: false,
                system_mode: false,
                instr_or_data_write: false,
            }),
    {
        System {
            data_path: DataPath::new(),
            mem: Memory::new(config),
            clock: Clock::new(config),
            cycle_ops: InstructionCycle::noop_cycle(),
            phase: Phase::One,
            pins_out: OutputPins::new(),
            pipeline_suspended: false,
        }
    }

    /// A mutable borrow of the memory.
    pub fn get_mem_ref(&mut self) -> (r: &mut Memory)
        ensures
            *r == old(self).mem,
            *final(self) == (System { mem: *final(r), ..*old(self) }),
    {
        &mut self.mem
    }

    /// Perform the phase this tick falls in and advance to the next
    /// phase. Memory is only read (the fetch); nothing in it changes.
    ///
    /// Phase one shifts the pipeline latches and routes the source
    /// registers to the ALU. Phase two publishes the output pins to
    /// memory and routes the immediate. Phase three latches the fetched
    /// word off the bus, commits the previous instruction, and runs the
    /// executing instruction's ALU action; an executing memory access
    /// suspends the pipeline here, and a suspended pipeline wakes instead
    /// of committing twice. Phase four republishes the fetch address and
    /// decodes the latched word.
    ///
    /// The return value asks the host to pause for pacing, exactly when
    /// this cycle's phase one brought the cycle count up to a non-zero
    /// clock rate.
    pub fn tick(&mut self) -> (pace: bool)
        requires
            old(self).wf(),
        ensures
            final(self).wf(),
            final(self).phase == old(self).phase.spec_next(),
            final(self).mem@ == old(self).mem@,
            final(self).clock.rate == old(self).clock.rate,
            pace == (old(self).phase is One && final(self).clock.count == final(self).clock.rate
                && final(self).clock.rate != 0),
            old(self).phase is One && old(self).pipeline_suspended ==> *final(self) == (System {
                phase: Phase::Two,
                clock: final(self).clock,
                ..*old(self)
            }),
            old(self).phase is One && !old(self).pipeline_suspended ==> *final(self) == (System {
                phase: Phase::Two,
                clock: final(self).clock,
                data_path: old(self).data_path.spec_shifted().spec_routed_regs(),
                ..*old(self)
            }),
            old(self).phase is Two ==> *final(self) == (System {
                phase: Phase::Three,
                pins_out: (OutputPins {
                    address: old(self).pins_out.address,
                    ..old(self).data_path.output_pins
                }),
                data_path: if old(self).pipeline_suspended {
                    old(self).data_path
                } else {
                    old(self).data_path.spec_routed_imm()
                },
                ..*old(self)
            }),
            old(self).phase is Three ==> *final(self) == (System {
                phase: Phase::Four,
                pipeline_suspended: if old(self).pipeline_suspended {
                    false
                } else {
                    old(self).data_path.control2.memory
                },
                data_path: final(self).data_path,
                ..*old(self)
            }),
            old(self).phase is Three ==> final(self).data_path == {
                let latched = old(self).data_path.spec_with_input(
                    spec_fetched(old(self).mem@, old(self).pins_out.address),
                );
                if old(self).pipeline_suspended {
                    latched
                } else {
                    let committed = DataPath {
                        regs: final(self).data_path.regs,
                        ..latched
                    };
                    if old(self).data_path.control2.memory {
                        committed
                    } else {
                        spec_mo_step(old(self).cycle_ops.p3.0, committed)
                    }
                }
            },
            old(self).phase is Three && !old(self).pipeline_suspended ==> final(
                self
            ).data_path.regs@ == spec_reg_write(
                old(self).data_path.regs@,
                old(self).data_path.rd3,
                old(self).data_path.dst_latch,
                old(self).data_path.psw.spec_cwp(),
            ),
            old(self).phase is Three && old(self).pipeline_suspended ==> final(
                self
            ).data_path.regs@ == old(self).data_path.regs@,
            old(self).phase is Four ==> *final(self) == (System {
                phase: Phase::One,
                pins_out: (OutputPins {
                    address: old(self).data_path.output_pins.address,
                    ..old(self).pins_out
                }),
                data_path: if old(self).pipeline_suspended {
                    old(self).data_path
                } else {
                    DataPath {
                        control1: spec_control_of(old(self).data_path.dimm),
                        ..old(self).data_path
                    }
                },
                cycle_ops: if old(self).pipeline_suspended {
                    old(self).cycle_ops
                } else {
                    spec_cycle_of(old(self).data_path.dimm)
                },
                ..*old(self)
            }),
            old(self).phase is Interrupt ==> *final(self) == (System {
                phase: Phase::One,
                clock: final(self).clock,
                ..*old(self)
            }),
    {
        let cur_phase = self.phase;
        let pace = self.clock.tick_and_wait(cur_phase);
        match cur_phase {
            Phase::One => {
                if !self.pipeline_suspended {
                    // The pipeline moves on to the next instruction.
                    self.data_path.shift_pipeline_latches();
                    // Registers are read and sent to the ALU input latches.
                    self.data_path.route_regs_to_alu();
                    let op = self.cycle_ops.p1;
                    op.call(&mut self.data_path);
                }
                self.phase = Phase::Two;
            },
            Phase::Two => {
                // Memory copies the output pin data for any pending write.
                let pins = self.data_path.output_pins;
                pins.phase_two_copy(&mut self.pins_out);
                if !self.pipeline_suspended {
                    self.data_path.route_imm_to_alu();
                    let op = self.cycle_ops.p2;
                    op.call(&mut self.data_path);
                }
                self.phase = Phase::Three;
            },
            Phase::Three => {
                // Finish the read issued last cycle; a bad address latches 0.
                let fetched = match self.mem.get_word(self.pins_out.address) {
                    Ok(v) => v,
                    Err(_) => 0,
                };
                self.data_path.set_input_pins(fetched);
                if self.pipeline_suspended {
                    self.pipeline_suspended = false;
                } else if self.data_path.current_instruction_is_memory() {
                    // Commit the previous instruction, then give the memory
                    // access the bus for one cycle.
                    self.data_path.commit();
                    self.pipeline_suspended = true;
                } else {
                    self.data_path.commit();
                    let op = self.cycle_ops.p3;
                    op.call(&mut self.data_path);
                }
                self.phase = Phase::Four;
            },
            Phase::Four => {
                // Publish the next fetch address.
                self.pins_out.address = self.data_path.get_out_address();
                if !self.pipeline_suspended {
                    let op = self.cycle_ops.p4;
                    op.call(&mut self.data_path);
                    self.cycle_ops = self.data_path.decode();
                }
                self.phase = Phase::One;
            },
            Phase::Interrupt => {
                self.phase = Phase::One;
            },
        }
        pace
    }

    /// The clock.
    pub fn clock(&self) -> (r: &Clock)
        ensures
            *r == self.clock,
    {
        &self.clock
    }

    /// The datapath.
    pub fn data_path(&self) -> (r: &DataPath)
        ensures
            *r == self.data_path,
    {
        &self.data_path
    }

    /// The clock phase the next tick performs.
    pub fn phase(&self) -> (r: Phase)
        ensures
            r == self.phase,
    {
        self.phase
    }
}

} // verus!
