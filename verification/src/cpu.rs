//! CPU state: the packed processor status word, the windowed register
//! file, and the output pins toward memory.

use crate::memory::{mem_in_range, spec_word_at, Memory, MemoryError};
use vstd::prelude::*;

verus! {

/// The number of register windows the machine supports.
pub const NUM_REG_WINDOWS: usize = 8;
/// The number of local registers per window.
pub const NUM_LOCALS: usize = 10;
/// The number of registers shared with the previous register window (input arguments).
pub const NUM_SHARED_PREV: usize = 6;
/// The number of registers shared with the next register window (output arguments).
pub const NUM_SHARED_NEXT: usize = 6;
/// The number of registers visible in one window.
pub const WINDOW_SIZE: usize = NUM_LOCALS + NUM_SHARED_PREV + NUM_SHARED_NEXT;
/// Number of global registers.
pub const NUM_GLOBALS: usize = 10;
/// Number of registers that adding a window adds to the total amount of registers.
pub const NUM_ADDED_PER_WINDOW: usize = NUM_LOCALS + NUM_SHARED_NEXT;
/// Number of general purpose registers that exist in the window stack.
pub const NUM_WINDOW_REGISTERS: usize = NUM_REG_WINDOWS * NUM_ADDED_PER_WINDOW;
/// Number of "special" registers (the three program counters).
pub const NUM_SPECIAL_REGISTERS: usize = 3;
/// The total number of registers on the system.
pub const TOTAL_NUM_REGISTERS: usize = NUM_SPECIAL_REGISTERS + NUM_GLOBALS + NUM_WINDOW_REGISTERS;
/// The size of a register dump (in bytes).
pub const SIZEOF_REG_FILE: usize = TOTAL_NUM_REGISTERS * 4;
/// The size of an instruction in bytes; the program counters advance by this.
pub const SIZEOF_INSTRUCTION: u32 = 4;
/// Location of the interrupt-enable bit (bit 6) in the PSW.
pub const INTERRUPT_LOC: u16 = 0x40;
/// Location of the system-mode bit (bit 5) in the PSW.
pub const SYSTEM_LOC: u16 = 0x20;
/// Location of the previous-system-mode bit (bit 4) in the PSW.
pub const PREV_SYSTEM_LOC: u16 = 0x10;
/// Location of the zero bit (bit 3) in the PSW.
pub const ZERO_LOC: u16 = 0x8;
/// Location of the negative bit (bit 2) in the PSW.
pub const NEG_LOC: u16 = 0x4;
/// Location of the overflow bit (bit 1) in the PSW.
pub const OVERFLOW_LOC: u16 = 0x2;
/// Location of the carry bit (bit 0) in the PSW.
pub const CARRY_LOC: u16 = 0x1;
/// Location of the saved window pointer bits (9:7) in the PSW.
pub const SWP_LOC: u16 = 0x380;
/// Location of the current window pointer bits (12:10) in the PSW.
pub const CWP_LOC: u16 = 0x1c00;
/// Mask of the 13 bits the PSW occupies in its 16-bit cell.
pub const PSW_LOC: u16 = 0x1fff;

/// The processor status word, packed into the low 13 bits of a 16-bit cell:
/// bits 12:10 the current window pointer (CWP), 9:7 the saved window
/// pointer (SWP), 6 interrupt-enable (I), 5 system mode (S), 4 previous
/// system mode (P), 3 zero (Z), 2 negative (N), 1 overflow (V),
/// 0 carry (C).
#[derive(Copy, Clone, Debug, PartialEq, Eq, Structural)]
pub struct ProcessorStatusWord(pub u16);

/// The next window pointer down, modulo the number of windows.
pub open spec fn dec_mod8(x: u8) -> u8
    recommends
        x < 8,
{
    if x == 0 {
        7
    } else {
        (x - 1) as u8
    }
}

/// The next window pointer up, modulo the number of windows.
pub open spec fn inc_mod8(x: u8) -> u8
    recommends
        x < 8,
{
    if x == 7 {
        0
    } else {
        (x + 1) as u8
    }
}

/// The 13-bit PSW cell assembled from its fields. The window pointers must
/// already be below 8.
pub open spec fn psw_pack(
    cwp: u8,
    swp: u8,
    interrupt: bool,
    system: bool,
    prev_system: bool,
    z: bool,
    n: bool,
    v: bool,
    c: bool,
) -> u16
    recommends
        cwp < 8,
        swp < 8,
{
    ((cwp as u16) << 10) | ((swp as u16) << 7) | ((if interrupt {
        1u16
    } else {
        0u16
    }) << 6) | ((if system {
        1u16
    } else {
        0u16
    }) << 5) | ((if prev_system {
        1u16
    } else {
        0u16
    }) << 4) | ((if z {
        1u16
    } else {
        0u16
    }) << 3) | ((if n {
        1u16
    } else {
        0u16
    }) << 2) | ((if v {
        1u16
    } else {
        0u16
    }) << 1) | (if c {
        1u16
    } else {
        0u16
    })
}

/// Every field of a packed PSW cell reads back as it was packed, and the
/// cell stays within its 13 bits.
pub proof fn lemma_psw_pack_fields(
    cwp: u8,
    swp: u8,
    interrupt: bool,
    system: bool,
    prev_system: bool,
    z: bool,
    n: bool,
    v: bool,
    c: bool,
)
    by (bit_vector)
    requires
        cwp < 8,
        swp < 8,
    ensures
        psw_pack(cwp, swp, interrupt, system, prev_system, z, n, v, c) < 0x2000,
        ((psw_pack(cwp, swp, interrupt, system, prev_system, z, n, v, c) >> 10) & 7) as u8 == cwp,
        ((psw_pack(cwp, swp, interrupt, system, prev_system, z, n, v, c) >> 7) & 7) as u8 == swp,
        ((psw_pack(cwp, swp, interrupt, system, prev_system, z, n, v, c) >> 6) & 1 == 1)
            == interrupt,
        ((psw_pack(cwp, swp, interrupt, system, prev_system, z, n, v, c) >> 5) & 1 == 1) == system,
        ((psw_pack(cwp, swp, interrupt, system, prev_system, z, n, v, c) >> 4) & 1 == 1)
            == prev_system,
        ((psw_pack(cwp, swp, interrupt, system, prev_system, z, n, v, c) >> 3) & 1 == 1) == z,
        ((psw_pack(cwp, swp, interrupt, system, prev_system, z, n, v, c) >> 2) & 1 == 1) == n,
        ((psw_pack(cwp, swp, interrupt, system, prev_system, z, n, v, c) >> 1) & 1 == 1) == v,
        (psw_pack(cwp, swp, interrupt, system, prev_system, z, n, v, c) & 1 == 1) == c,
{
}

/// A 13-bit PSW cell equals its own fields packed back together.
pub proof fn lemma_psw_unpack_pack(x: u16)
    by (bit_vector)
    requires
        x < 0x2000,
    ensures
        psw_pack(
            ((x >> 10) & 7) as u8,
            ((x >> 7) & 7) as u8,
            (x >> 6) & 1 == 1,
            (x >> 5) & 1 == 1,
            (x >> 4) & 1 == 1,
            (x >> 3) & 1 == 1,
            (x >> 2) & 1 == 1,
            (x >> 1) & 1 == 1,
            x & 1 == 1,
        ) == x,
{
}

impl ProcessorStatusWord {
    /// The current window pointer, bits 12:10.
    pub open spec fn spec_cwp(self) -> u8 {
        ((self.0 >> 10) & 7) as u8
    }

    /// The saved window pointer, bits 9:7.
    pub open spec fn spec_swp(self) -> u8 {
        ((self.0 >> 7) & 7) as u8
    }

    /// The interrupt-enable bit.
    pub open spec fn spec_interrupt_enabled(self) -> bool {
        (self.0 >> 6) & 1 == 1
    }

    /// The system-mode bit.
    pub open spec fn spec_system_mode(self) -> bool {
        (self.0 >> 5) & 1 == 1
    }

    /// The previous-system-mode bit.
    pub open spec fn spec_previous_system_mode(self) -> bool {
        (self.0 >> 4) & 1 == 1
    }

    /// The zero condition code.
    pub open spec fn spec_cc_zero(self) -> bool {
        (self.0 >> 3) & 1 == 1
    }

    /// The negative condition code.
    pub open spec fn spec_cc_neg(self) -> bool {
        (self.0 >> 2) & 1 == 1
    }

    /// The overflow condition code.
    pub open spec fn spec_cc_overflow(self) -> bool {
        (self.0 >> 1) & 1 == 1
    }

    /// The carry condition code.
    pub open spec fn spec_cc_carry(self) -> bool {
        self.0 & 1 == 1
    }

    /// The PSW occupies only its 13 bits.
    pub open spec fn wf(self) -> bool {
        self.0 < 0x2000
    }

    /// The PSW with one field replaced, as a packed cell.
    pub open spec fn with_fields(
        self,
        cwp: u8,
        swp: u8,
        interrupt: bool,
        system: bool,
        prev_system: bool,
        z: bool,
        n: bool,
        v: bool,
        c: bool,
    ) -> ProcessorStatusWord {
        ProcessorStatusWord(psw_pack(cwp, swp, interrupt, system, prev_system, z, n, v, c))
    }

    /// `self` repacked with the window pointers of a push: CWP moves down
    /// one window; when it would collide with SWP, SWP moves up one and
    /// the displaced window must be spilled.
    pub open spec fn spec_push(self) -> (ProcessorStatusWord, bool) {
        let cwp = dec_mod8(self.spec_cwp());
        let spill = cwp == self.spec_swp();
        let swp = if spill {
            inc_mod8(self.spec_swp())
        } else {
            self.spec_swp()
        };
        (
            self.with_fields(
                cwp,
                swp,
                self.spec_interrupt_enabled(),
                self.spec_system_mode(),
                self.spec_previous_system_mode(),
                self.spec_cc_zero(),
                self.spec_cc_neg(),
                self.spec_cc_overflow(),
                self.spec_cc_carry(),
            ),
            spill,
        )
    }

    /// `self` repacked with the window pointers of a pop: CWP moves up one
    /// window; when it would collide with SWP, SWP moves down one and the
    /// displaced window must be filled back.
    pub open spec fn spec_pop(self) -> (ProcessorStatusWord, bool) {
        let cwp = inc_mod8(self.spec_cwp());
        let fill = cwp == self.spec_swp();
        let swp = if fill {
            dec_mod8(self.spec_swp())
        } else {
            self.spec_swp()
        };
        (
            self.with_fields(
                cwp,
                swp,
                self.spec_interrupt_enabled(),
                self.spec_system_mode(),
                self.spec_previous_system_mode(),
                self.spec_cc_zero(),
                self.spec_cc_neg(),
                self.spec_cc_overflow(),
                self.spec_cc_carry(),
            ),
            fill,
        )
    }

    /// Create a zeroed-out PSW.
    pub fn new() -> (r: ProcessorStatusWord)
        ensures
            r.0 == 0,
            r.wf(),
    {
        ProcessorStatusWord(0)
    }

    /// Create a PSW from a packed cell, keeping only its 13 bits.
    pub fn from_u16(v: u16) -> (r: ProcessorStatusWord)
        ensures
            r.0 == v % 0x2000,
            r.wf(),
    {
        ProcessorStatusWord(v % 0x2000)
    }

    /// Create a PSW from its fields. Window pointers are taken modulo the
    /// number of windows.
    pub fn init(
        cwp: u8,
        swp: u8,
        interrupts_enabled: bool,
        previous_system_mode: bool,
        system_mode: bool,
        cc_zero: bool,
        cc_neg: bool,
        cc_overflow: bool,
        cc_carry: bool,
    ) -> (r: ProcessorStatusWord)
        ensures
            r == ProcessorStatusWord(
                psw_pack(
                    (cwp % 8) as u8,
                    (swp % 8) as u8,
                    interrupts_enabled,
                    system_mode,
                    previous_system_mode,
                    cc_zero,
                    cc_neg,
                    cc_overflow,
                    cc_carry,
                ),
            ),
            r.spec_cwp() == cwp % 8,
            r.spec_swp() == swp % 8,
            r.spec_interrupt_enabled() == interrupts_enabled,
            r.spec_system_mode() == system_mode,
            r.spec_previous_system_mode() == previous_system_mode,
            r.spec_cc_zero() == cc_zero,
            r.spec_cc_neg() == cc_neg,
            r.spec_cc_overflow() == cc_overflow,
            r.spec_cc_carry() == cc_carry,
            r.wf(),
    {
        let c7 = cwp % 8;
        let s7 = swp % 8;
        let cell: u16 = ((c7 as u16) << 10) | ((s7 as u16) << 7) | ((if interrupts_enabled {
            1u16
        } else {
            0u16
        }) << 6) | ((if system_mode {
            1u16
        } else {
            0u16
        }) << 5) | ((if previous_system_mode {
            1u16
        } else {
            0u16
        }) << 4) | ((if cc_zero {
            1u16
        } else {
            0u16
        }) << 3) | ((if cc_neg {
            1u16
        } else {
            0u16
        }) << 2) | ((if cc_overflow {
            1u16
        } else {
            0u16
        }) << 1) | (if cc_carry {
            1u16
        } else {
            0u16
        });
        proof {
            lemma_psw_pack_fields(
                c7,
                s7,
                interrupts_enabled,
                system_mode,
                previous_system_mode,
                cc_zero,
                cc_neg,
                cc_overflow,
                cc_carry,
            );
        }
        ProcessorStatusWord(cell)
    }

    /// The packed 13-bit cell.
    pub fn get(&self) -> (r: u16)
        ensures
            r == self.0,
    {
        self.0
    }

    /// Push the register window stack: CWP moves down one window. When it
    /// collides with SWP, SWP moves up one; the return value asks the
    /// sequencer to spill the displaced window to memory.
    pub fn push(&mut self) -> (spill: bool)
        requires
            old(self).wf(),
        ensures
            *final(self) == old(self).spec_push().0,
            spill == old(self).spec_push().1,
            final(self).wf(),
            final(self).spec_cwp() == dec_mod8(old(self).spec_cwp()),
    {
        let cwp = self.get_cwp();
        let ncwp = if cwp == 0 {
            7
        } else {
            cwp - 1
        };
        self.set_cwp(ncwp);
        let spill = ncwp == self.get_swp();
        if spill {
            let swp = self.get_swp();
            self.set_swp(if swp == 7 {
                0
            } else {
                swp + 1
            });
        }
        proof {
            self.lemma_fields_determine_cell(old(self).spec_push().0);
        }
        spill
    }

    /// Pop the register window stack: CWP moves up one window. When it
    /// collides with SWP, SWP moves down one; the return value asks the
    /// sequencer to fill the displaced window back from memory.
    pub fn pop(&mut self) -> (fill: bool)
        requires
            old(self).wf(),
        ensures
            *final(self) == old(self).spec_pop().0,
            fill == old(self).spec_pop().1,
            final(self).wf(),
            final(self).spec_cwp() == inc_mod8(old(self).spec_cwp()),
    {
        let cwp = self.get_cwp();
        let ncwp = if cwp == 7 {
            0
        } else {
            cwp + 1
        };
        self.set_cwp(ncwp);
        let fill = ncwp == self.get_swp();
        if fill {
            let swp = self.get_swp();
            self.set_swp(if swp == 0 {
                7
            } else {
                swp - 1
            });
        }
        proof {
            self.lemma_fields_determine_cell(old(self).spec_pop().0);
        }
        fill
    }

    /// `self` repacked with all four condition codes replaced.
    pub open spec fn spec_with_cc(self, z: bool, n: bool, v: bool, c: bool) -> ProcessorStatusWord {
        self.with_fields(
            self.spec_cwp(),
            self.spec_swp(),
            self.spec_interrupt_enabled(),
            self.spec_system_mode(),
            self.spec_previous_system_mode(),
            z,
            n,
            v,
            c,
        )
    }

    /// Set all four condition codes at once, as an SCC-gated instruction
    /// retiring its ALU flags does.
    pub fn set_cc_bits(&mut self, z: bool, n: bool, v: bool, c: bool)
        requires
            old(self).wf(),
        ensures
            *final(self) == old(self).spec_with_cc(z, n, v, c),
            final(self).wf(),
    {
        self.set_cc_zero(z);
        self.set_cc_neg(n);
        self.set_cc_overflow(v);
        self.set_cc_carry(c);
        proof {
            self.lemma_fields_determine_cell(old(self).spec_with_cc(z, n, v, c));
        }
    }

    /// Two well-formed PSWs with the same fields are the same cell.
    proof fn lemma_fields_determine_cell(&self, other: ProcessorStatusWord)
        requires
            self.wf(),
            other.0 == psw_pack(
                self.spec_cwp(),
                self.spec_swp(),
                self.spec_interrupt_enabled(),
                self.spec_system_mode(),
                self.spec_previous_system_mode(),
                self.spec_cc_zero(),
                self.spec_cc_neg(),
                self.spec_cc_overflow(),
                self.spec_cc_carry(),
            ),
        ensures
            *self == other,
    {
        lemma_psw_unpack_pack(self.0);
    }

    /// Set the current window pointer, modulo the number of windows.
    pub fn set_cwp(&mut self, v: u8)
        requires
            old(self).wf(),
        ensures
            final(self).spec_cwp() == v % 8,
            final(self).spec_swp() == old(self).spec_swp(),
            final(self).spec_interrupt_enabled() == old(self).spec_interrupt_enabled(),
            final(self).spec_system_mode() == old(self).spec_system_mode(),
            final(self).spec_previous_system_mode() == old(self).spec_previous_system_mode(),
            final(self).spec_cc_zero() == old(self).spec_cc_zero(),
            final(self).spec_cc_neg() == old(self).spec_cc_neg(),
            final(self).spec_cc_overflow() == old(self).spec_cc_overflow(),
            final(self).spec_cc_carry() == old(self).spec_cc_carry(),
            final(self).wf(),
    {
        let x = self.0;
        let y: u16 = ((x & !CWP_LOC) | (((v % 8) as u16) << 10)) & PSW_LOC;
        proof {
            let v8 = v % 8;
            assert((((y >> 10) & 7) as u8 == v8 && (y >> 7) & 7 == (x >> 7) & 7 && (y >> 6) & 1
                == (x >> 6) & 1 && (y >> 5) & 1 == (x >> 5) & 1 && (y >> 4) & 1 == (x >> 4) & 1 && (
            y >> 3) & 1 == (x >> 3) & 1 && (y >> 2) & 1 == (x >> 2) & 1 && (y >> 1) & 1 == (x >> 1)
                & 1 && y & 1 == x & 1 && y < 0x2000) && v8 < 8) by (bit_vector)
                requires
                    y == ((x & !0x1c00u16) | ((v8 as u16) << 10)) & 0x1fffu16,
                    v8 == v % 8,
            ;
        }
        self.0 = y;
    }

    /// Set the saved window pointer, modulo the number of windows.
    pub fn set_swp(&mut self, v: u8)
        requires
            old(self).wf(),
        ensures
            final(self).spec_swp() == v % 8,
            final(self).spec_cwp() == old(self).spec_cwp(),
            final(self).spec_interrupt_enabled() == old(self).spec_interrupt_enabled(),
            final(self).spec_system_mode() == old(self).spec_system_mode(),
            final(self).spec_previous_system_mode() == old(self).spec_previous_system_mode(),
            final(self).spec_cc_zero() == old(self).spec_cc_zero(),
            final(self).spec_cc_neg() == old(self).spec_cc_neg(),
            final(self).spec_cc_overflow() == old(self).spec_cc_overflow(),
            final(self).spec_cc_carry() == old(self).spec_cc_carry(),
            final(self).wf(),
    {
        let x = self.0;
        let y: u16 = ((x & !SWP_LOC) | (((v % 8) as u16) << 7)) & PSW_LOC;
        proof {
            let v8 = v % 8;
            assert((((y >> 7) & 7) as u8 == v8 && (y >> 10) & 7 == (x >> 10) & 7 && (y >> 6) & 1
                == (x >> 6) & 1 && (y >> 5) & 1 == (x >> 5) & 1 && (y >> 4) & 1 == (x >> 4) & 1 && (
            y >> 3) & 1 == (x >> 3) & 1 && (y >> 2) & 1 == (x >> 2) & 1 && (y >> 1) & 1 == (x >> 1)
                & 1 && y & 1 == x & 1 && y < 0x2000) && v8 < 8) by (bit_vector)
                requires
                    y == ((x & !0x380u16) | ((v8 as u16) << 7)) & 0x1fffu16,
                    v8 == v % 8,
            ;
        }
        self.0 = y;
    }

    /// Set the overflow condition code.
    pub fn set_cc_overflow(&mut self, value: bool)
        requires
            old(self).wf(),
        ensures
            final(self).spec_cc_overflow() == value,
            final(self).spec_cwp() == old(self).spec_cwp(),
            final(self).spec_swp() == old(self).spec_swp(),
            final(self).spec_interrupt_enabled() == old(self).spec_interrupt_enabled(),
            final(self).spec_system_mode() == old(self).spec_system_mode(),
            final(self).spec_previous_system_mode() == old(self).spec_previous_system_mode(),
            final(self).spec_cc_zero() == old(self).spec_cc_zero(),
            final(self).spec_cc_neg() == old(self).spec_cc_neg(),
            final(self).spec_cc_carry() == old(self).spec_cc_carry(),
            final(self).wf(),
    {
        self.set_bit(1, value);
    }

    /// Set the carry condition code.
    pub fn set_cc_carry(&mut self, value: bool)
        requires
            old(self).wf(),
        ensures
            final(self).spec_cc_carry() == value,
            final(self).spec_cwp() == old(self).spec_cwp(),
            final(self).spec_swp() == old(self).spec_swp(),
            final(self).spec_interrupt_enabled() == old(self).spec_interrupt_enabled(),
            final(self).spec_system_mode() == old(self).spec_system_mode(),
            final(self).spec_previous_system_mode() == old(self).spec_previous_system_mode(),
            final(self).spec_cc_zero() == old(self).spec_cc_zero(),
            final(self).spec_cc_neg() == old(self).spec_cc_neg(),
            final(self).spec_cc_overflow() == old(self).spec_cc_overflow(),
            final(self).wf(),
    {
        self.set_bit(0, value);
    }

    /// Set the zero condition code.
    pub fn set_cc_zero(&mut self, value: bool)
        requires
            old(self).wf(),
        ensures
            final(self).spec_cc_zero() == value,
            final(self).spec_cwp() == old(self).spec_cwp(),
            final(self).spec_swp() == old(self).spec_swp(),
            final(self).spec_interrupt_enabled() == old(self).spec_interrupt_enabled(),
            final(self).spec_system_mode() == old(self).spec_system_mode(),
            final(self).spec_previous_system_mode() == old(self).spec_previous_system_mode(),
            final(self).spec_cc_neg() == old(self).spec_cc_neg(),
            final(self).spec_cc_overflow() == old(self).spec_cc_overflow(),
            final(self).spec_cc_carry() == old(self).spec_cc_carry(),
            final(self).wf(),
    {
        self.set_bit(3, value);
    }

    /// Set the negative condition code.
    pub fn set_cc_neg(&mut self, value: bool)
        requires
            old(self).wf(),
        ensures
            final(self).spec_cc_neg() == value,
            final(self).spec_cwp() == old(self).spec_cwp(),
            final(self).spec_swp() == old(self).spec_swp(),
            final(self).spec_interrupt_enabled() == old(self).spec_interrupt_enabled(),
            final(self).spec_system_mode() == old(self).spec_system_mode(),
            final(self).spec_previous_system_mode() == old(self).spec_previous_system_mode(),
            final(self).spec_cc_zero() == old(self).spec_cc_zero(),
            final(self).spec_cc_overflow() == old(self).spec_cc_overflow(),
            final(self).spec_cc_carry() == old(self).spec_cc_carry(),
            final(self).wf(),
    {
        self.set_bit(2, value);
    }

    /// Set the system-mode bit.
    pub fn set_system_mode(&mut self, value: bool)
        requires
            old(self).wf(),
        ensures
            final(self).spec_system_mode() == value,
            final(self).spec_cwp() == old(self).spec_cwp(),
            final(self).spec_swp() == old(self).spec_swp(),
            final(self).spec_interrupt_enabled() == old(self).spec_interrupt_enabled(),
            final(self).spec_previous_system_mode() == old(self).spec_previous_system_mode(),
            final(self).spec_cc_zero() == old(self).spec_cc_zero(),
            final(self).spec_cc_neg() == old(self).spec_cc_neg(),
            final(self).spec_cc_overflow() == old(self).spec_cc_overflow(),
            final(self).spec_cc_carry() == old(self).spec_cc_carry(),
            final(self).wf(),
    {
        self.set_bit(5, value);
    }

    /// Set the previous-system-mode bit.
    pub fn set_previous_system_mode(&mut self, value: bool)
        requires
            old(self).wf(),
        ensures
            final(self).spec_previous_system_mode() == value,
            final(self).spec_cwp() == old(self).spec_cwp(),
            final(self).spec_swp() == old(self).spec_swp(),
            final(self).spec_interrupt_enabled() == old(self).spec_interrupt_enabled(),
            final(self).spec_system_mode() == old(self).spec_system_mode(),
            final(self).spec_cc_zero() == old(self).spec_cc_zero(),
            final(self).spec_cc_neg() == old(self).spec_cc_neg(),
            final(self).spec_cc_overflow() == old(self).spec_cc_overflow(),
            final(self).spec_cc_carry() == old(self).spec_cc_carry(),
            final(self).wf(),
    {
        self.set_bit(4, value);
    }

    /// Set the interrupt-enable bit.
    pub fn set_interrupt_enabled(&mut self, value: bool)
        requires
            old(self).wf(),
        ensures
            final(self).spec_interrupt_enabled() == value,
            final(self).spec_cwp() == old(self).spec_cwp(),
            final(self).spec_swp() == old(self).spec_swp(),
            final(self).spec_system_mode() == old(self).spec_system_mode(),
            final(self).spec_previous_system_mode() == old(self).spec_previous_system_mode(),
            final(self).spec_cc_zero() == old(self).spec_cc_zero(),
            final(self).spec_cc_neg() == old(self).spec_cc_neg(),
            final(self).spec_cc_overflow() == old(self).spec_cc_overflow(),
            final(self).spec_cc_carry() == old(self).spec_cc_carry(),
            final(self).wf(),
    {
        self.set_bit(6, value);
    }

    /// Replace the single bit under `mask` (which sits at `shift`) with
    /// `value`, leaving the rest of the cell alone.
    fn set_bit(&mut self, shift: u16, value: bool)
        requires
            old(self).wf(),
            shift < 7,
        ensures
            final(self).wf(),
            final(self).spec_cwp() == old(self).spec_cwp(),
            final(self).spec_swp() == old(self).spec_swp(),
            final(self).spec_interrupt_enabled() == if shift == 6 {
                value
            } else {
                old(self).spec_interrupt_enabled()
            },
            final(self).spec_system_mode() == if shift == 5 {
                value
            } else {
                old(self).spec_system_mode()
            },
            final(self).spec_previous_system_mode() == if shift == 4 {
                value
            } else {
                old(self).spec_previous_system_mode()
            },
            final(self).spec_cc_zero() == if shift == 3 {
                value
            } else {
                old(self).spec_cc_zero()
            },
            final(self).spec_cc_neg() == if shift == 2 {
                value
            } else {
                old(self).spec_cc_neg()
            },
            final(self).spec_cc_overflow() == if shift == 1 {
                value
            } else {
                old(self).spec_cc_overflow()
            },
            final(self).spec_cc_carry() == if shift == 0 {
                value
            } else {
                old(self).spec_cc_carry()
            },
    {
        let x = self.0;
        let b: u16 = if value {
            1
        } else {
            0
        };
        let y: u16 = (x & !(1u16 << shift)) | (b << shift);
        proof {
            assert(((y >> 10) & 7 == (x >> 10) & 7) && ((y >> 7) & 7 == (x >> 7) & 7) && (shift
                == 6 || (y >> 6) & 1 == (x >> 6) & 1) && (shift == 5 || (y >> 5) & 1 == (x >> 5)
                & 1) && (shift == 4 || (y >> 4) & 1 == (x >> 4) & 1) && (shift == 3 || (y >> 3) & 1
                == (x >> 3) & 1) && (shift == 2 || (y >> 2) & 1 == (x >> 2) & 1) && (shift == 1 || (
            y >> 1) & 1 == (x >> 1) & 1) && (shift == 0 || y & 1 == x & 1) && ((y >> shift) & 1
                == b) && (shift == 6 ==> (y >> 6) & 1 == b) && (shift == 5 ==> (y >> 5) & 1 == b)
                && (shift == 4 ==> (y >> 4) & 1 == b) && (shift == 3 ==> (y >> 3) & 1 == b) && (
            shift == 2 ==> (y >> 2) & 1 == b) && (shift == 1 ==> (y >> 1) & 1 == b) && (shift == 0
                ==> y & 1 == b) && (x < 0x2000 ==> y < 0x2000)) by (bit_vector)
                requires
                    y == (x & !(1u16 << shift)) | (b << shift),
                    b == 1 || b == 0,
                    shift < 7,
            ;
        }
        self.0 = y;
    }

    /// The current window pointer.
    pub fn get_cwp(&self) -> (r: u8)
        ensures
            r == self.spec_cwp(),
            r < 8,
    {
        let r = ((self.0 >> 10) & 7) as u8;
        proof {
            let x = self.0;
            assert(((x >> 10) & 7) < 8) by (bit_vector);
        }
        r
    }

    /// The saved window pointer.
    pub fn get_swp(&self) -> (r: u8)
        ensures
            r == self.spec_swp(),
            r < 8,
    {
        let r = ((self.0 >> 7) & 7) as u8;
        proof {
            let x = self.0;
            assert(((x >> 7) & 7) < 8) by (bit_vector);
        }
        r
    }

    /// The overflow condition code.
    pub fn get_cc_overflow(&self) -> (r: bool)
        ensures
            r == self.spec_cc_overflow(),
    {
        (self.0 >> 1) & 1 == 1
    }

    /// The carry condition code.
    pub fn get_cc_carry(&self) -> (r: bool)
        ensures
            r == self.spec_cc_carry(),
    {
        self.0 & 1 == 1
    }

    /// The zero condition code.
    pub fn get_cc_zero(&self) -> (r: bool)
        ensures
            r == self.spec_cc_zero(),
    {
        (self.0 >> 3) & 1 == 1
    }

    /// The negative condition code.
    pub fn get_cc_neg(&self) -> (r: bool)
        ensures
            r == self.spec_cc_neg(),
    {
        (self.0 >> 2) & 1 == 1
    }

    /// The system-mode bit.
    pub fn get_system_mode(&self) -> (r: bool)
        ensures
            r == self.spec_system_mode(),
    {
        (self.0 >> 5) & 1 == 1
    }

    /// The previous-system-mode bit.
    pub fn get_previous_system_mode(&self) -> (r: bool)
        ensures
            r == self.spec_previous_system_mode(),
    {
        (self.0 >> 4) & 1 == 1
    }

    /// The interrupt-enable bit.
    pub fn get_interrupt_enabled(&self) -> (r: bool)
        ensures
            r == self.spec_interrupt_enabled(),
    {
        (self.0 >> 6) & 1 == 1
    }
}

/// Pushing a window and popping it again returns the PSW to its original
/// value, whether or not the push spilled: a spill moves SWP up and the
/// matching fill moves it back down. The one excluded state is CWP == SWP,
/// which a running machine never holds steadily.
pub proof fn lemma_push_pop_restores_psw(psw: ProcessorStatusWord)
    requires
        psw.wf(),
        psw.spec_cwp() != psw.spec_swp(),
    ensures
        psw.spec_push().0.spec_pop().0 == psw,
{
    let cwp = psw.spec_cwp();
    let swp = psw.spec_swp();
    assert(cwp < 8 && swp < 8) by {
        let x = psw.0;
        assert(((x >> 10) & 7) < 8 && ((x >> 7) & 7) < 8) by (bit_vector);
    }
    // Fields of the pushed PSW.
    let cwp1 = dec_mod8(cwp);
    let spill = cwp1 == swp;
    let swp1 = if spill {
        inc_mod8(swp)
    } else {
        swp
    };
    lemma_psw_pack_fields(
        cwp1,
        swp1,
        psw.spec_interrupt_enabled(),
        psw.spec_system_mode(),
        psw.spec_previous_system_mode(),
        psw.spec_cc_zero(),
        psw.spec_cc_neg(),
        psw.spec_cc_overflow(),
        psw.spec_cc_carry(),
    );
    let pushed = psw.spec_push().0;
    // Window pointers after the matching pop.
    let cwp2 = inc_mod8(cwp1);
    let fill = cwp2 == swp1;
    let swp2 = if fill {
        dec_mod8(swp1)
    } else {
        swp1
    };
    assert(cwp2 == cwp);
    assert(swp2 == swp);
    lemma_psw_pack_fields(
        cwp2,
        swp2,
        psw.spec_interrupt_enabled(),
        psw.spec_system_mode(),
        psw.spec_previous_system_mode(),
        psw.spec_cc_zero(),
        psw.spec_cc_neg(),
        psw.spec_cc_overflow(),
        psw.spec_cc_carry(),
    );
    lemma_psw_unpack_pack(psw.0);
}

/// The flat index a logical register address maps to: addresses 0..=9 name
/// the globals, addresses 10..=31 name a slot of the window selected by
/// the current window pointer.
pub open spec fn reg_index(address: u8, cwp: u8) -> int {
    if address <= 9 {
        address as int
    } else {
        NUM_ADDED_PER_WINDOW * cwp + address + NUM_GLOBALS
    }
}

/// The value a register read yields: 0 for addresses past 31 and for
/// window slots that map outside the file; the stored word otherwise.
pub open spec fn spec_reg_read(regs: Seq<u32>, address: u8, cwp: u8) -> u32 {
    if address > 31 || reg_index(address, cwp) >= regs.len() {
        0
    } else {
        regs[reg_index(address, cwp)]
    }
}

/// The register file after a write: the addressed slot is replaced (writes
/// to addresses that map outside the file are discarded), then slot 0 is
/// forced back to zero, keeping register 0 hardwired.
pub open spec fn spec_reg_write(regs: Seq<u32>, address: u8, value: u32, cwp: u8) -> Seq<u32> {
    let written = if address > 31 || reg_index(address, cwp) >= regs.len() {
        regs
    } else {
        regs.update(reg_index(address, cwp), value)
    };
    written.update(0, 0)
}

/// The CPU's general-purpose register state: the globals followed by the
/// eight-window register stack, as one flat file.
#[derive(Debug, Clone, PartialEq, Eq)]
pub struct RegisterFile(Vec<u32>);

impl View for RegisterFile {
    type V = Seq<u32>;

    closed spec fn view(&self) -> Seq<u32> {
        self.0@
    }
}

impl RegisterFile {
    /// The file always holds exactly the globals plus the window stack.
    pub open spec fn wf(&self) -> bool {
        self@.len() == NUM_GLOBALS + NUM_WINDOW_REGISTERS
    }

    /// Create a zeroed-out register file.
    pub fn new() -> (r: RegisterFile)
        ensures
            r.wf(),
            forall|i: int| 0 <= i < r@.len() ==> r@[i] == 0u32,
    {
        let mut regs: Vec<u32> = Vec::new();
        let mut i: usize = 0;
        while i < NUM_GLOBALS + NUM_WINDOW_REGISTERS
            invariant
                i <= NUM_GLOBALS + NUM_WINDOW_REGISTERS,
                regs@.len() == i,
                forall|j: int| 0 <= j < regs@.len() ==> regs@[j] == 0u32,
            decreases NUM_GLOBALS + NUM_WINDOW_REGISTERS - i,
        {
            regs.push(0u32);
            i = i + 1;
        }
        RegisterFile(regs)
    }

    /// The flat index a logical register address maps to, or `Err` for
    /// addresses past 31.
    pub fn get_real_address(&self, address: u8, cwp: u8) -> (r: Result<usize, ()>)
        ensures
            match r {
                Ok(i) => address <= 31 && i == reg_index(address, cwp),
                Err(()) => address > 31,
            },
    {
        if address <= 9 {
            Ok(address as usize)
        } else if address <= 31 {
            Ok(NUM_ADDED_PER_WINDOW * (cwp as usize) + address as usize + NUM_GLOBALS)
        } else {
            Err(())
        }
    }

    /// Read a register through the window mapping. Addresses past 31, and
    /// window slots that map outside the file, read as 0.
    pub fn read(&self, address: u8, cwp: u8) -> (r: u32)
        ensures
            r == spec_reg_read(self@, address, cwp),
    {
        match self.get_real_address(address, cwp) {
            Ok(i) => {
                if i < self.0.len() {
                    self.0[i]
                } else {
                    0
                }
            },
            Err(()) => 0,
        }
    }

    /// Write a register through the window mapping, then force slot 0 back
    /// to zero: register 0 is hardwired and every write to it is
    /// discarded. Writes to addresses that map outside the file are
    /// discarded too.
    pub fn write(&mut self, address: u8, value: u32, cwp: u8)
        requires
            old(self).wf(),
        ensures
            final(self).wf(),
            final(self)@ == spec_reg_write(old(self)@, address, value, cwp),
    {
        match self.get_real_address(address, cwp) {
            Ok(i) => {
                if i < self.0.len() {
                    self.0.set(i, value);
                }
            },
            Err(()) => {},
        }
        self.0.set(0, 0);
    }

    /// A copy of the register file holding the same words.
    pub fn duplicate(&self) -> (r: RegisterFile)
        requires
            self.wf(),
        ensures
            r@ == self@,
            r.wf(),
    {
        let mut regs: Vec<u32> = Vec::new();
        let mut i: usize = 0;
        while i < self.0.len()
            invariant
                i <= self@.len(),
                regs@.len() == i,
                forall|j: int| 0 <= j < i ==> regs@[j] == self@[j],
            decreases self@.len() - i,
        {
            regs.push(self.0[i]);
            i = i + 1;
        }
        proof {
            assert(regs@ =~= self@);
        }
        RegisterFile(regs)
    }

    /// Write the whole register file to memory, one big-endian word per
    /// register, starting at `addr`. Nothing is written when the address
    /// is misaligned or the file would not fit.
    pub fn flush_to_mem(&self, mem: &mut Memory, addr: u32) -> (r: Result<(), MemoryError>)
        requires
            self.wf(),
            old(mem)@.len() <= 0x1_0000_0000,
        ensures
            match r {
                Ok(()) => {
                    &&& addr % 4 == 0
                    &&& mem_in_range(addr, 4 * (NUM_GLOBALS + NUM_WINDOW_REGISTERS) as int, old(
                        mem,
                    )@.len() as int)
                    &&& final(mem)@.len() == old(mem)@.len()
                    &&& forall|i: int|
                        0 <= i < NUM_GLOBALS + NUM_WINDOW_REGISTERS ==> spec_word_at(
                            final(mem)@,
                            addr + 4 * i,
                        ) == self@[i]
                    &&& forall|j: int|
                        0 <= j < final(mem)@.len() && !(addr <= j < addr + 4 * (NUM_GLOBALS
                            + NUM_WINDOW_REGISTERS)) ==> final(mem)@[j] == old(mem)@[j]
                },
                Err(MemoryError::Misaligned) => addr % 4 != 0 && final(mem)@ == old(mem)@,
                Err(MemoryError::OutOfRange) => {
                    &&& addr % 4 == 0
                    &&& !mem_in_range(addr, 4 * (NUM_GLOBALS + NUM_WINDOW_REGISTERS) as int, old(
                        mem,
                    )@.len() as int)
                    &&& final(mem)@ == old(mem)@
                },
            },
    {
        if addr % 4 != 0 {
            return Err(MemoryError::Misaligned);
        }
        let count = NUM_GLOBALS + NUM_WINDOW_REGISTERS;
        if mem.size() < 4 * count || addr as usize > mem.size() - 4 * count {
            return Err(MemoryError::OutOfRange);
        }
        let ghost mem0 = mem@;
        let mut i: usize = 0;
        while i < count
            invariant
                i <= count,
                count == NUM_GLOBALS + NUM_WINDOW_REGISTERS,
                self.wf(),
                addr % 4 == 0,
                addr + 4 * count <= mem0.len(),
                mem0.len() <= 0x1_0000_0000,
                mem@.len() == mem0.len(),
                forall|k: int|
                    0 <= k < i ==> spec_word_at(mem@, addr + 4 * k) == self@[k],
                forall|j: int|
                    0 <= j < mem@.len() && !(addr <= j < addr + 4 * count) ==> mem@[j] == mem0[j],
                forall|j: int|
                    addr + 4 * i <= j < addr + 4 * count ==> mem@[j] == mem0[j],
            decreases count - i,
        {
            let ghost before = mem@;
            let a = addr + 4 * (i as u32);
            let v = self.0[i];
            let res = mem.set_word(a, v);
            proof {
                assert(res is Ok);
                crate::memory::lemma_word_roundtrip(before, a as int, v);
                assert forall|k: int| 0 <= k < i + 1 implies spec_word_at(mem@, addr + 4 * k)
                    == self@[k] by {
                    if k < i {
                        assert(spec_word_at(before, addr + 4 * k) == self@[k]);
                    }
                }
            }
            i = i + 1;
        }
        Ok(())
    }
}

/// Register 0 is hardwired to zero: after any write, whatever its
/// destination, value, or window, reading register 0 yields 0.
pub proof fn lemma_reg_zero_reads_zero(
    regs: Seq<u32>,
    address: u8,
    value: u32,
    cwp: u8,
    read_cwp: u8,
)
    requires
        regs.len() == NUM_GLOBALS + NUM_WINDOW_REGISTERS,
    ensures
        spec_reg_read(spec_reg_write(regs, address, value, cwp), 0, read_cwp) == 0,
{
}

/// CPU output pins to memory.
#[derive(Debug, Copy, Clone, PartialEq, Eq, Structural)]
pub struct OutputPins {
    /// 32-bit memory output port carrying the address.
    pub address: u32,
    /// 32-bit memory output port carrying the data.
    pub data: u32,
    /// The current memory access is a word access.
    pub width_code_word: bool,
    /// The current memory access is a half-word access.
    pub width_code_half: bool,
    /// The current memory operation is a write (true) or a read (false).
    pub read_write: bool,
    /// The system is currently in system mode.
    pub system_mode: bool,
    /// The transfer carries an instruction (true) or data (false); writes
    /// always carry data.
    pub instr_or_data_write: bool,
}

impl OutputPins {
    /// Create pins with everything zeroed and cleared.
    pub fn new() -> (r: OutputPins)
        ensures
            r == (OutputPins {
                address: 0u32,
                data: 0u32,
                width_code_half: false,
                width_code_word: false,
                read_write: false,
                system_mode: false,
                instr_or_data_write: false,
            }),
    {
        OutputPins {
            address: 0,
            data: 0,
            width_code_half: false,
            width_code_word: false,
            read_write: false,
            system_mode: false,
            instr_or_data_write: false,
        }
    }

    /// Copy everything but the address onto `other`, as the memory
    /// interface latches data in phase two while the address it is using
    /// was published in the previous phase four.
    pub fn phase_two_copy(&self, other: &mut OutputPins)
        ensures
            final(other).address == old(other).address,
            final(other).data == self.data,
            final(other).width_code_word == self.width_code_word,
            final(other).width_code_half == self.width_code_half,
            final(other).read_write == self.read_write,
            final(other).system_mode == self.system_mode,
            final(other).instr_or_data_write == self.instr_or_data_write,
    {
        let addr = other.address;
        *other = *self;
        other.address = addr;
    }
}

} // verus!
