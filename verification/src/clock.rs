//! The four-phase non-overlapping clock. The clock counts cycles on
//! phase one; when the count reaches the configured rate the host is
//! asked to pause until the wall-clock second has elapsed, which keeps
//! the emulator near its target speed. A rate of zero runs unpaced.

use crate::config::Config;
use vstd::prelude::*;

verus! {

/// Phases of the four-phase non-overlapping clock.
#[derive(PartialEq, Eq, Copy, Clone, Debug, Structural)]
pub enum Phase {
    /// Phase one: the register file is read onto the buses and into the
    /// ALU input latches.
    One,
    /// Phase two: the immediate is routed through the shifter; memory
    /// latches the output pins.
    Two,
    /// Phase three: the ALU computes, the previous instruction's result
    /// is written back, and a pending memory read is consumed.
    Three,
    /// Phase four: the next instruction's register fields are decoded and
    /// the next memory address is published.
    Four,
    /// Reserved interrupt phase; one cycle, then back to phase one.
    Interrupt,
}

impl Phase {
    /// The phase the clock advances to next.
    pub open spec fn spec_next(self) -> Phase {
        match self {
            Phase::One => Phase::Two,
            Phase::Two => Phase::Three,
            Phase::Three => Phase::Four,
            Phase::Four => Phase::One,
            Phase::Interrupt => Phase::One,
        }
    }
}

/// The cycle counter behind the clock's pacing decision.
#[derive(PartialEq, Eq, Clone, Debug)]
pub struct Clock {
    /// Target cycles per second; 0 disables pacing.
    pub rate: u64,
    /// Cycles counted since the last pacing checkpoint.
    pub count: u64,
}

impl Clock {
    /// Create a clock with the rate the configuration asks for.
    pub fn new(config: &Config) -> (r: Clock)
        ensures
            r.rate == config.spec_clock_rate(),
            r.count == 0,
    {
        Clock { rate: config.get_clock_rate(), count: 0 }
    }

    /// Count a tick: phase one of each cycle advances the counter, the
    /// other phases leave the clock alone. The counter saturates rather
    /// than wrap.
    pub fn tick(&mut self, phase: Phase)
        ensures
            final(self).rate == old(self).rate,
            final(self).count == if phase is One && old(self).count < u64::MAX {
                old(self).count + 1
            } else {
                old(self).count as int
            },
    {
        match phase {
            Phase::One => {
                if self.count < u64::MAX {
                    self.count = self.count + 1;
                }
            },
            _ => {},
        }
    }

    /// Count a tick and say whether the pacer is due: true exactly when
    /// this phase-one tick brings the count up to a non-zero rate. The
    /// host then sleeps out the rest of the wall-clock second and calls
    /// `start_interval` to begin the next one.
    pub fn tick_and_wait(&mut self, phase: Phase) -> (pace: bool)
        ensures
            final(self).rate == old(self).rate,
            final(self).count == if phase is One && old(self).count < u64::MAX {
                old(self).count + 1
            } else {
                old(self).count as int
            },
            pace == (phase is One && final(self).count == final(self).rate && final(self).rate
                != 0),
    {
        self.tick(phase);
        match phase {
            Phase::One => self.rate != 0 && self.count == self.rate,
            _ => false,
        }
    }

    /// Begin a new pacing interval: the cycle counter starts over.
    pub fn start_interval(&mut self)
        ensures
            final(self).rate == old(self).rate,
            final(self).count == 0,
    {
        self.count = 0;
    }
}

} // verus!
