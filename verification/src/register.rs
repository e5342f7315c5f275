//! A checkpoint of the CPU's registers, with its byte-for-byte dump
//! layout: NXTPC, PC, LSTPC, the ten globals, then the 128 window
//! registers, each big-endian, four bytes per register. Register 0 reads
//! back as zero regardless of the saved bytes.

use crate::cpu::{
    NUM_GLOBALS, NUM_SPECIAL_REGISTERS, NUM_WINDOW_REGISTERS, SIZEOF_REG_FILE,
    TOTAL_NUM_REGISTERS,
};
use crate::memory::{lemma_word_bytes_reassemble, spec_word_at};
use vstd::prelude::*;

verus! {

/// The size of a register checkpoint, in bytes.
pub const SIZEOF_STATE: usize = TOTAL_NUM_REGISTERS * 4;

/// A register checkpoint: the three program counters, the globals and the
/// window registers.
#[derive(Debug, Clone, PartialEq, Eq)]
pub struct State {
    /// Next program counter: the instruction being fetched.
    pub nxtpc: u32,
    /// Program counter: the instruction being executed.
    pub pc: u32,
    /// Last program counter: the instruction last retired or aborted.
    pub lstpc: u32,
    /// Global registers.
    pub globals: Vec<u32>,
    /// Register window stack.
    pub window_regs: Vec<u32>,
}

impl State {
    /// The checkpoint holds exactly the globals and window registers, and
    /// register 0 is zero.
    pub open spec fn wf(&self) -> bool {
        &&& self.globals@.len() == NUM_GLOBALS
        &&& self.window_regs@.len() == NUM_WINDOW_REGISTERS
        &&& self.globals@[0] == 0u32
    }

    /// Create a zeroed-out checkpoint.
    pub fn new() -> (r: State)
        ensures
            r.wf(),
            r.nxtpc == 0,
            r.pc == 0,
            r.lstpc == 0,
            forall|i: int| 0 <= i < NUM_GLOBALS ==> r.globals@[i] == 0u32,
            forall|i: int| 0 <= i < NUM_WINDOW_REGISTERS ==> r.window_regs@[i] == 0u32,
    {
        State {
            nxtpc: 0,
            pc: 0,
            lstpc: 0,
            globals: zeroed_words(NUM_GLOBALS),
            window_regs: zeroed_words(NUM_WINDOW_REGISTERS),
        }
    }

    /// Read a checkpoint back from its dump: NXTPC, PC, LSTPC, globals,
    /// window registers, big-endian words in that order. Whatever the
    /// bytes say, register 0 comes back as zero.
    pub fn from_buf(buf: &[u8]) -> (r: State)
        requires
            buf@.len() == SIZEOF_STATE,
        ensures
            r.wf(),
            r.nxtpc == spec_word_at(buf@, 0),
            r.pc == spec_word_at(buf@, 4),
            r.lstpc == spec_word_at(buf@, 8),
            forall|i: int|
                1 <= i < NUM_GLOBALS ==> r.globals@[i] == spec_word_at(
                    buf@,
                    4 * NUM_SPECIAL_REGISTERS + 4 * i,
                ),
            forall|i: int|
                0 <= i < NUM_WINDOW_REGISTERS ==> r.window_regs@[i] == spec_word_at(
                    buf@,
                    4 * (NUM_SPECIAL_REGISTERS + NUM_GLOBALS) + 4 * i,
                ),
    {
        let nxtpc = word_from(buf, 0);
        let pc = word_from(buf, 4);
        let lstpc = word_from(buf, 8);
        let mut globals: Vec<u32> = Vec::new();
        globals.push(0);
        let mut i: usize = 1;
        while i < NUM_GLOBALS
            invariant
                1 <= i <= NUM_GLOBALS,
                buf@.len() == SIZEOF_STATE,
                globals@.len() == i,
                globals@[0] == 0u32,
                forall|j: int|
                    1 <= j < i ==> globals@[j] == spec_word_at(
                        buf@,
                        4 * NUM_SPECIAL_REGISTERS + 4 * j,
                    ),
            decreases NUM_GLOBALS - i,
        {
            let w = word_from(buf, 4 * NUM_SPECIAL_REGISTERS + 4 * i);
            globals.push(w);
            i = i + 1;
        }
        let mut window_regs: Vec<u32> = Vec::new();
        let mut i: usize = 0;
        while i < NUM_WINDOW_REGISTERS
            invariant
                i <= NUM_WINDOW_REGISTERS,
                buf@.len() == SIZEOF_STATE,
                window_regs@.len() == i,
                forall|j: int|
                    0 <= j < i ==> window_regs@[j] == spec_word_at(
                        buf@,
                        4 * (NUM_SPECIAL_REGISTERS + NUM_GLOBALS) + 4 * j,
                    ),
            decreases NUM_WINDOW_REGISTERS - i,
        {
            let w = word_from(buf, 4 * (NUM_SPECIAL_REGISTERS + NUM_GLOBALS) + 4 * i);
            window_regs.push(w);
            i = i + 1;
        }
        State { nxtpc, pc, lstpc, globals, window_regs }
    }

    /// Write the checkpoint out as its dump: NXTPC, PC, LSTPC, globals,
    /// window registers, big-endian words in that order.
    pub fn to_buf(&self) -> (r: Vec<u8>)
        requires
            self.wf(),
        ensures
            r@.len() == SIZEOF_STATE,
            spec_word_at(r@, 0) == self.nxtpc,
            spec_word_at(r@, 4) == self.pc,
            spec_word_at(r@, 8) == self.lstpc,
            forall|i: int|
                0 <= i < NUM_GLOBALS ==> spec_word_at(r@, 4 * NUM_SPECIAL_REGISTERS + 4 * i)
                    == self.globals@[i],
            forall|i: int|
                0 <= i < NUM_WINDOW_REGISTERS ==> spec_word_at(
                    r@,
                    4 * (NUM_SPECIAL_REGISTERS + NUM_GLOBALS) + 4 * i,
                ) == self.window_regs@[i],
    {
        let mut out: Vec<u8> = Vec::new();
        push_word(&mut out, self.nxtpc);
        push_word(&mut out, self.pc);
        push_word(&mut out, self.lstpc);
        let mut i: usize = 0;
        while i < NUM_GLOBALS
            invariant
                i <= NUM_GLOBALS,
                self.wf(),
                out@.len() == 4 * NUM_SPECIAL_REGISTERS + 4 * i,
                spec_word_at(out@, 0) == self.nxtpc,
                spec_word_at(out@, 4) == self.pc,
                spec_word_at(out@, 8) == self.lstpc,
                forall|j: int|
                    0 <= j < i ==> spec_word_at(out@, 4 * NUM_SPECIAL_REGISTERS + 4 * j)
                        == self.globals@[j],
            decreases NUM_GLOBALS - i,
        {
            push_word(&mut out, self.globals[i]);
            i = i + 1;
        }
        let mut i: usize = 0;
        while i < NUM_WINDOW_REGISTERS
            invariant
                i <= NUM_WINDOW_REGISTERS,
                self.wf(),
                out@.len() == 4 * (NUM_SPECIAL_REGISTERS + NUM_GLOBALS) + 4 * i,
                spec_word_at(out@, 0) == self.nxtpc,
                spec_word_at(out@, 4) == self.pc,
                spec_word_at(out@, 8) == self.lstpc,
                forall|j: int|
                    0 <= j < NUM_GLOBALS ==> spec_word_at(out@, 4 * NUM_SPECIAL_REGISTERS + 4 * j)
                        == self.globals@[j],
                forall|j: int|
                    0 <= j < i ==> spec_word_at(
                        out@,
                        4 * (NUM_SPECIAL_REGISTERS + NUM_GLOBALS) + 4 * j,
                    ) == self.window_regs@[j],
            decreases NUM_WINDOW_REGISTERS - i,
        {
            push_word(&mut out, self.window_regs[i]);
            i = i + 1;
        }
        out
    }
}

/// A zero-filled vector of `n` words.
fn zeroed_words(n: usize) -> (r: Vec<u32>)
    ensures
        r@.len() == n,
        forall|i: int| 0 <= i < n ==> r@[i] == 0u32,
{
    let mut v: Vec<u32> = Vec::new();
    let mut i: usize = 0;
    while i < n
        invariant
            i <= n,
            v@.len() == i,
            forall|j: int| 0 <= j < v@.len() ==> v@[j] == 0u32,
        decreases n - i,
    {
        v.push(0u32);
        i = i + 1;
    }
    v
}

/// The big-endian word at byte offset `at` of a buffer.
fn word_from(buf: &[u8], at: usize) -> (r: u32)
    requires
        at + 4 <= buf@.len(),
    ensures
        r == spec_word_at(buf@, at as int),
{
    let b0 = buf[at];
    let b1 = buf[at + 1];
    let b2 = buf[at + 2];
    let b3 = buf[at + 3];
    (b0 as u32) * 0x1000000 + (b1 as u32) * 0x10000 + (b2 as u32) * 0x100 + (b3 as u32)
}

/// Append the four big-endian bytes of a word to a buffer.
fn push_word(out: &mut Vec<u8>, v: u32)
    ensures
        final(out)@.len() == old(out)@.len() + 4,
        forall|j: int| 0 <= j < old(out)@.len() ==> final(out)@[j] == old(out)@[j],
        spec_word_at(final(out)@, old(out)@.len() as int) == v,
{
    out.push((v / 0x1000000) as u8);
    out.push(((v / 0x10000) % 0x100) as u8);
    out.push(((v / 0x100) % 0x100) as u8);
    out.push((v % 0x100) as u8);
    proof {
        lemma_word_bytes_reassemble(v);
    }
}

} // verus!
