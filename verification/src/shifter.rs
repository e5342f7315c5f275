//! The barrel shifter: logical left/right shifts of a 32-bit value by a
//! 5-bit amount. For load alignment it also rotates an incoming data word
//! so that a sub-word load lands in the least-significant bits.

use vstd::prelude::*;

verus! {

/// Representation of the shifter: an input latch and a 5-bit shift amount.
#[derive(Clone, Copy, Debug, PartialEq, Eq, Structural)]
pub struct Shifter {
    /// Input latch.
    pub src: u32,
    /// Amount to shift the input by; always below 32.
    pub s_ham: u8,
}

impl Shifter {
    /// Create a zeroed-out shifter.
    pub fn new() -> (r: Shifter)
        ensures
            r.src == 0,
            r.s_ham == 0,
    {
        Shifter { src: 0, s_ham: 0 }
    }

    /// Left shift `src` by `s_ham` bits.
    pub fn shift_left(&self) -> (r: u32)
        requires
            self.s_ham < 32,
        ensures
            r == self.src << self.s_ham,
    {
        self.src << (self.s_ham as u32)
    }

    /// Right shift `src` by `s_ham` bits.
    pub fn shift_right(&self) -> (r: u32)
        requires
            self.s_ham < 32,
        ensures
            r == self.src >> self.s_ham,
    {
        self.src >> (self.s_ham as u32)
    }

    /// Rotate an incoming data word left by `bar * 8` bits, so that the
    /// bytes of a sub-word load starting at byte offset `bar` of the word
    /// land in the least-significant positions.
    pub fn align_load(word: u32, bar: u8) -> (r: u32)
        requires
            bar < 4,
        ensures
            r == rotate_bytes(word, bar),
    {
        if bar == 0 {
            word
        } else {
            let s: u32 = 8 * bar as u32;
            (word << s) | (word >> (32 - s))
        }
    }
}

/// A 32-bit word rotated left by `bar` bytes.
pub open spec fn rotate_bytes(word: u32, bar: u8) -> u32
    recommends
        bar < 4,
{
    if bar == 0 {
        word
    } else {
        (word << (8 * bar)) | (word >> (32 - 8 * bar))
    }
}

} // verus!
