//! Cycle-level emulator core for the Berkeley RISC II microprocessor.
//!
//! The crate models the datapath of the machine at the level of named
//! latches and buses: a windowed register file, the packed processor
//! status word, the ALU and shifter, a byte-addressable big-endian
//! memory, the instruction encoder/decoder, the three-stage pipeline
//! latches, and the four-phase sequencer that threads instructions
//! through them.

pub mod alu;
pub mod clock;
pub mod config;
pub mod cpu;
pub mod data_path;
pub mod decode;
pub mod execute;
pub mod instruction;
pub mod memory;
pub mod register;
pub mod shifter;
pub mod system;
