//! Byte-addressable main memory with aligned half-word and word access.
//!
//! All multi-byte accesses are big-endian regardless of host byte order:
//! the word at address `a` is `M[a]*2^24 + M[a+1]*2^16 + M[a+2]*2^8 + M[a+3]`.

use crate::config::Config;
use vstd::prelude::*;

verus! {

/// Why a memory access was refused.
#[derive(Copy, Clone, Debug, PartialEq, Eq, Structural)]
pub enum MemoryError {
    /// The address, or the address of the access's last byte, lies outside memory.
    OutOfRange,
    /// A half-word address with bit 0 set, or a word address with bit 0 or 1 set.
    Misaligned,
}

/// The main memory of the emulator: a flat byte array of configured size.
#[derive(Debug, Clone)]
pub struct Memory(Vec<u8>);

/// True when an access of `width` bytes starting at `addr` lies inside a
/// memory of `size` bytes.
pub open spec fn mem_in_range(addr: u32, width: int, size: int) -> bool {
    addr + width <= size
}

/// The big-endian half-word stored at `addr`.
pub open spec fn spec_hword_at(mem: Seq<u8>, addr: int) -> u16 {
    (mem[addr] * 0x100 + mem[addr + 1]) as u16
}

/// The big-endian word stored at `addr`.
pub open spec fn spec_word_at(mem: Seq<u8>, addr: int) -> u32 {
    (mem[addr] * 0x1000000 + mem[addr + 1] * 0x10000 + mem[addr + 2] * 0x100
        + mem[addr + 3]) as u32
}

/// The memory after a big-endian half-word store of `v` at `addr`.
pub open spec fn spec_set_hword(mem: Seq<u8>, addr: int, v: u16) -> Seq<u8> {
    mem.update(addr, (v / 0x100) as u8).update(addr + 1, (v % 0x100) as u8)
}

/// The memory after a big-endian word store of `v` at `addr`.
pub open spec fn spec_set_word(mem: Seq<u8>, addr: int, v: u32) -> Seq<u8> {
    mem.update(addr, (v / 0x1000000) as u8)
        .update(addr + 1, ((v / 0x10000) % 0x100) as u8)
        .update(addr + 2, ((v / 0x100) % 0x100) as u8)
        .update(addr + 3, (v % 0x100) as u8)
}

/// A half-word splits into two bytes that reassemble to the same value.
pub proof fn lemma_hword_bytes_reassemble(v: u16)
    by (bit_vector)
    ensures
        v / 0x100 < 0x100,
        (v / 0x100) * 0x100 + (v % 0x100) == v,
{
}

/// A word splits into four bytes that reassemble to the same value.
pub proof fn lemma_word_bytes_reassemble(v: u32)
    by (bit_vector)
    ensures
        v / 0x1000000 < 0x100,
        (v / 0x1000000) * 0x1000000 + ((v / 0x10000) % 0x100) * 0x10000 + ((v / 0x100)
            % 0x100) * 0x100 + (v % 0x100) == v,
{
}

/// Storing a half-word and reading it back at the same address yields the
/// value stored.
pub proof fn lemma_hword_roundtrip(mem: Seq<u8>, addr: int, v: u16)
    requires
        0 <= addr,
        addr + 2 <= mem.len(),
    ensures
        spec_hword_at(spec_set_hword(mem, addr, v), addr) == v,
{
    lemma_hword_bytes_reassemble(v);
}

/// Storing a word and reading it back at the same address yields the
/// value stored.
pub proof fn lemma_word_roundtrip(mem: Seq<u8>, addr: int, v: u32)
    requires
        0 <= addr,
        addr + 4 <= mem.len(),
    ensures
        spec_word_at(spec_set_word(mem, addr, v), addr) == v,
{
    lemma_word_bytes_reassemble(v);
}

impl View for Memory {
    type V = Seq<u8>;

    closed spec fn view(&self) -> Seq<u8> {
        self.0@
    }
}

impl Memory {
    /// Create a zero-filled memory of the size the configuration asks for.
    pub fn new(config: &Config) -> (r: Memory)
        ensures
            r@.len() == config.spec_mem_size(),
            forall|i: int| 0 <= i < r@.len() ==> r@[i] == 0u8,
    {
        Memory::from_size(config.get_mem_size())
    }

    /// Create a zero-filled memory of `size` bytes.
    pub fn from_size(size: u32) -> (r: Memory)
        ensures
            r@.len() == size,
            forall|i: int| 0 <= i < r@.len() ==> r@[i] == 0u8,
    {
        let mut bytes: Vec<u8> = Vec::new();
        let mut i: u32 = 0;
        while i < size
            invariant
                i <= size,
                bytes@.len() == i,
                forall|j: int| 0 <= j < bytes@.len() ==> bytes@[j] == 0u8,
            decreases size - i,
        {
            bytes.push(0u8);
            i = i + 1;
        }
        Memory(bytes)
    }

    /// Create a memory holding a copy of the given bytes.
    pub fn from_vec(memory: &Vec<u8>) -> (r: Memory)
        ensures
            r@ == memory@,
    {
        Memory(memory.clone())
    }

    /// The number of bytes of memory.
    pub fn size(&self) -> (r: usize)
        ensures
            r == self@.len(),
    {
        self.0.len()
    }

    /// Copy `buf` into memory starting at `addr`. Fails with `OutOfRange`
    /// when the copy would run past the end of memory; memory is unchanged
    /// in that case.
    pub fn write_buf(&mut self, addr: u32, buf: &[u8]) -> (r: Result<(), MemoryError>)
        ensures
            match r {
                Ok(()) => {
                    &&& mem_in_range(addr, buf@.len() as int, old(self)@.len() as int)
                    &&& final(self)@.len() == old(self)@.len()
                    &&& forall|i: int|
                        0 <= i < buf@.len() ==> final(self)@[addr + i] == buf@[i]
                    &&& forall|i: int|
                        0 <= i < final(self)@.len() && !(addr <= i < addr + buf@.len())
                            ==> final(self)@[i] == old(self)@[i]
                },
                Err(e) => {
                    &&& e == MemoryError::OutOfRange
                    &&& !mem_in_range(addr, buf@.len() as int, old(self)@.len() as int)
                    &&& final(self)@ == old(self)@
                },
            },
    {
        let len = self.0.len();
        if (addr as usize) > len || buf.len() > len - (addr as usize) {
            return Err(MemoryError::OutOfRange);
        }
        let mut i: usize = 0;
        while i < buf.len()
            invariant
                i <= buf@.len(),
                self@.len() == old(self)@.len(),
                self@.len() <= usize::MAX,
                addr + buf@.len() <= self@.len(),
                forall|j: int| 0 <= j < i ==> self@[addr + j] == buf@[j],
                forall|j: int|
                    0 <= j < self@.len() && !(addr <= j < addr + buf@.len())
                        ==> self@[j] == old(self)@[j],
            decreases buf@.len() - i,
        {
            let b = buf[i];
            self.0.set(addr as usize + i, b);
            i = i + 1;
        }
        Ok(())
    }

    /// Read the byte at `addr`. Fails with `OutOfRange` when `addr` lies
    /// outside memory.
    pub fn get_byte(&self, addr: u32) -> (r: Result<u8, MemoryError>)
        ensures
            match r {
                Ok(v) => mem_in_range(addr, 1, self@.len() as int) && v == self@[addr as int],
                Err(e) => {
                    &&& e == MemoryError::OutOfRange
                    &&& !mem_in_range(addr, 1, self@.len() as int)
                },
            },
    {
        if (addr as usize) < self.0.len() {
            Ok(self.0[addr as usize])
        } else {
            Err(MemoryError::OutOfRange)
        }
    }

    /// Read the big-endian half-word at `addr`. Fails with `Misaligned`
    /// when `addr` is not 2-byte aligned, and with `OutOfRange` when the
    /// access runs past the end of memory.
    pub fn get_hword(&self, addr: u32) -> (r: Result<u16, MemoryError>)
        ensures
            match r {
                Ok(v) => {
                    &&& addr % 2 == 0
                    &&& mem_in_range(addr, 2, self@.len() as int)
                    &&& v == spec_hword_at(self@, addr as int)
                },
                Err(MemoryError::Misaligned) => addr % 2 != 0,
                Err(MemoryError::OutOfRange) => {
                    &&& addr % 2 == 0
                    &&& !mem_in_range(addr, 2, self@.len() as int)
                },
            },
    {
        if addr % 2 != 0 {
            return Err(MemoryError::Misaligned);
        }
        if self.0.len() < 2 || (addr as usize) > self.0.len() - 2 {
            return Err(MemoryError::OutOfRange);
        }
        let hi = self.0[addr as usize];
        let lo = self.0[addr as usize + 1];
        Ok(hi as u16 * 0x100 + lo as u16)
    }

    /// Read the big-endian word at `addr`. Fails with `Misaligned` when
    /// `addr` is not 4-byte aligned, and with `OutOfRange` when the access
    /// runs past the end of memory.
    pub fn get_word(&self, addr: u32) -> (r: Result<u32, MemoryError>)
        ensures
            match r {
                Ok(v) => {
                    &&& addr % 4 == 0
                    &&& mem_in_range(addr, 4, self@.len() as int)
                    &&& v == spec_word_at(self@, addr as int)
                },
                Err(MemoryError::Misaligned) => addr % 4 != 0,
                Err(MemoryError::OutOfRange) => {
                    &&& addr % 4 == 0
                    &&& !mem_in_range(addr, 4, self@.len() as int)
                },
            },
    {
        if addr % 4 != 0 {
            return Err(MemoryError::Misaligned);
        }
        if self.0.len() < 4 || (addr as usize) > self.0.len() - 4 {
            return Err(MemoryError::OutOfRange);
        }
        let b0 = self.0[addr as usize];
        let b1 = self.0[addr as usize + 1];
        let b2 = self.0[addr as usize + 2];
        let b3 = self.0[addr as usize + 3];
        Ok(b0 as u32 * 0x1000000 + b1 as u32 * 0x10000 + b2 as u32 * 0x100 + b3 as u32)
    }

    /// Store the byte `what` at `addr` and return it. Fails with
    /// `OutOfRange` when `addr` lies outside memory; memory is unchanged
    /// in that case.
    pub fn set_byte(&mut self, addr: u32, what: u8) -> (r: Result<u8, MemoryError>)
        ensures
            match r {
                Ok(v) => {
                    &&& mem_in_range(addr, 1, old(self)@.len() as int)
                    &&& v == what
                    &&& final(self)@ == old(self)@.update(addr as int, what)
                },
                Err(e) => {
                    &&& e == MemoryError::OutOfRange
                    &&& !mem_in_range(addr, 1, old(self)@.len() as int)
                    &&& final(self)@ == old(self)@
                },
            },
    {
        if (addr as usize) < self.0.len() {
            self.0.set(addr as usize, what);
            Ok(what)
        } else {
            Err(MemoryError::OutOfRange)
        }
    }

    /// Store the half-word `what` big-endian at `addr` and return it.
    /// Fails with `Misaligned` when `addr` is not 2-byte aligned, and with
    /// `OutOfRange` when the access runs past the end of memory; memory is
    /// unchanged in either case.
    pub fn set_hword(&mut self, addr: u32, what: u16) -> (r: Result<u16, MemoryError>)
        ensures
            match r {
                Ok(v) => {
                    &&& addr % 2 == 0
                    &&& mem_in_range(addr, 2, old(self)@.len() as int)
                    &&& v == what
                    &&& final(self)@ == spec_set_hword(old(self)@, addr as int, what)
                },
                Err(MemoryError::Misaligned) => addr % 2 != 0 && final(self)@ == old(self)@,
                Err(MemoryError::OutOfRange) => {
                    &&& addr % 2 == 0
                    &&& !mem_in_range(addr, 2, old(self)@.len() as int)
                    &&& final(self)@ == old(self)@
                },
            },
    {
        if addr % 2 != 0 {
            return Err(MemoryError::Misaligned);
        }
        if self.0.len() < 2 || (addr as usize) > self.0.len() - 2 {
            return Err(MemoryError::OutOfRange);
        }
        self.0.set(addr as usize, (what / 0x100) as u8);
        self.0.set(addr as usize + 1, (what % 0x100) as u8);
        Ok(what)
    }

    /// Store the word `what` big-endian at `addr` and return it. Fails
    /// with `Misaligned` when `addr` is not 4-byte aligned, and with
    /// `OutOfRange` when the access runs past the end of memory; memory is
    /// unchanged in either case.
    pub fn set_word(&mut self, addr: u32, what: u32) -> (r: Result<u32, MemoryError>)
        ensures
            match r {
                Ok(v) => {
                    &&& addr % 4 == 0
                    &&& mem_in_range(addr, 4, old(self)@.len() as int)
                    &&& v == what
                    &&& final(self)@ == spec_set_word(old(self)@, addr as int, what)
                },
                Err(MemoryError::Misaligned) => addr % 4 != 0 && final(self)@ == old(self)@,
                Err(MemoryError::OutOfRange) => {
                    &&& addr % 4 == 0
                    &&& !mem_in_range(addr, 4, old(self)@.len() as int)
                    &&& final(self)@ == old(self)@
                },
            },
    {
        if addr % 4 != 0 {
            return Err(MemoryError::Misaligned);
        }
        if self.0.len() < 4 || (addr as usize) > self.0.len() - 4 {
            return Err(MemoryError::OutOfRange);
        }
        self.0.set(addr as usize, (what / 0x1000000) as u8);
        self.0.set(addr as usize + 1, ((what / 0x10000) % 0x100) as u8);
        self.0.set(addr as usize + 2, ((what / 0x100) % 0x100) as u8);
        self.0.set(addr as usize + 3, (what % 0x100) as u8);
        Ok(what)
    }
}

} // verus!
