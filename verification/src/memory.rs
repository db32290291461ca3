//! A small flat physical memory, used as a boot ROM scratch area.

use vstd::prelude::*;

verus! {

/// Size of the memory: 4 MiB.
pub const MEMORY_SIZE: u64 = 1024 * 1024 * 4;

/// A contiguous byte array with little-endian multi-byte accessors.
pub struct Memory {
    rom: Vec<u8>,
}

impl View for Memory {
    type V = Seq<u8>;

    closed spec fn view(&self) -> Seq<u8> {
        self.rom@
    }
}

impl Memory {
    /// The backing array always spans the whole memory.
    pub open spec fn wf(&self) -> bool {
        self@.len() == MEMORY_SIZE
    }

    /// Fresh memory, all bytes zero.
    pub fn new() -> (r: Memory)
        ensures
            r.wf(),
            r@ == Seq::new(MEMORY_SIZE as nat, |i: int| 0u8),
    {
        let rom: Vec<u8> = vec![0u8; MEMORY_SIZE as usize];
        proof {
            assert(rom@ =~= Seq::new(MEMORY_SIZE as nat, |i: int| 0u8));
        }
        Memory { rom }
    }

    /// Read one byte.
    pub fn read8(&mut self, paddr: u64) -> (r: u8)
        requires
            old(self).wf(),
            paddr < MEMORY_SIZE,
        ensures
            *final(self) == *old(self),
            r == old(self)@[paddr as int],
    {
        self.rom[paddr as usize]
    }

    /// Read a little-endian half-word.
    pub fn read16(&mut self, paddr: u64) -> (r: u16)
        requires
            old(self).wf(),
            paddr + 2 <= MEMORY_SIZE,
        ensures
            *final(self) == *old(self),
            r == crate::dram::load16(old(self)@, paddr as int),
    {
        self.read8(paddr) as u16 | (self.read8(paddr + 1) as u16) << 8
    }

    /// Read a little-endian word.
    pub fn read32(&mut self, paddr: u64) -> (r: u32)
        requires
            old(self).wf(),
            paddr + 4 <= MEMORY_SIZE,
        ensures
            *final(self) == *old(self),
            r == crate::dram::load32(old(self)@, paddr as int),
    {
        self.read16(paddr) as u32 | (self.read16(paddr + 2) as u32) << 16
    }

    /// Read a little-endian double-word.
    pub fn read64(&mut self, paddr: u64) -> (r: u64)
        requires
            old(self).wf(),
            paddr + 8 <= MEMORY_SIZE,
        ensures
            *final(self) == *old(self),
            r == crate::dram::load64(old(self)@, paddr as int),
    {
        self.read32(paddr) as u64 | (self.read32(paddr + 4) as u64) << 32
    }

    /// Write one byte.
    pub fn write8(&mut self, paddr: u64, data: u8)
        requires
            old(self).wf(),
            paddr < MEMORY_SIZE,
        ensures
            final(self).wf(),
            final(self)@ == old(self)@.update(paddr as int, data),
    {
        self.rom.set(paddr as usize, data);
    }

    /// Write a little-endian half-word.
    pub fn write16(&mut self, paddr: u64, data: u16)
        requires
            old(self).wf(),
            paddr + 2 <= MEMORY_SIZE,
        ensures
            final(self).wf(),
            final(self)@ == crate::dram::store16(old(self)@, paddr as int, data),
    {
        self.write8(paddr, (data & 0xFF) as u8);
        self.write8(paddr + 1, ((data >> 8) & 0xFF) as u8);
    }

    /// Write a little-endian word.
    pub fn write32(&mut self, paddr: u64, data: u32)
        requires
            old(self).wf(),
            paddr + 4 <= MEMORY_SIZE,
        ensures
            final(self).wf(),
            final(self)@ == crate::dram::store32(old(self)@, paddr as int, data),
    {
        self.write16(paddr, (data & 0xFFFF) as u16);
        self.write16(paddr + 2, ((data >> 16) & 0xFFFF) as u16);
    }

    /// Write a little-endian double-word.
    pub fn write64(&mut self, paddr: u64, data: u64)
        requires
            old(self).wf(),
            paddr + 8 <= MEMORY_SIZE,
        ensures
            final(self).wf(),
            final(self)@ == crate::dram::store64(old(self)@, paddr as int, data),
    {
        self.write32(paddr, (data & 0xFFFF_FFFF) as u32);
        self.write32(paddr + 4, ((data >> 32) & 0xFFFF_FFFF) as u32);
    }
}

} // verus!
