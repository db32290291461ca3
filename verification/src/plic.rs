//! Platform-Level Interrupt Controller: per-source priority registers, a
//! pending bitmap, per-context enable bits and a threshold register.
//!
//! On each tick the PLIC picks the highest-priority enabled source whose
//! interrupt line is asserted and whose priority exceeds the threshold;
//! ties go to the smaller source number. The winner is latched as the
//! claim value and `mip.SEIP` is raised.

use vstd::prelude::*;
use crate::csr::MIP_SEIP;
use crate::dram::{load16, load32, load64, store16, store32, store64};
use crate::interrupt::IrqNumber;

verus! {

/// Size of the PLIC register region in bytes.
pub const PLIC_SIZE: u64 = 0x03FF_FFFF;

// Per-source priority registers, 4 bytes per source, sources from 1.
pub const PRIORITY_BASE: u64 = 0x0000_0004;
pub const PRIORITY_TOP: u64 = 0x0000_0FFF;

// Pending bitmap.
pub const PENDING_ARRAY_BASE: u64 = 0x0000_1000;
pub const PENDING_ARRAY_TOP: u64 = 0x0000_107F;

// Per-context enable bitmaps.
pub const ENABLE_BASE: u64 = 0x0000_2000;
pub const ENABLE_TOP: u64 = 0x001F_2002;

// Per-context threshold and claim words.
pub const CONTEXT_BASE: u64 = 0x0020_0000;
pub const CONTEXT_TOP: u64 = 0x03FF_F007;

/// Whether a byte offset lands in an implemented PLIC register.
pub open spec fn plic_addr_ok(addr: u64) -> bool {
    (PRIORITY_BASE <= addr <= PRIORITY_TOP) || (PENDING_ARRAY_BASE <= addr <= PENDING_ARRAY_TOP)
        || (ENABLE_BASE <= addr <= ENABLE_TOP) || (CONTEXT_BASE <= addr <= CONTEXT_TOP)
}

/// Whether a `width`-byte access touches only implemented PLIC registers.
pub open spec fn plic_range_ok(addr: u64, width: u64) -> bool {
    forall|i: u64| addr <= i < addr + width ==> plic_addr_ok(i)
}

/// Whether a byte offset lands in an implemented PLIC register.
pub fn plic_addr_check(addr: u64) -> (r: bool)
    ensures
        r == plic_addr_ok(addr),
{
    (PRIORITY_BASE <= addr && addr <= PRIORITY_TOP) || (PENDING_ARRAY_BASE <= addr && addr
        <= PENDING_ARRAY_TOP) || (ENABLE_BASE <= addr && addr <= ENABLE_TOP) || (CONTEXT_BASE
        <= addr && addr <= CONTEXT_TOP)
}

/// Whether a `width`-byte access touches only implemented PLIC registers.
pub fn plic_range_check(addr: u64, width: u64) -> (r: bool)
    requires
        width <= 8,
    ensures
        r == plic_range_ok(addr, width),
{
    if width == 0 {
        return true;
    }
    if !plic_addr_check(addr) {
        assert(!plic_range_ok(addr, width)) by {
            assert(addr <= addr < addr + width && !plic_addr_ok(addr));
        }
        return false;
    }
    assert(addr <= CONTEXT_TOP);
    let mut i: u64 = 1;
    while i < width
        invariant
            plic_addr_ok(addr),
            addr <= CONTEXT_TOP,
            width <= 8,
            1 <= i <= width,
            forall|j: u64| addr <= j < addr + i ==> plic_addr_ok(j),
        decreases width - i,
    {
        if !plic_addr_check(addr + i) {
            assert(!plic_range_ok(addr, width)) by {
                assert(addr <= addr + i < addr + width && !plic_addr_ok((addr + i) as u64));
            }
            return false;
        }
        i = i + 1;
    }
    true
}

/// The PLIC device state.
pub struct Plic {
    /// The raw register bytes.
    pub plic: Vec<u8>,
    /// Ticks seen so far, modulo 2^64.
    pub clock: u64,
    /// The latched claim value: the source the hart should service next.
    pub irq: Option<IrqNumber>,
}

/// The priority register of the virtio source: source n lives at
/// offset 4*n, so source 1 at offset 4.
pub open spec fn virtio_priority(s: Seq<u8>) -> u32 {
    load32(s, 4int)
}

/// The priority register of the UART source (source 10, offset 40).
pub open spec fn uart_priority(s: Seq<u8>) -> u32 {
    load32(s, 40int)
}

/// Whether the virtio source is enabled for context zero.
pub open spec fn virtio_enabled(s: Seq<u8>) -> bool {
    (load32(s, ENABLE_BASE as int) >> 1) & 1 == 1
}

/// Whether the UART source is enabled for context zero.
pub open spec fn uart_enabled(s: Seq<u8>) -> bool {
    (load32(s, ENABLE_BASE as int) >> 10) & 1 == 1
}

/// The threshold register of context zero.
pub open spec fn threshold(s: Seq<u8>) -> u32 {
    load32(s, CONTEXT_BASE as int)
}

/// The source the arbitration picks, given which interrupt lines are
/// asserted: an asserted, enabled source whose priority exceeds the
/// threshold, the higher priority winning and ties going to the smaller
/// source number.
pub open spec fn plic_winner(s: Seq<u8>, virtio_line: bool, uart_line: bool) -> Option<IrqNumber> {
    let v = virtio_line && virtio_enabled(s) && virtio_priority(s) > threshold(s);
    let u = uart_line && uart_enabled(s) && uart_priority(s) > threshold(s);
    if v && u {
        if uart_priority(s) > virtio_priority(s) {
            Some(IrqNumber::UART)
        } else {
            Some(IrqNumber::VIRTIO)
        }
    } else if v {
        Some(IrqNumber::VIRTIO)
    } else if u {
        Some(IrqNumber::UART)
    } else {
        None
    }
}

impl Plic {
    /// The backing array always spans the whole register region.
    pub open spec fn wf(&self) -> bool {
        self.plic@.len() == PLIC_SIZE
    }

    /// A fresh PLIC: all registers zero, no claim latched.
    pub fn new() -> (r: Plic)
        ensures
            r.wf(),
            r.clock == 0,
            r.irq is None,
            r.plic@ == Seq::new(PLIC_SIZE as nat, |i: int| 0u8),
    {
        let plic: Vec<u8> = vec![0u8; PLIC_SIZE as usize];
        proof {
            assert(plic@ =~= Seq::new(PLIC_SIZE as nat, |i: int| 0u8));
        }
        Plic { plic, clock: 0, irq: None }
    }

    /// The latched claim value.
    pub fn get_irqno(&self) -> (r: Option<IrqNumber>)
        ensures
            r == self.irq,
    {
        self.irq
    }

    /// One core tick: arbitrate among the asserted interrupt lines; when a
    /// source qualifies, latch it as the claim value and raise `mip.SEIP`.
    pub fn tick(&mut self, virtio_is_interrupting: bool, uart_is_interrupting: bool, mip: &mut u64)
        requires
            old(self).wf(),
        ensures
            final(self).wf(),
            final(self).plic@ == old(self).plic@,
            final(self).clock == crate::bitops::wadd64(old(self).clock, 1),
            ({
                let w = plic_winner(old(self).plic@, virtio_is_interrupting, uart_is_interrupting);
                if w is Some {
                    final(self).irq == w && *final(mip) == (*old(mip) | MIP_SEIP)
                } else {
                    final(self).irq == old(self).irq && *final(mip) == *old(mip)
                }
            }),
    {
        self.clock = crate::bitops::add_w64(self.clock, 1);

        assert(plic_range_ok(4, 4) && plic_range_ok(40, 4) && plic_range_ok(ENABLE_BASE, 4)
            && plic_range_ok(CONTEXT_BASE, 4));

        let virtio_priority = self.read32(1 * 4);
        let uart_priority = self.read32(10 * 4);

        let enable = self.read32(ENABLE_BASE);
        let virtio_enabled = (enable >> 1) & 1 == 1;
        let uart_enabled = (enable >> 10) & 1 == 1;

        let threshold = self.read32(CONTEXT_BASE);

        let virtio_take = virtio_is_interrupting && virtio_enabled && virtio_priority > threshold;
        let uart_take = uart_is_interrupting && uart_enabled && uart_priority > threshold;

        if virtio_take && uart_take {
            if uart_priority > virtio_priority {
                self.irq = Some(IrqNumber::UART);
            } else {
                self.irq = Some(IrqNumber::VIRTIO);
            }
            *mip = *mip | MIP_SEIP;
        } else if virtio_take {
            self.irq = Some(IrqNumber::VIRTIO);
            *mip = *mip | MIP_SEIP;
        } else if uart_take {
            self.irq = Some(IrqNumber::UART);
            *mip = *mip | MIP_SEIP;
        }
    }

    /// Write one byte to a PLIC register.
    pub fn write8(&mut self, addr: u64, data: u8)
        requires
            old(self).wf(),
            plic_addr_ok(addr),
        ensures
            final(self).wf(),
            final(self).clock == old(self).clock,
            final(self).irq == old(self).irq,
            final(self).plic@ == old(self).plic@.update(addr as int, data),
    {
        self.plic.set(addr as usize, data);
    }

    /// Write a little-endian half-word to a PLIC register.
    pub fn write16(&mut self, addr: u64, data: u16)
        requires
            old(self).wf(),
            plic_range_ok(addr, 2),
        ensures
            final(self).wf(),
            final(self).clock == old(self).clock,
            final(self).irq == old(self).irq,
            final(self).plic@ == store16(old(self).plic@, addr as int, data),
    {
        assert(plic_addr_ok(addr) && plic_addr_ok((addr + 1) as u64));
        assert(addr <= CONTEXT_TOP);
        self.write8(addr, (data & 0xFF) as u8);
        self.write8(addr + 1, ((data >> 8) & 0xFF) as u8);
    }

    /// Write a little-endian word to a PLIC register.
    pub fn write32(&mut self, addr: u64, data: u32)
        requires
            old(self).wf(),
            plic_range_ok(addr, 4),
        ensures
            final(self).wf(),
            final(self).clock == old(self).clock,
            final(self).irq == old(self).irq,
            final(self).plic@ == store32(old(self).plic@, addr as int, data),
    {
        assert(plic_addr_ok(addr) && addr <= CONTEXT_TOP);
        assert(plic_range_ok(addr, 2) && plic_range_ok((addr + 2) as u64, 2));
        self.write16(addr, (data & 0xFFFF) as u16);
        self.write16(addr + 2, ((data >> 16) & 0xFFFF) as u16);
    }

    /// Write a little-endian double-word to a PLIC register.
    pub fn write64(&mut self, addr: u64, data: u64)
        requires
            old(self).wf(),
            plic_range_ok(addr, 8),
        ensures
            final(self).wf(),
            final(self).clock == old(self).clock,
            final(self).irq == old(self).irq,
            final(self).plic@ == store64(old(self).plic@, addr as int, data),
    {
        assert(plic_addr_ok(addr) && addr <= CONTEXT_TOP);
        assert(plic_range_ok(addr, 4) && plic_range_ok((addr + 4) as u64, 4));
        self.write32(addr, (data & 0xFFFF_FFFF) as u32);
        self.write32(addr + 4, ((data >> 32) & 0xFFFF_FFFF) as u32);
    }

    /// Read one byte from a PLIC register.
    pub fn read8(&self, addr: u64) -> (r: u8)
        requires
            self.wf(),
            plic_addr_ok(addr),
        ensures
            r == self.plic@[addr as int],
    {
        self.plic[addr as usize]
    }

    /// Read a little-endian half-word from a PLIC register.
    pub fn read16(&self, addr: u64) -> (r: u16)
        requires
            self.wf(),
            plic_range_ok(addr, 2),
        ensures
            r == load16(self.plic@, addr as int),
    {
        assert(plic_addr_ok(addr) && plic_addr_ok((addr + 1) as u64));
        assert(addr <= CONTEXT_TOP);
        self.read8(addr) as u16 | (self.read8(addr + 1) as u16) << 8
    }

    /// Read a little-endian word from a PLIC register.
    pub fn read32(&self, addr: u64) -> (r: u32)
        requires
            self.wf(),
            plic_range_ok(addr, 4),
        ensures
            r == load32(self.plic@, addr as int),
    {
        assert(plic_addr_ok(addr) && addr <= CONTEXT_TOP);
        assert(plic_range_ok(addr, 2) && plic_range_ok((addr + 2) as u64, 2));
        self.read16(addr) as u32 | (self.read16(addr + 2) as u32) << 16
    }

    /// Read a little-endian double-word from a PLIC register.
    pub fn read64(&self, addr: u64) -> (r: u64)
        requires
            self.wf(),
            plic_range_ok(addr, 8),
        ensures
            r == load64(self.plic@, addr as int),
    {
        assert(plic_addr_ok(addr) && addr <= CONTEXT_TOP);
        assert(plic_range_ok(addr, 4) && plic_range_ok((addr + 4) as u64, 4));
        self.read32(addr) as u64 | (self.read32(addr + 4) as u64) << 32
    }
}

} // verus!
