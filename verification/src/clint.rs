//! Core-Local Interruptor (CLINT): memory-mapped registers for the machine
//! software interrupt (MSIP), the timer compare value (MTIMECMP) and the
//! timer itself (MTIME).
//!
//! On every eighth tick MTIME is incremented by one. After the update the
//! tick reflects the low bit of MSIP into `mip.MSIP` and asserts `mip.MTIP`
//! when MTIMECMP is nonzero and MTIME has reached it.

use vstd::prelude::*;
use crate::csr::{MIP_MSIP, MIP_MTIP};
use crate::dram::{load64, store64};
use crate::bitops::wadd64;

verus! {

/// Size of the CLINT register region in bytes.
pub const CLINT_SIZE: u64 = 0xFFFF;

// The msip register for hart 0.
pub const MSIP_BASE: u64 = 0x0000;
pub const MSIP_TOP: u64 = 0x0003;

// The mtimecmp register for hart 0.
pub const MTIMECMP_BASE: u64 = 0x4000;
pub const MTIMECMP_TOP: u64 = 0x4007;

// The mtime register.
pub const MTIME_BASE: u64 = 0xBFF8;
pub const MTIME_TOP: u64 = 0xBFFF;

/// Whether a byte offset lands in an implemented CLINT register.
pub open spec fn clint_addr_ok(addr: u64) -> bool {
    (MSIP_BASE <= addr <= MSIP_TOP) || (MTIMECMP_BASE <= addr <= MTIMECMP_TOP) || (MTIME_BASE
        <= addr <= MTIME_TOP)
}

/// Whether a `width`-byte access starting at `addr` touches only
/// implemented CLINT registers.
pub open spec fn clint_range_ok(addr: u64, width: u64) -> bool {
    forall|i: u64| addr <= i < addr + width ==> clint_addr_ok(i)
}

/// The byte visible at a CLINT offset: only the low bit of the first MSIP
/// byte is backed, the rest of MSIP is hardwired zero.
pub open spec fn clint_byte(s: Seq<u8>, addr: u64) -> u8
    recommends
        s.len() == CLINT_SIZE,
        clint_addr_ok(addr),
{
    if addr == MSIP_BASE {
        (s[addr as int] & 1) as u8
    } else if addr <= MSIP_TOP {
        0u8
    } else {
        s[addr as int]
    }
}

/// The little-endian half-word visible at a CLINT offset.
pub open spec fn clint_load16(s: Seq<u8>, addr: u64) -> u16 {
    (clint_byte(s, addr) as u16 | ((clint_byte(s, (addr + 1) as u64) as u16) << 8)) as u16
}

/// The little-endian word visible at a CLINT offset.
pub open spec fn clint_load32(s: Seq<u8>, addr: u64) -> u32 {
    (clint_load16(s, addr) as u32 | ((clint_load16(s, (addr + 2) as u64) as u32) << 16)) as u32
}

/// The little-endian double-word visible at a CLINT offset.
pub open spec fn clint_load64(s: Seq<u8>, addr: u64) -> u64 {
    (clint_load32(s, addr) as u64 | ((clint_load32(s, (addr + 4) as u64) as u64) << 32)) as u64
}

/// The backing bytes after one byte is written at a CLINT offset: only the
/// low bit of the first MSIP byte commits, the rest of MSIP is discarded.
pub open spec fn clint_store8(s: Seq<u8>, addr: u64, data: u8) -> Seq<u8>
    recommends
        s.len() == CLINT_SIZE,
        clint_addr_ok(addr),
{
    if addr == MSIP_BASE {
        s.update(addr as int, (data & 1) as u8)
    } else if addr <= MSIP_TOP {
        s
    } else {
        s.update(addr as int, data)
    }
}

/// The backing bytes after a half-word write at a CLINT offset.
pub open spec fn clint_store16(s: Seq<u8>, addr: u64, data: u16) -> Seq<u8> {
    clint_store8(
        clint_store8(s, addr, (data & 0xFF) as u8),
        (addr + 1) as u64,
        ((data >> 8) & 0xFF) as u8,
    )
}

/// The backing bytes after a word write at a CLINT offset.
pub open spec fn clint_store32(s: Seq<u8>, addr: u64, data: u32) -> Seq<u8> {
    clint_store16(
        clint_store16(s, addr, (data & 0xFFFF) as u16),
        (addr + 2) as u64,
        ((data >> 16) & 0xFFFF) as u16,
    )
}

/// The backing bytes after a double-word write at a CLINT offset.
pub open spec fn clint_store64(s: Seq<u8>, addr: u64, data: u64) -> Seq<u8> {
    clint_store32(
        clint_store32(s, addr, (data & 0xFFFF_FFFF) as u32),
        (addr + 4) as u64,
        ((data >> 32) & 0xFFFF_FFFF) as u32,
    )
}

/// Outside the MSIP register every implemented byte is plain storage, so
/// the CLINT load is the raw little-endian load.
pub proof fn lemma_clint_load64_plain(s: Seq<u8>, addr: u64)
    requires
        s.len() == CLINT_SIZE,
        clint_range_ok(addr, 8),
        addr > MSIP_TOP,
    ensures
        clint_load64(s, addr) == load64(s, addr as int),
{
    assert(clint_addr_ok(addr));
    assert(addr <= MTIME_TOP);
    assert(clint_addr_ok((addr + 1) as u64) && clint_addr_ok((addr + 2) as u64)
        && clint_addr_ok((addr + 3) as u64) && clint_addr_ok((addr + 4) as u64)
        && clint_addr_ok((addr + 5) as u64) && clint_addr_ok((addr + 6) as u64)
        && clint_addr_ok((addr + 7) as u64));
}

/// Outside the MSIP register every implemented byte is plain storage, so
/// the CLINT store is the raw little-endian store.
pub proof fn lemma_clint_store64_plain(s: Seq<u8>, addr: u64, data: u64)
    requires
        s.len() == CLINT_SIZE,
        clint_range_ok(addr, 8),
        addr > MSIP_TOP,
    ensures
        clint_store64(s, addr, data) == store64(s, addr as int, data),
{
    assert(clint_addr_ok(addr));
    assert(addr <= MTIME_TOP);
    assert(clint_addr_ok((addr + 1) as u64) && clint_addr_ok((addr + 2) as u64)
        && clint_addr_ok((addr + 3) as u64) && clint_addr_ok((addr + 4) as u64)
        && clint_addr_ok((addr + 5) as u64) && clint_addr_ok((addr + 6) as u64)
        && clint_addr_ok((addr + 7) as u64));
}

/// Whether a byte offset lands in an implemented CLINT register.
pub fn clint_addr_check(addr: u64) -> (r: bool)
    ensures
        r == clint_addr_ok(addr),
{
    (MSIP_BASE <= addr && addr <= MSIP_TOP) || (MTIMECMP_BASE <= addr && addr <= MTIMECMP_TOP) || (
    MTIME_BASE <= addr && addr <= MTIME_TOP)
}

/// Whether a `width`-byte access touches only implemented CLINT registers.
pub fn clint_range_check(addr: u64, width: u64) -> (r: bool)
    requires
        width <= 8,
    ensures
        r == clint_range_ok(addr, width),
{
    if width == 0 {
        return true;
    }
    if !clint_addr_check(addr) {
        assert(!clint_range_ok(addr, width)) by {
            assert(addr <= addr < addr + width && !clint_addr_ok(addr));
        }
        return false;
    }
    assert(addr <= MTIME_TOP);
    let mut i: u64 = 1;
    while i < width
        invariant
            clint_addr_ok(addr),
            addr <= MTIME_TOP,
            width <= 8,
            1 <= i <= width,
            forall|j: u64| addr <= j < addr + i ==> clint_addr_ok(j),
        decreases width - i,
    {
        if !clint_addr_check(addr + i) {
            assert(!clint_range_ok(addr, width)) by {
                assert(addr <= addr + i < addr + width && !clint_addr_ok((addr + i) as u64));
            }
            return false;
        }
        i = i + 1;
    }
    true
}

/// The CLINT device state: its registers as raw bytes, plus the tick
/// counter that divides the core clock by eight.
pub struct Clint {
    /// Ticks seen so far, modulo 2^64.
    pub clock: u64,
    /// The raw register bytes.
    pub clint: Vec<u8>,
}

/// The value of MTIME after a tick of the divided clock.
pub open spec fn mtime_after_tick(s: Seq<u8>, clock: u64) -> u64
    recommends
        s.len() == CLINT_SIZE,
{
    if wadd64(clock, 1) % 8 == 0 {
        wadd64(load64(s, MTIME_BASE as int), 1)
    } else {
        load64(s, MTIME_BASE as int)
    }
}

/// The machine interrupt-pending bits after one CLINT tick from state `s`
/// with divider `clock` and pending bits `mip`: MSIP mirrors the low bit
/// of the msip register, and MTIP mirrors whether MTIMECMP is nonzero and
/// MTIME has reached it.
pub open spec fn mip_after_clint_tick(s: Seq<u8>, clock: u64, mip: u64) -> u64
    recommends
        s.len() == CLINT_SIZE,
{
    let with_msip = if s[MSIP_BASE as int] & 1 != 0 {
        mip | MIP_MSIP
    } else {
        (mip & !MIP_MSIP) as u64
    };
    let cmp = load64(s, MTIMECMP_BASE as int);
    if cmp > 0 && mtime_after_tick(s, clock) >= cmp {
        with_msip | MIP_MTIP
    } else {
        (with_msip & !MIP_MTIP) as u64
    }
}

impl Clint {
    /// The backing array always spans the whole register region.
    pub open spec fn wf(&self) -> bool {
        self.clint@.len() == CLINT_SIZE
    }

    /// A fresh CLINT: all registers zero.
    pub fn new() -> (r: Clint)
        ensures
            r.wf(),
            r.clock == 0,
            r.clint@ == Seq::new(CLINT_SIZE as nat, |i: int| 0u8),
    {
        let clint: Vec<u8> = vec![0u8; CLINT_SIZE as usize];
        proof {
            assert(clint@ =~= Seq::new(CLINT_SIZE as nat, |i: int| 0u8));
        }
        Clint { clock: 0, clint }
    }

    /// Write one byte to a CLINT register.
    pub fn write8(&mut self, addr: u64, data: u8)
        requires
            old(self).wf(),
            clint_addr_ok(addr),
        ensures
            final(self).wf(),
            final(self).clock == old(self).clock,
            final(self).clint@ == clint_store8(old(self).clint@, addr, data),
    {
        if addr == MSIP_BASE {
            self.clint.set(addr as usize, data & 1);
        } else if addr <= MSIP_TOP {
            // The rest of the msip register is hardwired to zero.
        } else {
            self.clint.set(addr as usize, data);
        }
    }

    /// Write a little-endian half-word to a CLINT register.
    pub fn write16(&mut self, addr: u64, data: u16)
        requires
            old(self).wf(),
            clint_range_ok(addr, 2),
        ensures
            final(self).wf(),
            final(self).clock == old(self).clock,
            final(self).clint@ == clint_store16(old(self).clint@, addr, data),
    {
        assert(clint_addr_ok(addr) && clint_addr_ok((addr + 1) as u64));
        assert(addr <= MTIME_TOP);
        self.write8(addr, (data & 0xFF) as u8);
        self.write8(addr + 1, ((data >> 8) & 0xFF) as u8);
    }

    /// Write a little-endian word to a CLINT register.
    pub fn write32(&mut self, addr: u64, data: u32)
        requires
            old(self).wf(),
            clint_range_ok(addr, 4),
        ensures
            final(self).wf(),
            final(self).clock == old(self).clock,
            final(self).clint@ == clint_store32(old(self).clint@, addr, data),
    {
        assert(clint_addr_ok(addr) && addr <= MTIME_TOP);
        assert forall|i: u64| addr <= i < addr + 2 implies clint_addr_ok(i) by {}
        assert forall|i: u64| addr + 2 <= i < addr + 2 + 2 implies clint_addr_ok(i) by {}
        self.write16(addr, (data & 0xFFFF) as u16);
        self.write16(addr + 2, ((data >> 16) & 0xFFFF) as u16);
    }

    /// Write a little-endian double-word to a CLINT register.
    pub fn write64(&mut self, addr: u64, data: u64)
        requires
            old(self).wf(),
            clint_range_ok(addr, 8),
        ensures
            final(self).wf(),
            final(self).clock == old(self).clock,
            final(self).clint@ == clint_store64(old(self).clint@, addr, data),
    {
        assert(clint_addr_ok(addr) && addr <= MTIME_TOP);
        assert forall|i: u64| addr <= i < addr + 4 implies clint_addr_ok(i) by {}
        assert forall|i: u64| addr + 4 <= i < addr + 4 + 4 implies clint_addr_ok(i) by {}
        self.write32(addr, (data & 0xFFFF_FFFF) as u32);
        self.write32(addr + 4, ((data >> 32) & 0xFFFF_FFFF) as u32);
    }

    /// Read one byte from a CLINT register.
    pub fn read8(&self, addr: u64) -> (r: u8)
        requires
            self.wf(),
            clint_addr_ok(addr),
        ensures
            r == clint_byte(self.clint@, addr),
    {
        if addr == MSIP_BASE {
            self.clint[addr as usize] & 1
        } else if addr <= MSIP_TOP {
            0
        } else {
            self.clint[addr as usize]
        }
    }

    /// Read a little-endian half-word from a CLINT register.
    pub fn read16(&self, addr: u64) -> (r: u16)
        requires
            self.wf(),
            clint_range_ok(addr, 2),
        ensures
            r == clint_load16(self.clint@, addr),
    {
        assert(clint_addr_ok(addr) && clint_addr_ok((addr + 1) as u64));
        assert(addr <= MTIME_TOP);
        self.read8(addr) as u16 | (self.read8(addr + 1) as u16) << 8
    }

    /// Read a little-endian word from a CLINT register.
    pub fn read32(&self, addr: u64) -> (r: u32)
        requires
            self.wf(),
            clint_range_ok(addr, 4),
        ensures
            r == clint_load32(self.clint@, addr),
    {
        assert(clint_addr_ok(addr) && addr <= MTIME_TOP);
        assert forall|i: u64| addr <= i < addr + 2 implies clint_addr_ok(i) by {}
        assert forall|i: u64| addr + 2 <= i < addr + 2 + 2 implies clint_addr_ok(i) by {}
        self.read16(addr) as u32 | (self.read16(addr + 2) as u32) << 16
    }

    /// Read a little-endian double-word from a CLINT register.
    pub fn read64(&self, addr: u64) -> (r: u64)
        requires
            self.wf(),
            clint_range_ok(addr, 8),
        ensures
            r == clint_load64(self.clint@, addr),
    {
        assert(clint_addr_ok(addr) && addr <= MTIME_TOP);
        assert forall|i: u64| addr <= i < addr + 4 implies clint_addr_ok(i) by {}
        assert forall|i: u64| addr + 4 <= i < addr + 4 + 4 implies clint_addr_ok(i) by {}
        self.read32(addr) as u64 | (self.read32(addr + 4) as u64) << 32
    }

    /// One core tick: bump the divider, advance MTIME every eighth tick,
    /// then mirror the software and timer conditions into the pending
    /// bits of `mip`, raising or clearing each.
    pub fn tick(&mut self, mip: &mut u64)
        requires
            old(self).wf(),
        ensures
            final(self).wf(),
            final(self).clock == wadd64(old(self).clock, 1),
            final(self).clint@ == if wadd64(old(self).clock, 1) % 8 == 0 {
                store64(
                    old(self).clint@,
                    MTIME_BASE as int,
                    wadd64(load64(old(self).clint@, MTIME_BASE as int), 1),
                )
            } else {
                old(self).clint@
            },
            *final(mip) == mip_after_clint_tick(old(self).clint@, old(self).clock, *old(mip)),
    {
        self.clock = crate::bitops::add_w64(self.clock, 1);

        if self.clock % 8 == 0 {
            proof {
                lemma_clint_load64_plain(self.clint@, MTIME_BASE);
            }
            let t = self.read64(MTIME_BASE);
            let t1 = crate::bitops::add_w64(t, 1);
            proof {
                lemma_clint_store64_plain(self.clint@, MTIME_BASE, t1);
            }
            self.write64(MTIME_BASE, t1);
        }

        proof {
            if wadd64(old(self).clock, 1) % 8 == 0 {
                crate::dram::lemma_store64_load64(
                    old(self).clint@,
                    MTIME_BASE as int,
                    wadd64(load64(old(self).clint@, MTIME_BASE as int), 1),
                );
                assert(self.clint@[MSIP_BASE as int] == old(self).clint@[MSIP_BASE as int]);
                assert(load64(self.clint@, MTIMECMP_BASE as int) == load64(
                    old(self).clint@,
                    MTIMECMP_BASE as int,
                )) by {
                    lemma_load64_frame(
                        old(self).clint@,
                        MTIME_BASE as int,
                        wadd64(load64(old(self).clint@, MTIME_BASE as int), 1),
                        MTIMECMP_BASE as int,
                    );
                }
            }
        }

        let msip_byte = self.read8(MSIP_BASE);
        proof {
            let b = old(self).clint@[MSIP_BASE as int];
            assert(((b & 1) & 1) == (b & 1)) by (bit_vector);
        }
        if msip_byte & 1 != 0 {
            *mip = *mip | MIP_MSIP;
        } else {
            *mip = *mip & !MIP_MSIP;
        }

        proof {
            lemma_clint_load64_plain(self.clint@, MTIMECMP_BASE);
            lemma_clint_load64_plain(self.clint@, MTIME_BASE);
        }
        let cmp = self.read64(MTIMECMP_BASE);
        if cmp > 0 && self.read64(MTIME_BASE) >= cmp {
            *mip = *mip | MIP_MTIP;
        } else {
            *mip = *mip & !MIP_MTIP;
        }
    }
}

/// A double-word store leaves any double-word loaded at least eight bytes
/// away unchanged.
pub proof fn lemma_load64_frame(s: Seq<u8>, a: int, v: u64, b: int)
    requires
        0 <= a,
        a + 8 <= s.len(),
        0 <= b,
        b + 8 <= s.len(),
        b + 8 <= a || a + 8 <= b,
    ensures
        load64(store64(s, a, v), b) == load64(s, b),
{
    let t = store64(s, a, v);
    assert(t[b] == s[b] && t[b + 1] == s[b + 1] && t[b + 2] == s[b + 2] && t[b + 3] == s[b + 3]
        && t[b + 4] == s[b + 4] && t[b + 5] == s[b + 5] && t[b + 6] == s[b + 6] && t[b + 7] == s[b
        + 7]);
}

/// After a CLINT tick the timer pending bit is asserted exactly when
/// MTIMECMP is nonzero and the updated MTIME has reached it, whatever
/// the bit held before.
pub proof fn lemma_mtip_iff(s: Seq<u8>, clock: u64, mip: u64)
    requires
        s.len() == CLINT_SIZE,
    ensures
        (mip_after_clint_tick(s, clock, mip) & MIP_MTIP != 0) <==> (load64(
            s,
            MTIMECMP_BASE as int,
        ) > 0 && mtime_after_tick(s, clock) >= load64(s, MTIMECMP_BASE as int)),
{
    let m = mip;
    assert(((m | 0x8u64) | 0x80u64) & 0x80u64 != 0 && (((m & !0x8u64) as u64) | 0x80u64)
        & 0x80u64 != 0 && (((m | 0x8u64) & !0x80u64) as u64) & 0x80u64 == 0 && ((((m
        & !0x8u64) as u64) & !0x80u64) as u64) & 0x80u64 == 0) by (bit_vector);
}

/// After a CLINT tick the software pending bit mirrors the low bit of
/// the msip register, whatever the bit held before.
pub proof fn lemma_msip_reflect(s: Seq<u8>, clock: u64, mip: u64)
    requires
        s.len() == CLINT_SIZE,
    ensures
        (mip_after_clint_tick(s, clock, mip) & MIP_MSIP != 0) <==> (s[MSIP_BASE as int] & 1 != 0),
{
    let m = mip;
    assert(((m | 0x8u64) | 0x80u64) & 0x8u64 != 0 && (((m | 0x8u64) & !0x80u64) as u64) & 0x8u64
        != 0 && (((m & !0x8u64) as u64) | 0x80u64) & 0x8u64 == 0 && ((((m & !0x8u64) as u64)
        & !0x80u64) as u64) & 0x8u64 == 0) by (bit_vector);
}

} // verus!
