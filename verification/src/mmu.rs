//! The Sv39 memory-management unit: width-typed read, write and fetch
//! operations that tag the access kind, translate the virtual address
//! against the current CSR file, and forward to the physical bus.
//!
//! Translation is the identity while the hart runs in machine mode or
//! while SATP.MODE is zero. Otherwise a three-level page walk runs from
//! `SATP.PPN * 4096`; the page-table entries are read from DRAM, and a
//! walk that leaves DRAM, meets an invalid or malformed entry, or ends in
//! an entry that refuses the access kind raises the page fault of that
//! kind. A matching leaf has its accessed bit (and, for stores, its dirty
//! bit) set back in memory.

use vstd::prelude::*;
use crate::bus::{Bus, BusView, DRAM_BASE, bus_read_ok, bus_write_ok, bus_read8_val,
    bus_read16_val, bus_read32_val, bus_read64_val, bus_read_post, bus_store8, bus_store16,
    bus_store32, bus_store64};
use crate::csr::{Csr, PrivLevel, csr_read, CSR_SIZE, SATP};
use crate::dram::{Dram, DRAM_SIZE, load64, store64};
use crate::exception::Exception;
use crate::interrupt::IrqNumber;

verus! {

/// Page size: 4 KiB.
pub const PAGE_SIZE: u64 = 4096;

/// Paging levels of Sv39.
pub const LEVELS: u64 = 3;

/// Page-table entry size in bytes.
pub const PTE_SIZE: u64 = 8;

/// The kind of memory access being translated.
#[derive(Clone, Copy, Debug, PartialEq, Eq, Structural)]
pub enum Access {
    NONE,
    LOAD,
    STORE,
    EXEC,
}

/// The page fault an access kind raises.
pub open spec fn page_fault_of(acc: Access, vaddr: u64) -> Exception {
    match acc {
        Access::STORE => Exception::StorePageFault(vaddr),
        Access::EXEC => Exception::InstPageFault(vaddr),
        _ => Exception::LoadPageFault(vaddr),
    }
}

/// The access fault an access kind raises on an unmapped physical range.
pub open spec fn access_fault_of(acc: Access, vaddr: u64) -> Exception {
    match acc {
        Access::STORE => Exception::StoreAccessFault(vaddr),
        Access::EXEC => Exception::InstAccessFault(vaddr),
        _ => Exception::LoadAccessFault(vaddr),
    }
}

/// Virtual page number `i` of an Sv39 virtual address.
pub open spec fn vpn_of(vaddr: u64, i: u64) -> u64 {
    (vaddr >> ((12 + 9 * i) as u64)) & 0x1FF
}

/// Walk the page table rooted for the given level: find the leaf entry
/// for `vaddr`, returning its physical entry address, its value and its
/// level, or nothing when the walk faults.
///
/// A walk faults when an entry lies outside DRAM, is invalid (V clear),
/// is malformed (writable but not readable), or when the last level is
/// still no leaf.
pub open spec fn sv39_leaf(mem: Seq<u8>, a: int, vaddr: u64, i: u64) -> Option<(int, u64, u64)>
    recommends
        mem.len() == DRAM_SIZE,
        i < 3,
    decreases i,
{
    let pte_addr = a + vpn_of(vaddr, i) * 8;
    if !(DRAM_BASE <= pte_addr && pte_addr + 8 <= DRAM_BASE + DRAM_SIZE) {
        None
    } else {
        let pte = load64(mem, pte_addr - DRAM_BASE);
        if pte & 1 == 0 || (pte & 2 == 0 && pte & 4 != 0) {
            None
        } else if pte & 2 != 0 || pte & 8 != 0 {
            Some((pte_addr, pte, i))
        } else if i == 0 {
            None
        } else {
            sv39_leaf(mem, ((pte >> 10) & 0xFFF_FFFF_FFFF) * 4096, vaddr, (i - 1) as u64)
        }
    }
}

/// The physical address a leaf entry at a level maps `vaddr` to: the
/// leaf's physical page number, with as many low segments replaced by
/// virtual page numbers as the superpage level dictates, plus the page
/// offset.
pub open spec fn leaf_paddr(pte: u64, level: u64, vaddr: u64) -> int {
    let ppn = (pte >> 10) & 0xFFF_FFFF_FFFF;
    let off = (vaddr & 0xFFF) as int;
    if level == 2 {
        ((ppn & !0x3FFFFu64) | (vpn_of(vaddr, 1) << 9) | vpn_of(vaddr, 0)) * 4096 + off
    } else if level == 1 {
        ((ppn & !0x1FFu64) | vpn_of(vaddr, 0)) * 4096 + off
    } else {
        ppn * 4096 + off
    }
}

/// The result of translating `vaddr` for an access of kind `acc`: the
/// physical address or the page fault, together with the DRAM contents
/// after the accessed/dirty write-back.
pub open spec fn translate_spec(c: Seq<u64>, prv: PrivLevel, mem: Seq<u8>, vaddr: u64, acc: Access) -> (
    Result<u64, Exception>,
    Seq<u8>,
)
    recommends
        c.len() == CSR_SIZE,
        mem.len() == DRAM_SIZE,
{
    if prv == PrivLevel::MACHINE || (csr_read(c, SATP) >> 60) & 0xF == 0 {
        (Ok(vaddr), mem)
    } else {
        let root = (csr_read(c, SATP) & 0xFFF_FFFF_FFFF) * 4096;
        match sv39_leaf(mem, root, vaddr, 2) {
            None => (Err(page_fault_of(acc, vaddr)), mem),
            Some((pte_addr, pte, level)) => {
                if prv == PrivLevel::USER && pte & 0x10 == 0 {
                    (Err(page_fault_of(acc, vaddr)), mem)
                } else if acc == Access::LOAD && pte & 2 == 0 {
                    (Err(page_fault_of(acc, vaddr)), mem)
                } else if acc == Access::STORE && pte & 4 == 0 {
                    (Err(page_fault_of(acc, vaddr)), mem)
                } else if acc == Access::EXEC && pte & 8 == 0 {
                    (Err(page_fault_of(acc, vaddr)), mem)
                } else {
                    let mem1 = if pte & 0x40 == 0 || (acc == Access::STORE && pte & 0x80 == 0) {
                        store64(
                            mem,
                            pte_addr - DRAM_BASE,
                            pte | 0x40 | (if acc == Access::STORE {
                                0x80u64
                            } else {
                                0u64
                            }),
                        )
                    } else {
                        mem
                    };
                    (Ok(leaf_paddr(pte, level, vaddr) as u64), mem1)
                }
            },
        }
    }
}

/// The result of a `width`-byte read at `vaddr` (value zero-extended to
/// 64 bits), with the bus state after the access.
pub open spec fn mmu_read_spec(c: Seq<u64>, prv: PrivLevel, b: BusView, vaddr: u64, width: u64) -> (
    Result<u64, Exception>,
    BusView,
) {
    let (tr, mem1) = translate_spec(c, prv, b.dram, vaddr, Access::LOAD);
    match tr {
        Err(e) => (Err(e), b),
        Ok(pa) => {
            let b1 = BusView { dram: mem1, ..b };
            if !bus_read_ok(pa, width) {
                (Err(access_fault_of(Access::LOAD, vaddr)), b1)
            } else if width == 1 {
                (Ok(bus_read8_val(b1, pa) as u64), bus_read_post(b1, pa, 1))
            } else if width == 2 {
                (Ok(bus_read16_val(b1, pa) as u64), bus_read_post(b1, pa, 2))
            } else if width == 4 {
                (Ok(bus_read32_val(b1, pa) as u64), bus_read_post(b1, pa, 4))
            } else {
                (Ok(bus_read64_val(b1, pa)), bus_read_post(b1, pa, 8))
            }
        },
    }
}

/// The result of an instruction fetch at `vaddr`, with the bus state
/// after the access.
pub open spec fn mmu_fetch_spec(c: Seq<u64>, prv: PrivLevel, b: BusView, vaddr: u64) -> (
    Result<u32, Exception>,
    BusView,
) {
    let (tr, mem1) = translate_spec(c, prv, b.dram, vaddr, Access::EXEC);
    match tr {
        Err(e) => (Err(e), b),
        Ok(pa) => {
            let b1 = BusView { dram: mem1, ..b };
            if !bus_read_ok(pa, 4) {
                (Err(access_fault_of(Access::EXEC, vaddr)), b1)
            } else {
                (Ok(bus_read32_val(b1, pa)), bus_read_post(b1, pa, 4))
            }
        },
    }
}

/// The result of a `width`-byte write of the low bytes of `data` at
/// `vaddr`, with the bus state after the access.
pub open spec fn mmu_write_spec(
    c: Seq<u64>,
    prv: PrivLevel,
    b: BusView,
    vaddr: u64,
    data: u64,
    width: u64,
) -> (Result<(), Exception>, BusView) {
    let (tr, mem1) = translate_spec(c, prv, b.dram, vaddr, Access::STORE);
    match tr {
        Err(e) => (Err(e), b),
        Ok(pa) => {
            let b1 = BusView { dram: mem1, ..b };
            if !bus_write_ok(pa, width) {
                (Err(access_fault_of(Access::STORE, vaddr)), b1)
            } else if width == 1 {
                (Ok(()), bus_store8(b1, pa, (data & 0xFF) as u8))
            } else if width == 2 {
                (Ok(()), bus_store16(b1, pa, (data & 0xFFFF) as u16))
            } else if width == 4 {
                (Ok(()), bus_store32(b1, pa, (data & 0xFFFF_FFFF) as u32))
            } else {
                (Ok(()), bus_store64(b1, pa, data))
            }
        },
    }
}

/// The memory-management unit: the physical bus it guards, and the kind
/// of the access currently being translated.
pub struct Mmu {
    /// The physical address bus.
    pub bus: Bus,
    /// The kind of the access currently being translated.
    pub access: Access,
}

impl Mmu {
    /// The bus keeps its well-formedness.
    pub open spec fn wf(&self) -> bool {
        self.bus.wf()
    }

    /// A fresh MMU over a fresh bus.
    pub fn new() -> (r: Mmu)
        ensures
            r.wf(),
            r.access == Access::NONE,
            r.bus@.dram == Seq::new(DRAM_SIZE as nat, |i: int| 0u8),
            r.bus@.clint == Seq::new(crate::clint::CLINT_SIZE as nat, |i: int| 0u8),
            r.bus@.plic == Seq::new(crate::plic::PLIC_SIZE as nat, |i: int| 0u8),
            r.bus@.clock == 0 && r.bus@.clint_clock == 0 && r.bus@.plic_clock == 0,
            r.bus@.plic_irq is None,
            r.bus@.uart.thr == 0 && r.bus@.uart.clock == 0 && r.bus@.uart.ier == 0,
            r.bus@.uart.rhr == 0,
            r.bus@.virtio.notify_changed == false && r.bus@.virtio.disk.len() == 0,
            r.bus@.virtio.last_avail_idx == 0 && r.bus@.virtio.queue_num == 0,
            r.bus@.virtio.magic_value == 0x74726976 && r.bus@.virtio.vendor_id == 0x554d4551,
            r.bus@.virtio.version == 1 && r.bus@.virtio.interrupt_status == 0,
            r.bus@.virtio.queue_pfn == 0 && r.bus@.virtio.guest_page_size == 0,
            r.bus@.virtio.queue_align == 0 && r.bus@.virtio.clock == 0,
            r.bus@.virtio.queue_num_max == 0x2000,
    {
        Mmu { bus: Bus::new(), access: Access::NONE }
    }

    /// Copy a kernel image over the start of DRAM.
    pub fn load_dram(&mut self, binary: Vec<u8>)
        requires
            old(self).wf(),
            binary@.len() <= DRAM_SIZE,
        ensures
            final(self).wf(),
            final(self).access == old(self).access,
            forall|i: int|
                0 <= i < binary@.len() ==> final(self).bus@.dram[i] == binary@[i],
            forall|i: int|
                binary@.len() <= i < DRAM_SIZE ==> final(self).bus@.dram[i] == old(
                    self,
                ).bus@.dram[i],
            final(self).bus@ == (BusView { dram: final(self).bus@.dram, ..old(self).bus@ }),
    {
        self.bus.load_dram(binary);
    }

    /// Load a disk image into the block device's backing store.
    pub fn load_disk(&mut self, binary: Vec<u8>)
        requires
            old(self).wf(),
            old(self).bus@.virtio.disk.len() + binary@.len() <= crate::virtio::MAX_DISK,
        ensures
            final(self).wf(),
            final(self).access == old(self).access,
            final(self).bus@ == (BusView {
                virtio: crate::virtio::VirtioView {
                    disk: old(self).bus@.virtio.disk + binary@,
                    ..old(self).bus@.virtio
                },
                ..old(self).bus@
            }),
    {
        self.bus.load_disk(binary);
    }

    /// One clock tick of the bus and its peripherals.
    pub fn tick(&mut self, mip: &mut u64) -> (emitted: Option<u8>)
        requires
            old(self).wf(),
        ensures
            final(self).wf(),
            final(self).access == old(self).access,
            (final(self).bus@, *final(mip), emitted) == crate::bus::bus_tick_spec(
                old(self).bus@,
                *old(mip),
            ),
    {
        self.bus.tick(mip)
    }

    /// The external interrupt source the PLIC has latched.
    pub fn get_irqno(&self) -> (r: Option<IrqNumber>)
        ensures
            r == self.bus@.plic_irq,
    {
        self.bus.get_irqno()
    }

    /// Read one byte at a virtual address.
    #[verifier::rlimit(100)]
    pub fn read8(&mut self, csr: &Csr, vaddr: u64) -> (r: Result<u8, Exception>)
        requires
            old(self).wf(),
            csr.wf(),
        ensures
            final(self).wf(),
            final(self).access == Access::LOAD,
            ({
                let (sr, b1) = mmu_read_spec(csr@, csr.priv_level, old(self).bus@, vaddr, 1);
                final(self).bus@ == b1 && (match sr {
                    Ok(v) => r == Ok::<u8, Exception>((v & 0xFF) as u8),
                    Err(e) => r == Err::<u8, Exception>(e),
                })
            }),
    {
        self.access = Access::LOAD;
        let paddr = self.translate_addr(csr, vaddr)?;
        if !crate::bus::read_ok(paddr, 1) {
            return Err(Exception::LoadAccessFault(vaddr));
        }
        let v = self.bus.read8(paddr);
        proof {
            crate::bitops::lemma_cast_low8(v);
        }
        Ok(v)
    }

    /// Read a little-endian half-word at a virtual address.
    #[verifier::rlimit(100)]
    pub fn read16(&mut self, csr: &Csr, vaddr: u64) -> (r: Result<u16, Exception>)
        requires
            old(self).wf(),
            csr.wf(),
        ensures
            final(self).wf(),
            final(self).access == Access::LOAD,
            ({
                let (sr, b1) = mmu_read_spec(csr@, csr.priv_level, old(self).bus@, vaddr, 2);
                final(self).bus@ == b1 && (match sr {
                    Ok(v) => r == Ok::<u16, Exception>((v & 0xFFFF) as u16),
                    Err(e) => r == Err::<u16, Exception>(e),
                })
            }),
    {
        self.access = Access::LOAD;
        let paddr = self.translate_addr(csr, vaddr)?;
        if !crate::bus::read_ok(paddr, 2) {
            return Err(Exception::LoadAccessFault(vaddr));
        }
        let v = self.bus.read16(paddr);
        proof {
            crate::bitops::lemma_cast_low16(v);
        }
        Ok(v)
    }

    /// Read a little-endian word at a virtual address.
    #[verifier::rlimit(100)]
    pub fn read32(&mut self, csr: &Csr, vaddr: u64) -> (r: Result<u32, Exception>)
        requires
            old(self).wf(),
            csr.wf(),
        ensures
            final(self).wf(),
            final(self).access == Access::LOAD,
            ({
                let (sr, b1) = mmu_read_spec(csr@, csr.priv_level, old(self).bus@, vaddr, 4);
                final(self).bus@ == b1 && (match sr {
                    Ok(v) => r == Ok::<u32, Exception>((v & 0xFFFF_FFFF) as u32),
                    Err(e) => r == Err::<u32, Exception>(e),
                })
            }),
    {
        self.access = Access::LOAD;
        let paddr = self.translate_addr(csr, vaddr)?;
        if !crate::bus::read_ok(paddr, 4) {
            return Err(Exception::LoadAccessFault(vaddr));
        }
        let v = self.bus.read32(paddr);
        proof {
            crate::bitops::lemma_cast_low32(v);
        }
        Ok(v)
    }

    /// Read a little-endian double-word at a virtual address.
    #[verifier::rlimit(100)]
    pub fn read64(&mut self, csr: &Csr, vaddr: u64) -> (r: Result<u64, Exception>)
        requires
            old(self).wf(),
            csr.wf(),
        ensures
            final(self).wf(),
            final(self).access == Access::LOAD,
            ({
                let (sr, b1) = mmu_read_spec(csr@, csr.priv_level, old(self).bus@, vaddr, 8);
                final(self).bus@ == b1 && r == sr
            }),
    {
        self.access = Access::LOAD;
        let paddr = self.translate_addr(csr, vaddr)?;
        if !crate::bus::read_ok(paddr, 8) {
            return Err(Exception::LoadAccessFault(vaddr));
        }
        Ok(self.bus.read64(paddr))
    }

    /// Fetch a 32-bit instruction at a virtual address.
    #[verifier::rlimit(100)]
    pub fn fetch32(&mut self, csr: &Csr, vaddr: u64) -> (r: Result<u32, Exception>)
        requires
            old(self).wf(),
            csr.wf(),
        ensures
            final(self).wf(),
            final(self).access == Access::EXEC,
            ({
                let (sr, b1) = mmu_fetch_spec(csr@, csr.priv_level, old(self).bus@, vaddr);
                final(self).bus@ == b1 && r == sr
            }),
    {
        self.access = Access::EXEC;
        let paddr = self.translate_addr(csr, vaddr)?;
        if !crate::bus::read_ok(paddr, 4) {
            return Err(Exception::InstAccessFault(vaddr));
        }
        Ok(self.bus.read32(paddr))
    }

    /// Write one byte at a virtual address.
    #[verifier::rlimit(100)]
    pub fn write8(&mut self, csr: &Csr, vaddr: u64, data: u8) -> (r: Result<(), Exception>)
        requires
            old(self).wf(),
            csr.wf(),
        ensures
            final(self).wf(),
            final(self).access == Access::STORE,
            ({
                let (sr, b1) = mmu_write_spec(
                    csr@,
                    csr.priv_level,
                    old(self).bus@,
                    vaddr,
                    data as u64,
                    1,
                );
                final(self).bus@ == b1 && r == sr
            }),
    {
        self.access = Access::STORE;
        let paddr = self.translate_addr(csr, vaddr)?;
        if !crate::bus::write_ok(paddr, 1) {
            return Err(Exception::StoreAccessFault(vaddr));
        }
        proof {
            crate::bitops::lemma_cast_low8(data);
        }
        self.bus.write8(paddr, data);
        Ok(())
    }

    /// Write a little-endian half-word at a virtual address.
    #[verifier::rlimit(100)]
    pub fn write16(&mut self, csr: &Csr, vaddr: u64, data: u16) -> (r: Result<(), Exception>)
        requires
            old(self).wf(),
            csr.wf(),
        ensures
            final(self).wf(),
            final(self).access == Access::STORE,
            ({
                let (sr, b1) = mmu_write_spec(
                    csr@,
                    csr.priv_level,
                    old(self).bus@,
                    vaddr,
                    data as u64,
                    2,
                );
                final(self).bus@ == b1 && r == sr
            }),
    {
        self.access = Access::STORE;
        let paddr = self.translate_addr(csr, vaddr)?;
        if !crate::bus::write_ok(paddr, 2) {
            return Err(Exception::StoreAccessFault(vaddr));
        }
        proof {
            crate::bitops::lemma_cast_low16(data);
        }
        self.bus.write16(paddr, data);
        Ok(())
    }

    /// Write a little-endian word at a virtual address.
    #[verifier::rlimit(100)]
    pub fn write32(&mut self, csr: &Csr, vaddr: u64, data: u32) -> (r: Result<(), Exception>)
        requires
            old(self).wf(),
            csr.wf(),
        ensures
            final(self).wf(),
            final(self).access == Access::STORE,
            ({
                let (sr, b1) = mmu_write_spec(
                    csr@,
                    csr.priv_level,
                    old(self).bus@,
                    vaddr,
                    data as u64,
                    4,
                );
                final(self).bus@ == b1 && r == sr
            }),
    {
        self.access = Access::STORE;
        let paddr = self.translate_addr(csr, vaddr)?;
        if !crate::bus::write_ok(paddr, 4) {
            return Err(Exception::StoreAccessFault(vaddr));
        }
        proof {
            crate::bitops::lemma_cast_low32(data);
        }
        self.bus.write32(paddr, data);
        Ok(())
    }

    /// Write a little-endian double-word at a virtual address.
    #[verifier::rlimit(100)]
    pub fn write64(&mut self, csr: &Csr, vaddr: u64, data: u64) -> (r: Result<(), Exception>)
        requires
            old(self).wf(),
            csr.wf(),
        ensures
            final(self).wf(),
            final(self).access == Access::STORE,
            ({
                let (sr, b1) = mmu_write_spec(csr@, csr.priv_level, old(self).bus@, vaddr, data, 8);
                final(self).bus@ == b1 && r == sr
            }),
    {
        self.access = Access::STORE;
        let paddr = self.translate_addr(csr, vaddr)?;
        if !crate::bus::write_ok(paddr, 8) {
            return Err(Exception::StoreAccessFault(vaddr));
        }
        self.bus.write64(paddr, data);
        Ok(())
    }

    /// Translate a virtual address for the access kind currently tagged,
    /// as `translate_spec` describes. On success the accessed and dirty
    /// bits of the leaf entry are written back to DRAM.
    pub fn translate_addr(&mut self, csr: &Csr, vaddr: u64) -> (r: Result<u64, Exception>)
        requires
            old(self).wf(),
            csr.wf(),
        ensures
            final(self).wf(),
            final(self).access == old(self).access,
            ({
                let (tr, mem1) = translate_spec(
                    csr@,
                    csr.priv_level,
                    old(self).bus@.dram,
                    vaddr,
                    old(self).access,
                );
                r == tr && final(self).bus@ == (BusView { dram: mem1, ..old(self).bus@ })
            }),
    {
        if matches!(csr.priv_level, PrivLevel::MACHINE) {
            return Ok(vaddr);
        }
        let satp = csr.read(SATP);
        if (satp >> 60) & 0xF == 0 {
            return Ok(vaddr);
        }

        proof {
            crate::bitops::lemma_u64_and_le(satp, 0xFFF_FFFF_FFFF);
        }
        let root = (satp & 0xFFF_FFFF_FFFF) * 4096;
        let leaf = find_leaf(&self.bus.dram, root, vaddr, 2);
        match leaf {
            None => Err(self.page_fault_exception(vaddr)),
            Some((pte_addr, pte, level)) => {
                if matches!(csr.priv_level, PrivLevel::USER) && pte & 0x10 == 0 {
                    return Err(self.page_fault_exception(vaddr));
                }
                if matches!(self.access, Access::LOAD) && pte & 2 == 0 {
                    return Err(self.page_fault_exception(vaddr));
                }
                if matches!(self.access, Access::STORE) && pte & 4 == 0 {
                    return Err(self.page_fault_exception(vaddr));
                }
                if matches!(self.access, Access::EXEC) && pte & 8 == 0 {
                    return Err(self.page_fault_exception(vaddr));
                }
                let is_store = matches!(self.access, Access::STORE);
                if pte & 0x40 == 0 || (is_store && pte & 0x80 == 0) {
                    let marked = pte | 0x40 | (if is_store {
                        0x80u64
                    } else {
                        0u64
                    });
                    self.bus.dram.write64(pte_addr - DRAM_BASE, marked);
                }
                let ppn = (pte >> 10) & 0xFFF_FFFF_FFFF;
                let off = vaddr & 0xFFF;
                proof {
                    crate::bitops::lemma_u64_and_le(pte >> 10, 0xFFF_FFFF_FFFF);
                    crate::bitops::lemma_u64_and_le(vaddr, 0xFFF);
                    let p = ppn;
                    let v1 = vpn_of(vaddr, 1);
                    let v0 = vpn_of(vaddr, 0);
                    assert(v1 <= 0x1FF && v0 <= 0x1FF) by {
                        crate::bitops::lemma_u64_and_le((vaddr >> 21), 0x1FF);
                        crate::bitops::lemma_u64_and_le((vaddr >> 12), 0x1FF);
                    }
                    assert(((p & !0x3FFFFu64) | (v1 << 9) | v0) <= 0xFFF_FFFF_FFFF && ((p
                        & !0x1FFu64) | v0) <= 0xFFF_FFFF_FFFF) by (bit_vector)
                        requires
                            p <= 0xFFF_FFFF_FFFFu64,
                            v1 <= 0x1FFu64,
                            v0 <= 0x1FFu64,
                    ;
                }
                let paddr: u64 = if level == 2 {
                    let vpn1 = (vaddr >> 21) & 0x1FF;
                    let vpn0 = (vaddr >> 12) & 0x1FF;
                    ((ppn & !0x3FFFFu64) | (vpn1 << 9) | vpn0) * 4096 + off
                } else if level == 1 {
                    let vpn0 = (vaddr >> 12) & 0x1FF;
                    ((ppn & !0x1FFu64) | vpn0) * 4096 + off
                } else {
                    ppn * 4096 + off
                };
                Ok(paddr)
            },
        }
    }

    /// The page fault for the access kind currently tagged.
    fn page_fault_exception(&self, vaddr: u64) -> (r: Exception)
        ensures
            r == page_fault_of(self.access, vaddr),
    {
        match self.access {
            Access::STORE => Exception::StorePageFault(vaddr),
            Access::EXEC => Exception::InstPageFault(vaddr),
            _ => Exception::LoadPageFault(vaddr),
        }
    }
}

/// Follow the page table from table base `a` at level `i`, as
/// `sv39_leaf` describes.
fn find_leaf(dram: &Dram, a: u64, vaddr: u64, i: u64) -> (r: Option<(u64, u64, u64)>)
    requires
        dram.wf(),
        i < 3,
        a <= 0x100_0000_0000_0000,
    ensures
        match r {
            None => sv39_leaf(dram@, a as int, vaddr, i) is None,
            Some((pa, pte, level)) => sv39_leaf(dram@, a as int, vaddr, i) == Some(
                (pa as int, pte, level),
            ) && DRAM_BASE <= pa && pa + 8 <= DRAM_BASE + DRAM_SIZE,
        },
    decreases i,
{
    let shift = 12 + 9 * i;
    let vpn = (vaddr >> shift) & 0x1FF;
    proof {
        crate::bitops::lemma_u64_and_le(vaddr >> shift, 0x1FF);
    }
    let pte_addr = a + vpn * 8;
    if !(DRAM_BASE <= pte_addr && pte_addr + 8 <= DRAM_BASE + DRAM_SIZE) {
        return None;
    }
    let pte = dram.read64(pte_addr - DRAM_BASE);
    if pte & 1 == 0 || (pte & 2 == 0 && pte & 4 != 0) {
        None
    } else if pte & 2 != 0 || pte & 8 != 0 {
        Some((pte_addr, pte, i))
    } else if i == 0 {
        None
    } else {
        let ppn = (pte >> 10) & 0xFFF_FFFF_FFFF;
        proof {
            crate::bitops::lemma_u64_and_le(pte >> 10, 0xFFF_FFFF_FFFF);
        }
        find_leaf(dram, ppn * 4096, vaddr, i - 1)
    }
}

/// While the hart is in machine mode, or while SATP.MODE is zero,
/// translation is the identity and touches no memory, whatever else SATP
/// holds.
pub proof fn lemma_translate_identity(
    c: Seq<u64>,
    prv: PrivLevel,
    mem: Seq<u8>,
    vaddr: u64,
    acc: Access,
)
    requires
        prv == PrivLevel::MACHINE || (csr_read(c, SATP) >> 60) & 0xF == 0,
    ensures
        translate_spec(c, prv, mem, vaddr, acc) == (Ok::<u64, Exception>(vaddr), mem),
{
}

} // verus!
