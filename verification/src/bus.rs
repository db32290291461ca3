//! The physical address bus: decodes an address to the owning device by a
//! strict range match on the fixed map, and forwards the access. The bus
//! also owns the clock tick that drives the peripherals.
//!
//! Physical address layout:
//!
//! | Base        | Top         | Device        |
//! |-------------|-------------|---------------|
//! | 0x0200_0000 | 0x0200_FFFF | CLINT         |
//! | 0x0C00_0000 | 0x0FFF_FFFF | PLIC          |
//! | 0x1000_0000 | 0x1000_00FF | UART0         |
//! | 0x1000_1000 | 0x1000_1FFF | VIRTIO        |
//! | 0x8000_0000 | 0x87FF_FFFF | DRAM (128MiB) |
//!
//! Anything else is a reserved region; an access there faults.

use vstd::prelude::*;
use crate::clint::{Clint, clint_range_ok, clint_byte, clint_load16, clint_load32, clint_load64,
    clint_store8, clint_store16, clint_store32, clint_store64, mip_after_clint_tick};
use crate::dram::{Dram, DRAM_SIZE, load16, load32, load64, store16, store32, store64};
use crate::interrupt::IrqNumber;
use crate::plic::{Plic, plic_range_ok, plic_winner};
use crate::uart::{Uart, uart_interrupting, uart_read_range_ok, uart_write_range_ok,
    uart_read8_val, uart_read8_post, uart_read16_val, uart_read16_post, uart_read32_val,
    uart_read32_post, uart_read64_val, uart_read64_post, uart_store8, uart_store16, uart_store32,
    uart_store64, LSR_TX_HOLDING_EMPTY, BAUDRATE};
use crate::virtio::{Virtio, VirtioView, walk_spec, virtio_read8_val, virtio_read16_val,
    virtio_read32_val, virtio_read64_val, virtio_store8, virtio_store16, virtio_store32,
    virtio_store64, DeviceID};
use crate::bitops::wadd64;

verus! {

pub const CLINT_BASE: u64 = 0x0200_0000;
pub const CLINT_TOP: u64 = 0x0200_FFFF;

pub const PLIC_BASE: u64 = 0x0C00_0000;
pub const PLIC_TOP: u64 = 0x0FFF_FFFF;

pub const UART0_BASE: u64 = 0x1000_0000;
pub const UART0_TOP: u64 = 0x1000_00FF;

pub const VIRTIO_BASE: u64 = 0x1000_1000;
pub const VIRTIO_TOP: u64 = 0x1000_1FFF;

pub const DRAM_BASE: u64 = 0x8000_0000;
pub const DRAM_TOP: u64 = 0x87FF_FFFF;

/// Whether a `width`-byte read starting at `paddr` decodes to a device
/// register or memory that can serve it.
pub open spec fn bus_read_ok(paddr: u64, width: u64) -> bool {
    if CLINT_BASE <= paddr <= CLINT_TOP {
        clint_range_ok((paddr - CLINT_BASE) as u64, width)
    } else if PLIC_BASE <= paddr <= PLIC_TOP {
        plic_range_ok((paddr - PLIC_BASE) as u64, width)
    } else if UART0_BASE <= paddr <= UART0_TOP {
        uart_read_range_ok((paddr - UART0_BASE) as u64, width)
    } else if VIRTIO_BASE <= paddr <= VIRTIO_TOP {
        true
    } else if DRAM_BASE <= paddr <= DRAM_TOP {
        paddr - DRAM_BASE + width <= DRAM_SIZE
    } else {
        false
    }
}

/// Whether a `width`-byte write starting at `paddr` decodes to a device
/// register or memory that can take it.
pub open spec fn bus_write_ok(paddr: u64, width: u64) -> bool {
    if CLINT_BASE <= paddr <= CLINT_TOP {
        clint_range_ok((paddr - CLINT_BASE) as u64, width)
    } else if PLIC_BASE <= paddr <= PLIC_TOP {
        plic_range_ok((paddr - PLIC_BASE) as u64, width)
    } else if UART0_BASE <= paddr <= UART0_TOP {
        uart_write_range_ok((paddr - UART0_BASE) as u64, width)
    } else if VIRTIO_BASE <= paddr <= VIRTIO_TOP {
        true
    } else if DRAM_BASE <= paddr <= DRAM_TOP {
        paddr - DRAM_BASE + width <= DRAM_SIZE
    } else {
        false
    }
}

/// The physical address bus and the devices it owns.
pub struct Bus {
    /// Ticks seen so far, modulo 2^64.
    pub clock: u64,
    /// The DRAM.
    pub dram: Dram,
    /// The core-local interruptor.
    pub clint: Clint,
    /// The platform-level interrupt controller.
    pub plic: Plic,
    /// The console UART.
    pub uart0: Uart,
    /// The block device.
    pub virtio: Virtio,
}

/// The ghost view of the bus: the state of every device.
#[verifier::ext_equal]
pub struct BusView {
    /// Ticks seen so far, modulo 2^64.
    pub clock: u64,
    /// The DRAM bytes.
    pub dram: Seq<u8>,
    /// The CLINT register bytes.
    pub clint: Seq<u8>,
    /// The CLINT clock divider.
    pub clint_clock: u64,
    /// The PLIC register bytes.
    pub plic: Seq<u8>,
    /// The PLIC clock.
    pub plic_clock: u64,
    /// The latched PLIC claim value.
    pub plic_irq: Option<IrqNumber>,
    /// The UART state.
    pub uart: Uart,
    /// The block device state.
    pub virtio: VirtioView,
}

impl View for Bus {
    type V = BusView;

    open spec fn view(&self) -> BusView {
        BusView {
            clock: self.clock,
            dram: self.dram@,
            clint: self.clint.clint@,
            clint_clock: self.clint.clock,
            plic: self.plic.plic@,
            plic_clock: self.plic.clock,
            plic_irq: self.plic.irq,
            uart: self.uart0,
            virtio: self.virtio@,
        }
    }
}

/// The byte a read at a physical address returns.
pub open spec fn bus_read8_val(v: BusView, paddr: u64) -> u8
    recommends
        bus_read_ok(paddr, 1),
{
    if CLINT_BASE <= paddr <= CLINT_TOP {
        clint_byte(v.clint, (paddr - CLINT_BASE) as u64)
    } else if PLIC_BASE <= paddr <= PLIC_TOP {
        v.plic[(paddr - PLIC_BASE) as int]
    } else if UART0_BASE <= paddr <= UART0_TOP {
        uart_read8_val(v.uart, (paddr - UART0_BASE) as u64)
    } else if VIRTIO_BASE <= paddr <= VIRTIO_TOP {
        virtio_read8_val(v.virtio, (paddr - VIRTIO_BASE) as u64)
    } else {
        v.dram[(paddr - DRAM_BASE) as int]
    }
}

/// The half-word a read at a physical address returns.
pub open spec fn bus_read16_val(v: BusView, paddr: u64) -> u16
    recommends
        bus_read_ok(paddr, 2),
{
    if CLINT_BASE <= paddr <= CLINT_TOP {
        clint_load16(v.clint, (paddr - CLINT_BASE) as u64)
    } else if PLIC_BASE <= paddr <= PLIC_TOP {
        load16(v.plic, (paddr - PLIC_BASE) as int)
    } else if UART0_BASE <= paddr <= UART0_TOP {
        uart_read16_val(v.uart, (paddr - UART0_BASE) as u64)
    } else if VIRTIO_BASE <= paddr <= VIRTIO_TOP {
        virtio_read16_val(v.virtio, (paddr - VIRTIO_BASE) as u64)
    } else {
        load16(v.dram, (paddr - DRAM_BASE) as int)
    }
}

/// The word a read at a physical address returns.
pub open spec fn bus_read32_val(v: BusView, paddr: u64) -> u32
    recommends
        bus_read_ok(paddr, 4),
{
    if CLINT_BASE <= paddr <= CLINT_TOP {
        clint_load32(v.clint, (paddr - CLINT_BASE) as u64)
    } else if PLIC_BASE <= paddr <= PLIC_TOP {
        load32(v.plic, (paddr - PLIC_BASE) as int)
    } else if UART0_BASE <= paddr <= UART0_TOP {
        uart_read32_val(v.uart, (paddr - UART0_BASE) as u64)
    } else if VIRTIO_BASE <= paddr <= VIRTIO_TOP {
        virtio_read32_val(v.virtio, (paddr - VIRTIO_BASE) as u64)
    } else {
        load32(v.dram, (paddr - DRAM_BASE) as int)
    }
}

/// The double-word a read at a physical address returns.
pub open spec fn bus_read64_val(v: BusView, paddr: u64) -> u64
    recommends
        bus_read_ok(paddr, 8),
{
    if CLINT_BASE <= paddr <= CLINT_TOP {
        clint_load64(v.clint, (paddr - CLINT_BASE) as u64)
    } else if PLIC_BASE <= paddr <= PLIC_TOP {
        load64(v.plic, (paddr - PLIC_BASE) as int)
    } else if UART0_BASE <= paddr <= UART0_TOP {
        uart_read64_val(v.uart, (paddr - UART0_BASE) as u64)
    } else if VIRTIO_BASE <= paddr <= VIRTIO_TOP {
        virtio_read64_val(v.virtio, (paddr - VIRTIO_BASE) as u64)
    } else {
        load64(v.dram, (paddr - DRAM_BASE) as int)
    }
}

/// The bus state after a `width`-byte read: only a UART read has a side
/// effect (consuming the received byte).
pub open spec fn bus_read_post(v: BusView, paddr: u64, width: u64) -> BusView
    recommends
        bus_read_ok(paddr, width),
{
    if UART0_BASE <= paddr <= UART0_TOP {
        let off = (paddr - UART0_BASE) as u64;
        if width == 1 {
            BusView { uart: uart_read8_post(v.uart, off), ..v }
        } else if width == 2 {
            BusView { uart: uart_read16_post(v.uart, off), ..v }
        } else if width == 4 {
            BusView { uart: uart_read32_post(v.uart, off), ..v }
        } else {
            BusView { uart: uart_read64_post(v.uart, off), ..v }
        }
    } else {
        v
    }
}

/// The bus state after one byte is written at a physical address.
pub open spec fn bus_store8(v: BusView, paddr: u64, data: u8) -> BusView
    recommends
        bus_write_ok(paddr, 1),
{
    if CLINT_BASE <= paddr <= CLINT_TOP {
        BusView { clint: clint_store8(v.clint, (paddr - CLINT_BASE) as u64, data), ..v }
    } else if PLIC_BASE <= paddr <= PLIC_TOP {
        BusView { plic: v.plic.update((paddr - PLIC_BASE) as int, data), ..v }
    } else if UART0_BASE <= paddr <= UART0_TOP {
        BusView { uart: uart_store8(v.uart, (paddr - UART0_BASE) as u64, data), ..v }
    } else if VIRTIO_BASE <= paddr <= VIRTIO_TOP {
        BusView { virtio: virtio_store8(v.virtio, (paddr - VIRTIO_BASE) as u64, data), ..v }
    } else {
        BusView { dram: v.dram.update((paddr - DRAM_BASE) as int, data), ..v }
    }
}

/// The bus state after a half-word write at a physical address.
pub open spec fn bus_store16(v: BusView, paddr: u64, data: u16) -> BusView
    recommends
        bus_write_ok(paddr, 2),
{
    if CLINT_BASE <= paddr <= CLINT_TOP {
        BusView { clint: clint_store16(v.clint, (paddr - CLINT_BASE) as u64, data), ..v }
    } else if PLIC_BASE <= paddr <= PLIC_TOP {
        BusView { plic: store16(v.plic, (paddr - PLIC_BASE) as int, data), ..v }
    } else if UART0_BASE <= paddr <= UART0_TOP {
        BusView { uart: uart_store16(v.uart, (paddr - UART0_BASE) as u64, data), ..v }
    } else if VIRTIO_BASE <= paddr <= VIRTIO_TOP {
        BusView { virtio: virtio_store16(v.virtio, (paddr - VIRTIO_BASE) as u64, data), ..v }
    } else {
        BusView { dram: store16(v.dram, (paddr - DRAM_BASE) as int, data), ..v }
    }
}

/// The bus state after a word write at a physical address.
pub open spec fn bus_store32(v: BusView, paddr: u64, data: u32) -> BusView
    recommends
        bus_write_ok(paddr, 4),
{
    if CLINT_BASE <= paddr <= CLINT_TOP {
        BusView { clint: clint_store32(v.clint, (paddr - CLINT_BASE) as u64, data), ..v }
    } else if PLIC_BASE <= paddr <= PLIC_TOP {
        BusView { plic: store32(v.plic, (paddr - PLIC_BASE) as int, data), ..v }
    } else if UART0_BASE <= paddr <= UART0_TOP {
        BusView { uart: uart_store32(v.uart, (paddr - UART0_BASE) as u64, data), ..v }
    } else if VIRTIO_BASE <= paddr <= VIRTIO_TOP {
        BusView { virtio: virtio_store32(v.virtio, (paddr - VIRTIO_BASE) as u64, data), ..v }
    } else {
        BusView { dram: store32(v.dram, (paddr - DRAM_BASE) as int, data), ..v }
    }
}

/// The bus state after a double-word write at a physical address.
pub open spec fn bus_store64(v: BusView, paddr: u64, data: u64) -> BusView
    recommends
        bus_write_ok(paddr, 8),
{
    if CLINT_BASE <= paddr <= CLINT_TOP {
        BusView { clint: clint_store64(v.clint, (paddr - CLINT_BASE) as u64, data), ..v }
    } else if PLIC_BASE <= paddr <= PLIC_TOP {
        BusView { plic: store64(v.plic, (paddr - PLIC_BASE) as int, data), ..v }
    } else if UART0_BASE <= paddr <= UART0_TOP {
        BusView { uart: uart_store64(v.uart, (paddr - UART0_BASE) as u64, data), ..v }
    } else if VIRTIO_BASE <= paddr <= VIRTIO_TOP {
        BusView { virtio: virtio_store64(v.virtio, (paddr - VIRTIO_BASE) as u64, data), ..v }
    } else {
        BusView { dram: store64(v.dram, (paddr - DRAM_BASE) as int, data), ..v }
    }
}

/// The bus state after one clock tick, with the resulting machine
/// interrupt-pending bits and the byte the UART emitted, if any.
///
/// The tick runs the CLINT (timer and software pending bits), lets the
/// block device serve a pending queue notification, moves a staged UART
/// byte out, and arbitrates external interrupts in the PLIC.
pub open spec fn bus_tick_spec(v: BusView, mip: u64) -> (BusView, u64, Option<u8>) {
    // CLINT: divider, timer, pending bits.
    let mip1 = mip_after_clint_tick(v.clint, v.clint_clock, mip);
    let clint1 = if wadd64(v.clint_clock, 1) % 8 == 0 {
        store64(
            v.clint,
            crate::clint::MTIME_BASE as int,
            wadd64(load64(v.clint, crate::clint::MTIME_BASE as int), 1),
        )
    } else {
        v.clint
    };
    // Virtio: one queue walk when the notifier was written.
    let walked = walk_spec(v.virtio, v.dram);
    let dram1 = if v.virtio.notify_changed {
        walked.0
    } else {
        v.dram
    };
    let virtio1 = if v.virtio.notify_changed {
        VirtioView {
            clock: wadd64(v.virtio.clock, 1),
            disk: walked.1,
            last_avail_idx: walked.2,
            notify_changed: false,
            interrupt_status: (v.virtio.interrupt_status | 1) as u64,
            ..v.virtio
        }
    } else {
        VirtioView { clock: wadd64(v.virtio.clock, 1), ..v.virtio }
    };
    // UART: a staged byte leaves every 38400 ticks.
    let fires = wadd64(v.uart.clock, 1) % BAUDRATE == 0 && v.uart.lsr & LSR_TX_HOLDING_EMPTY == 0;
    let uart1 = if fires {
        Uart {
            clock: wadd64(v.uart.clock, 1),
            thr: 0,
            lsr: (v.uart.lsr | LSR_TX_HOLDING_EMPTY) as u8,
            ..v.uart
        }
    } else {
        Uart { clock: wadd64(v.uart.clock, 1), ..v.uart }
    };
    let emitted = if fires {
        Some(v.uart.thr)
    } else {
        Option::<u8>::None
    };
    // PLIC: arbitration over the ticked devices' interrupt lines.
    let virtio_line = virtio1.interrupt_status & 1 != 0;
    let uart_line = uart_interrupting(uart1);
    let w = plic_winner(v.plic, virtio_line, uart_line);
    let irq1 = if w is Some {
        w
    } else {
        v.plic_irq
    };
    let mip2 = if w is Some {
        mip1 | crate::csr::MIP_SEIP
    } else {
        mip1
    };
    (
        BusView {
            clock: wadd64(v.clock, 1),
            dram: dram1,
            clint: clint1,
            clint_clock: wadd64(v.clint_clock, 1),
            plic: v.plic,
            plic_clock: wadd64(v.plic_clock, 1),
            plic_irq: irq1,
            uart: uart1,
            virtio: virtio1,
        },
        mip2,
        emitted,
    )
}

/// Whether a `width`-byte read decodes to a register or memory that can
/// serve it.
pub fn read_ok(paddr: u64, width: u64) -> (r: bool)
    requires
        1 <= width <= 8,
    ensures
        r == bus_read_ok(paddr, width),
{
    if CLINT_BASE <= paddr && paddr <= CLINT_TOP {
        crate::clint::clint_range_check(paddr - CLINT_BASE, width)
    } else if PLIC_BASE <= paddr && paddr <= PLIC_TOP {
        crate::plic::plic_range_check(paddr - PLIC_BASE, width)
    } else if UART0_BASE <= paddr && paddr <= UART0_TOP {
        crate::uart::uart_read_range_check(paddr - UART0_BASE, width)
    } else if VIRTIO_BASE <= paddr && paddr <= VIRTIO_TOP {
        true
    } else if DRAM_BASE <= paddr && paddr <= DRAM_TOP {
        paddr - DRAM_BASE <= DRAM_SIZE - width
    } else {
        false
    }
}

/// Whether a `width`-byte write decodes to a register or memory that can
/// take it.
pub fn write_ok(paddr: u64, width: u64) -> (r: bool)
    requires
        1 <= width <= 8,
    ensures
        r == bus_write_ok(paddr, width),
{
    if CLINT_BASE <= paddr && paddr <= CLINT_TOP {
        crate::clint::clint_range_check(paddr - CLINT_BASE, width)
    } else if PLIC_BASE <= paddr && paddr <= PLIC_TOP {
        crate::plic::plic_range_check(paddr - PLIC_BASE, width)
    } else if UART0_BASE <= paddr && paddr <= UART0_TOP {
        crate::uart::uart_write_range_check(paddr - UART0_BASE, width)
    } else if VIRTIO_BASE <= paddr && paddr <= VIRTIO_TOP {
        true
    } else if DRAM_BASE <= paddr && paddr <= DRAM_TOP {
        paddr - DRAM_BASE <= DRAM_SIZE - width
    } else {
        false
    }
}

impl Bus {
    /// The backing stores of every device span their regions, and the
    /// virtio device keeps its structural bounds.
    pub open spec fn wf(&self) -> bool {
        self.dram.wf() && self.clint.wf() && self.plic.wf() && self.virtio.wf()
    }

    /// A fresh bus: zeroed memory and devices in their reset state, with
    /// the block device attached.
    pub fn new() -> (r: Bus)
        ensures
            r.wf(),
            r.clock == 0,
            r.dram@ == Seq::new(DRAM_SIZE as nat, |i: int| 0u8),
            r.clint.clock == 0,
            r.clint.clint@ == Seq::new(crate::clint::CLINT_SIZE as nat, |i: int| 0u8),
            r.plic.clock == 0,
            r.plic.irq is None,
            r.plic.plic@ == Seq::new(crate::plic::PLIC_SIZE as nat, |i: int| 0u8),
            r.uart0 == (Uart {
                clock: 0,
                thr: 0,
                rhr: 0,
                ier: 0,
                fcr: 0,
                isr: 0,
                lcr: 0,
                mcr: 0,
                lsr: LSR_TX_HOLDING_EMPTY,
                msr: 0,
                spr: 0,
            }),
            r.virtio@.disk.len() == 0,
            r.virtio@.last_avail_idx == 0,
            r.virtio@.notify_changed == false,
            r.virtio@.queue_num == 0,
            r.virtio@.queue_pfn == 0,
            r.virtio@.queue_align == 0,
            r.virtio@.guest_page_size == 0,
            r.virtio@.interrupt_status == 0,
            r.virtio@.queue_num_max == 0x2000,
            r.virtio@.magic_value == 0x74726976,
            r.virtio@.vendor_id == 0x554d4551,
            r.virtio@.version == 1,
            r.virtio@.clock == 0,
    {
        Bus {
            clock: 0,
            dram: Dram::new(),
            clint: Clint::new(),
            plic: Plic::new(),
            uart0: Uart::new(),
            virtio: Virtio::new(DeviceID::BlockDevice),
        }
    }

    /// Copy a kernel image over the start of DRAM.
    pub fn load_dram(&mut self, binary: Vec<u8>)
        requires
            old(self).wf(),
            binary@.len() <= DRAM_SIZE,
        ensures
            final(self).wf(),
            forall|i: int|
                0 <= i < binary@.len() ==> final(self).dram@[i] == binary@[i],
            forall|i: int|
                binary@.len() <= i < DRAM_SIZE ==> final(self).dram@[i] == old(self).dram@[i],
            final(self)@ == (BusView { dram: final(self).dram@, ..old(self)@ }),
    {
        self.dram.load(binary);
    }

    /// Load a disk image into the block device's backing store.
    pub fn load_disk(&mut self, binary: Vec<u8>)
        requires
            old(self).wf(),
            old(self).virtio@.disk.len() + binary@.len() <= crate::virtio::MAX_DISK,
        ensures
            final(self).wf(),
            final(self)@ == (BusView {
                virtio: VirtioView {
                    disk: old(self).virtio@.disk + binary@,
                    ..old(self).virtio@
                },
                ..old(self)@
            }),
    {
        self.virtio.load(binary);
    }

    /// One clock tick, as `bus_tick_spec` describes. Returns the byte the
    /// UART emitted, if any, for the caller to put on the console.
    pub fn tick(&mut self, mip: &mut u64) -> (emitted: Option<u8>)
        requires
            old(self).wf(),
        ensures
            final(self).wf(),
            (final(self)@, *final(mip), emitted) == bus_tick_spec(old(self)@, *old(mip)),
    {
        self.clint.tick(mip);
        self.virtio.tick(&mut self.dram);
        let emitted = self.uart0.tick();
        let virtio_line = self.virtio.interrupt_status & 1 != 0;
        let uart_line = self.uart0.is_interrupting();
        self.plic.tick(virtio_line, uart_line, mip);
        self.clock = crate::bitops::add_w64(self.clock, 1);
        emitted
    }

    /// The external interrupt source the PLIC has latched.
    pub fn get_irqno(&self) -> (r: Option<IrqNumber>)
        ensures
            r == self@.plic_irq,
    {
        self.plic.get_irqno()
    }

    /// Write one byte at a physical address.
    pub fn write8(&mut self, paddr: u64, data: u8)
        requires
            old(self).wf(),
            bus_write_ok(paddr, 1),
        ensures
            final(self).wf(),
            final(self)@ == bus_store8(old(self)@, paddr, data),
    {
        if CLINT_BASE <= paddr && paddr <= CLINT_TOP {
            self.clint.write8(paddr - CLINT_BASE, data);
        } else if PLIC_BASE <= paddr && paddr <= PLIC_TOP {
            self.plic.write8(paddr - PLIC_BASE, data);
        } else if UART0_BASE <= paddr && paddr <= UART0_TOP {
            self.uart0.write8(paddr - UART0_BASE, data);
        } else if VIRTIO_BASE <= paddr && paddr <= VIRTIO_TOP {
            self.virtio.write8(paddr - VIRTIO_BASE, data);
        } else {
            self.dram.write8(paddr - DRAM_BASE, data);
        }
    }

    /// Write a little-endian half-word at a physical address.
    #[verifier::rlimit(100)]
    pub fn write16(&mut self, paddr: u64, data: u16)
        requires
            old(self).wf(),
            bus_write_ok(paddr, 2),
        ensures
            final(self).wf(),
            final(self)@ == bus_store16(old(self)@, paddr, data),
    {
        if CLINT_BASE <= paddr && paddr <= CLINT_TOP {
            self.clint.write16(paddr - CLINT_BASE, data);
        } else if PLIC_BASE <= paddr && paddr <= PLIC_TOP {
            self.plic.write16(paddr - PLIC_BASE, data);
        } else if UART0_BASE <= paddr && paddr <= UART0_TOP {
            self.uart0.write16(paddr - UART0_BASE, data);
        } else if VIRTIO_BASE <= paddr && paddr <= VIRTIO_TOP {
            self.virtio.write16(paddr - VIRTIO_BASE, data);
        } else {
            self.dram.write16(paddr - DRAM_BASE, data);
        }
    }

    /// Write a little-endian word at a physical address.
    #[verifier::rlimit(100)]
    pub fn write32(&mut self, paddr: u64, data: u32)
        requires
            old(self).wf(),
            bus_write_ok(paddr, 4),
        ensures
            final(self).wf(),
            final(self)@ == bus_store32(old(self)@, paddr, data),
    {
        if CLINT_BASE <= paddr && paddr <= CLINT_TOP {
            self.clint.write32(paddr - CLINT_BASE, data);
        } else if PLIC_BASE <= paddr && paddr <= PLIC_TOP {
            self.plic.write32(paddr - PLIC_BASE, data);
        } else if UART0_BASE <= paddr && paddr <= UART0_TOP {
            self.uart0.write32(paddr - UART0_BASE, data);
        } else if VIRTIO_BASE <= paddr && paddr <= VIRTIO_TOP {
            self.virtio.write32(paddr - VIRTIO_BASE, data);
        } else {
            self.dram.write32(paddr - DRAM_BASE, data);
        }
    }

    /// Write a little-endian double-word at a physical address.
    #[verifier::rlimit(100)]
    pub fn write64(&mut self, paddr: u64, data: u64)
        requires
            old(self).wf(),
            bus_write_ok(paddr, 8),
        ensures
            final(self).wf(),
            final(self)@ == bus_store64(old(self)@, paddr, data),
    {
        if CLINT_BASE <= paddr && paddr <= CLINT_TOP {
            self.clint.write64(paddr - CLINT_BASE, data);
        } else if PLIC_BASE <= paddr && paddr <= PLIC_TOP {
            self.plic.write64(paddr - PLIC_BASE, data);
        } else if UART0_BASE <= paddr && paddr <= UART0_TOP {
            self.uart0.write64(paddr - UART0_BASE, data);
        } else if VIRTIO_BASE <= paddr && paddr <= VIRTIO_TOP {
            self.virtio.write64(paddr - VIRTIO_BASE, data);
        } else {
            self.dram.write64(paddr - DRAM_BASE, data);
        }
    }

    /// Read one byte at a physical address.
    pub fn read8(&mut self, paddr: u64) -> (r: u8)
        requires
            old(self).wf(),
            bus_read_ok(paddr, 1),
        ensures
            final(self).wf(),
            r == bus_read8_val(old(self)@, paddr),
            final(self)@ == bus_read_post(old(self)@, paddr, 1),
    {
        if CLINT_BASE <= paddr && paddr <= CLINT_TOP {
            self.clint.read8(paddr - CLINT_BASE)
        } else if PLIC_BASE <= paddr && paddr <= PLIC_TOP {
            self.plic.read8(paddr - PLIC_BASE)
        } else if UART0_BASE <= paddr && paddr <= UART0_TOP {
            self.uart0.read8(paddr - UART0_BASE)
        } else if VIRTIO_BASE <= paddr && paddr <= VIRTIO_TOP {
            self.virtio.read8(paddr - VIRTIO_BASE)
        } else {
            self.dram.read8(paddr - DRAM_BASE)
        }
    }

    /// Read a little-endian half-word at a physical address.
    pub fn read16(&mut self, paddr: u64) -> (r: u16)
        requires
            old(self).wf(),
            bus_read_ok(paddr, 2),
        ensures
            final(self).wf(),
            r == bus_read16_val(old(self)@, paddr),
            final(self)@ == bus_read_post(old(self)@, paddr, 2),
    {
        if CLINT_BASE <= paddr && paddr <= CLINT_TOP {
            self.clint.read16(paddr - CLINT_BASE)
        } else if PLIC_BASE <= paddr && paddr <= PLIC_TOP {
            self.plic.read16(paddr - PLIC_BASE)
        } else if UART0_BASE <= paddr && paddr <= UART0_TOP {
            self.uart0.read16(paddr - UART0_BASE)
        } else if VIRTIO_BASE <= paddr && paddr <= VIRTIO_TOP {
            self.virtio.read16(paddr - VIRTIO_BASE)
        } else {
            self.dram.read16(paddr - DRAM_BASE)
        }
    }

    /// Read a little-endian word at a physical address.
    #[verifier::rlimit(100)]
    pub fn read32(&mut self, paddr: u64) -> (r: u32)
        requires
            old(self).wf(),
            bus_read_ok(paddr, 4),
        ensures
            final(self).wf(),
            r == bus_read32_val(old(self)@, paddr),
            final(self)@ == bus_read_post(old(self)@, paddr, 4),
    {
        if CLINT_BASE <= paddr && paddr <= CLINT_TOP {
            self.clint.read32(paddr - CLINT_BASE)
        } else if PLIC_BASE <= paddr && paddr <= PLIC_TOP {
            self.plic.read32(paddr - PLIC_BASE)
        } else if UART0_BASE <= paddr && paddr <= UART0_TOP {
            self.uart0.read32(paddr - UART0_BASE)
        } else if VIRTIO_BASE <= paddr && paddr <= VIRTIO_TOP {
            self.virtio.read32(paddr - VIRTIO_BASE)
        } else {
            self.dram.read32(paddr - DRAM_BASE)
        }
    }

    /// Read a little-endian double-word at a physical address.
    #[verifier::rlimit(100)]
    pub fn read64(&mut self, paddr: u64) -> (r: u64)
        requires
            old(self).wf(),
            bus_read_ok(paddr, 8),
        ensures
            final(self).wf(),
            r == bus_read64_val(old(self)@, paddr),
            final(self)@ == bus_read_post(old(self)@, paddr, 8),
    {
        if CLINT_BASE <= paddr && paddr <= CLINT_TOP {
            self.clint.read64(paddr - CLINT_BASE)
        } else if PLIC_BASE <= paddr && paddr <= PLIC_TOP {
            self.plic.read64(paddr - PLIC_BASE)
        } else if UART0_BASE <= paddr && paddr <= UART0_TOP {
            self.uart0.read64(paddr - UART0_BASE)
        } else if VIRTIO_BASE <= paddr && paddr <= VIRTIO_TOP {
            self.virtio.read64(paddr - VIRTIO_BASE)
        } else {
            self.dram.read64(paddr - DRAM_BASE)
        }
    }
}

} // verus!
