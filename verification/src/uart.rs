//! A 16550-style UART register file.
//!
//! Writing THR stages a byte for transmission and clears the
//! "TX holding empty" bit of LSR. Every 38400 ticks a staged byte is
//! emitted to the caller (the console sink) and the bit is set again.

use vstd::prelude::*;
use crate::bitops::wadd64;

verus! {

// Register offsets in write mode.
pub const THR: u64 = 0b000;  // Transmit Holding Register
pub const IER: u64 = 0b001;  // Interrupt Enable Register
pub const FCR: u64 = 0b010;  // FIFO Control Register
pub const LCR: u64 = 0b011;  // Line Control Register
pub const MCR: u64 = 0b100;  // Modem Control Register

// Register offsets in read mode.
pub const RHR: u64 = 0b000;  // Receive Holding Register
pub const ISR: u64 = 0b010;  // Interrupt Status Register
pub const LSR: u64 = 0b101;  // Line Status Register
pub const MSR: u64 = 0b110;  // Modem Status Register

// Readable and writable.
pub const SPR: u64 = 0b111;  // Scratchpad Register

// Interrupt-enable bits.
pub const IER_RHR_IRQ: u8 = 0b0000_0001;
pub const IER_THR_IRQ: u8 = 0b0000_0010;

// Line-status bits.
pub const LSR_RX_DATA_READY: u8 = 0b0000_0001;
pub const LSR_TX_HOLDING_EMPTY: u8 = 0b0010_0000;

/// Ticks per emitted byte.
pub const BAUDRATE: u64 = 38400;

/// The UART device state.
pub struct Uart {
    /// Ticks seen so far, modulo 2^64.
    pub clock: u64,
    /// Transmit holding register.
    pub thr: u8,
    /// Receive holding register.
    pub rhr: u8,
    /// Interrupt enable register.
    pub ier: u8,
    /// FIFO control register.
    pub fcr: u8,
    /// Interrupt status register.
    pub isr: u8,
    /// Line control register.
    pub lcr: u8,
    /// Modem control register.
    pub mcr: u8,
    /// Line status register.
    pub lsr: u8,
    /// Modem status register.
    pub msr: u8,
    /// Scratchpad register.
    pub spr: u8,
}

/// Whether a byte offset lands in a writable UART register.
pub open spec fn uart_writable(addr: u64) -> bool {
    addr == THR || addr == IER || addr == FCR || addr == LCR || addr == MCR || addr == SPR
}

/// Whether a byte offset lands in a readable UART register.
pub open spec fn uart_readable(addr: u64) -> bool {
    addr == RHR || addr == ISR || addr == LSR || addr == MSR || addr == SPR
}

/// Whether every byte of a `width`-byte write stays in writable registers.
pub open spec fn uart_write_range_ok(addr: u64, width: u64) -> bool {
    forall|i: u64| addr <= i < addr + width ==> uart_writable(i)
}

/// Whether every byte of a `width`-byte read stays in readable registers.
pub open spec fn uart_read_range_ok(addr: u64, width: u64) -> bool {
    forall|i: u64| addr <= i < addr + width ==> uart_readable(i)
}

/// Whether a byte offset lands in a writable UART register.
pub fn uart_writable_check(addr: u64) -> (r: bool)
    ensures
        r == uart_writable(addr),
{
    addr == THR || addr == IER || addr == FCR || addr == LCR || addr == MCR || addr == SPR
}

/// Whether a byte offset lands in a readable UART register.
pub fn uart_readable_check(addr: u64) -> (r: bool)
    ensures
        r == uart_readable(addr),
{
    addr == RHR || addr == ISR || addr == LSR || addr == MSR || addr == SPR
}

/// Whether every byte of a `width`-byte write stays in writable registers.
pub fn uart_write_range_check(addr: u64, width: u64) -> (r: bool)
    requires
        width <= 8,
    ensures
        r == uart_write_range_ok(addr, width),
{
    if width == 0 {
        return true;
    }
    if !uart_writable_check(addr) {
        assert(!uart_write_range_ok(addr, width)) by {
            assert(addr <= addr < addr + width && !uart_writable(addr));
        }
        return false;
    }
    assert(addr <= SPR);
    let mut i: u64 = 1;
    while i < width
        invariant
            uart_writable(addr),
            addr <= SPR,
            width <= 8,
            1 <= i <= width,
            forall|j: u64| addr <= j < addr + i ==> uart_writable(j),
        decreases width - i,
    {
        if !uart_writable_check(addr + i) {
            assert(!uart_write_range_ok(addr, width)) by {
                assert(addr <= addr + i < addr + width && !uart_writable((addr + i) as u64));
            }
            return false;
        }
        i = i + 1;
    }
    true
}

/// Whether every byte of a `width`-byte read stays in readable registers.
pub fn uart_read_range_check(addr: u64, width: u64) -> (r: bool)
    requires
        width <= 8,
    ensures
        r == uart_read_range_ok(addr, width),
{
    if width == 0 {
        return true;
    }
    if !uart_readable_check(addr) {
        assert(!uart_read_range_ok(addr, width)) by {
            assert(addr <= addr < addr + width && !uart_readable(addr));
        }
        return false;
    }
    assert(addr <= SPR);
    let mut i: u64 = 1;
    while i < width
        invariant
            uart_readable(addr),
            addr <= SPR,
            width <= 8,
            1 <= i <= width,
            forall|j: u64| addr <= j < addr + i ==> uart_readable(j),
        decreases width - i,
    {
        if !uart_readable_check(addr + i) {
            assert(!uart_read_range_ok(addr, width)) by {
                assert(addr <= addr + i < addr + width && !uart_readable((addr + i) as u64));
            }
            return false;
        }
        i = i + 1;
    }
    true
}

/// The UART state after one byte is written at an offset.
pub open spec fn uart_store8(u: Uart, addr: u64, data: u8) -> Uart
    recommends
        uart_writable(addr),
{
    if addr == THR {
        Uart { thr: data, lsr: (u.lsr & !LSR_TX_HOLDING_EMPTY) as u8, ..u }
    } else if addr == IER {
        Uart { ier: data, ..u }
    } else if addr == FCR {
        Uart { fcr: data, ..u }
    } else if addr == LCR {
        Uart { lcr: data, ..u }
    } else if addr == MCR {
        Uart { mcr: data, ..u }
    } else {
        Uart { spr: data, ..u }
    }
}

/// The UART state after a half-word write.
pub open spec fn uart_store16(u: Uart, addr: u64, data: u16) -> Uart {
    uart_store8(
        uart_store8(u, addr, (data & 0xFF) as u8),
        (addr + 1) as u64,
        ((data >> 8) & 0xFF) as u8,
    )
}

/// The UART state after a word write.
pub open spec fn uart_store32(u: Uart, addr: u64, data: u32) -> Uart {
    uart_store16(
        uart_store16(u, addr, (data & 0xFFFF) as u16),
        (addr + 2) as u64,
        ((data >> 16) & 0xFFFF) as u16,
    )
}

/// The UART state after a double-word write.
pub open spec fn uart_store64(u: Uart, addr: u64, data: u64) -> Uart {
    uart_store32(
        uart_store32(u, addr, (data & 0xFFFF_FFFF) as u32),
        (addr + 4) as u64,
        ((data >> 32) & 0xFFFF_FFFF) as u32,
    )
}

/// The byte a read at an offset returns.
pub open spec fn uart_read8_val(u: Uart, addr: u64) -> u8
    recommends
        uart_readable(addr),
{
    if addr == RHR {
        u.rhr
    } else if addr == ISR {
        u.isr
    } else if addr == LSR {
        u.lsr
    } else if addr == MSR {
        u.msr
    } else {
        u.spr
    }
}

/// The UART state after a read at an offset: reading RHR consumes the
/// received byte and clears the "RX data ready" bit.
pub open spec fn uart_read8_post(u: Uart, addr: u64) -> Uart
    recommends
        uart_readable(addr),
{
    if addr == RHR {
        Uart { rhr: 0, lsr: (u.lsr & !LSR_RX_DATA_READY) as u8, ..u }
    } else {
        u
    }
}

/// The half-word a two-byte read returns.
pub open spec fn uart_read16_val(u: Uart, addr: u64) -> u16 {
    (uart_read8_val(u, addr) as u16 | (uart_read8_val(
        uart_read8_post(u, addr),
        (addr + 1) as u64,
    ) as u16) << 8) as u16
}

/// The UART state after a two-byte read.
pub open spec fn uart_read16_post(u: Uart, addr: u64) -> Uart {
    uart_read8_post(uart_read8_post(u, addr), (addr + 1) as u64)
}

/// The word a four-byte read returns.
pub open spec fn uart_read32_val(u: Uart, addr: u64) -> u32 {
    (uart_read16_val(u, addr) as u32 | (uart_read16_val(
        uart_read16_post(u, addr),
        (addr + 2) as u64,
    ) as u32) << 16) as u32
}

/// The UART state after a four-byte read.
pub open spec fn uart_read32_post(u: Uart, addr: u64) -> Uart {
    uart_read16_post(uart_read16_post(u, addr), (addr + 2) as u64)
}

/// The double-word an eight-byte read returns.
pub open spec fn uart_read64_val(u: Uart, addr: u64) -> u64 {
    (uart_read32_val(u, addr) as u64 | (uart_read32_val(
        uart_read32_post(u, addr),
        (addr + 4) as u64,
    ) as u64) << 32) as u64
}

/// The UART state after an eight-byte read.
pub open spec fn uart_read64_post(u: Uart, addr: u64) -> Uart {
    uart_read32_post(uart_read32_post(u, addr), (addr + 4) as u64)
}

/// Whether the UART asserts its interrupt line: either the receive
/// interrupt is enabled and a byte is waiting, or the transmit interrupt
/// is enabled.
pub open spec fn uart_interrupting(u: Uart) -> bool {
    (u.ier & IER_RHR_IRQ != 0 && u.rhr != 0) || (u.ier & IER_THR_IRQ != 0)
}

impl Uart {
    /// A fresh UART: transmit holding register empty.
    pub fn new() -> (r: Uart)
        ensures
            r == (Uart {
                clock: 0,
                thr: 0,
                rhr: 0,
                ier: 0,
                fcr: 0,
                isr: 0,
                lcr: 0,
                mcr: 0,
                lsr: LSR_TX_HOLDING_EMPTY,
                msr: 0,
                spr: 0,
            }),
    {
        Uart {
            clock: 0,
            thr: 0,
            rhr: 0,
            ier: 0,
            fcr: 0,
            isr: 0,
            lcr: 0,
            mcr: 0,
            lsr: LSR_TX_HOLDING_EMPTY,
            msr: 0,
            spr: 0,
        }
    }

    /// Write one byte to a UART register.
    pub fn write8(&mut self, addr: u64, data: u8)
        requires
            uart_writable(addr),
        ensures
            *final(self) == uart_store8(*old(self), addr, data),
    {
        if addr == THR {
            self.thr = data;
            self.lsr = self.lsr & !LSR_TX_HOLDING_EMPTY;
        } else if addr == IER {
            self.ier = data;
        } else if addr == FCR {
            self.fcr = data;
        } else if addr == LCR {
            self.lcr = data;
        } else if addr == MCR {
            self.mcr = data;
        } else {
            self.spr = data;
        }
    }

    /// Write a little-endian half-word across two UART registers.
    pub fn write16(&mut self, addr: u64, data: u16)
        requires
            uart_write_range_ok(addr, 2),
        ensures
            *final(self) == uart_store16(*old(self), addr, data),
    {
        assert(uart_writable(addr) && uart_writable((addr + 1) as u64));
        self.write8(addr, (data & 0xFF) as u8);
        self.write8(addr + 1, ((data >> 8) & 0xFF) as u8);
    }

    /// Write a little-endian word across four UART registers.
    pub fn write32(&mut self, addr: u64, data: u32)
        requires
            uart_write_range_ok(addr, 4),
        ensures
            *final(self) == uart_store32(*old(self), addr, data),
    {
        assert(uart_writable(addr));
        assert(uart_write_range_ok(addr, 2) && uart_write_range_ok((addr + 2) as u64, 2));
        self.write16(addr, (data & 0xFFFF) as u16);
        self.write16(addr + 2, ((data >> 16) & 0xFFFF) as u16);
    }

    /// Write a little-endian double-word across eight UART registers.
    /// No eight consecutive offsets are all writable, so the bus never
    /// routes such a write here.
    pub fn write64(&mut self, addr: u64, data: u64)
        requires
            uart_write_range_ok(addr, 8),
        ensures
            *final(self) == uart_store64(*old(self), addr, data),
    {
        assert(uart_writable(addr));
        assert(uart_write_range_ok(addr, 4) && uart_write_range_ok((addr + 4) as u64, 4));
        self.write32(addr, (data & 0xFFFF_FFFF) as u32);
        self.write32(addr + 4, ((data >> 32) & 0xFFFF_FFFF) as u32);
    }

    /// Read one byte from a UART register.
    pub fn read8(&mut self, addr: u64) -> (r: u8)
        requires
            uart_readable(addr),
        ensures
            r == uart_read8_val(*old(self), addr),
            *final(self) == uart_read8_post(*old(self), addr),
    {
        if addr == RHR {
            let rhr = self.rhr;
            self.rhr = 0;
            self.lsr = self.lsr & !LSR_RX_DATA_READY;
            rhr
        } else if addr == ISR {
            self.isr
        } else if addr == LSR {
            self.lsr
        } else if addr == MSR {
            self.msr
        } else {
            self.spr
        }
    }

    /// Read a little-endian half-word across two UART registers.
    pub fn read16(&mut self, addr: u64) -> (r: u16)
        requires
            uart_read_range_ok(addr, 2),
        ensures
            r == uart_read16_val(*old(self), addr),
            *final(self) == uart_read16_post(*old(self), addr),
    {
        assert(uart_readable(addr) && uart_readable((addr + 1) as u64));
        self.read8(addr) as u16 | (self.read8(addr + 1) as u16) << 8
    }

    /// Read a little-endian word across four UART registers. Only the
    /// scratchpad has a readable neighbour above it, so the bus never
    /// routes such a read here.
    pub fn read32(&mut self, addr: u64) -> (r: u32)
        requires
            uart_read_range_ok(addr, 4),
        ensures
            r == uart_read32_val(*old(self), addr),
            *final(self) == uart_read32_post(*old(self), addr),
    {
        assert(uart_readable(addr));
        assert(uart_read_range_ok(addr, 2) && uart_read_range_ok((addr + 2) as u64, 2));
        self.read16(addr) as u32 | (self.read16(addr + 2) as u32) << 16
    }

    /// Read a little-endian double-word across eight UART registers.
    pub fn read64(&mut self, addr: u64) -> (r: u64)
        requires
            uart_read_range_ok(addr, 8),
        ensures
            r == uart_read64_val(*old(self), addr),
            *final(self) == uart_read64_post(*old(self), addr),
    {
        assert(uart_readable(addr));
        assert(uart_read_range_ok(addr, 4) && uart_read_range_ok((addr + 4) as u64, 4));
        self.read32(addr) as u64 | (self.read32(addr + 4) as u64) << 32
    }

    /// One core tick. Every 38400 ticks a staged byte (LSR reports the
    /// holding register not empty) leaves: it is returned for the caller
    /// to put on the console, and LSR reports the holding register empty
    /// again.
    pub fn tick(&mut self) -> (emitted: Option<u8>)
        ensures
            final(self).clock == wadd64(old(self).clock, 1),
            ({
                let fires = wadd64(old(self).clock, 1) % BAUDRATE == 0 && old(self).lsr
                    & LSR_TX_HOLDING_EMPTY == 0;
                if fires {
                    emitted == Some(old(self).thr) && *final(self) == (Uart {
                        clock: wadd64(old(self).clock, 1),
                        thr: 0,
                        lsr: (old(self).lsr | LSR_TX_HOLDING_EMPTY) as u8,
                        ..*old(self)
                    })
                } else {
                    emitted is None && *final(self) == (Uart {
                        clock: wadd64(old(self).clock, 1),
                        ..*old(self)
                    })
                }
            }),
    {
        self.clock = crate::bitops::add_w64(self.clock, 1);

        if self.clock % BAUDRATE == 0 && self.lsr & LSR_TX_HOLDING_EMPTY == 0 {
            let b = self.thr;
            self.thr = 0;
            self.lsr = self.lsr | LSR_TX_HOLDING_EMPTY;
            Some(b)
        } else {
            None
        }
    }

    /// Whether the UART asserts its interrupt line.
    pub fn is_interrupting(&mut self) -> (r: bool)
        ensures
            *final(self) == *old(self),
            r == uart_interrupting(*old(self)),
    {
        if (self.ier & IER_RHR_IRQ) != 0 {
            if self.rhr != 0 {
                return true;
            }
        }

        if (self.ier & IER_THR_IRQ) != 0 {
            return true;
        }

        false
    }
}

} // verus!
