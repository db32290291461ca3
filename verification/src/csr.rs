//! Control-and-status register file: a flat mapping from 12-bit address to
//! 64-bit value, plus the current privilege level of the hart.
//!
//! Bits [11:10] of a CSR address encode write permission; 0b11 means
//! read-only, and writes there are silently discarded. The supervisor-visible
//! status and interrupt registers (`sstatus`, `sie`, `sip`) are views of the
//! machine-level counterparts restricted to the S-legal bits.

use vstd::prelude::*;
use core::ops::Range;

verus! {

/// Maximum number of control and status registers.
pub const CSR_SIZE: usize = 4096;

// User trap setup and handling.
pub const USTATUS: u16 = 0x000;  // User status register.
pub const UIE: u16 = 0x004;  // User interrupt-enable register.
pub const UTVEC: u16 = 0x005;  // User trap handler base address.
pub const USCRATCH: u16 = 0x040;  // Scratch register for user trap handlers.
pub const UEPC: u16 = 0x041;  // User exception program counter.
pub const UCAUSE: u16 = 0x042;  // User trap cause.
pub const UTVAL: u16 = 0x043;  // User bad address or instruction.
pub const UIP: u16 = 0x044;  // User interrupt pending.

// User counters.
pub const CYCLE: u16 = 0xC00;  // Cycle counter for RDCYCLE.
pub const TIME: u16 = 0xC01;  // Timer for RDTIME.
pub const INSTRET: u16 = 0xC02;  // Instructions-retired counter.

// Supervisor trap setup.
pub const SSTATUS: u16 = 0x100;  // Supervisor status register.
pub const SEDELEG: u16 = 0x102;  // Supervisor exception delegation register.
pub const SIDELEG: u16 = 0x103;  // Supervisor interrupt delegation register.
pub const SIE: u16 = 0x104;  // Supervisor interrupt-enable register.
pub const STVEC: u16 = 0x105;  // Supervisor trap handler base address.
pub const SCOUNTEREN: u16 = 0x106;  // Supervisor counter enable.

// Supervisor trap handling.
pub const SSCRATCH: u16 = 0x140;  // Scratch register for supervisor trap handlers.
pub const SEPC: u16 = 0x141;  // Supervisor exception program counter.
pub const SCAUSE: u16 = 0x142;  // Supervisor trap cause.
pub const STVAL: u16 = 0x143;  // Supervisor bad address or instruction.
pub const SIP: u16 = 0x144;  // Supervisor interrupt pending.

// Supervisor protection and translation.
pub const SATP: u16 = 0x180;  // Supervisor address translation and protection.

// Machine information registers.
pub const MVENDORID: u16 = 0xF11;  // Vendor ID.
pub const MARCHID: u16 = 0xF12;  // Architecture ID.
pub const MIMPID: u16 = 0xF13;  // Implementation ID.
pub const MHARTID: u16 = 0xF14;  // Hardware thread ID.

// Machine trap setup.
pub const MSTATUS: u16 = 0x300;  // Machine status register.
pub const MISA: u16 = 0x301;  // ISA and extensions.
pub const MEDELEG: u16 = 0x302;  // Machine exception delegation register.
pub const MIDELEG: u16 = 0x303;  // Machine interrupt delegation register.
pub const MIE: u16 = 0x304;  // Machine interrupt-enable register.
pub const MTVEC: u16 = 0x305;  // Machine trap-handler base address.
pub const MCOUNTEREN: u16 = 0x306;  // Machine counter enable.

// Machine trap handling.
pub const MSCRATCH: u16 = 0x340;  // Scratch register for machine trap handlers.
pub const MEPC: u16 = 0x341;  // Machine exception program counter.
pub const MCAUSE: u16 = 0x342;  // Machine trap cause.
pub const MTVAL: u16 = 0x343;  // Machine bad address or instruction.
pub const MIP: u16 = 0x344;  // Machine interrupt pending.

// Machine memory protection.
pub const PMPCFG0: u16 = 0x3A0;  // Physical memory protection configuration.
pub const PMPADDR0: u16 = 0x3B0;  // Physical memory protection address register.

// Machine counters.
pub const MCYCLE: u16 = 0xB00;  // Machine cycle counter.
pub const MINSTRET: u16 = 0xB02;  // Machine instructions-retired counter.

// Bits of the machine interrupt-pending register.
pub const MIP_USIP: u64 = 0x1;
pub const MIP_SSIP: u64 = 0x2;
pub const MIP_MSIP: u64 = 0x8;
pub const MIP_UTIP: u64 = 0x10;
pub const MIP_STIP: u64 = 0x20;
pub const MIP_MTIP: u64 = 0x80;
pub const MIP_UEIP: u64 = 0x100;
pub const MIP_SEIP: u64 = 0x200;
pub const MIP_MEIP: u64 = 0x800;

/// S-legal bits of the status register: SD, MXR, SUM, XS, FS, SPP, SPIE,
/// UPIE, SIE, UIE.
pub const SSTATUS_MASK: u64 = 0x8000_0000_000D_E133;

/// S-legal bits of the interrupt-enable and interrupt-pending registers:
/// the user and supervisor software, timer and external bits.
pub const SI_MASK: u64 = 0x333;

/// Privilege level of the hart. The numeric encodings used by the status
/// fields are 0 (user), 1 (supervisor), 2 (reserved) and 3 (machine).
#[derive(Clone, Copy, Debug, PartialEq, Eq, Structural)]
pub enum PrivLevel {
    USER,
    SUPERVISOR,
    RESERVED,
    MACHINE,
}

/// The architectural encoding of a privilege level.
pub open spec fn priv_code(p: PrivLevel) -> u64 {
    match p {
        PrivLevel::USER => 0,
        PrivLevel::SUPERVISOR => 1,
        PrivLevel::RESERVED => 2,
        PrivLevel::MACHINE => 3,
    }
}

/// The privilege level a two-bit encoding denotes.
pub open spec fn priv_of_code(c: u64) -> PrivLevel {
    if c == 0 {
        PrivLevel::USER
    } else if c == 1 {
        PrivLevel::SUPERVISOR
    } else if c == 2 {
        PrivLevel::RESERVED
    } else {
        PrivLevel::MACHINE
    }
}

/// Executable encoding of a privilege level.
pub fn priv_encode(p: PrivLevel) -> (r: u64)
    ensures
        r == priv_code(p),
{
    match p {
        PrivLevel::USER => 0,
        PrivLevel::SUPERVISOR => 1,
        PrivLevel::RESERVED => 2,
        PrivLevel::MACHINE => 3,
    }
}

/// Whether writes to this CSR address take effect (address bits [11:10]
/// not equal to 0b11).
pub open spec fn csr_writable(addr: u16) -> bool {
    (addr >> 10) & 0b11 != 0b11
}

/// The mask with the low `n` bits set, for `n <= 64`.
pub open spec fn low_mask64(n: u64) -> u64 {
    if n >= 64 {
        0xFFFF_FFFF_FFFF_FFFFu64
    } else {
        ((1u64 << n) - 1) as u64
    }
}

/// The low-bit masks of the small widths the core uses.
pub proof fn lemma_low_mask64_values()
    ensures
        low_mask64(1) == 1,
        low_mask64(2) == 3,
{
    assert((1u64 << 1u64) - 1 == 1 && (1u64 << 2u64) - 1 == 3) by (bit_vector);
}

/// The trap-related CSR addresses all accept writes (their permission
/// bits [11:10] are not 0b11).
pub proof fn lemma_csr_writable_values()
    ensures
        csr_writable(MSTATUS),
        csr_writable(MEPC),
        csr_writable(MCAUSE),
        csr_writable(MTVAL),
        csr_writable(MTVEC),
        csr_writable(MIE),
        csr_writable(MIP),
        csr_writable(SSTATUS),
        csr_writable(SEPC),
        csr_writable(SCAUSE),
        csr_writable(STVAL),
        csr_writable(STVEC),
        csr_writable(SIE),
        csr_writable(SIP),
        csr_writable(USTATUS),
        csr_writable(UEPC),
        csr_writable(UCAUSE),
        csr_writable(UTVAL),
        csr_writable(UTVEC),
        csr_writable(UIE),
        csr_writable(MEDELEG),
        csr_writable(MIDELEG),
        csr_writable(SEDELEG),
        csr_writable(SIDELEG),
        csr_writable(SATP),
        csr_writable(MSCRATCH),
        csr_writable(SSCRATCH),
{
    assert((0x300u16 >> 10) & 3 != 3 && (0x341u16 >> 10) & 3 != 3 && (0x342u16 >> 10) & 3 != 3
        && (0x343u16 >> 10) & 3 != 3 && (0x305u16 >> 10) & 3 != 3 && (0x304u16 >> 10) & 3 != 3
        && (0x344u16 >> 10) & 3 != 3 && (0x100u16 >> 10) & 3 != 3 && (0x141u16 >> 10) & 3 != 3
        && (0x142u16 >> 10) & 3 != 3 && (0x143u16 >> 10) & 3 != 3 && (0x105u16 >> 10) & 3 != 3
        && (0x104u16 >> 10) & 3 != 3 && (0x144u16 >> 10) & 3 != 3 && (0x000u16 >> 10) & 3 != 3
        && (0x041u16 >> 10) & 3 != 3 && (0x042u16 >> 10) & 3 != 3 && (0x043u16 >> 10) & 3 != 3
        && (0x005u16 >> 10) & 3 != 3 && (0x004u16 >> 10) & 3 != 3 && (0x302u16 >> 10) & 3 != 3
        && (0x303u16 >> 10) & 3 != 3 && (0x102u16 >> 10) & 3 != 3 && (0x103u16 >> 10) & 3 != 3
        && (0x180u16 >> 10) & 3 != 3 && (0x340u16 >> 10) & 3 != 3 && (0x140u16 >> 10) & 3 != 3)
        by (bit_vector);
}

/// The value read at a CSR address, given the raw backing array:
/// the supervisor status and interrupt registers read as masked views of
/// their machine counterparts.
pub open spec fn csr_read(s: Seq<u64>, addr: u16) -> u64
    recommends
        s.len() == CSR_SIZE,
        addr < CSR_SIZE,
{
    if addr == SSTATUS {
        s[MSTATUS as int] & SSTATUS_MASK
    } else if addr == SIE {
        s[MIE as int] & SI_MASK
    } else if addr == SIP {
        s[MIP as int] & SI_MASK
    } else {
        s[addr as int]
    }
}

/// The backing array after a write to a CSR address: writes to read-only
/// addresses are discarded, and writes to the supervisor status and
/// interrupt registers update only the S-legal bits of the machine
/// counterparts.
pub open spec fn csr_write(s: Seq<u64>, addr: u16, data: u64) -> Seq<u64>
    recommends
        s.len() == CSR_SIZE,
        addr < CSR_SIZE,
{
    if !csr_writable(addr) {
        s
    } else if addr == SSTATUS {
        s.update(MSTATUS as int, (s[MSTATUS as int] & !SSTATUS_MASK) | (data & SSTATUS_MASK))
    } else if addr == SIE {
        s.update(MIE as int, (s[MIE as int] & !SI_MASK) | (data & SI_MASK))
    } else if addr == SIP {
        s.update(MIP as int, (s[MIP as int] & !SI_MASK) | (data & SI_MASK))
    } else {
        s.update(addr as int, data)
    }
}

/// The bits `[range.start, range.end)` of `v`, shifted down to bit zero.
pub open spec fn bits_read(v: u64, lo: u64, hi: u64) -> u64
    recommends
        lo < 64,
        lo <= hi <= 64,
{
    (v >> lo) & low_mask64((hi - lo) as u64)
}

/// `v` with the bits `[lo, hi)` replaced by the low bits of `data`.
pub open spec fn bits_write(v: u64, lo: u64, hi: u64, data: u64) -> u64
    recommends
        lo < 64,
        lo <= hi <= 64,
{
    (v & !(low_mask64((hi - lo) as u64) << lo)) | ((data & low_mask64((hi - lo) as u64)) << lo)
}

/// The control-and-status register file of a single hart.
pub struct Csr {
    /// The backing array, one 64-bit value per 12-bit address.
    pub csr: Vec<u64>,
    /// The current privilege level of the hart.
    pub priv_level: PrivLevel,
}

impl View for Csr {
    type V = Seq<u64>;

    open spec fn view(&self) -> Seq<u64> {
        self.csr@
    }
}

impl Csr {
    /// The backing array always holds one value per CSR address.
    pub open spec fn wf(&self) -> bool {
        self@.len() == CSR_SIZE
    }

    /// A fresh register file: every CSR zero, privilege level machine.
    pub fn new() -> (r: Csr)
        ensures
            r.wf(),
            r@ == Seq::new(CSR_SIZE as nat, |i: int| 0u64),
            r.priv_level == PrivLevel::MACHINE,
    {
        let csr: Vec<u64> = vec![0u64; CSR_SIZE];
        proof {
            assert(csr@ =~= Seq::new(CSR_SIZE as nat, |i: int| 0u64));
        }
        Csr { csr, priv_level: PrivLevel::MACHINE }
    }

    /// Write a whole CSR; discarded for read-only addresses.
    pub fn write(&mut self, csr: u16, data: u64)
        requires
            old(self).wf(),
            csr < CSR_SIZE,
        ensures
            final(self).wf(),
            final(self)@ == csr_write(old(self)@, csr, data),
            final(self).priv_level == old(self).priv_level,
    {
        if (csr & 0xC00) >> 10 == 0b11 {
            proof {
                assert(((csr & 0xC00) >> 10 == 0b11) == ((csr >> 10) & 0b11 == 0b11))
                    by (bit_vector);
            }
        } else {
            proof {
                assert(((csr & 0xC00) >> 10 == 0b11) == ((csr >> 10) & 0b11 == 0b11))
                    by (bit_vector);
            }
            if csr == SSTATUS {
                let m = self.csr[MSTATUS as usize];
                self.csr.set(MSTATUS as usize, (m & !SSTATUS_MASK) | (data & SSTATUS_MASK));
            } else if csr == SIE {
                let m = self.csr[MIE as usize];
                self.csr.set(MIE as usize, (m & !SI_MASK) | (data & SI_MASK));
            } else if csr == SIP {
                let m = self.csr[MIP as usize];
                self.csr.set(MIP as usize, (m & !SI_MASK) | (data & SI_MASK));
            } else {
                self.csr.set(csr as usize, data);
            }
        }
    }

    /// Read a whole CSR.
    pub fn read(&self, csr: u16) -> (r: u64)
        requires
            self.wf(),
            csr < CSR_SIZE,
        ensures
            r == csr_read(self@, csr),
    {
        if csr == SSTATUS {
            self.csr[MSTATUS as usize] & SSTATUS_MASK
        } else if csr == SIE {
            self.csr[MIE as usize] & SI_MASK
        } else if csr == SIP {
            self.csr[MIP as usize] & SI_MASK
        } else {
            self.csr[csr as usize]
        }
    }

    /// Read a single bit of a CSR.
    pub fn read_bit(&self, csr: u16, bit: u64) -> (r: bool)
        requires
            self.wf(),
            csr < CSR_SIZE,
            bit < 64,
        ensures
            r == ((csr_read(self@, csr) >> bit) & 1 == 1),
    {
        (self.read(csr) >> bit) & 1 == 1
    }

    /// Write a single bit of a CSR; discarded for read-only addresses.
    pub fn write_bit(&mut self, csr: u16, bit: u64, val: bool)
        requires
            old(self).wf(),
            csr < CSR_SIZE,
            bit < 64,
        ensures
            final(self).wf(),
            final(self).priv_level == old(self).priv_level,
            final(self)@ == csr_write(
                old(self)@,
                csr,
                if val {
                    csr_read(old(self)@, csr) | (1u64 << bit)
                } else {
                    csr_read(old(self)@, csr) & !(1u64 << bit)
                },
            ),
    {
        let v = self.read(csr);
        if val {
            self.write(csr, v | (1u64 << bit));
        } else {
            self.write(csr, v & !(1u64 << bit));
        }
    }

    /// Read a contiguous bit range `[range.start, range.end)` of a CSR.
    pub fn read_bits(&self, csr: u16, range: Range<u64>) -> (r: u64)
        requires
            self.wf(),
            csr < CSR_SIZE,
            range.start < 64,
            range.start <= range.end <= 64,
        ensures
            r == bits_read(csr_read(self@, csr), range.start, range.end),
    {
        let v = self.read(csr);
        let width = range.end - range.start;
        if width == 64 {
            proof {
                crate::bitops::lemma_u64_identity(v);
            }
            v
        } else {
            proof {
                crate::bitops::lemma_u64_shl1_pos(width);
            }
            (v >> range.start) & ((1u64 << width) - 1)
        }
    }

    /// Replace a contiguous bit range `[range.start, range.end)` of a CSR
    /// with the low bits of `data`; discarded for read-only addresses.
    pub fn write_bits(&mut self, csr: u16, range: Range<u64>, data: u64)
        requires
            old(self).wf(),
            csr < CSR_SIZE,
            range.start < 64,
            range.start <= range.end <= 64,
        ensures
            final(self).wf(),
            final(self).priv_level == old(self).priv_level,
            final(self)@ == csr_write(
                old(self)@,
                csr,
                bits_write(csr_read(old(self)@, csr), range.start, range.end, data),
            ),
    {
        let v = self.read(csr);
        let width = range.end - range.start;
        let mask: u64 = if width == 64 {
            0xFFFF_FFFF_FFFF_FFFF
        } else {
            proof {
                crate::bitops::lemma_u64_shl1_pos(width);
            }
            (1u64 << width) - 1
        };
        let next = (v & !(mask << range.start)) | ((data & mask) << range.start);
        self.write(csr, next);
    }

    /// Set the privilege level from its two-bit encoding.
    pub fn set_priv_level(&mut self, code: u8)
        requires
            old(self).wf(),
            code < 4,
        ensures
            final(self).wf(),
            final(self)@ == old(self)@,
            final(self).priv_level == priv_of_code(code as u64),
    {
        self.priv_level = if code == 0 {
            PrivLevel::USER
        } else if code == 1 {
            PrivLevel::SUPERVISOR
        } else if code == 2 {
            PrivLevel::RESERVED
        } else {
            PrivLevel::MACHINE
        };
    }
}

} // verus!
