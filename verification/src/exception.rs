//! Synchronous exceptions: the trap taxonomy, delegation routing and the
//! status save performed on trap entry.

use vstd::prelude::*;
use crate::cpu::{Cpu, CpuView};
use crate::csr::{PrivLevel, priv_code, priv_encode, csr_read, csr_write, CSR_SIZE, MEDELEG,
    SEDELEG, MEPC, MCAUSE, MTVAL, MTVEC, MSTATUS, SEPC, SCAUSE, STVAL, STVEC, SSTATUS, UEPC,
    UCAUSE, UTVAL, UTVEC, USTATUS};

verus! {

/// A synchronous exception, raised inline by an operation. The variants
/// for address and paging faults carry the faulting address, which the
/// trap entry writes into the trap-value CSR.
#[derive(Clone, Copy, Debug, PartialEq, Eq, Structural)]
pub enum Exception {
    InstAddrMisalign(u64),
    InstAccessFault(u64),
    IllegalInst,
    Breakpoint,
    LoadAddrMislign(u64),
    LoadAccessFault(u64),
    StoreAddrMisalign(u64),
    StoreAccessFault(u64),
    EnvCallUmode,
    EnvCallSmode,
    EnvCallMmode,
    InstPageFault(u64),
    LoadPageFault(u64),
    StorePageFault(u64),
}

/// The architectural cause code of an exception.
pub open spec fn exception_code(e: Exception) -> u64 {
    match e {
        Exception::InstAddrMisalign(_) => 0,
        Exception::InstAccessFault(_) => 1,
        Exception::IllegalInst => 2,
        Exception::Breakpoint => 3,
        Exception::LoadAddrMislign(_) => 4,
        Exception::LoadAccessFault(_) => 5,
        Exception::StoreAddrMisalign(_) => 6,
        Exception::StoreAccessFault(_) => 7,
        Exception::EnvCallUmode => 8,
        Exception::EnvCallSmode => 9,
        Exception::EnvCallMmode => 11,
        Exception::InstPageFault(_) => 12,
        Exception::LoadPageFault(_) => 13,
        Exception::StorePageFault(_) => 15,
    }
}

/// The trap value an exception writes: the faulting address for address
/// and paging faults, zero otherwise.
pub open spec fn exception_tval(e: Exception) -> u64 {
    match e {
        Exception::InstAddrMisalign(a) => a,
        Exception::InstAccessFault(a) => a,
        Exception::LoadAddrMislign(a) => a,
        Exception::LoadAccessFault(a) => a,
        Exception::StoreAddrMisalign(a) => a,
        Exception::StoreAccessFault(a) => a,
        Exception::InstPageFault(a) => a,
        Exception::LoadPageFault(a) => a,
        Exception::StorePageFault(a) => a,
        _ => 0,
    }
}

/// Whether an exception reports an access to a physically unmapped
/// range. Such an access is unrecoverable: the run ends with a
/// diagnostic instead of entering the trap pipeline.
pub open spec fn is_access_fault(e: Exception) -> bool {
    e is InstAccessFault || e is LoadAccessFault || e is StoreAccessFault
}

/// The privilege level an exception traps to: machine unless the cause
/// bit is set in MEDELEG, then supervisor unless it is also set in
/// SEDELEG, then user.
pub open spec fn exception_target(c: Seq<u64>, code: u64) -> PrivLevel
    recommends
        c.len() == CSR_SIZE,
        code < 64,
{
    if (csr_read(c, MEDELEG) >> code) & 1 == 0 {
        PrivLevel::MACHINE
    } else if (csr_read(c, SEDELEG) >> code) & 1 == 0 {
        PrivLevel::SUPERVISOR
    } else {
        PrivLevel::USER
    }
}

/// The machine status register after trap entry to machine mode: MPIE
/// takes the old MIE, MIE is cleared, and MPP records the privilege the
/// hart came from.
pub open spec fn mstatus_on_trap(s: u64, from: PrivLevel) -> u64 {
    (((s & !0x1888u64) | (((s >> 3) & 1) << 7)) | (priv_code(from) << 11)) as u64
}

/// The supervisor status view after trap entry to supervisor mode: SPIE
/// takes the old SIE, SIE is cleared, and SPP records the low bit of the
/// privilege the hart came from.
pub open spec fn sstatus_on_trap(s: u64, from: PrivLevel) -> u64 {
    (((s & !0x122u64) | (((s >> 1) & 1) << 5)) | ((priv_code(from) & 1) << 8)) as u64
}

/// The user status register after trap entry to user mode: UPIE takes
/// the old UIE and UIE is cleared.
pub open spec fn ustatus_on_trap(s: u64) -> u64 {
    ((s & !0x11u64) | ((s & 1) << 4)) as u64
}

/// The CSR file, privilege level and program counter after an exception
/// is delivered from privilege `prv` at program counter `pc`.
pub open spec fn exception_entry(c: Seq<u64>, prv: PrivLevel, pc: u64, e: Exception) -> (
    Seq<u64>,
    PrivLevel,
    u64,
)
    recommends
        c.len() == CSR_SIZE,
{
    let code = exception_code(e);
    let tval = exception_tval(e);
    let target = exception_target(c, code);
    if target == PrivLevel::MACHINE {
        let c1 = csr_write(c, MEPC, pc);
        let c2 = csr_write(c1, MCAUSE, code);
        let c3 = csr_write(c2, MTVAL, tval);
        let new_pc = csr_read(c3, MTVEC) & !1u64;
        let c4 = csr_write(c3, MSTATUS, mstatus_on_trap(csr_read(c3, MSTATUS), prv));
        (c4, PrivLevel::MACHINE, new_pc)
    } else if target == PrivLevel::SUPERVISOR {
        let c1 = csr_write(c, SEPC, pc);
        let c2 = csr_write(c1, SCAUSE, code);
        let c3 = csr_write(c2, STVAL, tval);
        let new_pc = csr_read(c3, STVEC) & !1u64;
        let c4 = csr_write(c3, SSTATUS, sstatus_on_trap(csr_read(c3, SSTATUS), prv));
        (c4, PrivLevel::SUPERVISOR, new_pc)
    } else {
        let c1 = csr_write(c, UEPC, pc);
        let c2 = csr_write(c1, UCAUSE, code);
        let c3 = csr_write(c2, UTVAL, tval);
        let new_pc = csr_read(c3, UTVEC) & !1u64;
        let c4 = csr_write(c3, USTATUS, ustatus_on_trap(csr_read(c3, USTATUS)));
        (c4, PrivLevel::USER, new_pc)
    }
}

impl Exception {
    /// Executable cause code of an exception.
    pub fn exc_code(&self) -> (r: u64)
        ensures
            r == exception_code(*self),
    {
        match self {
            Exception::InstAddrMisalign(_) => 0,
            Exception::InstAccessFault(_) => 1,
            Exception::IllegalInst => 2,
            Exception::Breakpoint => 3,
            Exception::LoadAddrMislign(_) => 4,
            Exception::LoadAccessFault(_) => 5,
            Exception::StoreAddrMisalign(_) => 6,
            Exception::StoreAccessFault(_) => 7,
            Exception::EnvCallUmode => 8,
            Exception::EnvCallSmode => 9,
            Exception::EnvCallMmode => 11,
            Exception::InstPageFault(_) => 12,
            Exception::LoadPageFault(_) => 13,
            Exception::StorePageFault(_) => 15,
        }
    }

    /// Executable trap value of an exception.
    pub fn trap_value(&self) -> (r: u64)
        ensures
            r == exception_tval(*self),
    {
        match self {
            Exception::InstAddrMisalign(a) => *a,
            Exception::InstAccessFault(a) => *a,
            Exception::LoadAddrMislign(a) => *a,
            Exception::LoadAccessFault(a) => *a,
            Exception::StoreAddrMisalign(a) => *a,
            Exception::StoreAccessFault(a) => *a,
            Exception::InstPageFault(a) => *a,
            Exception::LoadPageFault(a) => *a,
            Exception::StorePageFault(a) => *a,
            _ => 0,
        }
    }
}

impl Exception {
    /// Deliver this exception: route it by the delegation registers,
    /// save the program counter, cause and trap value, update the status
    /// register of the target level, and transfer control to its trap
    /// vector, as `exception_entry` describes.
    pub fn take_trap(&self, cpu: &mut Cpu)
        requires
            old(cpu).wf(),
        ensures
            final(cpu).wf(),
            ({
                let e = exception_entry(
                    old(cpu)@.csr,
                    old(cpu)@.priv_level,
                    old(cpu)@.pc,
                    *self,
                );
                final(cpu)@ == (CpuView { csr: e.0, priv_level: e.1, pc: e.2, ..old(cpu)@ })
            }),
    {
        let cur_priv_level = cpu.csr.priv_level;
        let cur_pc = cpu.pc;
        let cause = self.exc_code();
        let tval = self.trap_value();

        let mdeleg = cpu.csr.read(MEDELEG);
        let sdeleg = cpu.csr.read(SEDELEG);

        if (mdeleg >> cause) & 1 == 0 {
            cpu.csr.write(MEPC, cur_pc);
            cpu.csr.write(MCAUSE, cause);
            cpu.csr.write(MTVAL, tval);
            let tvec = cpu.csr.read(MTVEC);
            cpu.pc = tvec & !1u64;

            let status = cpu.csr.read(MSTATUS);
            let mie = (status >> 3) & 1;
            let new_status = (status & !0x1888u64) | (mie << 7) | (priv_encode(cur_priv_level)
                << 11);
            cpu.csr.write(MSTATUS, new_status);
            cpu.csr.priv_level = PrivLevel::MACHINE;
        } else if (sdeleg >> cause) & 1 == 0 {
            cpu.csr.write(SEPC, cur_pc);
            cpu.csr.write(SCAUSE, cause);
            cpu.csr.write(STVAL, tval);
            let tvec = cpu.csr.read(STVEC);
            cpu.pc = tvec & !1u64;

            let status = cpu.csr.read(SSTATUS);
            let sie = (status >> 1) & 1;
            let new_status = (status & !0x122u64) | (sie << 5) | ((priv_encode(cur_priv_level) & 1)
                << 8);
            cpu.csr.write(SSTATUS, new_status);
            cpu.csr.priv_level = PrivLevel::SUPERVISOR;
        } else {
            cpu.csr.write(UEPC, cur_pc);
            cpu.csr.write(UCAUSE, cause);
            cpu.csr.write(UTVAL, tval);
            let tvec = cpu.csr.read(UTVEC);
            cpu.pc = tvec & !1u64;

            let status = cpu.csr.read(USTATUS);
            let new_status = (status & !0x11u64) | ((status & 1) << 4);
            cpu.csr.write(USTATUS, new_status);
            cpu.csr.priv_level = PrivLevel::USER;
        }
    }
}

} // verus!
