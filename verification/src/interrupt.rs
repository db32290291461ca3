//! Asynchronous interrupts: the interrupt taxonomy, the source numbers of
//! the two external interrupt lines, and delivery through the common trap
//! machinery (delegation, masking by the IE bits, status save).

use vstd::prelude::*;
use crate::cpu::{Cpu, CpuView};
use crate::csr::{PrivLevel, priv_code, csr_read, csr_write, CSR_SIZE, MIDELEG, SIDELEG, MSTATUS,
    SSTATUS, USTATUS, MIE, SIE, UIE, MEPC, MCAUSE, MTVAL, MTVEC, SEPC, SCAUSE, STVAL, STVEC, UEPC,
    UCAUSE, UTVAL, UTVEC, MIP, MIP_USIP, MIP_SSIP, MIP_MSIP, MIP_UTIP, MIP_STIP, MIP_MTIP,
    MIP_UEIP, MIP_SEIP, MIP_MEIP};
use crate::exception::{mstatus_on_trap, sstatus_on_trap, ustatus_on_trap};
use crate::bitops::wadd64;

verus! {

/// External interrupt source numbers latched by the PLIC.
#[derive(Clone, Copy, Debug, PartialEq, Eq, Structural)]
pub enum IrqNumber {
    NONE,
    VIRTIO,
    UART,
}

/// The source number of an external interrupt line.
pub open spec fn irq_source(i: IrqNumber) -> u64 {
    match i {
        IrqNumber::NONE => 0,
        IrqNumber::VIRTIO => 1,
        IrqNumber::UART => 10,
    }
}

/// Executable source number of an external interrupt line.
pub fn irq_source_of(i: IrqNumber) -> (r: u64)
    ensures
        r == irq_source(i),
{
    match i {
        IrqNumber::NONE => 0,
        IrqNumber::VIRTIO => 1,
        IrqNumber::UART => 10,
    }
}

/// An asynchronous interrupt, sampled between instructions. The external
/// variants carry the IRQ source number the PLIC latched.
#[derive(Clone, Copy, Debug, PartialEq, Eq, Structural)]
pub enum Interrupt {
    UserSoftwareIrq,
    SupervisorSoftwareIrq,
    MachineSoftwareIrq,
    UserTimerIrq,
    SupervisorTimerIrq,
    MachineTimerIrq,
    UserExtIrq(u64),
    SupervisorExtIrq(u64),
    MachineExtIrq(u64),
}

/// The cause value of an interrupt: its code with the high (interrupt)
/// bit set.
pub open spec fn interrupt_cause(i: Interrupt) -> u64 {
    let code: u64 = 0x8000_0000_0000_0000;
    match i {
        Interrupt::UserSoftwareIrq => (code + 0) as u64,
        Interrupt::SupervisorSoftwareIrq => (code + 1) as u64,
        Interrupt::MachineSoftwareIrq => (code + 3) as u64,
        Interrupt::UserTimerIrq => (code + 4) as u64,
        Interrupt::SupervisorTimerIrq => (code + 5) as u64,
        Interrupt::MachineTimerIrq => (code + 7) as u64,
        Interrupt::UserExtIrq(_) => (code + 8) as u64,
        Interrupt::SupervisorExtIrq(_) => (code + 9) as u64,
        Interrupt::MachineExtIrq(_) => (code + 11) as u64,
    }
}

/// The interrupt code without the high bit: the bit position consulted in
/// the delegation and enable registers.
pub open spec fn interrupt_code(i: Interrupt) -> u64 {
    (interrupt_cause(i) - 0x8000_0000_0000_0000) as u64
}

/// The IRQ source carried by an external interrupt, zero otherwise; the
/// trap value written for a delivered interrupt.
pub open spec fn interrupt_irq(i: Interrupt) -> u64 {
    match i {
        Interrupt::UserExtIrq(irq) => irq,
        Interrupt::SupervisorExtIrq(irq) => irq,
        Interrupt::MachineExtIrq(irq) => irq,
        _ => 0,
    }
}

/// The pending interrupt the step loop samples from the mip bits:
/// machine before supervisor, and external before software before timer
/// within a level. The external variants carry the latched PLIC source.
pub open spec fn pending_interrupt(mip: u64, irq: u64) -> Option<Interrupt> {
    if mip & MIP_MEIP != 0 {
        Some(Interrupt::MachineExtIrq(irq))
    } else if mip & MIP_MSIP != 0 {
        Some(Interrupt::MachineSoftwareIrq)
    } else if mip & MIP_MTIP != 0 {
        Some(Interrupt::MachineTimerIrq)
    } else if mip & MIP_SEIP != 0 {
        Some(Interrupt::SupervisorExtIrq(irq))
    } else if mip & MIP_SSIP != 0 {
        Some(Interrupt::SupervisorSoftwareIrq)
    } else if mip & MIP_STIP != 0 {
        Some(Interrupt::SupervisorTimerIrq)
    } else {
        None
    }
}

/// Executable sampling of the pending interrupt.
pub fn sample_pending(mip: u64, irq: u64) -> (r: Option<Interrupt>)
    ensures
        r == pending_interrupt(mip, irq),
{
    if mip & MIP_MEIP != 0 {
        Some(Interrupt::MachineExtIrq(irq))
    } else if mip & MIP_MSIP != 0 {
        Some(Interrupt::MachineSoftwareIrq)
    } else if mip & MIP_MTIP != 0 {
        Some(Interrupt::MachineTimerIrq)
    } else if mip & MIP_SEIP != 0 {
        Some(Interrupt::SupervisorExtIrq(irq))
    } else if mip & MIP_SSIP != 0 {
        Some(Interrupt::SupervisorSoftwareIrq)
    } else if mip & MIP_STIP != 0 {
        Some(Interrupt::SupervisorTimerIrq)
    } else {
        None
    }
}

/// The privilege level an interrupt traps to: machine unless the cause
/// bit is set in MIDELEG, then supervisor unless it is also set in
/// SIDELEG, then user.
pub open spec fn interrupt_target(c: Seq<u64>, code: u64) -> PrivLevel
    recommends
        c.len() == CSR_SIZE,
        code < 64,
{
    if (csr_read(c, MIDELEG) >> code) & 1 == 0 {
        PrivLevel::MACHINE
    } else if (csr_read(c, SIDELEG) >> code) & 1 == 0 {
        PrivLevel::SUPERVISOR
    } else {
        PrivLevel::USER
    }
}

/// The pending bit in MIP that a delivered interrupt clears.
pub open spec fn interrupt_mip_mask(i: Interrupt) -> u64 {
    match i {
        Interrupt::UserSoftwareIrq => MIP_USIP,
        Interrupt::SupervisorSoftwareIrq => MIP_SSIP,
        Interrupt::MachineSoftwareIrq => MIP_MSIP,
        Interrupt::UserTimerIrq => MIP_UTIP,
        Interrupt::SupervisorTimerIrq => MIP_STIP,
        Interrupt::MachineTimerIrq => MIP_MTIP,
        Interrupt::UserExtIrq(_) => MIP_UEIP,
        Interrupt::SupervisorExtIrq(_) => MIP_SEIP,
        Interrupt::MachineExtIrq(_) => MIP_MEIP,
    }
}

/// The status register consulted for the interrupt-enable bit of a
/// privilege level, and that bit's position.
pub open spec fn status_ie_bit(c: Seq<u64>, prv: PrivLevel) -> u64
    recommends
        c.len() == CSR_SIZE,
{
    if prv == PrivLevel::MACHINE {
        (csr_read(c, MSTATUS) >> 3) & 1
    } else if prv == PrivLevel::SUPERVISOR {
        (csr_read(c, SSTATUS) >> 1) & 1
    } else {
        csr_read(c, USTATUS) & 1
    }
}

/// The interrupt-enable register of a privilege level.
pub open spec fn ie_reg_of(c: Seq<u64>, prv: PrivLevel) -> u64
    recommends
        c.len() == CSR_SIZE,
{
    if prv == PrivLevel::MACHINE {
        csr_read(c, MIE)
    } else if prv == PrivLevel::SUPERVISOR {
        csr_read(c, SIE)
    } else {
        csr_read(c, UIE)
    }
}

/// Whether an interrupt is delivered: its target privilege must not be
/// below the current one, at an equal level the current status IE bit
/// must be set, and the interrupt's own enable bit must be set in the
/// target level's IE register.
pub open spec fn interrupt_taken(c: Seq<u64>, prv: PrivLevel, i: Interrupt) -> bool
    recommends
        c.len() == CSR_SIZE,
{
    let code = interrupt_code(i);
    let target = interrupt_target(c, code);
    &&& prv != PrivLevel::RESERVED
    &&& priv_code(target) >= priv_code(prv)
    &&& (target == prv ==> status_ie_bit(c, prv) == 1)
    &&& (ie_reg_of(c, target) >> code) & 1 == 1
}

/// The CSR file, privilege level and program counter after an interrupt
/// is delivered from privilege `prv` at program counter `pc`: the trap
/// entry saves pc, cause and the IRQ number, vectors control (adding
/// four times the cause code when the vector register asks for vectored
/// mode), updates the target status register, and clears the pending
/// bit.
pub open spec fn interrupt_entry(c: Seq<u64>, prv: PrivLevel, pc: u64, i: Interrupt) -> (
    Seq<u64>,
    PrivLevel,
    u64,
)
    recommends
        c.len() == CSR_SIZE,
{
    let code = interrupt_code(i);
    let cause = interrupt_cause(i);
    let target = interrupt_target(c, code);
    let epc_addr = if target == PrivLevel::MACHINE {
        MEPC
    } else if target == PrivLevel::SUPERVISOR {
        SEPC
    } else {
        UEPC
    };
    let cause_addr = if target == PrivLevel::MACHINE {
        MCAUSE
    } else if target == PrivLevel::SUPERVISOR {
        SCAUSE
    } else {
        UCAUSE
    };
    let tval_addr = if target == PrivLevel::MACHINE {
        MTVAL
    } else if target == PrivLevel::SUPERVISOR {
        STVAL
    } else {
        UTVAL
    };
    let tvec_addr = if target == PrivLevel::MACHINE {
        MTVEC
    } else if target == PrivLevel::SUPERVISOR {
        STVEC
    } else {
        UTVEC
    };
    let c1 = csr_write(c, epc_addr, pc);
    let c2 = csr_write(c1, cause_addr, cause);
    let c3 = csr_write(c2, tval_addr, interrupt_irq(i));
    let tvec = csr_read(c3, tvec_addr);
    let new_pc = if tvec & 1 == 1 {
        wadd64(tvec & !1u64, (4 * code) as u64)
    } else {
        tvec & !1u64
    };
    let c4 = if target == PrivLevel::MACHINE {
        csr_write(c3, MSTATUS, mstatus_on_trap(csr_read(c3, MSTATUS), prv))
    } else if target == PrivLevel::SUPERVISOR {
        csr_write(c3, SSTATUS, sstatus_on_trap(csr_read(c3, SSTATUS), prv))
    } else {
        csr_write(c3, USTATUS, ustatus_on_trap(csr_read(c3, USTATUS)))
    };
    let c5 = csr_write(c4, MIP, csr_read(c4, MIP) & !interrupt_mip_mask(i));
    (c5, target, new_pc)
}

impl Interrupt {
    /// Executable cause value of an interrupt.
    pub fn exc_code(&self) -> (r: u64)
        ensures
            r == interrupt_cause(*self),
    {
        let code: u64 = 0x8000_0000_0000_0000;
        match self {
            Interrupt::UserSoftwareIrq => code + 0,
            Interrupt::SupervisorSoftwareIrq => code + 1,
            Interrupt::MachineSoftwareIrq => code + 3,
            Interrupt::UserTimerIrq => code + 4,
            Interrupt::SupervisorTimerIrq => code + 5,
            Interrupt::MachineTimerIrq => code + 7,
            Interrupt::UserExtIrq(_) => code + 8,
            Interrupt::SupervisorExtIrq(_) => code + 9,
            Interrupt::MachineExtIrq(_) => code + 11,
        }
    }

    /// Executable IRQ source of an external interrupt, zero otherwise.
    pub fn irq(&self) -> (r: u64)
        ensures
            r == interrupt_irq(*self),
    {
        match self {
            Interrupt::UserExtIrq(irq) => *irq,
            Interrupt::SupervisorExtIrq(irq) => *irq,
            Interrupt::MachineExtIrq(irq) => *irq,
            _ => 0,
        }
    }
}

impl Interrupt {
    /// Deliver this interrupt if the delegation, privilege and enable
    /// checks allow it; otherwise leave the hart unchanged. Returns
    /// whether delivery happened.
    pub fn take_trap(&mut self, cpu: &mut Cpu) -> (delivered: bool)
        requires
            old(cpu).wf(),
        ensures
            final(cpu).wf(),
            *final(self) == *old(self),
            delivered == interrupt_taken(old(cpu)@.csr, old(cpu)@.priv_level, *old(self)),
            ({
                if interrupt_taken(old(cpu)@.csr, old(cpu)@.priv_level, *old(self)) {
                    let e = interrupt_entry(
                        old(cpu)@.csr,
                        old(cpu)@.priv_level,
                        old(cpu)@.pc,
                        *old(self),
                    );
                    final(cpu)@ == (CpuView { csr: e.0, priv_level: e.1, pc: e.2, ..old(cpu)@ })
                } else {
                    final(cpu)@ == old(cpu)@
                }
            }),
    {
        let cur_pc = cpu.pc;
        let cur_priv_level = cpu.csr.priv_level;

        let cause = self.exc_code();
        let code = cause & 0xFF;
        proof {
            let c0 = interrupt_cause(*self);
            let k0 = interrupt_code(*self);
            assert(c0 & 0xFF == k0) by (bit_vector)
                requires
                    c0 == 0x8000_0000_0000_0000u64 + k0,
                    k0 < 16,
            ;
        }

        let mideleg = cpu.csr.read(MIDELEG);
        let sideleg = cpu.csr.read(SIDELEG);

        let new_priv_level = if (mideleg >> code) & 1 == 0 {
            PrivLevel::MACHINE
        } else if (sideleg >> code) & 1 == 0 {
            PrivLevel::SUPERVISOR
        } else {
            PrivLevel::USER
        };

        // An interrupt never downgrades the privilege level, and at an
        // equal level it is masked unless the status IE bit is set.
        let cur_code = crate::csr::priv_encode(cur_priv_level);
        let new_code = crate::csr::priv_encode(new_priv_level);
        if matches!(cur_priv_level, PrivLevel::RESERVED) {
            return false;
        }
        if new_code < cur_code {
            return false;
        }
        if new_code == cur_code {
            let status_ie = match cur_priv_level {
                PrivLevel::MACHINE => (cpu.csr.read(MSTATUS) >> 3) & 1,
                PrivLevel::SUPERVISOR => (cpu.csr.read(SSTATUS) >> 1) & 1,
                _ => cpu.csr.read(USTATUS) & 1,
            };
            if status_ie == 0 {
                return false;
            }
        }

        // The interrupt's own enable bit in the target level's IE
        // register.
        let ie = match new_priv_level {
            PrivLevel::MACHINE => cpu.csr.read(MIE),
            PrivLevel::SUPERVISOR => cpu.csr.read(SIE),
            _ => cpu.csr.read(UIE),
        };
        if (ie >> code) & 1 != 1 {
            return false;
        }

        proof {
            let c = old(cpu)@.csr;
            let prv = old(cpu)@.priv_level;
            let i = *old(self);
            crate::bitops::lemma_u64_and_le(csr_read(c, MSTATUS) >> 3, 1);
            crate::bitops::lemma_u64_and_le(csr_read(c, SSTATUS) >> 1, 1);
            crate::bitops::lemma_u64_and_le(csr_read(c, USTATUS), 1);
            assert(code == interrupt_code(i));
            assert(new_priv_level == interrupt_target(c, interrupt_code(i)));
            assert(prv != PrivLevel::RESERVED);
            assert(priv_code(new_priv_level) >= priv_code(prv));
            assert(new_priv_level == prv ==> status_ie_bit(c, prv) == 1);
            assert((ie_reg_of(c, new_priv_level) >> interrupt_code(i)) & 1 == 1);
            assert(interrupt_taken(c, prv, i));
        }
        self.deliver(cpu);
        true
    }

    /// The delivery itself: save pc, cause and IRQ number, vector
    /// control, update the target status register and clear the pending
    /// bit, as `interrupt_entry` describes.
    fn deliver(&mut self, cpu: &mut Cpu)
        requires
            old(cpu).wf(),
            interrupt_taken(old(cpu)@.csr, old(cpu)@.priv_level, *old(self)),
        ensures
            final(cpu).wf(),
            *final(self) == *old(self),
            ({
                let e = interrupt_entry(
                    old(cpu)@.csr,
                    old(cpu)@.priv_level,
                    old(cpu)@.pc,
                    *old(self),
                );
                final(cpu)@ == (CpuView { csr: e.0, priv_level: e.1, pc: e.2, ..old(cpu)@ })
            }),
    {
        let cur_pc = cpu.pc;
        let cur_priv_level = cpu.csr.priv_level;
        let cause = self.exc_code();
        let code = cause & 0xFF;
        proof {
            let c0 = interrupt_cause(*self);
            let k0 = interrupt_code(*self);
            assert(c0 & 0xFF == k0) by (bit_vector)
                requires
                    c0 == 0x8000_0000_0000_0000u64 + k0,
                    k0 < 16,
            ;
        }
        let mideleg = cpu.csr.read(MIDELEG);
        let sideleg = cpu.csr.read(SIDELEG);
        let new_priv_level = if (mideleg >> code) & 1 == 0 {
            PrivLevel::MACHINE
        } else if (sideleg >> code) & 1 == 0 {
            PrivLevel::SUPERVISOR
        } else {
            PrivLevel::USER
        };

        let epc_addr = match new_priv_level {
            PrivLevel::MACHINE => MEPC,
            PrivLevel::SUPERVISOR => SEPC,
            _ => UEPC,
        };
        let cause_addr = match new_priv_level {
            PrivLevel::MACHINE => MCAUSE,
            PrivLevel::SUPERVISOR => SCAUSE,
            _ => UCAUSE,
        };
        let tval_addr = match new_priv_level {
            PrivLevel::MACHINE => MTVAL,
            PrivLevel::SUPERVISOR => STVAL,
            _ => UTVAL,
        };
        let tvec_addr = match new_priv_level {
            PrivLevel::MACHINE => MTVEC,
            PrivLevel::SUPERVISOR => STVEC,
            _ => UTVEC,
        };

        cpu.csr.write(epc_addr, cur_pc);
        cpu.csr.write(cause_addr, cause);
        let irq = self.irq();
        cpu.csr.write(tval_addr, irq);

        let tvec = cpu.csr.read(tvec_addr);
        if tvec & 1 == 1 {
            cpu.pc = crate::bitops::add_w64(tvec & !1u64, 4 * code);
        } else {
            cpu.pc = tvec & !1u64;
        }

        match new_priv_level {
            PrivLevel::MACHINE => {
                let status = cpu.csr.read(MSTATUS);
                let mie = (status >> 3) & 1;
                let new_status = (status & !0x1888u64) | (mie << 7) | (crate::csr::priv_encode(
                    cur_priv_level,
                ) << 11);
                cpu.csr.write(MSTATUS, new_status);
            },
            PrivLevel::SUPERVISOR => {
                let status = cpu.csr.read(SSTATUS);
                let sie = (status >> 1) & 1;
                let new_status = (status & !0x122u64) | (sie << 5) | ((crate::csr::priv_encode(
                    cur_priv_level,
                ) & 1) << 8);
                cpu.csr.write(SSTATUS, new_status);
            },
            _ => {
                let status = cpu.csr.read(USTATUS);
                let new_status = (status & !0x11u64) | ((status & 1) << 4);
                cpu.csr.write(USTATUS, new_status);
            },
        }

        cpu.csr.priv_level = new_priv_level;

        let mask = match self {
            Interrupt::UserSoftwareIrq => MIP_USIP,
            Interrupt::SupervisorSoftwareIrq => MIP_SSIP,
            Interrupt::MachineSoftwareIrq => MIP_MSIP,
            Interrupt::UserTimerIrq => MIP_UTIP,
            Interrupt::SupervisorTimerIrq => MIP_STIP,
            Interrupt::MachineTimerIrq => MIP_MTIP,
            Interrupt::UserExtIrq(_) => MIP_UEIP,
            Interrupt::SupervisorExtIrq(_) => MIP_SEIP,
            Interrupt::MachineExtIrq(_) => MIP_MEIP,
        };
        let mip = cpu.csr.read(MIP);
        cpu.csr.write(MIP, mip & !mask);
    }
}

} // verus!
