//! The hart: the general register file, the program counter, the RV64IMA
//! decoder and instruction semantics, and the run-loop state.

use vstd::prelude::*;
use crate::bitops::{sext8, sext16, sext32, sext12, sext13, sext21, as_int64, lo32, wadd64, wsub64,
    pow32, pow64};
use crate::bus::{BusView, DRAM_BASE, DRAM_TOP};
use crate::csr::{Csr, PrivLevel, priv_code, priv_of_code, csr_read, csr_write, bits_write,
    CSR_SIZE, MSTATUS, SSTATUS, MEPC, SEPC, MIP};
use crate::exception::Exception;
use crate::interrupt::{Interrupt, pending_interrupt, sample_pending, interrupt_taken,
    interrupt_entry, irq_source, irq_source_of};
use crate::mmu::{Mmu, Access, mmu_read_spec, mmu_write_spec, mmu_fetch_spec};

verus! {

broadcast use vstd::string::to_string_from_display_ensures_for_str;

/// Number of general registers.
pub const NREGISTERS: usize = 32;

/// The initial program counter: the DRAM base.
pub const INIT_PC: u64 = DRAM_BASE;

/// General registers, under the standardized names of the RISC-V
/// application binary interface.
#[derive(Clone, Copy, Debug)]
pub enum Registers {
    ZERO,  // x0:  hardwired to 0, ignores writes
    RA,  // x1:  return address for jumps
    SP,  // x2:  stack pointer
    GP,  // x3:  global pointer
    TP,  // x4:  thread pointer
    T0,  // x5:  temporary register 0
    T1,  // x6:  temporary register 1
    T2,  // x7:  temporary register 2
    S0,  // x8:  saved register or frame pointer
    S1,  // x9:  saved register 1
    A0,  // x10: return value or function argument 0
    A1,  // x11: return value or function argument 1
    A2,  // x12: function argument 2
    A3,  // x13: function argument 3
    A4,  // x14: function argument 4
    A5,  // x15: function argument 5
    A6,  // x16: function argument 6
    A7,  // x17: function argument 7
    S2,  // x18: saved register 2
    S3,  // x19: saved register 3
    S4,  // x20: saved register 4
    S5,  // x21: saved register 5
    S6,  // x22: saved register 6
    S7,  // x23: saved register 7
    S8,  // x24: saved register 8
    S9,  // x25: saved register 9
    S10,  // x26: saved register 10
    S11,  // x27: saved register 11
    T3,  // x28: temporary register 3
    T4,  // x29: temporary register 4
    T5,  // x30: temporary register 5
    T6,  // x31: temporary register 6
    PC,  // Program counter
}

// ---------------------------------------------------------------------
// The step loop's decisions: watchpoints, interrupt sampling, and the
// composition of one whole step.
// ---------------------------------------------------------------------

/// The register-file index a watchpoint name denotes (32 stands for the
/// program counter).
pub open spec fn spec_reg_index(r: Registers) -> u64 {
    match r {
        Registers::ZERO => 0,
        Registers::RA => 1,
        Registers::SP => 2,
        Registers::GP => 3,
        Registers::TP => 4,
        Registers::T0 => 5,
        Registers::T1 => 6,
        Registers::T2 => 7,
        Registers::S0 => 8,
        Registers::S1 => 9,
        Registers::A0 => 10,
        Registers::A1 => 11,
        Registers::A2 => 12,
        Registers::A3 => 13,
        Registers::A4 => 14,
        Registers::A5 => 15,
        Registers::A6 => 16,
        Registers::A7 => 17,
        Registers::S2 => 18,
        Registers::S3 => 19,
        Registers::S4 => 20,
        Registers::S5 => 21,
        Registers::S6 => 22,
        Registers::S7 => 23,
        Registers::S8 => 24,
        Registers::S9 => 25,
        Registers::S10 => 26,
        Registers::S11 => 27,
        Registers::T3 => 28,
        Registers::T4 => 29,
        Registers::T5 => 30,
        Registers::T6 => 31,
        Registers::PC => 32,
    }
}

/// Executable register-file index of a watchpoint name.
pub fn reg_index(r: Registers) -> (i: u64)
    ensures
        i == spec_reg_index(r),
        !(r is PC) ==> i < 32,
{
    match r {
        Registers::ZERO => 0,
        Registers::RA => 1,
        Registers::SP => 2,
        Registers::GP => 3,
        Registers::TP => 4,
        Registers::T0 => 5,
        Registers::T1 => 6,
        Registers::T2 => 7,
        Registers::S0 => 8,
        Registers::S1 => 9,
        Registers::A0 => 10,
        Registers::A1 => 11,
        Registers::A2 => 12,
        Registers::A3 => 13,
        Registers::A4 => 14,
        Registers::A5 => 15,
        Registers::A6 => 16,
        Registers::A7 => 17,
        Registers::S2 => 18,
        Registers::S3 => 19,
        Registers::S4 => 20,
        Registers::S5 => 21,
        Registers::S6 => 22,
        Registers::S7 => 23,
        Registers::S8 => 24,
        Registers::S9 => 25,
        Registers::S10 => 26,
        Registers::S11 => 27,
        Registers::T3 => 28,
        Registers::T4 => 29,
        Registers::T5 => 30,
        Registers::T6 => 31,
        Registers::PC => 32,
    }
}

/// Whether the watchpoint hits in the viewed state: the named register,
/// or the untranslated program counter, equals the watched value.
pub open spec fn watch_hit(c: CpuView) -> bool
    recommends
        c.register.len() == 32,
{
    if c.watchpoint.0 is PC {
        c.pc == c.watchpoint.1
    } else {
        c.register[spec_reg_index(c.watchpoint.0) as int] == c.watchpoint.1
    }
}

/// What one step of the run loop reports to its caller.
#[derive(Clone, Copy, Debug, PartialEq, Eq, Structural)]
pub enum StepOutcome {
    /// The step completed; keep running.
    Continue,
    /// The watchpoint with the exit action hit; the run is over.
    WatchHit,
    /// The guest jumped to address zero: a graceful end of the run.
    Halted,
    /// The decoder met an instruction it cannot classify.
    Fatal,
    /// The guest touched a physically unmapped address; the carried
    /// exception holds the faulting address for the diagnostic.
    AccessFault(Exception),
}

/// The hart state after a synchronous exception is delivered.
pub open spec fn with_exception_trap(c: CpuView, e: Exception) -> CpuView {
    let x = crate::exception::exception_entry(c.csr, c.priv_level, c.pc, e);
    CpuView { csr: x.0, priv_level: x.1, pc: x.2, ..c }
}

/// The front phase of a step: tick the peripherals and fold the
/// pending bits into mip, then sample one pending interrupt (highest
/// level first) and let delivery, if the delegation and enable checks
/// allow it, redirect control to the handler.
pub open spec fn step_front_spec(c: CpuView) -> (CpuView, Option<u8>) {
    let t = crate::bus::bus_tick_spec(c.bus, csr_read(c.csr, MIP));
    let emitted = t.2;
    let c1 = CpuView { bus: t.0, csr: csr_write(c.csr, MIP, t.1), ..c };
    let pending = csr_read(c1.csr, MIP);
    let irq = match t.0.plic_irq {
        Some(n) => irq_source(n),
        None => 0,
    };
    let c2 = match pending_interrupt(pending, irq) {
        None => c1,
        Some(i) => {
            if interrupt_taken(c1.csr, c1.priv_level, i) {
                let x = interrupt_entry(c1.csr, c1.priv_level, c1.pc, i);
                CpuView { csr: x.0, priv_level: x.1, pc: x.2, ..c1 }
            } else {
                c1
            }
        },
    };
    (c2, emitted)
}

/// The fetch-execute-advance phase of a step, after the peripherals
/// ticked and a pending interrupt was sampled.
pub open spec fn step_back_spec(c2: CpuView, emitted: Option<u8>) -> (
    CpuView,
    Option<u8>,
    StepOutcome,
) {
    let f = fetch_spec(c2);
    match f.0 {
        Err(e) => {
            if crate::exception::is_access_fault(e) {
                (f.1, emitted, StepOutcome::AccessFault(e))
            } else {
                (with_exception_trap(f.1, e), emitted, StepOutcome::Continue)
            }
        },
        Ok(_) => {
            let c3 = f.1;
            let hit = watch_hit(c3);
            if hit && c3.watchpoint.2 is EXIT {
                (c3, emitted, StepOutcome::WatchHit)
            } else {
                let c4 = if hit {
                    CpuView { step: true, debug: true, ..c3 }
                } else {
                    c3
                };
                let x = execute_spec(c4);
                match x.0 {
                    Err(e) => {
                        if crate::exception::is_access_fault(e) {
                            (x.1, emitted, StepOutcome::AccessFault(e))
                        } else {
                            (with_exception_trap(x.1, e), emitted, StepOutcome::Continue)
                        }
                    },
                    Ok(_) => {
                        let c5 = x.1;
                        if c5.halted {
                            (c5, emitted, StepOutcome::Halted)
                        } else if c5.fatal {
                            (c5, emitted, StepOutcome::Fatal)
                        } else {
                            (
                                CpuView { pc: wadd64(c5.pc, 4), ..c5 },
                                emitted,
                                StepOutcome::Continue,
                            )
                        }
                    },
                }
            }
        },
    }
}

/// One whole step of the run loop, from the viewed state: tick the
/// peripherals, sample and possibly deliver one pending interrupt,
/// fetch, check the watchpoint on the untranslated counter, execute,
/// and advance the counter past the executed instruction. A faulting
/// fetch or execution goes through the trap pipeline and ends the step.
/// Returns the next state, the byte the UART emitted, and the outcome.
pub open spec fn step_spec(c: CpuView) -> (CpuView, Option<u8>, StepOutcome) {
    let fr = step_front_spec(c);
    step_back_spec(fr.0, fr.1)
}

/// One whole step of the run loop, as `step_spec` describes. The caller
/// puts the emitted byte, if any, on the console and acts on the
/// outcome; a watchpoint with the stop action has already switched the
/// hart into single-step, debug-logging mode.
/// The front phase of a step: tick the peripherals and sample one
/// pending interrupt, as `step_front_spec` describes.
fn step_front(cpu: &mut Cpu) -> (r: Option<u8>)
    requires
        old(cpu).wf(),
    ensures
        final(cpu).wf(),
        (final(cpu)@, r) == step_front_spec(old(cpu)@),
{
    let mut mip = cpu.csr.read(MIP);
    let emitted = cpu.mmu.tick(&mut mip);
    cpu.csr.write(MIP, mip);

    let pending = cpu.csr.read(MIP);
    let irq = match cpu.mmu.get_irqno() {
        Some(n) => irq_source_of(n),
        None => 0,
    };
    match sample_pending(pending, irq) {
        Some(mut i) => {
            let _ = i.take_trap(cpu);
        },
        None => {},
    }
    emitted
}

/// One whole step of the run loop, as `step_spec` describes. The caller
/// puts the emitted byte, if any, on the console and acts on the
/// outcome; a watchpoint with the stop action has already switched the
/// hart into single-step, debug-logging mode.
#[verifier::rlimit(100)]
pub fn step(cpu: &mut Cpu) -> (r: (Option<u8>, StepOutcome))
    requires
        old(cpu).wf(),
    ensures
        final(cpu).wf(),
        (final(cpu)@, r.0, r.1) == step_spec(old(cpu)@),
{
    // (1) and (2): tick the peripherals, then sample one pending
    // interrupt; delivery may redirect the fetch below into the handler.
    let emitted = step_front(cpu);

    // (3) fetch; a faulting fetch traps and ends the step, so the
    //     handler is fetched next. An unmapped physical address is
    //     unrecoverable and ends the run.
    match cpu.fetch() {
        Ok(_) => {},
        Err(e) => {
            if matches!(
                e,
                Exception::InstAccessFault(_) | Exception::LoadAccessFault(_)
                    | Exception::StoreAccessFault(_),
            ) {
                return (emitted, StepOutcome::AccessFault(e));
            }
            e.take_trap(cpu);
            return (emitted, StepOutcome::Continue);
        },
    }

    // The watchpoint, on the untranslated counter.
    if cpu.watch_hit_now() {
        match cpu.watchpoint.2 {
            WatchExec::EXIT => {
                return (emitted, StepOutcome::WatchHit);
            },
            WatchExec::STOP => {
                cpu.step = true;
                cpu.debug = true;
            },
        }
    }

    // (4) execute; an exception traps and ends the step, but an
    //     unmapped physical address ends the run.
    match cpu.execute() {
        Ok(_) => {},
        Err(e) => {
            if matches!(
                e,
                Exception::InstAccessFault(_) | Exception::LoadAccessFault(_)
                    | Exception::StoreAccessFault(_),
            ) {
                return (emitted, StepOutcome::AccessFault(e));
            }
            e.take_trap(cpu);
            return (emitted, StepOutcome::Continue);
        },
    }
    if cpu.halted {
        return (emitted, StepOutcome::Halted);
    }
    if cpu.fatal {
        return (emitted, StepOutcome::Fatal);
    }

    // (5) advance past the executed instruction.
    cpu.pc = crate::bitops::add_w64(cpu.pc, 4);
    (emitted, StepOutcome::Continue)
}

/// The ABI name of a register index.
pub open spec fn spec_reg_name(index: u8) -> Seq<char> {
    if index == 0 {
        "ZERO"@
    } else if index == 1 {
        "RA"@
    } else if index == 2 {
        "SP"@
    } else if index == 3 {
        "GP"@
    } else if index == 4 {
        "TP"@
    } else if index == 5 {
        "T0"@
    } else if index == 6 {
        "T1"@
    } else if index == 7 {
        "T2"@
    } else if index == 8 {
        "S0/FP"@
    } else if index == 9 {
        "S1"@
    } else if index == 10 {
        "A0"@
    } else if index == 11 {
        "A1"@
    } else if index == 12 {
        "A2"@
    } else if index == 13 {
        "A3"@
    } else if index == 14 {
        "A4"@
    } else if index == 15 {
        "A5"@
    } else if index == 16 {
        "A6"@
    } else if index == 17 {
        "A7"@
    } else if index == 18 {
        "S2"@
    } else if index == 19 {
        "S3"@
    } else if index == 20 {
        "S4"@
    } else if index == 21 {
        "S5"@
    } else if index == 22 {
        "S6"@
    } else if index == 23 {
        "S7"@
    } else if index == 24 {
        "S8"@
    } else if index == 25 {
        "S9"@
    } else if index == 26 {
        "S10"@
    } else if index == 27 {
        "S11"@
    } else if index == 28 {
        "T3"@
    } else if index == 29 {
        "T4"@
    } else if index == 30 {
        "T5"@
    } else if index == 31 {
        "T6"@
    } else {
        "unknown"@
    }
}

/// The ABI name of a register index.
pub fn reg_name(index: u8) -> (r: String)
    ensures
        r@ == spec_reg_name(index),
{
    match index {
        0 => "ZERO".to_string(),
        1 => "RA".to_string(),
        2 => "SP".to_string(),
        3 => "GP".to_string(),
        4 => "TP".to_string(),
        5 => "T0".to_string(),
        6 => "T1".to_string(),
        7 => "T2".to_string(),
        8 => "S0/FP".to_string(),
        9 => "S1".to_string(),
        10 => "A0".to_string(),
        11 => "A1".to_string(),
        12 => "A2".to_string(),
        13 => "A3".to_string(),
        14 => "A4".to_string(),
        15 => "A5".to_string(),
        16 => "A6".to_string(),
        17 => "A7".to_string(),
        18 => "S2".to_string(),
        19 => "S3".to_string(),
        20 => "S4".to_string(),
        21 => "S5".to_string(),
        22 => "S6".to_string(),
        23 => "S7".to_string(),
        24 => "S8".to_string(),
        25 => "S9".to_string(),
        26 => "S10".to_string(),
        27 => "S11".to_string(),
        28 => "T3".to_string(),
        29 => "T4".to_string(),
        30 => "T5".to_string(),
        31 => "T6".to_string(),
        _ => "unknown".to_string(),
    }
}

/// The register file after a write: index zero is hardwired to zero and
/// discards the write.
pub open spec fn xreg_write(s: Seq<u64>, index: u64, data: u64) -> Seq<u64>
    recommends
        s.len() == 32,
        index < 32,
{
    if index == 0 {
        s
    } else {
        s.update(index as int, data)
    }
}

/// The general register file: 32 64-bit registers, index 0 hardwired to
/// zero.
pub struct XRegisters {
    register: Vec<u64>,
}

impl View for XRegisters {
    type V = Seq<u64>;

    closed spec fn view(&self) -> Seq<u64> {
        self.register@
    }
}

impl XRegisters {
    /// The file holds 32 registers and register zero reads zero.
    pub open spec fn wf(&self) -> bool {
        self@.len() == 32 && self@[0] == 0
    }

    /// A fresh register file: all zero but for the stack pointer, which
    /// starts at the top of DRAM.
    pub fn new() -> (r: XRegisters)
        ensures
            r.wf(),
            r@ == Seq::new(32, |i: int| if i == 2 { DRAM_TOP } else { 0u64 }),
    {
        let mut register: Vec<u64> = vec![0u64; 32];
        register.set(2, DRAM_TOP);
        proof {
            assert(register@ =~= Seq::new(
                32,
                |i: int|
                    if i == 2 {
                        DRAM_TOP
                    } else {
                        0u64
                    },
            ));
        }
        XRegisters { register }
    }

    /// Write a register; writes to register zero are discarded.
    pub fn write(&mut self, index: usize, data: u64)
        requires
            old(self).wf(),
            index < 32,
        ensures
            final(self).wf(),
            final(self)@ == xreg_write(old(self)@, index as u64, data),
    {
        if index == 0 {
            return ;
        }
        self.register.set(index, data);
    }

    /// Read a register.
    pub fn read(&self, index: usize) -> (r: u64)
        requires
            self.wf(),
            index < 32,
        ensures
            r == self@[index as int],
    {
        self.register[index]
    }
}

/// What hitting a watchpoint does: end the run, or drop into
/// single-stepping.
#[derive(Clone, Copy, Debug)]
pub enum WatchExec {
    EXIT,
    STOP,
}

// ---------------------------------------------------------------------
// Instruction fields and immediates.
// ---------------------------------------------------------------------

/// The 7-bit opcode.
pub open spec fn opcode_of(i: u32) -> u32 {
    i & 0x7F
}

/// The destination register field.
pub open spec fn rd_of(i: u32) -> u64 {
    ((i >> 7) & 0x1F) as u64
}

/// The first source register field.
pub open spec fn rs1_of(i: u32) -> u64 {
    ((i >> 15) & 0x1F) as u64
}

/// The second source register field.
pub open spec fn rs2_of(i: u32) -> u64 {
    ((i >> 20) & 0x1F) as u64
}

/// The funct3 field.
pub open spec fn funct3_of(i: u32) -> u32 {
    (i >> 12) & 0x7
}

/// The funct7 field.
pub open spec fn funct7_of(i: u32) -> u32 {
    (i >> 25) & 0x7F
}

/// The funct12 field.
pub open spec fn funct12_of(i: u32) -> u32 {
    (i >> 20) & 0xFFF
}

/// The 6-bit shift amount of the shift-immediate instructions.
pub open spec fn shamt_of(i: u32) -> u64 {
    ((i >> 20) & 0x3F) as u64
}

/// The I-type immediate, sign-extended to 64 bits.
pub open spec fn imm_i_of(i: u32) -> u64 {
    sext12(((i >> 20) & 0xFFF) as u64)
}

/// The S-type immediate, sign-extended to 64 bits.
pub open spec fn imm_s_of(i: u32) -> u64 {
    sext12(((((i >> 25) & 0x7F) << 5) | ((i >> 7) & 0x1F)) as u64)
}

/// The B-type immediate, sign-extended to 64 bits.
pub open spec fn imm_b_of(i: u32) -> u64 {
    sext13(((((i >> 31) & 1) << 12) | (((i >> 7) & 1) << 11) | (((i >> 25) & 0x3F) << 5) | (((i
        >> 8) & 0xF) << 1)) as u64)
}

/// The J-type immediate, sign-extended to 64 bits.
pub open spec fn imm_j_of(i: u32) -> u64 {
    sext21(((((i >> 31) & 1) << 20) | (((i >> 12) & 0xFF) << 12) | (((i >> 20) & 1) << 11) | (((i
        >> 21) & 0x3FF) << 1)) as u64)
}

/// The U-type immediate, sign-extended to 64 bits.
pub open spec fn imm_u_of(i: u32) -> u64 {
    sext32(i & 0xFFFF_F000)
}

// ---------------------------------------------------------------------
// Arithmetic of the RV64IM instruction set, on 64-bit register values.
// ---------------------------------------------------------------------

/// Addition modulo 2^32.
pub open spec fn wadd32(a: u32, b: u32) -> u32 {
    if a + b < pow32() {
        (a + b) as u32
    } else {
        (a + b - pow32()) as u32
    }
}

/// Subtraction modulo 2^32.
pub open spec fn wsub32(a: u32, b: u32) -> u32 {
    if a >= b {
        (a - b) as u32
    } else {
        (a - b + pow32()) as u32
    }
}

/// Logical shift left.
pub open spec fn sll64(a: u64, sh: u64) -> u64 {
    a << (sh & 63)
}

/// Logical shift right.
pub open spec fn srl64(a: u64, sh: u64) -> u64 {
    a >> (sh & 63)
}

/// Arithmetic shift right.
pub open spec fn sra64(a: u64, sh: u64) -> u64 {
    let s = sh & 63;
    if a >= 0x8000_0000_0000_0000 && s != 0 {
        ((a >> s) | (0xFFFF_FFFF_FFFF_FFFFu64 << (64 - s) as u64)) as u64
    } else {
        a >> s
    }
}

/// Word shift left, result sign-extended.
pub open spec fn sllw(a: u64, sh: u64) -> u64 {
    sext32((lo32(a) << (sh & 31) as u32) as u32)
}

/// Word logical shift right, result sign-extended.
pub open spec fn srlw(a: u64, sh: u64) -> u64 {
    sext32((lo32(a) >> (sh & 31) as u32) as u32)
}

/// Word arithmetic shift right, result sign-extended.
pub open spec fn sraw(a: u64, sh: u64) -> u64 {
    let v = lo32(a);
    let s = (sh & 31) as u32;
    if v >= 0x8000_0000 && s != 0 {
        sext32(((v >> s) | (0xFFFF_FFFFu32 << (32 - s) as u32)) as u32)
    } else {
        sext32((v >> s) as u32)
    }
}

/// Signed set-less-than.
pub open spec fn slt64(a: u64, b: u64) -> u64 {
    if as_int64(a) < as_int64(b) {
        1u64
    } else {
        0u64
    }
}

/// Unsigned set-less-than.
pub open spec fn sltu64(a: u64, b: u64) -> u64 {
    if a < b {
        1u64
    } else {
        0u64
    }
}

/// Word addition, result sign-extended.
pub open spec fn addw(a: u64, b: u64) -> u64 {
    sext32(wadd32(lo32(a), lo32(b)))
}

/// Word subtraction, result sign-extended.
pub open spec fn subw(a: u64, b: u64) -> u64 {
    sext32(wsub32(lo32(a), lo32(b)))
}

/// Two's-complement negation modulo 2^64.
pub open spec fn neg64(x: u64) -> u64 {
    wsub64(0, x)
}

/// Two's-complement negation modulo 2^32.
pub open spec fn neg32(x: u32) -> u32 {
    wsub32(0, x)
}

/// Whether a 64-bit word is negative as a two's-complement value.
pub open spec fn is_neg64(x: u64) -> bool {
    x >= 0x8000_0000_0000_0000
}

/// Whether a 32-bit word is negative as a two's-complement value.
pub open spec fn is_neg32(x: u32) -> bool {
    x >= 0x8000_0000
}

/// The magnitude of a 64-bit two's-complement value.
pub open spec fn abs64(x: u64) -> u64 {
    if is_neg64(x) {
        neg64(x)
    } else {
        x
    }
}

/// The magnitude of a 32-bit two's-complement value.
pub open spec fn abs32(x: u32) -> u32 {
    if is_neg32(x) {
        neg32(x)
    } else {
        x
    }
}

/// Multiplication modulo 2^64.
pub open spec fn mul64(a: u64, b: u64) -> u64 {
    ((a * b) % pow64()) as u64
}

/// The high 64 bits of the unsigned 128-bit product.
pub open spec fn mulhu64(a: u64, b: u64) -> u64 {
    ((a * b) / pow64()) as u64
}

/// The high 64 bits of the signed 128-bit product, as a 64-bit word.
pub open spec fn mulh64(a: u64, b: u64) -> u64 {
    wsub64(
        wsub64(
            mulhu64(a, b),
            if is_neg64(a) {
                b
            } else {
                0u64
            },
        ),
        if is_neg64(b) {
            a
        } else {
            0u64
        },
    )
}

/// The high 64 bits of the signed-by-unsigned 128-bit product.
pub open spec fn mulhsu64(a: u64, b: u64) -> u64 {
    wsub64(
        mulhu64(a, b),
        if is_neg64(a) {
            b
        } else {
            0u64
        },
    )
}

/// Word multiplication, result sign-extended.
pub open spec fn mulw(a: u64, b: u64) -> u64 {
    sext32(((lo32(a) * lo32(b)) % pow32()) as u32)
}

/// Unsigned division; division by zero returns all ones.
pub open spec fn divu64(a: u64, b: u64) -> u64 {
    if b == 0 {
        0xFFFF_FFFF_FFFF_FFFFu64
    } else {
        (a as int / b as int) as u64
    }
}

/// Unsigned remainder; remainder by zero returns the dividend.
pub open spec fn remu64(a: u64, b: u64) -> u64 {
    if b == 0 {
        a
    } else {
        (a as int % b as int) as u64
    }
}

/// Signed division, truncating toward zero. Division by zero returns
/// minus one; the overflowing INT64_MIN / -1 returns INT64_MIN.
pub open spec fn div64(a: u64, b: u64) -> u64 {
    if b == 0 {
        0xFFFF_FFFF_FFFF_FFFFu64
    } else {
        let q = (abs64(a) as int / abs64(b) as int) as u64;
        if is_neg64(a) != is_neg64(b) {
            neg64(q)
        } else {
            q
        }
    }
}

/// Signed remainder, with the sign of the dividend. Remainder by zero
/// returns the dividend; the overflowing INT64_MIN % -1 returns zero.
pub open spec fn rem64(a: u64, b: u64) -> u64 {
    if b == 0 {
        a
    } else {
        let r = (abs64(a) as int % abs64(b) as int) as u64;
        if is_neg64(a) {
            neg64(r)
        } else {
            r
        }
    }
}

/// Word unsigned division, result sign-extended; a zero low divisor
/// word gives all ones.
pub open spec fn divuw(a: u64, b: u64) -> u64 {
    if lo32(b) == 0 {
        0xFFFF_FFFF_FFFF_FFFFu64
    } else {
        sext32((lo32(a) as int / lo32(b) as int) as u32)
    }
}

/// Word unsigned remainder, result sign-extended.
pub open spec fn remuw(a: u64, b: u64) -> u64 {
    if lo32(b) == 0 {
        sext32(lo32(a))
    } else {
        sext32((lo32(a) as int % lo32(b) as int) as u32)
    }
}

/// Word signed division, result sign-extended.
pub open spec fn divw(a: u64, b: u64) -> u64 {
    if lo32(b) == 0 {
        0xFFFF_FFFF_FFFF_FFFFu64
    } else {
        let q = (abs32(lo32(a)) as int / abs32(lo32(b)) as int) as u32;
        if is_neg32(lo32(a)) != is_neg32(lo32(b)) {
            sext32(neg32(q))
        } else {
            sext32(q)
        }
    }
}

/// Word signed remainder, result sign-extended.
pub open spec fn remw(a: u64, b: u64) -> u64 {
    if lo32(b) == 0 {
        sext32(lo32(a))
    } else {
        let r = (abs32(lo32(a)) as int % abs32(lo32(b)) as int) as u32;
        if is_neg32(lo32(a)) {
            sext32(neg32(r))
        } else {
            sext32(r)
        }
    }
}

/// The signed minimum of two 64-bit words.
pub open spec fn min_s64(a: u64, b: u64) -> u64 {
    if as_int64(a) <= as_int64(b) {
        a
    } else {
        b
    }
}

/// The signed maximum of two 64-bit words.
pub open spec fn max_s64(a: u64, b: u64) -> u64 {
    if as_int64(a) >= as_int64(b) {
        a
    } else {
        b
    }
}

/// The unsigned minimum of two 64-bit words.
pub open spec fn min_u64(a: u64, b: u64) -> u64 {
    if a <= b {
        a
    } else {
        b
    }
}

/// The unsigned maximum of two 64-bit words.
pub open spec fn max_u64(a: u64, b: u64) -> u64 {
    if a >= b {
        a
    } else {
        b
    }
}

// ---------------------------------------------------------------------
// The ghost view of the hart, and the instruction-step functions.
// ---------------------------------------------------------------------

/// The ghost view of the whole hart: registers, program counter, CSR
/// file, privilege, the bus behind the MMU, and the run-loop flags.
#[verifier::ext_equal]
pub struct CpuView {
    /// The general registers.
    pub register: Seq<u64>,
    /// The current instruction word.
    pub instruction: u32,
    /// The program counter.
    pub pc: u64,
    /// The CSR backing array.
    pub csr: Seq<u64>,
    /// The privilege level.
    pub priv_level: PrivLevel,
    /// The bus and its devices.
    pub bus: BusView,
    /// The access kind tagged in the MMU.
    pub access: Access,
    /// Per-instruction logging requested.
    pub debug: bool,
    /// Gate each instruction on console input.
    pub step: bool,
    /// The run was ended gracefully by a jump to address zero.
    pub halted: bool,
    /// The decoder met an instruction it cannot classify.
    pub fatal: bool,
    /// The watchpoint the run loop checks.
    pub watchpoint: (Registers, u64, WatchExec),
}

/// Register `i` of the viewed hart.
pub open spec fn x_of(c: CpuView, i: u64) -> u64
    recommends
        c.register.len() == 32,
        i < 32,
{
    c.register[i as int]
}

/// The view with register `i` written (register zero discards).
pub open spec fn with_reg(c: CpuView, i: u64, v: u64) -> CpuView {
    CpuView { register: xreg_write(c.register, i, v), ..c }
}

/// The view after a control transfer to `target`: a jump to address zero
/// ends the run; any other target lands four bytes back, so that the
/// step's advance brings the counter onto the target.
pub open spec fn jump_to(c: CpuView, target: u64) -> CpuView {
    if target == 0 {
        CpuView { pc: 0, halted: true, ..c }
    } else {
        CpuView { pc: wsub64(target, 4), ..c }
    }
}

/// The view after the decoder met an instruction it cannot classify.
pub open spec fn decode_failed(c: CpuView) -> CpuView {
    CpuView { fatal: true, ..c }
}

/// Whether an OP-IMM instruction is decodable.
pub open spec fn itype_ok(i: u32) -> bool {
    funct3_of(i) != 5 || (funct12_of(i) >> 6) & 0x3F == 0 || (funct12_of(i) >> 6) & 0x3F == 0x10
}

/// The value an OP-IMM instruction writes to rd, from rs1 value `a`.
pub open spec fn itype_wval(i: u32, a: u64) -> u64
    recommends
        itype_ok(i),
{
    let f3 = funct3_of(i);
    if f3 == 0 {
        wadd64(a, imm_i_of(i))
    } else if f3 == 1 {
        sll64(a, shamt_of(i))
    } else if f3 == 2 {
        slt64(a, imm_i_of(i))
    } else if f3 == 3 {
        sltu64(a, imm_i_of(i))
    } else if f3 == 4 {
        a ^ imm_i_of(i)
    } else if f3 == 5 {
        if (funct12_of(i) >> 6) & 0x3F == 0 {
            srl64(a, shamt_of(i))
        } else {
            sra64(a, shamt_of(i))
        }
    } else if f3 == 6 {
        a | imm_i_of(i)
    } else {
        a & imm_i_of(i)
    }
}

/// The step of an OP-IMM instruction.
pub open spec fn itype_step(c: CpuView) -> CpuView {
    let i = c.instruction;
    if itype_ok(i) {
        with_reg(c, rd_of(i), itype_wval(i, x_of(c, rs1_of(i))))
    } else {
        decode_failed(c)
    }
}

/// Whether an OP (register-register) instruction is decodable.
pub open spec fn rtype_ok(i: u32) -> bool {
    let f7 = funct7_of(i);
    let f3 = funct3_of(i);
    if f7 == 0 || f7 == 1 {
        true
    } else if f7 == 0x20 {
        f3 == 0 || f3 == 5
    } else {
        false
    }
}

/// The value an OP instruction writes to rd, from rs1 value `a` and rs2
/// value `b`.
pub open spec fn rtype_wval(i: u32, a: u64, b: u64) -> u64
    recommends
        rtype_ok(i),
{
    let f7 = funct7_of(i);
    let f3 = funct3_of(i);
    if f7 == 0 {
        if f3 == 0 {
            wadd64(a, b)
        } else if f3 == 1 {
            sll64(a, b)
        } else if f3 == 2 {
            slt64(a, b)
        } else if f3 == 3 {
            sltu64(a, b)
        } else if f3 == 4 {
            a ^ b
        } else if f3 == 5 {
            srl64(a, b)
        } else if f3 == 6 {
            a | b
        } else {
            a & b
        }
    } else if f7 == 0x20 {
        if f3 == 0 {
            wsub64(a, b)
        } else {
            sra64(a, b)
        }
    } else {
        // The M extension.
        if f3 == 0 {
            mul64(a, b)
        } else if f3 == 1 {
            mulh64(a, b)
        } else if f3 == 2 {
            mulhsu64(a, b)
        } else if f3 == 3 {
            mulhu64(a, b)
        } else if f3 == 4 {
            div64(a, b)
        } else if f3 == 5 {
            divu64(a, b)
        } else if f3 == 6 {
            rem64(a, b)
        } else {
            remu64(a, b)
        }
    }
}

/// The step of an OP instruction.
pub open spec fn rtype_step(c: CpuView) -> CpuView {
    let i = c.instruction;
    if rtype_ok(i) {
        with_reg(c, rd_of(i), rtype_wval(i, x_of(c, rs1_of(i)), x_of(c, rs2_of(i))))
    } else {
        decode_failed(c)
    }
}

/// Whether an OP-IMM-32 instruction is decodable.
pub open spec fn rv64i_itype_ok(i: u32) -> bool {
    let f3 = funct3_of(i);
    f3 == 0 || f3 == 1 || (f3 == 5 && (funct7_of(i) == 0 || funct7_of(i) == 0x20))
}

/// The value an OP-IMM-32 instruction writes to rd, from rs1 value `a`.
pub open spec fn rv64i_itype_wval(i: u32, a: u64) -> u64
    recommends
        rv64i_itype_ok(i),
{
    let f3 = funct3_of(i);
    if f3 == 0 {
        sext32(wadd32(lo32(a), lo32(imm_i_of(i))))
    } else if f3 == 1 {
        sllw(a, imm_i_of(i))
    } else {
        if funct7_of(i) == 0 {
            srlw(a, imm_i_of(i))
        } else {
            sraw(a, imm_i_of(i))
        }
    }
}

/// The step of an OP-IMM-32 instruction.
pub open spec fn rv64i_itype_step(c: CpuView) -> CpuView {
    let i = c.instruction;
    if rv64i_itype_ok(i) {
        with_reg(c, rd_of(i), rv64i_itype_wval(i, x_of(c, rs1_of(i))))
    } else {
        decode_failed(c)
    }
}

/// Whether an OP-32 instruction is decodable.
pub open spec fn rv64im_ok(i: u32) -> bool {
    let f7 = funct7_of(i);
    let f3 = funct3_of(i);
    if f7 == 0 {
        f3 == 0 || f3 == 1 || f3 == 5
    } else if f7 == 0x20 {
        f3 == 0 || f3 == 5
    } else if f7 == 1 {
        f3 == 0 || f3 == 4 || f3 == 5 || f3 == 6 || f3 == 7
    } else {
        false
    }
}

/// The value an OP-32 instruction writes to rd, from rs1 value `a` and
/// rs2 value `b`.
pub open spec fn rv64im_wval(i: u32, a: u64, b: u64) -> u64
    recommends
        rv64im_ok(i),
{
    let f7 = funct7_of(i);
    let f3 = funct3_of(i);
    if f7 == 0 {
        if f3 == 0 {
            addw(a, b)
        } else if f3 == 1 {
            sllw(a, b)
        } else {
            srlw(a, b)
        }
    } else if f7 == 0x20 {
        if f3 == 0 {
            subw(a, b)
        } else {
            sraw(a, b)
        }
    } else {
        if f3 == 0 {
            mulw(a, b)
        } else if f3 == 4 {
            divw(a, b)
        } else if f3 == 5 {
            divuw(a, b)
        } else if f3 == 6 {
            remw(a, b)
        } else {
            remuw(a, b)
        }
    }
}

/// The step of an OP-32 instruction.
pub open spec fn rv64im_step(c: CpuView) -> CpuView {
    let i = c.instruction;
    if rv64im_ok(i) {
        with_reg(c, rd_of(i), rv64im_wval(i, x_of(c, rs1_of(i)), x_of(c, rs2_of(i))))
    } else {
        decode_failed(c)
    }
}

/// Whether a branch instruction is decodable.
pub open spec fn btype_ok(i: u32) -> bool {
    funct3_of(i) != 2 && funct3_of(i) != 3
}

/// Whether a branch is taken, from rs1 value `a` and rs2 value `b`.
pub open spec fn btype_taken(i: u32, a: u64, b: u64) -> bool
    recommends
        btype_ok(i),
{
    let f3 = funct3_of(i);
    if f3 == 0 {
        a == b
    } else if f3 == 1 {
        a != b
    } else if f3 == 4 {
        as_int64(a) < as_int64(b)
    } else if f3 == 5 {
        as_int64(a) >= as_int64(b)
    } else if f3 == 6 {
        a < b
    } else {
        a >= b
    }
}

/// The step of a branch instruction: a taken branch whose target is not
/// four-byte aligned raises instruction-address-misaligned.
pub open spec fn btype_step(c: CpuView) -> (Result<(), Exception>, CpuView) {
    let i = c.instruction;
    if !btype_ok(i) {
        (Ok(()), decode_failed(c))
    } else if btype_taken(i, x_of(c, rs1_of(i)), x_of(c, rs2_of(i))) {
        let target = wadd64(c.pc, imm_b_of(i));
        if target % 4 != 0 {
            (Err(Exception::InstAddrMisalign(target)), c)
        } else {
            (Ok(()), jump_to(c, target))
        }
    } else {
        (Ok(()), c)
    }
}

/// The step of LUI.
pub open spec fn lui_step(c: CpuView) -> CpuView {
    with_reg(c, rd_of(c.instruction), imm_u_of(c.instruction))
}

/// The step of AUIPC.
pub open spec fn auipc_step(c: CpuView) -> CpuView {
    with_reg(c, rd_of(c.instruction), wadd64(c.pc, imm_u_of(c.instruction)))
}

/// The step of JAL: the return address goes to rd unless rd is zero,
/// then control transfers; a target that is not four-byte aligned raises
/// instruction-address-misaligned.
pub open spec fn jal_step(c: CpuView) -> (Result<(), Exception>, CpuView) {
    let i = c.instruction;
    let target = wadd64(c.pc, imm_j_of(i));
    if target % 4 != 0 {
        (Err(Exception::InstAddrMisalign(target)), c)
    } else {
        (Ok(()), jump_to(with_reg(c, rd_of(i), wadd64(c.pc, 4)), target))
    }
}

/// The step of JALR: the target is rs1 plus the immediate with the low
/// bit masked; the return address goes to rd.
pub open spec fn jalr_step(c: CpuView) -> (Result<(), Exception>, CpuView) {
    let i = c.instruction;
    let target = wadd64(x_of(c, rs1_of(i)), imm_i_of(i)) & !1u64;
    if target % 4 != 0 {
        (Err(Exception::InstAddrMisalign(target)), c)
    } else {
        (Ok(()), jump_to(with_reg(c, rd_of(i), wadd64(c.pc, 4)), target))
    }
}

/// A CSR value with one bit assigned, as the bit-write helper does it.
pub open spec fn bit_assign(v: u64, bit: u64, val: bool) -> u64
    recommends
        bit < 64,
{
    if val {
        v | (1u64 << bit)
    } else {
        v & !(1u64 << bit)
    }
}

/// The step of the Zicsr instructions.
pub open spec fn zicsr_step(c: CpuView) -> CpuView {
    let i = c.instruction;
    let f3 = funct3_of(i);
    let a = funct12_of(i) as u16;
    let uimm = rs1_of(i);
    let data = csr_read(c.csr, a);
    if f3 == 1 {
        // CSRRW
        let c1 = if rd_of(i) != 0 {
            with_reg(c, rd_of(i), data)
        } else {
            c
        };
        CpuView { csr: csr_write(c1.csr, a, x_of(c, rs1_of(i))), ..c1 }
    } else if f3 == 2 {
        // CSRRS
        let c1 = with_reg(c, rd_of(i), data);
        CpuView { csr: csr_write(c1.csr, a, data | x_of(c, rs1_of(i))), ..c1 }
    } else if f3 == 3 {
        // CSRRC
        let c1 = with_reg(c, rd_of(i), data);
        CpuView { csr: csr_write(c1.csr, a, data & !x_of(c, rs1_of(i))), ..c1 }
    } else if f3 == 5 {
        // CSRRWI
        let c1 = if rd_of(i) != 0 {
            with_reg(c, rd_of(i), data)
        } else {
            c
        };
        CpuView { csr: csr_write(c1.csr, a, uimm), ..c1 }
    } else if f3 == 6 {
        // CSRRSI
        let c1 = with_reg(c, rd_of(i), data);
        CpuView { csr: csr_write(c1.csr, a, data | uimm), ..c1 }
    } else if f3 == 7 {
        // CSRRCI
        let c1 = with_reg(c, rd_of(i), data);
        CpuView { csr: csr_write(c1.csr, a, data & !uimm), ..c1 }
    } else {
        decode_failed(c)
    }
}

/// The step of SRET: SIE takes SPIE, the privilege drops to SPP, SPIE
/// sets, SPP clears to user, and control returns to SEPC, whose low two
/// bits read zero.
pub open spec fn sret_step(c: CpuView) -> CpuView {
    let s = csr_read(c.csr, SSTATUS);
    let spp = (s >> 8) & 1 == 1;
    let spie = (s >> 5) & 1 == 1;
    let c1 = csr_write(c.csr, SSTATUS, bit_assign(csr_read(c.csr, SSTATUS), 1, spie));
    let c2 = csr_write(c1, SSTATUS, bit_assign(csr_read(c1, SSTATUS), 5, true));
    let c3 = csr_write(c2, SSTATUS, bit_assign(csr_read(c2, SSTATUS), 8, false));
    let newp = if spp {
        PrivLevel::SUPERVISOR
    } else {
        PrivLevel::USER
    };
    jump_to(
        CpuView { csr: c3, priv_level: newp, ..c },
        csr_read(c3, SEPC) & !3u64,
    )
}

/// The step of MRET: MIE takes MPIE, the privilege drops to MPP, MPIE
/// sets, MPP clears to user, and control returns to MEPC, whose low two
/// bits read zero.
pub open spec fn mret_step(c: CpuView) -> CpuView {
    let s = csr_read(c.csr, MSTATUS);
    let mpp = (s >> 11) & 3;
    let mpie = (s >> 7) & 1 == 1;
    let c1 = csr_write(c.csr, MSTATUS, bit_assign(csr_read(c.csr, MSTATUS), 3, mpie));
    let c2 = csr_write(c1, MSTATUS, bit_assign(csr_read(c1, MSTATUS), 7, true));
    let c3 = csr_write(c2, MSTATUS, bits_write(csr_read(c2, MSTATUS), 11, 13, 0));
    jump_to(
        CpuView { csr: c3, priv_level: priv_of_code(mpp), ..c },
        csr_read(c3, MEPC) & !3u64,
    )
}

/// The step of the SYSTEM opcode: environment calls, breakpoints, the
/// trap returns, SFENCE.VMA as a no-op, and the Zicsr instructions.
pub open spec fn system_step(c: CpuView) -> (Result<(), Exception>, CpuView) {
    let i = c.instruction;
    let f3 = funct3_of(i);
    if f3 == 0 {
        let f12 = funct12_of(i);
        if f12 == 0 {
            // ECALL
            if c.priv_level == PrivLevel::USER {
                (Err(Exception::EnvCallUmode), c)
            } else if c.priv_level == PrivLevel::SUPERVISOR {
                (Err(Exception::EnvCallSmode), c)
            } else if c.priv_level == PrivLevel::MACHINE {
                (Err(Exception::EnvCallMmode), c)
            } else {
                (Ok(()), decode_failed(c))
            }
        } else if f12 == 1 {
            (Err(Exception::Breakpoint), c)
        } else if f12 == 0b10 {
            // URET is not provided.
            (Ok(()), decode_failed(c))
        } else if f12 == 0b0001_0000_0010 {
            (Ok(()), sret_step(c))
        } else if f12 == 0b0011_0000_0010 {
            (Ok(()), mret_step(c))
        } else if funct7_of(i) == 0b000_1001 {
            // SFENCE.VMA is a no-op on this single-hart core.
            (Ok(()), c)
        } else {
            (Ok(()), decode_failed(c))
        }
    } else if f3 == 4 {
        (Ok(()), decode_failed(c))
    } else {
        (Ok(()), zicsr_step(c))
    }
}

/// The step of a LOAD instruction: translate and read through the MMU,
/// extend by the width's signedness, and write rd.
pub open spec fn load_step(c: CpuView) -> (Result<(), Exception>, CpuView) {
    let i = c.instruction;
    let f3 = funct3_of(i);
    if f3 == 7 {
        (Ok(()), decode_failed(c))
    } else {
        let addr = wadd64(x_of(c, rs1_of(i)), imm_i_of(i));
        let width: u64 = if f3 == 0 || f3 == 4 {
            1
        } else if f3 == 1 || f3 == 5 {
            2
        } else if f3 == 2 || f3 == 6 {
            4
        } else {
            8
        };
        let r = mmu_read_spec(c.csr, c.priv_level, c.bus, addr, width);
        let c1 = CpuView { bus: r.1, access: Access::LOAD, ..c };
        match r.0 {
            Ok(v) => {
                let wval = if f3 == 0 {
                    sext8((v & 0xFF) as u8)
                } else if f3 == 1 {
                    sext16((v & 0xFFFF) as u16)
                } else if f3 == 2 {
                    sext32((v & 0xFFFF_FFFF) as u32)
                } else {
                    v
                };
                (Ok(()), with_reg(c1, rd_of(i), wval))
            },
            Err(e) => (Err(e), c1),
        }
    }
}

/// The step of a STORE instruction: translate and write through the MMU.
pub open spec fn store_step(c: CpuView) -> (Result<(), Exception>, CpuView) {
    let i = c.instruction;
    let f3 = funct3_of(i);
    if f3 >= 4 {
        (Ok(()), decode_failed(c))
    } else {
        let addr = wadd64(x_of(c, rs1_of(i)), imm_s_of(i));
        let width: u64 = if f3 == 0 {
            1
        } else if f3 == 1 {
            2
        } else if f3 == 2 {
            4
        } else {
            8
        };
        let r = mmu_write_spec(c.csr, c.priv_level, c.bus, addr, x_of(c, rs2_of(i)), width);
        let c1 = CpuView { bus: r.1, access: Access::STORE, ..c };
        match r.0 {
            Ok(_) => (Ok(()), c1),
            Err(e) => (Err(e), c1),
        }
    }
}

/// The value an atomic operation stores back, from the loaded value
/// `d` and the rs2 value `w`; `word` selects the 32-bit forms, which
/// work on the low words alone (the upper half of rs2 is ignored, and
/// the unsigned minimum and maximum compare 32-bit values).
pub open spec fn amo_newval(sel: u32, d: u64, w: u64, word: bool) -> u64 {
    if word {
        if sel == 0x04 {
            w
        } else if sel == 0x00 {
            sext32(lo32(wadd64(d, w)))
        } else if sel == 0x10 {
            d ^ sext32(lo32(w))
        } else if sel == 0x30 {
            d & sext32(lo32(w))
        } else if sel == 0x20 {
            d | sext32(lo32(w))
        } else if sel == 0x40 {
            min_s64(d, sext32(lo32(w)))
        } else if sel == 0x50 {
            max_s64(d, sext32(lo32(w)))
        } else if sel == 0x60 {
            sext32(
                if lo32(d) <= lo32(w) {
                    lo32(d)
                } else {
                    lo32(w)
                },
            )
        } else {
            sext32(
                if lo32(d) >= lo32(w) {
                    lo32(d)
                } else {
                    lo32(w)
                },
            )
        }
    } else {
        if sel == 0x04 {
            w
        } else if sel == 0x00 {
            wadd64(d, w)
        } else if sel == 0x10 {
            d ^ w
        } else if sel == 0x30 {
            d & w
        } else if sel == 0x20 {
            d | w
        } else if sel == 0x40 {
            min_s64(d, w)
        } else if sel == 0x50 {
            max_s64(d, w)
        } else if sel == 0x60 {
            min_u64(d, w)
        } else {
            max_u64(d, w)
        }
    }
}

/// Whether the atomic selector is one of the implemented operations.
pub open spec fn amo_sel_ok(sel: u32) -> bool {
    sel == 0x04 || sel == 0x00 || sel == 0x10 || sel == 0x30 || sel == 0x20 || sel == 0x40 || sel
        == 0x50 || sel == 0x60 || sel == 0x70
}

/// The step of an AMO instruction: a read-modify-write through the MMU
/// at the instruction's width. The word forms access 32 bits and
/// sign-extend the loaded word into rd; the double-word forms access 64
/// bits.
pub open spec fn amo_step(c: CpuView) -> (Result<(), Exception>, CpuView) {
    let i = c.instruction;
    let f3 = funct3_of(i);
    let sel = funct7_of(i) & 0x7C;
    if (f3 != 2 && f3 != 3) || !amo_sel_ok(sel) || sel == 0x08 || sel == 0x0C {
        // Unknown forms; LR and SC are not provided.
        (Ok(()), decode_failed(c))
    } else {
        let word = f3 == 2;
        let addr = x_of(c, rs1_of(i));
        let width: u64 = if word {
            4
        } else {
            8
        };
        let r = mmu_read_spec(c.csr, c.priv_level, c.bus, addr, width);
        let c1 = CpuView { bus: r.1, access: Access::LOAD, ..c };
        match r.0 {
            Err(e) => (Err(e), c1),
            Ok(v) => {
                let d = if word {
                    sext32((v & 0xFFFF_FFFF) as u32)
                } else {
                    v
                };
                let w = x_of(c, rs2_of(i));
                let c2 = with_reg(c1, rd_of(i), d);
                let newval = amo_newval(sel, d, w, word);
                let wr = mmu_write_spec(c2.csr, c2.priv_level, c2.bus, addr, newval, width);
                let c3 = CpuView { bus: wr.1, access: Access::STORE, ..c2 };
                match wr.0 {
                    Err(e) => (Err(e), c3),
                    Ok(_) => (Ok(()), c3),
                }
            },
        }
    }
}

/// One instruction executed from the decoded instruction word: the whole
/// RV64IMA and Zicsr semantics of this hart, as a function of the viewed
/// state.
pub open spec fn execute_spec(c: CpuView) -> (Result<(), Exception>, CpuView) {
    let op = opcode_of(c.instruction);
    if op == 0b000_0011 {
        load_step(c)
    } else if op == 0b010_0011 {
        store_step(c)
    } else if op == 0b011_0011 {
        (Ok(()), rtype_step(c))
    } else if op == 0b001_0011 {
        (Ok(()), itype_step(c))
    } else if op == 0b011_0111 {
        (Ok(()), lui_step(c))
    } else if op == 0b001_0111 {
        (Ok(()), auipc_step(c))
    } else if op == 0b110_1111 {
        jal_step(c)
    } else if op == 0b110_0011 {
        btype_step(c)
    } else if op == 0b110_0111 {
        jalr_step(c)
    } else if op == 0b000_1111 {
        // FENCE and FENCE.I are no-ops.
        (Ok(()), c)
    } else if op == 0b111_0011 {
        system_step(c)
    } else if op == 0b001_1011 {
        (Ok(()), rv64i_itype_step(c))
    } else if op == 0b011_1011 {
        (Ok(()), rv64im_step(c))
    } else if op == 0b010_1111 {
        amo_step(c)
    } else {
        (Ok(()), decode_failed(c))
    }
}

/// One instruction fetch: read 32 bits through the MMU in execute mode
/// into the instruction register.
pub open spec fn fetch_spec(c: CpuView) -> (Result<(), Exception>, CpuView) {
    let r = mmu_fetch_spec(c.csr, c.priv_level, c.bus, c.pc);
    match r.0 {
        Ok(v) => (Ok(()), CpuView { instruction: v, bus: r.1, access: Access::EXEC, ..c }),
        Err(e) => (Err(e), CpuView { bus: r.1, access: Access::EXEC, ..c }),
    }
}

// ---------------------------------------------------------------------
// Executable arithmetic helpers.
// ---------------------------------------------------------------------

/// Executable addition modulo 2^32.
fn add_w32(a: u32, b: u32) -> (r: u32)
    ensures
        r == wadd32(a, b),
{
    if b <= u32::MAX - a {
        a + b
    } else {
        b - (u32::MAX - a) - 1
    }
}

/// Executable subtraction modulo 2^32.
fn sub_w32(a: u32, b: u32) -> (r: u32)
    ensures
        r == wsub32(a, b),
{
    if a >= b {
        a - b
    } else {
        a + (u32::MAX - b) + 1
    }
}

/// Executable low word of a 64-bit value.
fn lo32_of(x: u64) -> (r: u32)
    ensures
        r == lo32(x),
{
    proof {
        crate::bitops::lemma_u64_and_le(x, 0xFFFF_FFFF);
    }
    (x & 0xFFFF_FFFF) as u32
}

/// Executable logical shift left.
fn exec_sll64(a: u64, sh: u64) -> (r: u64)
    ensures
        r == sll64(a, sh),
{
    proof {
        crate::bitops::lemma_u64_and_le(sh, 63);
    }
    a << (sh & 63)
}

/// Executable logical shift right.
fn exec_srl64(a: u64, sh: u64) -> (r: u64)
    ensures
        r == srl64(a, sh),
{
    proof {
        crate::bitops::lemma_u64_and_le(sh, 63);
    }
    a >> (sh & 63)
}

/// Executable arithmetic shift right.
fn exec_sra64(a: u64, sh: u64) -> (r: u64)
    ensures
        r == sra64(a, sh),
{
    proof {
        crate::bitops::lemma_u64_and_le(sh, 63);
    }
    let sham = sh & 63;
    if a >= 0x8000_0000_0000_0000 && sham != 0 {
        (a >> sham) | (0xFFFF_FFFF_FFFF_FFFFu64 << (64 - sham))
    } else {
        a >> sham
    }
}

/// Executable word shift left.
fn exec_sllw(a: u64, sh: u64) -> (r: u64)
    ensures
        r == sllw(a, sh),
{
    proof {
        crate::bitops::lemma_u64_and_le(sh, 31);
    }
    crate::bitops::sign_extend32(lo32_of(a) << ((sh & 31) as u32))
}

/// Executable word logical shift right.
fn exec_srlw(a: u64, sh: u64) -> (r: u64)
    ensures
        r == srlw(a, sh),
{
    proof {
        crate::bitops::lemma_u64_and_le(sh, 31);
    }
    crate::bitops::sign_extend32(lo32_of(a) >> ((sh & 31) as u32))
}

/// Executable word arithmetic shift right.
fn exec_sraw(a: u64, sh: u64) -> (r: u64)
    ensures
        r == sraw(a, sh),
{
    proof {
        crate::bitops::lemma_u64_and_le(sh, 31);
    }
    let v = lo32_of(a);
    let sham = (sh & 31) as u32;
    if v >= 0x8000_0000 && sham != 0 {
        crate::bitops::sign_extend32((v >> sham) | (0xFFFF_FFFFu32 << (32 - sham)))
    } else {
        crate::bitops::sign_extend32(v >> sham)
    }
}

/// Executable signed set-less-than.
fn exec_slt64(a: u64, b: u64) -> (r: u64)
    ensures
        r == slt64(a, b),
{
    if crate::bitops::signed_lt(a, b) {
        1
    } else {
        0
    }
}

/// Executable two's-complement magnitude.
fn exec_abs64(x: u64) -> (r: u64)
    ensures
        r == abs64(x),
{
    if x >= 0x8000_0000_0000_0000 {
        crate::bitops::sub_w64(0, x)
    } else {
        x
    }
}

/// Executable two's-complement magnitude, 32 bits.
fn exec_abs32(x: u32) -> (r: u32)
    ensures
        r == abs32(x),
{
    if x >= 0x8000_0000 {
        sub_w32(0, x)
    } else {
        x
    }
}

/// Executable high word of the unsigned 128-bit product.
fn exec_mulhu64(a: u64, b: u64) -> (r: u64)
    ensures
        r == mulhu64(a, b),
{
    proof {
        assert((a as u128) * (b as u128) <= 0xFFFF_FFFF_FFFF_FFFFu128 * 0xFFFF_FFFF_FFFF_FFFFu128)
            by (nonlinear_arith)
            requires
                a <= 0xFFFF_FFFF_FFFF_FFFFu64,
                b <= 0xFFFF_FFFF_FFFF_FFFFu64,
        ;
    }
    let p = (a as u128) * (b as u128);
    let h = p / 0x1_0000_0000_0000_0000u128;
    proof {
        assert(p / 0x1_0000_0000_0000_0000u128 < 0x1_0000_0000_0000_0000u128) by (nonlinear_arith)
            requires
                p <= 0xFFFF_FFFF_FFFF_FFFFu128 * 0xFFFF_FFFF_FFFF_FFFFu128,
        ;
    }
    h as u64
}

/// Executable high word of the signed 128-bit product.
fn exec_mulh64(a: u64, b: u64) -> (r: u64)
    ensures
        r == mulh64(a, b),
{
    let hu = exec_mulhu64(a, b);
    let s1 = crate::bitops::sub_w64(
        hu,
        if a >= 0x8000_0000_0000_0000 {
            b
        } else {
            0
        },
    );
    crate::bitops::sub_w64(
        s1,
        if b >= 0x8000_0000_0000_0000 {
            a
        } else {
            0
        },
    )
}

/// Executable high word of the signed-by-unsigned 128-bit product.
fn exec_mulhsu64(a: u64, b: u64) -> (r: u64)
    ensures
        r == mulhsu64(a, b),
{
    let hu = exec_mulhu64(a, b);
    crate::bitops::sub_w64(
        hu,
        if a >= 0x8000_0000_0000_0000 {
            b
        } else {
            0
        },
    )
}

/// Executable low word of the 128-bit product.
fn exec_mul64(a: u64, b: u64) -> (r: u64)
    ensures
        r == mul64(a, b),
{
    a.wrapping_mul(b)
}

/// Executable word multiplication.
fn exec_mulw(a: u64, b: u64) -> (r: u64)
    ensures
        r == mulw(a, b),
{
    let p = lo32_of(a).wrapping_mul(lo32_of(b));
    crate::bitops::sign_extend32(p)
}

/// Executable signed division.
fn exec_div64(a: u64, b: u64) -> (r: u64)
    ensures
        r == div64(a, b),
{
    if b == 0 {
        return 0xFFFF_FFFF_FFFF_FFFF;
    }
    let aa = exec_abs64(a);
    let ab = exec_abs64(b);
    let q = aa / ab;
    if (a >= 0x8000_0000_0000_0000) != (b >= 0x8000_0000_0000_0000) {
        crate::bitops::sub_w64(0, q)
    } else {
        q
    }
}

/// Executable signed remainder.
fn exec_rem64(a: u64, b: u64) -> (r: u64)
    ensures
        r == rem64(a, b),
{
    if b == 0 {
        return a;
    }
    let aa = exec_abs64(a);
    let ab = exec_abs64(b);
    let m = aa % ab;
    if a >= 0x8000_0000_0000_0000 {
        crate::bitops::sub_w64(0, m)
    } else {
        m
    }
}

/// Executable word signed division.
fn exec_divw(a: u64, b: u64) -> (r: u64)
    ensures
        r == divw(a, b),
{
    let bl = lo32_of(b);
    if bl == 0 {
        return 0xFFFF_FFFF_FFFF_FFFF;
    }
    let al = lo32_of(a);
    let q = exec_abs32(al) / exec_abs32(bl);
    if (al >= 0x8000_0000) != (bl >= 0x8000_0000) {
        crate::bitops::sign_extend32(sub_w32(0, q))
    } else {
        crate::bitops::sign_extend32(q)
    }
}

/// Executable word signed remainder.
fn exec_remw(a: u64, b: u64) -> (r: u64)
    ensures
        r == remw(a, b),
{
    let bl = lo32_of(b);
    let al = lo32_of(a);
    if bl == 0 {
        return crate::bitops::sign_extend32(al);
    }
    let m = exec_abs32(al) % exec_abs32(bl);
    if al >= 0x8000_0000 {
        crate::bitops::sign_extend32(sub_w32(0, m))
    } else {
        crate::bitops::sign_extend32(m)
    }
}

/// Executable word unsigned division.
fn exec_divuw(a: u64, b: u64) -> (r: u64)
    ensures
        r == divuw(a, b),
{
    let bl = lo32_of(b);
    if bl == 0 {
        return 0xFFFF_FFFF_FFFF_FFFF;
    }
    crate::bitops::sign_extend32(lo32_of(a) / bl)
}

/// Executable word unsigned remainder.
fn exec_remuw(a: u64, b: u64) -> (r: u64)
    ensures
        r == remuw(a, b),
{
    let bl = lo32_of(b);
    let al = lo32_of(a);
    if bl == 0 {
        return crate::bitops::sign_extend32(al);
    }
    crate::bitops::sign_extend32(al % bl)
}

// ---------------------------------------------------------------------
// Executable instruction fields and immediates.
// ---------------------------------------------------------------------

/// Executable I-type immediate.
fn imm_i(ins: u32) -> (r: u64)
    ensures
        r == imm_i_of(ins),
{
    proof {
        crate::bitops::lemma_u32_and_le(ins >> 20, 0xFFF);
    }
    let raw = ((ins >> 20) & 0xFFF) as u64;
    if raw < 0x800 {
        raw
    } else {
        raw + 0xFFFF_FFFF_FFFF_F000
    }
}

/// Executable S-type immediate.
fn imm_s(ins: u32) -> (r: u64)
    ensures
        r == imm_s_of(ins),
{
    let rawi = (((ins >> 25) & 0x7F) << 5) | ((ins >> 7) & 0x1F);
    proof {
        let i = ins;
        assert(((((i >> 25) & 0x7F) << 5) | ((i >> 7) & 0x1F)) <= 0xFFF) by (bit_vector);
    }
    let raw = rawi as u64;
    if raw < 0x800 {
        raw
    } else {
        raw + 0xFFFF_FFFF_FFFF_F000
    }
}

/// Executable B-type immediate.
fn imm_b(ins: u32) -> (r: u64)
    ensures
        r == imm_b_of(ins),
{
    let rawi = (((ins >> 31) & 1) << 12) | (((ins >> 7) & 1) << 11) | (((ins >> 25) & 0x3F) << 5)
        | (((ins >> 8) & 0xF) << 1);
    proof {
        let i = ins;
        assert(((((i >> 31) & 1) << 12) | (((i >> 7) & 1) << 11) | (((i >> 25) & 0x3F) << 5) | (((i
            >> 8) & 0xF) << 1)) <= 0x1FFF) by (bit_vector);
    }
    let raw = rawi as u64;
    if raw < 0x1000 {
        raw
    } else {
        raw + 0xFFFF_FFFF_FFFF_E000
    }
}

/// Executable J-type immediate.
fn imm_j(ins: u32) -> (r: u64)
    ensures
        r == imm_j_of(ins),
{
    let rawi = (((ins >> 31) & 1) << 20) | (((ins >> 12) & 0xFF) << 12) | (((ins >> 20) & 1) << 11)
        | (((ins >> 21) & 0x3FF) << 1);
    proof {
        let i = ins;
        assert(((((i >> 31) & 1) << 20) | (((i >> 12) & 0xFF) << 12) | (((i >> 20) & 1) << 11) | (((
        i >> 21) & 0x3FF) << 1)) <= 0x1F_FFFF) by (bit_vector);
    }
    let raw = rawi as u64;
    if raw < 0x10_0000 {
        raw
    } else {
        raw + 0xFFFF_FFFF_FFE0_0000
    }
}

/// Executable U-type immediate.
fn imm_u(ins: u32) -> (r: u64)
    ensures
        r == imm_u_of(ins),
{
    crate::bitops::sign_extend32(ins & 0xFFFF_F000)
}

/// Executable destination register field, bounded for indexing.
fn field_rd(ins: u32) -> (r: usize)
    ensures
        r as u64 == rd_of(ins),
        r < 32,
{
    proof {
        crate::bitops::lemma_u32_and_le(ins >> 7, 0x1F);
    }
    ((ins >> 7) & 0x1F) as usize
}

/// Executable first source register field, bounded for indexing.
fn field_rs1(ins: u32) -> (r: usize)
    ensures
        r as u64 == rs1_of(ins),
        r < 32,
{
    proof {
        crate::bitops::lemma_u32_and_le(ins >> 15, 0x1F);
    }
    ((ins >> 15) & 0x1F) as usize
}

/// Executable second source register field, bounded for indexing.
fn field_rs2(ins: u32) -> (r: usize)
    ensures
        r as u64 == rs2_of(ins),
        r < 32,
{
    proof {
        crate::bitops::lemma_u32_and_le(ins >> 20, 0x1F);
    }
    ((ins >> 20) & 0x1F) as usize
}

// ---------------------------------------------------------------------
// The hart itself.
// ---------------------------------------------------------------------

/// The executing hart: register file, current instruction, program
/// counter, MMU (owning the bus), CSR file, and run-loop state.
pub struct Cpu {
    /// The general registers.
    pub register: XRegisters,
    /// The current instruction word.
    pub instruction: u32,
    /// The program counter.
    pub pc: u64,
    /// The memory-management unit, owning the physical bus.
    pub mmu: Mmu,
    /// The control-and-status registers and privilege level.
    pub csr: Csr,
    /// Per-instruction logging requested.
    pub debug: bool,
    /// Gate each instruction on console input.
    pub step: bool,
    /// The run was ended gracefully by a jump to address zero.
    pub halted: bool,
    /// The decoder met an instruction it cannot classify.
    pub fatal: bool,
    /// The watchpoint the run loop checks.
    pub watchpoint: (Registers, u64, WatchExec),
}

impl View for Cpu {
    type V = CpuView;

    open spec fn view(&self) -> CpuView {
        CpuView {
            register: self.register@,
            instruction: self.instruction,
            pc: self.pc,
            csr: self.csr@,
            priv_level: self.csr.priv_level,
            bus: self.mmu.bus@,
            access: self.mmu.access,
            debug: self.debug,
            step: self.step,
            halted: self.halted,
            fatal: self.fatal,
            watchpoint: self.watchpoint,
        }
    }
}

impl Cpu {
    /// The register file, the CSR file and the bus keep their structural
    /// bounds.
    pub open spec fn wf(&self) -> bool {
        self.register.wf() && self.csr.wf() && self.mmu.wf()
    }

    /// A fresh hart: registers cleared (stack pointer at the top of
    /// DRAM), program counter at the DRAM base, machine mode, zeroed
    /// CSRs, devices in reset.
    pub fn new() -> (r: Cpu)
        ensures
            r.wf(),
            r@.register == Seq::new(32, |i: int| if i == 2 { DRAM_TOP } else { 0u64 }),
            r@.instruction == 0,
            r@.pc == INIT_PC,
            r@.csr == Seq::new(CSR_SIZE as nat, |i: int| 0u64),
            r@.priv_level == PrivLevel::MACHINE,
            r@.access == Access::NONE,
            r@.debug == false && r@.step == false,
            r@.halted == false && r@.fatal == false,
            r@.bus.dram == Seq::new(crate::dram::DRAM_SIZE as nat, |i: int| 0u8),
            r@.bus.clint == Seq::new(crate::clint::CLINT_SIZE as nat, |i: int| 0u8),
            r@.bus.plic == Seq::new(crate::plic::PLIC_SIZE as nat, |i: int| 0u8),
            r@.bus.clock == 0 && r@.bus.clint_clock == 0 && r@.bus.plic_clock == 0,
            r@.bus.plic_irq is None,
            r@.bus.uart.thr == 0 && r@.bus.uart.clock == 0 && r@.bus.uart.ier == 0,
            r@.bus.uart.rhr == 0,
            r@.bus.virtio.notify_changed == false && r@.bus.virtio.disk.len() == 0,
            r@.bus.virtio.last_avail_idx == 0 && r@.bus.virtio.queue_num == 0,
            r@.bus.virtio.queue_pfn == 0 && r@.bus.virtio.guest_page_size == 0,
            r@.bus.virtio.interrupt_status == 0 && r@.bus.virtio.magic_value == 0x74726976,
            r@.bus.virtio.vendor_id == 0x554d4551 && r@.bus.virtio.version == 1,
            r@.bus.virtio.queue_num_max == 0x2000 && r@.bus.virtio.queue_align == 0,
            r@.bus.virtio.clock == 0,
    {
        Cpu {
            register: XRegisters::new(),
            instruction: 0,
            pc: INIT_PC,
            mmu: Mmu::new(),
            csr: Csr::new(),
            debug: false,
            step: false,
            halted: false,
            fatal: false,
            watchpoint: (Registers::ZERO, 1, WatchExec::EXIT),
        }
    }

    /// Copy a kernel image over the start of DRAM.
    pub fn load_dram(&mut self, binary: Vec<u8>)
        requires
            old(self).wf(),
            binary@.len() <= crate::dram::DRAM_SIZE,
        ensures
            final(self).wf(),
            forall|i: int|
                0 <= i < binary@.len() ==> final(self)@.bus.dram[i] == binary@[i],
            forall|i: int|
                binary@.len() <= i < crate::dram::DRAM_SIZE ==> final(self)@.bus.dram[i] == old(
                    self,
                )@.bus.dram[i],
            final(self)@ == (CpuView {
                bus: BusView { dram: final(self)@.bus.dram, ..old(self)@.bus },
                ..old(self)@
            }),
    {
        self.mmu.load_dram(binary);
    }

    /// Load a disk image into the block device's backing store.
    pub fn load_disk(&mut self, binary: Vec<u8>)
        requires
            old(self).wf(),
            old(self)@.bus.virtio.disk.len() + binary@.len() <= crate::virtio::MAX_DISK,
        ensures
            final(self).wf(),
            final(self)@ == (CpuView {
                bus: BusView {
                    virtio: crate::virtio::VirtioView {
                        disk: old(self)@.bus.virtio.disk + binary@,
                        ..old(self)@.bus.virtio
                    },
                    ..old(self)@.bus
                },
                ..old(self)@
            }),
    {
        self.mmu.load_disk(binary);
    }

    /// Whether the watchpoint hits in the current state.
    pub fn watch_hit_now(&self) -> (r: bool)
        requires
            self.wf(),
        ensures
            r == watch_hit(self@),
    {
        match self.watchpoint.0 {
            Registers::PC => self.pc == self.watchpoint.1,
            reg => {
                let i = reg_index(reg);
                self.register.read(i as usize) == self.watchpoint.1
            },
        }
    }

    /// Set the watchpoint the run loop checks.
    pub fn watch(&mut self, register: Registers, val: u64, exec: WatchExec)
        ensures
            final(self)@ == (CpuView { watchpoint: (register, val, exec), ..old(self)@ }),
    {
        self.watchpoint = (register, val, exec);
    }

    /// Fetch the instruction the program counter points at, through the
    /// MMU in execute mode.
    pub fn fetch(&mut self) -> (r: Result<(), Exception>)
        requires
            old(self).wf(),
        ensures
            final(self).wf(),
            (r, final(self)@) == fetch_spec(old(self)@),
    {
        match self.mmu.fetch32(&self.csr, self.pc) {
            Ok(v) => {
                self.instruction = v;
                Ok(())
            },
            Err(e) => Err(e),
        }
    }

    /// Execute the fetched instruction, as `execute_spec` describes.
    #[verifier::rlimit(100)]
    pub fn execute(&mut self) -> (r: Result<(), Exception>)
        requires
            old(self).wf(),
        ensures
            final(self).wf(),
            (r, final(self)@) == execute_spec(old(self)@),
    {
        let ins = self.instruction;
        let opcode = ins & 0x7F;

        match opcode {
            // LOAD
            0b000_0011 => self.decode_load(),
            // STORE
            0b010_0011 => self.decode_store(),
            // R-type
            0b011_0011 => self.decode_rtype(),
            // I-type
            0b001_0011 => self.decode_itype(),
            // LUI
            0b011_0111 => {
                let rd = field_rd(ins);
                let v = imm_u(ins);
                self.register.write(rd, v);
                Ok(())
            },
            // AUIPC
            0b001_0111 => {
                let rd = field_rd(ins);
                let v = crate::bitops::add_w64(self.pc, imm_u(ins));
                self.register.write(rd, v);
                Ok(())
            },
            // JAL
            0b110_1111 => {
                let target = crate::bitops::add_w64(self.pc, imm_j(ins));
                if target % 4 != 0 {
                    return Err(Exception::InstAddrMisalign(target));
                }
                let rd = field_rd(ins);
                let link = crate::bitops::add_w64(self.pc, 4);
                self.register.write(rd, link);
                if target == 0 {
                    self.pc = 0;
                    self.halted = true;
                } else {
                    self.pc = crate::bitops::sub_w64(target, 4);
                }
                Ok(())
            },
            // B-type
            0b110_0011 => self.decode_btype(),
            // JALR
            0b110_0111 => {
                let rs1 = field_rs1(ins);
                let base = self.register.read(rs1);
                let target = crate::bitops::add_w64(base, imm_i(ins)) & !1u64;
                if target % 4 != 0 {
                    return Err(Exception::InstAddrMisalign(target));
                }
                let rd = field_rd(ins);
                let link = crate::bitops::add_w64(self.pc, 4);
                self.register.write(rd, link);
                if target == 0 {
                    self.pc = 0;
                    self.halted = true;
                } else {
                    self.pc = crate::bitops::sub_w64(target, 4);
                }
                Ok(())
            },
            // FENCE and FENCE.I: no-ops.
            0b000_1111 => Ok(()),
            // SYSTEM
            0b111_0011 => self.decode_system(),
            // RV64I integer register-immediate instructions
            0b001_1011 => self.decode_rv64i_itype(),
            // RV64I/M integer register-register operations
            0b011_1011 => self.decode_rv64im_rtype(),
            // RV64A
            0b010_1111 => self.decode_rv64a(),
            _ => {
                self.fatal = true;
                Ok(())
            },
        }
    }

    /// Integer register-immediate instructions (OP-IMM).
    #[verifier::rlimit(100)]
    fn decode_itype(&mut self) -> (r: Result<(), Exception>)
        requires
            old(self).wf(),
        ensures
            final(self).wf(),
            r == Ok::<(), Exception>(()),
            final(self)@ == itype_step(old(self)@),
    {
        let ins = self.instruction;
        let imm = imm_i(ins);
        let shamt = ((ins >> 20) & 0x3F) as u64;
        let rs1 = field_rs1(ins);
        let funct3 = (ins >> 12) & 0x7;
        let rd = field_rd(ins);
        let a = self.register.read(rs1);

        match funct3 {
            // ADDI
            0b000 => self.register.write(rd, crate::bitops::add_w64(a, imm)),
            // SLLI
            0b001 => {
                let v = exec_sll64(a, shamt);
                self.register.write(rd, v);
            },
            // SLTI
            0b010 => {
                let v = exec_slt64(a, imm);
                self.register.write(rd, v);
            },
            // SLTIU
            0b011 => {
                if a < imm {
                    self.register.write(rd, 1);
                } else {
                    self.register.write(rd, 0);
                }
            },
            // XORI
            0b100 => self.register.write(rd, a ^ imm),
            0b101 => {
                let sub = (((ins >> 20) & 0xFFF) >> 6) & 0x3F;
                if sub == 0b00_0000 {
                    // SRLI
                    let v = exec_srl64(a, shamt);
                    self.register.write(rd, v);
                } else if sub == 0b01_0000 {
                    // SRAI
                    let v = exec_sra64(a, shamt);
                    self.register.write(rd, v);
                } else {
                    self.fatal = true;
                }
            },
            // ORI
            0b110 => self.register.write(rd, a | imm),
            // ANDI
            _ => self.register.write(rd, a & imm),
        }

        Ok(())
    }

    /// Integer register-register instructions (OP).
    #[verifier::rlimit(100)]
    fn decode_rtype(&mut self) -> (r: Result<(), Exception>)
        requires
            old(self).wf(),
        ensures
            final(self).wf(),
            r == Ok::<(), Exception>(()),
            final(self)@ == rtype_step(old(self)@),
    {
        let ins = self.instruction;
        let funct7 = (ins >> 25) & 0x7F;
        let rs2 = field_rs2(ins);
        let rs1 = field_rs1(ins);
        let funct3 = (ins >> 12) & 0x7;
        let rd = field_rd(ins);
        let a = self.register.read(rs1);
        let b = self.register.read(rs2);

        match funct7 {
            0b000_0000 => {
                match funct3 {
                    // ADD
                    0b000 => self.register.write(rd, crate::bitops::add_w64(a, b)),
                    // SLL
                    0b001 => {
                        let v = exec_sll64(a, b);
                        self.register.write(rd, v);
                    },
                    // SLT
                    0b010 => {
                        let v = exec_slt64(a, b);
                        self.register.write(rd, v);
                    },
                    // SLTU
                    0b011 => {
                        if a < b {
                            self.register.write(rd, 1);
                        } else {
                            self.register.write(rd, 0);
                        }
                    },
                    // XOR
                    0b100 => self.register.write(rd, a ^ b),
                    // SRL
                    0b101 => {
                        let v = exec_srl64(a, b);
                        self.register.write(rd, v);
                    },
                    // OR
                    0b110 => self.register.write(rd, a | b),
                    // AND
                    _ => self.register.write(rd, a & b),
                }
            },
            0b010_0000 => {
                match funct3 {
                    // SUB
                    0b000 => self.register.write(rd, crate::bitops::sub_w64(a, b)),
                    // SRA
                    0b101 => {
                        let v = exec_sra64(a, b);
                        self.register.write(rd, v);
                    },
                    _ => {
                        self.fatal = true;
                    },
                }
            },
            0b000_0001 => {
                return self.decode_rv32m();
            },
            _ => {
                self.fatal = true;
            },
        }

        Ok(())
    }

    /// Multiply and divide instructions of the M extension (RV32M forms
    /// on 64-bit registers).
    #[verifier::rlimit(100)]
    fn decode_rv32m(&mut self) -> (r: Result<(), Exception>)
        requires
            old(self).wf(),
            funct7_of(old(self).instruction) == 1,
        ensures
            final(self).wf(),
            r == Ok::<(), Exception>(()),
            final(self)@ == rtype_step(old(self)@),
    {
        let ins = self.instruction;
        let rs2 = field_rs2(ins);
        let rs1 = field_rs1(ins);
        let funct3 = (ins >> 12) & 0x7;
        let rd = field_rd(ins);
        let a = self.register.read(rs1);
        let b = self.register.read(rs2);

        match funct3 {
            // MUL
            0b000 => {
                let v = exec_mul64(a, b);
                self.register.write(rd, v);
            },
            // MULH
            0b001 => {
                let v = exec_mulh64(a, b);
                self.register.write(rd, v);
            },
            // MULHSU
            0b010 => {
                let v = exec_mulhsu64(a, b);
                self.register.write(rd, v);
            },
            // MULHU
            0b011 => {
                let v = exec_mulhu64(a, b);
                self.register.write(rd, v);
            },
            // DIV
            0b100 => {
                let v = exec_div64(a, b);
                self.register.write(rd, v);
            },
            // DIVU
            0b101 => {
                let v = if b == 0 {
                    0xFFFF_FFFF_FFFF_FFFF
                } else {
                    a / b
                };
                self.register.write(rd, v);
            },
            // REM
            0b110 => {
                let v = exec_rem64(a, b);
                self.register.write(rd, v);
            },
            // REMU
            _ => {
                let v = if b == 0 {
                    a
                } else {
                    a % b
                };
                self.register.write(rd, v);
            },
        }

        Ok(())
    }

    /// Conditional branches.
    #[verifier::rlimit(100)]
    fn decode_btype(&mut self) -> (r: Result<(), Exception>)
        requires
            old(self).wf(),
        ensures
            final(self).wf(),
            (r, final(self)@) == btype_step(old(self)@),
    {
        let ins = self.instruction;
        let imm = imm_b(ins);
        let rs2 = field_rs2(ins);
        let rs1 = field_rs1(ins);
        let funct3 = (ins >> 12) & 0x7;
        let a = self.register.read(rs1);
        let b = self.register.read(rs2);

        if funct3 == 0b010 || funct3 == 0b011 {
            self.fatal = true;
            return Ok(());
        }
        let taken: bool = if funct3 == 0b000 {
            // BEQ
            a == b
        } else if funct3 == 0b001 {
            // BNE
            a != b
        } else if funct3 == 0b100 {
            // BLT
            crate::bitops::signed_lt(a, b)
        } else if funct3 == 0b101 {
            // BGE
            !crate::bitops::signed_lt(a, b)
        } else if funct3 == 0b110 {
            // BLTU
            a < b
        } else {
            // BGEU
            a >= b
        };

        if taken {
            let target = crate::bitops::add_w64(self.pc, imm);
            if target % 4 != 0 {
                return Err(Exception::InstAddrMisalign(target));
            }
            if target == 0 {
                self.pc = 0;
                self.halted = true;
            } else {
                self.pc = crate::bitops::sub_w64(target, 4);
            }
        }

        Ok(())
    }

    /// Loads of every width, signed and unsigned.
    fn decode_load(&mut self) -> (r: Result<(), Exception>)
        requires
            old(self).wf(),
        ensures
            final(self).wf(),
            (r, final(self)@) == load_step(old(self)@),
    {
        proof {
            crate::bitops::lemma_u32_and_le(self.instruction >> 12, 0x7);
        }
        let funct3 = (self.instruction >> 12) & 0x7;
        if funct3 == 0b000 {
            self.op_lb()
        } else if funct3 == 0b001 {
            self.op_lh()
        } else if funct3 == 0b010 {
            self.op_lw()
        } else if funct3 == 0b011 {
            self.op_ld()
        } else if funct3 == 0b100 {
            self.op_lbu()
        } else if funct3 == 0b101 {
            self.op_lhu()
        } else if funct3 == 0b110 {
            self.op_lwu()
        } else {
            self.fatal = true;
            Ok(())
        }
    }

    /// Load a sign-extended byte.
    fn op_lb(&mut self) -> (r: Result<(), Exception>)
        requires
            old(self).wf(),
            funct3_of(old(self).instruction) == 0,
        ensures
            final(self).wf(),
            (r, final(self)@) == load_step(old(self)@),
    {
        let ins = self.instruction;
        let rs1 = field_rs1(ins);
        let rd = field_rd(ins);
        let addr = crate::bitops::add_w64(self.register.read(rs1), imm_i(ins));
        let byte = self.mmu.read8(&self.csr, addr)?;
        let data = crate::bitops::sign_extend8(byte);
        self.register.write(rd, data);
        Ok(())
    }

    /// Load a sign-extended half-word.
    fn op_lh(&mut self) -> (r: Result<(), Exception>)
        requires
            old(self).wf(),
            funct3_of(old(self).instruction) == 1,
        ensures
            final(self).wf(),
            (r, final(self)@) == load_step(old(self)@),
    {
        let ins = self.instruction;
        let rs1 = field_rs1(ins);
        let rd = field_rd(ins);
        let addr = crate::bitops::add_w64(self.register.read(rs1), imm_i(ins));
        let hword = self.mmu.read16(&self.csr, addr)?;
        let data = crate::bitops::sign_extend16(hword);
        self.register.write(rd, data);
        Ok(())
    }

    /// Load a sign-extended word.
    fn op_lw(&mut self) -> (r: Result<(), Exception>)
        requires
            old(self).wf(),
            funct3_of(old(self).instruction) == 2,
        ensures
            final(self).wf(),
            (r, final(self)@) == load_step(old(self)@),
    {
        let ins = self.instruction;
        let rs1 = field_rs1(ins);
        let rd = field_rd(ins);
        let addr = crate::bitops::add_w64(self.register.read(rs1), imm_i(ins));
        let word = self.mmu.read32(&self.csr, addr)?;
        let data = crate::bitops::sign_extend32(word);
        self.register.write(rd, data);
        Ok(())
    }

    /// Load a double-word.
    fn op_ld(&mut self) -> (r: Result<(), Exception>)
        requires
            old(self).wf(),
            funct3_of(old(self).instruction) == 3,
        ensures
            final(self).wf(),
            (r, final(self)@) == load_step(old(self)@),
    {
        let ins = self.instruction;
        let rs1 = field_rs1(ins);
        let rd = field_rd(ins);
        let addr = crate::bitops::add_w64(self.register.read(rs1), imm_i(ins));
        let dword = self.mmu.read64(&self.csr, addr)?;
        self.register.write(rd, dword);
        Ok(())
    }

    /// Load a zero-extended byte.
    fn op_lbu(&mut self) -> (r: Result<(), Exception>)
        requires
            old(self).wf(),
            funct3_of(old(self).instruction) == 4,
        ensures
            final(self).wf(),
            (r, final(self)@) == load_step(old(self)@),
    {
        let ins = self.instruction;
        let rs1 = field_rs1(ins);
        let rd = field_rd(ins);
        let addr = crate::bitops::add_w64(self.register.read(rs1), imm_i(ins));
        let byte = self.mmu.read8(&self.csr, addr)?;
        proof {
            let sr = mmu_read_spec(
                old(self)@.csr,
                old(self)@.priv_level,
                old(self)@.bus,
                wadd64(x_of(old(self)@, rs1_of(ins)), imm_i_of(ins)),
                1,
            ).0;
            if sr is Ok {
                crate::bitops::lemma_low8_id(sr->Ok_0);
            }
        }
        self.register.write(rd, byte as u64);
        Ok(())
    }

    /// Load a zero-extended half-word.
    fn op_lhu(&mut self) -> (r: Result<(), Exception>)
        requires
            old(self).wf(),
            funct3_of(old(self).instruction) == 5,
        ensures
            final(self).wf(),
            (r, final(self)@) == load_step(old(self)@),
    {
        let ins = self.instruction;
        let rs1 = field_rs1(ins);
        let rd = field_rd(ins);
        let addr = crate::bitops::add_w64(self.register.read(rs1), imm_i(ins));
        let hword = self.mmu.read16(&self.csr, addr)?;
        proof {
            let sr = mmu_read_spec(
                old(self)@.csr,
                old(self)@.priv_level,
                old(self)@.bus,
                wadd64(x_of(old(self)@, rs1_of(ins)), imm_i_of(ins)),
                2,
            ).0;
            if sr is Ok {
                crate::bitops::lemma_low16_id(sr->Ok_0);
            }
        }
        self.register.write(rd, hword as u64);
        Ok(())
    }

    /// Load a zero-extended word.
    fn op_lwu(&mut self) -> (r: Result<(), Exception>)
        requires
            old(self).wf(),
            funct3_of(old(self).instruction) == 6,
        ensures
            final(self).wf(),
            (r, final(self)@) == load_step(old(self)@),
    {
        let ins = self.instruction;
        let rs1 = field_rs1(ins);
        let rd = field_rd(ins);
        let addr = crate::bitops::add_w64(self.register.read(rs1), imm_i(ins));
        let word = self.mmu.read32(&self.csr, addr)?;
        proof {
            let sr = mmu_read_spec(
                old(self)@.csr,
                old(self)@.priv_level,
                old(self)@.bus,
                wadd64(x_of(old(self)@, rs1_of(ins)), imm_i_of(ins)),
                4,
            ).0;
            if sr is Ok {
                crate::bitops::lemma_low32_id(sr->Ok_0);
            }
        }
        self.register.write(rd, word as u64);
        Ok(())
    }

    /// Stores of every width.
    #[verifier::rlimit(100)]
    pub fn decode_store(&mut self) -> (r: Result<(), Exception>)
        requires
            old(self).wf(),
        ensures
            final(self).wf(),
            (r, final(self)@) == store_step(old(self)@),
    {
        let ins = self.instruction;
        let imm = imm_s(ins);
        let rs2 = field_rs2(ins);
        let rs1 = field_rs1(ins);
        let funct3 = (ins >> 12) & 0x7;
        let addr = crate::bitops::add_w64(self.register.read(rs1), imm);
        let data = self.register.read(rs2);

        match funct3 {
            // SB
            0b000 => {
                proof {
                    crate::bitops::lemma_cast_low8((data & 0xFF) as u8);
                    assert(((data & 0xFF) as u8) as u64 & 0xFF == data & 0xFF) by (bit_vector);
                }
                self.mmu.write8(&self.csr, addr, (data & 0xFF) as u8)?;
            },
            // SH
            0b001 => {
                proof {
                    assert((((data & 0xFFFF) as u16) as u64 & 0xFFFF) as u16 == (data
                        & 0xFFFF) as u16) by (bit_vector);
                }
                self.mmu.write16(&self.csr, addr, (data & 0xFFFF) as u16)?;
            },
            // SW
            0b010 => {
                proof {
                    assert((((data & 0xFFFF_FFFF) as u32) as u64 & 0xFFFF_FFFF) as u32 == (data
                        & 0xFFFF_FFFF) as u32) by (bit_vector);
                }
                self.mmu.write32(&self.csr, addr, (data & 0xFFFF_FFFF) as u32)?;
            },
            // SD
            0b011 => {
                self.mmu.write64(&self.csr, addr, data)?;
            },
            _ => {
                self.fatal = true;
            },
        }

        Ok(())
    }
}

// ---------------------------------------------------------------------
// System, CSR and atomic instruction groups.
// ---------------------------------------------------------------------

/// The value an atomic operation stores back.
fn exec_amo_newval(sel: u32, d: u64, w: u64, word: bool) -> (r: u64)
    requires
        amo_sel_ok(sel),
    ensures
        r == amo_newval(sel, d, w, word),
{
    if word {
        if sel == 0x04 {
            w
        } else if sel == 0x00 {
            let t = crate::bitops::add_w64(d, w);
            crate::bitops::sign_extend32(lo32_of(t))
        } else if sel == 0x10 {
            d ^ crate::bitops::sign_extend32(lo32_of(w))
        } else if sel == 0x30 {
            d & crate::bitops::sign_extend32(lo32_of(w))
        } else if sel == 0x20 {
            d | crate::bitops::sign_extend32(lo32_of(w))
        } else if sel == 0x40 {
            let wx = crate::bitops::sign_extend32(lo32_of(w));
            if !crate::bitops::signed_lt(wx, d) {
                d
            } else {
                wx
            }
        } else if sel == 0x50 {
            let wx = crate::bitops::sign_extend32(lo32_of(w));
            if !crate::bitops::signed_lt(d, wx) {
                d
            } else {
                wx
            }
        } else if sel == 0x60 {
            let dl = lo32_of(d);
            let wl = lo32_of(w);
            crate::bitops::sign_extend32(
                if dl <= wl {
                    dl
                } else {
                    wl
                },
            )
        } else {
            let dl = lo32_of(d);
            let wl = lo32_of(w);
            crate::bitops::sign_extend32(
                if dl >= wl {
                    dl
                } else {
                    wl
                },
            )
        }
    } else {
        if sel == 0x04 {
            w
        } else if sel == 0x00 {
            crate::bitops::add_w64(d, w)
        } else if sel == 0x10 {
            d ^ w
        } else if sel == 0x30 {
            d & w
        } else if sel == 0x20 {
            d | w
        } else if sel == 0x40 {
            if !crate::bitops::signed_lt(w, d) {
                d
            } else {
                w
            }
        } else if sel == 0x50 {
            if !crate::bitops::signed_lt(d, w) {
                d
            } else {
                w
            }
        } else if sel == 0x60 {
            if d <= w {
                d
            } else {
                w
            }
        } else {
            if d >= w {
                d
            } else {
                w
            }
        }
    }
}

impl Cpu {
    /// The SYSTEM opcode: environment calls, breakpoints, trap returns,
    /// SFENCE.VMA as a no-op, and the Zicsr instructions.
    #[verifier::rlimit(100)]
    fn decode_system(&mut self) -> (r: Result<(), Exception>)
        requires
            old(self).wf(),
        ensures
            final(self).wf(),
            (r, final(self)@) == system_step(old(self)@),
    {
        let ins = self.instruction;
        let funct12 = (ins >> 20) & 0xFFF;
        let funct7 = (ins >> 25) & 0x7F;
        let funct3 = (ins >> 12) & 0x7;

        if funct3 == 0b000 {
            if funct12 == 0b0000_0000_0000 {
                // ECALL
                match self.csr.priv_level {
                    PrivLevel::USER => Err(Exception::EnvCallUmode),
                    PrivLevel::SUPERVISOR => Err(Exception::EnvCallSmode),
                    PrivLevel::MACHINE => Err(Exception::EnvCallMmode),
                    PrivLevel::RESERVED => {
                        self.fatal = true;
                        Ok(())
                    },
                }
            } else if funct12 == 0b0000_0000_0001 {
                // EBREAK
                Err(Exception::Breakpoint)
            } else if funct12 == 0b0000_0000_0010 {
                // URET is not provided.
                self.fatal = true;
                Ok(())
            } else if funct12 == 0b0001_0000_0010 {
                // SRET
                let spp = self.csr.read_bit(SSTATUS, 8);
                let spie = self.csr.read_bit(SSTATUS, 5);
                self.csr.write_bit(SSTATUS, 1, spie);
                self.csr.set_priv_level(if spp {
                    1
                } else {
                    0
                });
                self.csr.write_bit(SSTATUS, 5, true);
                self.csr.write_bit(SSTATUS, 8, false);

                let epc = self.csr.read(SEPC) & !3u64;
                if epc == 0 {
                    self.pc = 0;
                    self.halted = true;
                } else {
                    self.pc = crate::bitops::sub_w64(epc, 4);
                }
                Ok(())
            } else if funct12 == 0b0011_0000_0010 {
                // MRET
                let mpp = self.csr.read_bits(MSTATUS, 11..13);
                let mpie = self.csr.read_bit(MSTATUS, 7);
                proof {
                    crate::csr::lemma_low_mask64_values();
                    crate::bitops::lemma_u64_and_le(
                        crate::csr::csr_read(old(self)@.csr, MSTATUS) >> 11,
                        3,
                    );
                }
                self.csr.write_bit(MSTATUS, 3, mpie);
                self.csr.set_priv_level(mpp as u8);
                self.csr.write_bit(MSTATUS, 7, true);
                self.csr.write_bits(MSTATUS, 11..13, 0);

                let epc = self.csr.read(MEPC) & !3u64;
                if epc == 0 {
                    self.pc = 0;
                    self.halted = true;
                } else {
                    self.pc = crate::bitops::sub_w64(epc, 4);
                }
                Ok(())
            } else if funct7 == 0b000_1001 {
                // SFENCE.VMA: a no-op on this single-hart core.
                Ok(())
            } else {
                self.fatal = true;
                Ok(())
            }
        } else if funct3 == 0b100 {
            self.fatal = true;
            Ok(())
        } else {
            self.decode_zicsr()
        }
    }

    /// The Zicsr instructions.
    fn decode_zicsr(&mut self) -> (r: Result<(), Exception>)
        requires
            old(self).wf(),
            funct3_of(old(self).instruction) != 0,
            funct3_of(old(self).instruction) != 4,
        ensures
            final(self).wf(),
            r == Ok::<(), Exception>(()),
            final(self)@ == zicsr_step(old(self)@),
    {
        proof {
            crate::bitops::lemma_u32_and_le(self.instruction >> 12, 0x7);
        }
        let funct3 = (self.instruction >> 12) & 0x7;
        if funct3 == 0b001 {
            self.op_csrrw();
        } else if funct3 == 0b010 {
            self.op_csrrs();
        } else if funct3 == 0b011 {
            self.op_csrrc();
        } else if funct3 == 0b101 {
            self.op_csrrwi();
        } else if funct3 == 0b110 {
            self.op_csrrsi();
        } else {
            self.op_csrrci();
        }
        Ok(())
    }

    /// CSRRW: swap a CSR with rs1; rd takes the old value unless zero.
    fn op_csrrw(&mut self)
        requires
            old(self).wf(),
            funct3_of(old(self).instruction) == 1,
        ensures
            final(self).wf(),
            final(self)@ == zicsr_step(old(self)@),
    {
        let ins = self.instruction;
        proof {
            crate::bitops::lemma_u32_and_le(ins >> 20, 0xFFF);
        }
        let csr = ((ins >> 20) & 0xFFF) as u16;
        let rs1 = field_rs1(ins);
        let rd = field_rd(ins);
        let wdata = self.register.read(rs1);
        if rd != 0 {
            let data = self.csr.read(csr);
            self.register.write(rd, data);
        }
        self.csr.write(csr, wdata);
    }

    /// CSRRS: set the rs1 bits in a CSR; rd takes the old value.
    fn op_csrrs(&mut self)
        requires
            old(self).wf(),
            funct3_of(old(self).instruction) == 2,
        ensures
            final(self).wf(),
            final(self)@ == zicsr_step(old(self)@),
    {
        let ins = self.instruction;
        proof {
            crate::bitops::lemma_u32_and_le(ins >> 20, 0xFFF);
        }
        let csr = ((ins >> 20) & 0xFFF) as u16;
        let rs1 = field_rs1(ins);
        let rd = field_rd(ins);
        let data = self.csr.read(csr);
        let wdata = self.register.read(rs1);
        self.register.write(rd, data);
        self.csr.write(csr, data | wdata);
    }

    /// CSRRC: clear the rs1 bits in a CSR; rd takes the old value.
    fn op_csrrc(&mut self)
        requires
            old(self).wf(),
            funct3_of(old(self).instruction) == 3,
        ensures
            final(self).wf(),
            final(self)@ == zicsr_step(old(self)@),
    {
        let ins = self.instruction;
        proof {
            crate::bitops::lemma_u32_and_le(ins >> 20, 0xFFF);
        }
        let csr = ((ins >> 20) & 0xFFF) as u16;
        let rs1 = field_rs1(ins);
        let rd = field_rd(ins);
        let data = self.csr.read(csr);
        let wdata = self.register.read(rs1);
        self.register.write(rd, data);
        self.csr.write(csr, data & !wdata);
    }

    /// CSRRWI: write the immediate to a CSR; rd takes the old value
    /// unless zero.
    fn op_csrrwi(&mut self)
        requires
            old(self).wf(),
            funct3_of(old(self).instruction) == 5,
        ensures
            final(self).wf(),
            final(self)@ == zicsr_step(old(self)@),
    {
        let ins = self.instruction;
        proof {
            crate::bitops::lemma_u32_and_le(ins >> 20, 0xFFF);
        }
        let csr = ((ins >> 20) & 0xFFF) as u16;
        let uimm = ((ins >> 15) & 0x1F) as u64;
        let rd = field_rd(ins);
        if rd != 0 {
            let data = self.csr.read(csr);
            self.register.write(rd, data);
        }
        self.csr.write(csr, uimm);
    }

    /// CSRRSI: set the immediate bits in a CSR; rd takes the old value.
    fn op_csrrsi(&mut self)
        requires
            old(self).wf(),
            funct3_of(old(self).instruction) == 6,
        ensures
            final(self).wf(),
            final(self)@ == zicsr_step(old(self)@),
    {
        let ins = self.instruction;
        proof {
            crate::bitops::lemma_u32_and_le(ins >> 20, 0xFFF);
        }
        let csr = ((ins >> 20) & 0xFFF) as u16;
        let uimm = ((ins >> 15) & 0x1F) as u64;
        let rd = field_rd(ins);
        let data = self.csr.read(csr);
        self.register.write(rd, data);
        self.csr.write(csr, data | uimm);
    }

    /// CSRRCI: clear the immediate bits in a CSR; rd takes the old value.
    fn op_csrrci(&mut self)
        requires
            old(self).wf(),
            funct3_of(old(self).instruction) == 7,
        ensures
            final(self).wf(),
            final(self)@ == zicsr_step(old(self)@),
    {
        let ins = self.instruction;
        proof {
            crate::bitops::lemma_u32_and_le(ins >> 20, 0xFFF);
        }
        let csr = ((ins >> 20) & 0xFFF) as u16;
        let uimm = ((ins >> 15) & 0x1F) as u64;
        let rd = field_rd(ins);
        let data = self.csr.read(csr);
        self.register.write(rd, data);
        self.csr.write(csr, data & !uimm);
    }

    /// RV64I integer register-immediate word instructions (OP-IMM-32).
    #[verifier::rlimit(100)]
    fn decode_rv64i_itype(&mut self) -> (r: Result<(), Exception>)
        requires
            old(self).wf(),
        ensures
            final(self).wf(),
            r == Ok::<(), Exception>(()),
            final(self)@ == rv64i_itype_step(old(self)@),
    {
        let ins = self.instruction;
        let imm = imm_i(ins);
        let funct7 = (ins >> 25) & 0x7F;
        let rs1 = field_rs1(ins);
        let funct3 = (ins >> 12) & 0x7;
        let rd = field_rd(ins);
        let a = self.register.read(rs1);

        match funct3 {
            // ADDIW
            0b000 => {
                let v = add_w32(lo32_of(a), lo32_of(imm));
                let data = crate::bitops::sign_extend32(v);
                self.register.write(rd, data);
            },
            // SLLIW
            0b001 => {
                let v = exec_sllw(a, imm);
                self.register.write(rd, v);
            },
            0b101 => {
                if funct7 == 0b000_0000 {
                    // SRLIW
                    let v = exec_srlw(a, imm);
                    self.register.write(rd, v);
                } else if funct7 == 0b010_0000 {
                    // SRAIW
                    let v = exec_sraw(a, imm);
                    self.register.write(rd, v);
                } else {
                    self.fatal = true;
                }
            },
            _ => {
                self.fatal = true;
            },
        }

        Ok(())
    }

    /// RV64I/M integer register-register word instructions (OP-32).
    #[verifier::rlimit(100)]
    fn decode_rv64im_rtype(&mut self) -> (r: Result<(), Exception>)
        requires
            old(self).wf(),
        ensures
            final(self).wf(),
            r == Ok::<(), Exception>(()),
            final(self)@ == rv64im_step(old(self)@),
    {
        let ins = self.instruction;
        let funct7 = (ins >> 25) & 0x7F;
        let rs2 = field_rs2(ins);
        let rs1 = field_rs1(ins);
        let funct3 = (ins >> 12) & 0x7;
        let rd = field_rd(ins);
        let a = self.register.read(rs1);
        let b = self.register.read(rs2);

        match funct7 {
            0b000_0000 => match funct3 {
                // ADDW
                0b000 => {
                    let v = add_w32(lo32_of(a), lo32_of(b));
                    let data = crate::bitops::sign_extend32(v);
                    self.register.write(rd, data);
                },
                // SLLW
                0b001 => {
                    let v = exec_sllw(a, b);
                    self.register.write(rd, v);
                },
                // SRLW
                0b101 => {
                    let v = exec_srlw(a, b);
                    self.register.write(rd, v);
                },
                _ => {
                    self.fatal = true;
                },
            },
            0b010_0000 => match funct3 {
                // SUBW
                0b000 => {
                    let v = sub_w32(lo32_of(a), lo32_of(b));
                    let data = crate::bitops::sign_extend32(v);
                    self.register.write(rd, data);
                },
                // SRAW
                0b101 => {
                    let v = exec_sraw(a, b);
                    self.register.write(rd, v);
                },
                _ => {
                    self.fatal = true;
                },
            },
            // RV64M
            0b000_0001 => match funct3 {
                // MULW
                0b000 => {
                    let v = exec_mulw(a, b);
                    self.register.write(rd, v);
                },
                // DIVW
                0b100 => {
                    let v = exec_divw(a, b);
                    self.register.write(rd, v);
                },
                // DIVUW
                0b101 => {
                    let v = exec_divuw(a, b);
                    self.register.write(rd, v);
                },
                // REMW
                0b110 => {
                    let v = exec_remw(a, b);
                    self.register.write(rd, v);
                },
                // REMUW
                0b111 => {
                    let v = exec_remuw(a, b);
                    self.register.write(rd, v);
                },
                _ => {
                    self.fatal = true;
                },
            },
            _ => {
                self.fatal = true;
            },
        }

        Ok(())
    }

    /// The A extension: atomic read-modify-write operations, 32 bits
    /// wide for the word forms and 64 for the double-word forms. LR and
    /// SC are not provided.
    #[verifier::rlimit(100)]
    fn decode_rv64a(&mut self) -> (r: Result<(), Exception>)
        requires
            old(self).wf(),
        ensures
            final(self).wf(),
            (r, final(self)@) == amo_step(old(self)@),
    {
        let ins = self.instruction;
        let funct7 = (ins >> 25) & 0x7F;
        let sel = funct7 & 0x7C;
        let rs2 = field_rs2(ins);
        let rs1 = field_rs1(ins);
        let funct3 = (ins >> 12) & 0x7;
        let rd = field_rd(ins);

        if funct3 != 0b010 && funct3 != 0b011 {
            self.fatal = true;
            return Ok(());
        }
        if sel == 0x08 || sel == 0x0C || !(sel == 0x04 || sel == 0x00 || sel == 0x10 || sel == 0x30
            || sel == 0x20 || sel == 0x40 || sel == 0x50 || sel == 0x60 || sel == 0x70) {
            self.fatal = true;
            return Ok(());
        }

        let word = funct3 == 0b010;
        let addr = self.register.read(rs1);
        let d: u64 = if word {
            let v = self.mmu.read32(&self.csr, addr)?;
            crate::bitops::sign_extend32(v)
        } else {
            self.mmu.read64(&self.csr, addr)?
        };
        let w = self.register.read(rs2);
        self.register.write(rd, d);
        let newval = exec_amo_newval(sel, d, w, word);
        if word {
            proof {
                crate::bitops::lemma_cast_low32(lo32(newval));
            }
            self.mmu.write32(&self.csr, addr, lo32_of(newval))?;
        } else {
            self.mmu.write64(&self.csr, addr, newval)?;
        }
        Ok(())
    }
}



/// Register zero reads zero: whatever is written to whatever register,
/// index zero of the register file stays zero.
pub proof fn lemma_x0_reads_zero(s: Seq<u64>, i: u64, v: u64)
    requires
        s.len() == 32,
        s[0] == 0,
        i < 32,
    ensures
        xreg_write(s, i, v)[0] == 0,
{
}

/// The program counter stays four-byte aligned across instruction
/// execution: from an aligned counter, any instruction that neither ends
/// the run nor faults leaves the counter aligned after the step's
/// four-byte advance. Taken transfers check their target, and the
/// trap-return instructions mask the saved counter's low bits.
#[verifier::rlimit(100)]
#[verifier::spinoff_prover]
pub proof fn lemma_pc_alignment(c: CpuView)
    requires
        c.register.len() == 32,
        c.csr.len() == CSR_SIZE,
        c.pc % 4 == 0,
    ensures
        ({
            let (r, c1) = execute_spec(c);
            &&& (r is Ok ==> c1.pc % 4 == 0)
            &&& ((r is Ok && !c1.halted) ==> wadd64(c1.pc, 4) % 4 == 0)
        }),
{
    let (r, c1) = execute_spec(c);
    crate::bitops::lemma_mask4_aligned(csr_read(sret_step(c).csr, crate::csr::SEPC));
    crate::bitops::lemma_mask4_aligned(csr_read(mret_step(c).csr, crate::csr::MEPC));
    assert(pow64() % 4 == 0);
    if r is Ok {
        assert(c1.pc % 4 == 0);
    }
}

/// Delivering a trap and returning from it restores the pre-trap state:
/// for an exception that targets machine mode, executing MRET afterwards
/// brings the hart back to the pre-trap privilege level, restores the
/// machine interrupt-enable bit, and transfers control back to the
/// program counter the trap saved (the step's four-byte advance
/// included). The previous-enable and previous-privilege fields
/// themselves take their architectural reset values (MPIE set, MPP
/// user), so they are not claimed here.
pub proof fn lemma_trap_return_machine(c: CpuView, e: Exception)
    requires
        c.register.len() == 32,
        c.csr.len() == CSR_SIZE,
        c.pc % 4 == 0,
        crate::exception::exception_target(c.csr, crate::exception::exception_code(e))
            == PrivLevel::MACHINE,
    ensures
        ({
            let entry = crate::exception::exception_entry(c.csr, c.priv_level, c.pc, e);
            let after = mret_step(CpuView { csr: entry.0, priv_level: entry.1, pc: entry.2, ..c });
            &&& after.priv_level == c.priv_level
            &&& (csr_read(after.csr, MSTATUS) >> 3) & 1 == (csr_read(c.csr, MSTATUS) >> 3) & 1
            &&& (after.halted || after.pc == wsub64(c.pc, 4))
        }),
{
    let entry = crate::exception::exception_entry(c.csr, c.priv_level, c.pc, e);
    let after = mret_step(CpuView { csr: entry.0, priv_level: entry.1, pc: entry.2, ..c });
    let s0 = csr_read(c.csr, MSTATUS);
    let p = priv_code(c.priv_level);
    let mie = (s0 >> 3) & 1;
    let s1 = crate::exception::mstatus_on_trap(s0, c.priv_level);
    assert(p <= 3);
    crate::csr::lemma_csr_writable_values();
    let code = crate::exception::exception_code(e);
    let tval = crate::exception::exception_tval(e);
    let c1 = csr_write(c.csr, MEPC, c.pc);
    let c2 = csr_write(c1, crate::csr::MCAUSE, code);
    let c3 = csr_write(c2, crate::csr::MTVAL, tval);
    assert(csr_read(c3, MSTATUS) == s0);
    assert(entry.0 == csr_write(c3, MSTATUS, crate::exception::mstatus_on_trap(csr_read(c3, MSTATUS), c.priv_level)));
    assert(csr_read(entry.0, MSTATUS) == s1);
    assert(((s1 >> 11) & 3) == p && ((s1 >> 7) & 1) == mie && mie <= 1) by (bit_vector)
        requires
            s1 == (((s0 & !0x1888u64) | (((s0 >> 3) & 1) << 7)) | (p << 11)) as u64,
            mie == (s0 >> 3) & 1,
            p <= 3u64,
    ;
    assert(priv_of_code(p) == c.priv_level);
    crate::csr::lemma_low_mask64_values();
    let v1 = bit_assign(s1, 3, (s1 >> 7) & 1 == 1);
    let v2 = bit_assign(v1, 7, true);
    let v3 = bits_write(v2, 11, 13, 0);
    assert((v3 >> 3) & 1 == mie) by (bit_vector)
        requires
            mie == (s1 >> 7) & 1,
            v1 == (if (s1 >> 7) & 1 == 1 {
                s1 | (1u64 << 3)
            } else {
                s1 & !(1u64 << 3)
            }),
            v2 == v1 | (1u64 << 7),
            v3 == ((v2 & !(3u64 << 11)) | ((0u64 & 3u64) << 11)) as u64,
    ;
    assert(csr_read(entry.0, MEPC) == c.pc);
    crate::bitops::lemma_mask4_aligned(c.pc);
    assert(after.priv_level == c.priv_level);
}

/// The mnemonic of an instruction word, or "unknown".
pub open spec fn spec_mnemonic(i: u32) -> Seq<char> {
    let op = opcode_of(i);
    let f3 = funct3_of(i);
    let f7 = funct7_of(i);
    let f12 = funct12_of(i);
    let sel = f7 & 0x7C;
    if op == 0x37 {
        "LUI"@
    } else if op == 0x17 {
        "AUIPC"@
    } else if op == 0x6f {
        "JAL"@
    } else if op == 0x67 {
        "JALR"@
    } else if op == 0x63 {
        if f3 == 0 {
            "BEQ"@
        } else if f3 == 1 {
            "BNE"@
        } else if f3 == 4 {
            "BLT"@
        } else if f3 == 5 {
            "BGE"@
        } else if f3 == 6 {
            "BLTU"@
        } else if f3 == 7 {
            "BGEU"@
        } else {
            "unknown"@
        }
    } else if op == 0x03 {
        if f3 == 0 {
            "LB"@
        } else if f3 == 1 {
            "LH"@
        } else if f3 == 2 {
            "LW"@
        } else if f3 == 3 {
            "LD"@
        } else if f3 == 4 {
            "LBU"@
        } else if f3 == 5 {
            "LHU"@
        } else if f3 == 6 {
            "LWU"@
        } else {
            "unknown"@
        }
    } else if op == 0x23 {
        if f3 == 0 {
            "SB"@
        } else if f3 == 1 {
            "SH"@
        } else if f3 == 2 {
            "SW"@
        } else if f3 == 3 {
            "SD"@
        } else {
            "unknown"@
        }
    } else if op == 0x13 {
        if f3 == 0 {
            "ADDI"@
        } else if f3 == 1 {
            "SLLI"@
        } else if f3 == 2 {
            "SLTI"@
        } else if f3 == 3 {
            "SLTIU"@
        } else if f3 == 4 {
            "XORI"@
        } else if f3 == 6 {
            "ORI"@
        } else if f3 == 7 {
            "ANDI"@
        } else if f3 == 5 {
            if (f7 >> 1) == 0 {
                "SRLI"@
            } else if (f7 >> 1) == 0x10 {
                "SRAI"@
            } else {
                "unknown"@
            }
        } else {
            "unknown"@
        }
    } else if op == 0x33 {
        if f3 == 0 {
            if f7 == 0 {
                "ADD"@
            } else if f7 == 1 {
                "MUL"@
            } else if f7 == 0x20 {
                "SUB"@
            } else {
                "unknown"@
            }
        } else if f3 == 1 {
            if f7 == 0 {
                "SLL"@
            } else if f7 == 1 {
                "MULH"@
            } else {
                "unknown"@
            }
        } else if f3 == 2 {
            if f7 == 0 {
                "SLT"@
            } else if f7 == 1 {
                "MULHSU"@
            } else {
                "unknown"@
            }
        } else if f3 == 3 {
            if f7 == 0 {
                "SLTU"@
            } else if f7 == 1 {
                "MULHU"@
            } else {
                "unknown"@
            }
        } else if f3 == 4 {
            if f7 == 0 {
                "XOR"@
            } else if f7 == 1 {
                "DIV"@
            } else {
                "unknown"@
            }
        } else if f3 == 5 {
            if f7 == 0 {
                "SRL"@
            } else if f7 == 1 {
                "DIVU"@
            } else if f7 == 0x20 {
                "SRA"@
            } else {
                "unknown"@
            }
        } else if f3 == 6 {
            if f7 == 0 {
                "OR"@
            } else if f7 == 1 {
                "REM"@
            } else {
                "unknown"@
            }
        } else if f3 == 7 {
            if f7 == 0 {
                "AND"@
            } else if f7 == 1 {
                "REMU"@
            } else {
                "unknown"@
            }
        } else {
            "unknown"@
        }
    } else if op == 0x0F {
        if f3 == 0 {
            "FENCE"@
        } else if f3 == 1 {
            "FENCE.I"@
        } else {
            "unknown"@
        }
    } else if op == 0x73 {
        if f3 == 0 {
            if f12 == 0 {
                "ECALL"@
            } else if f12 == 1 {
                "EBREAK"@
            } else {
                if f7 == 0 {
                    "URET"@
                } else if f7 == 0x08 {
                    "SRET"@
                } else if f7 == 0x18 {
                    "MRET"@
                } else if f7 == 0x09 {
                    "SFENCE.VMA"@
                } else {
                    "unknown"@
                }
            }
        } else {
            if f3 == 1 {
                "CSRRW"@
            } else if f3 == 2 {
                "CSRRS"@
            } else if f3 == 3 {
                "CSRRC"@
            } else if f3 == 5 {
                "CSRRWI"@
            } else if f3 == 6 {
                "CSRRSI"@
            } else if f3 == 7 {
                "CSRRCI"@
            } else {
                "unknown"@
            }
        }
    } else if op == 0x1B {
        if f3 == 0 {
            "ADDIW"@
        } else if f3 == 1 {
            "SLLIW"@
        } else if f3 == 5 {
            if f7 == 0 {
                "SRLIW"@
            } else if f7 == 0x20 {
                "SRAIW"@
            } else {
                "unknown"@
            }
        } else {
            "unknown"@
        }
    } else if op == 0x3B {
        if f7 == 0 {
            if f3 == 0 {
                "ADDW"@
            } else if f3 == 1 {
                "SLLW"@
            } else if f3 == 5 {
                "SRLW"@
            } else {
                "unknown"@
            }
        } else if f7 == 0x20 {
            if f3 == 0 {
                "SUBW"@
            } else if f3 == 5 {
                "SRAW"@
            } else {
                "unknown"@
            }
        } else if f7 == 1 {
            if f3 == 0 {
                "MULW"@
            } else if f3 == 4 {
                "DIVW"@
            } else if f3 == 5 {
                "DIVUW"@
            } else if f3 == 6 {
                "REMW"@
            } else if f3 == 7 {
                "REMUW"@
            } else {
                "unknown"@
            }
        } else {
            "unknown"@
        }
    } else if op == 0x2F {
        if f3 == 2 {
            if sel == 0x8 {
                "LR.W"@
            } else if sel == 0xc {
                "SC.W"@
            } else if sel == 0x4 {
                "AMOSWAP.W"@
            } else if sel == 0x0 {
                "AMOADD.W"@
            } else if sel == 0x10 {
                "AMOXOR.W"@
            } else if sel == 0x30 {
                "AMOAND.W"@
            } else if sel == 0x20 {
                "AMOOR.W"@
            } else if sel == 0x40 {
                "AMOMIN.W"@
            } else if sel == 0x50 {
                "AMOMAX.W"@
            } else if sel == 0x60 {
                "AMOMINU.W"@
            } else if sel == 0x70 {
                "AMOMAXU.W"@
            } else {
                "unknown"@
            }
        } else if f3 == 3 {
            if sel == 0x8 {
                "LR.D"@
            } else if sel == 0xc {
                "SC.D"@
            } else if sel == 0x4 {
                "AMOSWAP.D"@
            } else if sel == 0x0 {
                "AMOADD.D"@
            } else if sel == 0x10 {
                "AMOXOR.D"@
            } else if sel == 0x30 {
                "AMOAND.D"@
            } else if sel == 0x20 {
                "AMOOR.D"@
            } else if sel == 0x40 {
                "AMOMIN.D"@
            } else if sel == 0x50 {
                "AMOMAX.D"@
            } else if sel == 0x60 {
                "AMOMINU.D"@
            } else if sel == 0x70 {
                "AMOMAXU.D"@
            } else {
                "unknown"@
            }
        } else {
            "unknown"@
        }
    } else {
        "unknown"@
    }
}

/// The mnemonic of an instruction word, or "unknown"; what the
/// per-instruction debug log prints beside the raw word.
pub fn mnemonic(i: u32) -> (r: String)
    ensures
        r@ == spec_mnemonic(i),
{
    let op = i & 0x7F;
    let f3 = (i >> 12) & 0x7;
    let f7 = (i >> 25) & 0x7F;
    let f12 = (i >> 20) & 0xFFF;
    let sel = f7 & 0x7C;
    if op == 0x37 {
        "LUI".to_string()
    } else if op == 0x17 {
        "AUIPC".to_string()
    } else if op == 0x6f {
        "JAL".to_string()
    } else if op == 0x67 {
        "JALR".to_string()
    } else if op == 0x63 {
        if f3 == 0 {
            "BEQ".to_string()
        } else if f3 == 1 {
            "BNE".to_string()
        } else if f3 == 4 {
            "BLT".to_string()
        } else if f3 == 5 {
            "BGE".to_string()
        } else if f3 == 6 {
            "BLTU".to_string()
        } else if f3 == 7 {
            "BGEU".to_string()
        } else {
            "unknown".to_string()
        }
    } else if op == 0x03 {
        if f3 == 0 {
            "LB".to_string()
        } else if f3 == 1 {
            "LH".to_string()
        } else if f3 == 2 {
            "LW".to_string()
        } else if f3 == 3 {
            "LD".to_string()
        } else if f3 == 4 {
            "LBU".to_string()
        } else if f3 == 5 {
            "LHU".to_string()
        } else if f3 == 6 {
            "LWU".to_string()
        } else {
            "unknown".to_string()
        }
    } else if op == 0x23 {
        if f3 == 0 {
            "SB".to_string()
        } else if f3 == 1 {
            "SH".to_string()
        } else if f3 == 2 {
            "SW".to_string()
        } else if f3 == 3 {
            "SD".to_string()
        } else {
            "unknown".to_string()
        }
    } else if op == 0x13 {
        if f3 == 0 {
            "ADDI".to_string()
        } else if f3 == 1 {
            "SLLI".to_string()
        } else if f3 == 2 {
            "SLTI".to_string()
        } else if f3 == 3 {
            "SLTIU".to_string()
        } else if f3 == 4 {
            "XORI".to_string()
        } else if f3 == 6 {
            "ORI".to_string()
        } else if f3 == 7 {
            "ANDI".to_string()
        } else if f3 == 5 {
            if (f7 >> 1) == 0 {
                "SRLI".to_string()
            } else if (f7 >> 1) == 0x10 {
                "SRAI".to_string()
            } else {
                "unknown".to_string()
            }
        } else {
            "unknown".to_string()
        }
    } else if op == 0x33 {
        if f3 == 0 {
            if f7 == 0 {
                "ADD".to_string()
            } else if f7 == 1 {
                "MUL".to_string()
            } else if f7 == 0x20 {
                "SUB".to_string()
            } else {
                "unknown".to_string()
            }
        } else if f3 == 1 {
            if f7 == 0 {
                "SLL".to_string()
            } else if f7 == 1 {
                "MULH".to_string()
            } else {
                "unknown".to_string()
            }
        } else if f3 == 2 {
            if f7 == 0 {
                "SLT".to_string()
            } else if f7 == 1 {
                "MULHSU".to_string()
            } else {
                "unknown".to_string()
            }
        } else if f3 == 3 {
            if f7 == 0 {
                "SLTU".to_string()
            } else if f7 == 1 {
                "MULHU".to_string()
            } else {
                "unknown".to_string()
            }
        } else if f3 == 4 {
            if f7 == 0 {
                "XOR".to_string()
            } else if f7 == 1 {
                "DIV".to_string()
            } else {
                "unknown".to_string()
            }
        } else if f3 == 5 {
            if f7 == 0 {
                "SRL".to_string()
            } else if f7 == 1 {
                "DIVU".to_string()
            } else if f7 == 0x20 {
                "SRA".to_string()
            } else {
                "unknown".to_string()
            }
        } else if f3 == 6 {
            if f7 == 0 {
                "OR".to_string()
            } else if f7 == 1 {
                "REM".to_string()
            } else {
                "unknown".to_string()
            }
        } else if f3 == 7 {
            if f7 == 0 {
                "AND".to_string()
            } else if f7 == 1 {
                "REMU".to_string()
            } else {
                "unknown".to_string()
            }
        } else {
            "unknown".to_string()
        }
    } else if op == 0x0F {
        if f3 == 0 {
            "FENCE".to_string()
        } else if f3 == 1 {
            "FENCE.I".to_string()
        } else {
            "unknown".to_string()
        }
    } else if op == 0x73 {
        if f3 == 0 {
            if f12 == 0 {
                "ECALL".to_string()
            } else if f12 == 1 {
                "EBREAK".to_string()
            } else {
                if f7 == 0 {
                    "URET".to_string()
                } else if f7 == 0x08 {
                    "SRET".to_string()
                } else if f7 == 0x18 {
                    "MRET".to_string()
                } else if f7 == 0x09 {
                    "SFENCE.VMA".to_string()
                } else {
                    "unknown".to_string()
                }
            }
        } else {
            if f3 == 1 {
                "CSRRW".to_string()
            } else if f3 == 2 {
                "CSRRS".to_string()
            } else if f3 == 3 {
                "CSRRC".to_string()
            } else if f3 == 5 {
                "CSRRWI".to_string()
            } else if f3 == 6 {
                "CSRRSI".to_string()
            } else if f3 == 7 {
                "CSRRCI".to_string()
            } else {
                "unknown".to_string()
            }
        }
    } else if op == 0x1B {
        if f3 == 0 {
            "ADDIW".to_string()
        } else if f3 == 1 {
            "SLLIW".to_string()
        } else if f3 == 5 {
            if f7 == 0 {
                "SRLIW".to_string()
            } else if f7 == 0x20 {
                "SRAIW".to_string()
            } else {
                "unknown".to_string()
            }
        } else {
            "unknown".to_string()
        }
    } else if op == 0x3B {
        if f7 == 0 {
            if f3 == 0 {
                "ADDW".to_string()
            } else if f3 == 1 {
                "SLLW".to_string()
            } else if f3 == 5 {
                "SRLW".to_string()
            } else {
                "unknown".to_string()
            }
        } else if f7 == 0x20 {
            if f3 == 0 {
                "SUBW".to_string()
            } else if f3 == 5 {
                "SRAW".to_string()
            } else {
                "unknown".to_string()
            }
        } else if f7 == 1 {
            if f3 == 0 {
                "MULW".to_string()
            } else if f3 == 4 {
                "DIVW".to_string()
            } else if f3 == 5 {
                "DIVUW".to_string()
            } else if f3 == 6 {
                "REMW".to_string()
            } else if f3 == 7 {
                "REMUW".to_string()
            } else {
                "unknown".to_string()
            }
        } else {
            "unknown".to_string()
        }
    } else if op == 0x2F {
        if f3 == 2 {
            if sel == 0x8 {
                "LR.W".to_string()
            } else if sel == 0xc {
                "SC.W".to_string()
            } else if sel == 0x4 {
                "AMOSWAP.W".to_string()
            } else if sel == 0x0 {
                "AMOADD.W".to_string()
            } else if sel == 0x10 {
                "AMOXOR.W".to_string()
            } else if sel == 0x30 {
                "AMOAND.W".to_string()
            } else if sel == 0x20 {
                "AMOOR.W".to_string()
            } else if sel == 0x40 {
                "AMOMIN.W".to_string()
            } else if sel == 0x50 {
                "AMOMAX.W".to_string()
            } else if sel == 0x60 {
                "AMOMINU.W".to_string()
            } else if sel == 0x70 {
                "AMOMAXU.W".to_string()
            } else {
                "unknown".to_string()
            }
        } else if f3 == 3 {
            if sel == 0x8 {
                "LR.D".to_string()
            } else if sel == 0xc {
                "SC.D".to_string()
            } else if sel == 0x4 {
                "AMOSWAP.D".to_string()
            } else if sel == 0x0 {
                "AMOADD.D".to_string()
            } else if sel == 0x10 {
                "AMOXOR.D".to_string()
            } else if sel == 0x30 {
                "AMOAND.D".to_string()
            } else if sel == 0x20 {
                "AMOOR.D".to_string()
            } else if sel == 0x40 {
                "AMOMIN.D".to_string()
            } else if sel == 0x50 {
                "AMOMAX.D".to_string()
            } else if sel == 0x60 {
                "AMOMINU.D".to_string()
            } else if sel == 0x70 {
                "AMOMAXU.D".to_string()
            } else {
                "unknown".to_string()
            }
        } else {
            "unknown".to_string()
        }
    } else {
        "unknown".to_string()
    }
}

/// Delivering a trap and returning from it restores the pre-trap state
/// on the supervisor path too: for an exception delegated to supervisor
/// mode, taken from user or supervisor mode, executing SRET afterwards
/// restores the pre-trap privilege level and the supervisor
/// interrupt-enable bit, and transfers control back to the saved
/// program counter. SPIE and SPP themselves take their architectural
/// reset values, so they are not claimed here.
#[verifier::rlimit(100)]
pub proof fn lemma_trap_return_supervisor(c: CpuView, e: Exception)
    requires
        c.register.len() == 32,
        c.csr.len() == CSR_SIZE,
        c.pc % 4 == 0,
        crate::exception::exception_target(c.csr, crate::exception::exception_code(e))
            == PrivLevel::SUPERVISOR,
        c.priv_level == PrivLevel::USER || c.priv_level == PrivLevel::SUPERVISOR,
    ensures
        ({
            let entry = crate::exception::exception_entry(c.csr, c.priv_level, c.pc, e);
            let after = sret_step(CpuView { csr: entry.0, priv_level: entry.1, pc: entry.2, ..c });
            &&& after.priv_level == c.priv_level
            &&& (csr_read(after.csr, SSTATUS) >> 1) & 1 == (csr_read(c.csr, SSTATUS) >> 1) & 1
            &&& (after.halted || after.pc == wsub64(c.pc, 4))
        }),
{
    let entry = crate::exception::exception_entry(c.csr, c.priv_level, c.pc, e);
    let after = sret_step(CpuView { csr: entry.0, priv_level: entry.1, pc: entry.2, ..c });
    crate::csr::lemma_csr_writable_values();
    let mask = crate::csr::SSTATUS_MASK;
    let m0 = c.csr[MSTATUS as int];
    let s0v = csr_read(c.csr, SSTATUS);
    let p = priv_code(c.priv_level);
    let sie0 = (s0v >> 1) & 1;
    let s1v = crate::exception::sstatus_on_trap(s0v, c.priv_level);
    assert(p <= 1);

    // The trap entry: the three save registers, then the masked status
    // write into the machine register.
    let code = crate::exception::exception_code(e);
    let tval = crate::exception::exception_tval(e);
    let c1 = csr_write(c.csr, SEPC, c.pc);
    let c2 = csr_write(c1, crate::csr::SCAUSE, code);
    let c3 = csr_write(c2, crate::csr::STVAL, tval);
    assert(csr_read(c3, SSTATUS) == s0v);
    assert(entry.0 == csr_write(c3, SSTATUS, s1v));
    let m1 = (m0 & !mask) | (s1v & mask);
    assert(entry.0[MSTATUS as int] == m1);
    assert(csr_read(entry.0, SSTATUS) == m1 & mask);
    assert(m1 & 0x8000_0000_000D_E133u64 == s1v && s1v & 0x8000_0000_000D_E133u64 == s1v && (s1v
        >> 8) & 1 == p & 1 && (s1v >> 5) & 1 == sie0 && sie0 <= 1) by (bit_vector)
        requires
            s0v == m0 & 0x8000_0000_000D_E133u64,
            sie0 == (s0v >> 1) & 1,
            s1v == (((s0v & !0x122u64) | (((s0v >> 1) & 1) << 5)) | ((p & 1) << 8)) as u64,
            m1 == (m0 & !0x8000_0000_000D_E133u64) | (s1v & 0x8000_0000_000D_E133u64),
            p <= 1u64,
    ;

    // The return: three bit writes through the supervisor view.
    let b_spie = (s1v >> 5) & 1 == 1;
    let w1v = bit_assign(s1v, 1, b_spie);
    let d1 = csr_write(entry.0, SSTATUS, w1v);
    assert(csr_read(d1, SSTATUS) == ((m1 & !mask) | (w1v & mask)) & mask);
    let r1 = ((m1 & !mask) | (w1v & mask)) & mask;
    assert(r1 == w1v) by (bit_vector)
        requires
            w1v == (if b_spie {
                s1v | (1u64 << 1)
            } else {
                s1v & !(1u64 << 1)
            }),
            s1v & 0x8000_0000_000D_E133u64 == s1v,
            r1 == ((m1 & !0x8000_0000_000D_E133u64) | (w1v & 0x8000_0000_000D_E133u64))
                & 0x8000_0000_000D_E133u64,
    ;
    assert((w1v >> 1) & 1 == sie0) by (bit_vector)
        requires
            w1v == (if b_spie {
                s1v | (1u64 << 1)
            } else {
                s1v & !(1u64 << 1)
            }),
            b_spie == ((s1v >> 5) & 1 == 1),
            (s1v >> 5) & 1 == sie0,
            sie0 <= 1u64,
    ;
    assert(w1v & 0x8000_0000_000D_E133u64 == w1v) by (bit_vector)
        requires
            w1v == (if b_spie {
                s1v | (1u64 << 1)
            } else {
                s1v & !(1u64 << 1)
            }),
            s1v & 0x8000_0000_000D_E133u64 == s1v,
    ;
    let w2v = bit_assign(w1v, 5, true);
    let d2 = csr_write(d1, SSTATUS, w2v);
    let mr1 = d1[MSTATUS as int];
    let r2 = ((mr1 & !mask) | (w2v & mask)) & mask;
    assert(csr_read(d2, SSTATUS) == r2);
    let w3v = bit_assign(w2v, 8, false);
    let d3 = csr_write(d2, SSTATUS, w3v);
    let mr2 = d2[MSTATUS as int];
    let r3 = ((mr2 & !mask) | (w3v & mask)) & mask;
    assert(csr_read(d3, SSTATUS) == r3);
    assert(mr1 & mask == csr_read(d1, SSTATUS) && mr2 & mask == csr_read(d2, SSTATUS));
    assert(r2 == w2v && w2v & 0x8000_0000_000D_E133u64 == w2v && (w2v >> 1) & 1 == sie0)
        by (bit_vector)
        requires
            w1v & 0x8000_0000_000D_E133u64 == w1v,
            (w1v >> 1) & 1 == sie0,
            sie0 <= 1u64,
            w2v == w1v | (1u64 << 5),
            r2 == ((mr1 & !0x8000_0000_000D_E133u64) | (w2v & 0x8000_0000_000D_E133u64))
                & 0x8000_0000_000D_E133u64,
            mr1 & 0x8000_0000_000D_E133u64 == w1v,
    ;
    assert(mr2 & mask == w2v);
    assert(r3 == w3v && (w3v >> 1) & 1 == sie0) by (bit_vector)
        requires
            w2v & 0x8000_0000_000D_E133u64 == w2v,
            (w2v >> 1) & 1 == sie0,
            sie0 <= 1u64,
            w3v == w2v & !(1u64 << 8),
            r3 == ((mr2 & !0x8000_0000_000D_E133u64) | (w3v & 0x8000_0000_000D_E133u64))
                & 0x8000_0000_000D_E133u64,
            mr2 & 0x8000_0000_000D_E133u64 == w2v,
    ;
    // Tie the chain to sret_step's own writes.
    let sv = csr_read(entry.0, SSTATUS);
    assert(sv == s1v);
    let e1 = csr_write(entry.0, SSTATUS, bit_assign(sv, 1, (sv >> 5) & 1 == 1));
    assert(e1 == d1);
    assert(csr_read(e1, SSTATUS) == w1v);
    let e2 = csr_write(e1, SSTATUS, bit_assign(csr_read(e1, SSTATUS), 5, true));
    assert(e2 == d2);
    assert(csr_read(e2, SSTATUS) == w2v);
    let e3 = csr_write(e2, SSTATUS, bit_assign(csr_read(e2, SSTATUS), 8, false));
    assert(e3 == d3);
    assert(after.csr == e3);

    // The saved counter is untouched by the status writes.
    assert(csr_read(entry.0, SEPC) == c.pc);
    crate::bitops::lemma_mask4_aligned(c.pc);
    assert(0u64 & 1 == 0 && 1u64 & 1 == 1) by (bit_vector);
    assert((sv >> 8) & 1 == p & 1);
    assert(after.priv_level == c.priv_level);
    assert(csr_read(after.csr, SSTATUS) == w3v);
}

/// Division by zero writes minus one through DIV and DIVU and the
/// dividend through REM and REMU.
pub proof fn lemma_div_rem_by_zero(a: u64)
    ensures
        div64(a, 0) == 0xFFFF_FFFF_FFFF_FFFFu64,
        rem64(a, 0) == a,
        divu64(a, 0) == 0xFFFF_FFFF_FFFF_FFFFu64,
        remu64(a, 0) == a,
{
}

/// The byte 0xFF sign-extends to all ones: what LB writes for it, where
/// LBU writes the zero-extended 0xFF.
pub proof fn lemma_byte_extension()
    ensures
        sext8(0xFF) == 0xFFFF_FFFF_FFFF_FFFFu64,
        0xFFu8 as u64 == 0xFF,
{
}

/// An exception raised during execution cancels the instruction's
/// control effects: the program counter, the CSR file and the privilege
/// level are exactly as before the instruction. (An atomic whose store
/// half faults has already written rd, as the hardware's register
/// write-back order has it, so the register file is not claimed here.)
#[verifier::rlimit(100)]
#[verifier::spinoff_prover]
pub proof fn lemma_exception_cancels(c: CpuView)
    requires
        c.register.len() == 32,
        c.csr.len() == CSR_SIZE,
    ensures
        ({
            let (r, c1) = execute_spec(c);
            r is Err ==> c1.csr == c.csr && c1.pc == c.pc && c1.priv_level == c.priv_level
                && c1.halted == c.halted
        }),
{
}

/// The program counter is four-byte aligned after every whole step:
/// from an aligned counter, with trap vectors whose bases (the vector
/// value with its mode bit cleared) are aligned, one step leaves the
/// counter aligned, whatever it did -- run on, trap, deliver an
/// interrupt, halt, or stop. A guest writing a vector register whose
/// base is only two-byte aligned is the one state the architecture's
/// vector masking leaves out of this claim.
#[verifier::rlimit(100)]
#[verifier::spinoff_prover]
pub proof fn lemma_step_pc_alignment(c: CpuView)
    requires
        c.register.len() == 32,
        c.csr.len() == CSR_SIZE,
        c.pc % 4 == 0,
        (csr_read(c.csr, crate::csr::MTVEC) & !1u64) % 4 == 0,
        (csr_read(c.csr, crate::csr::STVEC) & !1u64) % 4 == 0,
        (csr_read(c.csr, crate::csr::UTVEC) & !1u64) % 4 == 0,
    ensures
        step_spec(c).0.pc % 4 == 0,
{
    crate::csr::lemma_csr_writable_values();
    assert(pow64() % 4 == 0);
    let fr = step_front_spec(c);
    let c2 = fr.0;
    let t = crate::bus::bus_tick_spec(c.bus, csr_read(c.csr, MIP));
    let c1 = CpuView { bus: t.0, csr: csr_write(c.csr, MIP, t.1), ..c };
    assert(csr_read(c1.csr, crate::csr::MTVEC) == csr_read(c.csr, crate::csr::MTVEC));
    assert(csr_read(c1.csr, crate::csr::STVEC) == csr_read(c.csr, crate::csr::STVEC));
    assert(csr_read(c1.csr, crate::csr::UTVEC) == csr_read(c.csr, crate::csr::UTVEC));

    // The front phase: a delivered interrupt lands on an aligned vector.
    let pending = csr_read(c1.csr, MIP);
    let irq = match t.0.plic_irq {
        Some(n) => irq_source(n),
        None => 0,
    };
    match pending_interrupt(pending, irq) {
        None => {
            assert(c2.pc % 4 == 0);
        },
        Some(i) => {
            if interrupt_taken(c1.csr, c1.priv_level, i) {
                lemma_interrupt_entry_pc_aligned(c1.csr, c1.priv_level, c1.pc, i);
                assert(c2.pc % 4 == 0);
            } else {
                assert(c2.pc % 4 == 0);
            }
        },
    }

    // The vector registers are untouched by the front phase.
    lemma_front_keeps_tvec(c, c1, c2);

    // The back phase: fetch, watch, execute, advance.
    let f = fetch_spec(c2);
    match f.0 {
        Err(e) => {
            if crate::exception::is_access_fault(e) {
                assert(step_spec(c).0.pc == c2.pc);
            } else {
                lemma_exception_entry_pc_aligned(f.1.csr, f.1.priv_level, f.1.pc, e);
            }
        },
        Ok(_) => {
            let c3 = f.1;
            let hit = watch_hit(c3);
            if hit && c3.watchpoint.2 is EXIT {
                assert(step_spec(c).0.pc == c3.pc);
            } else {
                let c4 = if hit {
                    CpuView { step: true, debug: true, ..c3 }
                } else {
                    c3
                };
                let x = execute_spec(c4);
                lemma_pc_alignment(c4);
                match x.0 {
                    Err(e) => {
                        if crate::exception::is_access_fault(e) {
                            lemma_exception_cancels(c4);
                            assert(step_spec(c).0.pc == x.1.pc);
                        } else {
                            lemma_exception_cancels(c4);
                            lemma_exception_entry_pc_aligned(x.1.csr, x.1.priv_level, x.1.pc, e);
                        }
                    },
                    Ok(_) => {
                        assert(step_spec(c).0.pc % 4 == 0);
                    },
                }
            }
        },
    }
}

/// The front phase of a step leaves the trap vector registers as they
/// were.
proof fn lemma_front_keeps_tvec(c: CpuView, c1: CpuView, c2: CpuView)
    requires
        c.csr.len() == CSR_SIZE,
        c1.csr == csr_write(
            c.csr,
            MIP,
            crate::bus::bus_tick_spec(c.bus, csr_read(c.csr, MIP)).1,
        ),
        c2 == step_front_spec(c).0,
    ensures
        csr_read(c2.csr, crate::csr::MTVEC) == csr_read(c.csr, crate::csr::MTVEC),
        csr_read(c2.csr, crate::csr::STVEC) == csr_read(c.csr, crate::csr::STVEC),
        csr_read(c2.csr, crate::csr::UTVEC) == csr_read(c.csr, crate::csr::UTVEC),
{
    crate::csr::lemma_csr_writable_values();
}

/// A delivered interrupt lands on a vector whose base is aligned: the
/// entry's counter is four-byte aligned when the target vector
/// register's base is.
proof fn lemma_interrupt_entry_pc_aligned(cs: Seq<u64>, prv: PrivLevel, pc: u64, i: Interrupt)
    requires
        cs.len() == CSR_SIZE,
        (csr_read(cs, crate::csr::MTVEC) & !1u64) % 4 == 0,
        (csr_read(cs, crate::csr::STVEC) & !1u64) % 4 == 0,
        (csr_read(cs, crate::csr::UTVEC) & !1u64) % 4 == 0,
    ensures
        interrupt_entry(cs, prv, pc, i).2 % 4 == 0,
{
    crate::csr::lemma_csr_writable_values();
    assert(pow64() % 4 == 0);
    let tv = interrupt_entry(cs, prv, pc, i).2;
    let code = crate::interrupt::interrupt_code(i);
    let target = crate::interrupt::interrupt_target(cs, code);
    if target == PrivLevel::MACHINE {
        assert(tv % 4 == 0);
    } else if target == PrivLevel::SUPERVISOR {
        assert(tv % 4 == 0);
    } else {
        assert(tv % 4 == 0);
    }
}

/// A delivered exception lands on a vector whose base is aligned.
proof fn lemma_exception_entry_pc_aligned(cs: Seq<u64>, prv: PrivLevel, pc: u64, e: Exception)
    requires
        cs.len() == CSR_SIZE,
        (csr_read(cs, crate::csr::MTVEC) & !1u64) % 4 == 0,
        (csr_read(cs, crate::csr::STVEC) & !1u64) % 4 == 0,
        (csr_read(cs, crate::csr::UTVEC) & !1u64) % 4 == 0,
    ensures
        crate::exception::exception_entry(cs, prv, pc, e).2 % 4 == 0,
{
    crate::csr::lemma_csr_writable_values();
}

} // verus!
