use rv64emu::bus::{CLINT_BASE, UART0_BASE};
use rv64emu::cpu::{step, Cpu, Registers, StepOutcome, WatchExec};
use rv64emu::csr::{PrivLevel, MCAUSE, MEPC, MIE, MIP, MSTATUS, MTVAL, MTVEC, SATP};
use rv64emu::exception::Exception;

const BASE: u64 = 0x8000_0000;

fn run(program: &[u32]) -> Cpu {
    let mut cpu = Cpu::new();
    for (i, word) in program.iter().enumerate() {
        cpu.mmu.write32(&cpu.csr, BASE + (i as u64) * 4, *word).unwrap();
    }
    for _ in 0..program.len() {
        cpu.fetch().unwrap();
        cpu.execute().unwrap();
        cpu.pc += 4;
    }
    cpu
}

#[test]
fn test_div_by_zero() {
    // addi t0, zero, 7; addi t1, zero, 0; div t2, t0, t1
    let cpu = run(&[0x00700293, 0x00000313, 0x0262C3B3]);
    assert_eq!(cpu.register.read(Registers::T2 as usize), 0xFFFF_FFFF_FFFF_FFFF);
}

#[test]
fn test_rem_by_zero() {
    // addi t0, zero, 7; addi t1, zero, 0; rem t2, t0, t1
    let cpu = run(&[0x00700293, 0x00000313, 0x0262E3B3]);
    assert_eq!(cpu.register.read(Registers::T2 as usize), 7);
}

#[test]
fn test_div_overflow() {
    // t0 = INT64_MIN; t1 = -1; div t2, t0, t1
    let cpu = run(&[0x00100293, 0x03F29293, 0xFFF00313, 0x0262C3B3]);
    assert_eq!(cpu.register.read(Registers::T2 as usize), 0x8000_0000_0000_0000);
}

#[test]
fn test_rem_overflow() {
    // t0 = INT64_MIN; t1 = -1; rem t2, t0, t1
    let cpu = run(&[0x00100293, 0x03F29293, 0xFFF00313, 0x0262E3B3]);
    assert_eq!(cpu.register.read(Registers::T2 as usize), 0);
}

#[test]
fn test_write_to_x0() {
    // addi x0, x0, 5: reads of x0 still yield 0
    let cpu = run(&[0x00500013]);
    assert_eq!(cpu.register.read(Registers::ZERO as usize), 0);
}

#[test]
fn test_lbu_zero_extends() {
    // addi t0, zero, -1; auipc a0, 0; sb t0, 64(a0); lbu t1, 64(a0);
    // lb t2, 64(a0)
    let cpu = run(&[0xFFF00293, 0x00000517, 0x04550023, 0x04054303, 0x04050383]);
    assert_eq!(cpu.register.read(Registers::T1 as usize), 0x0000_0000_0000_00FF);
    assert_eq!(cpu.register.read(Registers::T2 as usize), 0xFFFF_FFFF_FFFF_FFFF);
}

#[test]
fn test_memory_roundtrip() {
    let mut cpu = Cpu::new();
    let a = BASE + 0x1000;
    cpu.mmu.write8(&cpu.csr, a, 0xAB).unwrap();
    assert_eq!(cpu.mmu.read8(&cpu.csr, a).unwrap(), 0xAB);
    cpu.mmu.write16(&cpu.csr, a, 0xBEEF).unwrap();
    assert_eq!(cpu.mmu.read16(&cpu.csr, a).unwrap(), 0xBEEF);
    cpu.mmu.write32(&cpu.csr, a, 0xDEAD_BEEF).unwrap();
    assert_eq!(cpu.mmu.read32(&cpu.csr, a).unwrap(), 0xDEAD_BEEF);
    cpu.mmu.write64(&cpu.csr, a, 0x0123_4567_89AB_CDEF).unwrap();
    assert_eq!(cpu.mmu.read64(&cpu.csr, a).unwrap(), 0x0123_4567_89AB_CDEF);
}

#[test]
fn test_mtime_progression() {
    // Run 80 ticks with mtimecmp = 5: MTIME reaches 10 and MTIP rises.
    let mut cpu = Cpu::new();
    cpu.mmu.bus.write64(CLINT_BASE + 0x4000, 5);
    let mut mip = cpu.csr.read(MIP);
    for _ in 0..80 {
        cpu.mmu.tick(&mut mip);
    }
    cpu.csr.write(MIP, mip);
    assert_eq!(cpu.mmu.bus.read64(CLINT_BASE + 0xBFF8), 10);
    assert_eq!(cpu.csr.read(MIP) & 0x80, 0x80);
}

#[test]
fn test_msip_reflected() {
    // Write 1 to the MSIP offset: mip.MSIP rises on the next tick.
    let mut cpu = Cpu::new();
    cpu.mmu.bus.write8(CLINT_BASE, 0x1);
    let mut mip = cpu.csr.read(MIP);
    cpu.mmu.tick(&mut mip);
    cpu.csr.write(MIP, mip);
    assert_eq!(cpu.csr.read(MIP) & 0x8, 0x8);
}

#[test]
fn test_page_fault_on_load() {
    // With SATP.MODE nonzero and the root PTE invalid, a load at virtual
    // 0x1000 raises a load page fault; the trap writes mcause = 13,
    // mtval = 0x1000, mepc = pc, and jumps to MTVEC.
    let mut cpu = Cpu::new();
    cpu.csr.write(SATP, 8u64 << 60);
    cpu.csr.write(MTVEC, 0x8000_0100);
    cpu.csr.priv_level = PrivLevel::SUPERVISOR;

    let r = cpu.mmu.read8(&cpu.csr, 0x1000);
    assert_eq!(r, Err(Exception::LoadPageFault(0x1000)));

    let e = r.unwrap_err();
    e.take_trap(&mut cpu);
    assert_eq!(cpu.csr.read(MCAUSE), 13);
    assert_eq!(cpu.csr.read(MTVAL), 0x1000);
    assert_eq!(cpu.csr.read(MEPC), BASE);
    assert_eq!(cpu.pc, 0x8000_0100);
    assert!(matches!(cpu.csr.priv_level, PrivLevel::MACHINE));
}

#[test]
fn test_mret() {
    // After a trap to machine mode with MPP = user and MPIE = 1,
    // executing MRET sets privilege user, MIE = 1, MPIE = 1, MPP = user,
    // and PC = MEPC.
    let mut cpu = Cpu::new();
    cpu.csr.write(MSTATUS, 1 << 7);
    cpu.csr.write(MEPC, 0x8000_0040);
    cpu.instruction = 0x30200073;
    cpu.execute().unwrap();
    cpu.pc += 4;

    assert!(matches!(cpu.csr.priv_level, PrivLevel::USER));
    let status = cpu.csr.read(MSTATUS);
    assert_eq!((status >> 3) & 1, 1);  // MIE
    assert_eq!((status >> 7) & 1, 1);  // MPIE
    assert_eq!((status >> 11) & 3, 0);  // MPP
    assert_eq!(cpu.pc, 0x8000_0040);
}

#[test]
fn test_machine_mode_translation_identity() {
    // While privilege is machine, the virtual address is the physical
    // address, whatever SATP holds.
    let mut cpu = Cpu::new();
    cpu.csr.write(SATP, (8u64 << 60) | 0xFFFF);
    assert_eq!(cpu.mmu.translate_addr(&cpu.csr, BASE + 0x123).unwrap(), BASE + 0x123);
}

#[test]
fn test_satp_mode_zero_translation_identity() {
    // With SATP.MODE zero there is no translation, regardless of the
    // rest of SATP.
    let mut cpu = Cpu::new();
    cpu.csr.write(SATP, 0x0FFF_FFFF_FFFF_FFFF & !(0xFu64 << 60));
    cpu.csr.priv_level = PrivLevel::SUPERVISOR;
    assert_eq!(cpu.mmu.translate_addr(&cpu.csr, BASE + 0x123).unwrap(), BASE + 0x123);
}

#[test]
fn test_load_access_fault() {
    // A load from an unmapped physical range raises a load access fault.
    let mut cpu = Cpu::new();
    let r = cpu.mmu.read8(&cpu.csr, 0x42);
    assert_eq!(r, Err(Exception::LoadAccessFault(0x42)));
}

#[test]
fn test_store_access_fault() {
    let mut cpu = Cpu::new();
    let r = cpu.mmu.write8(&cpu.csr, 0x42, 1);
    assert_eq!(r, Err(Exception::StoreAccessFault(0x42)));
}

#[test]
fn test_fetch_access_fault() {
    let mut cpu = Cpu::new();
    cpu.pc = 0x42;
    let r = cpu.fetch();
    assert_eq!(r, Err(Exception::InstAccessFault(0x42)));
}

#[test]
fn test_jalr_misaligned_target() {
    // A jump to a target that is not four-byte aligned raises
    // instruction-address-misaligned.
    let mut cpu = Cpu::new();
    cpu.register.write(Registers::T1 as usize, 0x8000_0002);
    // jalr zero, 0(t1)
    cpu.instruction = 0x00030067;
    let r = cpu.execute();
    assert_eq!(r, Err(Exception::InstAddrMisalign(0x8000_0002)));
}

#[test]
fn test_ecall_from_machine() {
    let mut cpu = Cpu::new();
    cpu.instruction = 0x0000_0073;
    assert_eq!(cpu.execute(), Err(Exception::EnvCallMmode));
}

#[test]
fn test_ebreak() {
    let mut cpu = Cpu::new();
    cpu.instruction = 0x0010_0073;
    assert_eq!(cpu.execute(), Err(Exception::Breakpoint));
}

#[test]
fn test_uart_emits_after_baudrate_ticks() {
    // A byte staged in THR leaves on the 38400th tick.
    let mut cpu = Cpu::new();
    cpu.mmu.bus.write8(UART0_BASE, b'A');
    let mut mip = cpu.csr.read(MIP);
    let mut emitted = None;
    for _ in 0..38400 {
        if let Some(b) = cpu.mmu.bus.tick(&mut mip) {
            emitted = Some(b);
        }
    }
    assert_eq!(emitted, Some(b'A'));
}

#[test]
fn test_amoadd_w() {
    // t0 = base + 0x200; store 5 there; t1 = 7; amoadd.w t2, t1, (t0)
    let mut cpu = Cpu::new();
    let a = BASE + 0x200;
    cpu.mmu.write64(&cpu.csr, a, 5).unwrap();
    cpu.register.write(Registers::T0 as usize, a);
    cpu.register.write(Registers::T1 as usize, 7);
    // amoadd.w t2, t1, (t0): funct7 = 0, rs2 = 6, rs1 = 5, f3 = 2, rd = 7
    cpu.instruction = 0x0062A3AF;
    cpu.execute().unwrap();
    assert_eq!(cpu.register.read(Registers::T2 as usize), 5);
    assert_eq!(cpu.mmu.read64(&cpu.csr, a).unwrap(), 12);
}

#[test]
fn test_csrrw_roundtrip() {
    // csrrw t1, mscratch, t0 swaps the register and the CSR.
    let mut cpu = Cpu::new();
    cpu.csr.write(0x340, 0x55);
    cpu.register.write(Registers::T0 as usize, 0xAA);
    // csrrw t1, 0x340, t0
    cpu.instruction = (0x340 << 20) | (5 << 15) | (1 << 12) | (6 << 7) | 0x73;
    cpu.execute().unwrap();
    assert_eq!(cpu.register.read(Registers::T1 as usize), 0x55);
    assert_eq!(cpu.csr.read(0x340), 0xAA);
}

#[test]
fn test_halt_on_jump_to_zero() {
    // A jump to address zero ends the run gracefully.
    let mut cpu = Cpu::new();
    cpu.register.write(Registers::T1 as usize, 0);
    // jalr zero, 0(t1)
    cpu.instruction = 0x00030067;
    cpu.execute().unwrap();
    assert!(cpu.halted);
    assert_eq!(cpu.pc, 0);
}

#[test]
fn test_unknown_opcode_is_fatal() {
    let mut cpu = Cpu::new();
    cpu.instruction = 0x0000_0057;
    cpu.execute().unwrap();
    assert!(cpu.fatal);
}

#[test]
fn test_interrupt_delivery_machine_timer() {
    // With MTIE and a pending machine timer interrupt from user mode,
    // delivery traps to machine mode, writes the cause with the high bit
    // set, and clears MTIP.
    let mut cpu = Cpu::new();
    cpu.csr.write(MIE, 1 << 7);
    cpu.csr.write(MIP, 1 << 7);
    cpu.csr.write(MTVEC, 0x8000_0200);
    cpu.csr.priv_level = PrivLevel::USER;
    cpu.pc = BASE + 0x44;

    let mut irq = rv64emu::interrupt::Interrupt::MachineTimerIrq;
    assert!(irq.take_trap(&mut cpu));

    assert!(matches!(cpu.csr.priv_level, PrivLevel::MACHINE));
    assert_eq!(cpu.csr.read(MCAUSE), 0x8000_0000_0000_0007);
    assert_eq!(cpu.csr.read(MEPC), BASE + 0x44);
    assert_eq!(cpu.pc, 0x8000_0200);
    assert_eq!(cpu.csr.read(MIP) & 0x80, 0);
}

#[test]
fn test_interrupt_masked_when_disabled() {
    // Without MTIE the same interrupt is not delivered.
    let mut cpu = Cpu::new();
    cpu.csr.write(MIP, 1 << 7);
    cpu.csr.priv_level = PrivLevel::USER;
    cpu.pc = BASE + 0x44;

    let mut irq = rv64emu::interrupt::Interrupt::MachineTimerIrq;
    assert!(!irq.take_trap(&mut cpu));

    assert!(matches!(cpu.csr.priv_level, PrivLevel::USER));
    assert_eq!(cpu.pc, BASE + 0x44);
}

#[test]
fn test_addiw_truncates_and_extends() {
    // t0 = 0xFFFF_FFFF (via lui/srli); addiw t1, t0, 1 wraps the low
    // word to zero.
    let mut cpu = Cpu::new();
    cpu.register.write(Registers::T0 as usize, 0xFFFF_FFFF);
    // addiw t1, t0, 1
    cpu.instruction = (1 << 20) | (5 << 15) | (6 << 7) | 0x1B;
    cpu.execute().unwrap();
    assert_eq!(cpu.register.read(Registers::T1 as usize), 0);
}

#[test]
fn test_mulhu() {
    // mulhu t2, t0, t1 with t0 = t1 = 2^32 gives 1.
    let mut cpu = Cpu::new();
    cpu.register.write(Registers::T0 as usize, 1u64 << 32);
    cpu.register.write(Registers::T1 as usize, 1u64 << 32);
    // mulhu t2, t1, t0? mulhu rd=7 rs1=5 rs2=6 f3=3 funct7=1
    cpu.instruction = (1 << 25) | (6 << 20) | (5 << 15) | (3 << 12) | (7 << 7) | 0x33;
    cpu.execute().unwrap();
    assert_eq!(cpu.register.read(Registers::T2 as usize), 1);
}

#[test]
fn test_mnemonic() {
    assert_eq!(rv64emu::cpu::mnemonic(0xFFF00293), "ADDI");
    assert_eq!(rv64emu::cpu::mnemonic(0x006283B3), "ADD");
    assert_eq!(rv64emu::cpu::mnemonic(0x30200073), "MRET");
    assert_eq!(rv64emu::cpu::mnemonic(0x0062A3AF), "AMOADD.W");
    assert_eq!(rv64emu::cpu::mnemonic(0x00000057), "unknown");
}

#[test]
fn test_reg_name() {
    assert_eq!(rv64emu::cpu::reg_name(0), "ZERO");
    assert_eq!(rv64emu::cpu::reg_name(2), "SP");
    assert_eq!(rv64emu::cpu::reg_name(32), "unknown");
}

#[test]
fn test_sv39_walk_translates_and_sets_accessed() {
    // A three-level Sv39 walk: root at physical 0x8001_0000, one chain
    // of tables mapping virtual 0x1000 to physical 0x8004_2000. The
    // load returns the mapped data and writes the accessed bit back;
    // the store also sets the dirty bit.
    let mut cpu = Cpu::new();
    cpu.mmu.write64(&cpu.csr, 0x8001_0000, (0x80011u64 << 10) | 1).unwrap();
    cpu.mmu.write64(&cpu.csr, 0x8001_1000, (0x80012u64 << 10) | 1).unwrap();
    cpu.mmu.write64(&cpu.csr, 0x8001_2008, (0x80042u64 << 10) | 0b111).unwrap();
    cpu.mmu.write64(&cpu.csr, 0x8004_2000, 0xCAFE).unwrap();

    cpu.csr.write(SATP, (8u64 << 60) | 0x80010);
    cpu.csr.priv_level = PrivLevel::SUPERVISOR;

    assert_eq!(cpu.mmu.read64(&cpu.csr, 0x1000).unwrap(), 0xCAFE);
    assert_eq!(cpu.mmu.bus.read64(0x8001_2008) & 0x40, 0x40);

    cpu.mmu.write64(&cpu.csr, 0x1008, 0xF00D).unwrap();
    assert_eq!(cpu.mmu.bus.read64(0x8004_2008), 0xF00D);
    assert_eq!(cpu.mmu.bus.read64(0x8001_2008) & 0xC0, 0xC0);
}

#[test]
fn test_sv39_write_refused_without_w() {
    // A leaf without the writable bit refuses a store with a store page
    // fault.
    let mut cpu = Cpu::new();
    cpu.mmu.write64(&cpu.csr, 0x8001_0000, (0x80011u64 << 10) | 1).unwrap();
    cpu.mmu.write64(&cpu.csr, 0x8001_1000, (0x80012u64 << 10) | 1).unwrap();
    cpu.mmu.write64(&cpu.csr, 0x8001_2008, (0x80042u64 << 10) | 0b011).unwrap();

    cpu.csr.write(SATP, (8u64 << 60) | 0x80010);
    cpu.csr.priv_level = PrivLevel::SUPERVISOR;

    let r = cpu.mmu.write8(&cpu.csr, 0x1000, 1);
    assert_eq!(r, Err(Exception::StorePageFault(0x1000)));
}

#[test]
fn test_sret_restores_sie() {
    // After a supervisor trap with SPP = supervisor and SPIE = 1,
    // executing SRET restores SIE, sets SPIE, clears SPP, and returns
    // to SEPC.
    let mut cpu = Cpu::new();
    cpu.csr.write(rv64emu::csr::SSTATUS, (1 << 5) | (1 << 8));
    cpu.csr.write(rv64emu::csr::SEPC, 0x8000_0040);
    cpu.csr.priv_level = PrivLevel::SUPERVISOR;
    cpu.instruction = 0x10200073;
    cpu.execute().unwrap();
    cpu.pc += 4;

    assert!(matches!(cpu.csr.priv_level, PrivLevel::SUPERVISOR));
    let status = cpu.csr.read(rv64emu::csr::SSTATUS);
    assert_eq!((status >> 1) & 1, 1);  // SIE restored from SPIE
    assert_eq!((status >> 5) & 1, 1);  // SPIE
    assert_eq!((status >> 8) & 1, 0);  // SPP
    assert_eq!(cpu.pc, 0x8000_0040);
}

#[test]
fn test_amoswap_w_is_32_bit_and_keeps_rs2() {
    // AMOSWAP.W swaps only the low word, leaves the upper memory bytes
    // alone, and does not write rs2.
    let mut cpu = Cpu::new();
    let a = BASE + 0x300;
    cpu.mmu.write64(&cpu.csr, a, 0xAAAA_BBBB_CCCC_DDDD).unwrap();
    cpu.register.write(Registers::T0 as usize, a);
    cpu.register.write(Registers::T1 as usize, 0x1111_2222_3333_4444);
    // amoswap.w t2, t1, (t0)
    cpu.instruction = 0x0862A3AF;
    cpu.execute().unwrap();
    assert_eq!(cpu.register.read(Registers::T2 as usize), 0xFFFF_FFFF_CCCC_DDDD);
    assert_eq!(cpu.register.read(Registers::T1 as usize), 0x1111_2222_3333_4444);
    assert_eq!(cpu.mmu.read64(&cpu.csr, a).unwrap(), 0xAAAA_BBBB_3333_4444);
}

#[test]
fn test_plic_arbitration_latches_uart() {
    // With the UART line up, its source (10) enabled, and its priority
    // register (offset 40) above the threshold, a tick latches the UART
    // as the claim and raises SEIP.
    let mut cpu = Cpu::new();
    cpu.mmu.bus.write8(UART0_BASE + 1, 0b10);  // IER: THR interrupt
    cpu.mmu.bus.write32(rv64emu::bus::PLIC_BASE + 40, 7);
    cpu.mmu.bus.write32(rv64emu::bus::PLIC_BASE + 0x2000, 1 << 10);
    let mut mip = cpu.csr.read(MIP);
    cpu.mmu.tick(&mut mip);
    assert_eq!(cpu.mmu.get_irqno(), Some(rv64emu::interrupt::IrqNumber::UART));
    assert_eq!(mip & 0x200, 0x200);
}

#[test]
fn test_mtip_clears_when_cmp_raised() {
    // Once MTIMECMP is raised above MTIME again, the next tick clears
    // the timer pending bit: MTIP mirrors the condition.
    let mut cpu = Cpu::new();
    cpu.mmu.bus.write64(CLINT_BASE + 0x4000, 5);
    let mut mip = cpu.csr.read(MIP);
    for _ in 0..80 {
        cpu.mmu.tick(&mut mip);
    }
    assert_eq!(mip & 0x80, 0x80);
    cpu.mmu.bus.write64(CLINT_BASE + 0x4000, 1_000_000);
    cpu.mmu.tick(&mut mip);
    assert_eq!(mip & 0x80, 0);
}

#[test]
fn test_uart_emits_zero_byte() {
    // A staged 0x00 still leaves the holding register: "staged" is the
    // cleared TX-empty bit, not the byte's value.
    let mut cpu = Cpu::new();
    cpu.mmu.bus.write8(UART0_BASE, 0);
    let mut mip = cpu.csr.read(MIP);
    let mut emitted = None;
    for _ in 0..38400 {
        if let Some(b) = cpu.mmu.bus.tick(&mut mip) {
            emitted = Some(b);
        }
    }
    assert_eq!(emitted, Some(0));
}

#[test]
fn test_step_runs_one_instruction() {
    let mut cpu = Cpu::new();
    cpu.mmu.write32(&cpu.csr, BASE, 0xFFF00293).unwrap();  // addi t0, zero, -1
    let (emitted, outcome) = step(&mut cpu);
    assert_eq!(emitted, None);
    assert_eq!(outcome, StepOutcome::Continue);
    assert_eq!(cpu.register.read(Registers::T0 as usize), 0xFFFF_FFFF_FFFF_FFFF);
    assert_eq!(cpu.pc, BASE + 4);
}

#[test]
fn test_step_halts_on_jump_to_zero() {
    let mut cpu = Cpu::new();
    // jalr zero, 0(zero): a jump to address zero.
    cpu.mmu.write32(&cpu.csr, BASE, 0x00000067).unwrap();
    let (_, outcome) = step(&mut cpu);
    assert_eq!(outcome, StepOutcome::Halted);
    assert_eq!(cpu.pc, 0);
}

#[test]
fn test_step_reports_unknown_instruction() {
    let mut cpu = Cpu::new();
    cpu.mmu.write32(&cpu.csr, BASE, 0x0000_0057).unwrap();
    let (_, outcome) = step(&mut cpu);
    assert_eq!(outcome, StepOutcome::Fatal);
}

#[test]
fn test_step_enters_interrupt_handler_at_vector() {
    // A pending, enabled machine timer interrupt sends the step into
    // the handler: the first handler instruction executes and the
    // counter sits right past it, not past the interrupted one.
    let mut cpu = Cpu::new();
    cpu.csr.write(MIE, 1 << 7);
    cpu.csr.write(MSTATUS, 1 << 3);  // MIE: take interrupts at machine level
    // Make the timer condition itself hold, so the step's own tick
    // raises MTIP: mtimecmp = 1, mtime already 1.
    cpu.mmu.bus.write64(CLINT_BASE + 0x4000, 1);
    cpu.mmu.bus.write64(CLINT_BASE + 0xBFF8, 1);
    cpu.csr.write(MTVEC, 0x8000_0200);
    // Handler first instruction: addi t0, zero, 9
    cpu.mmu.write32(&cpu.csr, 0x8000_0200, 0x00900293).unwrap();
    let (_, _) = step(&mut cpu);
    assert_eq!(cpu.csr.read(MEPC), BASE);
    assert_eq!(cpu.register.read(Registers::T0 as usize), 9);
    assert_eq!(cpu.pc, 0x8000_0204);
}

#[test]
fn test_step_watchpoint_exit() {
    let mut cpu = Cpu::new();
    cpu.mmu.write32(&cpu.csr, BASE, 0x00000013).unwrap();
    cpu.watch(Registers::PC, BASE, WatchExec::EXIT);
    let (_, outcome) = step(&mut cpu);
    assert_eq!(outcome, StepOutcome::WatchHit);
    // The watched instruction did not execute: the counter still points
    // at it.
    assert_eq!(cpu.pc, BASE);
}

#[test]
fn test_amominu_w_compares_low_words() {
    // The unsigned word minimum compares the 32-bit values: with the
    // memory word 0x8000_0000 and rs2 0x9000_0000, the memory word is
    // already the smaller and stays.
    let mut cpu = Cpu::new();
    let a = BASE + 0x400;
    cpu.mmu.write32(&cpu.csr, a, 0x8000_0000).unwrap();
    cpu.register.write(Registers::T0 as usize, a);
    cpu.register.write(Registers::T1 as usize, 0x9000_0000);
    // amominu.w t2, t1, (t0)
    cpu.instruction = (0x60 << 25) | (6 << 20) | (5 << 15) | (2 << 12) | (7 << 7) | 0x2F;
    cpu.execute().unwrap();
    assert_eq!(cpu.mmu.read32(&cpu.csr, a).unwrap(), 0x8000_0000);
    assert_eq!(cpu.register.read(Registers::T2 as usize), 0xFFFF_FFFF_8000_0000);
}

#[test]
fn test_amomaxu_w_compares_low_words() {
    let mut cpu = Cpu::new();
    let a = BASE + 0x400;
    cpu.mmu.write32(&cpu.csr, a, 0x8000_0000).unwrap();
    cpu.register.write(Registers::T0 as usize, a);
    cpu.register.write(Registers::T1 as usize, 0x9000_0000);
    // amomaxu.w t2, t1, (t0)
    cpu.instruction = (0x70 << 25) | (6 << 20) | (5 << 15) | (2 << 12) | (7 << 7) | 0x2F;
    cpu.execute().unwrap();
    assert_eq!(cpu.mmu.read32(&cpu.csr, a).unwrap(), 0x9000_0000);
}

#[test]
fn test_step_invalid_paddr_ends_run() {
    // A fetch from a physically unmapped address is unrecoverable: the
    // step reports it instead of entering the trap pipeline.
    let mut cpu = Cpu::new();
    cpu.pc = 0x42;
    let (_, outcome) = step(&mut cpu);
    assert_eq!(outcome, StepOutcome::AccessFault(Exception::InstAccessFault(0x42)));
}
