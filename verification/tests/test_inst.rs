use rv64emu::cpu::{Cpu, Registers};
use rv64emu::exception::Exception;

const BASE: u64 = 0x8000_0000;

/// Place a program at the DRAM base and run it one instruction at a time.
fn run(program: &[u32]) -> Cpu {
    let mut cpu = Cpu::new();
    for (i, word) in program.iter().enumerate() {
        cpu.mmu.write32(&cpu.csr, BASE + (i as u64) * 4, *word).unwrap();
    }
    for _ in 0..program.len() {
        cpu.fetch().unwrap();
        cpu.execute().unwrap();
        cpu.pc += 4;
    }
    cpu
}

/// Run a program for a fixed number of steps (for branches and jumps).
fn run_steps(program: &[u32], steps: usize) -> Cpu {
    let mut cpu = Cpu::new();
    for (i, word) in program.iter().enumerate() {
        cpu.mmu.write32(&cpu.csr, BASE + (i as u64) * 4, *word).unwrap();
    }
    for _ in 0..steps {
        cpu.fetch().unwrap();
        cpu.execute().unwrap();
        cpu.pc += 4;
    }
    cpu
}

#[test]
pub fn test_addi() -> Result<(), Exception> {
    // addi t0, zero, -1
    let cpu = run(&[0xFFF00293]);
    assert_eq!(cpu.register.read(Registers::T0 as usize), 0xFFFF_FFFF_FFFF_FFFF);
    Ok(())
}

#[test]
pub fn test_add() -> Result<(), Exception> {
    // addi t0, zero, 1; addi t1, zero, 2; add t2, t0, t1
    let cpu = run(&[0x00100293, 0x00200313, 0x006283B3]);
    assert_eq!(cpu.register.read(Registers::T2 as usize), 3);
    Ok(())
}

#[test]
pub fn test_slti() -> Result<(), Exception> {
    // addi t0, zero, -5; slti t1, t0, 0
    let cpu = run(&[0xFFB00293, 0x0002A313]);
    assert_eq!(cpu.register.read(Registers::T1 as usize), 1);
    Ok(())
}

#[test]
pub fn test_sltiu() -> Result<(), Exception> {
    // addi t0, zero, 5; sltiu t1, t0, 1
    let cpu = run(&[0x00500293, 0x0012B313]);
    assert_eq!(cpu.register.read(Registers::T1 as usize), 0);
    Ok(())
}

#[test]
pub fn test_andi() -> Result<(), Exception> {
    // addi t0, zero, -1; andi t1, t0, 0x444
    let cpu = run(&[0xFFF00293, 0x4442F313]);
    assert_eq!(cpu.register.read(Registers::T1 as usize), 0b100_0100_0100);
    Ok(())
}

#[test]
pub fn test_ori() -> Result<(), Exception> {
    // addi t0, zero, 0x444; ori t1, t0, 0x303
    let cpu = run(&[0x44400293, 0x3032E313]);
    assert_eq!(cpu.register.read(Registers::T1 as usize), 0b111_0100_0111);
    Ok(())
}

#[test]
pub fn test_xori() -> Result<(), Exception> {
    // addi t0, zero, 0x444; xori t1, t0, 0x347
    let cpu = run(&[0x44400293, 0x3472C313]);
    assert_eq!(cpu.register.read(Registers::T1 as usize), 0b111_0000_0011);
    Ok(())
}

#[test]
pub fn test_slli() -> Result<(), Exception> {
    // addi t0, zero, 0x17; slli t1, t0, 2
    let cpu = run(&[0x01700293, 0x00229313]);
    assert_eq!(cpu.register.read(Registers::T1 as usize), 0b101_1100);
    Ok(())
}

#[test]
pub fn test_srli() -> Result<(), Exception> {
    // addi t0, zero, -1; srli t1, t0, 2
    let cpu = run(&[0xFFF00293, 0x0022D313]);
    assert_eq!(cpu.register.read(Registers::T1 as usize), 0x3FFF_FFFF_FFFF_FFFF);
    Ok(())
}

#[test]
pub fn test_srai() -> Result<(), Exception> {
    // addi t0, zero, -1; srai t1, t0, 2
    let cpu = run(&[0xFFF00293, 0x4022D313]);
    assert_eq!(cpu.register.read(Registers::T1 as usize), 0xFFFF_FFFF_FFFF_FFFF);
    Ok(())
}

#[test]
pub fn test_lui() -> Result<(), Exception> {
    // lui t0, 0xFFFFF; slli t0, t0, 32; srli t0, t0, 32
    let cpu = run(&[0xFFFFF2B7, 0x02029293, 0x0202D293]);
    assert_eq!(cpu.register.read(Registers::T0 as usize), 0xFFFF_F000);
    Ok(())
}

#[test]
pub fn test_auipc() -> Result<(), Exception> {
    // At the DRAM base: auipc t0, 0x7FFFF
    let cpu = run(&[0x7FFFF297]);
    assert_eq!(cpu.register.read(Registers::T0 as usize), 0xFFFF_F000);
    Ok(())
}

#[test]
pub fn test_slt() -> Result<(), Exception> {
    // addi t0, zero, -1; addi t1, zero, 1; slt t2, t0, t1
    let cpu = run(&[0xFFF00293, 0x00100313, 0x0062A3B3]);
    assert_eq!(cpu.register.read(Registers::T2 as usize), 1);
    Ok(())
}

#[test]
pub fn test_sltu() -> Result<(), Exception> {
    // addi t0, zero, -1; addi t1, zero, 1; sltu t2, t0, t1
    let cpu = run(&[0xFFF00293, 0x00100313, 0x0062B3B3]);
    assert_eq!(cpu.register.read(Registers::T2 as usize), 0);
    Ok(())
}

#[test]
pub fn test_and() -> Result<(), Exception> {
    // addi t0, zero, -1; addi t1, zero, 0x444; and t2, t0, t1
    let cpu = run(&[0xFFF00293, 0x44400313, 0x0062F3B3]);
    assert_eq!(cpu.register.read(Registers::T2 as usize), 0b100_0100_0100);
    Ok(())
}

#[test]
pub fn test_or() -> Result<(), Exception> {
    // addi t0, zero, 0x444; addi t1, zero, 0x303; or t2, t0, t1
    let cpu = run(&[0x44400293, 0x30300313, 0x0062E3B3]);
    assert_eq!(cpu.register.read(Registers::T2 as usize), 0b111_0100_0111);
    Ok(())
}

#[test]
pub fn test_xor() -> Result<(), Exception> {
    // addi t0, zero, 0x444; addi t1, zero, 0x347; xor t2, t0, t1
    let cpu = run(&[0x44400293, 0x34700313, 0x0062C3B3]);
    assert_eq!(cpu.register.read(Registers::T2 as usize), 0b111_0000_0011);
    Ok(())
}

#[test]
pub fn test_sll() -> Result<(), Exception> {
    // addi t0, zero, 0x17; addi t1, zero, 2; sll t2, t0, t1
    let cpu = run(&[0x01700293, 0x00200313, 0x006293B3]);
    assert_eq!(cpu.register.read(Registers::T2 as usize), 0b101_1100);
    Ok(())
}

#[test]
pub fn test_srl() -> Result<(), Exception> {
    // addi t0, zero, -1; addi t1, zero, 2; srl t2, t0, t1
    let cpu = run(&[0xFFF00293, 0x00200313, 0x0062D3B3]);
    assert_eq!(cpu.register.read(Registers::T2 as usize), 0x3FFF_FFFF_FFFF_FFFF);
    Ok(())
}

#[test]
pub fn test_sub() -> Result<(), Exception> {
    // addi t0, zero, 5; addi t1, zero, 2; sub t2, t0, t1
    let cpu = run(&[0x00500293, 0x00200313, 0x406283B3]);
    assert_eq!(cpu.register.read(Registers::T2 as usize), 3);
    Ok(())
}

#[test]
pub fn test_sra() -> Result<(), Exception> {
    // addi t0, zero, -1; addi t1, zero, 2; sra t2, t0, t1
    let cpu = run(&[0xFFF00293, 0x00200313, 0x4062D3B3]);
    assert_eq!(cpu.register.read(Registers::T2 as usize), 0xFFFF_FFFF_FFFF_FFFF);
    Ok(())
}

#[test]
pub fn test_nop() -> Result<(), Exception> {
    let mut cpu = Cpu::new();
    cpu.mmu.write32(&cpu.csr, BASE, 0x00000013).unwrap();

    assert_eq!(cpu.register.read(Registers::ZERO as usize), 0);

    cpu.fetch()?;
    cpu.execute()?;
    cpu.pc += 4;

    assert_eq!(cpu.register.read(Registers::ZERO as usize), 0);
    Ok(())
}

#[test]
pub fn test_beq() -> Result<(), Exception> {
    // beq zero, zero, +8; addi t0, zero, 1 (skipped); addi t0, t0, 2
    let cpu = run_steps(&[0x00000463, 0x00100293, 0x00228293], 2);
    assert_eq!(cpu.register.read(Registers::T0 as usize), 2);
    Ok(())
}

#[test]
pub fn test_bne() -> Result<(), Exception> {
    // addi t1, zero, 1; bne t1, zero, +8; addi t0, zero, 1 (skipped);
    // addi t0, t0, 2
    let cpu = run_steps(&[0x00100313, 0x00031463, 0x00100293, 0x00228293], 3);
    assert_eq!(cpu.register.read(Registers::T0 as usize), 2);
    Ok(())
}

#[test]
pub fn test_jal() -> Result<(), Exception> {
    // jal ra, +8; addi t0, zero, 1 (skipped); addi t0, zero, 11
    let cpu = run_steps(&[0x008000EF, 0x00100293, 0x00B00293], 2);
    assert_eq!(cpu.register.read(Registers::T0 as usize), 11);
    assert_eq!(cpu.register.read(Registers::RA as usize), BASE + 4);
    Ok(())
}

#[test]
pub fn test_jalr() -> Result<(), Exception> {
    // auipc t1, 0; jalr zero, 16(t1); two skipped; addi t0, zero, 11;
    // addi t1, zero, 12
    let cpu = run_steps(
        &[0x00000317, 0x01030067, 0x00100293, 0x00200293, 0x00B00293, 0x00C00313],
        4,
    );
    assert_eq!(cpu.register.read(Registers::T0 as usize), 11);
    assert_eq!(cpu.register.read(Registers::T1 as usize), 12);
    Ok(())
}

#[test]
pub fn test_blt() -> Result<(), Exception> {
    // addi t0, zero, -1; blt t0, zero, +8; addi t2, zero, 1 (skipped);
    // addi t2, zero, 32
    let cpu = run_steps(&[0xFFF00293, 0x0002C463, 0x00100393, 0x02000393], 3);
    assert_eq!(cpu.register.read(Registers::T2 as usize), 32);
    Ok(())
}

#[test]
pub fn test_bltu() -> Result<(), Exception> {
    // addi t0, zero, 1; bltu zero, t0, +8; addi t2, zero, 1 (skipped);
    // addi t2, zero, 24
    let cpu = run_steps(&[0x00100293, 0x00506463, 0x00100393, 0x01800393], 3);
    assert_eq!(cpu.register.read(Registers::T2 as usize), 24);
    Ok(())
}

#[test]
pub fn test_bge() -> Result<(), Exception> {
    // bge zero, zero, +8; addi t2, zero, 1 (skipped); addi t2, zero, 24
    let cpu = run_steps(&[0x00005463, 0x00100393, 0x01800393], 2);
    assert_eq!(cpu.register.read(Registers::T2 as usize), 24);
    Ok(())
}

#[test]
pub fn test_bgeu() -> Result<(), Exception> {
    // bgeu zero, zero, +8; addi t2, zero, 1 (skipped); addi t2, zero, 32
    let cpu = run_steps(&[0x00007463, 0x00100393, 0x02000393], 2);
    assert_eq!(cpu.register.read(Registers::T2 as usize), 32);
    Ok(())
}

#[test]
pub fn test_lsb() -> Result<(), Exception> {
    // addi t0, zero, 0xDD; auipc a0, 0; sb t0, 64(a0); lb t1, 64(a0)
    let mut cpu = run(&[0x0DD00293, 0x00000517, 0x04550023, 0x04050303]);

    let addr = cpu.register.read(Registers::A0 as usize) + 64;
    assert_eq!(cpu.mmu.read64(&cpu.csr, addr)?, 0x0000_0000_0000_00DD);
    assert_eq!(cpu.register.read(Registers::T1 as usize), 0xFFFF_FFFF_FFFF_FFDD);

    Ok(())
}

#[test]
pub fn test_lsh() -> Result<(), Exception> {
    // addi t0, zero, -1; auipc a0, 0; sh t0, 64(a0); lh t1, 64(a0)
    let mut cpu = run(&[0xFFF00293, 0x00000517, 0x04551023, 0x04051303]);

    let addr = cpu.register.read(Registers::A0 as usize) + 64;
    assert_eq!(cpu.mmu.read64(&cpu.csr, addr)?, 0x0000_0000_0000_FFFF);
    assert_eq!(cpu.register.read(Registers::T1 as usize), 0xFFFF_FFFF_FFFF_FFFF);

    Ok(())
}

#[test]
pub fn test_lsw() -> Result<(), Exception> {
    // lui t0, 0xFFFFF; auipc a0, 0; sw t0, 64(a0); lw t1, 64(a0)
    let mut cpu = run(&[0xFFFFF2B7, 0x00000517, 0x04552023, 0x04052303]);

    let addr = cpu.register.read(Registers::A0 as usize) + 64;
    assert_eq!(cpu.mmu.read64(&cpu.csr, addr)?, 0x0000_0000_FFFF_F000);
    assert_eq!(cpu.register.read(Registers::T1 as usize), 0xFFFF_FFFF_FFFF_F000);

    Ok(())
}
