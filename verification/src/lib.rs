//! An instruction-accurate emulator core for a 64-bit RISC-V hart.
//!
//! The crate models the architectural state of a single hart (general
//! registers, program counter, privilege level, control-and-status
//! registers), an Sv39 memory-management unit, a physical memory bus with
//! DRAM and memory-mapped peripherals (CLINT, PLIC, a 16550-style UART and
//! a legacy virtio-mmio block device), and the RV64IMA instruction set with
//! the Zicsr extension and a trap pipeline covering synchronous exceptions
//! and asynchronous interrupts.

pub mod bitops;
pub mod bus;
pub mod clint;
pub mod cpu;
pub mod csr;
pub mod dram;
pub mod exception;
pub mod interrupt;
pub mod memory;
pub mod mmu;
pub mod plic;
pub mod uart;
pub mod virtio;
