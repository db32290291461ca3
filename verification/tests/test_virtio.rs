use rv64emu::bus::VIRTIO_BASE;
use rv64emu::cpu::Cpu;

#[test]
pub fn test_virtio_magic_value() {
    let mut cpu = Cpu::new();

    assert_eq!(cpu.mmu.read32(&cpu.csr, VIRTIO_BASE).unwrap(), 0x74726976);
}

#[test]
pub fn test_virtio_version() {
    let mut cpu = Cpu::new();

    assert_eq!(cpu.mmu.read8(&cpu.csr, VIRTIO_BASE + 0x004).unwrap(), 0x1);
}

#[test]
pub fn test_virtio_device_id() {
    let mut cpu = Cpu::new();

    assert_eq!(cpu.mmu.read8(&cpu.csr, VIRTIO_BASE + 0x008).unwrap(), 0x2);
}

#[test]
pub fn test_virtio_vendor_id() {
    let mut cpu = Cpu::new();

    assert_eq!(cpu.mmu.read32(&cpu.csr, VIRTIO_BASE + 0x00C).unwrap(), 0x554d4551);
}

#[test]
pub fn test_virtio_block_read() {
    // Drive one full queue walk: a three-descriptor chain asking the
    // device to copy the first disk sector bytes into guest memory.
    let mut cpu = Cpu::new();
    cpu.load_disk(b"0123456789ABCDEFxyz".to_vec());

    // Device registers: 4 KiB guest pages, a queue of 8 at guest page
    // 0x80002, used ring aligned to 4 KiB.
    cpu.mmu.bus.write16(VIRTIO_BASE + 0x28, 0x1000);
    cpu.mmu.bus.write32(VIRTIO_BASE + 0x38, 8);
    cpu.mmu.bus.write32(VIRTIO_BASE + 0x3C, 0x1000);
    cpu.mmu.bus.write32(VIRTIO_BASE + 0x40, 0x80002);

    // Descriptor 0: the request header (type, sector 0), chained.
    cpu.mmu.write64(&cpu.csr, 0x8000_2000, 0x8000_3000).unwrap();
    cpu.mmu.write32(&cpu.csr, 0x8000_2008, 16).unwrap();
    cpu.mmu.write16(&cpu.csr, 0x8000_200C, 1).unwrap();
    cpu.mmu.write16(&cpu.csr, 0x8000_200E, 1).unwrap();
    // Descriptor 1: the data buffer, device-writable, chained.
    cpu.mmu.write64(&cpu.csr, 0x8000_2010, 0x8000_4000).unwrap();
    cpu.mmu.write32(&cpu.csr, 0x8000_2018, 16).unwrap();
    cpu.mmu.write16(&cpu.csr, 0x8000_201C, 3).unwrap();
    cpu.mmu.write16(&cpu.csr, 0x8000_201E, 2).unwrap();
    // Descriptor 2: the status byte, device-writable, end of chain.
    cpu.mmu.write64(&cpu.csr, 0x8000_2020, 0x8000_5000).unwrap();
    cpu.mmu.write32(&cpu.csr, 0x8000_2028, 1).unwrap();
    cpu.mmu.write16(&cpu.csr, 0x8000_202C, 2).unwrap();
    // The request header: type IN, sector 0.
    cpu.mmu.write32(&cpu.csr, 0x8000_3000, 0).unwrap();
    cpu.mmu.write64(&cpu.csr, 0x8000_3008, 0).unwrap();
    // Poison the status byte so the walk is seen writing it.
    cpu.mmu.write8(&cpu.csr, 0x8000_5000, 0xEE).unwrap();

    // Ring the queue notifier and tick once.
    cpu.mmu.bus.write8(VIRTIO_BASE + 0x50, 0);
    let mut mip: u64 = 0;
    cpu.mmu.bus.tick(&mut mip);

    // The first sixteen disk bytes arrived in the data buffer, the
    // status byte reads success, and the used-ring interrupt is up.
    assert_eq!(cpu.mmu.read64(&cpu.csr, 0x8000_4000).unwrap(), u64::from_le_bytes(*b"01234567"));
    assert_eq!(cpu.mmu.read64(&cpu.csr, 0x8000_4008).unwrap(), u64::from_le_bytes(*b"89ABCDEF"));
    assert_eq!(cpu.mmu.read8(&cpu.csr, 0x8000_5000).unwrap(), 0);
    assert_eq!(cpu.mmu.read32(&cpu.csr, VIRTIO_BASE + 0x60).unwrap(), 1);
    // The used.idx field (used base + 2) published the new cursor.
    assert_eq!(cpu.mmu.read16(&cpu.csr, 0x8000_3015).unwrap(), 1);
}

#[test]
pub fn test_virtio_block_write() {
    // The same chain without the device-write flag copies guest memory
    // onto the disk.
    let mut cpu = Cpu::new();
    cpu.load_disk(vec![0u8; 1024]);

    cpu.mmu.bus.write16(VIRTIO_BASE + 0x28, 0x1000);
    cpu.mmu.bus.write32(VIRTIO_BASE + 0x38, 8);
    cpu.mmu.bus.write32(VIRTIO_BASE + 0x3C, 0x1000);
    cpu.mmu.bus.write32(VIRTIO_BASE + 0x40, 0x80002);

    cpu.mmu.write64(&cpu.csr, 0x8000_2000, 0x8000_3000).unwrap();
    cpu.mmu.write32(&cpu.csr, 0x8000_2008, 16).unwrap();
    cpu.mmu.write16(&cpu.csr, 0x8000_200C, 1).unwrap();
    cpu.mmu.write16(&cpu.csr, 0x8000_200E, 1).unwrap();
    cpu.mmu.write64(&cpu.csr, 0x8000_2010, 0x8000_4000).unwrap();
    cpu.mmu.write32(&cpu.csr, 0x8000_2018, 8).unwrap();
    cpu.mmu.write16(&cpu.csr, 0x8000_201C, 1).unwrap();
    cpu.mmu.write16(&cpu.csr, 0x8000_201E, 2).unwrap();
    cpu.mmu.write64(&cpu.csr, 0x8000_2020, 0x8000_5000).unwrap();
    cpu.mmu.write32(&cpu.csr, 0x8000_2028, 1).unwrap();
    cpu.mmu.write16(&cpu.csr, 0x8000_202C, 2).unwrap();
    // Type OUT, sector 1.
    cpu.mmu.write32(&cpu.csr, 0x8000_3000, 1).unwrap();
    cpu.mmu.write64(&cpu.csr, 0x8000_3008, 1).unwrap();
    // The payload to write.
    cpu.mmu.write64(&cpu.csr, 0x8000_4000, u64::from_le_bytes(*b"HELLO!!!")).unwrap();

    cpu.mmu.bus.write8(VIRTIO_BASE + 0x50, 0);
    let mut mip: u64 = 0;
    cpu.mmu.bus.tick(&mut mip);

    // Sector 1 of the disk took the payload.
    let disk = &cpu.mmu.bus.virtio.disk;
    assert_eq!(&disk[512..520], b"HELLO!!!");
}
