//! Legacy virtio-mmio block device.
//!
//! Read-only registers return the fixed identity (magic, version 1,
//! device id 2). Writable registers are byte-addressable; a multi-byte
//! write updates the matching lanes of the underlying field. A write to
//! QUEUE_NOTIFY sets a dirty flag; on the next tick the device walks the
//! available ring once, copies a sector run between the disk and guest
//! memory, writes the status byte and updates the used ring.

use vstd::prelude::*;
use crate::bus::DRAM_BASE;
use crate::dram::{Dram, DRAM_SIZE, load16, load32, load64, store16, store32};

verus! {

/// Largest disk image accepted: 128 MiB.
pub const MAX_DISK: u64 = 1024 * 1024 * 128;

/// Bytes per disk sector.
pub const SECTOR_SIZE: u64 = 512;

// MMIO device legacy register layout.
pub const MAGIC_VALUE_BASE: u64 = 0x000;
pub const MAGIC_VALUE_TOP: u64 = 0x003;
pub const VERSION: u64 = 0x004;
pub const DEVICE_ID: u64 = 0x008;
pub const VENDOR_ID_BASE: u64 = 0x00C;
pub const VENDOR_ID_TOP: u64 = 0x00F;
pub const HOST_FEATURES_BASE: u64 = 0x010;
pub const HOST_FEATURES_TOP: u64 = 0x013;
pub const HOST_FEATURES_SEL_BASE: u64 = 0x014;
pub const HOST_FEATURES_SEL_TOP: u64 = 0x017;
pub const GUEST_FEATURES_BASE: u64 = 0x020;
pub const GUEST_FEATURES_TOP: u64 = 0x023;
pub const GUEST_FEATURES_SEL_BASE: u64 = 0x024;
pub const GUEST_FEATURES_SEL_TOP: u64 = 0x027;
pub const GUEST_PAGE_SIZE_BASE: u64 = 0x028;
pub const GUEST_PAGE_SIZE_TOP: u64 = 0x029;
pub const QUEUE_SEL_BASE: u64 = 0x030;
pub const QUEUE_SEL_TOP: u64 = 0x033;
pub const QUEUE_NUM_MAX_BASE: u64 = 0x034;
pub const QUEUE_NUM_MAX_TOP: u64 = 0x037;
pub const QUEUE_NUM_BASE: u64 = 0x038;
pub const QUEUE_NUM_TOP: u64 = 0x03B;
pub const QUEUE_ALIGN_BASE: u64 = 0x03C;
pub const QUEUE_ALIGN_TOP: u64 = 0x03F;
pub const QUEUE_PFN_BASE: u64 = 0x040;
pub const QUEUE_PFN_TOP: u64 = 0x043;
pub const QUEUE_NOTIFY_BASE: u64 = 0x050;
pub const QUEUE_NOTIFY_TOP: u64 = 0x053;
pub const INTERRUPT_STATUS_BASE: u64 = 0x060;
pub const INTERRUPT_STATUS_TOP: u64 = 0x063;
pub const INTERRUPT_ACK: u64 = 0x064;
pub const STATUS_BASE: u64 = 0x070;
pub const STATUS_TOP: u64 = 0x073;

/// Descriptor flag: the chain continues via the `next` field.
pub const VIRTQ_DESC_F_NEXT: u16 = 1;

/// Descriptor flag: the buffer is write-only for the device.
pub const VIRTQ_DESC_F_WRITE: u16 = 2;

/// Virtio subsystem device identifiers.
#[derive(Clone, Copy, Debug)]
pub enum DeviceID {
    Reserved,
    NetworkCard,
    BlockDevice,
    Console,
    EntropySource,
    MomoryBalooning,
    IoMemory,
    Rpmsg,
    ScsiHost,
    TransportNinep,
    Mac80211Wlan,
    RprocSerial,
    VirtioCaif,
    MemoryBaloon,
    GpuDevice,
    TimerClockDevice,
    InputDevice,
    SocketDevic,
    CryptoDevice,
    SignalDistrivutionModule,
    PstoreDevice,
    IommuDevice,
    MemoryDevice,
}

/// The architectural code of a virtio device identifier.
pub open spec fn device_id_code(d: DeviceID) -> u8 {
    match d {
        DeviceID::Reserved => 0,
        DeviceID::NetworkCard => 1,
        DeviceID::BlockDevice => 2,
        DeviceID::Console => 3,
        DeviceID::EntropySource => 4,
        DeviceID::MomoryBalooning => 5,
        DeviceID::IoMemory => 6,
        DeviceID::Rpmsg => 7,
        DeviceID::ScsiHost => 8,
        DeviceID::TransportNinep => 9,
        DeviceID::Mac80211Wlan => 10,
        DeviceID::RprocSerial => 11,
        DeviceID::VirtioCaif => 12,
        DeviceID::MemoryBaloon => 13,
        DeviceID::GpuDevice => 16,
        DeviceID::TimerClockDevice => 17,
        DeviceID::InputDevice => 18,
        DeviceID::SocketDevic => 19,
        DeviceID::CryptoDevice => 20,
        DeviceID::SignalDistrivutionModule => 21,
        DeviceID::PstoreDevice => 22,
        DeviceID::IommuDevice => 23,
        DeviceID::MemoryDevice => 24,
    }
}

/// Executable code of a virtio device identifier.
pub fn device_id_encode(d: DeviceID) -> (r: u8)
    ensures
        r == device_id_code(d),
{
    match d {
        DeviceID::Reserved => 0,
        DeviceID::NetworkCard => 1,
        DeviceID::BlockDevice => 2,
        DeviceID::Console => 3,
        DeviceID::EntropySource => 4,
        DeviceID::MomoryBalooning => 5,
        DeviceID::IoMemory => 6,
        DeviceID::Rpmsg => 7,
        DeviceID::ScsiHost => 8,
        DeviceID::TransportNinep => 9,
        DeviceID::Mac80211Wlan => 10,
        DeviceID::RprocSerial => 11,
        DeviceID::VirtioCaif => 12,
        DeviceID::MemoryBaloon => 13,
        DeviceID::GpuDevice => 16,
        DeviceID::TimerClockDevice => 17,
        DeviceID::InputDevice => 18,
        DeviceID::SocketDevic => 19,
        DeviceID::CryptoDevice => 20,
        DeviceID::SignalDistrivutionModule => 21,
        DeviceID::PstoreDevice => 22,
        DeviceID::IommuDevice => 23,
        DeviceID::MemoryDevice => 24,
    }
}

/// A virtqueue descriptor as laid out in guest memory: 16 bytes.
pub struct VirtqDesc {
    /// Guest-physical buffer address.
    pub addr: u64,
    /// Buffer length.
    pub len: u32,
    /// NEXT and WRITE flags.
    pub flags: u16,
    /// Next descriptor number.
    pub next: u16,
}

/// The descriptor stored at DRAM offset `a`.
pub open spec fn desc_at(mem: Seq<u8>, a: int) -> VirtqDesc
    recommends
        0 <= a,
        a + 16 <= mem.len(),
{
    VirtqDesc {
        addr: load64(mem, a),
        len: load32(mem, a + 8),
        flags: load16(mem, a + 12),
        next: load16(mem, a + 14),
    }
}

/// `dst` with `len` bytes starting at `doff` replaced by the bytes of
/// `src` starting at `soff`.
pub open spec fn seq_copy(dst: Seq<u8>, doff: int, src: Seq<u8>, soff: int, len: int) -> Seq<u8>
    recommends
        0 <= doff,
        doff + len <= dst.len(),
        0 <= soff,
        soff + len <= src.len(),
{
    Seq::new(
        dst.len(),
        |i: int|
            if doff <= i < doff + len {
                src[soff + (i - doff)]
            } else {
                dst[i]
            },
    )
}

/// The virtio-mmio block device.
pub struct Virtio {
    /// Ticks seen so far, modulo 2^64.
    pub clock: u64,
    /// The disk backing store.
    pub disk: Vec<u8>,
    /// The number of the last consumed entry of the available ring.
    pub last_avail_idx: u64,
    /// Dirty bit of the queue notifier register.
    pub notify_changed: bool,
    /// Magic value ("virt", little-endian).
    pub magic_value: u32,
    /// Virtio subsystem vendor ID.
    pub vendor_id: u32,
    /// Device version number; legacy devices use 1.
    pub version: u8,
    /// Virtio subsystem device ID.
    pub device_id: DeviceID,
    /// Features the device supports.
    pub host_features: u32,
    /// Device features word selection.
    pub host_features_sel: u32,
    /// Features understood and activated by the driver.
    pub guest_features: u32,
    /// Activated features word selection.
    pub guest_features_sel: u32,
    /// Guest page size.
    pub guest_page_size: u16,
    /// Virtual queue index.
    pub queue_sel: u32,
    /// Maximum virtual queue size.
    pub queue_num_max: u64,
    /// Virtual queue size.
    pub queue_num: u32,
    /// Used-ring alignment in the virtual queue.
    pub queue_align: u32,
    /// Guest physical page number of the virtual queue.
    pub queue_pfn: u32,
    /// Queue notifier.
    pub queue_notify: u32,
    /// Interrupt status.
    pub interrupt_status: u64,
    /// Device status.
    pub status: u32,
}

/// The ghost view of the device: the same registers, with the disk as a
/// byte sequence.
#[verifier::ext_equal]
pub struct VirtioView {
    /// Ticks seen so far, modulo 2^64.
    pub clock: u64,
    /// The disk backing store.
    pub disk: Seq<u8>,
    /// The number of the last consumed entry of the available ring.
    pub last_avail_idx: u64,
    /// Dirty bit of the queue notifier register.
    pub notify_changed: bool,
    /// Magic value ("virt", little-endian).
    pub magic_value: u32,
    /// Virtio subsystem vendor ID.
    pub vendor_id: u32,
    /// Device version number; legacy devices use 1.
    pub version: u8,
    /// Virtio subsystem device ID.
    pub device_id: DeviceID,
    /// Features the device supports.
    pub host_features: u32,
    /// Device features word selection.
    pub host_features_sel: u32,
    /// Features understood and activated by the driver.
    pub guest_features: u32,
    /// Activated features word selection.
    pub guest_features_sel: u32,
    /// Guest page size.
    pub guest_page_size: u16,
    /// Virtual queue index.
    pub queue_sel: u32,
    /// Maximum virtual queue size.
    pub queue_num_max: u64,
    /// Virtual queue size.
    pub queue_num: u32,
    /// Used-ring alignment in the virtual queue.
    pub queue_align: u32,
    /// Guest physical page number of the virtual queue.
    pub queue_pfn: u32,
    /// Queue notifier.
    pub queue_notify: u32,
    /// Interrupt status.
    pub interrupt_status: u64,
    /// Device status.
    pub status: u32,
}

impl View for Virtio {
    type V = VirtioView;

    open spec fn view(&self) -> VirtioView {
        VirtioView {
            clock: self.clock,
            disk: self.disk@,
            last_avail_idx: self.last_avail_idx,
            notify_changed: self.notify_changed,
            magic_value: self.magic_value,
            vendor_id: self.vendor_id,
            version: self.version,
            device_id: self.device_id,
            host_features: self.host_features,
            host_features_sel: self.host_features_sel,
            guest_features: self.guest_features,
            guest_features_sel: self.guest_features_sel,
            guest_page_size: self.guest_page_size,
            queue_sel: self.queue_sel,
            queue_num_max: self.queue_num_max,
            queue_num: self.queue_num,
            queue_align: self.queue_align,
            queue_pfn: self.queue_pfn,
            queue_notify: self.queue_notify,
            interrupt_status: self.interrupt_status,
            status: self.status,
        }
    }
}

/// A 32-bit register with one byte lane replaced.
pub open spec fn lane32(f: u32, off: u64, data: u8) -> u32
    recommends
        off < 4,
{
    ((f & !(0xFFu32 << (8 * off))) | ((data as u32) << (8 * off))) as u32
}

/// A 16-bit register with one byte lane replaced.
pub open spec fn lane16(f: u16, off: u64, data: u8) -> u16
    recommends
        off < 2,
{
    ((f & !(0xFFu16 << (8 * off))) | ((data as u16) << (8 * off))) as u16
}

/// One byte lane of a 32-bit register.
pub open spec fn lane32_read(f: u32, off: u64) -> u8
    recommends
        off < 4,
{
    ((f >> (8 * off)) & 0xFF) as u8
}

/// One byte lane of the low word of a 64-bit register.
pub open spec fn lane64_read(f: u64, off: u64) -> u8
    recommends
        off < 4,
{
    ((f >> (8 * off)) & 0xFF) as u8
}

/// The device state after one byte is written at a register offset.
/// Writes to read-only or unmapped offsets are discarded; a write to the
/// queue notifier also sets the dirty bit; the interrupt-acknowledge
/// register is write-one-to-clear.
pub open spec fn virtio_store8(v: VirtioView, addr: u64, data: u8) -> VirtioView {
    if HOST_FEATURES_SEL_BASE <= addr <= HOST_FEATURES_SEL_TOP {
        VirtioView {
            host_features_sel: lane32(v.host_features_sel, (addr - HOST_FEATURES_SEL_BASE) as u64, data),
            ..v
        }
    } else if GUEST_FEATURES_BASE <= addr <= GUEST_FEATURES_TOP {
        VirtioView {
            guest_features: lane32(v.guest_features, (addr - GUEST_FEATURES_BASE) as u64, data),
            ..v
        }
    } else if GUEST_FEATURES_SEL_BASE <= addr <= GUEST_FEATURES_SEL_TOP {
        VirtioView {
            guest_features_sel: lane32(v.guest_features_sel, (addr - GUEST_FEATURES_SEL_BASE) as u64, data),
            ..v
        }
    } else if GUEST_PAGE_SIZE_BASE <= addr <= GUEST_PAGE_SIZE_TOP {
        VirtioView {
            guest_page_size: lane16(v.guest_page_size, (addr - GUEST_PAGE_SIZE_BASE) as u64, data),
            ..v
        }
    } else if QUEUE_SEL_BASE <= addr <= QUEUE_SEL_TOP {
        VirtioView { queue_sel: lane32(v.queue_sel, (addr - QUEUE_SEL_BASE) as u64, data), ..v }
    } else if QUEUE_NUM_BASE <= addr <= QUEUE_NUM_TOP {
        VirtioView { queue_num: lane32(v.queue_num, (addr - QUEUE_NUM_BASE) as u64, data), ..v }
    } else if QUEUE_ALIGN_BASE <= addr <= QUEUE_ALIGN_TOP {
        VirtioView { queue_align: lane32(v.queue_align, (addr - QUEUE_ALIGN_BASE) as u64, data), ..v }
    } else if QUEUE_PFN_BASE <= addr <= QUEUE_PFN_TOP {
        VirtioView { queue_pfn: lane32(v.queue_pfn, (addr - QUEUE_PFN_BASE) as u64, data), ..v }
    } else if QUEUE_NOTIFY_BASE <= addr <= QUEUE_NOTIFY_TOP {
        VirtioView {
            queue_notify: lane32(v.queue_notify, (addr - QUEUE_NOTIFY_BASE) as u64, data),
            notify_changed: true,
            ..v
        }
    } else if addr == INTERRUPT_ACK {
        if data & 0x1 == 1 {
            VirtioView { interrupt_status: (v.interrupt_status & !0x1u64) as u64, ..v }
        } else {
            v
        }
    } else if STATUS_BASE <= addr <= STATUS_TOP {
        VirtioView { status: lane32(v.status, (addr - STATUS_BASE) as u64, data), ..v }
    } else {
        v
    }
}

/// The device state after a half-word write.
pub open spec fn virtio_store16(v: VirtioView, addr: u64, data: u16) -> VirtioView {
    virtio_store8(
        virtio_store8(v, addr, (data & 0xFF) as u8),
        (addr + 1) as u64,
        ((data >> 8) & 0xFF) as u8,
    )
}

/// The device state after a word write.
pub open spec fn virtio_store32(v: VirtioView, addr: u64, data: u32) -> VirtioView {
    virtio_store16(
        virtio_store16(v, addr, (data & 0xFFFF) as u16),
        (addr + 2) as u64,
        ((data >> 16) & 0xFFFF) as u16,
    )
}

/// The device state after a double-word write.
pub open spec fn virtio_store64(v: VirtioView, addr: u64, data: u64) -> VirtioView {
    virtio_store32(
        virtio_store32(v, addr, (data & 0xFFFF_FFFF) as u32),
        (addr + 4) as u64,
        ((data >> 32) & 0xFFFF_FFFF) as u32,
    )
}

/// The byte read at a register offset: the identity registers, the
/// feature words, the queue maximum, the interrupt status and the device
/// status; unmapped offsets read zero.
pub open spec fn virtio_read8_val(v: VirtioView, addr: u64) -> u8 {
    if MAGIC_VALUE_BASE <= addr <= MAGIC_VALUE_TOP {
        lane32_read(v.magic_value, (addr - MAGIC_VALUE_BASE) as u64)
    } else if addr == VERSION {
        v.version
    } else if addr == DEVICE_ID {
        device_id_code(v.device_id)
    } else if VENDOR_ID_BASE <= addr <= VENDOR_ID_TOP {
        lane32_read(v.vendor_id, (addr - VENDOR_ID_BASE) as u64)
    } else if HOST_FEATURES_BASE <= addr <= HOST_FEATURES_TOP {
        lane32_read(v.host_features, (addr - HOST_FEATURES_BASE) as u64)
    } else if QUEUE_NUM_MAX_BASE <= addr <= QUEUE_NUM_MAX_TOP {
        lane64_read(v.queue_num_max, (addr - QUEUE_NUM_MAX_BASE) as u64)
    } else if INTERRUPT_STATUS_BASE <= addr <= INTERRUPT_STATUS_TOP {
        lane64_read(v.interrupt_status, (addr - INTERRUPT_STATUS_BASE) as u64)
    } else if STATUS_BASE <= addr <= STATUS_TOP {
        lane32_read(v.status, (addr - STATUS_BASE) as u64)
    } else {
        0
    }
}

/// The half-word read at a register offset.
pub open spec fn virtio_read16_val(v: VirtioView, addr: u64) -> u16 {
    (virtio_read8_val(v, addr) as u16 | ((virtio_read8_val(v, (addr + 1) as u64) as u16)
        << 8)) as u16
}

/// The word read at a register offset.
pub open spec fn virtio_read32_val(v: VirtioView, addr: u64) -> u32 {
    (virtio_read16_val(v, addr) as u32 | ((virtio_read16_val(v, (addr + 2) as u64) as u32)
        << 16)) as u32
}

/// The double-word read at a register offset.
pub open spec fn virtio_read64_val(v: VirtioView, addr: u64) -> u64 {
    (virtio_read32_val(v, addr) as u64 | ((virtio_read32_val(v, (addr + 4) as u64) as u64)
        << 32)) as u64
}

/// The outcome of one walk of the available ring from device state `v`
/// and guest memory `mem`: the new guest memory, the new disk contents
/// and the new cursor into the available ring.
///
/// The walk follows a chain of up to three descriptors: a request header
/// (type and sector), a data buffer whose direction the WRITE flag gives,
/// and a status byte. It then records the served head in the used ring
/// and advances the cursor. At the first malformed address or descriptor
/// the walk stops, keeping the effects made so far.
pub open spec fn walk_spec(v: VirtioView, mem: Seq<u8>) -> (Seq<u8>, Seq<u8>, u64) {
    let disk = v.disk;
    let lai = v.last_avail_idx;
    let qn = v.queue_num as int;
    let pa = v.queue_pfn as int * v.guest_page_size as int - DRAM_BASE as int;
    if qn <= 0 || pa < 0 {
        (mem, disk, lai)
    } else {
        let dia = pa + qn * 16 + lai * 2 + 4;
        if dia + 2 > DRAM_SIZE {
            (mem, disk, lai)
        } else {
            let head = load16(mem, dia) as int % qn;
            let d0a = pa + head * 16;
            if d0a + 16 > DRAM_SIZE {
                (mem, disk, lai)
            } else {
                let d0 = desc_at(mem, d0a);
                if d0.addr < DRAM_BASE || d0.addr - DRAM_BASE + 16 > DRAM_SIZE {
                    (mem, disk, lai)
                } else {
                    let sector = load64(mem, d0.addr - DRAM_BASE + 8);
                    if d0.flags & VIRTQ_DESC_F_NEXT == 0 {
                        walk_finish(v, mem, disk, head)
                    } else {
                        walk_data(v, mem, disk, head, sector, pa + d0.next * 16)
                    }
                }
            }
        }
    }
}

/// The data phase of the walk: copy between the data descriptor's guest
/// buffer and the disk, then go on to the status descriptor.
pub open spec fn walk_data(
    v: VirtioView,
    mem: Seq<u8>,
    disk: Seq<u8>,
    head: int,
    sector: u64,
    d1a: int,
) -> (Seq<u8>, Seq<u8>, u64) {
    let lai = v.last_avail_idx;
    if d1a + 16 > DRAM_SIZE {
        (mem, disk, lai)
    } else {
        let d1 = desc_at(mem, d1a);
        let ma = d1.addr - DRAM_BASE;
        let da = sector * SECTOR_SIZE;
        if d1.addr < DRAM_BASE || ma + d1.len > DRAM_SIZE || da + d1.len > disk.len() {
            (mem, disk, lai)
        } else {
            let mem1 = if d1.flags & VIRTQ_DESC_F_WRITE == 0 {
                mem
            } else {
                seq_copy(mem, ma as int, disk, da as int, d1.len as int)
            };
            let disk1 = if d1.flags & VIRTQ_DESC_F_WRITE == 0 {
                seq_copy(disk, da as int, mem, ma as int, d1.len as int)
            } else {
                disk
            };
            if d1.flags & VIRTQ_DESC_F_NEXT == 0 {
                walk_finish(v, mem1, disk1, head)
            } else {
                walk_status(v, mem1, disk1, head, pa_of(v) + d1.next * 16)
            }
        }
    }
}

/// The status phase of the walk: the status descriptor must be writable
/// with length one and end the chain; zero (success) is stored there.
pub open spec fn walk_status(
    v: VirtioView,
    mem: Seq<u8>,
    disk: Seq<u8>,
    head: int,
    d2a: int,
) -> (Seq<u8>, Seq<u8>, u64) {
    let lai = v.last_avail_idx;
    if d2a + 16 > DRAM_SIZE {
        (mem, disk, lai)
    } else {
        let d2 = desc_at(mem, d2a);
        if d2.flags & VIRTQ_DESC_F_WRITE == 0 || d2.len != 1 {
            (mem, disk, lai)
        } else if d2.addr < DRAM_BASE || d2.addr - DRAM_BASE >= DRAM_SIZE {
            (mem, disk, lai)
        } else {
            let mem1 = mem.update(d2.addr - DRAM_BASE, 0u8);
            if d2.flags & VIRTQ_DESC_F_NEXT != 0 {
                (mem1, disk, lai)
            } else {
                walk_finish(v, mem1, disk, head)
            }
        }
    }
}

/// The DRAM offset of the virtqueue page.
pub open spec fn pa_of(v: VirtioView) -> int {
    v.queue_pfn as int * v.guest_page_size as int - DRAM_BASE as int
}

/// The DRAM offset of the used ring.
pub open spec fn used_base_of(v: VirtioView) -> int {
    pa_of(v) + 4 + v.queue_num as int * 2 + v.queue_align as int - 1
}

/// The bookkeeping at the end of the walk: record the served head in the
/// used ring, advance the cursor into the available ring, and publish the
/// new cursor in the used.idx field.
pub open spec fn walk_finish(v: VirtioView, mem: Seq<u8>, disk: Seq<u8>, head: int) -> (
    Seq<u8>,
    Seq<u8>,
    u64,
) {
    let lai = v.last_avail_idx;
    let qn = v.queue_num as int;
    let ub = used_base_of(v);
    if ub < 0 || ub + 4 > DRAM_SIZE {
        (mem, disk, lai)
    } else {
        let w1 = ub + 4 + lai * 8;
        if w1 + 4 > DRAM_SIZE {
            (mem, disk, lai)
        } else {
            let mem1 = store32(mem, w1, head as u32);
            let lai1 = (((lai + 1) as u64) as int % qn) as u64;
            let mem2 = store16(mem1, ub + 2, (lai1 & 0xFFFF) as u16);
            (mem2, disk, lai1)
        }
    }
}

impl Virtio {
    /// Structural bounds the device keeps: the ring cursor stays below
    /// the largest queue size and the disk stays within its limit.
    pub open spec fn wf(&self) -> bool {
        self.last_avail_idx < 0x1_0000_0000 && self.disk@.len() <= MAX_DISK
    }

    /// A fresh device with the given identity and an empty disk.
    pub fn new(device_id: DeviceID) -> (r: Virtio)
        ensures
            r.wf(),
            r.clock == 0,
            r.disk@.len() == 0,
            r.last_avail_idx == 0,
            r.notify_changed == false,
            r.magic_value == 0x74726976,
            r.vendor_id == 0x554d4551,
            r.version == 1,
            r.device_id == device_id,
            r.host_features == 0,
            r.host_features_sel == 0,
            r.guest_features == 0,
            r.guest_features_sel == 0,
            r.guest_page_size == 0,
            r.queue_sel == 0,
            r.queue_num_max == 0x2000,
            r.queue_num == 0,
            r.queue_align == 0,
            r.queue_pfn == 0,
            r.queue_notify == 0,
            r.interrupt_status == 0,
            r.status == 0,
    {
        Virtio {
            clock: 0,
            disk: Vec::new(),
            last_avail_idx: 0,
            notify_changed: false,
            magic_value: 0x74726976,  // a little-endian "virt"
            vendor_id: 0x554d4551,  // QEMU's vendor ID
            version: 0x1,  // legacy devices use 0x1
            device_id,
            host_features: 0,
            host_features_sel: 0,
            guest_features: 0,
            guest_features_sel: 0,
            guest_page_size: 0,
            queue_sel: 0,
            queue_num_max: 0x2000,
            queue_num: 0,
            queue_align: 0,
            queue_pfn: 0,
            queue_notify: 0,
            interrupt_status: 0,
            status: 0,
        }
    }

    /// Append a disk image to the backing store.
    pub fn load(&mut self, binary: Vec<u8>)
        requires
            old(self).wf(),
            old(self).disk@.len() + binary@.len() <= MAX_DISK,
        ensures
            final(self).wf(),
            final(self)@ == (VirtioView { disk: old(self).disk@ + binary@, ..old(self)@ }),
    {
        let n = binary.len();
        let mut i: usize = 0;
        while i < n
            invariant
                n == binary@.len(),
                0 <= i <= n,
                self@ == (VirtioView {
                    disk: old(self).disk@ + binary@.subrange(0, i as int),
                    ..old(self)@
                }),
            decreases n - i,
        {
            let b = binary[i];
            self.disk.push(b);
            proof {
                assert(self.disk@ =~= old(self).disk@ + binary@.subrange(0, i + 1));
            }
            i = i + 1;
        }
        proof {
            assert(binary@.subrange(0, n as int) =~= binary@);
        }
    }

    /// Write one byte to a device register.
    pub fn write8(&mut self, addr: u64, data: u8)
        ensures
            final(self)@ == virtio_store8(old(self)@, addr, data),
    {
        if HOST_FEATURES_SEL_BASE <= addr && addr <= HOST_FEATURES_SEL_TOP {
            self.host_features_sel = lane32_set(self.host_features_sel, addr - HOST_FEATURES_SEL_BASE, data);
        } else if GUEST_FEATURES_BASE <= addr && addr <= GUEST_FEATURES_TOP {
            self.guest_features = lane32_set(self.guest_features, addr - GUEST_FEATURES_BASE, data);
        } else if GUEST_FEATURES_SEL_BASE <= addr && addr <= GUEST_FEATURES_SEL_TOP {
            self.guest_features_sel = lane32_set(self.guest_features_sel, addr - GUEST_FEATURES_SEL_BASE, data);
        } else if GUEST_PAGE_SIZE_BASE <= addr && addr <= GUEST_PAGE_SIZE_TOP {
            self.guest_page_size = lane16_set(self.guest_page_size, addr - GUEST_PAGE_SIZE_BASE, data);
        } else if QUEUE_SEL_BASE <= addr && addr <= QUEUE_SEL_TOP {
            self.queue_sel = lane32_set(self.queue_sel, addr - QUEUE_SEL_BASE, data);
        } else if QUEUE_NUM_BASE <= addr && addr <= QUEUE_NUM_TOP {
            self.queue_num = lane32_set(self.queue_num, addr - QUEUE_NUM_BASE, data);
        } else if QUEUE_ALIGN_BASE <= addr && addr <= QUEUE_ALIGN_TOP {
            self.queue_align = lane32_set(self.queue_align, addr - QUEUE_ALIGN_BASE, data);
        } else if QUEUE_PFN_BASE <= addr && addr <= QUEUE_PFN_TOP {
            self.queue_pfn = lane32_set(self.queue_pfn, addr - QUEUE_PFN_BASE, data);
        } else if QUEUE_NOTIFY_BASE <= addr && addr <= QUEUE_NOTIFY_TOP {
            self.queue_notify = lane32_set(self.queue_notify, addr - QUEUE_NOTIFY_BASE, data);
            self.notify_changed = true;
        } else if addr == INTERRUPT_ACK {
            if data & 0x1 == 1 {
                self.interrupt_status = self.interrupt_status & !0x1u64;
            }
        } else if STATUS_BASE <= addr && addr <= STATUS_TOP {
            self.status = lane32_set(self.status, addr - STATUS_BASE, data);
        }
    }

    /// Write a little-endian half-word across two device registers.
    pub fn write16(&mut self, addr: u64, data: u16)
        requires
            addr + 1 < 0x1_0000_0000_0000_0000,
        ensures
            final(self)@ == virtio_store16(old(self)@, addr, data),
    {
        self.write8(addr, (data & 0xFF) as u8);
        self.write8(addr + 1, ((data >> 8) & 0xFF) as u8);
    }

    /// Write a little-endian word across four device registers.
    pub fn write32(&mut self, addr: u64, data: u32)
        requires
            addr + 3 < 0x1_0000_0000_0000_0000,
        ensures
            final(self)@ == virtio_store32(old(self)@, addr, data),
    {
        self.write16(addr, (data & 0xFFFF) as u16);
        self.write16(addr + 2, ((data >> 16) & 0xFFFF) as u16);
    }

    /// Write a little-endian double-word across eight device registers.
    pub fn write64(&mut self, addr: u64, data: u64)
        requires
            addr + 7 < 0x1_0000_0000_0000_0000,
        ensures
            final(self)@ == virtio_store64(old(self)@, addr, data),
    {
        self.write32(addr, (data & 0xFFFF_FFFF) as u32);
        self.write32(addr + 4, ((data >> 32) & 0xFFFF_FFFF) as u32);
    }

    /// Read one byte from a device register.
    pub fn read8(&self, addr: u64) -> (r: u8)
        ensures
            r == virtio_read8_val(self@, addr),
    {
        if MAGIC_VALUE_BASE <= addr && addr <= MAGIC_VALUE_TOP {
            lane32_get(self.magic_value, addr - MAGIC_VALUE_BASE)
        } else if addr == VERSION {
            self.version
        } else if addr == DEVICE_ID {
            device_id_encode(self.device_id)
        } else if VENDOR_ID_BASE <= addr && addr <= VENDOR_ID_TOP {
            lane32_get(self.vendor_id, addr - VENDOR_ID_BASE)
        } else if HOST_FEATURES_BASE <= addr && addr <= HOST_FEATURES_TOP {
            lane32_get(self.host_features, addr - HOST_FEATURES_BASE)
        } else if QUEUE_NUM_MAX_BASE <= addr && addr <= QUEUE_NUM_MAX_TOP {
            lane64_get(self.queue_num_max, addr - QUEUE_NUM_MAX_BASE)
        } else if INTERRUPT_STATUS_BASE <= addr && addr <= INTERRUPT_STATUS_TOP {
            lane64_get(self.interrupt_status, addr - INTERRUPT_STATUS_BASE)
        } else if STATUS_BASE <= addr && addr <= STATUS_TOP {
            lane32_get(self.status, addr - STATUS_BASE)
        } else {
            0
        }
    }

    /// Read a little-endian half-word across two device registers.
    pub fn read16(&self, addr: u64) -> (r: u16)
        requires
            addr + 1 < 0x1_0000_0000_0000_0000,
        ensures
            r == virtio_read16_val(self@, addr),
    {
        self.read8(addr) as u16 | (self.read8(addr + 1) as u16) << 8
    }

    /// Read a little-endian word across four device registers.
    pub fn read32(&self, addr: u64) -> (r: u32)
        requires
            addr + 3 < 0x1_0000_0000_0000_0000,
        ensures
            r == virtio_read32_val(self@, addr),
    {
        self.read16(addr) as u32 | (self.read16(addr + 2) as u32) << 16
    }

    /// Read a little-endian double-word across eight device registers.
    pub fn read64(&self, addr: u64) -> (r: u64)
        requires
            addr + 7 < 0x1_0000_0000_0000_0000,
        ensures
            r == virtio_read64_val(self@, addr),
    {
        self.read32(addr) as u64 | (self.read32(addr + 4) as u64) << 32
    }

    /// One core tick: when the queue notifier was written since the last
    /// tick, walk the available ring once, raise interrupt-status bit 0
    /// (used ring updated) and clear the dirty bit.
    pub fn tick(&mut self, dram: &mut Dram)
        requires
            old(self).wf(),
            old(dram).wf(),
        ensures
            final(self).wf(),
            final(dram).wf(),
            ({
                if old(self).notify_changed {
                    let (mem1, disk1, lai1) = walk_spec(old(self)@, old(dram)@);
                    final(dram)@ == mem1 && final(self)@ == (VirtioView {
                        clock: crate::bitops::wadd64(old(self).clock, 1),
                        disk: disk1,
                        last_avail_idx: lai1,
                        notify_changed: false,
                        interrupt_status: (old(self).interrupt_status | 1) as u64,
                        ..old(self)@
                    })
                } else {
                    final(dram)@ == old(dram)@ && final(self)@ == (VirtioView {
                        clock: crate::bitops::wadd64(old(self).clock, 1),
                        ..old(self)@
                    })
                }
            }),
    {
        if self.notify_changed {
            self.disk_access(dram);
            self.notify_changed = false;
            self.interrupt_status = self.interrupt_status | 1;
        }
        self.clock = crate::bitops::add_w64(self.clock, 1);
    }

    /// Walk the available ring once, as `walk_spec` describes.
    fn disk_access(&mut self, mem: &mut Dram)
        requires
            old(self).wf(),
            old(mem).wf(),
        ensures
            final(self).wf(),
            final(mem).wf(),
            ({
                let (mem1, disk1, lai1) = walk_spec(old(self)@, old(mem)@);
                final(mem)@ == mem1 && final(self)@ == (VirtioView {
                    disk: disk1,
                    last_avail_idx: lai1,
                    ..old(self)@
                })
            }),
    {
        let qn = self.queue_num as u64;
        if qn == 0 {
            return ;
        }
        proof {
            assert(self.queue_pfn as int * self.guest_page_size as int <= 0xFFFF_FFFFint
                * 0xFFFFint) by (nonlinear_arith)
                requires
                    self.queue_pfn <= 0xFFFF_FFFFu32,
                    self.guest_page_size <= 0xFFFFu16,
            ;
        }
        let pfn_bytes = self.queue_pfn as u64 * self.guest_page_size as u64;
        if pfn_bytes < DRAM_BASE {
            return ;
        }
        let pa = pfn_bytes - DRAM_BASE;

        // The descriptor index in the available ring that this walk serves.
        let dia = pa + qn * 16 + self.last_avail_idx * 2 + 4;
        if dia + 2 > DRAM_SIZE {
            return ;
        }
        let head = mem.read16(dia) as u64 % qn;
        let d0a = pa + head * 16;
        if d0a + 16 > DRAM_SIZE {
            return ;
        }
        let d0 = read_desc(mem, d0a);

        // The request header: its type word is unused by this device, the
        // sector selects where on the disk the data phase works.
        if d0.addr < DRAM_BASE || d0.addr - DRAM_BASE + 16 > DRAM_SIZE {
            return ;
        }
        let sector = mem.read64(d0.addr - DRAM_BASE + 8);

        if d0.flags & VIRTQ_DESC_F_NEXT != 0 {
            let d1a = pa + d0.next as u64 * 16;
            if d1a + 16 > DRAM_SIZE {
                return ;
            }
            let d1 = read_desc(mem, d1a);
            if d1.addr < DRAM_BASE {
                return ;
            }
            let ma = d1.addr - DRAM_BASE;
            let dlen = d1.len as u64;
            if dlen > DRAM_SIZE || ma > DRAM_SIZE - dlen {
                return ;
            }
            if sector > MAX_DISK / SECTOR_SIZE {
                return ;
            }
            let da = sector * SECTOR_SIZE;
            if da + dlen > self.disk.len() as u64 {
                return ;
            }
            if d1.flags & VIRTQ_DESC_F_WRITE == 0 {
                self.copy_to_disk(mem, ma, da, dlen);
            } else {
                self.copy_from_disk(mem, ma, da, dlen);
            }

            if d1.flags & VIRTQ_DESC_F_NEXT != 0 {
                let d2a = pa + d1.next as u64 * 16;
                if d2a + 16 > DRAM_SIZE {
                    return ;
                }
                let d2 = read_desc(mem, d2a);
                if d2.flags & VIRTQ_DESC_F_WRITE == 0 || d2.len != 1 {
                    return ;
                }
                if d2.addr < DRAM_BASE || d2.addr - DRAM_BASE >= DRAM_SIZE {
                    return ;
                }
                mem.write8(d2.addr - DRAM_BASE, 0);
                if d2.flags & VIRTQ_DESC_F_NEXT != 0 {
                    return ;
                }
            }
        }

        // Record the served head in the used ring, advance the cursor,
        // and publish it in the used.idx field.
        let ub = pa + 4 + qn * 2 + self.queue_align as u64;
        let ub = ub - 1;
        if ub + 4 > DRAM_SIZE {
            return ;
        }
        let w1 = ub + 4 + self.last_avail_idx * 8;
        if w1 + 4 > DRAM_SIZE {
            return ;
        }
        mem.write32(w1, head as u32);
        self.last_avail_idx = (self.last_avail_idx + 1) % qn;
        proof {
            crate::bitops::lemma_u64_and_le(self.last_avail_idx, 0xFFFF);
        }
        mem.write16(ub + 2, (self.last_avail_idx & 0xFFFF) as u16);
    }

    /// Copy `len` bytes from guest memory at `ma` onto the disk at `da`.
    fn copy_to_disk(&mut self, mem: &Dram, ma: u64, da: u64, len: u64)
        requires
            old(self).wf(),
            mem.wf(),
            ma + len <= DRAM_SIZE,
            da + len <= old(self).disk@.len(),
        ensures
            final(self).wf(),
            final(self)@ == (VirtioView {
                disk: seq_copy(old(self).disk@, da as int, mem@, ma as int, len as int),
                ..old(self)@
            }),
    {
        let mut i: u64 = 0;
        while i < len
            invariant
                self.wf(),
                mem.wf(),
                ma + len <= DRAM_SIZE,
                da + len <= self.disk@.len(),
                0 <= i <= len,
                self.disk@.len() == old(self).disk@.len(),
                forall|j: int|
                    0 <= j < self.disk@.len() ==> self.disk@[j] == (if da <= j < da + i {
                        mem@[ma + (j - da)]
                    } else {
                        old(self).disk@[j]
                    }),
                self@ == (VirtioView { disk: self.disk@, ..old(self)@ }),
            decreases len - i,
        {
            let b = mem.read8(ma + i);
            self.disk.set((da + i) as usize, b);
            i = i + 1;
        }
        proof {
            assert(self.disk@ =~= seq_copy(
                old(self).disk@,
                da as int,
                mem@,
                ma as int,
                len as int,
            ));
        }
    }

    /// Copy `len` bytes from the disk at `da` into guest memory at `ma`.
    fn copy_from_disk(&self, mem: &mut Dram, ma: u64, da: u64, len: u64)
        requires
            self.wf(),
            old(mem).wf(),
            ma + len <= DRAM_SIZE,
            da + len <= self.disk@.len(),
        ensures
            final(mem).wf(),
            final(mem)@ == seq_copy(old(mem)@, ma as int, self.disk@, da as int, len as int),
    {
        let mut i: u64 = 0;
        while i < len
            invariant
                self.wf(),
                mem.wf(),
                ma + len <= DRAM_SIZE,
                da + len <= self.disk@.len(),
                0 <= i <= len,
                forall|j: int|
                    0 <= j < mem@.len() ==> mem@[j] == (if ma <= j < ma + i {
                        self.disk@[da + (j - ma)]
                    } else {
                        old(mem)@[j]
                    }),
            decreases len - i,
        {
            let b = self.disk[(da + i) as usize];
            mem.write8(ma + i, b);
            i = i + 1;
        }
        proof {
            assert(mem@ =~= seq_copy(old(mem)@, ma as int, self.disk@, da as int, len as int));
        }
    }
}

/// Read a descriptor from guest memory.
fn read_desc(mem: &Dram, a: u64) -> (r: VirtqDesc)
    requires
        mem.wf(),
        a + 16 <= DRAM_SIZE,
    ensures
        r == desc_at(mem@, a as int),
{
    VirtqDesc {
        addr: mem.read64(a),
        len: mem.read32(a + 8),
        flags: mem.read16(a + 12),
        next: mem.read16(a + 14),
    }
}

/// Executable byte-lane update of a 32-bit register.
fn lane32_set(f: u32, off: u64, data: u8) -> (r: u32)
    requires
        off < 4,
    ensures
        r == lane32(f, off, data),
{
    (f & !(0xFFu32 << (8 * off))) | ((data as u32) << (8 * off))
}

/// Executable byte-lane update of a 16-bit register.
fn lane16_set(f: u16, off: u64, data: u8) -> (r: u16)
    requires
        off < 2,
    ensures
        r == lane16(f, off, data),
{
    (f & !(0xFFu16 << (8 * off))) | ((data as u16) << (8 * off))
}

/// Executable byte-lane read of a 32-bit register.
fn lane32_get(f: u32, off: u64) -> (r: u8)
    requires
        off < 4,
    ensures
        r == lane32_read(f, off),
{
    ((f >> (8 * off)) & 0xFF) as u8
}

/// Executable byte-lane read of the low word of a 64-bit register.
fn lane64_get(f: u64, off: u64) -> (r: u8)
    requires
        off < 4,
    ensures
        r == lane64_read(f, off),
{
    ((f >> (8 * off)) & 0xFF) as u8
}

} // verus!
