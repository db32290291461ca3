//! Linear byte-addressable RAM backing, with little-endian multi-byte
//! accessors. A load from an unwritten address yields zero.

use vstd::prelude::*;

verus! {

/// DRAM size: 128 MiB.
pub const DRAM_SIZE: u64 = 1024 * 1024 * 128;

/// The little-endian half-word stored at offset `a` of `s`.
pub open spec fn load16(s: Seq<u8>, a: int) -> u16
    recommends
        0 <= a,
        a + 2 <= s.len(),
{
    (s[a] as u16 | ((s[a + 1] as u16) << 8)) as u16
}

/// The little-endian word stored at offset `a` of `s`.
pub open spec fn load32(s: Seq<u8>, a: int) -> u32
    recommends
        0 <= a,
        a + 4 <= s.len(),
{
    (load16(s, a) as u32 | ((load16(s, a + 2) as u32) << 16)) as u32
}

/// The little-endian double-word stored at offset `a` of `s`.
pub open spec fn load64(s: Seq<u8>, a: int) -> u64
    recommends
        0 <= a,
        a + 8 <= s.len(),
{
    (load32(s, a) as u64 | ((load32(s, a + 4) as u64) << 32)) as u64
}

/// `s` with the little-endian half-word `v` stored at offset `a`.
pub open spec fn store16(s: Seq<u8>, a: int, v: u16) -> Seq<u8>
    recommends
        0 <= a,
        a + 2 <= s.len(),
{
    s.update(a, (v & 0xFF) as u8).update(a + 1, ((v >> 8) & 0xFF) as u8)
}

/// `s` with the little-endian word `v` stored at offset `a`.
pub open spec fn store32(s: Seq<u8>, a: int, v: u32) -> Seq<u8>
    recommends
        0 <= a,
        a + 4 <= s.len(),
{
    store16(store16(s, a, (v & 0xFFFF) as u16), a + 2, ((v >> 16) & 0xFFFF) as u16)
}

/// `s` with the little-endian double-word `v` stored at offset `a`.
pub open spec fn store64(s: Seq<u8>, a: int, v: u64) -> Seq<u8>
    recommends
        0 <= a,
        a + 8 <= s.len(),
{
    store32(store32(s, a, (v & 0xFFFF_FFFF) as u32), a + 4, ((v >> 32) & 0xFFFF_FFFF) as u32)
}

/// Contiguous byte array backing the DRAM region of the bus.
pub struct Dram {
    dram: Vec<u8>,
}

impl View for Dram {
    type V = Seq<u8>;

    closed spec fn view(&self) -> Seq<u8> {
        self.dram@
    }
}

impl Dram {
    /// The backing array always spans exactly the DRAM region.
    pub open spec fn wf(&self) -> bool {
        self@.len() == DRAM_SIZE
    }

    /// Fresh DRAM, all bytes zero.
    pub fn new() -> (r: Dram)
        ensures
            r.wf(),
            r@ == Seq::new(DRAM_SIZE as nat, |i: int| 0u8),
    {
        let dram: Vec<u8> = vec![0u8; DRAM_SIZE as usize];
        proof {
            assert(dram@ =~= Seq::new(DRAM_SIZE as nat, |i: int| 0u8));
        }
        Dram { dram }
    }

    /// Copy `binary` over the start of DRAM; the rest keeps its contents.
    pub fn load(&mut self, binary: Vec<u8>)
        requires
            old(self).wf(),
            binary@.len() <= DRAM_SIZE,
        ensures
            final(self).wf(),
            forall|i: int|
                0 <= i < binary@.len() ==> final(self)@[i] == binary@[i],
            forall|i: int|
                binary@.len() <= i < DRAM_SIZE ==> final(self)@[i] == old(self)@[i],
    {
        let n = binary.len();
        let mut i: usize = 0;
        while i < n
            invariant
                self.wf(),
                n == binary@.len() <= DRAM_SIZE,
                0 <= i <= n,
                forall|j: int| 0 <= j < i ==> self@[j] == binary@[j],
                forall|j: int| i <= j < DRAM_SIZE ==> self@[j] == old(self)@[j],
            decreases n - i,
        {
            let b = binary[i];
            self.dram.set(i, b);
            i = i + 1;
        }
    }

    /// Read one byte.
    pub fn read8(&self, paddr: u64) -> (r: u8)
        requires
            self.wf(),
            paddr < DRAM_SIZE,
        ensures
            r == self@[paddr as int],
    {
        self.dram[paddr as usize]
    }

    /// Read a little-endian half-word.
    pub fn read16(&self, paddr: u64) -> (r: u16)
        requires
            self.wf(),
            paddr + 2 <= DRAM_SIZE,
        ensures
            r == load16(self@, paddr as int),
    {
        self.read8(paddr) as u16 | (self.read8(paddr + 1) as u16) << 8
    }

    /// Read a little-endian word.
    pub fn read32(&self, paddr: u64) -> (r: u32)
        requires
            self.wf(),
            paddr + 4 <= DRAM_SIZE,
        ensures
            r == load32(self@, paddr as int),
    {
        self.read16(paddr) as u32 | (self.read16(paddr + 2) as u32) << 16
    }

    /// Read a little-endian double-word.
    pub fn read64(&self, paddr: u64) -> (r: u64)
        requires
            self.wf(),
            paddr + 8 <= DRAM_SIZE,
        ensures
            r == load64(self@, paddr as int),
    {
        self.read32(paddr) as u64 | (self.read32(paddr + 4) as u64) << 32
    }

    /// Write one byte.
    pub fn write8(&mut self, paddr: u64, data: u8)
        requires
            old(self).wf(),
            paddr < DRAM_SIZE,
        ensures
            final(self).wf(),
            final(self)@ == old(self)@.update(paddr as int, data),
    {
        self.dram.set(paddr as usize, data);
    }

    /// Write a little-endian half-word.
    pub fn write16(&mut self, paddr: u64, data: u16)
        requires
            old(self).wf(),
            paddr + 2 <= DRAM_SIZE,
        ensures
            final(self).wf(),
            final(self)@ == store16(old(self)@, paddr as int, data),
    {
        self.write8(paddr, (data & 0xFF) as u8);
        self.write8(paddr + 1, ((data >> 8) & 0xFF) as u8);
    }

    /// Write a little-endian word.
    pub fn write32(&mut self, paddr: u64, data: u32)
        requires
            old(self).wf(),
            paddr + 4 <= DRAM_SIZE,
        ensures
            final(self).wf(),
            final(self)@ == store32(old(self)@, paddr as int, data),
    {
        self.write16(paddr, (data & 0xFFFF) as u16);
        self.write16(paddr + 2, ((data >> 16) & 0xFFFF) as u16);
    }

    /// Write a little-endian double-word.
    pub fn write64(&mut self, paddr: u64, data: u64)
        requires
            old(self).wf(),
            paddr + 8 <= DRAM_SIZE,
        ensures
            final(self).wf(),
            final(self)@ == store64(old(self)@, paddr as int, data),
    {
        self.write32(paddr, (data & 0xFFFF_FFFF) as u32);
        self.write32(paddr + 4, ((data >> 32) & 0xFFFF_FFFF) as u32);
    }
}

/// A byte written at an offset is the byte read back from it.
pub proof fn lemma_store8_load8(s: Seq<u8>, a: int, v: u8)
    requires
        0 <= a < s.len(),
    ensures
        s.update(a, v)[a] == v,
{
}

/// Storing a half-word and loading it back round-trips.
pub proof fn lemma_store16_load16(s: Seq<u8>, a: int, v: u16)
    requires
        0 <= a,
        a + 2 <= s.len(),
    ensures
        load16(store16(s, a, v), a) == v,
{
    let t = store16(s, a, v);
    assert(t[a] == (v & 0xFF) as u8);
    assert(t[a + 1] == ((v >> 8) & 0xFF) as u8);
    assert(((v & 0xFF) as u8 as u16 | (((v >> 8) & 0xFF) as u8 as u16) << 8) == v)
        by (bit_vector);
}

/// Storing a word and loading it back round-trips.
pub proof fn lemma_store32_load32(s: Seq<u8>, a: int, v: u32)
    requires
        0 <= a,
        a + 4 <= s.len(),
    ensures
        load32(store32(s, a, v), a) == v,
{
    let lo = (v & 0xFFFF) as u16;
    let hi = ((v >> 16) & 0xFFFF) as u16;
    let s1 = store16(s, a, lo);
    let t = store16(s1, a + 2, hi);
    assert(t[a] == s1[a] && t[a + 1] == s1[a + 1]);
    lemma_store16_load16(s, a, lo);
    assert(load16(t, a) == lo);
    lemma_store16_load16(s1, a + 2, hi);
    assert(load16(t, a + 2) == hi);
    assert(((v & 0xFFFF) as u16 as u32 | ((((v >> 16) & 0xFFFF) as u16 as u32) << 16)) == v)
        by (bit_vector);
}

/// Storing a double-word and loading it back round-trips.
pub proof fn lemma_store64_load64(s: Seq<u8>, a: int, v: u64)
    requires
        0 <= a,
        a + 8 <= s.len(),
    ensures
        load64(store64(s, a, v), a) == v,
{
    let lo = (v & 0xFFFF_FFFF) as u32;
    let hi = ((v >> 32) & 0xFFFF_FFFF) as u32;
    let s1 = store32(s, a, lo);
    let t = store32(s1, a + 4, hi);
    assert(t[a] == s1[a] && t[a + 1] == s1[a + 1] && t[a + 2] == s1[a + 2] && t[a + 3] == s1[a
        + 3]);
    lemma_store32_load32(s, a, lo);
    assert(load32(t, a) == lo);
    lemma_store32_load32(s1, a + 4, hi);
    assert(load32(t, a + 4) == hi);
    assert(((v & 0xFFFF_FFFF) as u32 as u64 | ((((v >> 32) & 0xFFFF_FFFF) as u32 as u64) << 32))
        == v) by (bit_vector);
}

} // verus!
