//! Small helpers shared by the whole core: bounds of masked values,
//! sign extension, two's-complement views and wrapping address arithmetic.

use vstd::prelude::*;

verus! {

/// 2^32, as a spec-level constant expression.
pub open spec fn pow32() -> int {
    0x1_0000_0000
}

/// 2^64, as a spec-level constant expression.
pub open spec fn pow64() -> int {
    0x1_0000_0000_0000_0000
}

/// Bitwise-and against a mask never exceeds the mask.
pub proof fn lemma_u64_and_le(x: u64, m: u64)
    ensures
        x & m <= m,
{
    assert(x & m <= m) by (bit_vector);
}

/// Bitwise-and against a mask never exceeds the mask (32-bit).
pub proof fn lemma_u32_and_le(x: u32, m: u32)
    ensures
        x & m <= m,
{
    assert(x & m <= m) by (bit_vector);
}

/// A one shifted left by less than 64 is at least one.
pub proof fn lemma_u64_shl1_pos(s: u64)
    requires
        s < 64,
    ensures
        1u64 << s >= 1,
{
    assert(s < 64 ==> 1u64 << s >= 1) by (bit_vector);
}

/// Shifting by zero and masking with all ones both keep a word unchanged.
pub proof fn lemma_u64_identity(v: u64)
    ensures
        v >> 0u64 == v,
        v & 0xFFFF_FFFF_FFFF_FFFFu64 == v,
        v | 0u64 == v,
{
    assert(v >> 0u64 == v && v & 0xFFFF_FFFF_FFFF_FFFFu64 == v && v | 0u64 == v)
        by (bit_vector);
}

/// A byte widened to 64 bits and masked back is itself.
pub proof fn lemma_cast_low8(x: u8)
    ensures
        ((x as u64) & 0xFF) as u8 == x,
{
    assert(((x as u64) & 0xFF) as u8 == x) by (bit_vector);
}

/// A half-word widened to 64 bits and masked back is itself.
pub proof fn lemma_cast_low16(x: u16)
    ensures
        ((x as u64) & 0xFFFF) as u16 == x,
{
    assert(((x as u64) & 0xFFFF) as u16 == x) by (bit_vector);
}

/// A word widened to 64 bits and masked back is itself.
pub proof fn lemma_cast_low32(x: u32)
    ensures
        ((x as u64) & 0xFFFF_FFFF) as u32 == x,
{
    assert(((x as u64) & 0xFFFF_FFFF) as u32 == x) by (bit_vector);
}

/// A value below 256 survives the mask-and-narrow round trip.
pub proof fn lemma_low8_id(v: u64)
    requires
        v <= 0xFF,
    ensures
        ((v & 0xFF) as u8) as u64 == v,
{
    assert(v <= 0xFF ==> ((v & 0xFF) as u8) as u64 == v) by (bit_vector);
}

/// A value below 2^16 survives the mask-and-narrow round trip.
pub proof fn lemma_low16_id(v: u64)
    requires
        v <= 0xFFFF,
    ensures
        ((v & 0xFFFF) as u16) as u64 == v,
{
    assert(v <= 0xFFFF ==> ((v & 0xFFFF) as u16) as u64 == v) by (bit_vector);
}

/// A value below 2^32 survives the mask-and-narrow round trip.
pub proof fn lemma_low32_id(v: u64)
    requires
        v <= 0xFFFF_FFFF,
    ensures
        ((v & 0xFFFF_FFFF) as u32) as u64 == v,
{
    assert(v <= 0xFFFF_FFFF ==> ((v & 0xFFFF_FFFF) as u32) as u64 == v) by (bit_vector);
}

/// Clearing the low two bits of a word leaves a multiple of four, and
/// on a multiple of four it changes nothing.
pub proof fn lemma_mask4_aligned(x: u64)
    ensures
        (x & !3u64) % 4 == 0,
        x % 4 == 0 ==> x & !3u64 == x,
{
    assert((x & !3u64) % 4 == 0 && (x % 4 == 0 ==> x & !3u64 == x)) by (bit_vector);
}

/// The value of a 12-bit field sign-extended to 64 bits.
pub open spec fn sext12(x: u64) -> u64
    recommends
        x < 0x1000,
{
    if x < 0x800 {
        x
    } else {
        (x + 0xFFFF_FFFF_FFFF_F000) as u64
    }
}

/// The value of a 13-bit field sign-extended to 64 bits (branch offsets).
pub open spec fn sext13(x: u64) -> u64
    recommends
        x < 0x2000,
{
    if x < 0x1000 {
        x
    } else {
        (x + 0xFFFF_FFFF_FFFF_E000) as u64
    }
}

/// The value of a 21-bit field sign-extended to 64 bits (jump offsets).
pub open spec fn sext21(x: u64) -> u64
    recommends
        x < 0x20_0000,
{
    if x < 0x10_0000 {
        x
    } else {
        (x + 0xFFFF_FFFF_FFE0_0000) as u64
    }
}

/// A byte sign-extended to 64 bits.
pub open spec fn sext8(x: u8) -> u64 {
    if x < 0x80 {
        x as u64
    } else {
        (x as u64 + 0xFFFF_FFFF_FFFF_FF00) as u64
    }
}

/// A half-word sign-extended to 64 bits.
pub open spec fn sext16(x: u16) -> u64 {
    if x < 0x8000 {
        x as u64
    } else {
        (x as u64 + 0xFFFF_FFFF_FFFF_0000) as u64
    }
}

/// A word sign-extended to 64 bits.
pub open spec fn sext32(x: u32) -> u64 {
    if x < 0x8000_0000 {
        x as u64
    } else {
        (x as u64 + 0xFFFF_FFFF_0000_0000) as u64
    }
}

/// The two's-complement value of a 64-bit word.
pub open spec fn as_int64(x: u64) -> int {
    if x < 0x8000_0000_0000_0000 {
        x as int
    } else {
        x - pow64()
    }
}

/// The two's-complement value of a 32-bit word.
pub open spec fn as_int32(x: u32) -> int {
    if x < 0x8000_0000 {
        x as int
    } else {
        x - pow32()
    }
}

/// The low 32 bits of a 64-bit word.
pub open spec fn lo32(x: u64) -> u32 {
    (x & 0xFFFF_FFFF) as u32
}

/// Addition modulo 2^64.
pub open spec fn wadd64(a: u64, b: u64) -> u64 {
    if a + b < pow64() {
        (a + b) as u64
    } else {
        (a + b - pow64()) as u64
    }
}

/// Subtraction modulo 2^64.
pub open spec fn wsub64(a: u64, b: u64) -> u64 {
    if a >= b {
        (a - b) as u64
    } else {
        (a - b + pow64()) as u64
    }
}

/// Executable addition modulo 2^64.
pub fn add_w64(a: u64, b: u64) -> (r: u64)
    ensures
        r == wadd64(a, b),
{
    if b <= u64::MAX - a {
        a + b
    } else {
        // a + b - 2^64 == b - (2^64 - a) == b - (u64::MAX - a) - 1
        b - (u64::MAX - a) - 1
    }
}

/// Executable subtraction modulo 2^64.
pub fn sub_w64(a: u64, b: u64) -> (r: u64)
    ensures
        r == wsub64(a, b),
{
    if a >= b {
        a - b
    } else {
        // a - b + 2^64 == a + (2^64 - b) == a + (u64::MAX - b) + 1
        a + (u64::MAX - b) + 1
    }
}

/// Executable sign extension of a byte.
pub fn sign_extend8(x: u8) -> (r: u64)
    ensures
        r == sext8(x),
{
    if x < 0x80 {
        x as u64
    } else {
        x as u64 + 0xFFFF_FFFF_FFFF_FF00
    }
}

/// Executable sign extension of a half-word.
pub fn sign_extend16(x: u16) -> (r: u64)
    ensures
        r == sext16(x),
{
    if x < 0x8000 {
        x as u64
    } else {
        x as u64 + 0xFFFF_FFFF_FFFF_0000
    }
}

/// Executable sign extension of a word.
pub fn sign_extend32(x: u32) -> (r: u64)
    ensures
        r == sext32(x),
{
    if x < 0x8000_0000 {
        x as u64
    } else {
        x as u64 + 0xFFFF_FFFF_0000_0000
    }
}

/// Executable signed comparison of two 64-bit words.
pub fn signed_lt(a: u64, b: u64) -> (r: bool)
    ensures
        r == (as_int64(a) < as_int64(b)),
{
    let a_neg = a >= 0x8000_0000_0000_0000;
    let b_neg = b >= 0x8000_0000_0000_0000;
    if a_neg == b_neg {
        a < b
    } else {
        a_neg
    }
}

} // verus!
