//! Bit-level facts about bytes and words, proved once with the bit-vector solver
//! and reused by the components.

use vstd::prelude::*;

verus! {

/// The byte with flag bits Z (bit 7), N (bit 6), H (bit 5) and C (bit 4).
pub open spec fn flags_byte(z: bool, n: bool, h: bool, c: bool) -> u8 {
    (if z { 0x80u8 } else { 0u8 }) | (if n { 0x40u8 } else { 0u8 }) | (if h { 0x20u8 } else {
        0u8
    }) | (if c { 0x10u8 } else { 0u8 })
}

/// Whether any bit of `mask` is set in `x`.
pub open spec fn has_bits(x: u8, mask: u8) -> bool {
    x & mask != 0
}

/// The 16-bit value whose high byte is `hi` and low byte is `lo`.
pub open spec fn pair(hi: u8, lo: u8) -> u16 {
    (hi as int * 256 + lo as int) as u16
}

/// High byte of a 16-bit value.
pub open spec fn hi_byte(v: u16) -> u8 {
    (v as int / 256) as u8
}

/// Low byte of a 16-bit value.
pub open spec fn lo_byte(v: u16) -> u8 {
    (v as int % 256) as u8
}

pub proof fn lemma_flags_byte(z: bool, n: bool, h: bool, c: bool)
    by (bit_vector)
    ensures
        (flags_byte(z, n, h, c) & 0x80 != 0) == z,
        (flags_byte(z, n, h, c) & 0x40 != 0) == n,
        (flags_byte(z, n, h, c) & 0x20 != 0) == h,
        (flags_byte(z, n, h, c) & 0x10 != 0) == c,
        flags_byte(z, n, h, c) & 0x0F == 0,
{
}

pub proof fn lemma_pair_bits(hi: u8, lo: u8)
    by (bit_vector)
    ensures
        ((hi as u16) << 8u16) | (lo as u16) == (hi as u16) * 256 + (lo as u16),
{
}

pub proof fn lemma_split_bits(v: u16)
    by (bit_vector)
    ensures
        ((v >> 8u16) as u8) == v / 256,
        (v as u8) == v % 256,
        ((v as u8) & 0xF0u8) == (v % 256) / 16 * 16,
        v & 0xFFF0 == (v / 16) * 16,
{
}

/// Setting or clearing one flag bit of `f` leaves the other bits as they were.
pub proof fn lemma_flag_update(f: u8, m: u8)
    by (bit_vector)
    requires
        m == 0x80 || m == 0x40 || m == 0x20 || m == 0x10,
    ensures
        (f | m) & m != 0,
        (f & !m) & m == 0,
        forall|k: u8|
            #![trigger (f | m) & k]
            (k == 0x80 || k == 0x40 || k == 0x20 || k == 0x10 || k == 0x0F) && k != m ==> (f | m)
                & k == f & k && (f & !m) & k == f & k,
{
}

/// Setting or clearing one of the flag bits 7..4 leaves the low nibble unchanged, and
/// masking with 0xF0 clears it.
pub proof fn lemma_low_nibble(f: u8)
    by (bit_vector)
    ensures
        (f | 0x80) & 0x0F == f & 0x0F,
        (f & !0x80u8) & 0x0F == f & 0x0F,
        (f | 0x40) & 0x0F == f & 0x0F,
        (f & !0x40u8) & 0x0F == f & 0x0F,
        (f | 0x20) & 0x0F == f & 0x0F,
        (f & !0x20u8) & 0x0F == f & 0x0F,
        (f | 0x10) & 0x0F == f & 0x0F,
        (f & !0x10u8) & 0x0F == f & 0x0F,
        (f & 0xF0) & 0x0F == 0,
{
}

/// Arithmetic meaning of the byte shifts and masks that the ALU uses.
pub proof fn lemma_byte_ops(x: u8)
    by (bit_vector)
    ensures
        x & 0x0F == x % 16,
        x & 0xF0 == x / 16 * 16,
        x >> 4u8 == x / 16,
        (x >> 7u8) & 1 == x / 128,
        x >> 7u8 == x / 128,
        x & 1 == x % 2,
        x & 0x80 == x / 128 * 128,
        x >> 1u8 == x / 2,
        (x << 1u8) == (x % 128) * 2,
        ((x << 1u8) | (x >> 7u8)) == (x % 128) * 2 + x / 128,
        ((x >> 1u8) | ((x & 1) << 7u8)) == x / 2 + (x % 2) * 128,
        ((x << 1u8) | 1u8) == (x % 128) * 2 + 1,
        ((x >> 1u8) | 0x80u8) == x / 2 + 128,
        ((x << 1u8) | 0u8) == (x % 128) * 2,
        ((x >> 1u8) | 0u8) == x / 2,
        ((x >> 1u8) | (x & 0x80)) == x / 2 + (x / 128) * 128,
        ((x >> 4u8) | (x << 4u8)) == (x % 16) * 16 + x / 16,
{
}

/// Arithmetic meaning of the 12-bit mask used by 16-bit additions.
pub proof fn lemma_word_ops(x: u16)
    by (bit_vector)
    ensures
        x & 0xFFF == x % 4096,
        x & 0xFF == x % 256,
        x & 0x1FF == x % 512,
        x >> 8u16 == x / 256,
{
}

/// The high-page address `0xFF00 | n` used by LDH.
pub proof fn lemma_high_page(n: u8)
    by (bit_vector)
    ensures
        0xFF00u16 | (n as u16) == 0xFF00 + n,
{
}

/// Bounds kept by the bank registers of the memory bank controllers.
pub proof fn lemma_bank_bits(x: usize, y: usize, b: usize)
    by (bit_vector)
    ensures
        x & y <= x,
        x & y <= y,
        x <= 0x7F && y <= 0x1F ==> (x & !0x1Fusize) | y <= 0x7F,
        x <= 0x7F && y <= 0x1F && y != 0 ==> ((x & !0x1Fusize) | y) & 0x1F != 0,
        b <= 3 ==> (x & 0x1F) | (b << 5usize) <= 0x7F,
        b <= 3 ==> (x & 0x1F) | (b << 5usize) == x % 32 + b * 32,
        x <= 0x7F && y <= 0x1F ==> (x & !0x1Fusize) | y == x / 32 * 32 + y,
        b <= 0xFF ==> (x & 0x100) | b <= 0x1FF,
        b <= 1 ==> (x & 0xFF) | (b << 8usize) <= 0x1FF,
        (x & 3) << 5usize == (x % 4) * 32,
{
}

/// A 2-bit pixel color taken from bit `e` of the two bytes of a tile row.
pub proof fn lemma_pixel_bits(lo: u8, hi: u8, e: u8)
    by (bit_vector)
    ensures
        ((lo >> e) & 1u8) | (((hi >> e) & 1u8) << 1u8) <= 3,
{
}

/// Components of a little-endian BGR555 color and their expansion to 8 bits.
pub proof fn lemma_bgr555_bits(lo: u8, hi: u8)
    by (bit_vector)
    ensures
        ((((hi as u16) << 8u16) | (lo as u16)) & 0x001F) == lo % 32,
        (((((hi as u16) << 8u16) | (lo as u16)) >> 5u16) & 0x001F) == lo / 32 + (hi % 4) * 8,
        (((((hi as u16) << 8u16) | (lo as u16)) >> 10u16) & 0x001F) == (hi / 4) % 32,
{
}

pub proof fn lemma_expand5(c: u8)
    by (bit_vector)
    requires
        c < 32,
    ensures
        ((c << 3u8) | ((c << 3u8) >> 5u8)) == c * 8 + c / 4,
{
}

} // verus!
