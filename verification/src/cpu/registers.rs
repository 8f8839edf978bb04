//! SM83 (Sharp LR35902) register file.

use vstd::prelude::*;
use crate::bits::{flags_byte, has_bits, hi_byte, lemma_flag_update, lemma_low_nibble, lemma_flags_byte, lemma_pair_bits, lemma_split_bits, lo_byte, pair};

verus! {

/// The eight 8-bit registers, the stack pointer and the program counter.
/// `f` holds the flags Z N H C in bits 7..4; its low nibble reads as zero.
#[derive(Clone, Copy, Debug)]
pub struct Registers {
    pub a: u8,
    pub f: u8,
    pub b: u8,
    pub c: u8,
    pub d: u8,
    pub e: u8,
    pub h: u8,
    pub l: u8,
    pub sp: u16,
    pub pc: u16,
}

impl Registers {
    /// Register values left by the boot ROM.
    pub open spec fn boot(cgb_mode: bool) -> Registers {
        Registers {
            a: if cgb_mode { 0x11 } else { 0x01 },
            f: 0xB0,
            b: 0x00,
            c: 0x13,
            d: 0x00,
            e: 0xD8,
            h: 0x01,
            l: 0x4D,
            sp: 0xFFFE,
            pc: 0x0100,
        }
    }

    pub open spec fn spec_af(self) -> u16 { pair(self.a, self.f) }
    pub open spec fn spec_bc(self) -> u16 { pair(self.b, self.c) }
    pub open spec fn spec_de(self) -> u16 { pair(self.d, self.e) }
    pub open spec fn spec_hl(self) -> u16 { pair(self.h, self.l) }

    pub open spec fn spec_flag_z(self) -> bool { has_bits(self.f, 0x80) }
    pub open spec fn spec_flag_n(self) -> bool { has_bits(self.f, 0x40) }
    pub open spec fn spec_flag_h(self) -> bool { has_bits(self.f, 0x20) }
    pub open spec fn spec_flag_c(self) -> bool { has_bits(self.f, 0x10) }

    /// The register file with HL replaced by `v`.
    pub open spec fn with_hl(self, v: u16) -> Registers {
        Registers { h: hi_byte(v), l: lo_byte(v), ..self }
    }

    pub open spec fn with_bc(self, v: u16) -> Registers {
        Registers { b: hi_byte(v), c: lo_byte(v), ..self }
    }

    pub open spec fn with_de(self, v: u16) -> Registers {
        Registers { d: hi_byte(v), e: lo_byte(v), ..self }
    }

    /// AF loaded from `v`: the low nibble of F is dropped.
    pub open spec fn with_af(self, v: u16) -> Registers {
        Registers { a: hi_byte(v), f: (lo_byte(v) / 16 * 16) as u8, ..self }
    }

    /// The low nibble of F, which no flag operation sets, is clear.
    pub open spec fn flags_clean(self) -> bool {
        self.f & 0x0F == 0
    }

    pub open spec fn with_flags(self, z: bool, n: bool, h: bool, c: bool) -> Registers {
        Registers { f: flags_byte(z, n, h, c), ..self }
    }

    /// F with the bit `m` set when `v` holds and cleared otherwise.
    pub open spec fn flag_set_to(f: u8, m: u8, v: bool) -> u8 {
        if v { f | m } else { f & !m }
    }

    pub fn new(cgb_mode: bool) -> (r: Self)
        ensures
            r == Registers::boot(cgb_mode),
    {
        Registers {
            a: if cgb_mode { 0x11 } else { 0x01 },
            f: 0xB0,
            b: 0x00,
            c: 0x13,
            d: 0x00,
            e: 0xD8,
            h: 0x01,
            l: 0x4D,
            sp: 0xFFFE,
            pc: 0x0100,
        }
    }

    pub fn af(&self) -> (r: u16)
        ensures
            r == self.spec_af(),
    {
        proof { lemma_pair_bits(self.a, self.f); }
        ((self.a as u16) << 8) | (self.f as u16)
    }

    pub fn bc(&self) -> (r: u16)
        ensures
            r == self.spec_bc(),
    {
        proof { lemma_pair_bits(self.b, self.c); }
        ((self.b as u16) << 8) | (self.c as u16)
    }

    pub fn de(&self) -> (r: u16)
        ensures
            r == self.spec_de(),
    {
        proof { lemma_pair_bits(self.d, self.e); }
        ((self.d as u16) << 8) | (self.e as u16)
    }

    pub fn hl(&self) -> (r: u16)
        ensures
            r == self.spec_hl(),
    {
        proof { lemma_pair_bits(self.h, self.l); }
        ((self.h as u16) << 8) | (self.l as u16)
    }

    pub fn set_af(&mut self, v: u16)
        ensures
            *final(self) == old(self).with_af(v),
            final(self).f & 0x0F == 0,
    {
        proof {
            lemma_split_bits(v);
            lemma_low_nibble(v as u8);
        }
        self.a = (v >> 8) as u8;
        self.f = (v as u8) & 0xF0;
    }

    pub fn set_bc(&mut self, v: u16)
        ensures
            *final(self) == old(self).with_bc(v),
    {
        proof { lemma_split_bits(v); }
        self.b = (v >> 8) as u8;
        self.c = v as u8;
    }

    pub fn set_de(&mut self, v: u16)
        ensures
            *final(self) == old(self).with_de(v),
    {
        proof { lemma_split_bits(v); }
        self.d = (v >> 8) as u8;
        self.e = v as u8;
    }

    pub fn set_hl(&mut self, v: u16)
        ensures
            *final(self) == old(self).with_hl(v),
    {
        proof { lemma_split_bits(v); }
        self.h = (v >> 8) as u8;
        self.l = v as u8;
    }

    pub fn flag_z(&self) -> (r: bool)
        ensures
            r == self.spec_flag_z(),
    {
        self.f & 0x80 != 0
    }

    pub fn flag_n(&self) -> (r: bool)
        ensures
            r == self.spec_flag_n(),
    {
        self.f & 0x40 != 0
    }

    pub fn flag_h(&self) -> (r: bool)
        ensures
            r == self.spec_flag_h(),
    {
        self.f & 0x20 != 0
    }

    pub fn flag_c(&self) -> (r: bool)
        ensures
            r == self.spec_flag_c(),
    {
        self.f & 0x10 != 0
    }

    pub fn set_flags(&mut self, z: bool, n: bool, h: bool, c: bool)
        ensures
            *final(self) == old(self).with_flags(z, n, h, c),
            final(self).spec_flag_z() == z,
            final(self).spec_flag_n() == n,
            final(self).spec_flag_h() == h,
            final(self).spec_flag_c() == c,
            final(self).f & 0x0F == 0,
    {
        proof { lemma_flags_byte(z, n, h, c); }
        self.f = (if z { 0x80u8 } else { 0u8 }) | (if n { 0x40u8 } else { 0u8 }) | (if h { 0x20u8 } else { 0u8 }) | (if c { 0x10u8 } else { 0u8 });
    }

    pub fn set_z(&mut self, v: bool)
        ensures
            *final(self) == (Registers { f: Registers::flag_set_to(old(self).f, 0x80, v), ..*old(self) }),
            final(self).f & 0x0F == old(self).f & 0x0F,
    {
        proof { lemma_low_nibble(self.f); }
        if v { self.f |= 0x80; } else { self.f &= !0x80; }
    }

    pub fn set_n(&mut self, v: bool)
        ensures
            *final(self) == (Registers { f: Registers::flag_set_to(old(self).f, 0x40, v), ..*old(self) }),
            final(self).f & 0x0F == old(self).f & 0x0F,
    {
        proof { lemma_low_nibble(self.f); }
        if v { self.f |= 0x40; } else { self.f &= !0x40; }
    }

    pub fn set_h(&mut self, v: bool)
        ensures
            *final(self) == (Registers { f: Registers::flag_set_to(old(self).f, 0x20, v), ..*old(self) }),
            final(self).f & 0x0F == old(self).f & 0x0F,
    {
        proof { lemma_low_nibble(self.f); }
        if v { self.f |= 0x20; } else { self.f &= !0x20; }
    }

    pub fn set_c(&mut self, v: bool)
        ensures
            *final(self) == (Registers { f: Registers::flag_set_to(old(self).f, 0x10, v), ..*old(self) }),
            final(self).f & 0x0F == old(self).f & 0x0F,
    {
        proof { lemma_low_nibble(self.f); }
        if v { self.f |= 0x10; } else { self.f &= !0x10; }
    }
}

/// Writing a register pair and reading it back gives the written value; for AF the
/// low nibble of F reads as zero.
pub proof fn lemma_pair_write_read(r: Registers, v: u16)
    ensures
        r.with_bc(v).spec_bc() == v,
        r.with_de(v).spec_de() == v,
        r.with_hl(v).spec_hl() == v,
        r.with_af(v).spec_af() == v / 16 * 16,
        r.with_hl(v).spec_bc() == r.spec_bc(),
        r.with_bc(v).spec_hl() == r.spec_hl(),
{
}

/// Setting one flag with `set_z`, `set_n`, `set_h` or `set_c` makes that flag read as the
/// given value and leaves the other three flags and the low nibble of F as they were.
pub proof fn lemma_flag_write_read(f: u8, m: u8, v: bool)
    requires
        m == 0x80 || m == 0x40 || m == 0x20 || m == 0x10,
    ensures
        has_bits(Registers::flag_set_to(f, m, v), m) == v,
        forall|k: u8|
            (k == 0x80 || k == 0x40 || k == 0x20 || k == 0x10 || k == 0x0F) && k != m ==> #[trigger] (
            Registers::flag_set_to(f, m, v) & k) == f & k,
{
    lemma_flag_update(f, m);
    assert forall|k: u8|
        (k == 0x80 || k == 0x40 || k == 0x20 || k == 0x10 || k == 0x0F) && k != m implies #[trigger] (
        Registers::flag_set_to(f, m, v) & k) == f & k by {
        assert((f | m) & k == f & k);
        assert((f & !m) & k == f & k);
    }
}

/// `set_flags` leaves the low nibble of F zero, so F never holds bits that AF cannot load.
pub proof fn lemma_flags_low_nibble(r: Registers, z: bool, n: bool, h: bool, c: bool)
    ensures
        r.with_flags(z, n, h, c).f & 0x0F == 0,
{
    lemma_flags_byte(z, n, h, c);
}

} // verus!
