pub mod instructions;
pub mod machine;
pub mod registers;

use vstd::prelude::*;
use crate::bits::{flags_byte, lemma_byte_ops, lemma_flags_byte};
use registers::Registers;

verus! {

/// Interrupt flag bits.
pub const INT_VBLANK: u8 = 0x01;
pub const INT_STAT: u8 = 0x02;
pub const INT_TIMER: u8 = 0x04;
pub const INT_SERIAL: u8 = 0x08;
pub const INT_JOYPAD: u8 = 0x10;

/// CPU state: registers, interrupt master enable and the run state.
#[derive(Clone, Copy)]
pub struct Cpu {
    pub regs: Registers,
    /// Interrupt Master Enable.
    pub ime: bool,
    /// EI enables IME only after the next instruction.
    pub ime_scheduled: bool,
    pub halted: bool,
    pub stopped: bool,
    /// T-cycles consumed by the current step.
    pub cycles: u32,
}

// ─── ALU semantics ─────────────────────────────────────────────────────────

pub open spec fn bit_of(b: bool) -> int { if b { 1 } else { 0 } }

/// 8-bit ADD / ADC: result, half carry and carry.
pub open spec fn add_result(a: u8, v: u8, c: bool) -> u8 {
    let s = a + v + bit_of(c);
    (if s > 255 { s - 256 } else { s }) as u8
}
pub open spec fn add_half(a: u8, v: u8, c: bool) -> bool { a % 16 + v % 16 + bit_of(c) > 15 }
pub open spec fn add_carry(a: u8, v: u8, c: bool) -> bool { a + v + bit_of(c) > 255 }

/// 8-bit SUB / SBC / CP: result, half borrow and borrow.
pub open spec fn sub_result(a: u8, v: u8, c: bool) -> u8 {
    let d = a - v - bit_of(c);
    (if d < 0 { d + 256 } else { d }) as u8
}
pub open spec fn sub_half(a: u8, v: u8, c: bool) -> bool { a % 16 < v % 16 + bit_of(c) }
pub open spec fn sub_carry(a: u8, v: u8, c: bool) -> bool { a < v + bit_of(c) }

pub open spec fn rlc_val(x: u8) -> u8 { ((x % 128) * 2 + x / 128) as u8 }
pub open spec fn rrc_val(x: u8) -> u8 { (x / 2 + (x % 2) * 128) as u8 }
pub open spec fn rl_val(x: u8, cin: bool) -> u8 { ((x % 128) * 2 + bit_of(cin)) as u8 }
pub open spec fn rr_val(x: u8, cin: bool) -> u8 { (x / 2 + bit_of(cin) * 128) as u8 }
pub open spec fn sla_val(x: u8) -> u8 { ((x % 128) * 2) as u8 }
pub open spec fn sra_val(x: u8) -> u8 { (x / 2 + (x / 128) * 128) as u8 }
pub open spec fn srl_val(x: u8) -> u8 { (x / 2) as u8 }
pub open spec fn swap_val(x: u8) -> u8 { ((x % 16) * 16 + x / 16) as u8 }
/// Bit 7 of `x` (shifted out by left rotations and shifts).
pub open spec fn top_bit(x: u8) -> bool { x >= 128 }
/// Bit 0 of `x` (shifted out by right rotations and shifts).
pub open spec fn low_bit(x: u8) -> bool { x % 2 == 1 }

/// SWAP applied twice gives the value back.
pub proof fn lemma_swap_involutive(x: u8)
    ensures
        swap_val(swap_val(x)) == x,
{
}

/// RRC undoes RLC.
pub proof fn lemma_rrc_undoes_rlc(x: u8)
    ensures
        rrc_val(rlc_val(x)) == x,
        low_bit(rlc_val(x)) == top_bit(x),
{
}

/// RR undoes RL when the carry that RL shifted out is fed back in, and RL shifts the
/// old carry into bit 0.
pub proof fn lemma_rr_undoes_rl(x: u8, cin: bool)
    ensures
        rr_val(rl_val(x, cin), top_bit(x)) == x,
        low_bit(rl_val(x, cin)) == cin,
{
}

/// SUB v undoes ADD v on A; the carry of the ADD is the borrow of the SUB.
pub proof fn lemma_sub_undoes_add(a: u8, v: u8)
    ensures
        sub_result(add_result(a, v, false), v, false) == a,
        sub_carry(add_result(a, v, false), v, false) == add_carry(a, v, false),
{
}

impl Registers {
    pub open spec fn after_add(self, v: u8, c: bool) -> Registers {
        let r = add_result(self.a, v, c);
        Registers { a: r, ..self }.with_flags(r == 0, false, add_half(self.a, v, c), add_carry(self.a, v, c))
    }

    pub open spec fn after_sub(self, v: u8, c: bool, store: bool) -> Registers {
        let r = sub_result(self.a, v, c);
        Registers { a: if store { r } else { self.a }, ..self }.with_flags(
            r == 0,
            true,
            sub_half(self.a, v, c),
            sub_carry(self.a, v, c),
        )
    }

    pub open spec fn after_logic(self, r: u8, h: bool) -> Registers {
        Registers { a: r, ..self }.with_flags(r == 0, false, h, false)
    }

    /// F after an instruction that sets Z, N and H and keeps C.
    pub open spec fn with_znh(self, z: bool, n: bool, h: bool) -> Registers {
        Registers {
            f: Registers::flag_set_to(
                Registers::flag_set_to(Registers::flag_set_to(self.f, 0x80, z), 0x40, n),
                0x20,
                h,
            ),
            ..self
        }
    }

    /// F after a rotate or shift of the CB table: Z from the result, C from the bit shifted out.
    pub open spec fn with_shift_flags(self, r: u8, c: bool) -> Registers {
        self.with_flags(r == 0, false, false, c)
    }
}

impl Cpu {
    /// The CPU as left by the boot ROM.
    pub open spec fn boot(cgb_mode: bool) -> Cpu {
        Cpu {
            regs: Registers::boot(cgb_mode),
            ime: false,
            ime_scheduled: false,
            halted: false,
            stopped: false,
            cycles: 0,
        }
    }

    pub open spec fn with_regs(self, r: Registers) -> Cpu {
        Cpu { regs: r, ..self }
    }

    pub fn new(cgb_mode: bool) -> (r: Self)
        ensures
            r == Cpu::boot(cgb_mode),
    {
        Cpu {
            regs: Registers::new(cgb_mode),
            ime: false,
            ime_scheduled: false,
            halted: false,
            stopped: false,
            cycles: 0,
        }
    }

    /// ADD A,v (carry false) and ADC A,v (carry = C flag).
    pub fn alu_add(&mut self, val: u8, carry: bool)
        ensures
            old(self).regs.flags_clean() ==> final(self).regs.flags_clean(),
            *final(self) == old(self).with_regs(old(self).regs.after_add(val, carry)),
    {
        proof {
            lemma_byte_ops(self.regs.a);
            lemma_byte_ops(val);
        }
        let c: u8 = if carry { 1 } else { 0 };
        let result = self.regs.a.wrapping_add(val).wrapping_add(c);
        let half = (self.regs.a & 0x0F) + (val & 0x0F) + c > 0x0F;
        let full_carry = (self.regs.a as u16) + (val as u16) + (c as u16) > 0xFF;
        self.regs.set_flags(result == 0, false, half, full_carry);
        self.regs.a = result;
    }

    /// SUB / SBC (store true) and CP (store false).
    pub fn alu_sub(&mut self, val: u8, carry: bool, store: bool)
        ensures
            old(self).regs.flags_clean() ==> final(self).regs.flags_clean(),
            *final(self) == old(self).with_regs(old(self).regs.after_sub(val, carry, store)),
    {
        proof {
            lemma_byte_ops(self.regs.a);
            lemma_byte_ops(val);
        }
        let c: u8 = if carry { 1 } else { 0 };
        let result = self.regs.a.wrapping_sub(val).wrapping_sub(c);
        let half = (self.regs.a & 0x0F) < (val & 0x0F) + c;
        let full_carry = (self.regs.a as u16) < (val as u16) + (c as u16);
        self.regs.set_flags(result == 0, true, half, full_carry);
        if store {
            self.regs.a = result;
        }
    }

    pub fn alu_and(&mut self, val: u8)
        ensures
            old(self).regs.flags_clean() ==> final(self).regs.flags_clean(),
            *final(self) == old(self).with_regs(old(self).regs.after_logic(old(self).regs.a & val, true)),
    {
        self.regs.a &= val;
        let z = self.regs.a == 0;
        self.regs.set_flags(z, false, true, false);
    }

    pub fn alu_xor(&mut self, val: u8)
        ensures
            old(self).regs.flags_clean() ==> final(self).regs.flags_clean(),
            *final(self) == old(self).with_regs(old(self).regs.after_logic(old(self).regs.a ^ val, false)),
    {
        self.regs.a ^= val;
        let z = self.regs.a == 0;
        self.regs.set_flags(z, false, false, false);
    }

    pub fn alu_or(&mut self, val: u8)
        ensures
            old(self).regs.flags_clean() ==> final(self).regs.flags_clean(),
            *final(self) == old(self).with_regs(old(self).regs.after_logic(old(self).regs.a | val, false)),
    {
        self.regs.a |= val;
        let z = self.regs.a == 0;
        self.regs.set_flags(z, false, false, false);
    }

    /// CP: the flags of A - v, A unchanged.
    pub fn alu_cp(&mut self, val: u8)
        ensures
            old(self).regs.flags_clean() ==> final(self).regs.flags_clean(),
            *final(self) == old(self).with_regs(old(self).regs.after_sub(val, false, false)),
    {
        self.alu_sub(val, false, false);
    }

    /// INC r: Z, N = 0, H from the low nibble; C unchanged.
    pub fn alu_inc(&mut self, val: u8) -> (r: u8)
        ensures
            old(self).regs.flags_clean() ==> final(self).regs.flags_clean(),
            r == ((val + 1) % 256) as u8,
            *final(self) == old(self).with_regs(old(self).regs.with_znh(r == 0, false, val % 16 == 15)),
    {
        proof { lemma_byte_ops(val); }
        let result = val.wrapping_add(1);
        self.regs.set_z(result == 0);
        self.regs.set_n(false);
        self.regs.set_h((val & 0x0F) == 0x0F);
        result
    }

    /// DEC r: Z, N = 1, H from the low nibble; C unchanged.
    pub fn alu_dec(&mut self, val: u8) -> (r: u8)
        ensures
            old(self).regs.flags_clean() ==> final(self).regs.flags_clean(),
            r == ((val + 255) % 256) as u8,
            *final(self) == old(self).with_regs(old(self).regs.with_znh(r == 0, true, val % 16 == 0)),
    {
        proof { lemma_byte_ops(val); }
        let result = val.wrapping_sub(1);
        self.regs.set_z(result == 0);
        self.regs.set_n(true);
        self.regs.set_h((val & 0x0F) == 0x00);
        result
    }

    pub fn alu_rlc(&mut self, val: u8) -> (r: u8)
        ensures
            old(self).regs.flags_clean() ==> final(self).regs.flags_clean(),
            r == rlc_val(val),
            *final(self) == old(self).with_regs(old(self).regs.with_shift_flags(r, top_bit(val))),
    {
        proof { lemma_byte_ops(val); }
        let c = (val >> 7) & 1;
        let result = (val << 1) | c;
        self.regs.set_flags(result == 0, false, false, c != 0);
        result
    }

    pub fn alu_rrc(&mut self, val: u8) -> (r: u8)
        ensures
            old(self).regs.flags_clean() ==> final(self).regs.flags_clean(),
            r == rrc_val(val),
            *final(self) == old(self).with_regs(old(self).regs.with_shift_flags(r, low_bit(val))),
    {
        proof { lemma_byte_ops(val); }
        let c = val & 1;
        let result = (val >> 1) | (c << 7);
        self.regs.set_flags(result == 0, false, false, c != 0);
        result
    }

    pub fn alu_rl(&mut self, val: u8) -> (r: u8)
        ensures
            old(self).regs.flags_clean() ==> final(self).regs.flags_clean(),
            r == rl_val(val, old(self).regs.spec_flag_c()),
            *final(self) == old(self).with_regs(old(self).regs.with_shift_flags(r, top_bit(val))),
    {
        let old_c: u8 = if self.regs.flag_c() { 1 } else { 0 };
        proof { lemma_byte_ops(val); }
        let c = (val >> 7) & 1;
        let result = (val << 1) | old_c;
        self.regs.set_flags(result == 0, false, false, c != 0);
        result
    }

    pub fn alu_rr(&mut self, val: u8) -> (r: u8)
        ensures
            old(self).regs.flags_clean() ==> final(self).regs.flags_clean(),
            r == rr_val(val, old(self).regs.spec_flag_c()),
            *final(self) == old(self).with_regs(old(self).regs.with_shift_flags(r, low_bit(val))),
    {
        let old_c: u8 = if self.regs.flag_c() { 1 } else { 0 };
        proof { lemma_byte_ops(val); }
        let c = val & 1;
        let result = (val >> 1) | (if old_c == 1 { 0x80u8 } else { 0u8 });
        self.regs.set_flags(result == 0, false, false, c != 0);
        result
    }

    pub fn alu_sla(&mut self, val: u8) -> (r: u8)
        ensures
            old(self).regs.flags_clean() ==> final(self).regs.flags_clean(),
            r == sla_val(val),
            *final(self) == old(self).with_regs(old(self).regs.with_shift_flags(r, top_bit(val))),
    {
        proof { lemma_byte_ops(val); }
        let c = (val >> 7) & 1;
        let result = val << 1;
        self.regs.set_flags(result == 0, false, false, c != 0);
        result
    }

    /// SRA: arithmetic shift right (bit 7 kept).
    pub fn alu_sra(&mut self, val: u8) -> (r: u8)
        ensures
            old(self).regs.flags_clean() ==> final(self).regs.flags_clean(),
            r == sra_val(val),
            *final(self) == old(self).with_regs(old(self).regs.with_shift_flags(r, low_bit(val))),
    {
        proof { lemma_byte_ops(val); }
        let c = val & 1;
        let result = (val >> 1) | (val & 0x80);
        self.regs.set_flags(result == 0, false, false, c != 0);
        result
    }

    pub fn alu_srl(&mut self, val: u8) -> (r: u8)
        ensures
            old(self).regs.flags_clean() ==> final(self).regs.flags_clean(),
            r == srl_val(val),
            *final(self) == old(self).with_regs(old(self).regs.with_shift_flags(r, low_bit(val))),
    {
        proof { lemma_byte_ops(val); }
        let c = val & 1;
        let result = val >> 1;
        self.regs.set_flags(result == 0, false, false, c != 0);
        result
    }

    pub fn alu_swap(&mut self, val: u8) -> (r: u8)
        ensures
            old(self).regs.flags_clean() ==> final(self).regs.flags_clean(),
            r == swap_val(val),
            *final(self) == old(self).with_regs(old(self).regs.with_shift_flags(r, false)),
    {
        proof { lemma_byte_ops(val); }
        let result = (val >> 4) | (val << 4);
        self.regs.set_flags(result == 0, false, false, false);
        result
    }

    /// BIT b,v: Z set when bit `b` of `v` is clear; N = 0, H = 1, C unchanged.
    pub fn alu_bit(&mut self, bit: u8, val: u8)
        requires
            bit < 8,
        ensures
            old(self).regs.flags_clean() ==> final(self).regs.flags_clean(),
            *final(self) == old(self).with_regs(old(self).regs.with_znh((val >> bit) & 1 == 0, false, true)),
    {
        self.regs.set_z((val >> bit) & 1 == 0);
        self.regs.set_n(false);
        self.regs.set_h(true);
    }
}

} // verus!
