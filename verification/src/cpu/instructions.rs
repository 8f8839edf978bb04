//! Instruction semantics of the SM83 core.
//!
//! The opcode table is decoded as `x = op / 64`, `y = op / 8 % 8`, `z = op % 8`
//! (with `p = y / 2`, `q = y % 2`); each group of the table has one spec function on
//! [`Machine`] that says what it does to the registers, the bus and the cycle counter,
//! and one executable function proved against it.

use vstd::prelude::*;
use crate::bits::{hi_byte, lemma_byte_ops, lemma_high_page, lemma_word_ops, lo_byte};
use crate::mmu::Mmu;
use super::{
    Cpu, INT_JOYPAD, INT_SERIAL, INT_STAT, INT_TIMER, INT_VBLANK, low_bit, rl_val, rlc_val, rr_val, rrc_val, sla_val, sra_val, srl_val, swap_val, top_bit,
};
use super::machine::{
    bus_read, bus_write, lemma_bus_tick_ram, lemma_push_pop, machine, ram_ok, stack_in_ram, wadd16, Machine,
};
use super::registers::Registers;

verus! {

/// An 8-bit signed offset widened to 16 bits (two's complement).
pub open spec fn sext(off: u8) -> u16 {
    if off < 128 {
        off as u16
    } else {
        (off as int + 0xFF00) as u16
    }
}

/// Result and shifted-out bit of the CB-table rotate/shift `k` (RLC, RRC, RL, RR, SLA,
/// SRA, SWAP, SRL) applied to `v`, with `cin` the carry flag before the operation.
pub open spec fn shift_result(k: u8, v: u8, cin: bool) -> (u8, bool) {
    if k == 0 {
        (rlc_val(v), top_bit(v))
    } else if k == 1 {
        (rrc_val(v), low_bit(v))
    } else if k == 2 {
        (rl_val(v, cin), top_bit(v))
    } else if k == 3 {
        (rr_val(v, cin), low_bit(v))
    } else if k == 4 {
        (sla_val(v), top_bit(v))
    } else if k == 5 {
        (sra_val(v), low_bit(v))
    } else if k == 6 {
        (swap_val(v), false)
    } else {
        (srl_val(v), low_bit(v))
    }
}

/// The interrupt served first among the pending bits `t`: VBlank, STAT, Timer, Serial, Joypad.
pub open spec fn interrupt_bit(t: u8) -> u8 {
    if t & 0x01 != 0 {
        0x01
    } else if t & 0x02 != 0 {
        0x02
    } else if t & 0x04 != 0 {
        0x04
    } else if t & 0x08 != 0 {
        0x08
    } else {
        0x10
    }
}

/// The handler address of the interrupt served first among the pending bits `t`.
pub open spec fn interrupt_vector(t: u8) -> u16 {
    if t & 0x01 != 0 {
        0x0040
    } else if t & 0x02 != 0 {
        0x0048
    } else if t & 0x04 != 0 {
        0x0050
    } else if t & 0x08 != 0 {
        0x0058
    } else {
        0x0060
    }
}

/// The BCD correction of DAA applied to `a` under the flags N, H, C: the adjusted value
/// and whether the carry flag gets set.
pub open spec fn daa_adjust(a: u8, n: bool, h: bool, c: bool) -> (u8, bool) {
    if !n {
        let adjust_high = c || a > 0x99;
        let a1: u8 = if adjust_high { ((a + 0x60) % 256) as u8 } else { a };
        let a2: u8 = if h || a1 % 16 > 9 { ((a1 + 0x06) % 256) as u8 } else { a1 };
        (a2, adjust_high)
    } else {
        let a1: u8 = if c { ((a + 256 - 0x60) % 256) as u8 } else { a };
        let a2: u8 = if h { ((a1 + 256 - 0x06) % 256) as u8 } else { a1 };
        (a2, false)
    }
}

impl Registers {
    /// Register pair `p` of the 16-bit loads and arithmetic: BC, DE, HL, SP.
    pub open spec fn spec_rp(self, p: u8) -> u16 {
        if p == 0 {
            self.spec_bc()
        } else if p == 1 {
            self.spec_de()
        } else if p == 2 {
            self.spec_hl()
        } else {
            self.sp
        }
    }

    pub open spec fn with_rp(self, p: u8, v: u16) -> Registers {
        if p == 0 {
            self.with_bc(v)
        } else if p == 1 {
            self.with_de(v)
        } else if p == 2 {
            self.with_hl(v)
        } else {
            Registers { sp: v, ..self }
        }
    }

    /// Register pair `p` of PUSH and POP: BC, DE, HL, AF.
    pub open spec fn spec_rp2(self, p: u8) -> u16 {
        if p == 3 {
            self.spec_af()
        } else {
            self.spec_rp(p)
        }
    }

    pub open spec fn with_rp2(self, p: u8, v: u16) -> Registers {
        if p == 3 {
            self.with_af(v)
        } else {
            self.with_rp(p, v)
        }
    }

    /// Branch condition `cc`: NZ, Z, NC, C.
    pub open spec fn spec_cond(self, cc: u8) -> bool {
        if cc == 0 {
            !self.spec_flag_z()
        } else if cc == 1 {
            self.spec_flag_z()
        } else if cc == 2 {
            !self.spec_flag_c()
        } else {
            self.spec_flag_c()
        }
    }

    /// ADD HL,v: N cleared, H from bit 11, C from bit 15, Z kept.
    pub open spec fn after_add_hl(self, v: u16) -> Registers {
        let hl = self.spec_hl();
        Registers {
            f: Registers::flag_set_to(
                Registers::flag_set_to(
                    Registers::flag_set_to(self.f, 0x40, false),
                    0x20,
                    hl % 4096 + v % 4096 > 4095,
                ),
                0x10,
                hl + v > 65535,
            ),
            ..self
        }.with_hl(wadd16(hl, v as int))
    }

    /// Flags of ADD SP,e and LD HL,SP+e: Z and N cleared, H and C from the unsigned
    /// addition of the offset byte to the low byte of SP.
    pub open spec fn sp_offset_flags(self, off: u8) -> Registers {
        self.with_flags(false, false, self.sp % 16 + off % 16 > 15, self.sp % 256 + off > 255)
    }

    /// DAA: decimal adjustment of A after a BCD addition (N clear) or subtraction (N set);
    /// Z from the result, H cleared, C set when an addition needed the high-digit fix.
    pub open spec fn after_daa(self) -> Registers {
        let (a2, set_c) = daa_adjust(self.a, self.spec_flag_n(), self.spec_flag_h(), self.spec_flag_c());
        let f1: u8 = if set_c { Registers::flag_set_to(self.f, 0x10, true) } else { self.f };
        Registers {
            a: a2,
            f: Registers::flag_set_to(Registers::flag_set_to(f1, 0x80, a2 == 0), 0x20, false),
            ..self
        }
    }

    /// The accumulator group (x = 0, z = 7): RLCA, RRCA, RLA, RRA, DAA, CPL, SCF, CCF.
    pub open spec fn after_acc_op(self, y: u8) -> Registers {
        let a = self.a;
        if y == 0 {
            Registers { a: rlc_val(a), ..self }.with_flags(false, false, false, top_bit(a))
        } else if y == 1 {
            Registers { a: rrc_val(a), ..self }.with_flags(false, false, false, low_bit(a))
        } else if y == 2 {
            Registers { a: rl_val(a, self.spec_flag_c()), ..self }.with_flags(false, false, false, top_bit(a))
        } else if y == 3 {
            Registers { a: rr_val(a, self.spec_flag_c()), ..self }.with_flags(false, false, false, low_bit(a))
        } else if y == 4 {
            self.after_daa()
        } else if y == 5 {
            Registers {
                a: !a,
                f: Registers::flag_set_to(Registers::flag_set_to(self.f, 0x40, true), 0x20, true),
                ..self
            }
        } else {
            let c = if y == 6 { true } else { !self.spec_flag_c() };
            Registers {
                f: Registers::flag_set_to(
                    Registers::flag_set_to(Registers::flag_set_to(self.f, 0x40, false), 0x20, false),
                    0x10,
                    c,
                ),
                ..self
            }
        }
    }

    /// ALU operation `k` on A and `v`: ADD, ADC, SUB, SBC, AND, XOR, OR, CP.
    pub open spec fn after_alu(self, k: u8, v: u8) -> Registers {
        if k == 0 {
            self.after_add(v, false)
        } else if k == 1 {
            self.after_add(v, self.spec_flag_c())
        } else if k == 2 {
            self.after_sub(v, false, true)
        } else if k == 3 {
            self.after_sub(v, self.spec_flag_c(), true)
        } else if k == 4 {
            self.after_logic(self.a & v, true)
        } else if k == 5 {
            self.after_logic(self.a ^ v, false)
        } else if k == 6 {
            self.after_logic(self.a | v, false)
        } else {
            self.after_sub(v, false, false)
        }
    }
}

impl Machine {
    pub open spec fn with_cpu(self, c: Cpu) -> Machine {
        Machine { cpu: c, ..self }
    }

    /// Operand `r` of an instruction; the byte at HL costs one M-cycle.
    pub open spec fn load_operand(self, r: u8) -> (Machine, u8) {
        if r == 6 {
            self.read(self.regs().spec_hl())
        } else {
            (self, self.get_r8(r))
        }
    }

    /// Store into operand `r`; the byte at HL costs one M-cycle.
    pub open spec fn store_operand(self, r: u8, v: u8) -> Machine {
        if r == 6 {
            self.write(self.regs().spec_hl(), v)
        } else {
            self.set_r8(r, v)
        }
    }

    /// LD (nn),SP: SP stored little-endian at the immediate address.
    pub open spec fn store_sp(self) -> Machine {
        let (m1, addr) = self.fetch_word();
        let sp = m1.regs().sp;
        m1.write(addr, lo_byte(sp)).write(wadd16(addr, 1), hi_byte(sp))
    }

    /// JR e (y = 3) and JR cc,e (y = 4..7): relative jump by the signed immediate.
    pub open spec fn jr(self, y: u8) -> Machine {
        let (m1, off) = self.fetch();
        if y == 3 || m1.regs().spec_cond((y - 4) as u8) {
            m1.with_pc(wadd16(m1.regs().pc, sext(off) as int)).tick()
        } else {
            m1
        }
    }

    /// x = 0, z = 0: NOP, LD (nn),SP, STOP, JR e, JR cc,e.
    pub open spec fn misc_ops(self, y: u8) -> Machine {
        if y == 0 {
            self
        } else if y == 1 {
            self.store_sp()
        } else if y == 2 {
            let (m1, _) = self.fetch();
            m1.with_cpu(Cpu { stopped: true, ..m1.cpu })
        } else {
            self.jr(y)
        }
    }

    /// x = 0, z = 1: LD rp,nn (q = 0) and ADD HL,rp (q = 1).
    pub open spec fn wide_ops(self, y: u8) -> Machine {
        let p = y / 2;
        if y % 2 == 0 {
            let (m1, v) = self.fetch_word();
            m1.with_regs(m1.regs().with_rp(p, v))
        } else {
            self.with_regs(self.regs().after_add_hl(self.regs().spec_rp(p))).tick()
        }
    }

    /// Address of the indirect loads (x = 0, z = 2): BC, DE, HL+, HL-.
    pub open spec fn indirect_addr(self, p: u8) -> u16 {
        if p == 0 {
            self.regs().spec_bc()
        } else if p == 1 {
            self.regs().spec_de()
        } else {
            self.regs().spec_hl()
        }
    }

    /// HL after an indirect load through HL+ (p = 2) or HL- (p = 3).
    pub open spec fn after_hl_step(self, p: u8, hl: u16) -> Machine {
        if p == 2 {
            self.with_regs(self.regs().with_hl(wadd16(hl, 1)))
        } else if p == 3 {
            self.with_regs(self.regs().with_hl(wadd16(hl, -1)))
        } else {
            self
        }
    }

    /// Store A at `addr`, or load A from `addr`.
    pub open spec fn transfer_a(self, load: bool, addr: u16) -> Machine {
        if load {
            let (m1, v) = self.read(addr);
            m1.with_regs(Registers { a: v, ..m1.regs() })
        } else {
            self.write(addr, self.regs().a)
        }
    }

    /// x = 0, z = 2: LD (rr),A (q = 0) and LD A,(rr) (q = 1).
    pub open spec fn indirect_ops(self, y: u8) -> Machine {
        let p = y / 2;
        let addr = self.indirect_addr(p);
        self.transfer_a(y % 2 == 1, addr).after_hl_step(p, addr)
    }

    /// x = 0, z = 3: INC rp (q = 0) and DEC rp (q = 1), one extra M-cycle.
    pub open spec fn step_wide_ops(self, y: u8) -> Machine {
        let p = y / 2;
        let v = self.regs().spec_rp(p);
        let r = if y % 2 == 0 { wadd16(v, 1) } else { wadd16(v, -1) };
        self.with_regs(self.regs().with_rp(p, r)).tick()
    }

    /// x = 0, z = 4 or 5: INC r and DEC r (C unchanged).
    pub open spec fn inc_dec_ops(self, y: u8, dec: bool) -> Machine {
        let (m1, v) = self.load_operand(y);
        let r: u8 = if dec { ((v + 255) % 256) as u8 } else { ((v + 1) % 256) as u8 };
        let h = if dec { v % 16 == 0 } else { v % 16 == 15 };
        m1.with_regs(m1.regs().with_znh(r == 0, dec, h)).store_operand(y, r)
    }

    /// x = 0, z = 6: LD r,n.
    pub open spec fn load_imm_ops(self, y: u8) -> Machine {
        let (m1, v) = self.fetch();
        m1.store_operand(y, v)
    }

    /// x = 0: the first quarter of the opcode table.
    #[verifier::opaque]
    pub open spec fn block0(self, op: u8) -> Machine {
        let y = (op / 8) % 8;
        let z = op % 8;
        if z == 0 {
            self.misc_ops(y)
        } else if z == 1 {
            self.wide_ops(y)
        } else if z == 2 {
            self.indirect_ops(y)
        } else if z == 3 {
            self.step_wide_ops(y)
        } else if z == 4 {
            self.inc_dec_ops(y, false)
        } else if z == 5 {
            self.inc_dec_ops(y, true)
        } else if z == 6 {
            self.load_imm_ops(y)
        } else {
            self.with_regs(self.regs().after_acc_op(y))
        }
    }

    /// x = 1: LD r,r' and HALT (0x76).
    #[verifier::opaque]
    pub open spec fn load_ops(self, op: u8) -> Machine {
        if op == 0x76 {
            self.with_cpu(Cpu { halted: true, ..self.cpu })
        } else {
            let (m1, v) = self.load_operand(op % 8);
            m1.store_operand((op / 8) % 8, v)
        }
    }

    /// x = 2: ALU A,r.
    #[verifier::opaque]
    pub open spec fn alu_ops(self, op: u8) -> Machine {
        let (m1, v) = self.load_operand(op % 8);
        m1.with_regs(m1.regs().after_alu((op / 8) % 8, v))
    }

    /// Return to the address popped from the stack.
    pub open spec fn ret(self) -> Machine {
        let (m1, addr) = self.pop();
        m1.with_pc(addr).tick()
    }

    /// Call `addr`: one internal M-cycle, then the return address is pushed.
    pub open spec fn call(self, addr: u16) -> Machine {
        let m1 = self.tick();
        m1.push(m1.regs().pc).with_pc(addr)
    }

    /// ADD SP,e and LD HL,SP+e: SP plus the signed offset, with the flags of the offset.
    pub open spec fn sp_plus(self, off: u8) -> u16 {
        wadd16(self.regs().sp, sext(off) as int)
    }

    /// x = 3, z = 0: RET cc, LDH (n),A, ADD SP,e, LDH A,(n), LD HL,SP+e.
    pub open spec fn ret_ldh_ops(self, y: u8) -> Machine {
        if y < 4 {
            let m1 = self.tick();
            if m1.regs().spec_cond(y) {
                m1.ret()
            } else {
                m1
            }
        } else {
            let (m1, n) = self.fetch();
            let g = m1.regs();
            if y == 4 {
                m1.write((0xFF00 + n) as u16, g.a)
            } else if y == 5 {
                m1.with_regs(Registers { sp: m1.sp_plus(n), ..g.sp_offset_flags(n) }).tick().tick()
            } else if y == 6 {
                let (m2, v) = m1.read((0xFF00 + n) as u16);
                m2.with_regs(Registers { a: v, ..m2.regs() })
            } else {
                m1.with_regs(g.sp_offset_flags(n).with_hl(m1.sp_plus(n))).tick()
            }
        }
    }

    /// x = 3, z = 1: POP rp2 (q = 0), RET, RETI, JP HL, LD SP,HL.
    pub open spec fn pop_ret_ops(self, y: u8) -> Machine {
        if y % 2 == 0 {
            let (m1, v) = self.pop();
            m1.with_regs(m1.regs().with_rp2(y / 2, v))
        } else if y == 1 {
            self.ret()
        } else if y == 3 {
            let (m1, addr) = self.pop();
            let m2 = m1.with_pc(addr);
            m2.with_cpu(Cpu { ime: true, ..m2.cpu }).tick()
        } else if y == 5 {
            self.with_pc(self.regs().spec_hl())
        } else {
            self.with_sp(self.regs().spec_hl()).tick()
        }
    }

    /// x = 3, z = 2: JP cc,nn, LD (C),A, LD (nn),A, LD A,(C), LD A,(nn).
    pub open spec fn jp_ld_ops(self, y: u8) -> Machine {
        if y < 4 {
            let (m1, addr) = self.fetch_word();
            if m1.regs().spec_cond(y) {
                m1.with_pc(addr).tick()
            } else {
                m1
            }
        } else if y == 4 {
            self.write((0xFF00 + self.regs().c) as u16, self.regs().a)
        } else if y == 6 {
            let (m1, v) = self.read((0xFF00 + self.regs().c) as u16);
            m1.with_regs(Registers { a: v, ..m1.regs() })
        } else {
            let (m1, addr) = self.fetch_word();
            if y == 5 {
                m1.write(addr, m1.regs().a)
            } else {
                let (m2, v) = m1.read(addr);
                m2.with_regs(Registers { a: v, ..m2.regs() })
            }
        }
    }

    /// x = 3, z = 3: JP nn, the CB prefix, DI, EI; the other opcodes do nothing.
    pub open spec fn jp_cb_ime_ops(self, y: u8) -> Machine {
        if y == 0 {
            let (m1, addr) = self.fetch_word();
            m1.with_pc(addr).tick()
        } else if y == 1 {
            let (m1, cb) = self.fetch();
            m1.cb_op(cb)
        } else if y == 6 {
            self.with_cpu(Cpu { ime: false, ime_scheduled: false, ..self.cpu })
        } else if y == 7 {
            self.with_cpu(Cpu { ime_scheduled: true, ..self.cpu })
        } else {
            self
        }
    }

    /// x = 3, z = 4: CALL cc,nn; the other opcodes do nothing.
    pub open spec fn call_cc_ops(self, y: u8) -> Machine {
        if y < 4 {
            let (m1, addr) = self.fetch_word();
            if m1.regs().spec_cond(y) {
                m1.call(addr)
            } else {
                m1
            }
        } else {
            self
        }
    }

    /// x = 3, z = 5: PUSH rp2 (q = 0) and CALL nn; the other opcodes do nothing.
    pub open spec fn push_call_ops(self, y: u8) -> Machine {
        if y % 2 == 0 {
            let v = self.regs().spec_rp2(y / 2);
            self.tick().push(v)
        } else if y == 1 {
            let (m1, addr) = self.fetch_word();
            m1.call(addr)
        } else {
            self
        }
    }

    /// x = 3: the last quarter of the opcode table.
    #[verifier::opaque]
    pub open spec fn block3(self, op: u8) -> Machine {
        let y = (op / 8) % 8;
        let z = op % 8;
        if z == 0 {
            self.ret_ldh_ops(y)
        } else if z == 1 {
            self.pop_ret_ops(y)
        } else if z == 2 {
            self.jp_ld_ops(y)
        } else if z == 3 {
            self.jp_cb_ime_ops(y)
        } else if z == 4 {
            self.call_cc_ops(y)
        } else if z == 5 {
            self.push_call_ops(y)
        } else if z == 6 {
            let (m1, v) = self.fetch();
            m1.with_regs(m1.regs().after_alu(y, v))
        } else {
            self.call((y * 8) as u16)
        }
    }

    /// The CB-prefixed table: rotates and shifts, BIT, RES, SET on operand `op % 8`.
    #[verifier::opaque]
    pub open spec fn cb_op(self, op: u8) -> Machine {
        let r = op % 8;
        let k = op / 8;
        let b = k % 8;
        let (m1, v) = self.load_operand(r);
        let g = m1.regs();
        if k < 8 {
            let (res, c) = shift_result(k, v, g.spec_flag_c());
            m1.with_regs(g.with_shift_flags(res, c)).store_operand(r, res)
        } else if k < 16 {
            m1.with_regs(g.with_znh((v >> b) & 1 == 0, false, true))
        } else if k < 24 {
            m1.store_operand(r, v & !(1u8 << b))
        } else {
            m1.store_operand(r, v | (1u8 << b))
        }
    }

    /// One instruction whose opcode has been fetched.
    #[verifier::opaque]
    pub open spec fn execute(self, op: u8) -> Machine {
        if op < 0x40 {
            self.block0(op)
        } else if op < 0x80 {
            self.load_ops(op)
        } else if op < 0xC0 {
            self.alu_ops(op)
        } else {
            self.block3(op)
        }
    }

    /// Interrupts both enabled (IE) and requested (IF).
    pub open spec fn pending(self) -> u8 {
        bus_read(self.mmu, 0xFFFF) & bus_read(self.mmu, 0xFF0F) & 0x1F
    }

    /// Interrupt dispatch: a pending interrupt wakes the CPU from HALT; with IME set the
    /// highest-priority one is acknowledged and served (two wait cycles, PC pushed, jump
    /// to its vector). The flag tells whether one was served.
    pub open spec fn interrupts(self) -> (Machine, bool) {
        let t = self.pending();
        if t == 0 {
            (self, false)
        } else {
            let m1 = self.with_cpu(Cpu { halted: false, ..self.cpu });
            if !m1.cpu.ime {
                (m1, false)
            } else {
                let m2 = m1.with_cpu(Cpu { ime: false, ..m1.cpu });
                let ack = bus_read(m2.mmu, 0xFF0F) & !interrupt_bit(t);
                let m3 = Machine { mmu: bus_write(m2.mmu, 0xFF0F, ack), ..m2 };
                let m4 = m3.tick().tick();
                (m4.push(m4.regs().pc).with_pc(interrupt_vector(t)).tick(), true)
            }
        }
    }

    /// One step of the CPU: an interrupt is served, or a halted CPU idles one M-cycle,
    /// or one instruction is fetched and executed. The cycle counter starts from zero.
    #[verifier::opaque]
    pub open spec fn step(self) -> Machine {
        let m0 = self.with_cpu(Cpu { cycles: 0, ..self.cpu });
        let (m1, served) = m0.interrupts();
        if served {
            m1
        } else {
            let m2 = if m1.cpu.ime_scheduled {
                m1.with_cpu(Cpu { ime_scheduled: false, ime: true, ..m1.cpu })
            } else {
                m1
            };
            if m2.cpu.halted {
                let m3 = if m2.pending() != 0 {
                    m2.with_cpu(Cpu { halted: false, ..m2.cpu })
                } else {
                    m2
                };
                m3.tick()
            } else {
                let (m3, op) = m2.fetch();
                m3.execute(op)
            }
        }
    }
}

impl Registers {
    fn rp(&self, p: u8) -> (v: u16)
        requires
            p < 4,
        ensures
            v == self.spec_rp(p),
    {
        if p == 0 {
            self.bc()
        } else if p == 1 {
            self.de()
        } else if p == 2 {
            self.hl()
        } else {
            self.sp
        }
    }

    fn set_rp(&mut self, p: u8, v: u16)
        requires
            p < 4,
        ensures
            *final(self) == old(self).with_rp(p, v),
            final(self).f == old(self).f,
    {
        if p == 0 {
            self.set_bc(v);
        } else if p == 1 {
            self.set_de(v);
        } else if p == 2 {
            self.set_hl(v);
        } else {
            self.sp = v;
        }
    }

    fn rp2(&self, p: u8) -> (v: u16)
        requires
            p < 4,
        ensures
            v == self.spec_rp2(p),
    {
        if p == 3 {
            self.af()
        } else {
            self.rp(p)
        }
    }

    fn set_rp2(&mut self, p: u8, v: u16)
        requires
            p < 4,
        ensures
            *final(self) == old(self).with_rp2(p, v),
            old(self).flags_clean() ==> final(self).flags_clean(),
    {
        if p == 3 {
            self.set_af(v);
        } else {
            self.set_rp(p, v);
        }
    }

    fn add_hl(&mut self, v: u16)
        ensures
            *final(self) == old(self).after_add_hl(v),
            old(self).flags_clean() ==> final(self).flags_clean(),
    {
        let hl = self.hl();
        proof {
            lemma_word_ops(hl);
            lemma_word_ops(v);
        }
        let r = hl.wrapping_add(v);
        self.set_n(false);
        self.set_h((hl & 0xFFF) + (v & 0xFFF) > 0xFFF);
        self.set_c((hl as u32) + (v as u32) > 0xFFFF);
        self.set_hl(r);
    }

    fn cond(&self, cc: u8) -> (b: bool)
        ensures
            b == self.spec_cond(cc),
    {
        if cc == 0 {
            !self.flag_z()
        } else if cc == 1 {
            self.flag_z()
        } else if cc == 2 {
            !self.flag_c()
        } else {
            self.flag_c()
        }
    }
}

fn bcd_adjust(a: u8, n: bool, h: bool, c: bool) -> (r: (u8, bool))
    ensures
        r == daa_adjust(a, n, h, c),
{
    let mut a = a;
    let mut set_c = false;
    if !n {
        if c || a > 0x99 {
            a = a.wrapping_add(0x60);
            set_c = true;
        }
        if h || a % 16 > 0x09 {
            a = a.wrapping_add(0x06);
        }
    } else {
        if c {
            a = a.wrapping_sub(0x60);
        }
        if h {
            a = a.wrapping_sub(0x06);
        }
    }
    (a, set_c)
}

fn sign_extend(off: u8) -> (r: u16)
    ensures
        r == sext(off),
{
    if off < 128 {
        off as u16
    } else {
        off as u16 + 0xFF00
    }
}

impl Cpu {
    fn read_operand(&mut self, mmu: &mut Mmu, r: u8) -> (v: u8)
        requires
            old(mmu)@.inv(),
            old(self).cycles <= 1800,
            r < 8,
        ensures
            old(self).regs.flags_clean() ==> final(self).regs.flags_clean(),
            (machine(*final(self), final(mmu)@), v) == machine(*old(self), old(mmu)@).load_operand(r),
            old(self).cycles <= final(self).cycles <= old(self).cycles + 4,
            final(mmu)@.inv(),
    {
        if r == 6 {
            let addr = self.regs.hl();
            self.read_byte(mmu, addr)
        } else {
            self.get_r8(mmu, r)
        }
    }

    fn write_operand(&mut self, mmu: &mut Mmu, r: u8, v: u8)
        requires
            old(mmu)@.inv(),
            old(self).cycles <= 1900,
            r < 8,
        ensures
            old(self).regs.flags_clean() ==> final(self).regs.flags_clean(),
            machine(*final(self), final(mmu)@) == machine(*old(self), old(mmu)@).store_operand(r, v),
            old(self).cycles <= final(self).cycles <= old(self).cycles + 4,
            final(mmu)@.inv(),
    {
        if r == 6 {
            let addr = self.regs.hl();
            self.write_byte(mmu, addr, v);
        } else {
            self.set_r8(mmu, r, v);
        }
    }

    fn alu_op(&mut self, k: u8, v: u8)
        requires
            k < 8,
        ensures
            old(self).regs.flags_clean() ==> final(self).regs.flags_clean(),
            *final(self) == old(self).with_regs(old(self).regs.after_alu(k, v)),
    {
        if k == 0 {
            self.alu_add(v, false);
        } else if k == 1 {
            let c = self.regs.flag_c();
            self.alu_add(v, c);
        } else if k == 2 {
            self.alu_sub(v, false, true);
        } else if k == 3 {
            let c = self.regs.flag_c();
            self.alu_sub(v, c, true);
        } else if k == 4 {
            self.alu_and(v);
        } else if k == 5 {
            self.alu_xor(v);
        } else if k == 6 {
            self.alu_or(v);
        } else {
            self.alu_cp(v);
        }
    }

    fn run_store_sp(&mut self, mmu: &mut Mmu)
        requires
            old(mmu)@.inv(),
            old(self).cycles <= 1000,
        ensures
            old(self).regs.flags_clean() ==> final(self).regs.flags_clean(),
            machine(*final(self), final(mmu)@) == machine(*old(self), old(mmu)@).store_sp(),
            final(self).cycles == old(self).cycles + 16,
            final(mmu)@.inv(),
    {
        let addr = self.fetch_word(mmu);
        let sp = self.regs.sp;
        proof { crate::bits::lemma_split_bits(sp); }
        self.write_byte(mmu, addr, sp as u8);
        self.write_byte(mmu, addr.wrapping_add(1), (sp >> 8) as u8);
    }

    fn run_jr(&mut self, mmu: &mut Mmu, y: u8)
        requires
            old(mmu)@.inv(),
            old(self).cycles <= 1000,
            3 <= y < 8,
        ensures
            old(self).regs.flags_clean() ==> final(self).regs.flags_clean(),
            machine(*final(self), final(mmu)@) == machine(*old(self), old(mmu)@).jr(y),
            old(self).cycles + 4 <= final(self).cycles <= old(self).cycles + 8,
            final(mmu)@.inv(),
    {
        let off = self.fetch_byte(mmu);
        if y == 3 || self.regs.cond(y - 4) {
            self.regs.pc = self.regs.pc.wrapping_add(sign_extend(off));
            self.tick(mmu);
        }
    }

    /// NOP, LD (nn),SP, STOP, JR e, JR cc,e.
    #[verifier::spinoff_prover]
    fn run_misc(&mut self, mmu: &mut Mmu, y: u8)
        requires
            old(mmu)@.inv(),
            old(self).cycles <= 1000,
            y < 8,
        ensures
            old(self).regs.flags_clean() ==> final(self).regs.flags_clean(),
            machine(*final(self), final(mmu)@) == machine(*old(self), old(mmu)@).misc_ops(y),
            old(self).cycles <= final(self).cycles <= old(self).cycles + 20,
            final(mmu)@.inv(),
    {
        if y == 0 {
        } else if y == 1 {
            self.run_store_sp(mmu);
        } else if y == 2 {
            let _next = self.fetch_byte(mmu);
            self.stopped = true;
        } else {
            self.run_jr(mmu, y);
        }
    }

    /// LD rp,nn and ADD HL,rp.
    #[verifier::spinoff_prover]
    fn run_wide(&mut self, mmu: &mut Mmu, y: u8)
        requires
            old(mmu)@.inv(),
            old(self).cycles <= 1000,
            y < 8,
        ensures
            old(self).regs.flags_clean() ==> final(self).regs.flags_clean(),
            machine(*final(self), final(mmu)@) == machine(*old(self), old(mmu)@).wide_ops(y),
            old(self).cycles <= final(self).cycles <= old(self).cycles + 20,
            final(mmu)@.inv(),
    {
        let p = y / 2;
        if y % 2 == 0 {
            let v = self.fetch_word(mmu);
            self.regs.set_rp(p, v);
        } else {
            let v = self.regs.rp(p);
            self.regs.add_hl(v);
            self.tick(mmu);
        }
    }

    fn run_transfer_a(&mut self, mmu: &mut Mmu, load: bool, addr: u16)
        requires
            old(mmu)@.inv(),
            old(self).cycles <= 1800,
        ensures
            old(self).regs.flags_clean() ==> final(self).regs.flags_clean(),
            machine(*final(self), final(mmu)@) == machine(*old(self), old(mmu)@).transfer_a(load, addr),
            final(self).cycles == old(self).cycles + 4,
            final(mmu)@.inv(),
    {
        if load {
            self.regs.a = self.read_byte(mmu, addr);
        } else {
            let a = self.regs.a;
            self.write_byte(mmu, addr, a);
        }
    }

    fn run_hl_step(&mut self, mmu: &Mmu, p: u8, hl: u16)
        ensures
            old(self).regs.flags_clean() ==> final(self).regs.flags_clean(),
            machine(*final(self), mmu@) == machine(*old(self), mmu@).after_hl_step(p, hl),
            final(self).cycles == old(self).cycles,
    {
        if p == 2 {
            self.regs.set_hl(hl.wrapping_add(1));
        } else if p == 3 {
            self.regs.set_hl(hl.wrapping_sub(1));
        }
    }

    /// LD (rr),A and LD A,(rr) through BC, DE, HL+ and HL-.
    #[verifier::spinoff_prover]
    fn run_indirect(&mut self, mmu: &mut Mmu, y: u8)
        requires
            old(mmu)@.inv(),
            old(self).cycles <= 1000,
            y < 8,
        ensures
            old(self).regs.flags_clean() ==> final(self).regs.flags_clean(),
            machine(*final(self), final(mmu)@) == machine(*old(self), old(mmu)@).indirect_ops(y),
            old(self).cycles <= final(self).cycles <= old(self).cycles + 20,
            final(mmu)@.inv(),
    {
        let p = y / 2;
        let addr = if p == 0 {
            self.regs.bc()
        } else if p == 1 {
            self.regs.de()
        } else {
            self.regs.hl()
        };
        self.run_transfer_a(mmu, y % 2 == 1, addr);
        self.run_hl_step(mmu, p, addr);
    }

    /// INC rp and DEC rp.
    #[verifier::spinoff_prover]
    #[verifier::rlimit(40)]
    fn run_step_wide(&mut self, mmu: &mut Mmu, y: u8)
        requires
            old(mmu)@.inv(),
            old(self).cycles <= 1000,
            y < 8,
        ensures
            old(self).regs.flags_clean() ==> final(self).regs.flags_clean(),
            machine(*final(self), final(mmu)@) == machine(*old(self), old(mmu)@).step_wide_ops(y),
            old(self).cycles <= final(self).cycles <= old(self).cycles + 20,
            final(mmu)@.inv(),
    {
        let p = y / 2;
        let v = self.regs.rp(p);
        let r = if y % 2 == 0 { v.wrapping_add(1) } else { v.wrapping_sub(1) };
        self.regs.set_rp(p, r);
        self.tick(mmu);
    }

    /// INC r and DEC r.
    #[verifier::spinoff_prover]
    fn run_inc_dec(&mut self, mmu: &mut Mmu, y: u8, dec: bool)
        requires
            old(mmu)@.inv(),
            old(self).cycles <= 1000,
            y < 8,
        ensures
            old(self).regs.flags_clean() ==> final(self).regs.flags_clean(),
            machine(*final(self), final(mmu)@) == machine(*old(self), old(mmu)@).inc_dec_ops(y, dec),
            old(self).cycles <= final(self).cycles <= old(self).cycles + 20,
            final(mmu)@.inv(),
    {
        let v = self.read_operand(mmu, y);
        let r = if dec { self.alu_dec(v) } else { self.alu_inc(v) };
        self.write_operand(mmu, y, r);
    }

    /// LD r,n.
    fn run_load_imm(&mut self, mmu: &mut Mmu, y: u8)
        requires
            old(mmu)@.inv(),
            old(self).cycles <= 1000,
            y < 8,
        ensures
            old(self).regs.flags_clean() ==> final(self).regs.flags_clean(),
            machine(*final(self), final(mmu)@) == machine(*old(self), old(mmu)@).load_imm_ops(y),
            old(self).cycles <= final(self).cycles <= old(self).cycles + 20,
            final(mmu)@.inv(),
    {
        let v = self.fetch_byte(mmu);
        self.write_operand(mmu, y, v);
    }

    /// RLCA, RRCA, RLA, RRA, DAA, CPL, SCF, CCF.
    fn run_acc(&mut self, y: u8)
        requires
            y < 8,
        ensures
            old(self).regs.flags_clean() ==> final(self).regs.flags_clean(),
            *final(self) == old(self).with_regs(old(self).regs.after_acc_op(y)),
    {
        let a = self.regs.a;
        proof { lemma_byte_ops(a); }
        if y == 0 {
            let c = a >> 7;
            self.regs.a = (a << 1) | c;
            self.regs.set_flags(false, false, false, c != 0);
        } else if y == 1 {
            let c = a & 1;
            self.regs.a = (a >> 1) | (c << 7);
            self.regs.set_flags(false, false, false, c != 0);
        } else if y == 2 {
            let old_c = self.regs.flag_c();
            let c = a >> 7;
            self.regs.a = (a << 1) | (if old_c { 1u8 } else { 0u8 });
            self.regs.set_flags(false, false, false, c != 0);
        } else if y == 3 {
            let old_c = self.regs.flag_c();
            let c = a & 1;
            self.regs.a = (a >> 1) | (if old_c { 0x80u8 } else { 0u8 });
            self.regs.set_flags(false, false, false, c != 0);
        } else if y == 4 {
            self.daa();
        } else if y == 5 {
            self.regs.a = !a;
            self.regs.set_n(true);
            self.regs.set_h(true);
        } else {
            let c = if y == 6 { true } else { !self.regs.flag_c() };
            self.regs.set_n(false);
            self.regs.set_h(false);
            self.regs.set_c(c);
        }
    }

    /// The first quarter of the opcode table.
    #[verifier::spinoff_prover]
    fn run_block0(&mut self, mmu: &mut Mmu, op: u8)
        requires
            old(mmu)@.inv(),
            old(self).cycles <= 1000,
            op < 0x40,
        ensures
            old(self).regs.flags_clean() ==> final(self).regs.flags_clean(),
            machine(*final(self), final(mmu)@) == machine(*old(self), old(mmu)@).block0(op),
            old(self).cycles <= final(self).cycles <= old(self).cycles + 20,
            final(mmu)@.inv(),
    {
        proof { reveal(Machine::block0); }
        let y = (op / 8) % 8;
        let z = op % 8;
        if z == 0 {
            self.run_misc(mmu, y);
        } else if z == 1 {
            self.run_wide(mmu, y);
        } else if z == 2 {
            self.run_indirect(mmu, y);
        } else if z == 3 {
            self.run_step_wide(mmu, y);
        } else if z == 4 {
            self.run_inc_dec(mmu, y, false);
        } else if z == 5 {
            self.run_inc_dec(mmu, y, true);
        } else if z == 6 {
            self.run_load_imm(mmu, y);
        } else {
            self.run_acc(y);
        }
    }

    /// LD r,r' and HALT.
    fn run_load(&mut self, mmu: &mut Mmu, op: u8)
        requires
            old(mmu)@.inv(),
            old(self).cycles <= 1000,
        ensures
            old(self).regs.flags_clean() ==> final(self).regs.flags_clean(),
            machine(*final(self), final(mmu)@) == machine(*old(self), old(mmu)@).load_ops(op),
            old(self).cycles <= final(self).cycles <= old(self).cycles + 20,
            final(mmu)@.inv(),
    {
        proof { reveal(Machine::load_ops); }
        if op == 0x76 {
            self.halted = true;
        } else {
            let v = self.read_operand(mmu, op % 8);
            self.write_operand(mmu, (op / 8) % 8, v);
        }
    }

    /// ALU A,r.
    fn run_alu(&mut self, mmu: &mut Mmu, op: u8)
        requires
            old(mmu)@.inv(),
            old(self).cycles <= 1000,
        ensures
            old(self).regs.flags_clean() ==> final(self).regs.flags_clean(),
            machine(*final(self), final(mmu)@) == machine(*old(self), old(mmu)@).alu_ops(op),
            old(self).cycles <= final(self).cycles <= old(self).cycles + 20,
            final(mmu)@.inv(),
    {
        proof { reveal(Machine::alu_ops); }
        let v = self.read_operand(mmu, op % 8);
        self.alu_op((op / 8) % 8, v);
    }

    fn run_ret(&mut self, mmu: &mut Mmu)
        requires
            old(mmu)@.inv(),
            old(self).cycles <= 1900,
        ensures
            old(self).regs.flags_clean() ==> final(self).regs.flags_clean(),
            machine(*final(self), final(mmu)@) == machine(*old(self), old(mmu)@).ret(),
            final(self).cycles == old(self).cycles + 12,
            final(mmu)@.inv(),
    {
        let addr = self.pop_u16(mmu);
        self.regs.pc = addr;
        self.tick(mmu);
    }

    fn run_call(&mut self, mmu: &mut Mmu, addr: u16)
        requires
            old(mmu)@.inv(),
            old(self).cycles <= 1900,
        ensures
            old(self).regs.flags_clean() ==> final(self).regs.flags_clean(),
            machine(*final(self), final(mmu)@) == machine(*old(self), old(mmu)@).call(addr),
            final(self).cycles == old(self).cycles + 12,
            final(mmu)@.inv(),
    {
        self.tick(mmu);
        let pc = self.regs.pc;
        self.push_u16(mmu, pc);
        self.regs.pc = addr;
    }

    /// ADD SP,e and LD HL,SP+e: the sum and the flags set from it.
    fn sp_plus_flags(&mut self, off: u8) -> (r: u16)
        ensures
            old(self).regs.flags_clean() ==> final(self).regs.flags_clean(),
            r == wadd16(old(self).regs.sp, sext(off) as int),
            *final(self) == old(self).with_regs(old(self).regs.sp_offset_flags(off)),
    {
        let sp = self.regs.sp;
        proof { lemma_word_ops(sp); lemma_byte_ops(off); }
        let result = sp.wrapping_add(sign_extend(off));
        let h = (sp % 16) + ((off % 16) as u16) > 0x0F;
        let c = (sp % 256) + (off as u16) > 0xFF;
        self.regs.set_flags(false, false, h, c);
        result
    }

    /// RET cc, LDH (n),A, ADD SP,e, LDH A,(n), LD HL,SP+e.
    #[verifier::spinoff_prover]
    fn run_ret_ldh(&mut self, mmu: &mut Mmu, y: u8)
        requires
            old(mmu)@.inv(),
            old(self).cycles <= 1000,
            y < 8,
        ensures
            old(self).regs.flags_clean() ==> final(self).regs.flags_clean(),
            machine(*final(self), final(mmu)@) == machine(*old(self), old(mmu)@).ret_ldh_ops(y),
            old(self).cycles <= final(self).cycles <= old(self).cycles + 20,
            final(mmu)@.inv(),
    {
        if y < 4 {
            self.tick(mmu);
            if self.regs.cond(y) {
                self.run_ret(mmu);
            }
        } else {
            let n = self.fetch_byte(mmu);
            proof { lemma_high_page(n); }
            if y == 4 {
                let a = self.regs.a;
                self.write_byte(mmu, 0xFF00 | (n as u16), a);
            } else if y == 5 {
                let r = self.sp_plus_flags(n);
                self.regs.sp = r;
                self.tick(mmu);
                self.tick(mmu);
            } else if y == 6 {
                self.regs.a = self.read_byte(mmu, 0xFF00 | (n as u16));
            } else {
                let r = self.sp_plus_flags(n);
                self.regs.set_hl(r);
                self.tick(mmu);
            }
        }
    }

    /// POP rp2, RET, RETI, JP HL, LD SP,HL.
    #[verifier::spinoff_prover]
    fn run_pop_ret(&mut self, mmu: &mut Mmu, y: u8)
        requires
            old(mmu)@.inv(),
            old(self).cycles <= 1000,
            y < 8,
        ensures
            old(self).regs.flags_clean() ==> final(self).regs.flags_clean(),
            machine(*final(self), final(mmu)@) == machine(*old(self), old(mmu)@).pop_ret_ops(y),
            old(self).cycles <= final(self).cycles <= old(self).cycles + 20,
            final(mmu)@.inv(),
    {
        if y % 2 == 0 {
            let v = self.pop_u16(mmu);
            self.regs.set_rp2(y / 2, v);
        } else if y == 1 {
            self.run_ret(mmu);
        } else if y == 3 {
            let addr = self.pop_u16(mmu);
            self.regs.pc = addr;
            self.ime = true;
            self.tick(mmu);
        } else if y == 5 {
            self.regs.pc = self.regs.hl();
        } else {
            self.regs.sp = self.regs.hl();
            self.tick(mmu);
        }
    }

    /// JP cc,nn, LD (C),A, LD (nn),A, LD A,(C), LD A,(nn).
    #[verifier::spinoff_prover]
    fn run_jp_ld(&mut self, mmu: &mut Mmu, y: u8)
        requires
            old(mmu)@.inv(),
            old(self).cycles <= 1000,
            y < 8,
        ensures
            old(self).regs.flags_clean() ==> final(self).regs.flags_clean(),
            machine(*final(self), final(mmu)@) == machine(*old(self), old(mmu)@).jp_ld_ops(y),
            old(self).cycles <= final(self).cycles <= old(self).cycles + 20,
            final(mmu)@.inv(),
    {
        if y < 4 {
            let addr = self.fetch_word(mmu);
            if self.regs.cond(y) {
                self.regs.pc = addr;
                self.tick(mmu);
            }
        } else if y == 4 {
            proof { lemma_high_page(self.regs.c); }
            let a = self.regs.a;
            self.write_byte(mmu, 0xFF00 | (self.regs.c as u16), a);
        } else if y == 6 {
            proof { lemma_high_page(self.regs.c); }
            self.regs.a = self.read_byte(mmu, 0xFF00 | (self.regs.c as u16));
        } else {
            let addr = self.fetch_word(mmu);
            if y == 5 {
                let a = self.regs.a;
                self.write_byte(mmu, addr, a);
            } else {
                self.regs.a = self.read_byte(mmu, addr);
            }
        }
    }

    /// JP nn, the CB prefix, DI, EI; the other opcodes of this column do nothing.
    fn run_jp_cb_ime(&mut self, mmu: &mut Mmu, y: u8)
        requires
            old(mmu)@.inv(),
            old(self).cycles <= 1000,
            y < 8,
        ensures
            old(self).regs.flags_clean() ==> final(self).regs.flags_clean(),
            machine(*final(self), final(mmu)@) == machine(*old(self), old(mmu)@).jp_cb_ime_ops(y),
            old(self).cycles <= final(self).cycles <= old(self).cycles + 20,
            final(mmu)@.inv(),
    {
        if y == 0 {
            let addr = self.fetch_word(mmu);
            self.regs.pc = addr;
            self.tick(mmu);
        } else if y == 1 {
            let cb_op = self.fetch_byte(mmu);
            self.execute_cb(mmu, cb_op);
        } else if y == 6 {
            self.ime = false;
            self.ime_scheduled = false;
        } else if y == 7 {
            self.ime_scheduled = true;
        }
    }

    /// CALL cc,nn.
    fn run_call_cc(&mut self, mmu: &mut Mmu, y: u8)
        requires
            old(mmu)@.inv(),
            old(self).cycles <= 1000,
            y < 8,
        ensures
            old(self).regs.flags_clean() ==> final(self).regs.flags_clean(),
            machine(*final(self), final(mmu)@) == machine(*old(self), old(mmu)@).call_cc_ops(y),
            old(self).cycles <= final(self).cycles <= old(self).cycles + 20,
            final(mmu)@.inv(),
    {
        if y < 4 {
            let addr = self.fetch_word(mmu);
            if self.regs.cond(y) {
                self.run_call(mmu, addr);
            }
        }
    }

    /// PUSH rp2 and CALL nn.
    fn run_push_call(&mut self, mmu: &mut Mmu, y: u8)
        requires
            old(mmu)@.inv(),
            old(self).cycles <= 1000,
            y < 8,
        ensures
            old(self).regs.flags_clean() ==> final(self).regs.flags_clean(),
            machine(*final(self), final(mmu)@) == machine(*old(self), old(mmu)@).push_call_ops(y),
            old(self).cycles <= final(self).cycles <= old(self).cycles + 20,
            final(mmu)@.inv(),
    {
        if y % 2 == 0 {
            let v = self.regs.rp2(y / 2);
            self.tick(mmu);
            self.push_u16(mmu, v);
        } else if y == 1 {
            let addr = self.fetch_word(mmu);
            self.run_call(mmu, addr);
        }
    }

    /// The last quarter of the opcode table.
    #[verifier::spinoff_prover]
    fn run_block3(&mut self, mmu: &mut Mmu, op: u8)
        requires
            old(mmu)@.inv(),
            old(self).cycles <= 1000,
        ensures
            old(self).regs.flags_clean() ==> final(self).regs.flags_clean(),
            machine(*final(self), final(mmu)@) == machine(*old(self), old(mmu)@).block3(op),
            old(self).cycles <= final(self).cycles <= old(self).cycles + 20,
            final(mmu)@.inv(),
    {
        proof { reveal(Machine::block3); }
        let y = (op / 8) % 8;
        let z = op % 8;
        if z == 0 {
            self.run_ret_ldh(mmu, y);
        } else if z == 1 {
            self.run_pop_ret(mmu, y);
        } else if z == 2 {
            self.run_jp_ld(mmu, y);
        } else if z == 3 {
            self.run_jp_cb_ime(mmu, y);
        } else if z == 4 {
            self.run_call_cc(mmu, y);
        } else if z == 5 {
            self.run_push_call(mmu, y);
        } else if z == 6 {
            let v = self.fetch_byte(mmu);
            self.alu_op(y, v);
        } else {
            self.run_call(mmu, (y * 8) as u16);
        }
    }

    /// One CB-prefixed instruction (its opcode already fetched).
    #[verifier::spinoff_prover]
    fn execute_cb(&mut self, mmu: &mut Mmu, op: u8)
        requires
            old(mmu)@.inv(),
            old(self).cycles <= 1100,
        ensures
            old(self).regs.flags_clean() ==> final(self).regs.flags_clean(),
            machine(*final(self), final(mmu)@) == machine(*old(self), old(mmu)@).cb_op(op),
            old(self).cycles <= final(self).cycles <= old(self).cycles + 8,
            final(mmu)@.inv(),
    {
        proof { reveal(Machine::cb_op); }
        let r = op % 8;
        let k = op / 8;
        let val = self.read_operand(mmu, r);
        if k < 8 {
            let result = if k == 0 {
                self.alu_rlc(val)
            } else if k == 1 {
                self.alu_rrc(val)
            } else if k == 2 {
                self.alu_rl(val)
            } else if k == 3 {
                self.alu_rr(val)
            } else if k == 4 {
                self.alu_sla(val)
            } else if k == 5 {
                self.alu_sra(val)
            } else if k == 6 {
                self.alu_swap(val)
            } else {
                self.alu_srl(val)
            };
            self.write_operand(mmu, r, result);
        } else if k < 16 {
            self.alu_bit(k % 8, val);
        } else if k < 24 {
            let bit = k % 8;
            self.write_operand(mmu, r, val & !(1u8 << bit));
        } else {
            let bit = k % 8;
            self.write_operand(mmu, r, val | (1u8 << bit));
        }
    }

    /// Execute one instruction whose opcode has been fetched.
    pub fn execute(&mut self, mmu: &mut Mmu, opcode: u8)
        requires
            old(mmu)@.inv(),
            old(self).cycles <= 1000,
        ensures
            old(self).regs.flags_clean() ==> final(self).regs.flags_clean(),
            machine(*final(self), final(mmu)@) == machine(*old(self), old(mmu)@).execute(opcode),
            old(self).cycles <= final(self).cycles <= old(self).cycles + 20,
            final(mmu)@.inv(),
    {
        proof { reveal(Machine::execute); }
        if opcode < 0x40 {
            self.run_block0(mmu, opcode);
        } else if opcode < 0x80 {
            self.run_load(mmu, opcode);
        } else if opcode < 0xC0 {
            self.run_alu(mmu, opcode);
        } else {
            self.run_block3(mmu, opcode);
        }
    }

    /// Serve the highest-priority pending interrupt when IME is set; a pending interrupt
    /// wakes a halted CPU either way. Returns whether one was served.
    #[verifier::spinoff_prover]
    fn handle_interrupts(&mut self, mmu: &mut Mmu) -> (served: bool)
        requires
            old(mmu)@.inv(),
            old(self).cycles <= 1000,
        ensures
            old(self).regs.flags_clean() ==> final(self).regs.flags_clean(),
            (machine(*final(self), final(mmu)@), served) == machine(*old(self), old(mmu)@).interrupts(),
            final(self).cycles == old(self).cycles + (if served { 20int } else { 0int }),
            final(mmu)@.inv(),
    {
        proof {
            reveal(bus_read);
            reveal(bus_write);
        }
        let ie = mmu.read_byte(0xFFFF);
        let iflags = mmu.read_byte(0xFF0F);
        let triggered = ie & iflags & 0x1F;
        if triggered == 0 {
            return false;
        }
        if self.halted {
            self.halted = false;
        }
        if !self.ime {
            return false;
        }
        self.ime = false;
        let (bit, vector) = if triggered & INT_VBLANK != 0 {
            (INT_VBLANK, 0x0040u16)
        } else if triggered & INT_STAT != 0 {
            (INT_STAT, 0x0048u16)
        } else if triggered & INT_TIMER != 0 {
            (INT_TIMER, 0x0050u16)
        } else if triggered & INT_SERIAL != 0 {
            (INT_SERIAL, 0x0058u16)
        } else {
            (INT_JOYPAD, 0x0060u16)
        };
        let ack = mmu.read_byte(0xFF0F) & !bit;
        mmu.write_byte(0xFF0F, ack);
        self.tick(mmu);
        self.tick(mmu);
        let pc = self.regs.pc;
        self.push_u16(mmu, pc);
        self.regs.pc = vector;
        self.tick(mmu);
        true
    }

    /// Execute one instruction, or serve an interrupt, or idle one M-cycle while halted.
    /// Returns the T-cycles consumed.
    pub fn step(&mut self, mmu: &mut Mmu) -> (r: u32)
        requires
            old(mmu)@.inv(),
        ensures
            old(self).regs.flags_clean() ==> final(self).regs.flags_clean(),
            machine(*final(self), final(mmu)@) == machine(*old(self), old(mmu)@).step(),
            r == final(self).cycles,
            4 <= r <= 24,
            final(mmu)@.inv(),
    {
        proof {
            reveal(bus_read);
            reveal(Machine::step);
        }
        self.cycles = 0;
        if self.handle_interrupts(mmu) {
            return self.cycles;
        }
        if self.ime_scheduled {
            self.ime_scheduled = false;
            self.ime = true;
        }
        if self.halted {
            let ie = mmu.read_byte(0xFFFF);
            let iflags = mmu.read_byte(0xFF0F);
            if ie & iflags & 0x1F != 0 {
                self.halted = false;
            }
            self.tick(mmu);
            return self.cycles;
        }
        let opcode = self.fetch_byte(mmu);
        self.execute(mmu, opcode);
        self.cycles
    }

    fn daa(&mut self)
        ensures
            old(self).regs.flags_clean() ==> final(self).regs.flags_clean(),
            *final(self) == old(self).with_regs(old(self).regs.after_daa()),
    {
        let (a, set_c) = bcd_adjust(self.regs.a, self.regs.flag_n(), self.regs.flag_h(), self.regs.flag_c());
        if set_c {
            self.regs.set_c(true);
        }
        self.regs.set_z(a == 0);
        self.regs.set_h(false);
        self.regs.a = a;
    }
}

/// RET after CALL comes back: PC is the address after the CALL and SP is restored, all
/// other registers unchanged, when the stack is in work RAM or high RAM.
pub proof fn lemma_call_ret(m: Machine, addr: u16)
    requires
        ram_ok(m.mmu),
        stack_in_ram(m.regs().sp),
    ensures
        m.call(addr).ret().regs() == m.regs(),
{
    reveal(Machine::tick);
    reveal(Machine::pop);
    reveal(Machine::read);
    let m1 = m.tick();
    lemma_bus_tick_ram(m.mmu, 0xC000);
    lemma_push_pop(m1, m1.regs().pc);
    let m2 = m1.push(m1.regs().pc);
    assert(m2.with_pc(addr).pop().1 == m2.pop().1);
}

/// With IME set and an interrupt both enabled and requested, a step serves the
/// highest-priority one: PC jumps to its vector, IME is cleared, the CPU leaves HALT,
/// and the step takes 20 T-cycles.
pub proof fn lemma_interrupt_served(m: Machine)
    requires
        m.cpu.ime,
        m.pending() != 0,
    ensures
        m.step().regs().pc == interrupt_vector(m.pending()),
        !m.step().cpu.ime,
        !m.step().cpu.halted,
        m.step().cpu.cycles == 20,
{
    reveal(Machine::step);
    reveal(Machine::tick);
    reveal(Machine::push);
    reveal(Machine::write);
}

/// EI does not enable interrupts at once: right after it IME is still clear and the
/// enable is scheduled.
pub proof fn lemma_ei_schedules_ime(m: Machine)
    requires
        !m.cpu.ime,
        !m.cpu.ime_scheduled,
        !m.cpu.halted,
        bus_read(m.mmu, m.regs().pc) == 0xFB,
    ensures
        !m.step().cpu.ime,
        m.step().cpu.ime_scheduled,
{
    reveal(Machine::execute);
    reveal(Machine::block3);
    reveal(Machine::step);
    reveal(Machine::fetch);
    reveal(Machine::tick);
}

/// A scheduled enable takes effect before the next instruction runs: after it (here a
/// NOP) IME is set.
pub proof fn lemma_scheduled_ime_takes_effect(m: Machine)
    requires
        !m.cpu.ime,
        m.cpu.ime_scheduled,
        !m.cpu.halted,
        bus_read(m.mmu, m.regs().pc) == 0x00,
    ensures
        m.step().cpu.ime,
        !m.step().cpu.ime_scheduled,
{
    reveal(Machine::execute);
    reveal(Machine::block0);
    reveal(Machine::step);
    reveal(Machine::fetch);
    reveal(Machine::tick);
}

/// PUSH rr then POP rr' (pairs BC, DE, HL, AF) copies rr into rr' (AF drops the low
/// nibble of F) and leaves every other register, SP and PC included, as it was, when the
/// stack is in work RAM or high RAM.
pub proof fn lemma_push_then_pop(m: Machine, p: u8, q: u8)
    requires
        m.mmu.inv(),
        stack_in_ram(m.regs().sp),
        p < 4,
        q < 4,
    ensures
        ({
            let v = m.regs().spec_rp2(p);
            let r = m.execute((0xC5 + 16 * p) as u8).execute((0xC1 + 16 * q) as u8).regs();
            &&& r == m.regs().with_rp2(q, v)
            &&& r.spec_rp2(q) == (if q == 3 { (v / 16 * 16) as u16 } else { v })
            &&& r.sp == m.regs().sp
            &&& r.pc == m.regs().pc
        }),
{
    reveal(Machine::tick);
    let v = m.regs().spec_rp2(p);
    let m1 = m.tick();
    lemma_bus_tick_ram(m.mmu, 0xC000);
    lemma_push_pop(m1, v);
    lemma_execute_push(m, p);
    lemma_execute_pop(m1.push(v), q);
    let (m2, w) = m1.push(v).pop();
    crate::cpu::registers::lemma_pair_write_read(m2.regs(), v);
}

#[verifier::spinoff_prover]
#[verifier::rlimit(40)]
proof fn lemma_execute_push(m: Machine, p: u8)
    requires
        p < 4,
    ensures
        m.execute((0xC5 + 16 * p) as u8) == m.tick().push(m.regs().spec_rp2(p)),
{
    reveal(Machine::execute);
    reveal(Machine::block3);
    if p == 0 {
        assert(m.block3(0xC5) == m.push_call_ops(0));
    } else if p == 1 {
        assert(m.block3(0xD5) == m.push_call_ops(2));
    } else if p == 2 {
        assert(m.block3(0xE5) == m.push_call_ops(4));
    } else {
        assert(m.block3(0xF5) == m.push_call_ops(6));
    }
}

#[verifier::spinoff_prover]
#[verifier::rlimit(40)]
proof fn lemma_execute_pop(m: Machine, q: u8)
    requires
        q < 4,
    ensures
        ({
            let (m2, w) = m.pop();
            m.execute((0xC1 + 16 * q) as u8) == m2.with_regs(m2.regs().with_rp2(q, w))
        }),
{
    reveal(Machine::execute);
    reveal(Machine::block3);
    if q == 0 {
        assert(m.block3(0xC1) == m.pop_ret_ops(0));
    } else if q == 1 {
        assert(m.block3(0xD1) == m.pop_ret_ops(2));
    } else if q == 2 {
        assert(m.block3(0xE1) == m.pop_ret_ops(4));
    } else {
        assert(m.block3(0xF1) == m.pop_ret_ops(6));
    }
}

proof fn lemma_lowest_pending_bit(t: u8)
    by (bit_vector)
    ensures
        (t & 0x01 != 0) == ((t >> 0u8) & 1 == 1),
        (t & 0x02 != 0) == ((t >> 1u8) & 1 == 1),
        (t & 0x04 != 0) == ((t >> 2u8) & 1 == 1),
        (t & 0x08 != 0) == ((t >> 3u8) & 1 == 1),
        (t & 0x10 != 0) == ((t >> 4u8) & 1 == 1),
{
}

/// A step with IME set serves the interrupt of the lowest set bit `k` of IE & IF & 0x1F
/// (0 VBlank, 1 STAT, 2 Timer, 3 Serial, 4 Joypad): PC becomes 0x40 + 8 * k.
pub proof fn lemma_interrupt_vector_of_lowest_bit(m: Machine, k: u8)
    requires
        m.cpu.ime,
        k < 5,
        (m.pending() >> k) & 1 == 1,
        forall|j: u8| j < k ==> (m.pending() >> j) & 1 == 0,
    ensures
        m.step().regs().pc == 0x40 + 8 * k,
{
    let t = m.pending();
    lemma_lowest_pending_bit(t);
    assert(t != 0) by (bit_vector)
        requires
            k < 5,
            (t >> k) & 1 == 1,
    ;
    lemma_interrupt_served(m);
    if k >= 1 {
        assert((t >> 0u8) & 1 == 0);
    }
    if k >= 2 {
        assert((t >> 1u8) & 1 == 0);
    }
    if k >= 3 {
        assert((t >> 2u8) & 1 == 0);
    }
    if k >= 4 {
        assert((t >> 3u8) & 1 == 0);
    }
}

} // verus!
