//! The CPU together with the memory bus: the bus operations that instructions are built
//! from (each memory access costs one M-cycle, 4 T-cycles, during which the bus ticks).

use vstd::prelude::*;
use crate::bits::{hi_byte, lo_byte, pair};
use crate::mmu::{Mmu, MmuState};
use super::Cpu;
use super::registers::Registers;

verus! {

/// Upper bound on the T-cycle counter at the start of a bus operation.
pub const CYCLE_BOUND: u32 = 2000;

/// 16-bit wrapping addition and subtraction.
pub open spec fn wadd16(a: u16, b: int) -> u16 {
    ((a + b) % 65536) as u16
}

/// The bus advanced by one M-cycle (kept folded so that instruction proofs stay small).
#[verifier::opaque]
pub open spec fn bus_tick(m: MmuState) -> MmuState {
    m.spec_tick(4)
}

/// A read from the bus.
#[verifier::opaque]
pub open spec fn bus_read(m: MmuState, addr: u16) -> u8 {
    m.spec_read(addr)
}

/// A write to the bus.
#[verifier::opaque]
pub open spec fn bus_write(m: MmuState, addr: u16, v: u8) -> MmuState {
    m.spec_write(addr, v)
}

/// CPU and memory bus as one state.
pub struct Machine {
    pub cpu: Cpu,
    pub mmu: MmuState,
}

pub open spec fn machine(c: Cpu, m: MmuState) -> Machine {
    Machine { cpu: c, mmu: m }
}

impl Machine {
    pub open spec fn regs(self) -> Registers {
        self.cpu.regs
    }

    pub open spec fn with_regs(self, r: Registers) -> Machine {
        Machine { cpu: Cpu { regs: r, ..self.cpu }, ..self }
    }

    pub open spec fn with_pc(self, pc: u16) -> Machine {
        self.with_regs(Registers { pc, ..self.regs() })
    }

    pub open spec fn with_sp(self, sp: u16) -> Machine {
        self.with_regs(Registers { sp, ..self.regs() })
    }

    /// One M-cycle: 4 T-cycles counted and the bus advanced.
    #[verifier::opaque]
    pub open spec fn tick(self) -> Machine {
        Machine { cpu: Cpu { cycles: (self.cpu.cycles + 4) as u32, ..self.cpu }, mmu: bus_tick(self.mmu) }
    }

    /// Read a byte, then tick.
    #[verifier::opaque]
    pub open spec fn read(self, addr: u16) -> (Machine, u8) {
        (self.tick(), bus_read(self.mmu, addr))
    }

    /// Write a byte, then tick.
    #[verifier::opaque]
    pub open spec fn write(self, addr: u16, v: u8) -> Machine {
        Machine { mmu: bus_write(self.mmu, addr, v), ..self }.tick()
    }

    /// Read the byte at PC and advance PC.
    #[verifier::opaque]
    pub open spec fn fetch(self) -> (Machine, u8) {
        let v = bus_read(self.mmu, self.regs().pc);
        (self.with_pc(wadd16(self.regs().pc, 1)).tick(), v)
    }

    /// Read a little-endian word at PC.
    #[verifier::opaque]
    pub open spec fn fetch_word(self) -> (Machine, u16) {
        let (m1, lo) = self.fetch();
        let (m2, hi) = m1.fetch();
        (m2, pair(hi, lo))
    }

    /// Push a word: high byte at SP-1, low byte at SP-2.
    #[verifier::opaque]
    pub open spec fn push(self, v: u16) -> Machine {
        let sp1 = wadd16(self.regs().sp, -1);
        let m1 = self.with_sp(sp1).write(sp1, hi_byte(v));
        let sp2 = wadd16(sp1, -1);
        m1.with_sp(sp2).write(sp2, lo_byte(v))
    }

    /// Pop a word: low byte at SP, high byte at SP+1.
    #[verifier::opaque]
    pub open spec fn pop(self) -> (Machine, u16) {
        let sp = self.regs().sp;
        let (m1, lo) = self.read(sp);
        let m2 = m1.with_sp(wadd16(sp, 1));
        let (m3, hi) = m2.read(wadd16(sp, 1));
        (m3.with_sp(wadd16(sp, 2)), pair(hi, lo))
    }

    /// Register operand `r` of an instruction (6 = the byte at HL, read without a tick).
    pub open spec fn get_r8(self, r: u8) -> u8 {
        let g = self.regs();
        if r == 0 {
            g.b
        } else if r == 1 {
            g.c
        } else if r == 2 {
            g.d
        } else if r == 3 {
            g.e
        } else if r == 4 {
            g.h
        } else if r == 5 {
            g.l
        } else if r == 6 {
            bus_read(self.mmu, g.spec_hl())
        } else {
            g.a
        }
    }

    pub open spec fn set_r8(self, r: u8, v: u8) -> Machine {
        let g = self.regs();
        if r == 0 {
            self.with_regs(Registers { b: v, ..g })
        } else if r == 1 {
            self.with_regs(Registers { c: v, ..g })
        } else if r == 2 {
            self.with_regs(Registers { d: v, ..g })
        } else if r == 3 {
            self.with_regs(Registers { e: v, ..g })
        } else if r == 4 {
            self.with_regs(Registers { h: v, ..g })
        } else if r == 5 {
            self.with_regs(Registers { l: v, ..g })
        } else if r == 6 {
            Machine { mmu: bus_write(self.mmu, g.spec_hl(), v), ..self }
        } else {
            self.with_regs(Registers { a: v, ..g })
        }
    }
}

/// SP leaves room for two bytes below it in work RAM or in high RAM.
pub open spec fn stack_in_ram(sp: u16) -> bool {
    (0xC002 <= sp <= 0xFE00) || (0xFF82 <= sp <= 0xFFFF)
}

/// Work RAM (echo included) or high RAM.
pub open spec fn is_ram_addr(a: u16) -> bool {
    (0xC000 <= a <= 0xFDFF) || (0xFF80 <= a <= 0xFFFE)
}

/// The shape of work RAM and high RAM that reads and writes there rely on.
pub open spec fn ram_ok(m: MmuState) -> bool {
    &&& m.wram.len() == 0x8000
    &&& m.hram.len() == 127
    &&& 1 <= m.wram_bank <= 7
}

/// A byte written to work RAM or high RAM reads back.
proof fn lemma_bus_ram_write(m: MmuState, addr: u16, v: u8)
    requires
        ram_ok(m),
        is_ram_addr(addr),
    ensures
        bus_read(bus_write(m, addr, v), addr) == v,
        ram_ok(bus_write(m, addr, v)),
{
    reveal(bus_read);
    reveal(bus_write);
}

/// A write to work RAM or high RAM leaves the byte at the next address as it was.
proof fn lemma_bus_ram_write_next(m: MmuState, addr: u16, v: u8)
    requires
        ram_ok(m),
        is_ram_addr(addr),
        addr < 0xFFFF,
        is_ram_addr((addr + 1) as u16),
    ensures
        bus_read(bus_write(m, addr, v), (addr + 1) as u16) == bus_read(m, (addr + 1) as u16),
{
    reveal(bus_read);
    reveal(bus_write);
}

/// One M-cycle of the bus leaves every work RAM and high RAM byte as it was.
pub proof fn lemma_bus_tick_ram(m: MmuState, addr: u16)
    requires
        ram_ok(m),
        is_ram_addr(addr),
    ensures
        bus_read(bus_tick(m), addr) == bus_read(m, addr),
        ram_ok(bus_tick(m)),
{
    reveal(bus_read);
    reveal(bus_tick);
    crate::mmu::lemma_tick_keeps_ram(m, 4);
}

/// POP gives back the word that PUSH stored, and leaves the registers (SP included) as
/// they were before the PUSH, when the stack is in work RAM or high RAM.
pub proof fn lemma_push_pop(m: Machine, v: u16)
    requires
        ram_ok(m.mmu),
        stack_in_ram(m.regs().sp),
    ensures
        m.push(v).pop().1 == v,
        m.push(v).pop().0.regs() == m.regs(),
{
    reveal(Machine::push);
    reveal(Machine::pop);
    reveal(Machine::read);
    reveal(Machine::write);
    reveal(Machine::tick);
    let sp = m.regs().sp;
    let a1 = wadd16(sp, -1);
    let a2 = wadd16(a1, -1);
    assert(a1 == a2 + 1);
    let m0 = m.mmu;
    let w1 = bus_write(m0, a1, hi_byte(v));
    lemma_bus_ram_write(m0, a1, hi_byte(v));
    let t1 = bus_tick(w1);
    lemma_bus_tick_ram(w1, a1);
    let w2 = bus_write(t1, a2, lo_byte(v));
    lemma_bus_ram_write(t1, a2, lo_byte(v));
    lemma_bus_ram_write_next(t1, a2, lo_byte(v));
    let t2 = bus_tick(w2);
    lemma_bus_tick_ram(w2, a2);
    lemma_bus_tick_ram(w2, a1);
    let t3 = bus_tick(t2);
    lemma_bus_tick_ram(t2, a1);
    assert(bus_read(t2, a2) == lo_byte(v));
    assert(bus_read(t3, a1) == hi_byte(v));
    assert(pair(hi_byte(v), lo_byte(v)) == v);
}

impl Cpu {
    pub fn tick(&mut self, mmu: &mut Mmu)
        requires
            old(mmu)@.inv(),
            old(self).cycles <= CYCLE_BOUND,
        ensures
            machine(*final(self), final(mmu)@) == machine(*old(self), old(mmu)@).tick(),
            *final(self) == (Cpu { cycles: (old(self).cycles + 4) as u32, ..*old(self) }),
            final(mmu)@.inv(),
    {
        proof { reveal(Machine::tick); }
        proof { reveal(bus_tick); }
        self.cycles += 4;
        mmu.tick(4);
    }

    pub fn fetch_byte(&mut self, mmu: &mut Mmu) -> (v: u8)
        requires
            old(mmu)@.inv(),
            old(self).cycles <= CYCLE_BOUND,
        ensures
            (machine(*final(self), final(mmu)@), v) == machine(*old(self), old(mmu)@).fetch(),
            *final(self) == (Cpu {
                regs: Registers { pc: wadd16(old(self).regs.pc, 1), ..old(self).regs },
                cycles: (old(self).cycles + 4) as u32,
                ..*old(self)
            }),
            final(mmu)@.inv(),
    {
        proof { reveal(Machine::fetch); }
        proof { reveal(bus_read); }
        let v = mmu.read_byte(self.regs.pc);
        self.regs.pc = self.regs.pc.wrapping_add(1);
        self.tick(mmu);
        v
    }

    pub fn fetch_word(&mut self, mmu: &mut Mmu) -> (v: u16)
        requires
            old(mmu)@.inv(),
            old(self).cycles <= CYCLE_BOUND - 4,
        ensures
            (machine(*final(self), final(mmu)@), v) == machine(*old(self), old(mmu)@).fetch_word(),
            *final(self) == (Cpu {
                regs: Registers { pc: wadd16(old(self).regs.pc, 2), ..old(self).regs },
                cycles: (old(self).cycles + 8) as u32,
                ..*old(self)
            }),
            final(mmu)@.inv(),
    {
        proof { reveal(Machine::fetch_word); }
        let lo = self.fetch_byte(mmu) as u16;
        let hi = self.fetch_byte(mmu) as u16;
        proof { crate::bits::lemma_pair_bits(hi as u8, lo as u8); }
        (hi << 8) | lo
    }

    pub fn read_byte(&mut self, mmu: &mut Mmu, addr: u16) -> (v: u8)
        requires
            old(mmu)@.inv(),
            old(self).cycles <= CYCLE_BOUND,
        ensures
            (machine(*final(self), final(mmu)@), v) == machine(*old(self), old(mmu)@).read(addr),
            *final(self) == (Cpu { cycles: (old(self).cycles + 4) as u32, ..*old(self) }),
            final(mmu)@.inv(),
    {
        proof { reveal(Machine::read); }
        proof { reveal(bus_read); }
        let v = mmu.read_byte(addr);
        self.tick(mmu);
        v
    }

    pub fn write_byte(&mut self, mmu: &mut Mmu, addr: u16, val: u8)
        requires
            old(mmu)@.inv(),
            old(self).cycles <= CYCLE_BOUND,
        ensures
            machine(*final(self), final(mmu)@) == machine(*old(self), old(mmu)@).write(addr, val),
            *final(self) == (Cpu { cycles: (old(self).cycles + 4) as u32, ..*old(self) }),
            final(mmu)@.inv(),
    {
        proof { reveal(Machine::write); }
        proof { reveal(bus_write); }
        mmu.write_byte(addr, val);
        self.tick(mmu);
    }

    pub fn push_u16(&mut self, mmu: &mut Mmu, val: u16)
        requires
            old(mmu)@.inv(),
            old(self).cycles <= CYCLE_BOUND - 4,
        ensures
            machine(*final(self), final(mmu)@) == machine(*old(self), old(mmu)@).push(val),
            *final(self) == (Cpu {
                regs: Registers { sp: wadd16(old(self).regs.sp, -2), ..old(self).regs },
                cycles: (old(self).cycles + 8) as u32,
                ..*old(self)
            }),
            final(mmu)@.inv(),
    {
        proof { reveal(Machine::push); }
        proof { crate::bits::lemma_split_bits(val); }
        self.regs.sp = self.regs.sp.wrapping_sub(1);
        self.write_byte(mmu, self.regs.sp, (val >> 8) as u8);
        self.regs.sp = self.regs.sp.wrapping_sub(1);
        self.write_byte(mmu, self.regs.sp, val as u8);
    }

    pub fn pop_u16(&mut self, mmu: &mut Mmu) -> (v: u16)
        requires
            old(mmu)@.inv(),
            old(self).cycles <= CYCLE_BOUND - 4,
        ensures
            (machine(*final(self), final(mmu)@), v) == machine(*old(self), old(mmu)@).pop(),
            *final(self) == (Cpu {
                regs: Registers { sp: wadd16(old(self).regs.sp, 2), ..old(self).regs },
                cycles: (old(self).cycles + 8) as u32,
                ..*old(self)
            }),
            final(mmu)@.inv(),
    {
        proof { reveal(Machine::pop); }
        let lo = self.read_byte(mmu, self.regs.sp) as u16;
        self.regs.sp = self.regs.sp.wrapping_add(1);
        let hi = self.read_byte(mmu, self.regs.sp) as u16;
        self.regs.sp = self.regs.sp.wrapping_add(1);
        proof { crate::bits::lemma_pair_bits(hi as u8, lo as u8); }
        (hi << 8) | lo
    }

    /// Register operand `r` (6 = the byte at HL; the caller accounts for the access time).
    pub fn get_r8(&self, mmu: &Mmu, r: u8) -> (v: u8)
        requires
            mmu@.inv(),
            r < 8,
        ensures
            v == machine(*self, mmu@).get_r8(r),
    {
        proof { reveal(bus_read); }
        if r == 0 {
            self.regs.b
        } else if r == 1 {
            self.regs.c
        } else if r == 2 {
            self.regs.d
        } else if r == 3 {
            self.regs.e
        } else if r == 4 {
            self.regs.h
        } else if r == 5 {
            self.regs.l
        } else if r == 6 {
            mmu.read_byte(self.regs.hl())
        } else {
            self.regs.a
        }
    }

    pub fn set_r8(&mut self, mmu: &mut Mmu, r: u8, val: u8)
        requires
            old(mmu)@.inv(),
            r < 8,
        ensures
            old(self).regs.flags_clean() ==> final(self).regs.flags_clean(),
            machine(*final(self), final(mmu)@) == machine(*old(self), old(mmu)@).set_r8(r, val),
            final(self).cycles == old(self).cycles,
            final(mmu)@.inv(),
    {
        proof { reveal(bus_write); }
        if r == 0 {
            self.regs.b = val;
        } else if r == 1 {
            self.regs.c = val;
        } else if r == 2 {
            self.regs.d = val;
        } else if r == 3 {
            self.regs.e = val;
        } else if r == 4 {
            self.regs.h = val;
        } else if r == 5 {
            self.regs.l = val;
        } else if r == 6 {
            mmu.write_byte(self.regs.hl(), val);
        } else {
            self.regs.a = val;
        }
    }
}

} // verus!
