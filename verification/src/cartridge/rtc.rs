//! MBC3 real-time clock.

use vstd::prelude::*;
use crate::bits::lemma_byte_ops;

verus! {

/// T-cycles per second of the clock input.
pub const T_CYCLES_PER_SECOND: u32 = 4_194_304;

#[derive(Clone, Copy)]
pub struct Rtc {
    pub seconds: u8,
    pub minutes: u8,
    pub hours: u8,
    pub days_lo: u8,
    /// bit 0 = day counter MSB, bit 6 = halt, bit 7 = day counter carry.
    pub days_hi: u8,
    /// Register values frozen by the last latch.
    pub latched: Option<(u8, u8, u8, u8, u8)>,
    /// T-cycles accumulated towards the next second.
    pub sub_seconds: u32,
}

impl Rtc {
    pub open spec fn inv(self) -> bool {
        self.sub_seconds < T_CYCLES_PER_SECOND
    }

    pub open spec fn halted(self) -> bool {
        self.days_hi & 0x40 != 0
    }

    /// The 9-bit day counter after one more day, with carry into bit 7 of DH on overflow.
    pub open spec fn next_day(self) -> Rtc {
        let days = self.days_lo + (self.days_hi % 2) * 256 + 1;
        if days >= 512 {
            Rtc { days_lo: 0, days_hi: (self.days_hi | 0x80) & !0x01u8, ..self }
        } else {
            Rtc {
                days_lo: (days % 256) as u8,
                days_hi: if days >= 256 { self.days_hi | 0x01 } else { self.days_hi & !0x01u8 },
                ..self
            }
        }
    }

    /// The clock one second later: seconds, minutes and hours roll over at 60, 60 and 24.
    pub open spec fn next_second(self) -> Rtc {
        let s = (self.seconds + 1) % 256;
        if s < 60 {
            Rtc { seconds: s as u8, ..self }
        } else {
            let m = (self.minutes + 1) % 256;
            if m < 60 {
                Rtc { seconds: 0, minutes: m as u8, ..self }
            } else {
                let h = (self.hours + 1) % 256;
                if h < 24 {
                    Rtc { seconds: 0, minutes: 0, hours: h as u8, ..self }
                } else {
                    Rtc { seconds: 0, minutes: 0, hours: 0, ..self }.next_day()
                }
            }
        }
    }

    /// The clock `k` seconds later.
    pub open spec fn advance(self, k: nat) -> Rtc
        decreases k,
    {
        if k == 0 { self } else { self.advance((k - 1) as nat).next_second() }
    }

    /// The clock after `t` T-cycles: nothing moves while halted; otherwise whole seconds are
    /// counted and the remainder is kept.
    pub open spec fn spec_tick(self, t: u32) -> Rtc {
        if self.halted() {
            self
        } else {
            let total = self.sub_seconds + t;
            Rtc {
                sub_seconds: (total % (T_CYCLES_PER_SECOND as int)) as u32,
                ..self.advance((total / (T_CYCLES_PER_SECOND as int)) as nat)
            }
        }
    }

    pub open spec fn spec_read_reg(self, reg: u8) -> u8 {
        let (s, m, h, dl, dh) = match self.latched {
            Some(l) => l,
            None => (self.seconds, self.minutes, self.hours, self.days_lo, self.days_hi),
        };
        if reg == 0x08 {
            s
        } else if reg == 0x09 {
            m
        } else if reg == 0x0A {
            h
        } else if reg == 0x0B {
            dl
        } else if reg == 0x0C {
            dh
        } else {
            0xFF
        }
    }

    pub open spec fn spec_write_reg(self, reg: u8, value: u8) -> Rtc {
        if reg == 0x08 {
            Rtc { seconds: value & 0x3F, ..self }
        } else if reg == 0x09 {
            Rtc { minutes: value & 0x3F, ..self }
        } else if reg == 0x0A {
            Rtc { hours: value & 0x1F, ..self }
        } else if reg == 0x0B {
            Rtc { days_lo: value, ..self }
        } else if reg == 0x0C {
            Rtc { days_hi: value & 0xC1, ..self }
        } else {
            self
        }
    }

    pub open spec fn spec_latch(self) -> Rtc {
        Rtc {
            latched: Some((self.seconds, self.minutes, self.hours, self.days_lo, self.days_hi)),
            ..self
        }
    }

    pub open spec fn zero() -> Rtc {
        Rtc {
            seconds: 0,
            minutes: 0,
            hours: 0,
            days_lo: 0,
            days_hi: 0,
            latched: None,
            sub_seconds: 0,
        }
    }

    pub fn new() -> (r: Self)
        ensures
            r == Rtc::zero(),
    {
        Rtc {
            seconds: 0,
            minutes: 0,
            hours: 0,
            days_lo: 0,
            days_hi: 0,
            latched: None,
            sub_seconds: 0,
        }
    }

    fn one_second(&mut self)
        ensures
            *final(self) == old(self).next_second(),
    {
        self.seconds = self.seconds.wrapping_add(1);
        if self.seconds >= 60 {
            self.seconds = 0;
            self.minutes = self.minutes.wrapping_add(1);
            if self.minutes >= 60 {
                self.minutes = 0;
                self.hours = self.hours.wrapping_add(1);
                if self.hours >= 24 {
                    self.hours = 0;
                    proof { lemma_byte_ops(self.days_hi); }
                    let days: u16 = (self.days_lo as u16) + ((self.days_hi & 0x01) as u16) * 256 + 1;
                    self.days_lo = (days % 256) as u8;
                    if days >= 256 {
                        self.days_hi |= 0x01;
                    } else {
                        self.days_hi &= !0x01u8;
                    }
                    if days >= 512 {
                        self.days_hi |= 0x80;
                        self.days_lo = 0;
                        self.days_hi &= !0x01u8;
                    }
                    proof { lemma_rtc_day_bits(old(self).days_hi); }
                }
            }
        }
    }

    /// Advance the clock by `t_cycles` T-states.
    pub fn tick(&mut self, t_cycles: u32)
        requires
            old(self).inv(),
        ensures
            *final(self) == old(self).spec_tick(t_cycles),
            final(self).inv(),
    {
        if self.days_hi & 0x40 != 0 {
            return;
        }
        let ghost start = *self;
        let ghost total: int = self.sub_seconds + t_cycles;
        let mut sub: u64 = self.sub_seconds as u64 + t_cycles as u64;
        let mut done: u64 = 0;
        while sub >= T_CYCLES_PER_SECOND as u64
            invariant
                total == start.sub_seconds + t_cycles,
                sub + done * (T_CYCLES_PER_SECOND as int) == total,
                total < 0x2_0000_0000,
                (Rtc { sub_seconds: start.sub_seconds, ..*self }) == (Rtc { sub_seconds: start.sub_seconds, ..start.advance(done as nat) }),
            decreases sub,
        {
            sub -= T_CYCLES_PER_SECOND as u64;
            let ghost before = *self;
            self.one_second();
            assert((Rtc { sub_seconds: start.sub_seconds, ..before.next_second() }) == (Rtc { sub_seconds: start.sub_seconds, ..start.advance((done + 1) as nat) }));
            done += 1;
        }
        self.sub_seconds = sub as u32;
        proof {
            vstd::arithmetic::div_mod::lemma_fundamental_div_mod_converse(
                total,
                T_CYCLES_PER_SECOND as int,
                done as int,
                sub as int,
            );
        }
    }

    pub fn latch(&mut self)
        ensures
            *final(self) == old(self).spec_latch(),
    {
        self.latched = Some((self.seconds, self.minutes, self.hours, self.days_lo, self.days_hi));
    }

    pub fn read_reg(&self, reg: u8) -> (r: u8)
        ensures
            r == self.spec_read_reg(reg),
    {
        let (s, m, h, dl, dh) = match self.latched {
            Some(l) => l,
            None => (self.seconds, self.minutes, self.hours, self.days_lo, self.days_hi),
        };
        if reg == 0x08 {
            s
        } else if reg == 0x09 {
            m
        } else if reg == 0x0A {
            h
        } else if reg == 0x0B {
            dl
        } else if reg == 0x0C {
            dh
        } else {
            0xFF
        }
    }

    pub fn write_reg(&mut self, reg: u8, value: u8)
        ensures
            *final(self) == old(self).spec_write_reg(reg, value),
    {
        if reg == 0x08 {
            self.seconds = value & 0x3F;
        } else if reg == 0x09 {
            self.minutes = value & 0x3F;
        } else if reg == 0x0A {
            self.hours = value & 0x1F;
        } else if reg == 0x0B {
            self.days_lo = value;
        } else if reg == 0x0C {
            self.days_hi = value & 0xC1;
        }
    }
}

proof fn lemma_rtc_day_bits(x: u8)
    by (bit_vector)
    ensures
        ((x | 0x01) | 0x80) & !0x01u8 == (x | 0x80) & !0x01u8,
{
}

/// Advancing the clock never touches the latched registers or the halt flag.
proof fn lemma_advance_keeps_latch(r: Rtc, k: nat)
    ensures
        r.advance(k).latched == r.latched,
    decreases k,
{
    if k > 0 {
        lemma_advance_keeps_latch(r, (k - 1) as nat);
    }
}

/// Once latched, the clock registers read the same values however much time passes.
pub proof fn lemma_latched_reads_stable(r: Rtc, t: u32, reg: u8)
    requires
        r.latched is Some,
    ensures
        r.spec_tick(t).spec_read_reg(reg) == r.spec_read_reg(reg),
{
    if !r.halted() {
        let total = r.sub_seconds + t;
        lemma_advance_keeps_latch(r, (total / (T_CYCLES_PER_SECOND as int)) as nat);
    }
}

/// Latching freezes the current time: the clock registers then read the live values.
pub proof fn lemma_latch_reads_live(r: Rtc, reg: u8)
    ensures
        r.spec_latch().spec_read_reg(reg) == (Rtc { latched: None, ..r }).spec_read_reg(reg),
{
}

} // verus!
