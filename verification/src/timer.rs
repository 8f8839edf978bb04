//! Game Boy hardware timer.
//!
//! Registers:
//!   0xFF03 – DIV  (16-bit internal counter upper byte, write resets to 0)
//!   0xFF05 – TIMA (timer counter, increments at TAC-selected rate)
//!   0xFF06 – TMA  (timer modulo, loaded into TIMA on overflow)
//!   0xFF07 – TAC  (timer control: bit 2 = enable, bits 1-0 = clock select)

use vstd::prelude::*;

verus! {

#[derive(Clone, Copy)]
pub struct Timer {
    /// Full 16-bit internal divider counter (DIV register is its upper 8 bits).
    pub internal_div: u16,
    pub tima: u8,
    pub tma: u8,
    pub tac: u8,
    /// Set when TIMA overflows (after the reload delay).
    pub interrupt_requested: bool,
    /// T-cycles left before TIMA is reloaded from TMA after an overflow.
    pub overflow_delay: u8,
}

/// Bit of the internal divider whose falling edge clocks TIMA, for the clock select in TAC.
pub open spec fn spec_tac_bit(tac: u8) -> u8 {
    let sel = tac % 4;
    if sel == 0 {
        9
    } else if sel == 1 {
        3
    } else if sel == 2 {
        5
    } else {
        7
    }
}

/// Bit `pos` of `div`.
pub open spec fn div_bit(div: u16, pos: u8) -> bool {
    (div >> pos) & 1 != 0
}

impl Timer {
    pub open spec fn boot() -> Timer {
        Timer {
            internal_div: 0xABCC,
            tima: 0,
            tma: 0,
            tac: 0,
            interrupt_requested: false,
            overflow_delay: 0,
        }
    }

    pub open spec fn enabled(self) -> bool {
        self.tac & 0x04 != 0
    }

    /// TIMA incremented once; on overflow it reads 0 and the reload is scheduled 4 T-cycles later.
    pub open spec fn inc_tima(self) -> Timer {
        if self.tima == 255 {
            Timer { tima: 0, overflow_delay: 4, ..self }
        } else {
            Timer { tima: (self.tima + 1) as u8, ..self }
        }
    }

    /// The pending reload counts down; when it reaches zero TIMA is loaded from TMA and the
    /// interrupt is requested.
    pub open spec fn after_delay(self) -> Timer {
        if self.overflow_delay > 0 {
            if self.overflow_delay == 1 {
                Timer { overflow_delay: 0, tima: self.tma, interrupt_requested: true, ..self }
            } else {
                Timer { overflow_delay: (self.overflow_delay - 1) as u8, ..self }
            }
        } else {
            self
        }
    }

    /// One T-cycle: reload countdown, divider increment, TIMA clocked on the falling edge of
    /// the selected divider bit while the timer is enabled.
    pub open spec fn spec_tick(self) -> Timer {
        let t = self.after_delay();
        let div = (if t.internal_div == 0xFFFF { 0 } else { t.internal_div + 1 }) as u16;
        let t2 = Timer { internal_div: div, ..t };
        if t.enabled() && div_bit(t.internal_div, spec_tac_bit(t.tac)) && !div_bit(div, spec_tac_bit(t.tac)) {
            t2.inc_tima()
        } else {
            t2
        }
    }

    /// The timer after `n` T-cycles.
    pub open spec fn steps(self, n: nat) -> Timer
        decreases n,
    {
        if n == 0 {
            self
        } else {
            self.steps((n - 1) as nat).spec_tick()
        }
    }

    pub open spec fn spec_read(self, addr: u16) -> u8 {
        if addr == 0xFF03 {
            (self.internal_div / 256) as u8
        } else if addr == 0xFF05 {
            self.tima
        } else if addr == 0xFF06 {
            self.tma
        } else if addr == 0xFF07 {
            self.tac | 0xF8
        } else {
            0xFF
        }
    }

    pub open spec fn spec_write(self, addr: u16, value: u8) -> Timer {
        if addr == 0xFF03 {
            // Resetting the divider is a falling edge when the selected bit was set.
            let t = Timer { internal_div: 0, ..self };
            if self.enabled() && div_bit(self.internal_div, spec_tac_bit(self.tac)) {
                t.inc_tima()
            } else {
                t
            }
        } else if addr == 0xFF05 {
            // Writing TIMA during the reload delay cancels the reload.
            Timer { tima: value, overflow_delay: 0, ..self }
        } else if addr == 0xFF06 {
            Timer { tma: value, ..self }
        } else if addr == 0xFF07 {
            let old_on = self.enabled() && div_bit(self.internal_div, spec_tac_bit(self.tac));
            let new_on = value & 0x04 != 0 && div_bit(self.internal_div, spec_tac_bit(value));
            let t = Timer { tac: value & 0x07, ..self };
            if old_on && !new_on {
                t.inc_tima()
            } else {
                t
            }
        } else {
            self
        }
    }

    pub fn new() -> (r: Self)
        ensures
            r == Timer::boot(),
    {
        Timer {
            internal_div: 0xABCC,
            tima: 0,
            tma: 0,
            tac: 0,
            interrupt_requested: false,
            overflow_delay: 0,
        }
    }

    /// Advance the timer by `t_cycles` T-states.
    pub fn step(&mut self, t_cycles: u32)
        ensures
            *final(self) == old(self).steps(t_cycles as nat),
    {
        let mut i: u32 = 0;
        while i < t_cycles
            invariant
                i <= t_cycles,
                *self == old(self).steps(i as nat),
            decreases t_cycles - i,
        {
            self.tick();
            i += 1;
        }
    }

    fn increment_tima(&mut self)
        ensures
            *final(self) == old(self).inc_tima(),
    {
        if self.tima == 255 {
            self.tima = 0;
            self.overflow_delay = 4;
        } else {
            self.tima = self.tima + 1;
        }
    }

    pub fn tick(&mut self)
        ensures
            *final(self) == old(self).spec_tick(),
    {
        if self.overflow_delay > 0 {
            self.overflow_delay -= 1;
            if self.overflow_delay == 0 {
                self.tima = self.tma;
                self.interrupt_requested = true;
            }
        }
        let old_div = self.internal_div;
        self.internal_div = self.internal_div.wrapping_add(1);
        if self.tac & 0x04 != 0 {
            let bit_pos = Self::tac_bit(self.tac);
            let old_bit = (old_div >> bit_pos) & 1;
            let new_bit = (self.internal_div >> bit_pos) & 1;
            if old_bit != 0 && new_bit == 0 {
                self.increment_tima();
            }
        }
    }

    /// The bit of the internal divider that controls TIMA increments.
    pub fn tac_bit(tac: u8) -> (r: u8)
        ensures
            r == spec_tac_bit(tac),
    {
        let sel = tac % 4;
        if sel == 0 {
            9
        } else if sel == 1 {
            3
        } else if sel == 2 {
            5
        } else {
            7
        }
    }

    pub fn read(&self, addr: u16) -> (r: u8)
        ensures
            r == self.spec_read(addr),
    {
        if addr == 0xFF03 {
            (self.internal_div / 256) as u8
        } else if addr == 0xFF05 {
            self.tima
        } else if addr == 0xFF06 {
            self.tma
        } else if addr == 0xFF07 {
            self.tac | 0xF8
        } else {
            0xFF
        }
    }

    pub fn write(&mut self, addr: u16, value: u8)
        ensures
            *final(self) == old(self).spec_write(addr, value),
    {
        if addr == 0xFF03 {
            let bit_pos = Self::tac_bit(self.tac);
            let old_bit = (self.internal_div >> bit_pos) & 1;
            self.internal_div = 0;
            if self.tac & 0x04 != 0 && old_bit != 0 {
                self.increment_tima();
            }
        } else if addr == 0xFF05 {
            self.overflow_delay = 0;
            self.tima = value;
        } else if addr == 0xFF06 {
            self.tma = value;
        } else if addr == 0xFF07 {
            let old_enable = self.tac & 0x04 != 0;
            let new_enable = value & 0x04 != 0;
            let old_bit_pos = Self::tac_bit(self.tac);
            let new_bit_pos = Self::tac_bit(value);
            let old_bit = (self.internal_div >> old_bit_pos) & 1;
            let new_bit = (self.internal_div >> new_bit_pos) & 1;
            let falling_edge = (old_enable && old_bit != 0 && !new_enable) || (old_enable && old_bit
                != 0 && new_bit == 0);
            self.tac = value & 0x07;
            if falling_edge {
                self.increment_tima();
            }
        }
    }
}

impl Default for Timer {
    fn default() -> (r: Self)
        ensures
            r == Timer::boot(),
    {
        Self::new()
    }
}

/// Writing DIV resets the divider: DIV reads 0 afterwards, whatever was written.
pub proof fn lemma_div_write_resets(t: Timer, v: u8)
    ensures
        t.spec_write(0xFF03, v).spec_read(0xFF03) == 0,
        t.spec_write(0xFF03, v).internal_div == 0,
{
}

/// With the timer disabled and no reload pending, stepping only advances the divider:
/// TIMA, TMA and TAC keep their values and no interrupt is raised.
pub proof fn lemma_disabled_timer_keeps_tima(t: Timer, n: nat)
    requires
        !t.enabled(),
        t.overflow_delay == 0,
    ensures
        t.steps(n).tima == t.tima,
        t.steps(n).tma == t.tma,
        t.steps(n).tac == t.tac,
        t.steps(n).overflow_delay == 0,
        t.steps(n).interrupt_requested == t.interrupt_requested,
        t.steps(n).internal_div == (t.internal_div + n) % 65536,
    decreases n,
{
    if n > 0 {
        lemma_disabled_timer_keeps_tima(t, (n - 1) as nat);
    }
}

} // verus!
