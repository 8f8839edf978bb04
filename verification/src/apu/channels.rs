//! Sound channel building blocks and the four channels: pulse with sweep, pulse, wave
//! and noise.

use vstd::prelude::*;

verus! {

/// Duty waveforms: the output bit for each of the 8 duty steps.
pub open spec fn duty_bit(duty: u8, pos: usize) -> u8 {
    if duty == 0 {
        if pos == 7 { 1 } else { 0 }
    } else if duty == 1 {
        if pos == 0 || pos == 7 { 1 } else { 0 }
    } else if duty == 2 {
        if pos == 0 || pos >= 5 { 1 } else { 0 }
    } else {
        if 1 <= pos <= 6 { 1 } else { 0 }
    }
}

pub fn duty_table(duty: u8, pos: usize) -> (r: u8)
    ensures
        r == duty_bit(duty, pos),
{
    if duty == 0 {
        if pos == 7 { 1 } else { 0 }
    } else if duty == 1 {
        if pos == 0 || pos == 7 { 1 } else { 0 }
    } else if duty == 2 {
        if pos == 0 || pos >= 5 { 1 } else { 0 }
    } else {
        if 1 <= pos && pos <= 6 { 1 } else { 0 }
    }
}

// ─── Length counter ─────────────────────────────────────────────────────────

#[derive(Clone, Copy)]
pub struct LengthCounter {
    pub counter: u32,
    pub enabled: bool,
}

impl LengthCounter {
    pub open spec fn zero() -> LengthCounter {
        LengthCounter { counter: 0, enabled: false }
    }

    /// One length clock: an enabled non-zero counter counts down.
    pub open spec fn spec_clock(self) -> LengthCounter {
        if self.enabled && self.counter > 0 {
            LengthCounter { counter: (self.counter - 1) as u32, ..self }
        } else {
            self
        }
    }

    /// Loading the length register: `max - value`, where 0 means the full `max`.
    pub open spec fn spec_load(self, max: u32, value: u32) -> LengthCounter {
        LengthCounter { counter: if value == 0 { max } else { (max - value) as u32 }, ..self }
    }

    pub fn new() -> (r: Self)
        ensures
            r == LengthCounter::zero(),
    {
        LengthCounter { counter: 0, enabled: false }
    }

    /// Returns whether the counter has run out.
    pub fn clock(&mut self) -> (expired: bool)
        ensures
            *final(self) == old(self).spec_clock(),
            expired == (final(self).counter == 0),
    {
        if self.enabled && self.counter > 0 {
            self.counter -= 1;
        }
        self.counter == 0
    }

    pub fn load(&mut self, max: u32, value: u32)
        requires
            value <= max,
        ensures
            *final(self) == old(self).spec_load(max, value),
    {
        self.counter = if value == 0 { max } else { max - value };
    }
}

// ─── Volume envelope ────────────────────────────────────────────────────────

#[derive(Clone, Copy)]
pub struct VolumeEnvelope {
    pub volume: u8,
    pub initial: u8,
    pub increase: bool,
    pub period: u8,
    pub timer: u8,
}

impl VolumeEnvelope {
    pub open spec fn zero() -> VolumeEnvelope {
        VolumeEnvelope { volume: 0, initial: 0, increase: false, period: 0, timer: 0 }
    }

    pub open spec fn inv(self) -> bool {
        self.volume <= 15 && self.initial <= 15
    }

    /// One envelope clock: every `period` clocks the volume steps towards 15 or 0.
    pub open spec fn spec_clock(self) -> VolumeEnvelope {
        if self.period == 0 {
            self
        } else {
            let timer = if self.timer > 0 { (self.timer - 1) as u8 } else { 0u8 };
            if timer == 0 {
                let volume = if self.increase && self.volume < 15 {
                    (self.volume + 1) as u8
                } else if !self.increase && self.volume > 0 {
                    (self.volume - 1) as u8
                } else {
                    self.volume
                };
                VolumeEnvelope { timer: self.period, volume, ..self }
            } else {
                VolumeEnvelope { timer, ..self }
            }
        }
    }

    pub open spec fn spec_trigger(self) -> VolumeEnvelope {
        VolumeEnvelope { volume: self.initial, timer: if self.period == 0 { 8 } else { self.period }, ..self }
    }

    pub fn new() -> (r: Self)
        ensures
            r == VolumeEnvelope::zero(),
    {
        VolumeEnvelope { volume: 0, initial: 0, increase: false, period: 0, timer: 0 }
    }

    pub fn clock(&mut self)
        ensures
            *final(self) == old(self).spec_clock(),
    {
        if self.period == 0 {
            return;
        }
        if self.timer > 0 {
            self.timer -= 1;
        }
        if self.timer == 0 {
            self.timer = self.period;
            if self.increase && self.volume < 15 {
                self.volume += 1;
            } else if !self.increase && self.volume > 0 {
                self.volume -= 1;
            }
        }
    }

    pub fn trigger(&mut self)
        ensures
            *final(self) == old(self).spec_trigger(),
    {
        self.volume = self.initial;
        self.timer = if self.period == 0 { 8 } else { self.period };
    }
}

/// The envelope keeps the volume within 0..=15.
pub proof fn lemma_envelope_volume_bounded(e: VolumeEnvelope)
    requires
        e.inv(),
    ensures
        e.spec_clock().inv(),
        e.spec_trigger().inv(),
{
}

// ─── Sweep ──────────────────────────────────────────────────────────────────

#[derive(Clone, Copy)]
pub struct Sweep {
    pub freq: u16,
    pub period: u8,
    pub negate: bool,
    pub shift: u8,
    pub timer: u8,
    pub enabled: bool,
    pub shadow: u16,
}

impl Sweep {
    pub open spec fn zero() -> Sweep {
        Sweep { freq: 0, period: 0, negate: false, shift: 0, timer: 0, enabled: false, shadow: 0 }
    }

    pub open spec fn inv(self) -> bool {
        self.shadow <= 2047 && self.freq <= 2047 && self.shift <= 7
    }

    pub open spec fn spec_trigger(self, freq: u16) -> Sweep {
        Sweep {
            shadow: freq,
            timer: if self.period == 0 { 8 } else { self.period },
            enabled: self.period != 0 || self.shift != 0,
            ..self
        }
    }

    /// The next frequency: shadow ± shadow >> shift; None when it would exceed 2047.
    pub open spec fn spec_calculate(self) -> Option<u16> {
        let delta = self.shadow >> self.shift;
        let new_freq: int = if self.negate { self.shadow - delta } else { self.shadow + delta };
        if new_freq > 2047 { None } else { Some(new_freq as u16) }
    }

    /// One sweep clock: the new state and the frequency that the channel gets (None disables it).
    pub open spec fn spec_clock(self) -> (Sweep, Option<u16>) {
        let timer = if self.timer > 0 { (self.timer - 1) as u8 } else { 0u8 };
        if timer == 0 {
            let s = Sweep { timer: if self.period == 0 { 8 } else { self.period }, ..self };
            if self.enabled && self.period != 0 {
                match s.spec_calculate() {
                    Some(f) => (Sweep { shadow: f, freq: f, ..s }, Some(f)),
                    None => (s, None),
                }
            } else {
                (s, Some(self.freq))
            }
        } else {
            (Sweep { timer, ..self }, Some(self.freq))
        }
    }

    pub fn new() -> (r: Self)
        ensures
            r == Sweep::zero(),
    {
        Sweep { freq: 0, period: 0, negate: false, shift: 0, timer: 0, enabled: false, shadow: 0 }
    }

    pub fn trigger(&mut self, freq: u16)
        ensures
            *final(self) == old(self).spec_trigger(freq),
    {
        self.shadow = freq;
        self.timer = if self.period == 0 { 8 } else { self.period };
        self.enabled = self.period != 0 || self.shift != 0;
    }

    pub fn calculate(&self) -> (r: Option<u16>)
        requires
            self.inv(),
        ensures
            r == self.spec_calculate(),
    {
        let delta = self.shadow >> self.shift;
        proof { lemma_shift_le(self.shadow, self.shift); }
        let new_freq = if self.negate { self.shadow - delta } else { self.shadow + delta };
        if new_freq > 2047 { None } else { Some(new_freq) }
    }

    pub fn clock(&mut self) -> (r: Option<u16>)
        requires
            old(self).inv(),
        ensures
            *final(self) == old(self).spec_clock().0,
            r == old(self).spec_clock().1,
            final(self).inv(),
    {
        proof { lemma_shift_le(self.shadow, self.shift); }
        if self.timer > 0 {
            self.timer -= 1;
        }
        if self.timer == 0 {
            self.timer = if self.period == 0 { 8 } else { self.period };
            if self.enabled && self.period != 0 {
                return match self.calculate() {
                    Some(f) => {
                        self.shadow = f;
                        self.freq = f;
                        Some(f)
                    },
                    None => None,
                };
            }
        }
        Some(self.freq)
    }
}

proof fn lemma_shift_le(x: u16, s: u8)
    by (bit_vector)
    requires
        s <= 7,
    ensures
        x >> s <= x,
{
}

/// A computed sweep frequency never exceeds 2047, so the channel frequency stays 11-bit.
pub proof fn lemma_sweep_keeps_freq(s: Sweep)
    requires
        s.inv(),
    ensures
        s.spec_clock().0.inv(),
        s.spec_clock().1 matches Some(f) ==> f <= 2047,
{
    lemma_shift_le(s.shadow, s.shift);
}

// ─── Channel 1 (Pulse + Sweep) and Channel 2 (Pulse) ────────────────────────

#[derive(Clone, Copy)]
pub struct Channel1 {
    pub enabled: bool,
    pub dac_on: bool,
    pub freq: u16,
    pub freq_timer: u32,
    pub duty: u8,
    pub duty_pos: usize,
    pub length: LengthCounter,
    pub envelope: VolumeEnvelope,
    pub sweep: Sweep,
    pub nr10: u8,
    pub nr11: u8,
    pub nr12: u8,
    pub nr13: u8,
    pub nr14: u8,
}

/// Frequency timer period of a pulse channel (T-cycles per duty step).
pub open spec fn pulse_period(freq: u16) -> int {
    (2048 - freq) * 4
}

/// One chunk of a channel's frequency timer: the cycles up to the next step (or all that
/// remain), the new timer value, and whether the waveform advanced. `reload_rest` selects
/// what a timer at zero reloads to after the chunk: `period - chunk` (channel 1) or
/// `period` (channels 2-4).
pub open spec fn timer_chunk(timer: u32, period: int, remaining: int, reload_rest: bool) -> (int, int, bool) {
    let to_next = if timer == 0 { period } else { timer as int };
    let tick = if remaining < to_next { remaining } else { to_next };
    let t1 = if timer >= tick { timer - tick } else if reload_rest { period - (tick - timer) } else { period };
    if t1 == 0 { (tick, period, true) } else { (tick, t1, false) }
}

impl Channel1 {
    pub open spec fn zero() -> Channel1 {
        Channel1 {
            enabled: false,
            dac_on: false,
            freq: 0,
            freq_timer: 0,
            duty: 0,
            duty_pos: 0,
            length: LengthCounter::zero(),
            envelope: VolumeEnvelope::zero(),
            sweep: Sweep::zero(),
            nr10: 0,
            nr11: 0,
            nr12: 0,
            nr13: 0,
            nr14: 0,
        }
    }

    pub open spec fn inv(self) -> bool {
        &&& self.freq <= 2047
        &&& self.duty <= 3
        &&& self.duty_pos < 8
        &&& self.envelope.inv()
        &&& self.sweep.inv()
        &&& self.dac_on == (self.nr12 & 0xF8 != 0)
        &&& self.envelope.initial == (self.nr12 >> 4) & 0x0F
        &&& self.envelope.increase == (self.nr12 & 0x08 != 0)
        &&& self.envelope.period == self.nr12 & 0x07
    }

    /// The channel's frequency timer run for `remaining` T-cycles, chunk by chunk.
    pub open spec fn run(self, remaining: int) -> Channel1
        decreases remaining,
    {
        let period = pulse_period(self.freq);
        if remaining <= 0 || period <= 0 {
            self
        } else {
            let (tick, t, adv) = timer_chunk(self.freq_timer, period, remaining, true);
            let c = Channel1 {
                freq_timer: t as u32,
                duty_pos: if adv { ((self.duty_pos + 1) % 8) as usize } else { self.duty_pos },
                ..self
            };
            if tick <= 0 { self } else { c.run(remaining - tick) }
        }
    }

    pub open spec fn spec_step(self, t: u32) -> Channel1 {
        if !self.enabled { self } else { self.run(t as int) }
    }

    /// Current output level 0..=15 (0 when silent).
    pub open spec fn spec_level(self) -> u8 {
        if !self.enabled || !self.dac_on {
            0
        } else if duty_bit(self.duty, self.duty_pos) == 1 {
            self.envelope.volume
        } else {
            0
        }
    }

    pub open spec fn spec_trigger(self) -> Channel1 {
        let c = Channel1 {
            enabled: self.dac_on,
            length: if self.length.counter == 0 { LengthCounter { counter: 64, ..self.length } } else { self.length },
            freq_timer: pulse_period(self.freq) as u32,
            envelope: self.envelope.spec_trigger(),
            sweep: self.sweep.spec_trigger(self.freq),
            ..self
        };
        if c.sweep.shift != 0 && c.sweep.spec_calculate() is None {
            Channel1 { enabled: false, ..c }
        } else {
            c
        }
    }

    pub open spec fn spec_write(self, addr: u16, value: u8) -> Channel1 {
        if addr == 0xFF10 {
            Channel1 {
                nr10: value,
                sweep: Sweep { period: (value >> 4) & 0x07, negate: value & 0x08 != 0, shift: value & 0x07, ..self.sweep },
                ..self
            }
        } else if addr == 0xFF11 {
            Channel1 { nr11: value, duty: (value >> 6) & 0x03, length: self.length.spec_load(64, (value & 0x3F) as u32), ..self }
        } else if addr == 0xFF12 {
            let dac_on = value & 0xF8 != 0;
            Channel1 {
                nr12: value,
                envelope: VolumeEnvelope {
                    initial: (value >> 4) & 0x0F,
                    increase: value & 0x08 != 0,
                    period: value & 0x07,
                    ..self.envelope
                },
                dac_on,
                enabled: if !dac_on { false } else { self.enabled },
                ..self
            }
        } else if addr == 0xFF13 {
            Channel1 { nr13: value, freq: (self.freq & 0x700) | (value as u16), ..self }
        } else if addr == 0xFF14 {
            let c = Channel1 {
                nr14: value,
                freq: (self.freq & 0xFF) | (((value as u16) & 0x07) << 8),
                length: LengthCounter { enabled: value & 0x40 != 0, ..self.length },
                ..self
            };
            if value & 0x80 != 0 { c.spec_trigger() } else { c }
        } else {
            self
        }
    }

    pub open spec fn spec_read(self, addr: u16) -> u8 {
        if addr == 0xFF10 {
            self.nr10 | 0x80
        } else if addr == 0xFF11 {
            self.nr11 | 0x3F
        } else if addr == 0xFF12 {
            self.nr12
        } else if addr == 0xFF14 {
            self.nr14 | 0xBF
        } else {
            0xFF
        }
    }

    pub fn new() -> (r: Self)
        ensures
            r == Channel1::zero(),
    {
        Channel1 {
            enabled: false,
            dac_on: false,
            freq: 0,
            freq_timer: 0,
            duty: 0,
            duty_pos: 0,
            length: LengthCounter::new(),
            envelope: VolumeEnvelope::new(),
            sweep: Sweep::new(),
            nr10: 0,
            nr11: 0,
            nr12: 0,
            nr13: 0,
            nr14: 0,
        }
    }

    pub fn level(&self) -> (r: u8)
        ensures
            r == self.spec_level(),
    {
        if !self.enabled || !self.dac_on {
            return 0;
        }
        if duty_table(self.duty, self.duty_pos) == 1 { self.envelope.volume } else { 0 }
    }

    pub fn step(&mut self, t_cycles: u32)
        requires
            old(self).inv(),
        ensures
            *final(self) == old(self).spec_step(t_cycles),
            final(self).inv(),
    {
        if !self.enabled {
            return;
        }
        let period: u32 = (2048 - self.freq as u32) * 4;
        if period == 0 {
            return;
        }
        let mut remaining = t_cycles;
        while remaining > 0
            invariant
                self.inv(),
                period == pulse_period(self.freq),
                self.run(remaining as int) == old(self).run(t_cycles as int),
            decreases remaining,
        {
            let to_next = if self.freq_timer == 0 { period } else { self.freq_timer };
            let tick = if remaining < to_next { remaining } else { to_next };
            remaining -= tick;
            if self.freq_timer >= tick {
                self.freq_timer -= tick;
            } else {
                self.freq_timer = period - (tick - self.freq_timer);
            }
            if self.freq_timer == 0 {
                self.duty_pos = (self.duty_pos + 1) % 8;
                self.freq_timer = period;
            }
        }
    }

    pub fn trigger(&mut self)
        requires
            old(self).inv(),
        ensures
            *final(self) == old(self).spec_trigger(),
            final(self).inv(),
    {
        self.enabled = self.dac_on;
        if self.length.counter == 0 {
            self.length.counter = 64;
        }
        self.freq_timer = (2048 - self.freq as u32) * 4;
        self.envelope.trigger();
        self.sweep.trigger(self.freq);
        if self.sweep.shift != 0 {
            if self.sweep.calculate().is_none() {
                self.enabled = false;
            }
        }
    }

    pub fn write(&mut self, addr: u16, value: u8)
        requires
            old(self).inv(),
        ensures
            *final(self) == old(self).spec_write(addr, value),
            final(self).inv(),
    {
        proof { lemma_reg_fields(self.freq, value); }
        if addr == 0xFF10 {
            self.nr10 = value;
            self.sweep.period = (value >> 4) & 0x07;
            self.sweep.negate = value & 0x08 != 0;
            self.sweep.shift = value & 0x07;
        } else if addr == 0xFF11 {
            self.nr11 = value;
            self.duty = (value >> 6) & 0x03;
            self.length.load(64, (value & 0x3F) as u32);
        } else if addr == 0xFF12 {
            self.nr12 = value;
            self.envelope.initial = (value >> 4) & 0x0F;
            self.envelope.increase = value & 0x08 != 0;
            self.envelope.period = value & 0x07;
            self.dac_on = value & 0xF8 != 0;
            if !self.dac_on {
                self.enabled = false;
            }
        } else if addr == 0xFF13 {
            self.nr13 = value;
            self.freq = (self.freq & 0x700) | (value as u16);
        } else if addr == 0xFF14 {
            self.nr14 = value;
            self.freq = (self.freq & 0xFF) | (((value as u16) & 0x07) << 8);
            self.length.enabled = value & 0x40 != 0;
            if value & 0x80 != 0 {
                self.trigger();
            }
        }
    }

    pub fn read(&self, addr: u16) -> (r: u8)
        ensures
            r == self.spec_read(addr),
    {
        if addr == 0xFF10 {
            self.nr10 | 0x80
        } else if addr == 0xFF11 {
            self.nr11 | 0x3F
        } else if addr == 0xFF12 {
            self.nr12
        } else if addr == 0xFF14 {
            self.nr14 | 0xBF
        } else {
            0xFF
        }
    }
}


#[derive(Clone, Copy)]
pub struct Channel2 {
    pub enabled: bool,
    pub dac_on: bool,
    pub freq: u16,
    pub freq_timer: u32,
    pub duty: u8,
    pub duty_pos: usize,
    pub length: LengthCounter,
    pub envelope: VolumeEnvelope,
    pub nr21: u8,
    pub nr22: u8,
    pub nr23: u8,
    pub nr24: u8,
}

impl Channel2 {
    pub open spec fn zero() -> Channel2 {
        Channel2 {
            enabled: false,
            dac_on: false,
            freq: 0,
            freq_timer: 0,
            duty: 0,
            duty_pos: 0,
            length: LengthCounter::zero(),
            envelope: VolumeEnvelope::zero(),
            nr21: 0,
            nr22: 0,
            nr23: 0,
            nr24: 0,
        }
    }

    pub open spec fn inv(self) -> bool {
        &&& self.freq <= 2047
        &&& self.duty <= 3
        &&& self.duty_pos < 8
        &&& self.envelope.inv()
        &&& self.dac_on == (self.nr22 & 0xF8 != 0)
        &&& self.envelope.initial == (self.nr22 >> 4) & 0x0F
        &&& self.envelope.increase == (self.nr22 & 0x08 != 0)
        &&& self.envelope.period == self.nr22 & 0x07
    }

    pub open spec fn run(self, remaining: int) -> Channel2
        decreases remaining,
    {
        let period = pulse_period(self.freq);
        if remaining <= 0 || period <= 0 {
            self
        } else {
            let (tick, t, adv) = timer_chunk(self.freq_timer, period, remaining, false);
            let c = Channel2 {
                freq_timer: t as u32,
                duty_pos: if adv { ((self.duty_pos + 1) % 8) as usize } else { self.duty_pos },
                ..self
            };
            if tick <= 0 { self } else { c.run(remaining - tick) }
        }
    }

    pub open spec fn spec_step(self, t: u32) -> Channel2 {
        if !self.enabled { self } else { self.run(t as int) }
    }

    pub open spec fn spec_level(self) -> u8 {
        if !self.enabled || !self.dac_on {
            0
        } else if duty_bit(self.duty, self.duty_pos) == 1 {
            self.envelope.volume
        } else {
            0
        }
    }

    pub open spec fn spec_trigger(self) -> Channel2 {
        Channel2 {
            enabled: self.dac_on,
            length: if self.length.counter == 0 { LengthCounter { counter: 64, ..self.length } } else { self.length },
            freq_timer: pulse_period(self.freq) as u32,
            envelope: self.envelope.spec_trigger(),
            ..self
        }
    }

    pub open spec fn spec_write(self, addr: u16, value: u8) -> Channel2 {
        if addr == 0xFF16 {
            Channel2 { nr21: value, duty: (value >> 6) & 0x03, length: self.length.spec_load(64, (value & 0x3F) as u32), ..self }
        } else if addr == 0xFF17 {
            let dac_on = value & 0xF8 != 0;
            Channel2 {
                nr22: value,
                envelope: VolumeEnvelope {
                    initial: (value >> 4) & 0x0F,
                    increase: value & 0x08 != 0,
                    period: value & 0x07,
                    ..self.envelope
                },
                dac_on,
                enabled: if !dac_on { false } else { self.enabled },
                ..self
            }
        } else if addr == 0xFF18 {
            Channel2 { nr23: value, freq: (self.freq & 0x700) | (value as u16), ..self }
        } else if addr == 0xFF19 {
            let c = Channel2 {
                nr24: value,
                freq: (self.freq & 0xFF) | (((value as u16) & 0x07) << 8),
                length: LengthCounter { enabled: value & 0x40 != 0, ..self.length },
                ..self
            };
            if value & 0x80 != 0 { c.spec_trigger() } else { c }
        } else {
            self
        }
    }

    pub open spec fn spec_read(self, addr: u16) -> u8 {
        if addr == 0xFF16 {
            self.nr21 | 0x3F
        } else if addr == 0xFF17 {
            self.nr22
        } else if addr == 0xFF19 {
            self.nr24 | 0xBF
        } else {
            0xFF
        }
    }

    pub fn new() -> (r: Self)
        ensures
            r == Channel2::zero(),
    {
        Channel2 {
            enabled: false,
            dac_on: false,
            freq: 0,
            freq_timer: 0,
            duty: 0,
            duty_pos: 0,
            length: LengthCounter::new(),
            envelope: VolumeEnvelope::new(),
            nr21: 0,
            nr22: 0,
            nr23: 0,
            nr24: 0,
        }
    }

    pub fn level(&self) -> (r: u8)
        ensures
            r == self.spec_level(),
    {
        if !self.enabled || !self.dac_on {
            return 0;
        }
        if duty_table(self.duty, self.duty_pos) == 1 { self.envelope.volume } else { 0 }
    }

    pub fn step(&mut self, t_cycles: u32)
        requires
            old(self).inv(),
        ensures
            *final(self) == old(self).spec_step(t_cycles),
            final(self).inv(),
    {
        if !self.enabled {
            return;
        }
        let period: u32 = (2048 - self.freq as u32) * 4;
        if period == 0 {
            return;
        }
        let mut remaining = t_cycles;
        while remaining > 0
            invariant
                self.inv(),
                period == pulse_period(self.freq),
                self.run(remaining as int) == old(self).run(t_cycles as int),
            decreases remaining,
        {
            let to_next = if self.freq_timer == 0 { period } else { self.freq_timer };
            let tick = if remaining < to_next { remaining } else { to_next };
            remaining -= tick;
            if self.freq_timer >= tick {
                self.freq_timer -= tick;
            } else {
                self.freq_timer = period;
            }
            if self.freq_timer == 0 {
                self.duty_pos = (self.duty_pos + 1) % 8;
                self.freq_timer = period;
            }
        }
    }

    pub fn trigger(&mut self)
        requires
            old(self).inv(),
        ensures
            *final(self) == old(self).spec_trigger(),
            final(self).inv(),
    {
        self.enabled = self.dac_on;
        if self.length.counter == 0 {
            self.length.counter = 64;
        }
        self.freq_timer = (2048 - self.freq as u32) * 4;
        self.envelope.trigger();
    }

    pub fn write(&mut self, addr: u16, value: u8)
        requires
            old(self).inv(),
        ensures
            *final(self) == old(self).spec_write(addr, value),
            final(self).inv(),
    {
        proof { lemma_reg_fields(self.freq, value); }
        if addr == 0xFF16 {
            self.nr21 = value;
            self.duty = (value >> 6) & 0x03;
            self.length.load(64, (value & 0x3F) as u32);
        } else if addr == 0xFF17 {
            self.nr22 = value;
            self.envelope.initial = (value >> 4) & 0x0F;
            self.envelope.increase = value & 0x08 != 0;
            self.envelope.period = value & 0x07;
            self.dac_on = value & 0xF8 != 0;
            if !self.dac_on {
                self.enabled = false;
            }
        } else if addr == 0xFF18 {
            self.nr23 = value;
            self.freq = (self.freq & 0x700) | (value as u16);
        } else if addr == 0xFF19 {
            self.nr24 = value;
            self.freq = (self.freq & 0xFF) | (((value as u16) & 0x07) << 8);
            self.length.enabled = value & 0x40 != 0;
            if value & 0x80 != 0 {
                self.trigger();
            }
        }
    }

    pub fn read(&self, addr: u16) -> (r: u8)
        ensures
            r == self.spec_read(addr),
    {
        if addr == 0xFF16 {
            self.nr21 | 0x3F
        } else if addr == 0xFF17 {
            self.nr22
        } else if addr == 0xFF19 {
            self.nr24 | 0xBF
        } else {
            0xFF
        }
    }
}

// ─── Channel 3 (Wave) ───────────────────────────────────────────────────────

pub struct Channel3 {
    pub enabled: bool,
    pub dac_on: bool,
    pub freq: u16,
    pub freq_timer: u32,
    pub wave_pos: usize,
    /// 0 = mute, 1 = 100%, 2 = 50%, 3 = 25%.
    pub output_level: u8,
    pub length: LengthCounter,
    /// 32 4-bit samples, two per byte (high nibble first).
    pub wave_ram: Vec<u8>,
    pub sample_buf: u8,
    pub nr30: u8,
    pub nr31: u8,
    pub nr32: u8,
    pub nr33: u8,
    pub nr34: u8,
}

#[verifier::ext_equal]
pub struct Channel3State {
    pub enabled: bool,
    pub dac_on: bool,
    pub freq: u16,
    pub freq_timer: u32,
    pub wave_pos: usize,
    pub output_level: u8,
    pub length: LengthCounter,
    pub wave_ram: Seq<u8>,
    pub sample_buf: u8,
    pub nr30: u8,
    pub nr31: u8,
    pub nr32: u8,
    pub nr33: u8,
    pub nr34: u8,
}

impl View for Channel3 {
    type V = Channel3State;

    open spec fn view(&self) -> Channel3State {
        Channel3State {
            enabled: self.enabled,
            dac_on: self.dac_on,
            freq: self.freq,
            freq_timer: self.freq_timer,
            wave_pos: self.wave_pos,
            output_level: self.output_level,
            length: self.length,
            wave_ram: self.wave_ram@,
            sample_buf: self.sample_buf,
            nr30: self.nr30,
            nr31: self.nr31,
            nr32: self.nr32,
            nr33: self.nr33,
            nr34: self.nr34,
        }
    }
}

/// Frequency timer period of the wave channel.
pub open spec fn wave_period(freq: u16) -> int {
    (2048 - freq) * 2
}

/// The 4-bit sample at position `pos` of wave RAM.
pub open spec fn wave_sample(wave: Seq<u8>, pos: int) -> u8 {
    let byte = wave[pos / 2];
    if pos % 2 == 0 { byte >> 4 } else { byte & 0x0F }
}

impl Channel3State {
    pub open spec fn zero() -> Channel3State {
        Channel3State {
            enabled: false,
            dac_on: false,
            freq: 0,
            freq_timer: 0,
            wave_pos: 0,
            output_level: 0,
            length: LengthCounter::zero(),
            wave_ram: Seq::new(16, |i: int| 0u8),
            sample_buf: 0,
            nr30: 0,
            nr31: 0,
            nr32: 0,
            nr33: 0,
            nr34: 0,
        }
    }

    pub open spec fn inv(self) -> bool {
        &&& self.freq <= 2047
        &&& self.wave_pos < 32
        &&& self.wave_ram.len() == 16
        &&& self.output_level <= 3
    }

    pub open spec fn run(self, remaining: int) -> Channel3State
        decreases remaining,
    {
        let period = wave_period(self.freq);
        if remaining <= 0 || period <= 0 {
            self
        } else {
            let (tick, t, adv) = timer_chunk(self.freq_timer, period, remaining, false);
            let pos = ((self.wave_pos + 1) % 32) as usize;
            let c = if adv {
                Channel3State { freq_timer: t as u32, wave_pos: pos, sample_buf: wave_sample(self.wave_ram, pos as int), ..self }
            } else {
                Channel3State { freq_timer: t as u32, ..self }
            };
            if tick <= 0 { self } else { c.run(remaining - tick) }
        }
    }

    pub open spec fn spec_step(self, t: u32) -> Channel3State {
        if !self.enabled { self } else { self.run(t as int) }
    }

    pub open spec fn spec_level(self) -> u8 {
        if !self.enabled || !self.dac_on {
            0
        } else if self.output_level == 1 {
            self.sample_buf
        } else if self.output_level == 2 {
            self.sample_buf >> 1
        } else if self.output_level == 3 {
            self.sample_buf >> 2
        } else {
            0
        }
    }

    pub open spec fn spec_trigger(self) -> Channel3State {
        Channel3State {
            enabled: self.dac_on,
            length: if self.length.counter == 0 { LengthCounter { counter: 256, ..self.length } } else { self.length },
            freq_timer: wave_period(self.freq) as u32,
            wave_pos: 0,
            ..self
        }
    }

    pub open spec fn spec_write(self, addr: u16, value: u8) -> Channel3State {
        if addr == 0xFF1A {
            let dac_on = value & 0x80 != 0;
            Channel3State { nr30: value, dac_on, enabled: if !dac_on { false } else { self.enabled }, ..self }
        } else if addr == 0xFF1B {
            Channel3State { nr31: value, length: self.length.spec_load(256, value as u32), ..self }
        } else if addr == 0xFF1C {
            Channel3State { nr32: value, output_level: (value >> 5) & 0x03, ..self }
        } else if addr == 0xFF1D {
            Channel3State { nr33: value, freq: (self.freq & 0x700) | (value as u16), ..self }
        } else if addr == 0xFF1E {
            let c = Channel3State {
                nr34: value,
                freq: (self.freq & 0xFF) | (((value as u16) & 0x07) << 8),
                length: LengthCounter { enabled: value & 0x40 != 0, ..self.length },
                ..self
            };
            if value & 0x80 != 0 { c.spec_trigger() } else { c }
        } else if 0xFF30 <= addr <= 0xFF3F {
            Channel3State { wave_ram: self.wave_ram.update(addr - 0xFF30, value), ..self }
        } else {
            self
        }
    }

    pub open spec fn spec_read(self, addr: u16) -> u8 {
        if addr == 0xFF1A {
            self.nr30 | 0x7F
        } else if addr == 0xFF1C {
            self.nr32 | 0x9F
        } else if addr == 0xFF1E {
            self.nr34 | 0xBF
        } else if 0xFF30 <= addr <= 0xFF3F {
            self.wave_ram[addr - 0xFF30]
        } else {
            0xFF
        }
    }
}

impl Default for Channel3 {
    fn default() -> (r: Self)
        ensures
            r@ == Channel3State::zero(),
    {
        Channel3::new()
    }
}

impl Channel3 {
    pub fn new() -> (r: Self)
        ensures
            r@ == Channel3State::zero(),
    {
        let mut wave_ram: Vec<u8> = Vec::new();
        let mut i: usize = 0;
        while i < 16
            invariant
                i <= 16,
                wave_ram@ == Seq::new(i as nat, |k: int| 0u8),
            decreases 16 - i,
        {
            wave_ram.push(0);
            i += 1;
        }
        Channel3 {
            enabled: false,
            dac_on: false,
            freq: 0,
            freq_timer: 0,
            wave_pos: 0,
            output_level: 0,
            length: LengthCounter::new(),
            wave_ram,
            sample_buf: 0,
            nr30: 0,
            nr31: 0,
            nr32: 0,
            nr33: 0,
            nr34: 0,
        }
    }

    pub fn level(&self) -> (r: u8)
        ensures
            r == self@.spec_level(),
    {
        if !self.enabled || !self.dac_on {
            return 0;
        }
        let raw = self.sample_buf;
        if self.output_level == 1 {
            raw
        } else if self.output_level == 2 {
            raw >> 1
        } else if self.output_level == 3 {
            raw >> 2
        } else {
            0
        }
    }

    pub fn step(&mut self, t_cycles: u32)
        requires
            old(self)@.inv(),
        ensures
            final(self)@ == old(self)@.spec_step(t_cycles),
            final(self)@.inv(),
    {
        if !self.enabled {
            return;
        }
        let period: u32 = (2048 - self.freq as u32) * 2;
        if period == 0 {
            return;
        }
        let mut remaining = t_cycles;
        while remaining > 0
            invariant
                self@.inv(),
                period == wave_period(self.freq),
                self@.run(remaining as int) == old(self)@.run(t_cycles as int),
            decreases remaining,
        {
            let to_next = if self.freq_timer == 0 { period } else { self.freq_timer };
            let tick = if remaining < to_next { remaining } else { to_next };
            remaining -= tick;
            if self.freq_timer >= tick {
                self.freq_timer -= tick;
            } else {
                self.freq_timer = period;
            }
            if self.freq_timer == 0 {
                self.wave_pos = (self.wave_pos + 1) % 32;
                let byte = self.wave_ram[self.wave_pos / 2];
                self.sample_buf = if self.wave_pos % 2 == 0 { byte >> 4 } else { byte & 0x0F };
                self.freq_timer = period;
            }
        }
    }

    pub fn trigger(&mut self)
        requires
            old(self)@.inv(),
        ensures
            final(self)@ == old(self)@.spec_trigger(),
            final(self)@.inv(),
    {
        self.enabled = self.dac_on;
        if self.length.counter == 0 {
            self.length.counter = 256;
        }
        self.freq_timer = (2048 - self.freq as u32) * 2;
        self.wave_pos = 0;
    }

    pub fn write(&mut self, addr: u16, value: u8)
        requires
            old(self)@.inv(),
        ensures
            final(self)@ == old(self)@.spec_write(addr, value),
            final(self)@.inv(),
    {
        proof { lemma_reg_fields(self.freq, value); }
        if addr == 0xFF1A {
            self.nr30 = value;
            self.dac_on = value & 0x80 != 0;
            if !self.dac_on {
                self.enabled = false;
            }
        } else if addr == 0xFF1B {
            self.nr31 = value;
            self.length.load(256, value as u32);
        } else if addr == 0xFF1C {
            self.nr32 = value;
            self.output_level = (value >> 5) & 0x03;
        } else if addr == 0xFF1D {
            self.nr33 = value;
            self.freq = (self.freq & 0x700) | (value as u16);
        } else if addr == 0xFF1E {
            self.nr34 = value;
            self.freq = (self.freq & 0xFF) | (((value as u16) & 0x07) << 8);
            self.length.enabled = value & 0x40 != 0;
            if value & 0x80 != 0 {
                self.trigger();
            }
        } else if 0xFF30 <= addr && addr <= 0xFF3F {
            self.wave_ram.set((addr - 0xFF30) as usize, value);
        }
    }

    pub fn read(&self, addr: u16) -> (r: u8)
        requires
            self@.inv(),
        ensures
            r == self@.spec_read(addr),
    {
        if addr == 0xFF1A {
            self.nr30 | 0x7F
        } else if addr == 0xFF1C {
            self.nr32 | 0x9F
        } else if addr == 0xFF1E {
            self.nr34 | 0xBF
        } else if 0xFF30 <= addr && addr <= 0xFF3F {
            self.wave_ram[(addr - 0xFF30) as usize]
        } else {
            0xFF
        }
    }
}

// ─── Channel 4 (Noise) ──────────────────────────────────────────────────────

#[derive(Clone, Copy)]
pub struct Channel4 {
    pub enabled: bool,
    pub dac_on: bool,
    pub lfsr: u16,
    pub freq_timer: u32,
    /// 7-bit LFSR when set.
    pub width_7: bool,
    pub clock_shift: u8,
    pub divisor_code: u8,
    pub length: LengthCounter,
    pub envelope: VolumeEnvelope,
    pub nr41: u8,
    pub nr42: u8,
    pub nr43: u8,
    pub nr44: u8,
}

/// Noise divisor for the 3-bit divisor code.
pub open spec fn spec_divisor(code: u8) -> u32 {
    if code == 0 {
        8
    } else if code <= 7 {
        (code * 16) as u32
    } else {
        8
    }
}

/// The LFSR after one shift: bits 0 and 1 XORed into bit 14 (and bit 6 in 7-bit mode).
pub open spec fn lfsr_next(lfsr: u16, width_7: bool) -> u16 {
    let xor = (lfsr & 1) ^ ((lfsr >> 1) & 1);
    let l = (lfsr >> 1) | (xor << 14);
    if width_7 { (l & !0x40u16) | (xor << 6) } else { l }
}

impl Channel4 {
    pub open spec fn zero() -> Channel4 {
        Channel4 {
            enabled: false,
            dac_on: false,
            lfsr: 0,
            freq_timer: 0,
            width_7: false,
            clock_shift: 0,
            divisor_code: 0,
            length: LengthCounter::zero(),
            envelope: VolumeEnvelope::zero(),
            nr41: 0,
            nr42: 0,
            nr43: 0,
            nr44: 0,
        }
    }

    pub open spec fn inv(self) -> bool {
        &&& self.clock_shift <= 15
        &&& self.divisor_code <= 7
        &&& self.envelope.inv()
        &&& self.dac_on == (self.nr42 & 0xF8 != 0)
        &&& self.envelope.initial == (self.nr42 >> 4) & 0x0F
        &&& self.envelope.increase == (self.nr42 & 0x08 != 0)
        &&& self.envelope.period == self.nr42 & 0x07
    }

    pub open spec fn spec_period(self) -> u32 {
        spec_divisor(self.divisor_code) << self.clock_shift
    }

    pub open spec fn run(self, remaining: int) -> Channel4
        decreases remaining,
    {
        let period = self.spec_period() as int;
        if remaining <= 0 || period <= 0 {
            self
        } else {
            let (tick, t, adv) = timer_chunk(self.freq_timer, period, remaining, false);
            let c = Channel4 {
                freq_timer: t as u32,
                lfsr: if adv { lfsr_next(self.lfsr, self.width_7) } else { self.lfsr },
                ..self
            };
            if tick <= 0 { self } else { c.run(remaining - tick) }
        }
    }

    pub open spec fn spec_step(self, t: u32) -> Channel4 {
        if !self.enabled { self } else { self.run(t as int) }
    }

    pub open spec fn spec_level(self) -> u8 {
        if !self.enabled || !self.dac_on {
            0
        } else if self.lfsr & 1 == 0 {
            self.envelope.volume
        } else {
            0
        }
    }

    pub open spec fn spec_trigger(self) -> Channel4 {
        Channel4 {
            enabled: self.dac_on,
            length: if self.length.counter == 0 { LengthCounter { counter: 64, ..self.length } } else { self.length },
            freq_timer: self.spec_period(),
            envelope: self.envelope.spec_trigger(),
            lfsr: 0x7FFF,
            ..self
        }
    }

    pub open spec fn spec_write(self, addr: u16, value: u8) -> Channel4 {
        if addr == 0xFF20 {
            Channel4 { nr41: value, length: self.length.spec_load(64, (value & 0x3F) as u32), ..self }
        } else if addr == 0xFF21 {
            let dac_on = value & 0xF8 != 0;
            Channel4 {
                nr42: value,
                envelope: VolumeEnvelope {
                    initial: (value >> 4) & 0x0F,
                    increase: value & 0x08 != 0,
                    period: value & 0x07,
                    ..self.envelope
                },
                dac_on,
                enabled: if !dac_on { false } else { self.enabled },
                ..self
            }
        } else if addr == 0xFF22 {
            Channel4 {
                nr43: value,
                clock_shift: (value >> 4) & 0x0F,
                width_7: value & 0x08 != 0,
                divisor_code: value & 0x07,
                ..self
            }
        } else if addr == 0xFF23 {
            let c = Channel4 { nr44: value, length: LengthCounter { enabled: value & 0x40 != 0, ..self.length }, ..self };
            if value & 0x80 != 0 { c.spec_trigger() } else { c }
        } else {
            self
        }
    }

    pub open spec fn spec_read(self, addr: u16) -> u8 {
        if addr == 0xFF21 {
            self.nr42
        } else if addr == 0xFF22 {
            self.nr43
        } else if addr == 0xFF23 {
            self.nr44 | 0xBF
        } else {
            0xFF
        }
    }

    pub fn new() -> (r: Self)
        ensures
            r == Channel4::zero(),
    {
        Channel4 {
            enabled: false,
            dac_on: false,
            lfsr: 0,
            freq_timer: 0,
            width_7: false,
            clock_shift: 0,
            divisor_code: 0,
            length: LengthCounter::new(),
            envelope: VolumeEnvelope::new(),
            nr41: 0,
            nr42: 0,
            nr43: 0,
            nr44: 0,
        }
    }

    pub fn divisor(code: u8) -> (r: u32)
        ensures
            r == spec_divisor(code),
            r <= 112,
    {
        if code == 0 {
            8
        } else if code <= 7 {
            code as u32 * 16
        } else {
            8
        }
    }

    pub fn period(&self) -> (r: u32)
        requires
            self.inv(),
        ensures
            r == self.spec_period(),
    {
        Self::divisor(self.divisor_code) << self.clock_shift as u32
    }

    pub fn level(&self) -> (r: u8)
        ensures
            r == self.spec_level(),
    {
        if !self.enabled || !self.dac_on {
            return 0;
        }
        if self.lfsr & 1 == 0 { self.envelope.volume } else { 0 }
    }

    pub fn step(&mut self, t_cycles: u32)
        requires
            old(self).inv(),
        ensures
            *final(self) == old(self).spec_step(t_cycles),
            final(self).inv(),
    {
        if !self.enabled {
            return;
        }
        let period = self.period();
        if period == 0 {
            return;
        }
        let mut remaining = t_cycles;
        while remaining > 0
            invariant
                self.inv(),
                period > 0,
                period == self.spec_period(),
                self.run(remaining as int) == old(self).run(t_cycles as int),
            decreases remaining,
        {
            let to_next = if self.freq_timer == 0 { period } else { self.freq_timer };
            let tick = if remaining < to_next { remaining } else { to_next };
            remaining -= tick;
            if self.freq_timer >= tick {
                self.freq_timer -= tick;
            } else {
                self.freq_timer = period;
            }
            if self.freq_timer == 0 {
                let xor = (self.lfsr & 1) ^ ((self.lfsr >> 1) & 1);
                self.lfsr >>= 1;
                self.lfsr |= xor << 14;
                if self.width_7 {
                    self.lfsr = (self.lfsr & !0x40u16) | (xor << 6);
                }
                self.freq_timer = period;
            }
        }
    }

    pub fn trigger(&mut self)
        requires
            old(self).inv(),
        ensures
            *final(self) == old(self).spec_trigger(),
            final(self).inv(),
    {
        self.enabled = self.dac_on;
        if self.length.counter == 0 {
            self.length.counter = 64;
        }
        self.freq_timer = self.period();
        self.envelope.trigger();
        self.lfsr = 0x7FFF;
    }

    pub fn write(&mut self, addr: u16, value: u8)
        requires
            old(self).inv(),
        ensures
            *final(self) == old(self).spec_write(addr, value),
            final(self).inv(),
    {
        proof { lemma_reg_fields(0, value); }
        if addr == 0xFF20 {
            self.nr41 = value;
            self.length.load(64, (value & 0x3F) as u32);
        } else if addr == 0xFF21 {
            self.nr42 = value;
            self.envelope.initial = (value >> 4) & 0x0F;
            self.envelope.increase = value & 0x08 != 0;
            self.envelope.period = value & 0x07;
            self.dac_on = value & 0xF8 != 0;
            if !self.dac_on {
                self.enabled = false;
            }
        } else if addr == 0xFF22 {
            self.nr43 = value;
            self.clock_shift = (value >> 4) & 0x0F;
            self.width_7 = value & 0x08 != 0;
            self.divisor_code = value & 0x07;
        } else if addr == 0xFF23 {
            self.nr44 = value;
            self.length.enabled = value & 0x40 != 0;
            if value & 0x80 != 0 {
                self.trigger();
            }
        }
    }

    pub fn read(&self, addr: u16) -> (r: u8)
        ensures
            r == self.spec_read(addr),
    {
        if addr == 0xFF21 {
            self.nr42
        } else if addr == 0xFF22 {
            self.nr43
        } else if addr == 0xFF23 {
            self.nr44 | 0xBF
        } else {
            0xFF
        }
    }
}

/// Field extraction bounds for the channel registers.
pub proof fn lemma_reg_fields(f: u16, v: u8)
    by (bit_vector)
    requires
        f <= 2047,
    ensures
        (f & 0x700) | (v as u16) <= 2047,
        (f & 0xFF) | (((v as u16) & 0x07) << 8u16) <= 2047,
        (v >> 4u8) & 0x07 <= 7,
        (v >> 4u8) & 0x0F <= 15,
        (v >> 6u8) & 0x03 <= 3,
        (v >> 5u8) & 0x03 <= 3,
        v & 0x07 <= 7,
        v & 0x3F <= 63,
{
}

/// One envelope clock at the end of a period (timer at most 1, period set) moves the
/// volume one step: down by one when decreasing and above 0, up by one when increasing and
/// below 15; at the limits it stays. The timer reloads with the period.
pub proof fn lemma_envelope_step(e: VolumeEnvelope)
    requires
        e.period > 0,
        e.timer <= 1,
    ensures
        !e.increase && e.volume > 0 ==> e.spec_clock().volume == e.volume - 1,
        e.increase && e.volume < 15 ==> e.spec_clock().volume == e.volume + 1,
        !e.increase && e.volume == 0 ==> e.spec_clock().volume == 0,
        e.increase && e.volume >= 15 ==> e.spec_clock().volume == e.volume,
        e.spec_clock().timer == e.period,
{
}

/// Before the end of a period the envelope only counts down its timer.
pub proof fn lemma_envelope_waits(e: VolumeEnvelope)
    requires
        e.period > 0,
        e.timer > 1,
    ensures
        e.spec_clock().volume == e.volume,
        e.spec_clock().timer == e.timer - 1,
{
}

} // verus!
