//! Audio Processing Unit (APU)
//!
//! Four channels: pulse 1 (sweep), pulse 2, wave, noise.

pub mod channels;

use vstd::prelude::*;
pub use channels::{Channel1, Channel2, Channel3, Channel4};
use channels::{Channel3State, LengthCounter, lemma_reg_fields, lemma_sweep_keeps_freq};

verus! {

pub const SAMPLE_RATE: u32 = 48000;
/// The frame sequencer runs at 512 Hz: one step every 8192 T-cycles.
pub const FRAME_SEQUENCER_PERIOD: u32 = 8192;
pub const T_CYCLES_PER_SECOND: u32 = 4_194_304;

/// What one output sample is mixed from: the four channel levels (0..=15 each, 0 when
/// silent) and the master volume (NR50) and routing (NR51) registers of that moment.
#[derive(Clone, Copy, Debug, PartialEq, Eq, Structural)]
pub struct MixInput {
    pub ch1: u8,
    pub ch2: u8,
    pub ch3: u8,
    pub ch4: u8,
    pub nr50: u8,
    pub nr51: u8,
}

pub struct Apu {
    pub ch1: Channel1,
    pub ch2: Channel2,
    pub ch3: Channel3,
    pub ch4: Channel4,
    /// 0xFF24 volume + SO output.
    pub nr50: u8,
    /// 0xFF25 channel → output routing.
    pub nr51: u8,
    /// 0xFF26 sound on/off.
    pub nr52: u8,
    pub frame_seq_timer: u32,
    pub frame_seq_step: u8,
    pub sample_timer: u32,
    pub sample_period: u32,
    /// Samples due since the last drain, oldest first.
    pub samples: Vec<MixInput>,
}

#[verifier::ext_equal]
pub struct ApuState {
    pub ch1: Channel1,
    pub ch2: Channel2,
    pub ch3: Channel3State,
    pub ch4: Channel4,
    pub nr50: u8,
    pub nr51: u8,
    pub nr52: u8,
    pub frame_seq_timer: u32,
    pub frame_seq_step: u8,
    pub sample_timer: u32,
    pub sample_period: u32,
    pub samples: Seq<MixInput>,
}

impl View for Apu {
    type V = ApuState;

    open spec fn view(&self) -> ApuState {
        ApuState {
            ch1: self.ch1,
            ch2: self.ch2,
            ch3: self.ch3@,
            ch4: self.ch4,
            nr50: self.nr50,
            nr51: self.nr51,
            nr52: self.nr52,
            frame_seq_timer: self.frame_seq_timer,
            frame_seq_step: self.frame_seq_step,
            sample_timer: self.sample_timer,
            sample_period: self.sample_period,
            samples: self.samples@,
        }
    }
}

/// A length counter clocked; the channel is silenced once its counter reads zero.
pub open spec fn length_clocked(l: LengthCounter, enabled: bool) -> (LengthCounter, bool) {
    let l2 = l.spec_clock();
    (l2, if l2.counter == 0 { false } else { enabled })
}

impl ApuState {
    pub open spec fn boot() -> ApuState {
        ApuState {
            ch1: Channel1::zero(),
            ch2: Channel2::zero(),
            ch3: Channel3State::zero(),
            ch4: Channel4::zero(),
            nr50: 0x77,
            nr51: 0xF3,
            nr52: 0xF1,
            frame_seq_timer: 0,
            frame_seq_step: 0,
            sample_timer: 0,
            sample_period: T_CYCLES_PER_SECOND / SAMPLE_RATE,
            samples: Seq::empty(),
        }
    }

    pub open spec fn inv(self) -> bool {
        &&& self.ch1.inv()
        &&& self.ch2.inv()
        &&& self.ch3.inv()
        &&& self.ch4.inv()
        &&& self.frame_seq_timer < FRAME_SEQUENCER_PERIOD
        &&& self.frame_seq_step < 8
        &&& self.sample_period == T_CYCLES_PER_SECOND / SAMPLE_RATE
        &&& self.sample_timer < self.sample_period
    }

    pub open spec fn on(self) -> bool {
        self.nr52 & 0x80 != 0
    }

    pub open spec fn after_length(self) -> ApuState {
        let (l1, e1) = length_clocked(self.ch1.length, self.ch1.enabled);
        let (l2, e2) = length_clocked(self.ch2.length, self.ch2.enabled);
        let (l3, e3) = length_clocked(self.ch3.length, self.ch3.enabled);
        let (l4, e4) = length_clocked(self.ch4.length, self.ch4.enabled);
        ApuState {
            ch1: Channel1 { length: l1, enabled: e1, ..self.ch1 },
            ch2: Channel2 { length: l2, enabled: e2, ..self.ch2 },
            ch3: Channel3State { length: l3, enabled: e3, ..self.ch3 },
            ch4: Channel4 { length: l4, enabled: e4, ..self.ch4 },
            ..self
        }
    }

    pub open spec fn after_sweep(self) -> ApuState {
        let (s, f) = self.ch1.sweep.spec_clock();
        match f {
            Some(f) => ApuState { ch1: Channel1 { sweep: s, freq: f, ..self.ch1 }, ..self },
            None => ApuState { ch1: Channel1 { sweep: s, enabled: false, ..self.ch1 }, ..self },
        }
    }

    pub open spec fn after_envelope(self) -> ApuState {
        ApuState {
            ch1: Channel1 { envelope: self.ch1.envelope.spec_clock(), ..self.ch1 },
            ch2: Channel2 { envelope: self.ch2.envelope.spec_clock(), ..self.ch2 },
            ch4: Channel4 { envelope: self.ch4.envelope.spec_clock(), ..self.ch4 },
            ..self
        }
    }

    /// One frame sequencer step: length on steps 0, 2, 4, 6; sweep on 2 and 6; envelope on 7.
    pub open spec fn frame_seq_clock(self) -> ApuState {
        let st = self.frame_seq_step;
        let a = if st == 0 || st == 4 {
            self.after_length()
        } else if st == 2 || st == 6 {
            self.after_length().after_sweep()
        } else if st == 7 {
            self.after_envelope()
        } else {
            self
        };
        ApuState { frame_seq_step: ((st + 1) % 8) as u8, ..a }
    }

    pub open spec fn frame_seq_clocks(self, k: nat) -> ApuState
        decreases k,
    {
        if k == 0 { self } else { self.frame_seq_clocks((k - 1) as nat).frame_seq_clock() }
    }

    pub open spec fn mix_input(self) -> MixInput {
        MixInput {
            ch1: self.ch1.spec_level(),
            ch2: self.ch2.spec_level(),
            ch3: self.ch3.spec_level(),
            ch4: self.ch4.spec_level(),
            nr50: self.nr50,
            nr51: self.nr51,
        }
    }

    /// The APU after `t` T-cycles: the channels run, the frame sequencer is clocked once per
    /// 8192 cycles, and one sample is queued per sample period.
    pub open spec fn spec_step(self, t: u32) -> ApuState {
        if !self.on() {
            self
        } else {
            let a1 = ApuState {
                ch1: self.ch1.spec_step(t),
                ch2: self.ch2.spec_step(t),
                ch3: self.ch3.spec_step(t),
                ch4: self.ch4.spec_step(t),
                ..self
            };
            let ft = self.frame_seq_timer + t;
            let a2 = ApuState {
                frame_seq_timer: (ft % (FRAME_SEQUENCER_PERIOD as int)) as u32,
                ..a1.frame_seq_clocks((ft / (FRAME_SEQUENCER_PERIOD as int)) as nat)
            };
            let stt = self.sample_timer + t;
            let m = stt / (self.sample_period as int);
            ApuState {
                sample_timer: (stt % (self.sample_period as int)) as u32,
                samples: a2.samples + Seq::new(m as nat, |i: int| a2.mix_input()),
                ..a2
            }
        }
    }

    pub open spec fn spec_read(self, addr: u16) -> u8 {
        if 0xFF10 <= addr <= 0xFF14 {
            self.ch1.spec_read(addr)
        } else if 0xFF16 <= addr <= 0xFF19 {
            self.ch2.spec_read(addr)
        } else if 0xFF1A <= addr <= 0xFF1E {
            self.ch3.spec_read(addr)
        } else if 0xFF20 <= addr <= 0xFF23 {
            self.ch4.spec_read(addr)
        } else if addr == 0xFF24 {
            self.nr50
        } else if addr == 0xFF25 {
            self.nr51
        } else if addr == 0xFF26 {
            (self.nr52 & 0x80) | 0x70 | (if self.ch4.enabled { 0x08u8 } else { 0u8 }) | (if self.ch3.enabled {
                0x04u8
            } else {
                0u8
            }) | (if self.ch2.enabled { 0x02u8 } else { 0u8 }) | (if self.ch1.enabled { 0x01u8 } else { 0u8 })
        } else if 0xFF30 <= addr <= 0xFF3F {
            self.ch3.spec_read(addr)
        } else {
            0xFF
        }
    }

    /// Register writes; with the APU off only NR52, the length registers of channels 2 and 4
    /// and wave RAM are written. (NR52 keeps only bit 7.)
    pub open spec fn spec_write(self, addr: u16, value: u8) -> ApuState {
        let on = self.on();
        if 0xFF10 <= addr <= 0xFF14 {
            if on { ApuState { ch1: self.ch1.spec_write(addr, value), ..self } } else { self }
        } else if addr == 0xFF16 {
            let ch2 = Channel2 { length: self.ch2.length.spec_load(64, (value & 0x3F) as u32), ..self.ch2 };
            ApuState {
                ch2: if on { Channel2 { nr21: value, duty: (value >> 6) & 0x03, ..ch2 } } else { ch2 },
                ..self
            }
        } else if 0xFF17 <= addr <= 0xFF19 {
            if on { ApuState { ch2: self.ch2.spec_write(addr, value), ..self } } else { self }
        } else if 0xFF1A <= addr <= 0xFF1E {
            if on { ApuState { ch3: self.ch3.spec_write(addr, value), ..self } } else { self }
        } else if addr == 0xFF20 {
            ApuState { ch4: Channel4 { length: self.ch4.length.spec_load(64, (value & 0x3F) as u32), ..self.ch4 }, ..self }
        } else if 0xFF21 <= addr <= 0xFF23 {
            if on { ApuState { ch4: self.ch4.spec_write(addr, value), ..self } } else { self }
        } else if addr == 0xFF24 {
            ApuState { nr50: value, ..self }
        } else if addr == 0xFF25 {
            ApuState { nr51: value, ..self }
        } else if addr == 0xFF26 {
            if self.on() && value & 0x80 == 0 {
                // Power off resets the channels and the mixer.
                ApuState {
                    nr52: value & 0x80,
                    ch1: Channel1::zero(),
                    ch2: Channel2::zero(),
                    ch3: Channel3State::zero(),
                    ch4: Channel4::zero(),
                    nr50: 0,
                    nr51: 0,
                    ..self
                }
            } else {
                ApuState { nr52: value & 0x80, ..self }
            }
        } else if 0xFF30 <= addr <= 0xFF3F {
            ApuState { ch3: self.ch3.spec_write(addr, value), ..self }
        } else {
            self
        }
    }
}

impl Default for Apu {
    fn default() -> (r: Self)
        ensures
            r@ == ApuState::boot(),
    {
        Apu::new()
    }
}

impl Apu {
    pub fn new() -> (r: Self)
        ensures
            r@ == ApuState::boot(),
            r@.inv(),
    {
        assert(0u8 & 0xF8 == 0 && (0u8 >> 4u8) & 0x0F == 0 && 0u8 & 0x08 == 0 && 0u8 & 0x07 == 0)
            by (bit_vector);
        Apu {
            ch1: Channel1::new(),
            ch2: Channel2::new(),
            ch3: Channel3::new(),
            ch4: Channel4::new(),
            nr50: 0x77,
            nr51: 0xF3,
            nr52: 0xF1,
            frame_seq_timer: 0,
            frame_seq_step: 0,
            sample_timer: 0,
            sample_period: T_CYCLES_PER_SECOND / SAMPLE_RATE,
            samples: Vec::new(),
        }
    }

    #[verifier::rlimit(60)]
    pub fn step(&mut self, t_cycles: u32)
        requires
            old(self)@.inv(),
        ensures
            final(self)@ == old(self)@.spec_step(t_cycles),
            final(self)@.inv(),
    {
        if self.nr52 & 0x80 == 0 {
            return;
        }
        self.ch1.step(t_cycles);
        self.ch2.step(t_cycles);
        self.ch3.step(t_cycles);
        self.ch4.step(t_cycles);
        let ghost a1 = self@;
        let ghost ft: int = self.frame_seq_timer + t_cycles;
        let mut timer: u64 = self.frame_seq_timer as u64 + t_cycles as u64;
        let mut k: u64 = 0;
        while timer >= FRAME_SEQUENCER_PERIOD as u64
            invariant
                timer + k * (FRAME_SEQUENCER_PERIOD as int) == ft,
                ft < 0x2_0000_0000,
                self@.inv_except_frame_timer(),
                self.frame_seq_timer == a1.frame_seq_timer,
                (ApuState { frame_seq_timer: 0, ..self@ }) == (ApuState { frame_seq_timer: 0, ..a1.frame_seq_clocks(k as nat) }),
                a1.frame_seq_timer == ft - t_cycles,
            decreases timer,
        {
            timer -= FRAME_SEQUENCER_PERIOD as u64;
            let ghost before = self@;
            self.clock_frame_sequencer();
            proof { lemma_frame_seq_clock_step(before, self@, a1, k as nat); }
            k += 1;
        }
        self.frame_seq_timer = timer as u32;
        proof {
            vstd::arithmetic::div_mod::lemma_fundamental_div_mod_converse(
                ft,
                FRAME_SEQUENCER_PERIOD as int,
                k as int,
                timer as int,
            );
        }
        assert(T_CYCLES_PER_SECOND / SAMPLE_RATE == 87);
        proof { lemma_frame_seq_keeps_samples(a1, k as nat); }
        assert(k == ft / (FRAME_SEQUENCER_PERIOD as int));
        assert(self@ =~= (ApuState {
            frame_seq_timer: (ft % (FRAME_SEQUENCER_PERIOD as int)) as u32,
            ..a1.frame_seq_clocks((ft / (FRAME_SEQUENCER_PERIOD as int)) as nat)
        }));
        let ghost a2 = self@;
        let ghost stt: int = self.sample_timer + t_cycles;
        let mut st: u64 = self.sample_timer as u64 + t_cycles as u64;
        let period = self.sample_period as u64;
        let mut m: u64 = 0;
        while st >= period
            invariant
                st + m * (period as int) == stt,
                stt < 0x2_0000_0000,
                period == 87,
                self.sample_period == 87,
                self@ == (ApuState {
                    samples: a2.samples + Seq::new(m as nat, |i: int| a2.mix_input()),
                    ..a2
                }),
            decreases st,
        {
            let ghost before = self@;
            st -= period;
            assert(before.mix_input() == a2.mix_input());
            self.generate_sample();
            m += 1;
            assert(self@.samples =~= a2.samples + Seq::new(m as nat, |i: int| a2.mix_input()));
            assert(self@ =~= (ApuState {
                samples: a2.samples + Seq::new(m as nat, |i: int| a2.mix_input()),
                ..a2
            }));
        }
        self.sample_timer = st as u32;
        proof {
            vstd::arithmetic::div_mod::lemma_fundamental_div_mod_converse(
                stt,
                period as int,
                m as int,
                st as int,
            );
            assert(m == stt / (period as int));
            assert(self@ =~= old(self)@.spec_step(t_cycles));
        }
    }

    fn clock_frame_sequencer(&mut self)
        requires
            old(self)@.inv_except_frame_timer(),
        ensures
            final(self)@ == old(self)@.frame_seq_clock(),
            final(self)@.inv_except_frame_timer(),
    {
        let st = self.frame_seq_step;
        if st == 0 || st == 4 {
            self.clock_length();
        } else if st == 2 || st == 6 {
            self.clock_length();
            self.clock_sweep();
        } else if st == 7 {
            self.clock_envelope();
        }
        self.frame_seq_step = (self.frame_seq_step + 1) % 8;
    }

    #[verifier::rlimit(60)]
    fn clock_length(&mut self)
        requires
            old(self)@.inv_except_frame_timer(),
        ensures
            final(self)@ == old(self)@.after_length(),
            final(self)@.inv_except_frame_timer(),
    {
        let (l1, e1) = clock_length_of(self.ch1.length, self.ch1.enabled);
        self.ch1.length = l1;
        self.ch1.enabled = e1;
        let (l2, e2) = clock_length_of(self.ch2.length, self.ch2.enabled);
        self.ch2.length = l2;
        self.ch2.enabled = e2;
        let (l3, e3) = clock_length_of(self.ch3.length, self.ch3.enabled);
        self.ch3.length = l3;
        self.ch3.enabled = e3;
        let (l4, e4) = clock_length_of(self.ch4.length, self.ch4.enabled);
        self.ch4.length = l4;
        self.ch4.enabled = e4;
    }

    fn clock_envelope(&mut self)
        requires
            old(self)@.inv_except_frame_timer(),
        ensures
            final(self)@ == old(self)@.after_envelope(),
            final(self)@.inv_except_frame_timer(),
    {
        self.ch1.envelope.clock();
        self.ch2.envelope.clock();
        self.ch4.envelope.clock();
    }

    fn clock_sweep(&mut self)
        requires
            old(self)@.inv_except_frame_timer(),
        ensures
            final(self)@ == old(self)@.after_sweep(),
            final(self)@.inv_except_frame_timer(),
    {
        proof { lemma_sweep_keeps_freq(self.ch1.sweep); }
        match self.ch1.sweep.clock() {
            Some(f) => {
                self.ch1.freq = f;
            },
            None => {
                self.ch1.enabled = false;
            },
        }
    }

    /// Queue one sample: the four channel levels and the mixer registers of this moment.
    fn generate_sample(&mut self)
        ensures
            final(self)@ == (ApuState { samples: old(self)@.samples.push(old(self)@.mix_input()), ..old(self)@ }),
    {
        let input = MixInput {
            ch1: self.ch1.level(),
            ch2: self.ch2.level(),
            ch3: self.ch3.level(),
            ch4: self.ch4.level(),
            nr50: self.nr50,
            nr51: self.nr51,
        };
        self.samples.push(input);
    }

    pub fn read(&self, addr: u16) -> (r: u8)
        requires
            self@.inv(),
        ensures
            r == self@.spec_read(addr),
    {
        if 0xFF10 <= addr && addr <= 0xFF14 {
            self.ch1.read(addr)
        } else if 0xFF16 <= addr && addr <= 0xFF19 {
            self.ch2.read(addr)
        } else if 0xFF1A <= addr && addr <= 0xFF1E {
            self.ch3.read(addr)
        } else if 0xFF20 <= addr && addr <= 0xFF23 {
            self.ch4.read(addr)
        } else if addr == 0xFF24 {
            self.nr50
        } else if addr == 0xFF25 {
            self.nr51
        } else if addr == 0xFF26 {
            let ch1: u8 = if self.ch1.enabled { 0x01 } else { 0 };
            let ch2: u8 = if self.ch2.enabled { 0x02 } else { 0 };
            let ch3: u8 = if self.ch3.enabled { 0x04 } else { 0 };
            let ch4: u8 = if self.ch4.enabled { 0x08 } else { 0 };
            (self.nr52 & 0x80) | 0x70 | ch4 | ch3 | ch2 | ch1
        } else if 0xFF30 <= addr && addr <= 0xFF3F {
            self.ch3.read(addr)
        } else {
            0xFF
        }
    }

    pub fn write(&mut self, addr: u16, value: u8)
        requires
            old(self)@.inv(),
        ensures
            final(self)@ == old(self)@.spec_write(addr, value),
            final(self)@.inv(),
    {
        proof { lemma_reg_fields(0, value); }
        let apu_on = self.nr52 & 0x80 != 0;
        if 0xFF10 <= addr && addr <= 0xFF14 {
            if apu_on {
                self.ch1.write(addr, value);
            }
        } else if addr == 0xFF16 {
            // Length can be written when off.
            self.ch2.length.load(64, (value & 0x3F) as u32);
            if apu_on {
                self.ch2.nr21 = value;
                self.ch2.duty = (value >> 6) & 0x03;
            }
        } else if 0xFF17 <= addr && addr <= 0xFF19 {
            if apu_on {
                self.ch2.write(addr, value);
            }
        } else if 0xFF1A <= addr && addr <= 0xFF1E {
            if apu_on {
                self.ch3.write(addr, value);
            }
        } else if addr == 0xFF20 {
            self.ch4.length.load(64, (value & 0x3F) as u32);
        } else if 0xFF21 <= addr && addr <= 0xFF23 {
            if apu_on {
                self.ch4.write(addr, value);
            }
        } else if addr == 0xFF24 {
            self.nr50 = value;
        } else if addr == 0xFF25 {
            self.nr51 = value;
        } else if addr == 0xFF26 {
            let was_on = self.nr52 & 0x80 != 0;
            self.nr52 = value & 0x80;
            if was_on && value & 0x80 == 0 {
                proof {
                    assert(0u8 & 0xF8 == 0 && (0u8 >> 4u8) & 0x0F == 0 && 0u8 & 0x08 == 0 && 0u8 & 0x07 == 0)
                        by (bit_vector);
                }
                // Power off resets the channels and the mixer.
                self.ch1 = Channel1::new();
                self.ch2 = Channel2::new();
                self.ch3 = Channel3::new();
                self.ch4 = Channel4::new();
                self.nr50 = 0;
                self.nr51 = 0;
            }
        } else if 0xFF30 <= addr && addr <= 0xFF3F {
            self.ch3.write(addr, value);
        }
    }

    /// Take the queued samples, oldest first, leaving the queue empty.
    pub fn drain_samples(&mut self) -> (r: Vec<MixInput>)
        ensures
            r@ == old(self)@.samples,
            final(self)@ == (ApuState { samples: Seq::empty(), ..old(self)@ }),
    {
        let mut out: Vec<MixInput> = Vec::new();
        std::mem::swap(&mut out, &mut self.samples);
        out
    }
}

/// Clock a length counter; a channel whose counter reads zero is silenced.
fn clock_length_of(length: LengthCounter, enabled: bool) -> (r: (LengthCounter, bool))
    ensures
        r == length_clocked(length, enabled),
{
    let mut l = length;
    let mut e = enabled;
    if l.clock() {
        e = false;
    }
    (l, e)
}

impl ApuState {
    /// The invariant apart from the frame sequencer timer bound (broken while it is drained).
    pub open spec fn inv_except_frame_timer(self) -> bool {
        &&& self.ch1.inv()
        &&& self.ch2.inv()
        &&& self.ch3.inv()
        &&& self.ch4.inv()
        &&& self.frame_seq_step < 8
        &&& self.sample_period == T_CYCLES_PER_SECOND / SAMPLE_RATE
        &&& self.sample_timer < self.sample_period
    }
}

/// Samples are queued oldest first: a step appends to the queue and never drops or
/// reorders what was already there.
pub proof fn lemma_step_appends_samples(a: ApuState, t: u32)
    ensures
        a.samples.is_prefix_of(a.spec_step(t).samples),
{
    if a.on() {
        lemma_frame_seq_keeps_samples(
            ApuState {
                ch1: a.ch1.spec_step(t),
                ch2: a.ch2.spec_step(t),
                ch3: a.ch3.spec_step(t),
                ch4: a.ch4.spec_step(t),
                ..a
            },
            ((a.frame_seq_timer + t) / (FRAME_SEQUENCER_PERIOD as int)) as nat,
        );
        assert(a.spec_step(t).samples.subrange(0, a.samples.len() as int) =~= a.samples);
    }
}

proof fn lemma_frame_seq_clock_step(before: ApuState, after: ApuState, a1: ApuState, k: nat)
    requires
        (ApuState { frame_seq_timer: 0, ..before }) == (ApuState { frame_seq_timer: 0, ..a1.frame_seq_clocks(k) }),
        after == before.frame_seq_clock(),
    ensures
        (ApuState { frame_seq_timer: 0, ..after }) == (ApuState { frame_seq_timer: 0, ..a1.frame_seq_clocks(k + 1) }),
{
    let x = a1.frame_seq_clocks(k);
    assert(a1.frame_seq_clocks(k + 1) == x.frame_seq_clock());
    assert(before == ApuState { frame_seq_timer: before.frame_seq_timer, ..x });
}

proof fn lemma_frame_seq_keeps_samples(a: ApuState, k: nat)
    ensures
        a.frame_seq_clocks(k).samples == a.samples,
        a.frame_seq_clocks(k).nr50 == a.nr50,
        a.frame_seq_clocks(k).nr52 == a.nr52,
        a.frame_seq_clocks(k).sample_timer == a.sample_timer,
        a.frame_seq_clocks(k).sample_period == a.sample_period,
    decreases k,
{
    if k > 0 {
        lemma_frame_seq_keeps_samples(a, (k - 1) as nat);
    }
}

/// With the APU switched off, stepping changes nothing (no channel runs, no sample is queued).
pub proof fn lemma_off_apu_is_idle(a: ApuState, t: u32)
    requires
        !a.on(),
    ensures
        a.spec_step(t) == a,
{
}

/// Switching the APU off (NR52 bit 7 cleared while on) resets all four channels and the
/// mixer registers; NR52 then reads 0x70.
pub proof fn lemma_power_off_resets(a: ApuState, v: u8)
    requires
        a.on(),
        v & 0x80 == 0,
    ensures
        a.spec_write(0xFF26, v).ch1 == Channel1::zero(),
        a.spec_write(0xFF26, v).ch2 == Channel2::zero(),
        a.spec_write(0xFF26, v).ch3 == Channel3State::zero(),
        a.spec_write(0xFF26, v).ch4 == Channel4::zero(),
        a.spec_write(0xFF26, v).nr50 == 0,
        a.spec_write(0xFF26, v).nr51 == 0,
        a.spec_write(0xFF26, v).spec_read(0xFF26) == 0x70,
{
    assert((v & 0x80) & 0x80 == 0 && ((0u8 | 0x70u8) | 0u8 | 0u8 | 0u8 | 0u8) == 0x70u8) by (bit_vector)
        requires
            v & 0x80 == 0,
    ;
}

} // verus!
