use gbc_emulator::apu::channels::{duty_table, LengthCounter, Sweep, VolumeEnvelope};
use gbc_emulator::apu::{Apu, Channel1, Channel2, Channel3, Channel4};

#[test]
fn test_apu_boot_registers() {
    let a = Apu::new();
    assert_eq!(a.read(0xFF26), 0xF0);
    assert_eq!(a.read(0xFF24), 0x77);
    assert_eq!(a.read(0xFF25), 0xF3);
    assert_eq!(a.read(0xFF10), 0x80);
    assert_eq!(a.read(0xFF11), 0x3F);
    assert_eq!(a.read(0xFF13), 0xFF);
    assert_eq!(a.read(0xFF14), 0xBF);
    assert_eq!(a.read(0xFF15), 0xFF);
    assert_eq!(a.read(0xFF1A), 0x7F);
    assert_eq!(a.read(0xFF1C), 0x9F);
    assert_eq!(a.read(0xFF1F), 0xFF);
    assert_eq!(a.read(0xFF20), 0xFF);
    assert_eq!(a.read(0xFF23), 0xBF);
    assert_eq!(a.read(0xFF27), 0xFF);
    let d = Apu::default();
    assert_eq!(d.read(0xFF26), 0xF0);
}

#[test]
fn test_apu_channel2_trigger_and_level() {
    let mut a = Apu::new();
    a.write(0xFF16, 0x80); // 50% duty
    a.write(0xFF17, 0xF0); // volume 15, DAC on
    a.write(0xFF19, 0x80); // trigger
    assert_eq!(a.read(0xFF26), 0xF2);
    assert_eq!(a.ch2.level(), 15);
    assert_eq!(a.read(0xFF16), 0xBF);
    a.write(0xFF17, 0x00); // DAC off disables the channel
    assert_eq!(a.read(0xFF26), 0xF0);
    assert_eq!(a.ch2.level(), 0);
}

#[test]
fn test_apu_power_off_gates_writes() {
    let mut a = Apu::new();
    a.write(0xFF26, 0x00);
    assert_eq!(a.read(0xFF26), 0x70);
    a.write(0xFF12, 0xF3);
    assert_eq!(a.read(0xFF12), 0x00);
    // Switching the APU off resets the mixer registers.
    assert_eq!(a.read(0xFF24), 0x00);
    assert_eq!(a.read(0xFF25), 0x00);
    a.write(0xFF24, 0x11);
    assert_eq!(a.read(0xFF24), 0x11);
    // Length can be written while off.
    a.write(0xFF16, 0x10);
    assert_eq!(a.ch2.length.counter, 48);
    assert_eq!(a.read(0xFF16), 0x3F);
    a.write(0xFF30, 0x12);
    assert_eq!(a.read(0xFF30), 0x12);
    a.write(0xFF26, 0x80);
    assert_eq!(a.read(0xFF26), 0xF0);
}

#[test]
fn test_apu_samples_every_87_cycles() {
    let mut a = Apu::new();
    a.step(87 * 3);
    let s = a.drain_samples();
    assert_eq!(s.len(), 3);
    assert_eq!((s[0].nr50, s[0].nr51), (0x77, 0xF3));
    assert_eq!((s[0].ch1, s[0].ch2, s[0].ch3, s[0].ch4), (0, 0, 0, 0));
    a.step(86);
    assert!(a.drain_samples().is_empty());
    a.step(1);
    assert_eq!(a.drain_samples().len(), 1);
}

#[test]
fn test_apu_off_generates_nothing() {
    let mut a = Apu::new();
    a.write(0xFF26, 0x00);
    a.step(10_000);
    assert!(a.drain_samples().is_empty());
}

#[test]
fn test_apu_length_counter_expires() {
    let mut a = Apu::new();
    a.write(0xFF16, 0x3F); // length 1
    a.write(0xFF17, 0xF0);
    a.write(0xFF19, 0xC0); // trigger with length enabled
    assert_eq!(a.read(0xFF26), 0xF2);
    a.step(8191);
    assert_eq!(a.read(0xFF26), 0xF2);
    a.step(1);
    assert_eq!(a.read(0xFF26), 0xF0);
}

#[test]
fn test_channel1_registers() {
    let mut c = Channel1::new();
    c.write(0xFF10, 0x7F);
    assert_eq!(c.read(0xFF10), 0xFF);
    assert_eq!(c.sweep.period, 7);
    assert!(c.sweep.negate);
    assert_eq!(c.sweep.shift, 7);
    c.write(0xFF11, 0xC5);
    assert_eq!(c.duty, 3);
    assert_eq!(c.length.counter, 64 - 5);
    assert_eq!(c.read(0xFF11), 0xFF);
    c.write(0xFF13, 0x34);
    c.write(0xFF14, 0x05);
    assert_eq!(c.freq, 0x534);
    assert_eq!(c.read(0xFF14), 0xBF);
}

#[test]
fn test_channel1_sweep_overflow_on_trigger() {
    let mut c = Channel1::new();
    c.write(0xFF12, 0xF0);
    c.write(0xFF10, 0x11); // period 1, add, shift 1
    c.write(0xFF13, 0xFF);
    c.write(0xFF14, 0x87); // freq 0x7FF, trigger: 0x7FF + 0x3FF overflows
    assert!(!c.enabled);
    c.write(0xFF14, 0x81); // freq 0x1FF: no overflow
    assert!(c.enabled);
}

#[test]
fn test_channel2_duty_steps() {
    let mut c = Channel2::new();
    c.write(0xFF16, 0x00); // 12.5%: only the last step is high
    c.write(0xFF17, 0xA0);
    c.write(0xFF18, 0x00);
    c.write(0xFF19, 0x87); // freq 0x700: period (2048 - 1792) * 4 = 1024
    assert_eq!(c.level(), 0);
    c.step(1024 * 7);
    assert_eq!(c.duty_pos, 7);
    assert_eq!(c.level(), 10);
    c.step(1024);
    assert_eq!(c.duty_pos, 0);
}

#[test]
fn test_channel3_wave_output() {
    let mut c = Channel3::new();
    c.write(0xFF30, 0xAB);
    assert_eq!(c.read(0xFF30), 0xAB);
    c.write(0xFF1A, 0x80);
    c.write(0xFF1C, 0x20); // 100%
    assert_eq!(c.read(0xFF1C), 0xBF);
    c.write(0xFF1D, 0x00);
    c.write(0xFF1E, 0x87); // freq 0x700: period (2048 - 1792) * 2 = 512
    assert!(c.enabled);
    c.step(512);
    assert_eq!(c.wave_pos, 1);
    assert_eq!(c.sample_buf, 0x0B);
    assert_eq!(c.level(), 0x0B);
    c.write(0xFF1C, 0x40); // 50%
    assert_eq!(c.level(), 0x05);
    c.write(0xFF1A, 0x00);
    assert!(!c.enabled);
    let d = Channel3::default();
    assert!(!d.enabled);
}

#[test]
fn test_channel4_noise() {
    assert_eq!(Channel4::divisor(0), 8);
    assert_eq!(Channel4::divisor(3), 48);
    assert_eq!(Channel4::divisor(7), 112);
    let mut c = Channel4::new();
    c.write(0xFF22, 0x21);
    assert_eq!(c.period(), 64);
    c.write(0xFF21, 0xF0);
    c.write(0xFF23, 0x80);
    assert!(c.enabled);
    assert_eq!(c.lfsr, 0x7FFF);
    assert_eq!(c.level(), 0);
    c.step(64);
    assert_eq!(c.lfsr, 0x3FFF);
    assert_eq!(c.read(0xFF22), 0x21);
}

#[test]
fn test_length_counter() {
    let mut l = LengthCounter::new();
    l.load(64, 0);
    assert_eq!(l.counter, 64);
    l.load(64, 10);
    assert_eq!(l.counter, 54);
    assert!(!l.clock());
    assert_eq!(l.counter, 54);
    l.enabled = true;
    l.counter = 1;
    assert!(l.clock());
    assert!(l.clock());
    assert_eq!(l.counter, 0);
}

#[test]
fn test_volume_envelope() {
    let mut e = VolumeEnvelope::new();
    e.initial = 14;
    e.increase = true;
    e.period = 1;
    e.trigger();
    assert_eq!(e.volume, 14);
    assert_eq!(e.timer, 1);
    e.clock();
    assert_eq!(e.volume, 15);
    e.clock();
    assert_eq!(e.volume, 15);
    e.period = 0;
    e.trigger();
    assert_eq!(e.timer, 8);
}

#[test]
fn test_sweep_calculation() {
    let mut s = Sweep::new();
    s.shadow = 0x400;
    s.shift = 1;
    assert_eq!(s.calculate(), Some(0x600));
    s.negate = true;
    assert_eq!(s.calculate(), Some(0x200));
    s.negate = false;
    s.shadow = 0x7FF;
    s.shift = 0;
    assert_eq!(s.calculate(), None);
    s.period = 2;
    s.shift = 1;
    s.shadow = 0x100;
    s.trigger(0x100);
    assert!(s.enabled);
    assert_eq!(s.timer, 2);
    assert_eq!(s.clock(), Some(0));
    assert_eq!(s.clock(), Some(0x180));
    assert_eq!(s.freq, 0x180);
}

#[test]
fn test_duty_table_rows() {
    let rows: Vec<Vec<u8>> = (0..4u8).map(|d| (0..8usize).map(|p| duty_table(d, p)).collect()).collect();
    assert_eq!(rows[0], vec![0, 0, 0, 0, 0, 0, 0, 1]);
    assert_eq!(rows[1], vec![1, 0, 0, 0, 0, 0, 0, 1]);
    assert_eq!(rows[2], vec![1, 0, 0, 0, 0, 1, 1, 1]);
    assert_eq!(rows[3], vec![0, 1, 1, 1, 1, 1, 1, 0]);
}

#[test]
fn test_apu_power_off_resets_channels() {
    let mut a = Apu::new();
    a.write(0xFF16, 0x80);
    a.write(0xFF17, 0xF0);
    a.write(0xFF19, 0x80);
    a.write(0xFF12, 0xF3);
    assert_eq!(a.read(0xFF26), 0xF2);
    a.write(0xFF26, 0x00);
    assert_eq!(a.read(0xFF26), 0x70);
    assert!(!a.ch2.enabled);
    assert_eq!(a.ch2.level(), 0);
    assert_eq!(a.read(0xFF12), 0x00);
    assert_eq!(a.read(0xFF17), 0x00);
    assert_eq!(a.read(0xFF24), 0x00);
    assert_eq!(a.read(0xFF25), 0x00);
    // Writing NR52 with the APU already off resets nothing more.
    a.write(0xFF24, 0x33);
    a.write(0xFF26, 0x00);
    assert_eq!(a.read(0xFF24), 0x33);
}
