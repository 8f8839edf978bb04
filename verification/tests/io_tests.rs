use gbc_emulator::joypad::{Button, Joypad};
use gbc_emulator::serial::Serial;
use gbc_emulator::timer::Timer;

#[test]
fn test_timer_boot_registers() {
    let t = Timer::new();
    assert_eq!(t.internal_div, 0xABCC);
    assert_eq!(t.read(0xFF03), 0xAB);
    assert_eq!(t.read(0xFF05), 0x00);
    assert_eq!(t.read(0xFF07), 0xF8);
    assert_eq!(t.read(0xFF10), 0xFF);
    let d = Timer::default();
    assert_eq!(d.internal_div, 0xABCC);
}

#[test]
fn test_timer_div_write_resets() {
    let mut t = Timer::new();
    t.write(0xFF03, 0x5A);
    assert_eq!(t.internal_div, 0);
    assert_eq!(t.read(0xFF03), 0);
    t.step(256);
    assert_eq!(t.read(0xFF03), 1);
}

#[test]
fn test_timer_tac_bits() {
    assert_eq!(Timer::tac_bit(0), 9);
    assert_eq!(Timer::tac_bit(1), 3);
    assert_eq!(Timer::tac_bit(2), 5);
    assert_eq!(Timer::tac_bit(3), 7);
    assert_eq!(Timer::tac_bit(0x05), 3);
}

#[test]
fn test_timer_tima_counts_at_selected_rate() {
    let mut t = Timer::new();
    t.write(0xFF03, 0);
    t.write(0xFF07, 0x05); // enabled, CPU / 16
    t.step(15);
    assert_eq!(t.tima, 0);
    t.step(1);
    assert_eq!(t.tima, 1);
    t.step(160);
    assert_eq!(t.tima, 11);
}

#[test]
fn test_timer_disabled_keeps_tima() {
    let mut t = Timer::new();
    t.write(0xFF07, 0x01); // clock select set, timer disabled
    t.step(4096);
    assert_eq!(t.tima, 0);
}

#[test]
fn test_timer_overflow_reload_after_delay() {
    let mut t = Timer::new();
    t.write(0xFF03, 0);
    t.write(0xFF06, 0x42);
    t.write(0xFF05, 0xFF);
    t.write(0xFF07, 0x05);
    t.step(16);
    assert_eq!(t.tima, 0);
    assert!(!t.interrupt_requested);
    t.step(3);
    assert_eq!(t.tima, 0);
    t.step(1);
    assert_eq!(t.tima, 0x42);
    assert!(t.interrupt_requested);
}

#[test]
fn test_timer_tima_write_cancels_reload() {
    let mut t = Timer::new();
    t.write(0xFF03, 0);
    t.write(0xFF06, 0x42);
    t.write(0xFF05, 0xFF);
    t.write(0xFF07, 0x05);
    t.step(16);
    t.write(0xFF05, 0x10);
    t.step(4);
    assert_eq!(t.tima, 0x10);
    assert!(!t.interrupt_requested);
}

#[test]
fn test_timer_single_tick() {
    let mut t = Timer::new();
    t.tick();
    assert_eq!(t.internal_div, 0xABCD);
}

#[test]
fn test_serial_registers() {
    let mut s = Serial::new();
    assert_eq!(s.read(0xFF01), 0x00);
    assert_eq!(s.read(0xFF02), 0x7E);
    s.write(0xFF01, 0x42);
    assert_eq!(s.read(0xFF01), 0x42);
    s.write(0xFF02, 0x80); // external clock: nothing happens
    assert_eq!(s.read(0xFF02), 0xFE);
    assert!(!s.interrupt_requested);
}

#[test]
fn test_serial_internal_transfer_completes() {
    let mut s = Serial::new();
    s.write(0xFF01, 0x42);
    s.write(0xFF02, 0x81);
    assert_eq!(s.read(0xFF01), 0xFF);
    assert_eq!(s.read(0xFF02), 0x7F);
    assert!(s.interrupt_requested);
    assert_eq!(s.read(0xFF03), 0xFF);
}

#[test]
fn test_joypad_nothing_selected() {
    let mut j = Joypad::new();
    assert_eq!(j.read(), 0xFF);
    j.press(Button::A);
    assert_eq!(j.read(), 0xFF);
}

#[test]
fn test_joypad_direction_group() {
    let mut j = Joypad::new();
    j.write(0x20);
    assert_eq!(j.read(), 0xEF);
    j.press(Button::Down);
    assert_eq!(j.read(), 0xE7);
    assert!(j.interrupt_requested);
    j.release(Button::Down);
    assert_eq!(j.read(), 0xEF);
}

#[test]
fn test_joypad_action_group() {
    let mut j = Joypad::new();
    j.write(0x10);
    assert_eq!(j.read(), 0xDF);
    j.press(Button::A);
    j.press(Button::Select);
    assert_eq!(j.read(), 0xDA);
    j.release(Button::A);
    assert_eq!(j.read(), 0xDB);
    j.press(Button::Right); // direction group not selected
    assert_eq!(j.read(), 0xDB);
}

#[test]
fn test_joypad_press_without_change_no_interrupt() {
    let mut j = Joypad::new();
    j.write(0x10);
    j.press(Button::B);
    j.interrupt_requested = false;
    j.press(Button::B);
    assert!(!j.interrupt_requested);
}

#[test]
fn test_joypad_no_group_selected_reads_high() {
    let mut j = Joypad::new();
    j.write(0x30);
    assert_eq!(j.read(), 0xFF);
    j.press(Button::A);
    j.press(Button::Up);
    assert_eq!(j.read(), 0xFF);
    assert!(!j.interrupt_requested);
    j.write(0x00); // both groups selected: their lines are combined
    assert_eq!(j.read(), 0xCB);
}
