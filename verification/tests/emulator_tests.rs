use gbc_emulator::emulator::{Emulator, CYCLES_PER_FRAME};
use gbc_emulator::joypad::Button;

#[test]
fn test_minimal_rom_load() {
    // A minimal ROM with valid header enough to construct emulator
    let mut rom = vec![0u8; 0x150];
    rom[0x0100] = 0x00; // NOP
    rom[0x0101] = 0x18; // JR
    rom[0x0102] = 0xFE; // -2 (infinite loop)
    rom[0x0104] = 0xCE; // Nintendo logo start (fake)
    rom[0x0147] = 0x00; // ROM Only
    rom[0x0148] = 0x00; // 32KB ROM
    rom[0x0149] = 0x00; // No RAM
    let emu = Emulator::new(rom);
    assert!(!emu.cgb_mode());
    assert_eq!(emu.framebuffer().len(), 160 * 144 * 4);
}

#[test]
fn test_cgb_detection() {
    let mut rom = vec![0u8; 0x150];
    rom[0x0143] = 0xC0; // CGB only
    let emu = Emulator::new(rom);
    assert!(emu.cgb_mode());
}

#[test]
fn test_frame_runs() {
    let mut rom = vec![0u8; 0x8000];
    rom[0x0100] = 0x00; // NOP loop
    rom[0x0101] = 0x18;
    rom[0x0102] = 0xFE;
    let mut emu = Emulator::new(rom);
    // Should not panic
    emu.run_frame();
    assert_eq!(emu.framebuffer().len(), 160 * 144 * 4);
}

#[test]
fn test_joypad_press_release() {
    let rom = vec![0u8; 0x150];
    let mut emu = Emulator::new(rom);
    emu.press_button(Button::A);
    emu.release_button(Button::A);
}

fn jr_loop_rom() -> Vec<u8> {
    let mut rom = vec![0u8; 0x8000];
    rom[0x0100] = 0x00;
    rom[0x0101] = 0x18;
    rom[0x0102] = 0xFE;
    rom
}

#[test]
fn test_cgb_compatible_flag() {
    let mut rom = vec![0u8; 0x150];
    rom[0x0143] = 0x80;
    assert!(Emulator::new(rom).cgb_mode());
    let mut rom = vec![0u8; 0x150];
    rom[0x0143] = 0x81;
    assert!(!Emulator::new(rom).cgb_mode());
}

#[test]
fn test_boot_state() {
    let emu = Emulator::new(jr_loop_rom());
    assert_eq!(emu.cycle_count(), 0);
    assert_eq!(emu.cpu.regs.pc, 0x0100);
    assert_eq!(emu.cpu.regs.sp, 0xFFFE);
    assert_eq!(emu.cpu.regs.a, 0x01);
    let mut rom = jr_loop_rom();
    rom[0x0143] = 0xC0;
    let emu = Emulator::new(rom);
    assert_eq!(emu.cpu.regs.a, 0x11);
}

#[test]
fn test_frame_cycle_count() {
    // NOP (4 cycles) then JR -2 (12 cycles) forever. VBlank begins at 65664 T-cycles,
    // inside a JR; the frame is latched and the loop returns once that JR is done.
    let mut emu = Emulator::new(jr_loop_rom());
    emu.run_frame();
    assert!(emu.mmu.is_frame_ready());
    assert_eq!(emu.cycle_count(), 65668);
    assert_eq!(emu.cpu.regs.pc, 0x0101);
    // The next frame completes one full frame (70224 dots) later.
    emu.run_frame();
    assert!(emu.mmu.is_frame_ready());
    assert_eq!(emu.cycle_count(), 65668 + 70224);
}

#[test]
fn test_frame_runs_returns_with_frame_ready() {
    let mut rom = vec![0u8; 0x8000];
    rom[0x0100] = 0x00;
    rom[0x0101] = 0x18;
    rom[0x0102] = 0xFE;
    let mut emu = Emulator::new(rom);
    emu.run_frame();
    assert_eq!(emu.framebuffer().len(), 160 * 144 * 4);
    assert!(emu.mmu.is_frame_ready());
}

#[test]
fn test_frame_with_lcd_off_runs_cycle_budget() {
    // LD A,0x11; LDH (0x40),A turns the LCD off; then JR -2.
    let mut rom = jr_loop_rom();
    rom[0x0100..0x0106].copy_from_slice(&[0x3E, 0x11, 0xE0, 0x40, 0x18, 0xFE]);
    let mut emu = Emulator::new(rom);
    emu.run_frame();
    assert!(!emu.mmu.is_frame_ready());
    assert!(emu.cycle_count() >= CYCLES_PER_FRAME as u64);
    assert!(emu.cycle_count() < CYCLES_PER_FRAME as u64 + 24);
}

#[test]
fn test_cart_title_ascii() {
    let mut rom = jr_loop_rom();
    rom[0x134..0x13C].copy_from_slice(b"TESTGAME");
    let emu = Emulator::new(rom);
    assert_eq!(emu.cart_title(), "TESTGAME");
}

#[test]
fn test_cart_title_invalid_utf8_replaced() {
    let mut rom = jr_loop_rom();
    rom[0x134] = b'A';
    rom[0x135] = 0xFF;
    rom[0x136] = b'B';
    let emu = Emulator::new(rom);
    assert_eq!(emu.cart_title(), "A\u{FFFD}B");
}

#[test]
fn test_cart_title_full_length() {
    let mut rom = jr_loop_rom();
    rom[0x134..0x144].copy_from_slice(b"ABCDEFGHIJKLMNOP");
    let emu = Emulator::new(rom);
    assert_eq!(emu.cart_title(), "ABCDEFGHIJKLMNOP");
}

#[test]
fn test_drain_audio_after_frame() {
    let mut emu = Emulator::new(jr_loop_rom());
    emu.run_frame();
    let samples = emu.drain_audio();
    // One sample every 87 T-cycles while the APU is on (it is at power-on).
    assert_eq!(samples.len(), 65668 / 87);
    assert!(emu.drain_audio().is_empty());
}

#[test]
fn test_press_button_reaches_p1() {
    let mut emu = Emulator::new(jr_loop_rom());
    emu.mmu.write_byte(0xFF00, 0x10); // select action buttons
    assert_eq!(emu.mmu.read_byte(0xFF00), 0xDF);
    emu.press_button(Button::Start);
    assert_eq!(emu.mmu.read_byte(0xFF00), 0xD7);
    emu.release_button(Button::Start);
    assert_eq!(emu.mmu.read_byte(0xFF00), 0xDF);
}

#[test]
fn test_flags_low_nibble_stays_clear() {
    let mut rom = jr_loop_rom();
    // POP AF from a stack filled with 0xFF, then loop.
    rom[0x0100] = 0x31; // LD SP,0xC000
    rom[0x0101] = 0x00;
    rom[0x0102] = 0xC0;
    rom[0x0103] = 0xF1; // POP AF
    rom[0x0104] = 0x18; // JR -2
    rom[0x0105] = 0xFE;
    let mut emu = Emulator::new(rom);
    emu.mmu.write_byte(0xC000, 0xFF);
    emu.mmu.write_byte(0xC001, 0x12);
    emu.run_frame();
    assert_eq!(emu.cpu.regs.f, 0xF0);
    assert_eq!(emu.cpu.regs.a, 0x12);
    assert_eq!(emu.cpu.regs.f & 0x0F, 0);
}
