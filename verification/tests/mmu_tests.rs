use gbc_emulator::cartridge::load;
use gbc_emulator::mmu::Mmu;

fn bus(cgb: bool) -> Mmu {
    let mut rom = vec![0u8; 0x8000];
    for i in 0..0x8000usize {
        rom[i] = (i % 251) as u8;
    }
    rom[0x147] = 0x00;
    Mmu::new(load(rom), cgb)
}

#[test]
fn test_mmu_rom_reads() {
    let m = bus(false);
    assert_eq!(m.read_byte(0x0000), 0);
    assert_eq!(m.read_byte(0x1234), (0x1234 % 251) as u8);
    assert_eq!(m.read_byte(0x7FFF), (0x7FFF % 251) as u8);
}

#[test]
fn test_mmu_wram_and_echo() {
    let mut m = bus(false);
    m.write_byte(0xC123, 0x42);
    assert_eq!(m.read_byte(0xC123), 0x42);
    assert_eq!(m.read_byte(0xE123), 0x42);
    m.write_byte(0xF456, 0x99);
    assert_eq!(m.read_byte(0xD456), 0x99);
    assert_eq!(m.read_byte(0xC456), 0x00);
}

#[test]
fn test_mmu_wram_banks_cgb() {
    let mut m = bus(true);
    m.write_byte(0xD000, 0x11);
    assert_eq!(m.read_byte(0xFF70), 0xF9);
    m.write_byte(0xFF70, 0x02);
    assert_eq!(m.read_byte(0xFF70), 0xFA);
    assert_eq!(m.read_byte(0xD000), 0x00);
    m.write_byte(0xD000, 0x22);
    m.write_byte(0xFF70, 0x00); // bank 0 selects bank 1
    assert_eq!(m.read_byte(0xFF70), 0xF9);
    assert_eq!(m.read_byte(0xD000), 0x11);
    m.write_byte(0xFF70, 0x0A); // only the low 3 bits count
    assert_eq!(m.read_byte(0xD000), 0x22);
}

#[test]
fn test_mmu_wram_bank_ignored_on_dmg() {
    let mut m = bus(false);
    m.write_byte(0xD000, 0x11);
    m.write_byte(0xFF70, 0x03);
    assert_eq!(m.read_byte(0xFF70), 0xF9);
    assert_eq!(m.read_byte(0xD000), 0x11);
}

#[test]
fn test_mmu_hram_ie_if() {
    let mut m = bus(false);
    m.write_byte(0xFF80, 0x12);
    m.write_byte(0xFFFE, 0x34);
    assert_eq!(m.read_byte(0xFF80), 0x12);
    assert_eq!(m.read_byte(0xFFFE), 0x34);
    m.write_byte(0xFFFF, 0x1F);
    assert_eq!(m.read_byte(0xFFFF), 0x1F);
    assert_eq!(m.read_byte(0xFF0F), 0xE1);
    m.write_byte(0xFF0F, 0x00);
    assert_eq!(m.read_byte(0xFF0F), 0xE0);
}

#[test]
fn test_mmu_unmapped_regions() {
    let mut m = bus(false);
    assert_eq!(m.read_byte(0xFEA0), 0x00);
    m.write_byte(0xFEA0, 0x55);
    assert_eq!(m.read_byte(0xFEA0), 0x00);
    assert_eq!(m.read_byte(0xFF08), 0xFF);
    assert_eq!(m.read_byte(0xFF4D), 0xFF);
    assert_eq!(m.read_byte(0xFF50), 0xFF);
    assert_eq!(m.read_byte(0xFF72), 0xFF);
    // Cartridge RAM is absent on a ROM-only cartridge.
    assert_eq!(m.read_byte(0xA000), 0xFF);
}

#[test]
fn test_mmu_div_alias() {
    let mut m = bus(false);
    assert_eq!(m.read_byte(0xFF04), 0xAB);
    assert_eq!(m.read_byte(0xFF03), 0xAB);
    m.write_byte(0xFF04, 0x77);
    assert_eq!(m.read_byte(0xFF04), 0x00);
}

#[test]
fn test_mmu_timer_interrupt_collected() {
    let mut m = bus(false);
    m.write_byte(0xFF04, 0);
    m.write_byte(0xFF05, 0xFF);
    m.write_byte(0xFF07, 0x05);
    m.tick(20);
    assert_eq!(m.read_byte(0xFF0F), 0xE5);
    assert!(!m.timer.interrupt_requested);
}

#[test]
fn test_mmu_serial_interrupt_collected() {
    let mut m = bus(false);
    m.write_byte(0xFF02, 0x81);
    m.tick(4);
    assert_eq!(m.read_byte(0xFF0F), 0xE9);
}

#[test]
fn test_mmu_oam_dma() {
    let mut m = bus(false);
    m.write_byte(0xFF40, 0x11); // LCD off so OAM is readable
    for i in 0..160u16 {
        m.write_byte(0xC000 + i, (i as u8) ^ 0x5A);
    }
    m.write_byte(0xFF46, 0xC0);
    assert_eq!(m.read_byte(0xFF46), 0xC0);
    m.tick(4);
    assert_eq!(m.read_byte(0xFE00), 0x5A);
    assert_eq!(m.read_byte(0xFE01), 0x00);
    m.tick(636);
    for i in 0..160u16 {
        assert_eq!(m.read_byte(0xFE00 + i), (i as u8) ^ 0x5A);
    }
}

#[test]
fn test_mmu_oam_dma_from_rom() {
    let mut m = bus(false);
    m.write_byte(0xFF40, 0x11);
    m.write_byte(0xFF46, 0x12);
    m.tick(640);
    for i in 0..160u16 {
        assert_eq!(m.read_byte(0xFE00 + i), ((0x1200 + i as usize) % 251) as u8);
    }
}

#[test]
fn test_mmu_general_purpose_dma() {
    let mut m = bus(true);
    for i in 0..32u16 {
        m.write_byte(0xC000 + i, 0x80 + i as u8);
    }
    m.write_byte(0xFF51, 0xC0);
    m.write_byte(0xFF52, 0x00);
    m.write_byte(0xFF53, 0x01);
    m.write_byte(0xFF54, 0x00);
    m.write_byte(0xFF55, 0x01); // two blocks of 16 bytes
    assert_eq!(m.read_byte(0xFF55), 0xFF);
    for i in 0..32u16 {
        assert_eq!(m.read_byte(0x8100 + i), 0x80 + i as u8);
    }
    assert_eq!(m.read_byte(0x8120), 0x00);
}

#[test]
fn test_mmu_speed_switch() {
    let mut m = bus(true);
    m.write_byte(0xFF4D, 0x01);
    assert!(m.prepare_speed);
    m.switch_speed();
    assert!(m.double_speed);
    assert!(!m.prepare_speed);
    m.switch_speed();
    assert!(m.double_speed);
    let mut d = bus(false);
    d.write_byte(0xFF4D, 0x01);
    assert!(!d.prepare_speed);
    d.switch_speed();
    assert!(!d.double_speed);
}

#[test]
fn test_mmu_frame_ready_and_framebuffer() {
    let mut m = bus(false);
    assert!(!m.is_frame_ready());
    assert_eq!(m.framebuffer().len(), 160 * 144 * 4);
    for _ in 0..(144 * 456 / 4) {
        m.tick(4);
    }
    assert!(m.is_frame_ready());
    assert_eq!(m.read_byte(0xFF44), 144);
    assert_eq!(m.read_byte(0xFF0F) & 0x01, 0x01);
    m.tick(4);
    // The completed frame stays latched until it is cleared.
    assert!(m.is_frame_ready());
    m.clear_frame_ready();
    assert!(!m.is_frame_ready());
}

#[test]
fn test_mmu_joypad_register() {
    let mut m = bus(false);
    m.write_byte(0xFF00, 0x20);
    assert_eq!(m.read_byte(0xFF00), 0xEF);
}

#[test]
fn test_mmu_apu_and_ppu_registers() {
    let mut m = bus(false);
    assert_eq!(m.read_byte(0xFF26), 0xF0);
    assert_eq!(m.read_byte(0xFF40), 0x91);
    m.write_byte(0xFF42, 0x33);
    assert_eq!(m.read_byte(0xFF42), 0x33);
    m.write_byte(0xFF24, 0x55);
    assert_eq!(m.read_byte(0xFF24), 0x55);
}

#[test]
fn test_mmu_ticks_keep_ram() {
    let mut m = bus(false);
    m.write_byte(0xC000, 0x11);
    m.write_byte(0xDFFF, 0x22);
    m.write_byte(0xFF90, 0x33);
    m.write_byte(0xFFFF, 0x05);
    for _ in 0..1000 {
        m.tick(4);
    }
    assert_eq!(m.read_byte(0xC000), 0x11);
    assert_eq!(m.read_byte(0xDFFF), 0x22);
    assert_eq!(m.read_byte(0xFF90), 0x33);
    assert_eq!(m.read_byte(0xFFFF), 0x05);
}
