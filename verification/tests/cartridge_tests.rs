use gbc_emulator::cartridge::{extract_title, load, next_power_of_two, Cart, Cartridge, Mbc1, Mbc2, Mbc3, Mbc5, Rtc};

/// A ROM of `banks` 16 KiB banks whose bank `b` starts with the byte `b`.
fn banked_rom(banks: usize, mbc: u8, ram_code: u8) -> Vec<u8> {
    let mut rom = vec![0u8; banks * 0x4000];
    for b in 0..banks {
        rom[b * 0x4000] = b as u8;
        rom[b * 0x4000 + 1] = 0xA0 | (b as u8 & 0x0F);
    }
    rom[0x147] = mbc;
    rom[0x149] = ram_code;
    rom
}

#[test]
fn test_load_picks_controller() {
    assert!(matches!(load(banked_rom(2, 0x00, 0)), Cart::RomOnly(_)));
    assert!(matches!(load(banked_rom(2, 0x01, 0)), Cart::Mbc1(_)));
    assert!(matches!(load(banked_rom(2, 0x03, 0)), Cart::Mbc1(_)));
    assert!(matches!(load(banked_rom(2, 0x05, 0)), Cart::Mbc2(_)));
    assert!(matches!(load(banked_rom(2, 0x0F, 0)), Cart::Mbc3(_)));
    assert!(matches!(load(banked_rom(2, 0x13, 0)), Cart::Mbc3(_)));
    assert!(matches!(load(banked_rom(2, 0x19, 0)), Cart::Mbc5(_)));
    assert!(matches!(load(banked_rom(2, 0x1E, 0)), Cart::Mbc5(_)));
    assert!(matches!(load(banked_rom(2, 0x42, 0)), Cart::RomOnly(_)));
}

#[test]
fn test_load_battery_flag() {
    assert!(load(banked_rom(2, 0x03, 0)).has_battery());
    assert!(!load(banked_rom(2, 0x01, 0)).has_battery());
    assert!(load(banked_rom(2, 0x06, 0)).has_battery());
    assert!(load(banked_rom(2, 0x10, 0)).has_battery());
    assert!(load(banked_rom(2, 0x1B, 0)).has_battery());
    assert!(!load(banked_rom(2, 0x19, 0)).has_battery());
    // ROM-only cartridges report no battery even for battery-coded types.
    assert!(!load(banked_rom(2, 0xFF, 0)).has_battery());
}

#[test]
fn test_rom_only_reads() {
    let mut c = load(banked_rom(2, 0x00, 0));
    assert_eq!(c.read_rom(0x0000), 0);
    assert_eq!(c.read_rom(0x4000), 1);
    c.write_rom(0x2000, 5);
    assert_eq!(c.read_rom(0x4000), 1);
    assert_eq!(c.read_ram(0xA000), 0xFF);
    c.write_ram(0xA000, 1);
    assert_eq!(c.read_ram(0xA000), 0xFF);
}

#[test]
fn test_rom_only_short_rom_reads_ff() {
    let c = load(vec![0u8; 0x150]);
    assert_eq!(c.read_rom(0x14F), 0);
    assert_eq!(c.read_rom(0x150), 0xFF);
    assert_eq!(c.read_rom(0x7FFF), 0xFF);
}

#[test]
fn test_mbc1_rom_banking() {
    let mut m = Mbc1::new(banked_rom(4, 0x01, 0), 0, false);
    assert_eq!(m.read_rom(0x4000), 1);
    m.write_rom(0x2000, 2);
    assert_eq!(m.read_rom(0x4000), 2);
    m.write_rom(0x2000, 0);
    assert_eq!(m.read_rom(0x4000), 1);
    m.write_rom(0x2000, 7); // masked to the 4 banks present
    assert_eq!(m.read_rom(0x4000), 3);
    assert_eq!(m.read_rom(0x0000), 0);
    assert_eq!(m.read_rom(0x8000), 0xFF);
}

#[test]
fn test_mbc1_ram_enable_and_banks() {
    let mut m = Mbc1::new(banked_rom(4, 0x03, 0x03), 32 * 1024, true);
    assert_eq!(m.read_ram(0xA000), 0xFF);
    m.write_ram(0xA000, 0x55);
    m.write_rom(0x0000, 0x0A);
    assert_eq!(m.read_ram(0xA000), 0x00);
    m.write_ram(0xA000, 0x55);
    assert_eq!(m.read_ram(0xA000), 0x55);
    m.write_rom(0x6000, 0x01); // RAM banking mode
    m.write_rom(0x4000, 0x02);
    assert_eq!(m.read_ram(0xA000), 0x00);
    m.write_ram(0xA000, 0x77);
    m.write_rom(0x4000, 0x00);
    assert_eq!(m.read_ram(0xA000), 0x55);
    m.write_rom(0x0000, 0x00);
    assert_eq!(m.read_ram(0xA000), 0xFF);
    assert!(m.has_battery());
}

#[test]
fn test_mbc1_upper_bits_and_rom0_offset() {
    let mut m = Mbc1::new(banked_rom(64, 0x01, 0), 0, false);
    m.write_rom(0x2000, 0x01);
    m.write_rom(0x4000, 0x01); // ROM banking mode: bits 5-6 of the bank
    assert_eq!(m.read_rom(0x4000), 33);
    assert_eq!(m.effective_rom0_offset(), 0);
    m.write_rom(0x6000, 0x01);
    m.write_rom(0x4000, 0x01);
    assert_eq!(m.effective_rom0_offset(), 32 * 0x4000);
    assert_eq!(m.read_rom(0x0000), 32);
}

#[test]
fn test_mbc1_minimum_ram() {
    let mut m = Mbc1::new(banked_rom(2, 0x01, 0), 0, false);
    assert_eq!(m.ram.len(), 8 * 1024);
    m.write_rom(0x0000, 0x0A);
    m.write_ram(0xBFFF, 0x12);
    assert_eq!(m.read_ram(0xBFFF), 0x12);
}

#[test]
fn test_mbc2_nibble_ram() {
    let mut m = Mbc2::new(banked_rom(4, 0x05, 0), false);
    m.write_rom(0x0000, 0x0A); // bit 8 clear: RAM enable
    m.write_ram(0xA000, 0xAB);
    assert_eq!(m.read_ram(0xA000), 0xFB);
    assert_eq!(m.read_ram(0xA200), 0xFB); // 512 cells, mirrored
    m.write_rom(0x0100, 0x03); // bit 8 set: ROM bank
    assert_eq!(m.read_rom(0x4000), 3);
    m.write_rom(0x0100, 0x00);
    assert_eq!(m.read_rom(0x4000), 1);
    m.write_rom(0x0000, 0x00);
    assert_eq!(m.read_ram(0xA000), 0xFF);
}

#[test]
fn test_mbc3_rom_and_ram() {
    let mut m = Mbc3::new(banked_rom(8, 0x13, 0x03), 32 * 1024, true);
    m.write_rom(0x2000, 0x05);
    assert_eq!(m.read_rom(0x4000), 5);
    m.write_rom(0x2000, 0x00);
    assert_eq!(m.read_rom(0x4000), 1);
    m.write_rom(0x0000, 0x0A);
    m.write_rom(0x4000, 0x03);
    m.write_ram(0xA010, 0x3C);
    assert_eq!(m.read_ram(0xA010), 0x3C);
    m.write_rom(0x4000, 0x00);
    assert_eq!(m.read_ram(0xA010), 0x00);
    m.write_rom(0x4000, 0x05); // neither RAM bank nor RTC register
    assert_eq!(m.read_ram(0xA010), 0xFF);
}

#[test]
fn test_mbc3_rtc_registers_and_latch() {
    let mut m = Mbc3::new(banked_rom(2, 0x10, 0), 0, true);
    m.write_rom(0x0000, 0x0A);
    m.write_rom(0x4000, 0x08);
    m.write_ram(0xA000, 0xFF);
    assert_eq!(m.read_ram(0xA000), 0x3F);
    m.write_ram(0xA000, 5);
    m.write_rom(0x6000, 0x00);
    m.write_rom(0x6000, 0x01); // latch
    m.write_ram(0xA000, 9);
    assert_eq!(m.read_ram(0xA000), 5);
    m.write_rom(0x6000, 0x00);
    m.write_rom(0x6000, 0x01); // latch again
    assert_eq!(m.read_ram(0xA000), 9);
}

#[test]
fn test_rtc_counts_seconds() {
    let mut r = Rtc::new();
    r.tick(4_194_303);
    assert_eq!(r.read_reg(0x08), 0);
    r.tick(1);
    assert_eq!(r.read_reg(0x08), 1);
    assert_eq!(r.sub_seconds, 0);
}

#[test]
fn test_rtc_day_carry() {
    let mut r = Rtc::new();
    r.write_reg(0x08, 59);
    r.write_reg(0x09, 59);
    r.write_reg(0x0A, 23);
    r.write_reg(0x0B, 0xFF);
    r.write_reg(0x0C, 0x01);
    r.tick(4_194_304);
    assert_eq!(r.read_reg(0x08), 0);
    assert_eq!(r.read_reg(0x09), 0);
    assert_eq!(r.read_reg(0x0A), 0);
    assert_eq!(r.read_reg(0x0B), 0);
    assert_eq!(r.read_reg(0x0C), 0x80);
}

#[test]
fn test_rtc_day_rollover_into_bit8() {
    let mut r = Rtc::new();
    r.write_reg(0x08, 59);
    r.write_reg(0x09, 59);
    r.write_reg(0x0A, 23);
    r.write_reg(0x0B, 0xFF);
    r.tick(4_194_304);
    assert_eq!(r.read_reg(0x0B), 0x00);
    assert_eq!(r.read_reg(0x0C), 0x01);
}

#[test]
fn test_rtc_halt_and_register_masks() {
    let mut r = Rtc::new();
    r.write_reg(0x0C, 0xFF);
    assert_eq!(r.read_reg(0x0C), 0xC1);
    r.tick(10_000_000);
    assert_eq!(r.read_reg(0x08), 0);
    r.write_reg(0x0A, 0xFF);
    assert_eq!(r.read_reg(0x0A), 0x1F);
    assert_eq!(r.read_reg(0x0D), 0xFF);
}

#[test]
fn test_rtc_latch_freezes_reads() {
    let mut r = Rtc::new();
    r.write_reg(0x09, 7);
    r.latch();
    r.write_reg(0x09, 8);
    assert_eq!(r.read_reg(0x09), 7);
    assert_eq!(r.minutes, 8);
}

#[test]
fn test_mbc5_nine_bit_bank() {
    let mut m = Mbc5::new(banked_rom(4, 0x19, 0), 0, false);
    m.write_rom(0x2000, 0x02);
    assert_eq!(m.read_rom(0x4000), 2);
    m.write_rom(0x3000, 0x01);
    assert_eq!(m.rom_bank, 0x102);
    assert_eq!(m.read_rom(0x4000), 2);
    m.write_rom(0x2000, 0x00); // bank 0 is selectable on MBC5
    m.write_rom(0x3000, 0x00);
    assert_eq!(m.read_rom(0x4000), 0);
}

#[test]
fn test_mbc5_ram_banks() {
    let mut m = Mbc5::new(banked_rom(2, 0x1B, 0x03), 32 * 1024, true);
    m.write_rom(0x0000, 0x0A);
    m.write_rom(0x4000, 0x01);
    m.write_ram(0xA000, 0x21);
    m.write_rom(0x4000, 0x11); // only the low nibble counts
    assert_eq!(m.read_ram(0xA000), 0x21);
    m.write_rom(0x4000, 0x05); // beyond the RAM present
    assert_eq!(m.read_ram(0xA000), 0xFF);
}

#[test]
fn test_next_power_of_two_values() {
    assert_eq!(next_power_of_two(0), 1);
    assert_eq!(next_power_of_two(1), 1);
    assert_eq!(next_power_of_two(3), 4);
    assert_eq!(next_power_of_two(4), 4);
    assert_eq!(next_power_of_two(5), 8);
    assert_eq!(next_power_of_two(72), 128);
}

#[test]
fn test_extract_title_stops_at_zero() {
    let mut rom = vec![0u8; 0x150];
    rom[0x134..0x138].copy_from_slice(b"ZELD");
    rom[0x139] = b'X';
    assert_eq!(extract_title(&rom), "ZELD");
}

#[test]
fn test_load_rom_only_title_and_reads() {
    let mut rom = vec![0u8; 0x150];
    rom[0x134] = 0x54;
    rom[0x135] = 0x45;
    rom[0x136] = 0x53;
    rom[0x137] = 0x54;
    rom[0x147] = 0x00;
    let c = load(rom);
    assert_eq!(c.title(), "TEST");
    assert!(!c.has_battery());
    assert_eq!(c.read_rom(0x0134), 0x54);
    assert_eq!(c.read_ram(0xA000), 0xFF);
}

#[test]
fn test_rtc_large_tick() {
    let mut r = Rtc::new();
    r.tick(u32::MAX);
    assert_eq!(r.read_reg(0x08), 3);
    assert_eq!(r.read_reg(0x09), 17);
    assert_eq!(r.sub_seconds, 4_194_303);
}
