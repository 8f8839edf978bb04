use gbc_emulator::ppu::render::{bgr555_to_rgba, Sprite};
use gbc_emulator::ppu::{Ppu, FRAMEBUFFER_SIZE, SCREEN_H, SCREEN_W};

fn pixel(p: &Ppu, x: usize, y: usize) -> [u8; 4] {
    let i = (y * SCREEN_W + x) * 4;
    [p.framebuffer[i], p.framebuffer[i + 1], p.framebuffer[i + 2], p.framebuffer[i + 3]]
}

#[test]
fn test_ppu_boot_registers() {
    let p = Ppu::new(false);
    assert_eq!(p.read(0xFF40), 0x91);
    assert_eq!(p.read(0xFF41), 0x86);
    assert_eq!(p.read(0xFF44), 0x00);
    assert_eq!(p.read(0xFF47), 0xFC);
    assert_eq!(p.read(0xFF48), 0xFF);
    assert_eq!(p.read(0xFF4F), 0xFE);
    assert_eq!(p.read(0xFF55), 0xFF);
    assert_eq!(p.read(0xFF60), 0xFF);
    assert_eq!(p.framebuffer.len(), FRAMEBUFFER_SIZE);
    assert_eq!(FRAMEBUFFER_SIZE, SCREEN_W * SCREEN_H * 4);
}

#[test]
fn test_ppu_mode_timing() {
    let mut p = Ppu::new(false);
    p.step(79);
    assert_eq!(p.read(0xFF41) & 0x03, 2);
    p.step(1);
    assert_eq!(p.read(0xFF41) & 0x03, 3);
    p.step(172);
    assert_eq!(p.read(0xFF41) & 0x03, 0);
    p.step(204);
    assert_eq!(p.read(0xFF44), 1);
    assert_eq!(p.read(0xFF41) & 0x03, 2);
}

#[test]
fn test_ppu_vblank_and_frame() {
    let mut p = Ppu::new(false);
    p.step(144 * 456 - 1);
    assert!(!p.vblank_irq);
    p.step(1);
    assert_eq!(p.read(0xFF44), 144);
    assert_eq!(p.read(0xFF41) & 0x03, 1);
    assert!(p.vblank_irq);
    assert!(p.frame_ready);
    p.step(10 * 456);
    assert_eq!(p.read(0xFF44), 0);
    assert_eq!(p.read(0xFF41) & 0x03, 2);
    assert!(!p.frame_ready);
}

#[test]
fn test_ppu_lyc_interrupt() {
    let mut p = Ppu::new(false);
    p.write(0xFF45, 2);
    p.write(0xFF41, 0x40);
    p.step(456);
    assert!(!p.stat_irq);
    p.step(456);
    assert!(p.stat_irq);
    assert_eq!(p.read(0xFF41) & 0x04, 0x04);
}

#[test]
fn test_ppu_lcd_off_resets() {
    let mut p = Ppu::new(false);
    p.step(1000);
    p.write(0xFF40, 0x11);
    assert_eq!(p.read(0xFF44), 0);
    assert_eq!(p.read(0xFF41) & 0x03, 0);
    assert!(p.framebuffer.iter().all(|&b| b == 0xFF));
    p.step(5000);
    assert_eq!(p.read(0xFF44), 0);
}

#[test]
fn test_ppu_vram_access() {
    let mut p = Ppu::new(false);
    p.write(0x8000, 0x12);
    assert_eq!(p.read(0x8000), 0x12);
    p.write(0x9FFF, 0x34);
    assert_eq!(p.read(0x9FFF), 0x34);
    p.step(80); // pixel transfer locks VRAM on DMG
    assert_eq!(p.read(0x8000), 0xFF);
    p.write(0x8000, 0x56);
    p.step(172);
    assert_eq!(p.read(0x8000), 0x12);
}

#[test]
fn test_ppu_vram_banks_cgb() {
    let mut p = Ppu::new(true);
    p.write(0x8000, 0x11);
    p.write(0xFF4F, 0x01);
    assert_eq!(p.read(0xFF4F), 0xFF);
    assert_eq!(p.read(0x8000), 0x00);
    p.write(0x8000, 0x22);
    p.write(0xFF4F, 0x00);
    assert_eq!(p.read(0x8000), 0x11);
    p.write(0xFF4F, 0x01);
    assert_eq!(p.read(0x8000), 0x22);
}

#[test]
fn test_ppu_oam_locked_during_scan() {
    let mut p = Ppu::new(false);
    p.write(0xFE00, 0x42);
    assert_eq!(p.read(0xFE00), 0xFF);
    p.step(80 + 172);
    p.write(0xFE00, 0x42);
    assert_eq!(p.read(0xFE00), 0x42);
}

#[test]
fn test_ppu_palette_auto_increment() {
    let mut p = Ppu::new(true);
    p.write(0xFF68, 0x80);
    p.write(0xFF69, 0x1F);
    p.write(0xFF69, 0x00);
    assert_eq!(p.read(0xFF68), 0x82);
    p.write(0xFF68, 0x00);
    assert_eq!(p.read(0xFF69), 0x1F);
    p.write(0xFF68, 0x01);
    assert_eq!(p.read(0xFF69), 0x00);
    p.write(0xFF68, 0xBF);
    p.write(0xFF69, 0x33);
    assert_eq!(p.read(0xFF68), 0x80);
    p.write(0xFF6A, 0x05);
    p.write(0xFF6B, 0x44);
    assert_eq!(p.read(0xFF6A), 0x05);
    assert_eq!(p.read(0xFF6B), 0x44);
}

#[test]
fn test_ppu_dma_register() {
    let mut p = Ppu::new(false);
    p.write(0xFF46, 0xC1);
    assert_eq!(p.read(0xFF46), 0xC1);
    assert!(p.dma_active);
    assert_eq!(p.dma_source, 0xC100);
    assert_eq!(p.dma_offset, 0);
}

#[test]
fn test_ppu_stat_write_keeps_low_bits() {
    let mut p = Ppu::new(false);
    p.write(0xFF41, 0xFF);
    assert_eq!(p.stat, 0xF9);
    p.write(0xFF44, 0x55); // LY is read-only
    assert_eq!(p.read(0xFF44), 0);
}

#[test]
fn test_bgr555_to_rgba_values() {
    assert_eq!(bgr555_to_rgba(0xFF, 0x7F), [255, 255, 255, 255]);
    assert_eq!(bgr555_to_rgba(0x00, 0x00), [0, 0, 0, 255]);
    assert_eq!(bgr555_to_rgba(0x1F, 0x00), [255, 0, 0, 255]);
    assert_eq!(bgr555_to_rgba(0xE0, 0x03), [0, 255, 0, 255]);
    assert_eq!(bgr555_to_rgba(0x00, 0x7C), [0, 0, 255, 255]);
    assert_eq!(bgr555_to_rgba(0x10, 0x00), [132, 0, 0, 255]);
}

#[test]
fn test_sprite_attributes() {
    let s = Sprite::from_oam(&[20, 30, 5, 0xF9]);
    assert_eq!(s.y, 20);
    assert_eq!(s.x, 30);
    assert_eq!(s.tile, 5);
    assert!(s.priority());
    assert!(s.y_flip());
    assert!(s.x_flip());
    assert_eq!(s.dmg_palette(), 1);
    assert_eq!(s.cgb_vram_bank(), 1);
    assert_eq!(s.cgb_palette(), 1);
    let t = Sprite::from_oam(&[0, 0, 0, 0x00]);
    assert!(!t.priority() && !t.y_flip() && !t.x_flip());
    assert_eq!(t.dmg_palette(), 0);
}

#[test]
fn test_render_background_dmg() {
    let mut p = Ppu::new(false);
    p.write(0x8010, 0xFF); // tile 1, row 0: color 1 everywhere
    p.write(0x9800, 0x01); // map (0,0) -> tile 1
    p.write(0xFF47, 0xE4);
    p.step(80 + 172); // line 0 is drawn at the end of pixel transfer
    assert_eq!(pixel(&p, 0, 0), [0xAA, 0xAA, 0xAA, 0xFF]);
    assert_eq!(pixel(&p, 7, 0), [0xAA, 0xAA, 0xAA, 0xFF]);
    assert_eq!(pixel(&p, 8, 0), [0xFF, 0xFF, 0xFF, 0xFF]);
}

#[test]
fn test_render_scroll_and_sprite_dmg() {
    let mut p = Ppu::new(false);
    p.write(0x8010, 0xFF); // tile 1 row 0: color 1
    p.write(0x8011, 0xFF); // ... color 3
    p.write(0x9801, 0x01); // map (1,0) -> tile 1
    p.write(0xFF47, 0xE4);
    p.write(0xFF43, 8); // SCX = 8: tile column 1 at x = 0
    p.write(0xFF40, 0x93); // sprites on
    p.write(0xFF48, 0xE4);
    // Sprite 0 at screen (4, 0) using tile 2, whose row 0 has color 2 in its first pixel.
    p.oam[0] = 16;
    p.oam[1] = 12;
    p.oam[2] = 2;
    p.oam[3] = 0x00;
    p.vram[0x20] = 0x00;
    p.vram[0x21] = 0x80;
    p.step(80 + 172);
    assert_eq!(pixel(&p, 0, 0), [0x00, 0x00, 0x00, 0xFF]);
    assert_eq!(pixel(&p, 4, 0), [0x55, 0x55, 0x55, 0xFF]);
    assert_eq!(pixel(&p, 5, 0), [0x00, 0x00, 0x00, 0xFF]);
    assert_eq!(pixel(&p, 8, 0), [0xFF, 0xFF, 0xFF, 0xFF]);
}

#[test]
fn test_render_sprite_behind_background() {
    let mut p = Ppu::new(false);
    p.write(0x8010, 0xFF);
    p.write(0x9800, 0x01);
    p.write(0xFF47, 0xE4);
    p.write(0xFF40, 0x93);
    p.write(0xFF48, 0xE4);
    p.oam[0] = 16;
    p.oam[1] = 8;
    p.oam[2] = 2;
    p.oam[3] = 0x80; // behind non-zero background colors
    p.vram[0x20] = 0xFF;
    p.vram[0x21] = 0xFF;
    p.step(80 + 172);
    assert_eq!(pixel(&p, 0, 0), [0xAA, 0xAA, 0xAA, 0xFF]);
}

#[test]
fn test_render_cgb_background_palette() {
    let mut p = Ppu::new(true);
    p.write(0x8010, 0xFF); // tile 1 row 0: color 1
    p.write(0x9800, 0x01);
    p.write(0xFF68, 0x82); // palette 0, color 1, auto-increment
    p.write(0xFF69, 0x1F); // red
    p.write(0xFF69, 0x00);
    p.step(80 + 172);
    assert_eq!(pixel(&p, 0, 0), [255, 0, 0, 255]);
}
