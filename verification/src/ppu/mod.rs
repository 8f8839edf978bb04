//! Picture Processing Unit (PPU)
//!
//! Produces a 160×144 RGBA framebuffer at ~59.7 Hz.
//! Supports both DMG (4 shades of grey) and CGB (full color) modes.

pub mod render;

use vstd::prelude::*;

verus! {

pub const SCREEN_W: usize = 160;
pub const SCREEN_H: usize = 144;
pub const FRAMEBUFFER_SIZE: usize = SCREEN_W * SCREEN_H * 4;

// PPU modes
pub const MODE_HBLANK: u8 = 0;
pub const MODE_VBLANK: u8 = 1;
pub const MODE_OAM_SCAN: u8 = 2;
pub const MODE_DRAWING: u8 = 3;

// Dots (T-states) per period
pub const DOTS_OAM_SCAN: u32 = 80;
pub const DOTS_DRAWING: u32 = 172;
pub const DOTS_HBLANK: u32 = 204;
pub const DOTS_PER_LINE: u32 = 456;
pub const LINES_VBLANK: u32 = 10;
pub const TOTAL_LINES: u32 = 154;

pub struct Ppu {
    // Registers
    pub lcdc: u8,
    pub stat: u8,
    pub scy: u8,
    pub scx: u8,
    pub ly: u8,
    pub lyc: u8,
    pub dma: u8,
    pub bgp: u8,
    pub obp0: u8,
    pub obp1: u8,
    pub wy: u8,
    pub wx: u8,
    // CGB registers
    pub vbk: u8,
    pub bcps: u8,
    /// BG color palette RAM (64 bytes).
    pub bcpd_buf: Vec<u8>,
    pub ocps: u8,
    /// OBJ color palette RAM (64 bytes).
    pub ocpd_buf: Vec<u8>,
    /// Two 8 KiB VRAM banks: bank `b`, offset `o` at index `b * 0x2000 + o`.
    pub vram: Vec<u8>,
    pub oam: Vec<u8>,
    // Internal state
    pub mode: u8,
    pub dots: u32,
    pub frame_dots: u32,
    /// RGBA8, 160×144.
    pub framebuffer: Vec<u8>,
    pub frame_ready: bool,
    // Interrupts
    pub vblank_irq: bool,
    pub stat_irq: bool,
    // OAM DMA
    pub dma_active: bool,
    pub dma_source: u16,
    pub dma_offset: u8,
    pub cgb_mode: bool,
    // Window internal line counter
    pub window_line_counter: u8,
    pub window_triggered: bool,
    // HDMA (CGB)
    pub hdma1: u8,
    pub hdma2: u8,
    pub hdma3: u8,
    pub hdma4: u8,
    pub hdma5: u8,
    pub hdma_active: bool,
    /// Whether the BG/window pixel of the current line has a non-zero color.
    pub bg_pixel_opaque: Vec<bool>,
    /// CGB BG-over-OBJ attribute of the BG/window pixel of the current line.
    pub bg_pixel_priority: Vec<bool>,
}

#[verifier::ext_equal]
pub struct PpuState {
    pub lcdc: u8,
    pub stat: u8,
    pub scy: u8,
    pub scx: u8,
    pub ly: u8,
    pub lyc: u8,
    pub dma: u8,
    pub bgp: u8,
    pub obp0: u8,
    pub obp1: u8,
    pub wy: u8,
    pub wx: u8,
    pub vbk: u8,
    pub bcps: u8,
    pub bcpd: Seq<u8>,
    pub ocps: u8,
    pub ocpd: Seq<u8>,
    pub vram: Seq<u8>,
    pub oam: Seq<u8>,
    pub mode: u8,
    pub dots: u32,
    pub frame_dots: u32,
    pub framebuffer: Seq<u8>,
    pub frame_ready: bool,
    pub vblank_irq: bool,
    pub stat_irq: bool,
    pub dma_active: bool,
    pub dma_source: u16,
    pub dma_offset: u8,
    pub cgb_mode: bool,
    pub window_line_counter: u8,
    pub window_triggered: bool,
    pub hdma1: u8,
    pub hdma2: u8,
    pub hdma3: u8,
    pub hdma4: u8,
    pub hdma5: u8,
    pub hdma_active: bool,
    pub bg_opaque: Seq<bool>,
    pub bg_priority: Seq<bool>,
}

impl View for Ppu {
    type V = PpuState;

    open spec fn view(&self) -> PpuState {
        PpuState {
            lcdc: self.lcdc,
            stat: self.stat,
            scy: self.scy,
            scx: self.scx,
            ly: self.ly,
            lyc: self.lyc,
            dma: self.dma,
            bgp: self.bgp,
            obp0: self.obp0,
            obp1: self.obp1,
            wy: self.wy,
            wx: self.wx,
            vbk: self.vbk,
            bcps: self.bcps,
            bcpd: self.bcpd_buf@,
            ocps: self.ocps,
            ocpd: self.ocpd_buf@,
            vram: self.vram@,
            oam: self.oam@,
            mode: self.mode,
            dots: self.dots,
            frame_dots: self.frame_dots,
            framebuffer: self.framebuffer@,
            frame_ready: self.frame_ready,
            vblank_irq: self.vblank_irq,
            stat_irq: self.stat_irq,
            dma_active: self.dma_active,
            dma_source: self.dma_source,
            dma_offset: self.dma_offset,
            cgb_mode: self.cgb_mode,
            window_line_counter: self.window_line_counter,
            window_triggered: self.window_triggered,
            hdma1: self.hdma1,
            hdma2: self.hdma2,
            hdma3: self.hdma3,
            hdma4: self.hdma4,
            hdma5: self.hdma5,
            hdma_active: self.hdma_active,
            bg_opaque: self.bg_pixel_opaque@,
            bg_priority: self.bg_pixel_priority@,
        }
    }
}

/// Dots already spent in the current line before the current mode began.
pub open spec fn mode_offset(mode: u8) -> int {
    if mode == MODE_DRAWING {
        80
    } else if mode == MODE_HBLANK {
        252
    } else {
        0
    }
}

impl PpuState {
    /// Buffer sizes.
    pub open spec fn buffers_ok(self) -> bool {
        &&& self.bcpd.len() == 64
        &&& self.ocpd.len() == 64
        &&& self.vram.len() == 0x4000
        &&& self.oam.len() == 160
        &&& self.framebuffer.len() == FRAMEBUFFER_SIZE
        &&& self.bg_opaque.len() == SCREEN_W
        &&& self.bg_priority.len() == SCREEN_W
    }

    /// Buffer sizes and the timing bounds that keep the counters in range.
    pub open spec fn inv(self) -> bool {
        &&& self.bcpd.len() == 64
        &&& self.ocpd.len() == 64
        &&& self.vram.len() == 0x4000
        &&& self.oam.len() == 160
        &&& self.framebuffer.len() == FRAMEBUFFER_SIZE
        &&& self.bg_opaque.len() == SCREEN_W
        &&& self.bg_priority.len() == SCREEN_W
        &&& self.mode <= 3
        &&& self.mode == MODE_OAM_SCAN ==> self.dots < DOTS_OAM_SCAN && self.ly < SCREEN_H
        &&& self.mode == MODE_DRAWING ==> self.dots < DOTS_DRAWING && self.ly < SCREEN_H
        &&& self.mode == MODE_HBLANK ==> self.dots < DOTS_HBLANK && self.ly < SCREEN_H
        &&& self.mode == MODE_VBLANK ==> self.dots < DOTS_PER_LINE && SCREEN_H <= self.ly < TOTAL_LINES
        &&& self.frame_dots <= self.ly * 456 + mode_offset(self.mode) + self.dots
        &&& self.dma_offset <= 160
    }

    pub open spec fn boot(cgb_mode: bool) -> PpuState {
        PpuState {
            lcdc: 0x91,
            stat: 0x81,
            scy: 0,
            scx: 0,
            ly: 0,
            lyc: 0,
            dma: 0xFF,
            bgp: 0xFC,
            obp0: 0xFF,
            obp1: 0xFF,
            wy: 0,
            wx: 0,
            vbk: 0,
            bcps: 0,
            bcpd: Seq::new(64, |i: int| 0xFFu8),
            ocps: 0,
            ocpd: Seq::new(64, |i: int| 0xFFu8),
            vram: Seq::new(0x4000, |i: int| 0u8),
            oam: Seq::new(160, |i: int| 0u8),
            mode: MODE_OAM_SCAN,
            dots: 0,
            frame_dots: 0,
            framebuffer: Seq::new(FRAMEBUFFER_SIZE as nat, |i: int| 0xFFu8),
            frame_ready: false,
            vblank_irq: false,
            stat_irq: false,
            dma_active: false,
            dma_source: 0,
            dma_offset: 0,
            cgb_mode,
            window_line_counter: 0,
            window_triggered: false,
            hdma1: 0xFF,
            hdma2: 0xFF,
            hdma3: 0xFF,
            hdma4: 0xFF,
            hdma5: 0xFF,
            hdma_active: false,
            bg_opaque: Seq::new(SCREEN_W as nat, |i: int| false),
            bg_priority: Seq::new(SCREEN_W as nat, |i: int| false),
        }
    }

    /// VRAM bank selected for CPU access.
    pub open spec fn cpu_vram_bank(self) -> int {
        if self.cgb_mode { (self.vbk % 2) as int } else { 0 }
    }

    /// VRAM is locked while pixels are transferred (DMG only).
    pub open spec fn vram_locked(self) -> bool {
        !self.cgb_mode && self.mode == MODE_DRAWING
    }

    /// OAM is locked during OAM scan and pixel transfer.
    pub open spec fn oam_locked(self) -> bool {
        self.mode >= MODE_OAM_SCAN
    }

    pub open spec fn spec_stat(self) -> u8 {
        (self.stat & 0xF8) | (if self.ly == self.lyc { 0x04u8 } else { 0u8 }) | (self.mode & 0x03)
    }

    pub open spec fn spec_read(self, addr: u16) -> u8 {
        if 0x8000 <= addr <= 0x9FFF {
            if self.vram_locked() {
                0xFF
            } else {
                self.vram[self.cpu_vram_bank() * 0x2000 + (addr - 0x8000)]
            }
        } else if 0xFE00 <= addr <= 0xFE9F {
            if self.oam_locked() { 0xFF } else { self.oam[addr - 0xFE00] }
        } else if addr == 0xFF40 {
            self.lcdc
        } else if addr == 0xFF41 {
            self.spec_stat()
        } else if addr == 0xFF42 {
            self.scy
        } else if addr == 0xFF43 {
            self.scx
        } else if addr == 0xFF44 {
            self.ly
        } else if addr == 0xFF45 {
            self.lyc
        } else if addr == 0xFF46 {
            self.dma
        } else if addr == 0xFF47 {
            self.bgp
        } else if addr == 0xFF48 {
            self.obp0
        } else if addr == 0xFF49 {
            self.obp1
        } else if addr == 0xFF4A {
            self.wy
        } else if addr == 0xFF4B {
            self.wx
        } else if addr == 0xFF4F {
            self.vbk | 0xFE
        } else if addr == 0xFF51 {
            self.hdma1
        } else if addr == 0xFF52 {
            self.hdma2
        } else if addr == 0xFF53 {
            self.hdma3
        } else if addr == 0xFF54 {
            self.hdma4
        } else if addr == 0xFF55 {
            self.hdma5
        } else if addr == 0xFF68 {
            self.bcps
        } else if addr == 0xFF69 {
            self.bcpd[(self.bcps % 64) as int]
        } else if addr == 0xFF6A {
            self.ocps
        } else if addr == 0xFF6B {
            self.ocpd[(self.ocps % 64) as int]
        } else {
            0xFF
        }
    }

    /// Palette index register after a data write: with auto-increment (bit 7) the index
    /// advances and wraps within 0..64.
    pub open spec fn next_palette_index(ps: u8) -> u8 {
        if ps & 0x80 != 0 { 0x80u8 | (((ps + 1) % 256) % 64) as u8 } else { ps }
    }

    pub open spec fn spec_write(self, addr: u16, value: u8) -> PpuState {
        if 0x8000 <= addr <= 0x9FFF {
            if self.vram_locked() {
                self
            } else {
                PpuState {
                    vram: self.vram.update(self.cpu_vram_bank() * 0x2000 + (addr - 0x8000), value),
                    ..self
                }
            }
        } else if 0xFE00 <= addr <= 0xFE9F {
            if self.oam_locked() { self } else { PpuState { oam: self.oam.update(addr - 0xFE00, value), ..self } }
        } else if addr == 0xFF40 {
            if self.lcdc & 0x80 != 0 && value & 0x80 == 0 {
                // LCD turned off: back to line 0 and a white screen.
                PpuState {
                    lcdc: value,
                    ly: 0,
                    mode: MODE_HBLANK,
                    dots: 0,
                    frame_dots: 0,
                    framebuffer: Seq::new(self.framebuffer.len(), |i: int| 0xFFu8),
                    ..self
                }
            } else {
                PpuState { lcdc: value, ..self }
            }
        } else if addr == 0xFF41 {
            PpuState { stat: (self.stat & 0x07) | (value & 0xF8), ..self }
        } else if addr == 0xFF42 {
            PpuState { scy: value, ..self }
        } else if addr == 0xFF43 {
            PpuState { scx: value, ..self }
        } else if addr == 0xFF45 {
            PpuState { lyc: value, ..self }
        } else if addr == 0xFF46 {
            PpuState {
                dma: value,
                dma_source: (value as u16 * 256) as u16,
                dma_active: true,
                dma_offset: 0,
                ..self
            }
        } else if addr == 0xFF47 {
            PpuState { bgp: value, ..self }
        } else if addr == 0xFF48 {
            PpuState { obp0: value, ..self }
        } else if addr == 0xFF49 {
            PpuState { obp1: value, ..self }
        } else if addr == 0xFF4A {
            PpuState { wy: value, ..self }
        } else if addr == 0xFF4B {
            PpuState { wx: value, ..self }
        } else if addr == 0xFF4F {
            PpuState { vbk: value % 2, ..self }
        } else if addr == 0xFF51 {
            PpuState { hdma1: value, ..self }
        } else if addr == 0xFF52 {
            PpuState { hdma2: value, ..self }
        } else if addr == 0xFF53 {
            PpuState { hdma3: value, ..self }
        } else if addr == 0xFF54 {
            PpuState { hdma4: value, ..self }
        } else if addr == 0xFF55 {
            // Bit 7 clear: general-purpose DMA (run by the bus); set: HBlank DMA.
            PpuState {
                hdma5: if value & 0x80 == 0 { value } else { value & 0x7F },
                hdma_active: true,
                ..self
            }
        } else if addr == 0xFF68 {
            PpuState { bcps: value, ..self }
        } else if addr == 0xFF69 {
            PpuState {
                bcpd: self.bcpd.update((self.bcps % 64) as int, value),
                bcps: PpuState::next_palette_index(self.bcps),
                ..self
            }
        } else if addr == 0xFF6A {
            PpuState { ocps: value, ..self }
        } else if addr == 0xFF6B {
            PpuState {
                ocpd: self.ocpd.update((self.ocps % 64) as int, value),
                ocps: PpuState::next_palette_index(self.ocps),
                ..self
            }
        } else {
            self
        }
    }

    /// STAT interrupt on LY == LYC when enabled (STAT bit 6).
    pub open spec fn after_lyc_check(self) -> PpuState {
        if self.ly == self.lyc && self.stat & 0x40 != 0 { PpuState { stat_irq: true, ..self } } else { self }
    }

    /// STAT interrupt on entering a mode whose source is enabled (bits 3, 4, 5).
    pub open spec fn after_stat_check(self) -> PpuState {
        let trigger = if self.mode == MODE_HBLANK {
            self.stat & 0x08 != 0
        } else if self.mode == MODE_VBLANK {
            self.stat & 0x10 != 0
        } else if self.mode == MODE_OAM_SCAN {
            self.stat & 0x20 != 0
        } else {
            false
        };
        if trigger { PpuState { stat_irq: true, ..self } } else { self }
    }

    pub open spec fn dot_drawing(s: PpuState) -> PpuState {
        if s.dots >= DOTS_DRAWING {
            PpuState { mode: MODE_HBLANK, ..PpuState { dots: 0, ..s }.rendered() }.after_stat_check()
        } else {
            s
        }
    }

    pub open spec fn dot_hblank(s: PpuState) -> PpuState {
        if s.dots >= DOTS_HBLANK {
            let ly = (s.ly + 1) as u8;
            let t = if ly >= SCREEN_H {
                PpuState {
                    dots: 0,
                    ly,
                    mode: MODE_VBLANK,
                    vblank_irq: true,
                    frame_ready: true,
                    window_line_counter: 0,
                    window_triggered: false,
                    ..s
                }
            } else {
                PpuState { dots: 0, ly, mode: MODE_OAM_SCAN, ..s }
            };
            t.after_lyc_check().after_stat_check()
        } else {
            s
        }
    }

    pub open spec fn dot_vblank(s: PpuState) -> PpuState {
        if s.dots >= DOTS_PER_LINE {
            let t = PpuState { dots: 0, ly: (s.ly + 1) as u8, ..s }.after_lyc_check();
            if t.ly >= TOTAL_LINES {
                PpuState { ly: 0, mode: MODE_OAM_SCAN, frame_dots: 0, ..t }.after_stat_check()
            } else {
                t
            }
        } else {
            s
        }
    }

    /// One dot of the LCD timing: OAM scan (80), pixel transfer (172, the line is drawn at
    /// its end), HBlank (204), and 10 VBlank lines of 456 dots.
    pub open spec fn spec_dot(self) -> PpuState {
        let s = PpuState { dots: (self.dots + 1) as u32, frame_dots: (self.frame_dots + 1) as u32, ..self };
        if s.mode == MODE_OAM_SCAN {
            if s.dots >= DOTS_OAM_SCAN { PpuState { dots: 0, mode: MODE_DRAWING, ..s } } else { s }
        } else if s.mode == MODE_DRAWING {
            PpuState::dot_drawing(s)
        } else if s.mode == MODE_HBLANK {
            PpuState::dot_hblank(s)
        } else if s.mode == MODE_VBLANK {
            PpuState::dot_vblank(s)
        } else {
            s
        }
    }

    pub open spec fn dots_run(self, n: nat) -> PpuState
        decreases n,
    {
        if n == 0 { self } else { self.dots_run((n - 1) as nat).spec_dot() }
    }

    /// The PPU after `n` T-cycles: nothing happens with the LCD off; otherwise the
    /// frame-ready flag is cleared and `n` dots run.
    pub open spec fn spec_step(self, n: nat) -> PpuState {
        if self.lcdc & 0x80 == 0 { self } else { PpuState { frame_ready: false, ..self }.dots_run(n) }
    }
}

impl Ppu {
    pub fn new(cgb_mode: bool) -> (r: Self)
        ensures
            r@ == PpuState::boot(cgb_mode),
            r@.inv(),
    {
        Ppu {
            lcdc: 0x91,
            stat: 0x81,
            scy: 0,
            scx: 0,
            ly: 0,
            lyc: 0,
            dma: 0xFF,
            bgp: 0xFC,
            obp0: 0xFF,
            obp1: 0xFF,
            wy: 0,
            wx: 0,
            vbk: 0,
            bcps: 0,
            bcpd_buf: filled(64, 0xFF),
            ocps: 0,
            ocpd_buf: filled(64, 0xFF),
            vram: filled(0x4000, 0),
            oam: filled(160, 0),
            mode: MODE_OAM_SCAN,
            dots: 0,
            frame_dots: 0,
            framebuffer: filled(FRAMEBUFFER_SIZE, 0xFF),
            frame_ready: false,
            vblank_irq: false,
            stat_irq: false,
            dma_active: false,
            dma_source: 0,
            dma_offset: 0,
            cgb_mode,
            window_line_counter: 0,
            window_triggered: false,
            hdma1: 0xFF,
            hdma2: 0xFF,
            hdma3: 0xFF,
            hdma4: 0xFF,
            hdma5: 0xFF,
            hdma_active: false,
            bg_pixel_opaque: flags_false(SCREEN_W),
            bg_pixel_priority: flags_false(SCREEN_W),
        }
    }

    pub fn read(&self, addr: u16) -> (r: u8)
        requires
            self@.inv(),
        ensures
            r == self@.spec_read(addr),
    {
        if 0x8000 <= addr && addr <= 0x9FFF {
            let bank: usize = if self.cgb_mode { (self.vbk % 2) as usize } else { 0 };
            if !self.cgb_mode && self.mode == MODE_DRAWING {
                return 0xFF;
            }
            self.vram[bank * 0x2000 + (addr - 0x8000) as usize]
        } else if 0xFE00 <= addr && addr <= 0xFE9F {
            if self.mode >= MODE_OAM_SCAN {
                return 0xFF;
            }
            self.oam[(addr - 0xFE00) as usize]
        } else if addr == 0xFF40 {
            self.lcdc
        } else if addr == 0xFF41 {
            (self.stat & 0xF8) | (if self.ly == self.lyc { 0x04u8 } else { 0u8 }) | (self.mode & 0x03)
        } else if addr == 0xFF42 {
            self.scy
        } else if addr == 0xFF43 {
            self.scx
        } else if addr == 0xFF44 {
            self.ly
        } else if addr == 0xFF45 {
            self.lyc
        } else if addr == 0xFF46 {
            self.dma
        } else if addr == 0xFF47 {
            self.bgp
        } else if addr == 0xFF48 {
            self.obp0
        } else if addr == 0xFF49 {
            self.obp1
        } else if addr == 0xFF4A {
            self.wy
        } else if addr == 0xFF4B {
            self.wx
        } else if addr == 0xFF4F {
            self.vbk | 0xFE
        } else if addr == 0xFF51 {
            self.hdma1
        } else if addr == 0xFF52 {
            self.hdma2
        } else if addr == 0xFF53 {
            self.hdma3
        } else if addr == 0xFF54 {
            self.hdma4
        } else if addr == 0xFF55 {
            self.hdma5
        } else if addr == 0xFF68 {
            self.bcps
        } else if addr == 0xFF69 {
            self.bcpd_buf[(self.bcps % 64) as usize]
        } else if addr == 0xFF6A {
            self.ocps
        } else if addr == 0xFF6B {
            self.ocpd_buf[(self.ocps % 64) as usize]
        } else {
            0xFF
        }
    }

    #[verifier::rlimit(60)]
    pub fn write(&mut self, addr: u16, value: u8)
        requires
            old(self)@.inv(),
        ensures
            final(self)@ == old(self)@.spec_write(addr, value),
            final(self)@.inv(),
    {
        if 0x8000 <= addr && addr <= 0x9FFF {
            let bank: usize = if self.cgb_mode { (self.vbk % 2) as usize } else { 0 };
            if !self.cgb_mode && self.mode == MODE_DRAWING {
                return;
            }
            self.vram.set(bank * 0x2000 + (addr - 0x8000) as usize, value);
        } else if 0xFE00 <= addr && addr <= 0xFE9F {
            if self.mode >= MODE_OAM_SCAN {
                return;
            }
            self.oam.set((addr - 0xFE00) as usize, value);
        } else if addr == 0xFF40 {
            let lcd_was_on = self.lcdc & 0x80 != 0;
            self.lcdc = value;
            if lcd_was_on && value & 0x80 == 0 {
                self.ly = 0;
                self.mode = MODE_HBLANK;
                self.dots = 0;
                self.frame_dots = 0;
                fill_bytes(&mut self.framebuffer, 0xFF);
            }
        } else if addr == 0xFF41 {
            self.stat = (self.stat & 0x07) | (value & 0xF8);
        } else if addr == 0xFF42 {
            self.scy = value;
        } else if addr == 0xFF43 {
            self.scx = value;
        } else if addr == 0xFF44 {
            // LY is read-only.
        } else if addr == 0xFF45 {
            self.lyc = value;
        } else if addr == 0xFF46 {
            self.dma = value;
            self.dma_source = (value as u16) * 256;
            self.dma_active = true;
            self.dma_offset = 0;
        } else if addr == 0xFF47 {
            self.bgp = value;
        } else if addr == 0xFF48 {
            self.obp0 = value;
        } else if addr == 0xFF49 {
            self.obp1 = value;
        } else if addr == 0xFF4A {
            self.wy = value;
        } else if addr == 0xFF4B {
            self.wx = value;
        } else if addr == 0xFF4F {
            self.vbk = value % 2;
        } else if addr == 0xFF51 {
            self.hdma1 = value;
        } else if addr == 0xFF52 {
            self.hdma2 = value;
        } else if addr == 0xFF53 {
            self.hdma3 = value;
        } else if addr == 0xFF54 {
            self.hdma4 = value;
        } else if addr == 0xFF55 {
            if value & 0x80 == 0 {
                self.hdma5 = value;
                self.hdma_active = true;
            } else {
                self.hdma5 = value & 0x7F;
                self.hdma_active = true;
            }
        } else if addr == 0xFF68 {
            self.bcps = value;
        } else if addr == 0xFF69 {
            let idx = (self.bcps % 64) as usize;
            self.bcpd_buf.set(idx, value);
            if self.bcps & 0x80 != 0 {
                self.bcps = 0x80 | (self.bcps.wrapping_add(1) % 64);
            }
        } else if addr == 0xFF6A {
            self.ocps = value;
        } else if addr == 0xFF6B {
            let idx = (self.ocps % 64) as usize;
            self.ocpd_buf.set(idx, value);
            if self.ocps & 0x80 != 0 {
                self.ocps = 0x80 | (self.ocps.wrapping_add(1) % 64);
            }
        }
    }

    /// Step the PPU by `t_cycles` T-states.
    pub fn step(&mut self, t_cycles: u32)
        requires
            old(self)@.inv(),
        ensures
            final(self)@ == old(self)@.spec_step(t_cycles as nat),
            final(self)@.inv(),
    {
        if self.lcdc & 0x80 == 0 {
            return;
        }
        self.frame_ready = false;
        let ghost start = self@;
        let mut i: u32 = 0;
        while i < t_cycles
            invariant
                i <= t_cycles,
                self@.inv(),
                self@ == start.dots_run(i as nat),
            decreases t_cycles - i,
        {
            self.dot();
            i += 1;
        }
    }

    fn dot(&mut self)
        requires
            old(self)@.inv(),
        ensures
            final(self)@ == old(self)@.spec_dot(),
            final(self)@.inv(),
    {
        self.dots += 1;
        self.frame_dots += 1;
        if self.mode == MODE_OAM_SCAN {
            if self.dots >= DOTS_OAM_SCAN {
                self.dots = 0;
                self.mode = MODE_DRAWING;
            }
        } else if self.mode == MODE_DRAWING {
            self.dot_drawing();
        } else if self.mode == MODE_HBLANK {
            self.dot_hblank();
        } else if self.mode == MODE_VBLANK {
            self.dot_vblank();
        }
    }

    /// End of pixel transfer: draw the line and enter HBlank.
    fn dot_drawing(&mut self)
        requires
            old(self).mode == MODE_DRAWING,
            old(self)@.buffers_ok(),
            old(self).dots <= DOTS_DRAWING,
            old(self).ly < SCREEN_H,
            old(self).frame_dots <= old(self).ly * 456 + 80 + old(self).dots,
            old(self).dma_offset <= 160,
        ensures
            final(self)@ == PpuState::dot_drawing(old(self)@),
            final(self)@.inv(),
    {
        if self.dots >= DOTS_DRAWING {
            self.dots = 0;
            self.render_scanline();
            self.mode = MODE_HBLANK;
            self.check_stat_irq();
        }
    }

    /// End of HBlank: next line, or VBlank after the last visible line.
    fn dot_hblank(&mut self)
        requires
            old(self).mode == MODE_HBLANK,
            old(self)@.buffers_ok(),
            old(self).dots <= DOTS_HBLANK,
            old(self).ly < SCREEN_H,
            old(self).frame_dots <= old(self).ly * 456 + 252 + old(self).dots,
            old(self).dma_offset <= 160,
        ensures
            final(self)@ == PpuState::dot_hblank(old(self)@),
            final(self)@.inv(),
    {
        if self.dots >= DOTS_HBLANK {
            self.dots = 0;
            self.ly += 1;
            if self.ly >= SCREEN_H as u8 {
                self.mode = MODE_VBLANK;
                self.vblank_irq = true;
                self.frame_ready = true;
                self.window_line_counter = 0;
                self.window_triggered = false;
            } else {
                self.mode = MODE_OAM_SCAN;
            }
            self.check_lyc_irq();
            self.check_stat_irq();
        }
    }

    /// End of a VBlank line; after the last one the frame starts over.
    fn dot_vblank(&mut self)
        requires
            old(self).mode == MODE_VBLANK,
            old(self)@.buffers_ok(),
            old(self).dots <= DOTS_PER_LINE,
            SCREEN_H <= old(self).ly < TOTAL_LINES,
            old(self).frame_dots <= old(self).ly * 456 + old(self).dots,
            old(self).dma_offset <= 160,
        ensures
            final(self)@ == PpuState::dot_vblank(old(self)@),
            final(self)@.inv(),
    {
        if self.dots >= DOTS_PER_LINE {
            self.dots = 0;
            self.ly += 1;
            self.check_lyc_irq();
            if self.ly >= TOTAL_LINES as u8 {
                self.ly = 0;
                self.mode = MODE_OAM_SCAN;
                self.frame_dots = 0;
                self.check_stat_irq();
            }
        }
    }

    pub fn check_lyc_irq(&mut self)
        ensures
            final(self)@ == old(self)@.after_lyc_check(),
    {
        if self.ly == self.lyc && self.stat & 0x40 != 0 {
            self.stat_irq = true;
        }
    }

    pub fn check_stat_irq(&mut self)
        ensures
            final(self)@ == old(self)@.after_stat_check(),
    {
        let trigger = if self.mode == MODE_HBLANK {
            self.stat & 0x08 != 0
        } else if self.mode == MODE_VBLANK {
            self.stat & 0x10 != 0
        } else if self.mode == MODE_OAM_SCAN {
            self.stat & 0x20 != 0
        } else {
            false
        };
        if trigger {
            self.stat_irq = true;
        }
    }
}

/// A buffer of `n` copies of `v`.
pub fn filled(n: usize, v: u8) -> (r: Vec<u8>)
    ensures
        r@ == Seq::new(n as nat, |i: int| v),
{
    let mut out: Vec<u8> = Vec::new();
    let mut i: usize = 0;
    while i < n
        invariant
            i <= n,
            out@ == Seq::new(i as nat, |k: int| v),
        decreases n - i,
    {
        out.push(v);
        i += 1;
    }
    out
}

fn flags_false(n: usize) -> (r: Vec<bool>)
    ensures
        r@ == Seq::new(n as nat, |i: int| false),
{
    let mut out: Vec<bool> = Vec::new();
    let mut i: usize = 0;
    while i < n
        invariant
            i <= n,
            out@ == Seq::new(i as nat, |k: int| false),
        decreases n - i,
    {
        out.push(false);
        i += 1;
    }
    out
}

/// Overwrite every byte of `buf` with `v`.
fn fill_bytes(buf: &mut Vec<u8>, v: u8)
    ensures
        final(buf)@ == Seq::new(old(buf)@.len(), |i: int| v),
{
    let n = buf.len();
    let mut i: usize = 0;
    while i < n
        invariant
            i <= n,
            buf@.len() == n,
            forall|k: int| 0 <= k < i ==> buf@[k] == v,
        decreases n - i,
    {
        buf.set(i, v);
        i += 1;
    }
    assert(buf@ == Seq::new(n as nat, |i: int| v));
}

// ─── Laws ───────────────────────────────────────────────────────────────────

/// A byte written to VRAM while it is not locked reads back from the same address
/// (through the same VRAM bank).
pub proof fn lemma_vram_write_read(p: PpuState, addr: u16, v: u8)
    requires
        p.inv(),
        0x8000 <= addr <= 0x9FFF,
        !p.vram_locked(),
    ensures
        p.spec_write(addr, v).spec_read(addr) == v,
{
}

/// A byte written to OAM outside OAM scan and pixel transfer reads back.
pub proof fn lemma_oam_write_read(p: PpuState, addr: u16, v: u8)
    requires
        p.inv(),
        0xFE00 <= addr <= 0xFE9F,
        !p.oam_locked(),
    ensures
        p.spec_write(addr, v).spec_read(addr) == v,
{
}

/// Turning the LCD off resets LY to 0, enters HBlank and whitens the whole screen.
pub proof fn lemma_lcd_off(p: PpuState, value: u8)
    requires
        p.inv(),
        p.lcdc & 0x80 != 0,
        value & 0x80 == 0,
    ensures
        p.spec_write(0xFF40, value).spec_read(0xFF44) == 0,
        p.spec_write(0xFF40, value).mode == MODE_HBLANK,
        p.spec_write(0xFF40, value).framebuffer == Seq::new(FRAMEBUFFER_SIZE as nat, |i: int| 0xFFu8),
        p.spec_write(0xFF40, value).inv(),
{
}

proof fn lemma_high_bit_index(k: u8)
    by (bit_vector)
    requires
        k < 64,
    ensures
        (0x80u8 | k) % 64 == k,
        (0x80u8 | k) & 0x80 != 0,
{
}

/// A write to BCPD (0xFF69) stores the byte at the palette entry BCPS selects; with
/// auto-increment (BCPS bit 7) BCPS moves to the next entry, wrapping after 63, and keeps
/// bit 7; without it BCPS stays and the byte reads back.
pub proof fn lemma_palette_write(p: PpuState, v: u8)
    requires
        p.inv(),
    ensures
        p.spec_write(0xFF69, v).bcpd[(p.bcps % 64) as int] == v,
        p.bcps & 0x80 != 0 ==> p.spec_write(0xFF69, v).bcps % 64 == (p.bcps % 64 + 1) % 64
            && p.spec_write(0xFF69, v).bcps & 0x80 != 0,
        p.bcps & 0x80 == 0 ==> p.spec_write(0xFF69, v).spec_read(0xFF69) == v,
{
    let k = (((p.bcps + 1) % 256) % 64) as u8;
    lemma_high_bit_index(k);
    assert(((p.bcps + 1) % 256) % 64 == (p.bcps % 64 + 1) % 64) by (nonlinear_arith)
        requires
            0 <= p.bcps < 256,
    ;
}

/// The PPU invariant bounds LY to the 154 lines of a frame and keeps the framebuffer at
/// 160 × 144 RGBA pixels.
pub proof fn lemma_inv_bounds(p: PpuState)
    requires
        p.inv(),
    ensures
        p.ly < TOTAL_LINES,
        p.mode <= 3,
        p.framebuffer.len() == SCREEN_W * SCREEN_H * 4,
{
}

/// STAT interrupt sources on mode entry (no request pending before, no LY = LYC match):
/// entering HBlank (mode 0) requests one exactly when STAT bit 3 is set, entering VBlank
/// (mode 1) exactly when bit 4 is set, entering OAM scan (mode 2) exactly when bit 5 is set.
pub proof fn lemma_stat_mode_sources(p: PpuState)
    requires
        p.inv(),
        !p.stat_irq,
    ensures
        p.mode == MODE_DRAWING && p.dots + 1 >= 172 ==> p.spec_dot().mode == 0
            && p.spec_dot().stat_irq == (p.stat & 0x08 != 0),
        p.mode == MODE_HBLANK && p.dots + 1 >= 204 && p.ly == 143 && p.lyc != 144
            ==> p.spec_dot().mode == 1 && p.spec_dot().stat_irq == (p.stat & 0x10 != 0),
        p.mode == MODE_HBLANK && p.dots + 1 >= 204 && p.ly < 143 && p.lyc != p.ly + 1
            ==> p.spec_dot().mode == 2 && p.spec_dot().stat_irq == (p.stat & 0x20 != 0),
{
}

} // verus!
