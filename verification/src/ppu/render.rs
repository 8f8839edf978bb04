//! Scanline renderer: background, window and sprites of one line.

use vstd::prelude::*;
use crate::bits::{lemma_bgr555_bits, lemma_expand5, lemma_pixel_bits};
use vstd::slice::slice_subrange;
use super::{Ppu, PpuState, SCREEN_W, SCREEN_H, FRAMEBUFFER_SIZE};

verus! {

/// One sprite entry from OAM.
#[derive(Clone, Copy, Debug)]
pub struct Sprite {
    /// Screen y + 16.
    pub y: i32,
    /// Screen x + 8.
    pub x: i32,
    pub tile: u8,
    /// bit7 = BG over OBJ, bit6 = Y flip, bit5 = X flip, bit4 = DMG palette,
    /// bit3 = CGB VRAM bank, bits 2-0 = CGB palette.
    pub flags: u8,
}

impl Sprite {
    pub open spec fn spec_priority(self) -> bool { self.flags & 0x80 != 0 }
    pub open spec fn spec_y_flip(self) -> bool { self.flags & 0x40 != 0 }
    pub open spec fn spec_x_flip(self) -> bool { self.flags & 0x20 != 0 }
    pub open spec fn spec_dmg_palette(self) -> u8 { (self.flags / 16) % 2 }
    pub open spec fn spec_cgb_vram_bank(self) -> u8 { (self.flags / 8) % 2 }
    pub open spec fn spec_cgb_palette(self) -> u8 { self.flags % 8 }

    pub fn from_oam(bytes: &[u8]) -> (r: Self)
        requires
            bytes@.len() >= 4,
        ensures
            r == oam_entry(bytes@, 0),
    {
        Sprite { y: bytes[0] as i32, x: bytes[1] as i32, tile: bytes[2], flags: bytes[3] }
    }

    pub fn priority(&self) -> (r: bool)
        ensures
            r == self.spec_priority(),
    {
        self.flags & 0x80 != 0
    }

    pub fn y_flip(&self) -> (r: bool)
        ensures
            r == self.spec_y_flip(),
    {
        self.flags & 0x40 != 0
    }

    pub fn x_flip(&self) -> (r: bool)
        ensures
            r == self.spec_x_flip(),
    {
        self.flags & 0x20 != 0
    }

    pub fn dmg_palette(&self) -> (r: u8)
        ensures
            r == self.spec_dmg_palette(),
    {
        (self.flags / 16) % 2
    }

    pub fn cgb_vram_bank(&self) -> (r: u8)
        ensures
            r == self.spec_cgb_vram_bank(),
    {
        (self.flags / 8) % 2
    }

    pub fn cgb_palette(&self) -> (r: u8)
        ensures
            r == self.spec_cgb_palette(),
    {
        self.flags % 8
    }
}

/// The sprite stored at OAM entry `i` (4 bytes: y, x, tile, flags).
pub open spec fn oam_entry(oam: Seq<u8>, i: int) -> Sprite {
    Sprite { y: oam[4 * i] as i32, x: oam[4 * i + 1] as i32, tile: oam[4 * i + 2], flags: oam[4 * i + 3] }
}

/// 5-bit color channel expanded to 8 bits.
pub open spec fn expand5(c: int) -> u8 {
    (c * 8 + c / 4) as u8
}

/// 15-bit little-endian BGR555 color as RGBA8.
pub open spec fn rgb555(lo: u8, hi: u8) -> Seq<u8> {
    seq![expand5((lo % 32) as int), expand5(lo / 32 + (hi % 4) * 8), expand5(((hi / 4) % 32) as int), 0xFFu8]
}

/// DMG grey shade `i` (0 = white … 3 = black) as RGBA8.
pub open spec fn dmg_rgba(i: u8) -> Seq<u8> {
    let v = (255 - 85 * i) as u8;
    seq![v, v, v, 0xFFu8]
}

/// The 2-bit color of bit `e` of a tile row given by its two bytes.
pub open spec fn row_color(lo: u8, hi: u8, e: u8) -> u8 {
    ((lo >> e) & 1u8) | (((hi >> e) & 1u8) << 1u8)
}

/// 15-bit BGR555 → RGBA8 color conversion.
pub fn bgr555_to_rgba(lo: u8, hi: u8) -> (r: [u8; 4])
    ensures
        r@ == rgb555(lo, hi),
{
    proof {
        lemma_bgr555_bits(lo, hi);
        lemma_expand5(lo % 32);
        lemma_expand5((lo / 32 + (hi % 4) * 8) as u8);
        lemma_expand5((hi / 4) % 32);
    }
    let color: u16 = ((hi as u16) << 8) | (lo as u16);
    let r = ((color & 0x001F) as u8) << 3;
    let g = (((color >> 5) & 0x001F) as u8) << 3;
    let b = (((color >> 10) & 0x001F) as u8) << 3;
    let out = [r | (r >> 5), g | (g >> 5), b | (b >> 5), 0xFF];
    assert(out@ =~= rgb555(lo, hi));
    out
}

fn dmg_color(i: u8) -> (r: [u8; 4])
    requires
        i <= 3,
    ensures
        r@ == dmg_rgba(i),
{
    let v: u8 = if i == 0 {
        0xFF
    } else if i == 1 {
        0xAA
    } else if i == 2 {
        0x55
    } else {
        0x00
    };
    let out = [v, v, v, 0xFF];
    assert(out@ =~= dmg_rgba(i));
    out
}

/// The framebuffer with row `ly` (640 bytes) replaced pixel by pixel by `px`.
pub open spec fn row_with(fb: Seq<u8>, ly: int, px: spec_fn(int) -> Seq<u8>) -> Seq<u8> {
    Seq::new(
        fb.len(),
        |i: int|
            if ly * 640 <= i < ly * 640 + 640 {
                px((i - ly * 640) / 4)[(i - ly * 640) % 4]
            } else {
                fb[i]
            },
    )
}

impl PpuState {
    // ─── Background and window ─────────────────────────────────────────────

    pub open spec fn win_enabled(self, ly: int) -> bool {
        self.lcdc & 0x20 != 0 && ly >= self.wy
    }

    /// Left edge of the window (WX - 7, wrapping).
    pub open spec fn win_left(self) -> int {
        if self.wx >= 7 { self.wx - 7 } else { self.wx + 249 }
    }

    pub open spec fn uses_window(self, ly: int, x: int) -> bool {
        self.win_enabled(ly) && x >= self.win_left()
    }

    /// Coordinates inside the 256×256 map (BG) or the window.
    pub open spec fn map_tx(self, ly: int, x: int) -> int {
        if self.uses_window(ly, x) { x - self.win_left() } else { (x + self.scx) % 256 }
    }

    pub open spec fn map_ty(self, ly: int, x: int) -> int {
        if self.uses_window(ly, x) { self.window_line_counter as int } else { (ly + self.scy) % 256 }
    }

    pub open spec fn map_index(self, ly: int, x: int) -> int {
        let base = if self.uses_window(ly, x) {
            if self.lcdc & 0x40 != 0 { 0x1C00int } else { 0x1800int }
        } else {
            if self.lcdc & 0x08 != 0 { 0x1C00int } else { 0x1800int }
        };
        base + (self.map_ty(ly, x) / 8) * 32 + self.map_tx(ly, x) / 8
    }

    /// CGB tile attributes (bank 1 of the map); 0 on DMG.
    pub open spec fn tile_attr(self, ly: int, x: int) -> u8 {
        if self.cgb_mode { self.vram[0x2000 + self.map_index(ly, x)] } else { 0 }
    }

    /// Offset of the tile's data: unsigned from 0x8000, or signed around 0x9000.
    pub open spec fn tile_data_offset(self, idx: u8) -> int {
        if self.lcdc & 0x10 != 0 {
            idx * 16
        } else if idx < 128 {
            0x1000 + idx * 16
        } else {
            0x1000 + (idx - 256) * 16
        }
    }

    /// VRAM index of the low byte of the tile row under pixel `x`.
    pub open spec fn bg_row_index(self, ly: int, x: int) -> int {
        let attr = self.tile_attr(ly, x);
        let bank = if self.cgb_mode && attr & 0x08 != 0 { 1int } else { 0int };
        let flip_y = self.cgb_mode && attr & 0x40 != 0;
        let ty = self.map_ty(ly, x) % 8;
        let eff_y = if flip_y { 7 - ty } else { ty };
        bank * 0x2000 + self.tile_data_offset(self.vram[self.map_index(ly, x)]) + eff_y * 2
    }

    pub open spec fn bg_color(self, ly: int, x: int) -> u8 {
        let attr = self.tile_attr(ly, x);
        let flip_x = self.cgb_mode && attr & 0x20 != 0;
        let tx = self.map_tx(ly, x) % 8;
        let e = (if flip_x { tx } else { 7 - tx }) as u8;
        let i = self.bg_row_index(ly, x);
        row_color(self.vram[i], self.vram[i + 1], e)
    }

    pub open spec fn bg_prio(self, ly: int, x: int) -> bool {
        self.cgb_mode && self.tile_attr(ly, x) & 0x80 != 0
    }

    pub open spec fn bg_rgba(self, ly: int, x: int) -> Seq<u8> {
        let c = self.bg_color(ly, x);
        if self.cgb_mode {
            let p = (self.tile_attr(ly, x) % 8) * 8 + c * 2;
            rgb555(self.bcpd[p], self.bcpd[p + 1])
        } else {
            dmg_rgba((self.bgp >> (c * 2)) % 4)
        }
    }

    /// The line `ly` of background and window drawn, with the per-pixel BG information kept
    /// for sprite priority and the window line counter advanced.
    pub open spec fn after_bg_window(self, ly: int) -> PpuState {
        let we = self.win_enabled(ly);
        PpuState {
            framebuffer: row_with(self.framebuffer, ly, |x: int| self.bg_rgba(ly, x)),
            bg_opaque: Seq::new(SCREEN_W as nat, |x: int| self.bg_color(ly, x) != 0),
            bg_priority: Seq::new(SCREEN_W as nat, |x: int| self.bg_prio(ly, x)),
            window_triggered: self.window_triggered || we,
            window_line_counter: if we { ((self.window_line_counter + 1) % 256) as u8 } else { self.window_line_counter },
            ..self
        }
    }

    // ─── Sprites ───────────────────────────────────────────────────────────

    pub open spec fn sprite_h(self) -> int {
        if self.lcdc & 0x04 != 0 { 16 } else { 8 }
    }

    pub open spec fn on_line(self, sp: Sprite, ly: int) -> bool {
        sp.y - 16 <= ly < sp.y - 16 + self.sprite_h()
    }

    /// Sprites of OAM entries 0..n that cover line `ly`, in OAM order.
    pub open spec fn visible_upto(self, ly: int, n: nat) -> Seq<Sprite>
        decreases n,
    {
        if n == 0 {
            Seq::empty()
        } else {
            let prev = self.visible_upto(ly, (n - 1) as nat);
            let sp = oam_entry(self.oam, n - 1);
            if self.on_line(sp, ly) { prev.push(sp) } else { prev }
        }
    }

    /// The first ten sprites (in OAM order) that cover line `ly`.
    pub open spec fn line_sprites(self, ly: int) -> Seq<Sprite> {
        take10(self.visible_upto(ly, 40))
    }

    /// VRAM index of the low byte of the sprite's tile row on line `ly`.
    pub open spec fn sprite_row_index(self, sp: Sprite, ly: int) -> int {
        let h = self.sprite_h();
        let ty0 = ly - (sp.y - 16);
        let ty = if sp.spec_y_flip() { h - 1 - ty0 } else { ty0 };
        let idx = if h == 16 { (sp.tile / 2) * 2 + (if ty >= 8 { 1int } else { 0int }) } else { sp.tile as int };
        let bank = if self.cgb_mode { sp.spec_cgb_vram_bank() as int } else { 0int };
        bank * 0x2000 + idx * 16 + (ty % 8) * 2
    }

    pub open spec fn covers(sp: Sprite, x: int) -> bool {
        sp.x - 8 <= x < sp.x
    }

    pub open spec fn sprite_color(self, sp: Sprite, ly: int, x: int) -> u8 {
        let tx = x - (sp.x - 8);
        let e = (if sp.spec_x_flip() { tx } else { 7 - tx }) as u8;
        let i = self.sprite_row_index(sp, ly);
        row_color(self.vram[i], self.vram[i + 1], e)
    }

    /// Whether the sprite puts a pixel at `x`: covered, not transparent, and not hidden
    /// behind an opaque BG pixel that has priority (while the BG is enabled).
    pub open spec fn sprite_draws(self, sp: Sprite, ly: int, x: int) -> bool {
        let bg_wins = (sp.spec_priority() || self.bg_priority[x]) && self.bg_opaque[x];
        &&& PpuState::covers(sp, x)
        &&& self.sprite_color(sp, ly, x) != 0
        &&& !(bg_wins && self.lcdc & 0x01 != 0)
    }

    pub open spec fn sprite_rgba(self, sp: Sprite, c: u8) -> Seq<u8> {
        if self.cgb_mode {
            let p = sp.spec_cgb_palette() * 8 + c * 2;
            rgb555(self.ocpd[p], self.ocpd[p + 1])
        } else {
            let pal = if sp.spec_dmg_palette() == 0 { self.obp0 } else { self.obp1 };
            dmg_rgba((pal >> (c * 2)) % 4)
        }
    }

    /// Whether sprite `a`, later in the line list, wins over the earlier `b`: on DMG the
    /// smaller X wins (ties go to the earlier entry); on CGB the earlier entry always wins.
    pub open spec fn beats(self, a: Sprite, b: Sprite) -> bool {
        !self.cgb_mode && a.x < b.x
    }

    /// Index in `l` of the winning sprite at `x` among the first `k` entries.
    pub open spec fn best(self, l: Seq<Sprite>, ly: int, x: int, k: nat) -> Option<int>
        decreases k,
    {
        if k == 0 {
            None
        } else {
            let b = self.best(l, ly, x, (k - 1) as nat);
            let sp = l[k - 1];
            if self.sprite_draws(sp, ly, x) && (b is None || self.beats(sp, l[b->0])) {
                Some(k - 1)
            } else {
                b
            }
        }
    }

    /// Pixel `x` of line `ly` after the sprites: the winning sprite's color, or the BG pixel.
    pub open spec fn sprite_pixel(self, ly: int, x: int) -> Seq<u8> {
        let l = self.line_sprites(ly);
        let base = (ly * 160 + x) * 4;
        match self.best(l, ly, x, l.len()) {
            Some(j) => self.sprite_rgba(l[j], self.sprite_color(l[j], ly, x)),
            None => self.framebuffer.subrange(base, base + 4),
        }
    }

    pub open spec fn after_sprites(self, ly: int) -> PpuState {
        PpuState { framebuffer: row_with(self.framebuffer, ly, |x: int| self.sprite_pixel(ly, x)), ..self }
    }

    /// Line `ly` rendered: BG/window (or white on DMG with BG off), then sprites.
    pub open spec fn rendered(self) -> PpuState {
        let ly = self.ly as int;
        if ly >= SCREEN_H {
            self
        } else {
            let s1 = PpuState {
                bg_opaque: Seq::new(SCREEN_W as nat, |i: int| false),
                bg_priority: Seq::new(SCREEN_W as nat, |i: int| false),
                ..self
            };
            let s2 = if self.lcdc & 0x01 != 0 || self.cgb_mode {
                s1.after_bg_window(ly)
            } else {
                PpuState { framebuffer: row_with(s1.framebuffer, ly, |x: int| dmg_rgba(0)), ..s1 }
            };
            if self.lcdc & 0x02 != 0 { s2.after_sprites(ly) } else { s2 }
        }
    }
}

/// At most the first ten entries.
pub open spec fn take10(v: Seq<Sprite>) -> Seq<Sprite> {
    if v.len() > 10 { v.subrange(0, 10) } else { v }
}


/// Every sprite listed for a line covers that line.
proof fn lemma_visible_on_line(s: PpuState, ly: int, n: nat)
    requires
        n <= 40,
    ensures
        s.visible_upto(ly, n).len() <= n,
        forall|j: int|
            0 <= j < s.visible_upto(ly, n).len() ==> s.on_line(#[trigger] s.visible_upto(ly, n)[j], ly)
                && 0 <= s.visible_upto(ly, n)[j].x <= 255 && 0 <= s.visible_upto(ly, n)[j].y <= 255,
    decreases n,
{
    if n > 0 {
        lemma_visible_on_line(s, ly, (n - 1) as nat);
    }
}

impl Ppu {
    /// Draw the current line into the framebuffer.
    pub fn render_scanline(&mut self)
        requires
            old(self)@.buffers_ok(),
        ensures
            final(self)@ == old(self)@.rendered(),
            final(self)@.buffers_ok(),
    {
        let ly = self.ly as usize;
        if ly >= SCREEN_H {
            return;
        }
        let row_base = ly * SCREEN_W;
        clear_flags(&mut self.bg_pixel_opaque);
        clear_flags(&mut self.bg_pixel_priority);
        if self.lcdc & 0x01 != 0 || self.cgb_mode {
            self.render_bg_window(ly, row_base);
        } else {
            // BG disabled on DMG: fill white.
            self.white_row(ly, row_base);
        }
        if self.lcdc & 0x02 != 0 {
            self.render_sprites(ly, row_base);
        }
    }

    fn white_row(&mut self, ly: usize, row_base: usize)
        requires
            old(self)@.buffers_ok(),
            ly < SCREEN_H,
            row_base == ly * SCREEN_W,
        ensures
            final(self)@ == (PpuState { framebuffer: row_with(old(self)@.framebuffer, ly as int, |x: int| dmg_rgba(0)), ..old(self)@ }),
    {
        let ghost s0 = self@;
        let mut x: usize = 0;
        while x < SCREEN_W
            invariant
                x <= SCREEN_W,
                ly < SCREEN_H,
                row_base == ly * SCREEN_W,
                self@ == (PpuState { framebuffer: self@.framebuffer, ..s0 }),
                self@.framebuffer.len() == s0.framebuffer.len(),
                s0.buffers_ok(),
                forall|i: int|
                    0 <= i < s0.framebuffer.len() ==> #[trigger] self@.framebuffer[i] == if row_base * 4 <= i
                        < row_base * 4 + x * 4 {
                        dmg_rgba(0)[(i - row_base * 4) % 4]
                    } else {
                        s0.framebuffer[i]
                    },
            decreases SCREEN_W - x,
        {
            let fb = (row_base + x) * 4;
            self.framebuffer.set(fb, 0xFF);
            self.framebuffer.set(fb + 1, 0xFF);
            self.framebuffer.set(fb + 2, 0xFF);
            self.framebuffer.set(fb + 3, 0xFF);
            x += 1;
        }
        assert(self@.framebuffer =~= row_with(s0.framebuffer, ly as int, |x: int| dmg_rgba(0)));
    }

    /// Color id, BG priority and RGBA of background/window pixel `x` of line `ly`.
    #[verifier::rlimit(80)]
    fn bg_pixel(&self, ly: usize, x: usize) -> (r: (u8, bool, [u8; 4]))
        requires
            self@.buffers_ok(),
            ly < SCREEN_H,
            x < SCREEN_W,
        ensures
            r.0 == self@.bg_color(ly as int, x as int),
            r.0 <= 3,
            r.1 == self@.bg_prio(ly as int, x as int),
            r.2@ == self@.bg_rgba(ly as int, x as int),
    {
        let lcdc = self.lcdc;
        let scx = self.scx as usize;
        let scy = self.scy as usize;
        let wx = self.wx.wrapping_sub(7) as usize;
        let wy = self.wy as usize;
        let window_enabled = lcdc & 0x20 != 0 && ly >= wy;
        let use_window = window_enabled && x >= wx;
        let tx: usize = if use_window { x - wx } else { (x + scx) % 256 };
        let ty: usize = if use_window { self.window_line_counter as usize } else { (ly + scy) % 256 };
        let map_base: usize = if use_window {
            if lcdc & 0x40 != 0 { 0x1C00 } else { 0x1800 }
        } else {
            if lcdc & 0x08 != 0 { 0x1C00 } else { 0x1800 }
        };
        let map_addr = map_base + (ty / 8) * 32 + tx / 8;
        let tile_idx = self.vram[map_addr];
        let tile_attr = if self.cgb_mode { self.vram[0x2000 + map_addr] } else { 0 };
        let tile_data_bank: usize = if self.cgb_mode && tile_attr & 0x08 != 0 { 1 } else { 0 };
        let flip_x = self.cgb_mode && tile_attr & 0x20 != 0;
        let flip_y = self.cgb_mode && tile_attr & 0x40 != 0;
        let bg_priority = self.cgb_mode && tile_attr & 0x80 != 0;
        let cgb_pal_idx = (tile_attr % 8) as usize;
        let tile_addr: usize = if lcdc & 0x10 != 0 {
            (tile_idx as usize) * 16
        } else if tile_idx < 128 {
            0x1000 + (tile_idx as usize) * 16
        } else {
            (tile_idx as usize) * 16
        };
        let tile_y = ty % 8;
        let eff_tile_y = if flip_y { 7 - tile_y } else { tile_y };
        let row = tile_data_bank * 0x2000 + tile_addr + eff_tile_y * 2;
        let row_lo = self.vram[row];
        let row_hi = self.vram[row + 1];
        let tile_x = tx % 8;
        let eff_tile_x = (if flip_x { tile_x } else { 7 - tile_x }) as u8;
        let color_id = ((row_lo >> eff_tile_x) & 1) | (((row_hi >> eff_tile_x) & 1) << 1);
        proof { lemma_pixel_bits(row_lo, row_hi, eff_tile_x); }
        let rgba = if self.cgb_mode {
            let pal_idx = cgb_pal_idx * 8 + color_id as usize * 2;
            bgr555_to_rgba(self.bcpd_buf[pal_idx], self.bcpd_buf[pal_idx + 1])
        } else {
            dmg_color((self.bgp >> (color_id * 2)) % 4)
        };
        (color_id, bg_priority, rgba)
    }

    fn render_bg_window(&mut self, ly: usize, row_base: usize)
        requires
            old(self)@.buffers_ok(),
            ly < SCREEN_H,
            row_base == ly * SCREEN_W,
        ensures
            final(self)@ == old(self)@.after_bg_window(ly as int),
    {
        let ghost s0 = self@;
        let window_enabled = self.lcdc & 0x20 != 0 && ly >= self.wy as usize;
        if window_enabled && !self.window_triggered {
            self.window_triggered = true;
        }
        let mut x: usize = 0;
        while x < SCREEN_W
            invariant
                x <= SCREEN_W,
                ly < SCREEN_H,
                row_base == ly * SCREEN_W,
                s0.buffers_ok(),
                window_enabled == s0.win_enabled(ly as int),
                self@ == (PpuState {
                    framebuffer: self@.framebuffer,
                    bg_opaque: self@.bg_opaque,
                    bg_priority: self@.bg_priority,
                    window_triggered: s0.window_triggered || window_enabled,
                    ..s0
                }),
                self@.framebuffer.len() == s0.framebuffer.len(),
                self@.bg_opaque.len() == SCREEN_W,
                self@.bg_priority.len() == SCREEN_W,
                forall|j: int| 0 <= j < x ==> #[trigger] self@.bg_opaque[j] == (s0.bg_color(ly as int, j) != 0),
                forall|j: int| 0 <= j < x ==> #[trigger] self@.bg_priority[j] == s0.bg_prio(ly as int, j),
                forall|i: int|
                    0 <= i < s0.framebuffer.len() ==> #[trigger] self@.framebuffer[i] == if row_base * 4 <= i
                        < row_base * 4 + x * 4 {
                        s0.bg_rgba(ly as int, (i - row_base * 4) / 4)[(i - row_base * 4) % 4]
                    } else {
                        s0.framebuffer[i]
                    },
            decreases SCREEN_W - x,
        {
            let (color_id, prio, rgba) = self.bg_pixel(ly, x);
            self.bg_pixel_opaque.set(x, color_id != 0);
            self.bg_pixel_priority.set(x, prio);
            let fb = (row_base + x) * 4;
            self.framebuffer.set(fb, rgba[0]);
            self.framebuffer.set(fb + 1, rgba[1]);
            self.framebuffer.set(fb + 2, rgba[2]);
            self.framebuffer.set(fb + 3, rgba[3]);
            x += 1;
        }
        if window_enabled && self.window_triggered {
            self.window_line_counter = self.window_line_counter.wrapping_add(1);
        }
        assert(self@.framebuffer =~= row_with(s0.framebuffer, ly as int, |x: int| s0.bg_rgba(ly as int, x)));
        assert(self@.bg_opaque =~= Seq::new(SCREEN_W as nat, |x: int| s0.bg_color(ly as int, x) != 0));
        assert(self@.bg_priority =~= Seq::new(SCREEN_W as nat, |x: int| s0.bg_prio(ly as int, x)));
    }

    /// Whether sprite `sp` draws at `x` on line `ly`, and its color id there.
    fn sprite_at(&self, sp: Sprite, ly: usize, x: usize, h: i32) -> (r: (bool, u8))
        requires
            self@.buffers_ok(),
            ly < SCREEN_H,
            x < SCREEN_W,
            h == self@.sprite_h(),
            self@.on_line(sp, ly as int),
            0 <= sp.x <= 255,
            0 <= sp.y <= 255,
        ensures
            r.0 == self@.sprite_draws(sp, ly as int, x as int),
            r.0 ==> r.1 == self@.sprite_color(sp, ly as int, x as int) && r.1 <= 3,
    {
        let xi = x as i32;
        if xi < sp.x - 8 || xi >= sp.x {
            return (false, 0);
        }
        let tile_x = (xi - (sp.x - 8)) as usize;
        let screen_y = sp.y - 16;
        let ty0 = (ly as i32 - screen_y) as usize;
        let tile_y = if sp.y_flip() { (h as usize - 1) - ty0 } else { ty0 };
        let tile_idx: usize = if h == 16 {
            ((sp.tile / 2) * 2) as usize + if tile_y >= 8 { 1 } else { 0 }
        } else {
            sp.tile as usize
        };
        let tile_y = tile_y % 8;
        let bank: usize = if self.cgb_mode { sp.cgb_vram_bank() as usize } else { 0 };
        let row = bank * 0x2000 + tile_idx * 16 + tile_y * 2;
        let row_lo = self.vram[row];
        let row_hi = self.vram[row + 1];
        let bit = (if sp.x_flip() { tile_x } else { 7 - tile_x }) as u8;
        let color_id = ((row_lo >> bit) & 1) | (((row_hi >> bit) & 1) << 1);
        proof { lemma_pixel_bits(row_lo, row_hi, bit); }
        if color_id == 0 {
            return (false, 0);
        }
        let bg_wins = (sp.priority() || self.bg_pixel_priority[x]) && self.bg_pixel_opaque[x];
        if bg_wins && self.lcdc & 0x01 != 0 {
            return (false, 0);
        }
        (true, color_id)
    }

    fn sprite_color_rgba(&self, sp: Sprite, color_id: u8) -> (r: [u8; 4])
        requires
            self@.buffers_ok(),
            color_id <= 3,
        ensures
            r@ == self@.sprite_rgba(sp, color_id),
    {
        if self.cgb_mode {
            let cgb_pal = sp.cgb_palette() as usize;
            let pal_idx = cgb_pal * 8 + color_id as usize * 2;
            bgr555_to_rgba(self.ocpd_buf[pal_idx], self.ocpd_buf[pal_idx + 1])
        } else {
            let palette = if sp.dmg_palette() == 0 { self.obp0 } else { self.obp1 };
            dmg_color((palette >> (color_id * 2)) % 4)
        }
    }

    /// The sprites of line `ly`: the first ten OAM entries that cover it.
    fn line_sprites(&self, ly: usize, h: i32) -> (r: Vec<Sprite>)
        requires
            self@.buffers_ok(),
            ly < SCREEN_H,
            h == self@.sprite_h(),
        ensures
            r@ == self@.line_sprites(ly as int),
    {
        let mut sprites: Vec<Sprite> = Vec::new();
        let mut i: usize = 0;
        while i < 40
            invariant
                i <= 40,
                ly < SCREEN_H,
                self@.buffers_ok(),
                h == self@.sprite_h(),
                sprites@ == take10(self@.visible_upto(ly as int, i as nat)),
            decreases 40 - i,
        {
            let base = i * 4;
            let s = Sprite::from_oam(slice_subrange(self.oam.as_slice(), base, base + 4));
            let screen_y = s.y - 16;
            let ly_i = ly as i32;
            proof {
                assert(s == oam_entry(self@.oam, i as int));
            }
            if ly_i >= screen_y && ly_i < screen_y + h {
                if sprites.len() < 10 {
                    sprites.push(s);
                }
            }
            proof {
                let prev = self@.visible_upto(ly as int, i as nat);
                assert(self@.visible_upto(ly as int, (i + 1) as nat) == if self@.on_line(s, ly as int) {
                    prev.push(s)
                } else {
                    prev
                });
                if self@.on_line(s, ly as int) {
                    assert(take10(prev.push(s)) =~= if prev.len() < 10 { take10(prev).push(s) } else { take10(prev) });
                }
            }
            i += 1;
        }
        sprites
    }

    fn render_sprites(&mut self, ly: usize, row_base: usize)
        requires
            old(self)@.buffers_ok(),
            ly < SCREEN_H,
            row_base == ly * SCREEN_W,
        ensures
            final(self)@ == old(self)@.after_sprites(ly as int),
    {
        let ghost s0 = self@;
        let sprite_height: i32 = if self.lcdc & 0x04 != 0 { 16 } else { 8 };
        let sprites = self.line_sprites(ly, sprite_height);
        let n = sprites.len();
        proof {
            lemma_visible_on_line(s0, ly as int, 40);
        }
        let mut x: usize = 0;
        while x < SCREEN_W
            invariant
                x <= SCREEN_W,
                ly < SCREEN_H,
                row_base == ly * SCREEN_W,
                s0.buffers_ok(),
                sprite_height == s0.sprite_h(),
                sprites@ == s0.line_sprites(ly as int),
                n == sprites@.len(),
                n <= 10,
                forall|j: int|
                    0 <= j < n ==> s0.on_line(#[trigger] sprites@[j], ly as int) && 0 <= sprites@[j].x <= 255
                        && 0 <= sprites@[j].y <= 255,
                self@ == (PpuState { framebuffer: self@.framebuffer, ..s0 }),
                self@.framebuffer.len() == s0.framebuffer.len(),
                forall|i: int|
                    0 <= i < s0.framebuffer.len() ==> #[trigger] self@.framebuffer[i] == if row_base * 4 <= i
                        < row_base * 4 + x * 4 {
                        s0.sprite_pixel(ly as int, (i - row_base * 4) / 4)[(i - row_base * 4) % 4]
                    } else {
                        s0.framebuffer[i]
                    },
            decreases SCREEN_W - x,
        {
            let mut best: Option<usize> = None;
            let mut best_color: u8 = 0;
            let mut k: usize = 0;
            while k < n
                invariant
                    k <= n,
                    x < SCREEN_W,
                    ly < SCREEN_H,
                    s0.buffers_ok(),
                    self@ == (PpuState { framebuffer: self@.framebuffer, ..s0 }),
                    self@.framebuffer.len() == s0.framebuffer.len(),
                    sprite_height == s0.sprite_h(),
                    n == sprites@.len(),
                    forall|j: int|
                        0 <= j < n ==> s0.on_line(#[trigger] sprites@[j], ly as int) && 0 <= sprites@[j].x
                            <= 255 && 0 <= sprites@[j].y <= 255,
                    match best {
                        Some(b) => s0.best(sprites@, ly as int, x as int, k as nat) == Some(b as int) && b < k
                            && best_color == s0.sprite_color(sprites@[b as int], ly as int, x as int)
                            && best_color <= 3,
                        None => s0.best(sprites@, ly as int, x as int, k as nat) is None,
                    },
                decreases n - k,
            {
                let sp = sprites[k];
                let (draws, color_id) = self.sprite_at(sp, ly, x, sprite_height);
                let better = match best {
                    None => true,
                    Some(b) => !self.cgb_mode && sp.x < sprites[b].x,
                };
                if draws && better {
                    best = Some(k);
                    best_color = color_id;
                }
                k += 1;
            }
            let fb = (row_base + x) * 4;
            match best {
                Some(b) => {
                    let rgba = self.sprite_color_rgba(sprites[b], best_color);
                    self.framebuffer.set(fb, rgba[0]);
                    self.framebuffer.set(fb + 1, rgba[1]);
                    self.framebuffer.set(fb + 2, rgba[2]);
                    self.framebuffer.set(fb + 3, rgba[3]);
                },
                None => {},
            }
            x += 1;
        }
        assert(self@.framebuffer =~= row_with(s0.framebuffer, ly as int, |x: int| s0.sprite_pixel(ly as int, x)));
    }
}

/// Clear every per-pixel BG flag.
fn clear_flags(v: &mut Vec<bool>)
    ensures
        final(v)@ == Seq::new(old(v)@.len(), |i: int| false),
{
    let n = v.len();
    let mut i: usize = 0;
    while i < n
        invariant
            i <= n,
            v@.len() == n,
            forall|k: int| 0 <= k < i ==> v@[k] == false,
        decreases n - i,
    {
        v.set(i, false);
        i += 1;
    }
    assert(v@ =~= Seq::new(n as nat, |i: int| false));
}

/// Inside the window (LCDC bit 5 set, LY >= WY, x >= WX - 7) the tile index comes from the
/// window map chosen by LCDC bit 6 (0x9C00 when set, 0x9800 when clear), at the window's
/// own line counter and column; LCDC bit 3, which picks the background map, has no effect
/// on the pixel.
pub proof fn lemma_window_map(p: PpuState, ly: int, x: int)
    requires
        p.lcdc & 0x20 != 0,
        ly >= p.wy,
        p.wx >= 7,
        x >= p.wx - 7,
    ensures
        p.map_index(ly, x) == (if p.lcdc & 0x40 != 0 { 0x1C00int } else { 0x1800int })
            + (p.window_line_counter / 8) * 32 + (x - (p.wx - 7)) / 8,
        (PpuState { lcdc: p.lcdc ^ 0x08, ..p }).bg_rgba(ly, x) == p.bg_rgba(ly, x),
{
    let l = p.lcdc;
    assert((l ^ 0x08) & 0x20 == l & 0x20 && (l ^ 0x08) & 0x40 == l & 0x40 && (l ^ 0x08) & 0x10
        == l & 0x10) by (bit_vector);
    let q = PpuState { lcdc: p.lcdc ^ 0x08, ..p };
    assert(q.uses_window(ly, x) && p.uses_window(ly, x));
    assert(q.map_index(ly, x) == p.map_index(ly, x));
    assert(q.tile_data_offset(p.vram[p.map_index(ly, x)]) == p.tile_data_offset(p.vram[p.map_index(ly, x)]));
    assert(q.bg_color(ly, x) == p.bg_color(ly, x));
}

} // verus!
