//! Memory Management Unit
//!
//! Routes all memory accesses to the appropriate component.
//! Handles OAM DMA, general-purpose HDMA and the I/O registers.

use vstd::prelude::*;
use crate::apu::{Apu, ApuState};
use crate::cartridge::{Cart, CartState, Cartridge};
use crate::joypad::Joypad;
use crate::ppu::{Ppu, PpuState};
use crate::serial::Serial;
use crate::timer::Timer;

verus! {

pub struct Mmu {
    pub cart: Cart,
    pub ppu: Ppu,
    pub apu: Apu,
    pub timer: Timer,
    pub joypad: Joypad,
    pub serial: Serial,
    /// 8 banks × 4 KiB of work RAM: bank `b`, offset `o` at `b * 0x1000 + o`.
    pub wram: Vec<u8>,
    /// 0xFF70.
    pub wram_bank: usize,
    /// 0xFF80–0xFFFE.
    pub hram: Vec<u8>,
    /// 0xFFFF – Interrupt Enable.
    pub ie: u8,
    /// 0xFF0F – Interrupt Flags.
    pub iflags: u8,
    pub cgb_mode: bool,
    /// KEY1 bit 7.
    pub double_speed: bool,
    /// KEY1 bit 0.
    pub prepare_speed: bool,
    pub dma_cycles: u32,
    /// Latched when the PPU completes a frame (enters VBlank); cleared by
    /// `clear_frame_ready`, so it survives the later M-cycles of the same instruction.
    pub frame_done: bool,
}

#[verifier::ext_equal]
pub struct MmuState {
    pub cart: CartState,
    pub ppu: PpuState,
    pub apu: ApuState,
    pub timer: Timer,
    pub joypad: Joypad,
    pub serial: Serial,
    pub wram: Seq<u8>,
    pub wram_bank: usize,
    pub hram: Seq<u8>,
    pub ie: u8,
    pub iflags: u8,
    pub cgb_mode: bool,
    pub double_speed: bool,
    pub prepare_speed: bool,
    pub dma_cycles: u32,
    pub frame_done: bool,
}

impl View for Mmu {
    type V = MmuState;

    open spec fn view(&self) -> MmuState {
        MmuState {
            cart: self.cart@,
            ppu: self.ppu@,
            apu: self.apu@,
            timer: self.timer,
            joypad: self.joypad,
            serial: self.serial,
            wram: self.wram@,
            wram_bank: self.wram_bank,
            hram: self.hram@,
            ie: self.ie,
            iflags: self.iflags,
            cgb_mode: self.cgb_mode,
            double_speed: self.double_speed,
            prepare_speed: self.prepare_speed,
            dma_cycles: self.dma_cycles,
            frame_done: self.frame_done,
        }
    }
}

impl MmuState {
    pub open spec fn inv(self) -> bool {
        &&& self.cart.inv()
        &&& self.ppu.inv()
        &&& self.apu.inv()
        &&& self.wram.len() == 0x8000
        &&& 1 <= self.wram_bank <= 7
        &&& self.hram.len() == 127
    }

    /// The WRAM bank mapped at 0xD000 (bank 0 selects bank 1; DMG always uses bank 1).
    pub open spec fn upper_bank(self) -> int {
        if self.cgb_mode { if self.wram_bank > 1 { self.wram_bank as int } else { 1 } } else { 1 }
    }

    /// Index into `wram` of a work RAM address (0xC000..=0xFDFF, including the echo).
    pub open spec fn wram_index(self, addr: u16) -> int {
        if addr <= 0xCFFF {
            addr - 0xC000
        } else if addr <= 0xDFFF {
            self.upper_bank() * 0x1000 + (addr - 0xD000)
        } else if addr <= 0xEFFF {
            addr - 0xE000
        } else {
            self.upper_bank() * 0x1000 + (addr - 0xF000)
        }
    }

    pub open spec fn spec_read(self, addr: u16) -> u8 {
        if addr <= 0x7FFF {
            self.cart.spec_read_rom(addr)
        } else if addr <= 0x9FFF {
            self.ppu.spec_read(addr)
        } else if addr <= 0xBFFF {
            self.cart.spec_read_ram(addr)
        } else if addr <= 0xFDFF {
            self.wram[self.wram_index(addr)]
        } else if addr <= 0xFE9F {
            self.ppu.spec_read(addr)
        } else if addr <= 0xFEFF {
            0x00
        } else if addr == 0xFF00 {
            self.joypad.spec_read()
        } else if addr <= 0xFF02 {
            self.serial.spec_read(addr)
        } else if addr == 0xFF03 || (0xFF05 <= addr <= 0xFF07) {
            self.timer.spec_read(addr)
        } else if addr == 0xFF04 {
            self.timer.spec_read(0xFF03)
        } else if addr <= 0xFF0E {
            0xFF
        } else if addr == 0xFF0F {
            self.iflags | 0xE0
        } else if addr <= 0xFF3F {
            self.apu.spec_read(addr)
        } else if addr <= 0xFF4B {
            self.ppu.spec_read(addr)
        } else if addr <= 0xFF4E {
            0xFF
        } else if addr == 0xFF4F {
            self.ppu.spec_read(addr)
        } else if addr == 0xFF50 {
            0xFF
        } else if addr <= 0xFF55 {
            self.ppu.spec_read(addr)
        } else if addr <= 0xFF67 {
            0xFF
        } else if addr <= 0xFF6B {
            self.ppu.spec_read(addr)
        } else if addr <= 0xFF6F {
            0xFF
        } else if addr == 0xFF70 {
            (self.wram_bank as u8) | 0xF8
        } else if addr <= 0xFF7F {
            0xFF
        } else if addr <= 0xFFFE {
            self.hram[addr - 0xFF80]
        } else {
            self.ie
        }
    }

    /// Source address of a general-purpose DMA (HDMA1/HDMA2, low nibble ignored).
    pub open spec fn gdma_source(self) -> u16 {
        (self.ppu.hdma1 * 256 + self.ppu.hdma2 / 16 * 16) as u16
    }

    /// Destination in VRAM (HDMA3/HDMA4, within 0x8000..=0x9FF0).
    pub open spec fn gdma_dest(self) -> u16 {
        (0x8000 + (self.ppu.hdma3 % 32) * 256 + self.ppu.hdma4 / 16 * 16) as u16
    }

    /// Number of bytes: (HDMA5 & 0x7F) + 1 blocks of 16.
    pub open spec fn gdma_len(self) -> nat {
        (((self.ppu.hdma5 % 128) as nat) + 1) * 16
    }

    /// The first `i` bytes of the DMA copied, one after the other.
    pub open spec fn gdma_copied(self, src: u16, dst: u16, i: nat) -> MmuState
        decreases i,
    {
        if i == 0 {
            self
        } else {
            let a = ((src + (i - 1)) % 0x10000) as u16;
            let d = ((dst + (i - 1)) % 0x10000) as u16;
            self.gdma_copied(src, dst, (i - 1) as nat).gdma_byte(a, d)
        }
    }

    /// One byte of a general-purpose DMA: read through the bus, written to VRAM.
    pub open spec fn gdma_byte(self, a: u16, d: u16) -> MmuState {
        MmuState { ppu: self.ppu.spec_write(d, self.spec_read(a)), ..self }
    }

    pub open spec fn after_gdma(self) -> MmuState {
        let m = self.gdma_copied(self.gdma_source(), self.gdma_dest(), self.gdma_len());
        MmuState { ppu: PpuState { hdma5: 0xFF, hdma_active: false, ..m.ppu }, ..m }
    }

    pub open spec fn spec_write(self, addr: u16, value: u8) -> MmuState {
        if addr <= 0x7FFF {
            MmuState { cart: self.cart.spec_write_rom(addr, value), ..self }
        } else if addr <= 0x9FFF {
            MmuState { ppu: self.ppu.spec_write(addr, value), ..self }
        } else if addr <= 0xBFFF {
            MmuState { cart: self.cart.spec_write_ram(addr, value), ..self }
        } else if addr <= 0xFDFF {
            MmuState { wram: self.wram.update(self.wram_index(addr), value), ..self }
        } else if addr <= 0xFE9F {
            MmuState { ppu: self.ppu.spec_write(addr, value), ..self }
        } else if addr <= 0xFEFF {
            self
        } else if addr == 0xFF00 {
            MmuState { joypad: Joypad { select: value & 0x30, ..self.joypad }, ..self }
        } else if addr <= 0xFF02 {
            MmuState { serial: self.serial.spec_write(addr, value), ..self }
        } else if addr == 0xFF03 || (0xFF05 <= addr <= 0xFF07) {
            MmuState { timer: self.timer.spec_write(addr, value), ..self }
        } else if addr == 0xFF04 {
            MmuState { timer: self.timer.spec_write(0xFF03, value), ..self }
        } else if addr <= 0xFF0E {
            self
        } else if addr == 0xFF0F {
            MmuState { iflags: value | 0xE0, ..self }
        } else if addr <= 0xFF3F {
            MmuState { apu: self.apu.spec_write(addr, value), ..self }
        } else if addr <= 0xFF4B {
            MmuState { ppu: self.ppu.spec_write(addr, value), ..self }
        } else if addr == 0xFF4D {
            if self.cgb_mode { MmuState { prepare_speed: value & 0x01 != 0, ..self } } else { self }
        } else if addr <= 0xFF4E {
            self
        } else if addr == 0xFF4F {
            MmuState { ppu: self.ppu.spec_write(addr, value), ..self }
        } else if addr == 0xFF50 {
            self
        } else if addr <= 0xFF55 {
            let m = MmuState { ppu: self.ppu.spec_write(addr, value), ..self };
            if addr == 0xFF55 && value & 0x80 == 0 { m.after_gdma() } else { m }
        } else if addr <= 0xFF67 {
            self
        } else if addr <= 0xFF6B {
            MmuState { ppu: self.ppu.spec_write(addr, value), ..self }
        } else if addr <= 0xFF6F {
            self
        } else if addr == 0xFF70 {
            if self.cgb_mode {
                let bank = value % 8;
                MmuState { wram_bank: if bank == 0 { 1 } else { bank as usize }, ..self }
            } else {
                self
            }
        } else if addr <= 0xFF7F {
            self
        } else if addr <= 0xFFFE {
            MmuState { hram: self.hram.update(addr - 0xFF80, value), ..self }
        } else {
            MmuState { ie: value, ..self }
        }
    }

    /// Read by the OAM DMA engine: ROM, cartridge RAM and WRAM only.
    pub open spec fn dma_read(self, addr: u16) -> u8 {
        if addr <= 0x7FFF {
            self.cart.spec_read_rom(addr)
        } else if addr <= 0x9FFF {
            0xFF
        } else if addr <= 0xBFFF {
            self.cart.spec_read_ram(addr)
        } else if addr <= 0xCFFF {
            self.wram[addr - 0xC000]
        } else if addr <= 0xDFFF {
            self.wram[(if self.wram_bank > 1 { self.wram_bank as int } else { 1 }) * 0x1000 + (addr - 0xD000)]
        } else {
            0xFF
        }
    }

    /// One OAM DMA transfer: the next byte copied into OAM.
    pub open spec fn dma_step(self) -> MmuState {
        let off = self.ppu.dma_offset;
        let v = self.dma_read(self.ppu.dma_source | (off as u16));
        MmuState {
            ppu: PpuState { oam: self.ppu.oam.update(off as int, v), dma_offset: (off + 1) as u8, ..self.ppu },
            ..self
        }
    }

    /// `n` OAM DMA transfers (one byte each); the transfer ends after 160 bytes.
    pub open spec fn oam_dma(self, n: nat) -> MmuState
        decreases n,
    {
        if n == 0 {
            self
        } else if self.ppu.dma_offset >= 160 {
            MmuState { ppu: PpuState { dma_active: false, ..self.ppu }, ..self }
        } else {
            self.dma_step().oam_dma((n - 1) as nat)
        }
    }

    pub open spec fn tick_timer(self, t: u32) -> MmuState {
        let timer = self.timer.steps(t as nat);
        MmuState {
            timer: Timer { interrupt_requested: false, ..timer },
            iflags: if timer.interrupt_requested { self.iflags | 0x04 } else { self.iflags },
            ..self
        }
    }

    pub open spec fn tick_ppu(self, t: u32) -> MmuState {
        let ppu = self.ppu.spec_step(t as nat);
        let if1 = if ppu.vblank_irq { self.iflags | 0x01 } else { self.iflags };
        MmuState {
            ppu: PpuState { vblank_irq: false, stat_irq: false, ..ppu },
            iflags: if ppu.stat_irq { if1 | 0x02 } else { if1 },
            frame_done: self.frame_done || ppu.frame_ready,
            ..self
        }
    }

    pub open spec fn tick_dma(self, t: u32) -> MmuState {
        if self.ppu.dma_active { self.oam_dma((t / 4) as nat) } else { self }
    }

    pub open spec fn collect_io_irqs(self) -> MmuState {
        let if1 = if self.serial.interrupt_requested { self.iflags | 0x08 } else { self.iflags };
        MmuState {
            serial: Serial { interrupt_requested: false, ..self.serial },
            joypad: Joypad { interrupt_requested: false, ..self.joypad },
            iflags: if self.joypad.interrupt_requested { if1 | 0x10 } else { if1 },
            ..self
        }
    }

    /// The bus at power-on around cartridge `cart`.
    pub open spec fn boot(cart: CartState, cgb_mode: bool) -> MmuState {
        MmuState {
            cart,
            ppu: PpuState::boot(cgb_mode),
            apu: ApuState::boot(),
            timer: Timer::boot(),
            joypad: Joypad { action: 0x0F, direction: 0x0F, select: 0xFF, interrupt_requested: false },
            serial: Serial { sb: 0, sc: 0, interrupt_requested: false },
            wram: Seq::new(0x8000, |i: int| 0u8),
            wram_bank: 1,
            hram: Seq::new(127, |i: int| 0u8),
            ie: 0,
            iflags: 0xE1,
            cgb_mode,
            double_speed: false,
            prepare_speed: false,
            dma_cycles: 0,
            frame_done: false,
        }
    }

    /// KEY1 speed switch performed by STOP: the armed switch toggles double speed.
    pub open spec fn speed_switched(self) -> MmuState {
        if self.prepare_speed {
            MmuState { double_speed: !self.double_speed, prepare_speed: false, ..self }
        } else {
            self
        }
    }

    /// All components advanced by `t` T-cycles, their interrupt requests collected into IF:
    /// timer, PPU, APU, OAM DMA, serial and joypad requests, then the cartridge clock.
    pub open spec fn spec_tick(self, t: u32) -> MmuState {
        let m1 = self.tick_timer(t).tick_ppu(t);
        let m2 = MmuState { apu: m1.apu.spec_step(t), ..m1 }.tick_dma(t).collect_io_irqs();
        MmuState { cart: m2.cart.spec_tick(t), ..m2 }
    }

}

impl Mmu {
    pub fn new(cart: Cart, cgb_mode: bool) -> (r: Self)
        requires
            cart@.inv(),
        ensures
            r@ == MmuState::boot(cart@, cgb_mode),
            r@.inv(),
    {
        Mmu {
            cart,
            ppu: Ppu::new(cgb_mode),
            apu: Apu::new(),
            timer: Timer::new(),
            joypad: Joypad::new(),
            serial: Serial::new(),
            wram: crate::ppu::filled(0x8000, 0),
            wram_bank: 1,
            hram: crate::ppu::filled(127, 0),
            ie: 0,
            iflags: 0xE1,
            cgb_mode,
            double_speed: false,
            prepare_speed: false,
            dma_cycles: 0,
            frame_done: false,
        }
    }

    /// Index into `wram` of a work RAM address (0xC000..=0xFDFF, including the echo).
    fn wram_index(&self, addr: u16) -> (r: usize)
        requires
            self@.inv(),
            0xC000 <= addr <= 0xFDFF,
        ensures
            r == self@.wram_index(addr),
            r < 0x8000,
    {
        let bank: usize = if self.cgb_mode { if self.wram_bank > 1 { self.wram_bank } else { 1 } } else { 1 };
        if addr <= 0xCFFF {
            (addr - 0xC000) as usize
        } else if addr <= 0xDFFF {
            bank * 0x1000 + (addr - 0xD000) as usize
        } else if addr <= 0xEFFF {
            (addr - 0xE000) as usize
        } else {
            bank * 0x1000 + (addr - 0xF000) as usize
        }
    }

    #[verifier::rlimit(40)]
    pub fn read_byte(&self, addr: u16) -> (r: u8)
        requires
            self@.inv(),
        ensures
            r == self@.spec_read(addr),
    {
        if addr <= 0x7FFF {
            self.cart.read_rom(addr)
        } else if addr <= 0x9FFF {
            self.ppu.read(addr)
        } else if addr <= 0xBFFF {
            self.cart.read_ram(addr)
        } else if addr <= 0xFDFF {
            self.wram[self.wram_index(addr)]
        } else if addr <= 0xFE9F {
            self.ppu.read(addr)
        } else if addr <= 0xFEFF {
            0x00
        } else if addr == 0xFF00 {
            self.joypad.read()
        } else if addr <= 0xFF02 {
            self.serial.read(addr)
        } else if addr == 0xFF03 || (0xFF05 <= addr && addr <= 0xFF07) {
            self.timer.read(addr)
        } else if addr == 0xFF04 {
            self.timer.read(0xFF03)
        } else if addr <= 0xFF0E {
            0xFF
        } else if addr == 0xFF0F {
            self.iflags | 0xE0
        } else if addr <= 0xFF3F {
            self.apu.read(addr)
        } else if addr <= 0xFF4B {
            self.ppu.read(addr)
        } else if addr <= 0xFF4E {
            0xFF
        } else if addr == 0xFF4F {
            self.ppu.read(addr)
        } else if addr == 0xFF50 {
            0xFF
        } else if addr <= 0xFF55 {
            self.ppu.read(addr)
        } else if addr <= 0xFF67 {
            0xFF
        } else if addr <= 0xFF6B {
            self.ppu.read(addr)
        } else if addr <= 0xFF6F {
            0xFF
        } else if addr == 0xFF70 {
            (self.wram_bank as u8) | 0xF8
        } else if addr <= 0xFF7F {
            0xFF
        } else if addr <= 0xFFFE {
            self.hram[(addr - 0xFF80) as usize]
        } else {
            self.ie
        }
    }

    #[verifier::rlimit(60)]
    pub fn write_byte(&mut self, addr: u16, value: u8)
        requires
            old(self)@.inv(),
        ensures
            final(self)@ == old(self)@.spec_write(addr, value),
            final(self)@.inv(),
    {
        if addr <= 0x7FFF {
            self.cart.write_rom(addr, value);
        } else if addr <= 0x9FFF {
            self.ppu.write(addr, value);
        } else if addr <= 0xBFFF {
            self.cart.write_ram(addr, value);
        } else if addr <= 0xFDFF {
            let i = self.wram_index(addr);
            self.wram.set(i, value);
        } else if addr <= 0xFE9F {
            self.ppu.write(addr, value);
        } else if addr <= 0xFEFF {
            // prohibited area
        } else if addr == 0xFF00 {
            self.joypad.write(value);
        } else if addr <= 0xFF02 {
            self.serial.write(addr, value);
        } else if addr == 0xFF03 || (0xFF05 <= addr && addr <= 0xFF07) {
            self.timer.write(addr, value);
        } else if addr == 0xFF04 {
            self.timer.write(0xFF03, value);
        } else if addr <= 0xFF0E {
            // unused
        } else if addr == 0xFF0F {
            self.iflags = value | 0xE0;
        } else if addr <= 0xFF3F {
            self.apu.write(addr, value);
        } else if addr <= 0xFF4B {
            self.ppu.write(addr, value);
        } else if addr == 0xFF4D {
            // KEY1: speed switch
            if self.cgb_mode {
                self.prepare_speed = value & 0x01 != 0;
            }
        } else if addr <= 0xFF4E {
        } else if addr == 0xFF4F {
            self.ppu.write(addr, value);
        } else if addr == 0xFF50 {
            // boot ROM disable (already skipped)
        } else if addr <= 0xFF55 {
            self.ppu.write(addr, value);
            // A general-purpose DMA runs at once.
            if addr == 0xFF55 && value & 0x80 == 0 {
                self.do_gdma();
            }
        } else if addr <= 0xFF67 {
        } else if addr <= 0xFF6B {
            self.ppu.write(addr, value);
        } else if addr <= 0xFF6F {
        } else if addr == 0xFF70 {
            if self.cgb_mode {
                let bank = (value % 8) as usize;
                self.wram_bank = if bank == 0 { 1 } else { bank };
            }
        } else if addr <= 0xFF7F {
        } else if addr <= 0xFFFE {
            self.hram.set((addr - 0xFF80) as usize, value);
        } else {
            self.ie = value;
        }
    }

    /// Called after each CPU access to advance all components.
    pub fn tick(&mut self, t_cycles: u32)
        requires
            old(self)@.inv(),
        ensures
            final(self)@ == old(self)@.spec_tick(t_cycles),
            final(self)@.inv(),
    {
        self.tick_timer(t_cycles);
        self.tick_ppu(t_cycles);
        self.apu.step(t_cycles);
        if self.ppu.dma_active {
            self.step_oam_dma(t_cycles);
        }
        self.collect_io_irqs();
        self.cart.tick(t_cycles);
    }

    fn tick_timer(&mut self, t_cycles: u32)
        requires
            old(self)@.inv(),
        ensures
            final(self)@ == old(self)@.tick_timer(t_cycles),
            final(self)@.inv(),
    {
        self.timer.step(t_cycles);
        if self.timer.interrupt_requested {
            self.timer.interrupt_requested = false;
            self.iflags |= 0x04;
        }
    }

    fn tick_ppu(&mut self, t_cycles: u32)
        requires
            old(self)@.inv(),
        ensures
            final(self)@ == old(self)@.tick_ppu(t_cycles),
            final(self)@.inv(),
    {
        self.ppu.step(t_cycles);
        let done = self.frame_done || self.ppu.frame_ready;
        let mut iflags = self.iflags;
        if self.ppu.vblank_irq {
            iflags = iflags | 0x01;
        }
        if self.ppu.stat_irq {
            iflags = iflags | 0x02;
        }
        self.ppu.vblank_irq = false;
        self.ppu.stat_irq = false;
        self.iflags = iflags;
        self.frame_done = done;
    }

    fn collect_io_irqs(&mut self)
        requires
            old(self)@.inv(),
        ensures
            final(self)@ == old(self)@.collect_io_irqs(),
            final(self)@.inv(),
    {
        if self.serial.interrupt_requested {
            self.serial.interrupt_requested = false;
            self.iflags |= 0x08;
        }
        if self.joypad.interrupt_requested {
            self.joypad.interrupt_requested = false;
            self.iflags |= 0x10;
        }
    }

    /// Transfer one OAM byte per 4 T-cycles.
    fn step_oam_dma(&mut self, t_cycles: u32)
        requires
            old(self)@.inv(),
            old(self).ppu.dma_active,
        ensures
            final(self)@ == old(self)@.oam_dma((t_cycles / 4) as nat),
            final(self)@.inv(),
    {
        let n = t_cycles / 4;
        let mut i: u32 = 0;
        while i < n
            invariant
                i <= n,
                n == t_cycles / 4,
                self@.inv(),
                self@.oam_dma((n - i) as nat) == old(self)@.oam_dma(n as nat),
            decreases n - i,
        {
            if self.ppu.dma_offset >= 160 {
                let ghost before = self@;
                self.ppu.dma_active = false;
                assert(before.oam_dma((n - i) as nat) == self@);
                return;
            }
            self.oam_dma_transfer();
            i += 1;
        }
    }

    /// Copy the next byte of the OAM DMA.
    fn oam_dma_transfer(&mut self)
        requires
            old(self)@.inv(),
            old(self).ppu.dma_offset < 160,
        ensures
            final(self)@ == old(self)@.dma_step(),
            final(self)@.inv(),
    {
        let src = self.ppu.dma_source | (self.ppu.dma_offset as u16);
        let val = self.dma_read(src);
        let off = self.ppu.dma_offset as usize;
        self.ppu.oam.set(off, val);
        self.ppu.dma_offset += 1;
    }

    /// Read during OAM DMA (ROM, cartridge RAM and WRAM only).
    fn dma_read(&self, addr: u16) -> (r: u8)
        requires
            self@.inv(),
        ensures
            r == self@.dma_read(addr),
    {
        if addr <= 0x7FFF {
            self.cart.read_rom(addr)
        } else if addr <= 0x9FFF {
            0xFF
        } else if addr <= 0xBFFF {
            self.cart.read_ram(addr)
        } else if addr <= 0xCFFF {
            self.wram[(addr - 0xC000) as usize]
        } else if addr <= 0xDFFF {
            let bank = if self.wram_bank > 1 { self.wram_bank } else { 1 };
            self.wram[bank * 0x1000 + (addr - 0xD000) as usize]
        } else {
            0xFF
        }
    }

    /// Execute a general-purpose DMA (GDMA) at once.
    fn do_gdma(&mut self)
        requires
            old(self)@.inv(),
        ensures
            final(self)@ == old(self)@.after_gdma(),
            final(self)@.inv(),
    {
        let src: u16 = (self.ppu.hdma1 as u16) * 256 + ((self.ppu.hdma2 / 16) as u16) * 16;
        let dst: u16 = 0x8000 + ((self.ppu.hdma3 % 32) as u16) * 256 + ((self.ppu.hdma4 / 16) as u16) * 16;
        let len: u16 = (((self.ppu.hdma5 % 128) as u16) + 1) * 16;
        let ghost m0 = self@;
        assert(src == m0.gdma_source() && dst == m0.gdma_dest() && len == m0.gdma_len());
        self.gdma_copy(src, dst, len);
        let ghost m1 = self@;
        self.ppu.hdma5 = 0xFF;
        self.ppu.hdma_active = false;
        assert(self@ =~= (MmuState { ppu: PpuState { hdma5: 0xFF, hdma_active: false, ..m1.ppu }, ..m1 }));
    }

    /// Copy `len` bytes from `src` through the bus into VRAM at `dst`.
    #[verifier::rlimit(40)]
    fn gdma_copy(&mut self, src: u16, dst: u16, len: u16)
        requires
            old(self)@.inv(),
        ensures
            final(self)@ == old(self)@.gdma_copied(src, dst, len as nat),
            final(self)@.inv(),
    {
        let ghost m0 = self@;
        let mut i: u16 = 0;
        while i < len
            invariant
                i <= len,
                self@.inv(),
                self@ == m0.gdma_copied(src, dst, i as nat),
            decreases len - i,
        {
            let a = src.wrapping_add(i);
            let d = dst.wrapping_add(i);
            assert(a == ((src + i) % 0x10000) as u16);
            assert(d == ((dst + i) % 0x10000) as u16);
            self.gdma_byte(a, d);
            i += 1;
        }
    }

    fn gdma_byte(&mut self, a: u16, d: u16)
        requires
            old(self)@.inv(),
        ensures
            final(self)@ == old(self)@.gdma_byte(a, d),
            final(self)@.inv(),
    {
        let val = self.read_byte(a);
        self.ppu.write(d, val);
    }

    /// Trigger a speed switch (STOP with KEY1 prepared).
    pub fn switch_speed(&mut self)
        ensures
            final(self)@ == old(self)@.speed_switched(),
    {
        if self.prepare_speed {
            self.double_speed = !self.double_speed;
            self.prepare_speed = false;
        }
    }

    /// Whether the PPU has completed a frame since the flag was last cleared.
    pub fn is_frame_ready(&self) -> (r: bool)
        ensures
            r == self@.frame_done,
    {
        self.frame_done
    }

    /// Start waiting for the next frame.
    pub fn clear_frame_ready(&mut self)
        ensures
            final(self)@ == (MmuState { frame_done: false, ..old(self)@ }),
    {
        self.frame_done = false;
    }

    pub fn framebuffer(&self) -> (r: &[u8])
        ensures
            r@ == self.ppu.framebuffer@,
    {
        self.ppu.framebuffer.as_slice()
    }
}

// ─── Laws ───────────────────────────────────────────────────────────────────

/// A byte written to work RAM (0xC000..=0xFDFF, echo included) reads back from the same
/// address.
pub proof fn lemma_wram_write_read(m: MmuState, addr: u16, v: u8)
    requires
        m.inv(),
        0xC000 <= addr <= 0xFDFF,
    ensures
        m.spec_write(addr, v).spec_read(addr) == v,
        m.spec_write(addr, v).inv(),
{
}

/// Echo RAM: 0xE000..=0xFDFF reads what 0xC000..=0xDDFF holds, and a write through
/// either address is seen at the other.
pub proof fn lemma_echo_ram(m: MmuState, addr: u16, v: u8)
    requires
        m.inv(),
        0xC000 <= addr <= 0xDDFF,
    ensures
        m.spec_read((addr + 0x2000) as u16) == m.spec_read(addr),
        m.spec_write((addr + 0x2000) as u16, v).spec_read(addr) == v,
        m.spec_write(addr, v).spec_read((addr + 0x2000) as u16) == v,
{
}

/// A write to work RAM leaves every other work RAM address that does not alias it
/// (through the echo) unchanged.
pub proof fn lemma_wram_write_other(m: MmuState, a: u16, b: u16, v: u8)
    requires
        m.inv(),
        0xC000 <= a <= 0xFDFF,
        0xC000 <= b <= 0xFDFF,
        m.wram_index(a) != m.wram_index(b),
    ensures
        m.spec_write(a, v).spec_read(b) == m.spec_read(b),
{
}

/// A byte written to high RAM (0xFF80..=0xFFFE) reads back from the same address, and
/// other high RAM addresses keep their bytes.
pub proof fn lemma_hram_write_read(m: MmuState, addr: u16, other: u16, v: u8)
    requires
        m.inv(),
        0xFF80 <= addr <= 0xFFFE,
        0xFF80 <= other <= 0xFFFE,
        other != addr,
    ensures
        m.spec_write(addr, v).spec_read(addr) == v,
        m.spec_write(addr, v).spec_read(other) == m.spec_read(other),
        m.spec_write(addr, v).inv(),
{
}

/// IE (0xFFFF) reads back what was written.
pub proof fn lemma_ie_write_read(m: MmuState, v: u8)
    ensures
        m.spec_write(0xFFFF, v).spec_read(0xFFFF) == v,
{
}

proof fn lemma_oam_dma_keeps_ram(m: MmuState, n: nat)
    ensures
        m.oam_dma(n).wram == m.wram,
        m.oam_dma(n).hram == m.hram,
        m.oam_dma(n).wram_bank == m.wram_bank,
        m.oam_dma(n).cgb_mode == m.cgb_mode,
        m.oam_dma(n).ie == m.ie,
    decreases n,
{
    if n > 0 && m.ppu.dma_offset < 160 {
        lemma_oam_dma_keeps_ram(m.dma_step(), (n - 1) as nat);
    }
}

/// Time passing on the bus leaves work RAM, high RAM, the WRAM bank and IE untouched:
/// only the CPU writes them.
pub proof fn lemma_tick_keeps_ram(m: MmuState, t: u32)
    ensures
        m.spec_tick(t).wram == m.wram,
        m.spec_tick(t).hram == m.hram,
        m.spec_tick(t).wram_bank == m.wram_bank,
        m.spec_tick(t).cgb_mode == m.cgb_mode,
        m.spec_tick(t).ie == m.ie,
{
    let m1 = m.tick_timer(t).tick_ppu(t);
    let m2 = MmuState { apu: m1.apu.spec_step(t), ..m1 };
    lemma_oam_dma_keeps_ram(m2, (t / 4) as nat);
}

} // verus!
