//! The emulator: CPU and bus tied together, driven one video frame at a time.

use vstd::prelude::*;
use crate::apu::MixInput;
use crate::cartridge::{self, ascii_chars, is_ascii_bytes, spec_load, title_bytes, Cartridge};
use crate::cpu::Cpu;
use crate::cpu::machine::{machine, Machine};
use crate::joypad::Button;
use crate::mmu::{Mmu, MmuState};
use crate::ppu::FRAMEBUFFER_SIZE;

verus! {

/// T-cycles in one frame at 4.194304 MHz (about 59.73 Hz).
pub const CYCLES_PER_FRAME: u32 = 70224;

/// Header byte 0x0143: 0x80 marks a CGB-compatible ROM, 0xC0 a CGB-only one.
pub open spec fn spec_detect_cgb(rom: Seq<u8>) -> bool {
    let flag: u8 = if rom.len() > 0x0143 { rom[0x0143] } else { 0 };
    flag == 0x80 || flag == 0xC0
}

impl Machine {
    /// One pass of the frame loop: a CPU step; a STOP then performs the speed switch.
    pub open spec fn frame_step(self) -> Machine {
        let m1 = self.step();
        if m1.cpu.stopped {
            Machine { cpu: Cpu { stopped: false, ..m1.cpu }, mmu: m1.mmu.speed_switched() }
        } else {
            m1
        }
    }

    /// The state after `n` passes of the frame loop.
    pub open spec fn frame_steps(self, n: nat) -> Machine
        decreases n,
    {
        if n == 0 {
            self
        } else {
            self.frame_steps((n - 1) as nat).frame_step()
        }
    }

    /// T-cycles consumed by the first `n` passes of the frame loop.
    pub open spec fn frame_cycles(self, n: nat) -> int
        decreases n,
    {
        if n == 0 {
            0
        } else {
            self.frame_cycles((n - 1) as nat) + self.frame_steps(n).cpu.cycles
        }
    }

    /// The frame loop stops after pass `n` once the PPU has completed a frame (the bus
    /// latches it), or, with the LCD off, once a frame's worth of cycles has run.
    pub open spec fn frame_over(self, n: nat) -> bool {
        self.frame_steps(n).mmu.frame_done || self.frame_cycles(n) >= CYCLES_PER_FRAME
    }

    /// The state the frame loop starts from: no completed frame latched yet.
    pub open spec fn frame_start(self) -> Machine {
        Machine { mmu: MmuState { frame_done: false, ..self.mmu }, ..self }
    }
}

pub struct Emulator {
    pub cpu: Cpu,
    pub mmu: Mmu,
    /// T-cycles run since power-on.
    pub cycle_count: u64,
}

impl Emulator {
    /// CPU and bus as one state.
    pub open spec fn machine(&self) -> Machine {
        machine(self.cpu, self.mmu@)
    }

    pub open spec fn wf(&self) -> bool {
        self.mmu@.inv()
    }

    /// Power on with the given ROM: the header picks the controller and CGB mode.
    pub fn new(rom: Vec<u8>) -> (e: Self)
        requires
            rom@.len() >= 0x0144,
        ensures
            e.wf(),
            e.cpu == Cpu::boot(spec_detect_cgb(rom@)),
            e.mmu@ == MmuState::boot(spec_load(rom@), spec_detect_cgb(rom@)),
            e.cycle_count == 0,
            is_ascii_bytes(title_bytes(rom@)) ==> e.mmu@.cart.title() == ascii_chars(title_bytes(rom@)),
    {
        let cgb_mode = Self::detect_cgb(&rom);
        let cart = cartridge::load(rom);
        let mmu = Mmu::new(cart, cgb_mode);
        let cpu = Cpu::new(cgb_mode);
        Emulator { cpu, mmu, cycle_count: 0 }
    }

    fn detect_cgb(rom: &[u8]) -> (r: bool)
        ensures
            r == spec_detect_cgb(rom@),
    {
        let flag: u8 = if rom.len() > 0x0143 { rom[0x0143] } else { 0 };
        flag == 0x80 || flag == 0xC0
    }

    /// Run CPU steps until the PPU has completed a frame; the return comes with
    /// `is_frame_ready` set, unless a frame's worth of cycles ran without one (LCD off).
    pub fn run_frame(&mut self)
        requires
            old(self).wf(),
            old(self).cycle_count + CYCLES_PER_FRAME + 24 <= u64::MAX,
        ensures
            final(self).wf(),
            old(self).cpu.regs.flags_clean() ==> final(self).cpu.regs.flags_clean(),
            exists|n: nat|
                1 <= n && (forall|k: nat| 1 <= k < n ==> !old(self).machine().frame_start().frame_over(k))
                    && old(self).machine().frame_start().frame_over(n) && final(self).machine()
                    == old(self).machine().frame_start().frame_steps(n) && final(self).cycle_count
                    == old(self).cycle_count + old(self).machine().frame_start().frame_cycles(n),
            final(self).mmu@.frame_done || final(self).cycle_count >= old(self).cycle_count
                + CYCLES_PER_FRAME,
    {
        self.mmu.clear_frame_ready();
        let ghost m0 = self.machine();
        let ghost c0 = self.cycle_count;
        let ghost mut n: nat = 0;
        let mut cycles_this_frame: u32 = 0;
        loop
            invariant_except_break
                forall|k: nat| 1 <= k <= n ==> !m0.frame_over(k),
                cycles_this_frame < CYCLES_PER_FRAME,
            invariant
                self.wf(),
                m0.cpu.regs.flags_clean() ==> self.cpu.regs.flags_clean(),
                self.machine() == m0.frame_steps(n),
                cycles_this_frame == m0.frame_cycles(n),
                self.cycle_count == c0 + cycles_this_frame,
                c0 + CYCLES_PER_FRAME + 24 <= u64::MAX,
            ensures
                1 <= n,
                m0.frame_over(n),
                forall|k: nat| 1 <= k < n ==> !m0.frame_over(k),
            decreases CYCLES_PER_FRAME - cycles_this_frame,
        {
            let ghost before = self.machine();
            let cycles = self.cpu.step(&mut self.mmu);
            assert(self.machine() == before.step());
            cycles_this_frame += cycles;
            self.cycle_count += cycles as u64;
            if self.cpu.stopped {
                self.cpu.stopped = false;
                self.mmu.switch_speed();
            }
            proof {
                n = n + 1;
                assert(self.machine() == before.frame_step());
            }
            if self.mmu.is_frame_ready() || cycles_this_frame >= CYCLES_PER_FRAME {
                break;
            }
        }
    }

    pub fn press_button(&mut self, button: Button)
        ensures
            final(self).cpu == old(self).cpu,
            final(self).mmu@ == (MmuState { joypad: old(self).mmu@.joypad.spec_press(button), ..old(self).mmu@ }),
            final(self).cycle_count == old(self).cycle_count,
    {
        self.mmu.joypad.press(button);
    }

    pub fn release_button(&mut self, button: Button)
        ensures
            final(self).cpu == old(self).cpu,
            final(self).mmu@ == (MmuState { joypad: old(self).mmu@.joypad.spec_release(button), ..old(self).mmu@ }),
            final(self).cycle_count == old(self).cycle_count,
    {
        self.mmu.joypad.release(button);
    }

    /// The RGBA framebuffer, 160 × 144 pixels of 4 bytes.
    pub fn framebuffer(&self) -> (r: &[u8])
        requires
            self.wf(),
        ensures
            r@ == self.mmu@.ppu.framebuffer,
            r@.len() == FRAMEBUFFER_SIZE,
    {
        self.mmu.framebuffer()
    }

    /// The audio samples queued since the last call, oldest first.
    pub fn drain_audio(&mut self) -> (r: Vec<MixInput>)
        ensures
            r@ == old(self).mmu@.apu.samples,
            final(self).cpu == old(self).cpu,
            final(self).mmu@ == (MmuState {
                apu: crate::apu::ApuState { samples: Seq::empty(), ..old(self).mmu@.apu },
                ..old(self).mmu@
            }),
            final(self).cycle_count == old(self).cycle_count,
    {
        self.mmu.apu.drain_samples()
    }

    pub fn cart_title(&self) -> (r: &str)
        ensures
            r@ == self.mmu@.cart.title(),
    {
        self.mmu.cart.title()
    }

    pub fn cgb_mode(&self) -> (r: bool)
        ensures
            r == self.mmu@.cgb_mode,
    {
        self.mmu.cgb_mode
    }

    pub fn cycle_count(&self) -> (r: u64)
        ensures
            r == self.cycle_count,
    {
        self.cycle_count
    }
}

} // verus!
