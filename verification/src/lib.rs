pub mod bits;
pub mod cpu;
pub mod emulator;
pub mod serial;
pub mod timer;
pub mod joypad;
pub mod cartridge;
pub mod ppu;
pub mod apu;
pub mod mmu;
