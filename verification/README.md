# gbc_emulator

A Game Boy / Game Boy Color emulator core whose behaviour is specified and proved
with Verus.

## Layout

- `src/` – the verified library. Every executable function carries a `requires` /
  `ensures` contract over a mathematical model of its component.
  - `cpu/` – SM83 register file, ALU, the bus operations of an instruction and the
    semantics of the whole opcode table (`instructions.rs`), interrupts, HALT/STOP.
  - `mmu/` – the 16-bit address space: cartridge, VRAM/OAM, work RAM banks and echo,
    I/O registers, high RAM, OAM DMA and general-purpose DMA.
  - `ppu/` – LCD timing, registers, palettes and the scanline renderer.
  - `apu/` – the four sound channels, frame sequencer and the sample queue.
  - `cartridge/` – header parsing, ROM-only, MBC1, MBC2, MBC3 (with RTC) and MBC5.
  - `timer.rs`, `joypad.rs`, `serial.rs` – the remaining devices.
  - `emulator.rs` – CPU and bus driven one frame at a time.
- `tests/` – scenario tests run against the compiled library.
- `app/` – the headless command-line runner, the WebAssembly bindings and the
  floating-point stereo mixer that turns queued channel levels into samples.

## Laws

Besides the contracts, the library proves laws such as: a byte written to work RAM,
high RAM, VRAM, OAM or cartridge RAM reads back; echo RAM mirrors work RAM; POP gives
back what PUSH stored and RET after CALL returns; a pending interrupt with IME set is
served at its vector; EI takes effect one instruction later; the low nibble of F
stays clear; the APU only appends samples, is idle when off, and switching it off
resets its channels and mixer.
