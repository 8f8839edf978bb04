//! Cartridges: the ROM header and the memory bank controllers (MBC1, MBC2, MBC3 with its
//! real-time clock, MBC5) that map ROM and RAM banks into the address space.

pub mod rtc;

use vstd::prelude::*;
use crate::bits::{lemma_bank_bits, lemma_word_ops};
pub use rtc::{Rtc, T_CYCLES_PER_SECOND};

verus! {

// ─── Byte access helpers ────────────────────────────────────────────────────

/// The byte at `i`, or 0xFF where `i` lies outside `s` (open bus).
pub open spec fn byte_or_ff(s: Seq<u8>, i: int) -> u8 {
    if 0 <= i < s.len() { s[i] } else { 0xFF }
}

/// `s` with the byte at `i` replaced, unchanged where `i` lies outside `s`.
pub open spec fn store_in_range(s: Seq<u8>, i: int, v: u8) -> Seq<u8> {
    if 0 <= i < s.len() { s.update(i, v) } else { s }
}

fn get_or_ff(s: &Vec<u8>, i: usize) -> (r: u8)
    ensures
        r == byte_or_ff(s@, i as int),
{
    if i < s.len() { s[i] } else { 0xFF }
}

fn set_in_range(s: &mut Vec<u8>, i: usize, v: u8)
    ensures
        final(s)@ == store_in_range(old(s)@, i as int, v),
{
    if i < s.len() {
        s.set(i, v);
    }
}

// ─── Power of two ───────────────────────────────────────────────────────────

/// The smallest power of two that is at least `n`, searched upwards from `p`.
pub open spec fn pow2_from(p: nat, n: nat) -> nat
    decreases (if p < n { n - p } else { 0 }),
{
    if p == 0 {
        1
    } else if p >= n {
        p
    } else {
        pow2_from(2 * p, n)
    }
}

/// The smallest power of two that is at least `n` (1 for 0), the rounding that
/// `usize::next_power_of_two` performs.
pub open spec fn next_pow2(n: nat) -> nat {
    pow2_from(1, n)
}

proof fn lemma_pow2_from_bounds(p: nat, n: nat)
    requires
        p >= 1,
    ensures
        pow2_from(p, n) >= 1,
        pow2_from(p, n) >= n,
        pow2_from(p, n) <= if p >= n { p } else { 2 * n },
    decreases (if p < n { n - p } else { 0 }),
{
    if p < n {
        lemma_pow2_from_bounds(2 * p, n);
    }
}

/// Rounds `n` up to a power of two.
pub fn next_power_of_two(n: usize) -> (r: usize)
    requires
        n <= usize::MAX / 2,
    ensures
        r as nat == next_pow2(n as nat),
        r >= 1,
{
    let mut p: usize = 1;
    while p < n
        invariant
            p >= 1,
            p < 2 * n || p == 1,
            n <= usize::MAX / 2,
            pow2_from(p as nat, n as nat) == next_pow2(n as nat),
        decreases 2 * n - p,
    {
        p = p * 2;
    }
    p
}

/// The number of 16 KiB banks of a ROM, rounded up to a power of two; bank numbers are
/// taken modulo it.
pub open spec fn bank_mask(rom: Seq<u8>) -> usize {
    (next_pow2(rom.len() / 0x4000) - 1) as usize
}

fn rom_bank_mask(rom: &Vec<u8>) -> (r: usize)
    ensures
        r == bank_mask(rom@),
{
    proof { lemma_pow2_from_bounds(1, (rom.len() / 0x4000) as nat); }
    let banks = next_power_of_two(rom.len() / 0x4000);
    banks - 1
}

// ─── Header ─────────────────────────────────────────────────────────────────

/// Index of the first zero byte of `b`, or its length.
pub open spec fn first_zero(b: Seq<u8>) -> nat
    decreases b.len(),
{
    if b.len() == 0 {
        0
    } else if b[0] == 0 {
        0
    } else {
        1 + first_zero(b.drop_first())
    }
}

/// The title bytes of the header (0x0134..=0x0143), up to the first zero byte.
pub open spec fn title_bytes(rom: Seq<u8>) -> Seq<u8> {
    let b = rom.subrange(0x134, 0x144);
    b.subrange(0, first_zero(b) as int)
}

/// Every byte is ASCII (below 0x80).
pub open spec fn is_ascii_bytes(b: Seq<u8>) -> bool {
    forall|i: int| 0 <= i < b.len() ==> b[i] < 128
}

/// The characters with the codes of the bytes.
pub open spec fn ascii_chars(b: Seq<u8>) -> Seq<char> {
    b.map_values(|c: u8| c as char)
}

/// Text decoded from bytes as UTF-8 with invalid sequences replaced by U+FFFD.
pub uninterp spec fn lossy_text(bytes: Seq<u8>) -> Seq<char>;

/// `String::from_utf8_lossy`: the text is a function of the bytes; bytes that are all ASCII
/// are valid UTF-8 and decode to the same characters.
#[verifier::external_body]
fn utf8_lossy(bytes: &[u8]) -> (s: String)
    ensures
        s@ == lossy_text(bytes@),
        is_ascii_bytes(bytes@) ==> s@ == ascii_chars(bytes@),
{
    String::from_utf8_lossy(bytes).into_owned()
}

proof fn lemma_first_zero(b: Seq<u8>, k: nat)
    requires
        k <= b.len(),
        forall|j: int| 0 <= j < k ==> b[j] != 0,
        k == b.len() || b[k as int] == 0,
    ensures
        first_zero(b) == k,
    decreases k,
{
    if k > 0 {
        lemma_first_zero(b.drop_first(), (k - 1) as nat);
    }
}

/// The cartridge title from the ROM header.
pub fn extract_title(rom: &[u8]) -> (r: String)
    requires
        rom@.len() >= 0x144,
    ensures
        r@ == lossy_text(title_bytes(rom@)),
        is_ascii_bytes(title_bytes(rom@)) ==> r@ == ascii_chars(title_bytes(rom@)),
{
    let mut bytes: Vec<u8> = Vec::new();
    let mut i: usize = 0x134;
    while i < 0x144 && rom[i] != 0
        invariant
            0x134 <= i <= 0x144,
            rom@.len() >= 0x144,
            bytes@ == rom@.subrange(0x134, i as int),
            forall|j: int| 0x134 <= j < i ==> rom@[j] != 0,
        decreases 0x144 - i,
    {
        bytes.push(rom[i]);
        i += 1;
    }
    proof {
        let b = rom@.subrange(0x134, 0x144);
        lemma_first_zero(b, (i - 0x134) as nat);
        assert(bytes@ == b.subrange(0, first_zero(b) as int));
    }
    utf8_lossy(bytes.as_slice())
}

// ─── The cartridge interface ────────────────────────────────────────────────

/// The interface that every memory bank controller offers to the memory bus.
pub trait Cartridge: Sized {
    spec fn inv(&self) -> bool;

    fn read_rom(&self, addr: u16) -> u8
        requires
            self.inv(),
    ;

    fn write_rom(&mut self, addr: u16, value: u8)
        requires
            old(self).inv(),
        ensures
            final(self).inv(),
    ;

    fn read_ram(&self, addr: u16) -> u8
        requires
            self.inv(),
            addr >= 0xA000,
    ;

    fn write_ram(&mut self, addr: u16, value: u8)
        requires
            old(self).inv(),
            addr >= 0xA000,
        ensures
            final(self).inv(),
    ;

    fn title(&self) -> &str;

    fn has_battery(&self) -> bool;

    /// Advance the real-time clock, where there is one, by `t_cycles` T-states.
    fn tick(&mut self, t_cycles: u32)
        requires
            old(self).inv(),
        ensures
            final(self).inv(),
    ;
}

// ─── ROM only ───────────────────────────────────────────────────────────────

pub struct RomOnly {
    pub rom: Vec<u8>,
    pub title: String,
}

pub struct RomOnlyState {
    pub rom: Seq<u8>,
    pub title: Seq<char>,
}

impl View for RomOnly {
    type V = RomOnlyState;

    open spec fn view(&self) -> RomOnlyState {
        RomOnlyState { rom: self.rom@, title: self.title@ }
    }
}

impl RomOnlyState {
    pub open spec fn spec_read_rom(self, addr: u16) -> u8 {
        byte_or_ff(self.rom, addr as int)
    }
}

impl RomOnly {
    pub fn new(rom: Vec<u8>) -> (r: Self)
        requires
            rom@.len() >= 0x144,
        ensures
            r@ == (RomOnlyState { rom: rom@, title: lossy_text(title_bytes(rom@)) }),
            is_ascii_bytes(title_bytes(rom@)) ==> r@.title == ascii_chars(title_bytes(rom@)),
    {
        let title = extract_title(rom.as_slice());
        RomOnly { rom, title }
    }
}

impl Cartridge for RomOnly {
    open spec fn inv(&self) -> bool { true }

    fn read_rom(&self, addr: u16) -> (r: u8)
        ensures
            r == self@.spec_read_rom(addr),
    {
        get_or_ff(&self.rom, addr as usize)
    }

    fn write_rom(&mut self, addr: u16, value: u8)
        ensures
            final(self)@ == old(self)@,
    {
    }

    fn read_ram(&self, addr: u16) -> (r: u8)
        ensures
            r == 0xFF,
    {
        0xFF
    }

    fn write_ram(&mut self, addr: u16, value: u8)
        ensures
            final(self)@ == old(self)@,
    {
    }

    fn title(&self) -> (r: &str)
        ensures
            r@ == self.title@,
    {
        self.title.as_str()
    }

    fn has_battery(&self) -> (r: bool)
        ensures
            !r,
    {
        false
    }

    fn tick(&mut self, t_cycles: u32)
        ensures
            final(self)@ == old(self)@,
    {
    }
}

// ─── MBC1 ───────────────────────────────────────────────────────────────────

pub struct Mbc1 {
    pub rom: Vec<u8>,
    pub ram: Vec<u8>,
    pub rom_bank: usize,
    pub ram_bank: usize,
    pub ram_enabled: bool,
    /// 0 = ROM banking, 1 = RAM banking.
    pub banking_mode: u8,
    pub has_battery: bool,
    pub title: String,
}

pub struct Mbc1State {
    pub rom: Seq<u8>,
    pub ram: Seq<u8>,
    pub rom_bank: usize,
    pub ram_bank: usize,
    pub ram_enabled: bool,
    pub banking_mode: u8,
    pub has_battery: bool,
    pub title: Seq<char>,
}

impl View for Mbc1 {
    type V = Mbc1State;

    open spec fn view(&self) -> Mbc1State {
        Mbc1State {
            rom: self.rom@,
            ram: self.ram@,
            rom_bank: self.rom_bank,
            ram_bank: self.ram_bank,
            ram_enabled: self.ram_enabled,
            banking_mode: self.banking_mode,
            has_battery: self.has_battery,
            title: self.title@,
        }
    }
}

impl Mbc1State {
    pub open spec fn inv(self) -> bool {
        &&& self.rom_bank <= 0x7F
        &&& self.rom_bank % 32 != 0
        &&& self.ram_bank <= 3
        &&& self.banking_mode <= 1
    }

    /// Offset of the bank mapped at 0x0000 (in RAM banking mode the upper bits select it).
    pub open spec fn rom0_offset(self) -> int {
        if self.banking_mode == 1 { (self.ram_bank % 4) * 32 * 0x4000 } else { 0 }
    }

    pub open spec fn spec_read_rom(self, addr: u16) -> u8 {
        if addr <= 0x3FFF {
            byte_or_ff(self.rom, self.rom0_offset() + addr)
        } else if addr <= 0x7FFF {
            let bank = self.rom_bank & bank_mask(self.rom);
            byte_or_ff(self.rom, bank * 0x4000 + (addr - 0x4000))
        } else {
            0xFF
        }
    }

    pub open spec fn spec_write_rom(self, addr: u16, value: u8) -> Mbc1State {
        if addr <= 0x1FFF {
            Mbc1State { ram_enabled: value % 16 == 0x0A, ..self }
        } else if addr <= 0x3FFF {
            let low5 = if value % 32 == 0 { 1 } else { value % 32 };
            Mbc1State { rom_bank: (self.rom_bank / 32 * 32 + low5) as usize, ..self }
        } else if addr <= 0x5FFF {
            let bits = value % 4;
            if self.banking_mode == 0 {
                Mbc1State { rom_bank: (self.rom_bank % 32 + bits * 32) as usize, ..self }
            } else {
                Mbc1State { ram_bank: bits as usize, ..self }
            }
        } else if addr <= 0x7FFF {
            Mbc1State { banking_mode: value % 2, ..self }
        } else {
            self
        }
    }

    /// RAM offset of an address in 0xA000..=0xBFFF.
    pub open spec fn ram_offset(self, addr: u16) -> int {
        (if self.banking_mode == 1 { self.ram_bank as int } else { 0 }) * 0x2000 + (addr - 0xA000)
    }

    pub open spec fn spec_read_ram(self, addr: u16) -> u8 {
        if !self.ram_enabled { 0xFF } else { byte_or_ff(self.ram, self.ram_offset(addr)) }
    }

    pub open spec fn spec_write_ram(self, addr: u16, value: u8) -> Mbc1State {
        if !self.ram_enabled {
            self
        } else {
            Mbc1State { ram: store_in_range(self.ram, self.ram_offset(addr), value), ..self }
        }
    }
}

impl Mbc1 {
    pub fn new(rom: Vec<u8>, ram_size: usize, has_battery: bool) -> (r: Self)
        requires
            rom@.len() >= 0x144,
        ensures
            r@ == (Mbc1State {
                rom: rom@,
                ram: Seq::new(if ram_size > 0x2000 { ram_size as nat } else { 0x2000 }, |i: int| 0u8),
                rom_bank: 1,
                ram_bank: 0,
                ram_enabled: false,
                banking_mode: 0,
                has_battery,
                title: lossy_text(title_bytes(rom@)),
            }),
            r@.inv(),
            is_ascii_bytes(title_bytes(rom@)) ==> r@.title == ascii_chars(title_bytes(rom@)),
    {
        let title = extract_title(rom.as_slice());
        let size = if ram_size > 0x2000 { ram_size } else { 0x2000 };
        let ram = zeroed(size);
        Mbc1 {
            rom,
            ram,
            rom_bank: 1,
            ram_bank: 0,
            ram_enabled: false,
            banking_mode: 0,
            has_battery,
            title,
        }
    }

    pub fn effective_rom0_offset(&self) -> (r: usize)
        requires
            self@.inv(),
        ensures
            r == self@.rom0_offset(),
    {
        proof { lemma_bank_bits(self.ram_bank, 0, 0); }
        if self.banking_mode == 1 {
            ((self.ram_bank & 0x03) << 5) * 0x4000
        } else {
            0
        }
    }
}

/// A RAM buffer of `n` zero bytes.
fn zeroed(n: usize) -> (r: Vec<u8>)
    ensures
        r@ == Seq::new(n as nat, |i: int| 0u8),
{
    let mut v: Vec<u8> = Vec::new();
    let mut i: usize = 0;
    while i < n
        invariant
            i <= n,
            v@ == Seq::new(i as nat, |k: int| 0u8),
        decreases n - i,
    {
        v.push(0);
        i += 1;
    }
    v
}

impl Cartridge for Mbc1 {
    open spec fn inv(&self) -> bool { self@.inv() }

    fn read_rom(&self, addr: u16) -> (r: u8)
        ensures
            r == self@.spec_read_rom(addr),
    {
        if addr <= 0x3FFF {
            let base = self.effective_rom0_offset();
            get_or_ff(&self.rom, base + addr as usize)
        } else if addr <= 0x7FFF {
            let offset = (addr - 0x4000) as usize;
            let mask = rom_bank_mask(&self.rom);
            proof { lemma_bank_bits(self.rom_bank, mask, 0); }
            let bank = self.rom_bank & mask;
            get_or_ff(&self.rom, bank * 0x4000 + offset)
        } else {
            0xFF
        }
    }

    fn write_rom(&mut self, addr: u16, value: u8)
        ensures
            final(self)@ == old(self)@.spec_write_rom(addr, value),
    {
        proof { lemma_word_ops(value as u16); }
        if addr <= 0x1FFF {
            self.ram_enabled = value % 16 == 0x0A;
        } else if addr <= 0x3FFF {
            let lower5 = (value % 32) as usize;
            let lower5 = if lower5 == 0 { 1 } else { lower5 };
            proof { lemma_bank_bits(self.rom_bank, lower5, 0); }
            self.rom_bank = (self.rom_bank & !0x1Fusize) | lower5;
        } else if addr <= 0x5FFF {
            let bits = (value % 4) as usize;
            if self.banking_mode == 0 {
                proof { lemma_bank_bits(self.rom_bank, 0, bits); }
                self.rom_bank = (self.rom_bank & 0x1F) | (bits << 5);
            } else {
                self.ram_bank = bits;
            }
        } else if addr <= 0x7FFF {
            self.banking_mode = value % 2;
        }
    }

    fn read_ram(&self, addr: u16) -> (r: u8)
        ensures
            r == self@.spec_read_ram(addr),
    {
        if !self.ram_enabled {
            return 0xFF;
        }
        let bank = if self.banking_mode == 1 { self.ram_bank } else { 0 };
        let offset = bank * 0x2000 + (addr - 0xA000) as usize;
        get_or_ff(&self.ram, offset)
    }

    fn write_ram(&mut self, addr: u16, value: u8)
        ensures
            final(self)@ == old(self)@.spec_write_ram(addr, value),
    {
        if !self.ram_enabled {
            return;
        }
        let bank = if self.banking_mode == 1 { self.ram_bank } else { 0 };
        let offset = bank * 0x2000 + (addr - 0xA000) as usize;
        set_in_range(&mut self.ram, offset, value);
    }

    fn title(&self) -> (r: &str)
        ensures
            r@ == self.title@,
    {
        self.title.as_str()
    }

    fn has_battery(&self) -> (r: bool)
        ensures
            r == self.has_battery,
    {
        self.has_battery
    }

    fn tick(&mut self, t_cycles: u32)
        ensures
            final(self)@ == old(self)@,
    {
    }
}


// ─── MBC2 ───────────────────────────────────────────────────────────────────

pub struct Mbc2 {
    pub rom: Vec<u8>,
    /// 512 × 4-bit cells stored in the lower nibble.
    pub ram: Vec<u8>,
    pub rom_bank: usize,
    pub ram_enabled: bool,
    pub has_battery: bool,
    pub title: String,
}

pub struct Mbc2State {
    pub rom: Seq<u8>,
    pub ram: Seq<u8>,
    pub rom_bank: usize,
    pub ram_enabled: bool,
    pub has_battery: bool,
    pub title: Seq<char>,
}

impl View for Mbc2 {
    type V = Mbc2State;

    open spec fn view(&self) -> Mbc2State {
        Mbc2State {
            rom: self.rom@,
            ram: self.ram@,
            rom_bank: self.rom_bank,
            ram_enabled: self.ram_enabled,
            has_battery: self.has_battery,
            title: self.title@,
        }
    }
}

impl Mbc2State {
    pub open spec fn inv(self) -> bool {
        &&& self.ram.len() == 512
        &&& 1 <= self.rom_bank <= 15
    }

    pub open spec fn spec_read_rom(self, addr: u16) -> u8 {
        if addr <= 0x3FFF {
            byte_or_ff(self.rom, addr as int)
        } else if addr <= 0x7FFF {
            byte_or_ff(self.rom, (self.rom_bank % 16) * 0x4000 + (addr - 0x4000))
        } else {
            0xFF
        }
    }

    pub open spec fn spec_write_rom(self, addr: u16, value: u8) -> Mbc2State {
        if addr <= 0x3FFF {
            if addr & 0x0100 == 0 {
                Mbc2State { ram_enabled: value % 16 == 0x0A, ..self }
            } else {
                let bank = value % 16;
                Mbc2State { rom_bank: if bank == 0 { 1 } else { bank as usize }, ..self }
            }
        } else {
            self
        }
    }

    /// The 4-bit cell addressed by an address in 0xA000..=0xBFFF (mirrored every 512 bytes).
    pub open spec fn ram_index(addr: u16) -> int {
        (addr - 0xA000) % 512
    }

    pub open spec fn spec_read_ram(self, addr: u16) -> u8 {
        if !self.ram_enabled { 0xFF } else { 0xF0 | (self.ram[Mbc2State::ram_index(addr)] & 0x0F) }
    }

    pub open spec fn spec_write_ram(self, addr: u16, value: u8) -> Mbc2State {
        if !self.ram_enabled {
            self
        } else {
            Mbc2State { ram: self.ram.update(Mbc2State::ram_index(addr), value & 0x0F), ..self }
        }
    }
}

impl Mbc2 {
    pub fn new(rom: Vec<u8>, has_battery: bool) -> (r: Self)
        requires
            rom@.len() >= 0x144,
        ensures
            r@ == (Mbc2State {
                rom: rom@,
                ram: Seq::new(512, |i: int| 0u8),
                rom_bank: 1,
                ram_enabled: false,
                has_battery,
                title: lossy_text(title_bytes(rom@)),
            }),
            r@.inv(),
            is_ascii_bytes(title_bytes(rom@)) ==> r@.title == ascii_chars(title_bytes(rom@)),
    {
        let title = extract_title(rom.as_slice());
        Mbc2 { rom, ram: zeroed(512), rom_bank: 1, ram_enabled: false, has_battery, title }
    }
}

impl Cartridge for Mbc2 {
    open spec fn inv(&self) -> bool { self@.inv() }

    fn read_rom(&self, addr: u16) -> (r: u8)
        ensures
            r == self@.spec_read_rom(addr),
    {
        if addr <= 0x3FFF {
            get_or_ff(&self.rom, addr as usize)
        } else if addr <= 0x7FFF {
            let offset = (addr - 0x4000) as usize;
            let bank = self.rom_bank % 16;
            get_or_ff(&self.rom, bank * 0x4000 + offset)
        } else {
            0xFF
        }
    }

    fn write_rom(&mut self, addr: u16, value: u8)
        ensures
            final(self)@ == old(self)@.spec_write_rom(addr, value),
    {
        if addr <= 0x3FFF {
            if addr & 0x0100 == 0 {
                self.ram_enabled = value % 16 == 0x0A;
            } else {
                let bank = (value % 16) as usize;
                self.rom_bank = if bank == 0 { 1 } else { bank };
            }
        }
    }

    fn read_ram(&self, addr: u16) -> (r: u8)
        ensures
            r == self@.spec_read_ram(addr),
    {
        if !self.ram_enabled {
            return 0xFF;
        }
        let idx = ((addr - 0xA000) % 512) as usize;
        0xF0 | (self.ram[idx] & 0x0F)
    }

    fn write_ram(&mut self, addr: u16, value: u8)
        ensures
            final(self)@ == old(self)@.spec_write_ram(addr, value),
    {
        if !self.ram_enabled {
            return;
        }
        let idx = ((addr - 0xA000) % 512) as usize;
        self.ram.set(idx, value & 0x0F);
    }

    fn title(&self) -> (r: &str)
        ensures
            r@ == self.title@,
    {
        self.title.as_str()
    }

    fn has_battery(&self) -> (r: bool)
        ensures
            r == self.has_battery,
    {
        self.has_battery
    }

    fn tick(&mut self, t_cycles: u32)
        ensures
            final(self)@ == old(self)@,
    {
    }
}

// ─── MBC3 ───────────────────────────────────────────────────────────────────

pub struct Mbc3 {
    pub rom: Vec<u8>,
    pub ram: Vec<u8>,
    pub rom_bank: usize,
    /// 0x00..=0x03 select a RAM bank, 0x08..=0x0C a clock register.
    pub ram_bank: u8,
    pub ram_rtc_enabled: bool,
    pub has_battery: bool,
    pub rtc: Rtc,
    /// Last value written to 0x6000..=0x7FFF; writing 0x00 then 0x01 latches the clock.
    pub latch_prev: u8,
    pub title: String,
}

pub struct Mbc3State {
    pub rom: Seq<u8>,
    pub ram: Seq<u8>,
    pub rom_bank: usize,
    pub ram_bank: u8,
    pub ram_rtc_enabled: bool,
    pub has_battery: bool,
    pub rtc: Rtc,
    pub latch_prev: u8,
    pub title: Seq<char>,
}

impl View for Mbc3 {
    type V = Mbc3State;

    open spec fn view(&self) -> Mbc3State {
        Mbc3State {
            rom: self.rom@,
            ram: self.ram@,
            rom_bank: self.rom_bank,
            ram_bank: self.ram_bank,
            ram_rtc_enabled: self.ram_rtc_enabled,
            has_battery: self.has_battery,
            rtc: self.rtc,
            latch_prev: self.latch_prev,
            title: self.title@,
        }
    }
}

impl Mbc3State {
    pub open spec fn inv(self) -> bool {
        &&& 1 <= self.rom_bank <= 0x7F
        &&& self.rtc.inv()
    }

    pub open spec fn spec_read_rom(self, addr: u16) -> u8 {
        if addr <= 0x3FFF {
            byte_or_ff(self.rom, addr as int)
        } else if addr <= 0x7FFF {
            let bank = self.rom_bank & bank_mask(self.rom);
            byte_or_ff(self.rom, bank * 0x4000 + (addr - 0x4000))
        } else {
            0xFF
        }
    }

    pub open spec fn spec_write_rom(self, addr: u16, value: u8) -> Mbc3State {
        if addr <= 0x1FFF {
            Mbc3State { ram_rtc_enabled: value % 16 == 0x0A, ..self }
        } else if addr <= 0x3FFF {
            let bank = value % 128;
            Mbc3State { rom_bank: if bank == 0 { 1 } else { bank as usize }, ..self }
        } else if addr <= 0x5FFF {
            Mbc3State { ram_bank: value, ..self }
        } else if addr <= 0x7FFF {
            Mbc3State {
                rtc: if self.latch_prev == 0 && value == 1 { self.rtc.spec_latch() } else { self.rtc },
                latch_prev: value,
                ..self
            }
        } else {
            self
        }
    }

    pub open spec fn ram_offset(self, addr: u16) -> int {
        self.ram_bank * 0x2000 + (addr - 0xA000)
    }

    pub open spec fn spec_read_ram(self, addr: u16) -> u8 {
        if !self.ram_rtc_enabled {
            0xFF
        } else if self.ram_bank <= 3 {
            byte_or_ff(self.ram, self.ram_offset(addr))
        } else if 8 <= self.ram_bank <= 0x0C {
            self.rtc.spec_read_reg(self.ram_bank)
        } else {
            0xFF
        }
    }

    pub open spec fn spec_write_ram(self, addr: u16, value: u8) -> Mbc3State {
        if !self.ram_rtc_enabled {
            self
        } else if self.ram_bank <= 3 {
            Mbc3State { ram: store_in_range(self.ram, self.ram_offset(addr), value), ..self }
        } else if 8 <= self.ram_bank <= 0x0C {
            Mbc3State { rtc: self.rtc.spec_write_reg(self.ram_bank, value), ..self }
        } else {
            self
        }
    }
}

impl Mbc3 {
    pub fn new(rom: Vec<u8>, ram_size: usize, has_battery: bool) -> (r: Self)
        requires
            rom@.len() >= 0x144,
        ensures
            r@ == (Mbc3State {
                rom: rom@,
                ram: Seq::new(if ram_size > 0x2000 { ram_size as nat } else { 0x2000 }, |i: int| 0u8),
                rom_bank: 1,
                ram_bank: 0,
                ram_rtc_enabled: false,
                has_battery,
                rtc: Rtc::zero(),
                latch_prev: 0xFF,
                title: lossy_text(title_bytes(rom@)),
            }),
            r@.inv(),
            is_ascii_bytes(title_bytes(rom@)) ==> r@.title == ascii_chars(title_bytes(rom@)),
    {
        let title = extract_title(rom.as_slice());
        let size = if ram_size > 0x2000 { ram_size } else { 0x2000 };
        Mbc3 {
            rom,
            ram: zeroed(size),
            rom_bank: 1,
            ram_bank: 0,
            ram_rtc_enabled: false,
            has_battery,
            rtc: Rtc::new(),
            latch_prev: 0xFF,
            title,
        }
    }
}

impl Cartridge for Mbc3 {
    open spec fn inv(&self) -> bool { self@.inv() }

    fn read_rom(&self, addr: u16) -> (r: u8)
        ensures
            r == self@.spec_read_rom(addr),
    {
        if addr <= 0x3FFF {
            get_or_ff(&self.rom, addr as usize)
        } else if addr <= 0x7FFF {
            let offset = (addr - 0x4000) as usize;
            let mask = rom_bank_mask(&self.rom);
            proof { lemma_bank_bits(self.rom_bank, mask, 0); }
            let bank = self.rom_bank & mask;
            get_or_ff(&self.rom, bank * 0x4000 + offset)
        } else {
            0xFF
        }
    }

    fn write_rom(&mut self, addr: u16, value: u8)
        ensures
            final(self)@ == old(self)@.spec_write_rom(addr, value),
    {
        if addr <= 0x1FFF {
            self.ram_rtc_enabled = value % 16 == 0x0A;
        } else if addr <= 0x3FFF {
            let bank = (value % 128) as usize;
            self.rom_bank = if bank == 0 { 1 } else { bank };
        } else if addr <= 0x5FFF {
            self.ram_bank = value;
        } else if addr <= 0x7FFF {
            if self.latch_prev == 0x00 && value == 0x01 {
                self.rtc.latch();
            }
            self.latch_prev = value;
        }
    }

    fn read_ram(&self, addr: u16) -> (r: u8)
        ensures
            r == self@.spec_read_ram(addr),
    {
        if !self.ram_rtc_enabled {
            return 0xFF;
        }
        if self.ram_bank <= 3 {
            let offset = self.ram_bank as usize * 0x2000 + (addr - 0xA000) as usize;
            get_or_ff(&self.ram, offset)
        } else if 8 <= self.ram_bank && self.ram_bank <= 0x0C {
            self.rtc.read_reg(self.ram_bank)
        } else {
            0xFF
        }
    }

    fn write_ram(&mut self, addr: u16, value: u8)
        ensures
            final(self)@ == old(self)@.spec_write_ram(addr, value),
    {
        if !self.ram_rtc_enabled {
            return;
        }
        if self.ram_bank <= 3 {
            let offset = self.ram_bank as usize * 0x2000 + (addr - 0xA000) as usize;
            set_in_range(&mut self.ram, offset, value);
        } else if 8 <= self.ram_bank && self.ram_bank <= 0x0C {
            self.rtc.write_reg(self.ram_bank, value);
        }
    }

    fn title(&self) -> (r: &str)
        ensures
            r@ == self.title@,
    {
        self.title.as_str()
    }

    fn has_battery(&self) -> (r: bool)
        ensures
            r == self.has_battery,
    {
        self.has_battery
    }

    fn tick(&mut self, t_cycles: u32)
        ensures
            final(self)@ == (Mbc3State { rtc: old(self)@.rtc.spec_tick(t_cycles), ..old(self)@ }),
    {
        self.rtc.tick(t_cycles);
    }
}

// ─── MBC5 ───────────────────────────────────────────────────────────────────

pub struct Mbc5 {
    pub rom: Vec<u8>,
    pub ram: Vec<u8>,
    /// 9-bit bank number.
    pub rom_bank: usize,
    pub ram_bank: usize,
    pub ram_enabled: bool,
    pub has_battery: bool,
    pub title: String,
}

pub struct Mbc5State {
    pub rom: Seq<u8>,
    pub ram: Seq<u8>,
    pub rom_bank: usize,
    pub ram_bank: usize,
    pub ram_enabled: bool,
    pub has_battery: bool,
    pub title: Seq<char>,
}

impl View for Mbc5 {
    type V = Mbc5State;

    open spec fn view(&self) -> Mbc5State {
        Mbc5State {
            rom: self.rom@,
            ram: self.ram@,
            rom_bank: self.rom_bank,
            ram_bank: self.ram_bank,
            ram_enabled: self.ram_enabled,
            has_battery: self.has_battery,
            title: self.title@,
        }
    }
}

impl Mbc5State {
    pub open spec fn inv(self) -> bool {
        &&& self.rom_bank <= 0x1FF
        &&& self.ram_bank <= 0x0F
    }

    pub open spec fn spec_read_rom(self, addr: u16) -> u8 {
        if addr <= 0x3FFF {
            byte_or_ff(self.rom, addr as int)
        } else if addr <= 0x7FFF {
            let bank = self.rom_bank & bank_mask(self.rom);
            byte_or_ff(self.rom, bank * 0x4000 + (addr - 0x4000))
        } else {
            0xFF
        }
    }

    pub open spec fn spec_write_rom(self, addr: u16, value: u8) -> Mbc5State {
        if addr <= 0x1FFF {
            Mbc5State { ram_enabled: value % 16 == 0x0A, ..self }
        } else if addr <= 0x2FFF {
            // Lower 8 bits of the ROM bank number.
            Mbc5State { rom_bank: (self.rom_bank & 0x100) | (value as usize), ..self }
        } else if addr <= 0x3FFF {
            // Bit 8 of the ROM bank number.
            Mbc5State { rom_bank: (self.rom_bank & 0xFF) | (((value % 2) as usize) << 8usize), ..self }
        } else if addr <= 0x5FFF {
            Mbc5State { ram_bank: (value % 16) as usize, ..self }
        } else {
            self
        }
    }

    pub open spec fn ram_offset(self, addr: u16) -> int {
        self.ram_bank * 0x2000 + (addr - 0xA000)
    }

    pub open spec fn spec_read_ram(self, addr: u16) -> u8 {
        if !self.ram_enabled { 0xFF } else { byte_or_ff(self.ram, self.ram_offset(addr)) }
    }

    pub open spec fn spec_write_ram(self, addr: u16, value: u8) -> Mbc5State {
        if !self.ram_enabled {
            self
        } else {
            Mbc5State { ram: store_in_range(self.ram, self.ram_offset(addr), value), ..self }
        }
    }
}

impl Mbc5 {
    pub fn new(rom: Vec<u8>, ram_size: usize, has_battery: bool) -> (r: Self)
        requires
            rom@.len() >= 0x144,
        ensures
            r@ == (Mbc5State {
                rom: rom@,
                ram: Seq::new(if ram_size > 0x2000 { ram_size as nat } else { 0x2000 }, |i: int| 0u8),
                rom_bank: 1,
                ram_bank: 0,
                ram_enabled: false,
                has_battery,
                title: lossy_text(title_bytes(rom@)),
            }),
            r@.inv(),
            is_ascii_bytes(title_bytes(rom@)) ==> r@.title == ascii_chars(title_bytes(rom@)),
    {
        let title = extract_title(rom.as_slice());
        let size = if ram_size > 0x2000 { ram_size } else { 0x2000 };
        Mbc5 { rom, ram: zeroed(size), rom_bank: 1, ram_bank: 0, ram_enabled: false, has_battery, title }
    }
}

impl Cartridge for Mbc5 {
    open spec fn inv(&self) -> bool { self@.inv() }

    fn read_rom(&self, addr: u16) -> (r: u8)
        ensures
            r == self@.spec_read_rom(addr),
    {
        if addr <= 0x3FFF {
            get_or_ff(&self.rom, addr as usize)
        } else if addr <= 0x7FFF {
            let offset = (addr - 0x4000) as usize;
            let mask = rom_bank_mask(&self.rom);
            proof { lemma_bank_bits(self.rom_bank, mask, 0); }
            let bank = self.rom_bank & mask;
            get_or_ff(&self.rom, bank * 0x4000 + offset)
        } else {
            0xFF
        }
    }

    fn write_rom(&mut self, addr: u16, value: u8)
        ensures
            final(self)@ == old(self)@.spec_write_rom(addr, value),
    {
        if addr <= 0x1FFF {
            self.ram_enabled = value % 16 == 0x0A;
        } else if addr <= 0x2FFF {
            proof { lemma_bank_bits(self.rom_bank, 0, value as usize); }
            self.rom_bank = (self.rom_bank & 0x100) | (value as usize);
        } else if addr <= 0x3FFF {
            proof { lemma_bank_bits(self.rom_bank, 0, (value % 2) as usize); }
            self.rom_bank = (self.rom_bank & 0xFF) | (((value % 2) as usize) << 8);
        } else if addr <= 0x5FFF {
            self.ram_bank = (value % 16) as usize;
        }
    }

    fn read_ram(&self, addr: u16) -> (r: u8)
        ensures
            r == self@.spec_read_ram(addr),
    {
        if !self.ram_enabled {
            return 0xFF;
        }
        let offset = self.ram_bank * 0x2000 + (addr - 0xA000) as usize;
        get_or_ff(&self.ram, offset)
    }

    fn write_ram(&mut self, addr: u16, value: u8)
        ensures
            final(self)@ == old(self)@.spec_write_ram(addr, value),
    {
        if !self.ram_enabled {
            return;
        }
        let offset = self.ram_bank * 0x2000 + (addr - 0xA000) as usize;
        set_in_range(&mut self.ram, offset, value);
    }

    fn title(&self) -> (r: &str)
        ensures
            r@ == self.title@,
    {
        self.title.as_str()
    }

    fn has_battery(&self) -> (r: bool)
        ensures
            r == self.has_battery,
    {
        self.has_battery
    }

    fn tick(&mut self, t_cycles: u32)
        ensures
            final(self)@ == old(self)@,
    {
    }
}


// ─── Cartridge selection ────────────────────────────────────────────────────

/// A loaded cartridge with its memory bank controller.
pub enum Cart {
    RomOnly(RomOnly),
    Mbc1(Mbc1),
    Mbc2(Mbc2),
    Mbc3(Mbc3),
    Mbc5(Mbc5),
}

pub enum CartState {
    RomOnly(RomOnlyState),
    Mbc1(Mbc1State),
    Mbc2(Mbc2State),
    Mbc3(Mbc3State),
    Mbc5(Mbc5State),
}

impl View for Cart {
    type V = CartState;

    open spec fn view(&self) -> CartState {
        match self {
            Cart::RomOnly(m) => CartState::RomOnly(m@),
            Cart::Mbc1(m) => CartState::Mbc1(m@),
            Cart::Mbc2(m) => CartState::Mbc2(m@),
            Cart::Mbc3(m) => CartState::Mbc3(m@),
            Cart::Mbc5(m) => CartState::Mbc5(m@),
        }
    }
}

impl CartState {
    pub open spec fn inv(self) -> bool {
        match self {
            CartState::RomOnly(m) => true,
            CartState::Mbc1(m) => m.inv(),
            CartState::Mbc2(m) => m.inv(),
            CartState::Mbc3(m) => m.inv(),
            CartState::Mbc5(m) => m.inv(),
        }
    }

    pub open spec fn spec_read_rom(self, addr: u16) -> u8 {
        match self {
            CartState::RomOnly(m) => m.spec_read_rom(addr),
            CartState::Mbc1(m) => m.spec_read_rom(addr),
            CartState::Mbc2(m) => m.spec_read_rom(addr),
            CartState::Mbc3(m) => m.spec_read_rom(addr),
            CartState::Mbc5(m) => m.spec_read_rom(addr),
        }
    }

    pub open spec fn spec_write_rom(self, addr: u16, value: u8) -> CartState {
        match self {
            CartState::RomOnly(m) => self,
            CartState::Mbc1(m) => CartState::Mbc1(m.spec_write_rom(addr, value)),
            CartState::Mbc2(m) => CartState::Mbc2(m.spec_write_rom(addr, value)),
            CartState::Mbc3(m) => CartState::Mbc3(m.spec_write_rom(addr, value)),
            CartState::Mbc5(m) => CartState::Mbc5(m.spec_write_rom(addr, value)),
        }
    }

    pub open spec fn spec_read_ram(self, addr: u16) -> u8 {
        match self {
            CartState::RomOnly(m) => 0xFF,
            CartState::Mbc1(m) => m.spec_read_ram(addr),
            CartState::Mbc2(m) => m.spec_read_ram(addr),
            CartState::Mbc3(m) => m.spec_read_ram(addr),
            CartState::Mbc5(m) => m.spec_read_ram(addr),
        }
    }

    pub open spec fn spec_write_ram(self, addr: u16, value: u8) -> CartState {
        match self {
            CartState::RomOnly(m) => self,
            CartState::Mbc1(m) => CartState::Mbc1(m.spec_write_ram(addr, value)),
            CartState::Mbc2(m) => CartState::Mbc2(m.spec_write_ram(addr, value)),
            CartState::Mbc3(m) => CartState::Mbc3(m.spec_write_ram(addr, value)),
            CartState::Mbc5(m) => CartState::Mbc5(m.spec_write_ram(addr, value)),
        }
    }

    /// Only the MBC3 clock moves with time.
    pub open spec fn spec_tick(self, t: u32) -> CartState {
        match self {
            CartState::Mbc3(m) => CartState::Mbc3(Mbc3State { rtc: m.rtc.spec_tick(t), ..m }),
            _ => self,
        }
    }

    pub open spec fn title(self) -> Seq<char> {
        match self {
            CartState::RomOnly(m) => m.title,
            CartState::Mbc1(m) => m.title,
            CartState::Mbc2(m) => m.title,
            CartState::Mbc3(m) => m.title,
            CartState::Mbc5(m) => m.title,
        }
    }

    pub open spec fn has_battery(self) -> bool {
        match self {
            CartState::RomOnly(m) => false,
            CartState::Mbc1(m) => m.has_battery,
            CartState::Mbc2(m) => m.has_battery,
            CartState::Mbc3(m) => m.has_battery,
            CartState::Mbc5(m) => m.has_battery,
        }
    }
}

impl Cartridge for Cart {
    open spec fn inv(&self) -> bool { self@.inv() }

    fn read_rom(&self, addr: u16) -> (r: u8)
        ensures
            r == self@.spec_read_rom(addr),
    {
        match self {
            Cart::RomOnly(m) => m.read_rom(addr),
            Cart::Mbc1(m) => m.read_rom(addr),
            Cart::Mbc2(m) => m.read_rom(addr),
            Cart::Mbc3(m) => m.read_rom(addr),
            Cart::Mbc5(m) => m.read_rom(addr),
        }
    }

    fn write_rom(&mut self, addr: u16, value: u8)
        ensures
            final(self)@ == old(self)@.spec_write_rom(addr, value),
    {
        match self {
            Cart::RomOnly(m) => m.write_rom(addr, value),
            Cart::Mbc1(m) => m.write_rom(addr, value),
            Cart::Mbc2(m) => m.write_rom(addr, value),
            Cart::Mbc3(m) => m.write_rom(addr, value),
            Cart::Mbc5(m) => m.write_rom(addr, value),
        }
    }

    fn read_ram(&self, addr: u16) -> (r: u8)
        ensures
            r == self@.spec_read_ram(addr),
    {
        match self {
            Cart::RomOnly(m) => m.read_ram(addr),
            Cart::Mbc1(m) => m.read_ram(addr),
            Cart::Mbc2(m) => m.read_ram(addr),
            Cart::Mbc3(m) => m.read_ram(addr),
            Cart::Mbc5(m) => m.read_ram(addr),
        }
    }

    fn write_ram(&mut self, addr: u16, value: u8)
        ensures
            final(self)@ == old(self)@.spec_write_ram(addr, value),
    {
        match self {
            Cart::RomOnly(m) => m.write_ram(addr, value),
            Cart::Mbc1(m) => m.write_ram(addr, value),
            Cart::Mbc2(m) => m.write_ram(addr, value),
            Cart::Mbc3(m) => m.write_ram(addr, value),
            Cart::Mbc5(m) => m.write_ram(addr, value),
        }
    }

    fn title(&self) -> (r: &str)
        ensures
            r@ == self@.title(),
    {
        match self {
            Cart::RomOnly(m) => m.title(),
            Cart::Mbc1(m) => m.title(),
            Cart::Mbc2(m) => m.title(),
            Cart::Mbc3(m) => m.title(),
            Cart::Mbc5(m) => m.title(),
        }
    }

    fn has_battery(&self) -> (r: bool)
        ensures
            r == self@.has_battery(),
    {
        match self {
            Cart::RomOnly(m) => m.has_battery(),
            Cart::Mbc1(m) => m.has_battery(),
            Cart::Mbc2(m) => m.has_battery(),
            Cart::Mbc3(m) => m.has_battery(),
            Cart::Mbc5(m) => m.has_battery(),
        }
    }

    fn tick(&mut self, t_cycles: u32)
        ensures
            final(self)@ == old(self)@.spec_tick(t_cycles),
    {
        match self {
            Cart::RomOnly(m) => m.tick(t_cycles),
            Cart::Mbc1(m) => m.tick(t_cycles),
            Cart::Mbc2(m) => m.tick(t_cycles),
            Cart::Mbc3(m) => m.tick(t_cycles),
            Cart::Mbc5(m) => m.tick(t_cycles),
        }
    }
}

/// The header byte at `i`, or 0 past the end of the ROM.
pub open spec fn header_byte(rom: Seq<u8>, i: int) -> u8 {
    if 0 <= i < rom.len() { rom[i] } else { 0 }
}

/// External RAM size for the header's RAM size code.
pub open spec fn ram_size_for(code: u8) -> usize {
    if code == 0x01 {
        0x800
    } else if code == 0x02 {
        0x2000
    } else if code == 0x03 {
        0x8000
    } else if code == 0x04 {
        0x20000
    } else if code == 0x05 {
        0x10000
    } else {
        0
    }
}

/// Whether the cartridge type has a battery.
pub open spec fn battery_for(t: u8) -> bool {
    t == 0x03 || t == 0x06 || t == 0x09 || t == 0x0D || t == 0x0F || t == 0x10 || t == 0x13 || t
        == 0x1B || t == 0x1E || t == 0x22 || t == 0xFF
}

/// The kind of controller for the cartridge type byte: 0 = ROM only, else the MBC number.
pub open spec fn mbc_kind(t: u8) -> int {
    if t == 0x01 || t == 0x02 || t == 0x03 {
        1
    } else if t == 0x05 || t == 0x06 {
        2
    } else if 0x0F <= t <= 0x13 {
        3
    } else if 0x19 <= t <= 0x1E {
        5
    } else {
        0
    }
}

/// The cartridge that `load` builds from a ROM image.
pub open spec fn spec_load(rom: Seq<u8>) -> CartState {
    let t = header_byte(rom, 0x147);
    let ram_size = ram_size_for(header_byte(rom, 0x149));
    let ram_len: nat = if ram_size > 0x2000 { ram_size as nat } else { 0x2000 };
    let battery = battery_for(t);
    let title = lossy_text(title_bytes(rom));
    let kind = mbc_kind(t);
    if kind == 1 {
        CartState::Mbc1(Mbc1State {
            rom,
            ram: Seq::new(ram_len, |i: int| 0u8),
            rom_bank: 1,
            ram_bank: 0,
            ram_enabled: false,
            banking_mode: 0,
            has_battery: battery,
            title,
        })
    } else if kind == 2 {
        CartState::Mbc2(Mbc2State {
            rom,
            ram: Seq::new(512, |i: int| 0u8),
            rom_bank: 1,
            ram_enabled: false,
            has_battery: battery,
            title,
        })
    } else if kind == 3 {
        CartState::Mbc3(Mbc3State {
            rom,
            ram: Seq::new(ram_len, |i: int| 0u8),
            rom_bank: 1,
            ram_bank: 0,
            ram_rtc_enabled: false,
            has_battery: battery,
            rtc: Rtc::zero(),
            latch_prev: 0xFF,
            title,
        })
    } else if kind == 5 {
        CartState::Mbc5(Mbc5State {
            rom,
            ram: Seq::new(ram_len, |i: int| 0u8),
            rom_bank: 1,
            ram_bank: 0,
            ram_enabled: false,
            has_battery: battery,
            title,
        })
    } else {
        CartState::RomOnly(RomOnlyState { rom, title })
    }
}

fn header_byte_at(rom: &Vec<u8>, i: usize) -> (r: u8)
    ensures
        r == header_byte(rom@, i as int),
{
    if i < rom.len() { rom[i] } else { 0 }
}

/// Parse the cartridge header and build the matching memory bank controller.
pub fn load(rom: Vec<u8>) -> (c: Cart)
    requires
        rom@.len() >= 0x144,
    ensures
        c@ == spec_load(rom@),
        c@.inv(),
        is_ascii_bytes(title_bytes(rom@)) ==> c@.title() == ascii_chars(title_bytes(rom@)),
{
    let mbc_type = header_byte_at(&rom, 0x0147);
    let ram_size_code = header_byte_at(&rom, 0x0149);
    let ram_size: usize = if ram_size_code == 0x01 {
        2 * 1024
    } else if ram_size_code == 0x02 {
        8 * 1024
    } else if ram_size_code == 0x03 {
        32 * 1024
    } else if ram_size_code == 0x04 {
        128 * 1024
    } else if ram_size_code == 0x05 {
        64 * 1024
    } else {
        0
    };
    let t = mbc_type;
    let has_battery = t == 0x03 || t == 0x06 || t == 0x09 || t == 0x0D || t == 0x0F || t == 0x10
        || t == 0x13 || t == 0x1B || t == 0x1E || t == 0x22 || t == 0xFF;
    if t == 0x01 || t == 0x02 || t == 0x03 {
        Cart::Mbc1(Mbc1::new(rom, ram_size, has_battery))
    } else if t == 0x05 || t == 0x06 {
        Cart::Mbc2(Mbc2::new(rom, has_battery))
    } else if 0x0F <= t && t <= 0x13 {
        Cart::Mbc3(Mbc3::new(rom, ram_size, has_battery))
    } else if 0x19 <= t && t <= 0x1E {
        Cart::Mbc5(Mbc5::new(rom, ram_size, has_battery))
    } else {
        Cart::RomOnly(RomOnly::new(rom))
    }
}

// ─── Laws ───────────────────────────────────────────────────────────────────

/// With MBC1 RAM enabled, a byte written to external RAM reads back from the same address
/// (the offset lying inside the RAM).
pub proof fn lemma_mbc1_ram_write_read(m: Mbc1State, addr: u16, v: u8)
    requires
        m.ram_enabled,
        0xA000 <= addr,
        0 <= m.ram_offset(addr) < m.ram.len(),
    ensures
        m.spec_write_ram(addr, v).spec_read_ram(addr) == v,
{
}

/// MBC2 RAM cells are 4 bits wide: a write keeps the low nibble, reads fill the high nibble with ones.
pub proof fn lemma_mbc2_ram_write_read(m: Mbc2State, addr: u16, v: u8)
    requires
        m.inv(),
        m.ram_enabled,
        0xA000 <= addr,
    ensures
        m.spec_write_ram(addr, v).spec_read_ram(addr) == 0xF0 | (v & 0x0F),
{
    lemma_nibble_twice(v);
}

proof fn lemma_nibble_twice(v: u8)
    by (bit_vector)
    ensures
        (v & 0x0F) & 0x0F == v & 0x0F,
{
}

/// With MBC3 RAM selected and enabled, a byte written to external RAM reads back.
pub proof fn lemma_mbc3_ram_write_read(m: Mbc3State, addr: u16, v: u8)
    requires
        m.ram_rtc_enabled,
        m.ram_bank <= 3,
        0xA000 <= addr,
        0 <= m.ram_offset(addr) < m.ram.len(),
    ensures
        m.spec_write_ram(addr, v).spec_read_ram(addr) == v,
{
}

/// With MBC5 RAM enabled, a byte written to external RAM reads back.
pub proof fn lemma_mbc5_ram_write_read(m: Mbc5State, addr: u16, v: u8)
    requires
        m.ram_enabled,
        0xA000 <= addr,
        0 <= m.ram_offset(addr) < m.ram.len(),
    ensures
        m.spec_write_ram(addr, v).spec_read_ram(addr) == v,
{
}

/// With RAM disabled every external RAM read gives 0xFF and writes change nothing.
pub proof fn lemma_disabled_ram(c: CartState, addr: u16, v: u8)
    requires
        match c {
            CartState::Mbc1(m) => !m.ram_enabled,
            CartState::Mbc2(m) => !m.ram_enabled,
            CartState::Mbc3(m) => !m.ram_rtc_enabled,
            CartState::Mbc5(m) => !m.ram_enabled,
            CartState::RomOnly(m) => true,
        },
    ensures
        c.spec_read_ram(addr) == 0xFF,
        c.spec_write_ram(addr, v) == c,
{
}

/// The ROM bank number of MBC1, MBC2 and MBC3 never selects bank 0 at 0x4000: writing 0
/// selects bank 1.
pub proof fn lemma_bank_zero_selects_one(m1: Mbc1State, m2: Mbc2State, m3: Mbc3State, a2: u16)
    requires
        m1.inv(),
        a2 <= 0x3FFF,
        a2 & 0x0100 != 0,
    ensures
        m1.spec_write_rom(0x2000, 0).rom_bank % 32 == 1,
        m2.spec_write_rom(a2, 0).rom_bank == 1,
        m3.spec_write_rom(0x2000, 0).rom_bank == 1,
{
}

/// Every controller operation keeps the controller's invariant.
pub proof fn lemma_cart_ops_keep_inv(c: CartState, addr: u16, v: u8, t: u32)
    requires
        c.inv(),
        addr >= 0xA000,
    ensures
        c.spec_write_rom(addr, v).inv(),
        c.spec_write_ram(addr, v).inv(),
        c.spec_tick(t).inv(),
{
    lemma_bank_bits(0, 0, 0);
    match c {
        CartState::Mbc3(m) => {
            if !m.rtc.halted() {
                let total = m.rtc.sub_seconds + t;
                vstd::arithmetic::div_mod::lemma_mod_bound(total, T_CYCLES_PER_SECOND as int);
            }
        },
        _ => {},
    }
}

/// MBC3 ROM bank select: writing `v` to 0x2000..=0x3FFF selects bank `v & 0x7F` (7 bits),
/// or bank 1 for 0; on a 2 MiB ROM (128 banks) 0x4000 then maps the start of that bank.
pub proof fn lemma_mbc3_rom_bank_select(m: Mbc3State, addr: u16, v: u8, off: u16)
    requires
        0x2000 <= addr <= 0x3FFF,
        off < 0x4000,
    ensures
        m.spec_write_rom(addr, v).rom_bank == (if v & 0x7F == 0 { 1usize } else { (v & 0x7F) as usize }),
        m.rom.len() == 128 * 0x4000 ==> m.spec_write_rom(addr, v).spec_read_rom((0x4000 + off) as u16)
            == m.rom[(if v & 0x7F == 0 { 1int } else { (v & 0x7F) as int }) * 0x4000 + off],
{
    assert(v & 0x7F == v % 128) by (bit_vector);
    let b: usize = if v & 0x7F == 0 { 1usize } else { (v & 0x7F) as usize };
    assert(b < 128);
    if m.rom.len() == 128 * 0x4000 {
        assert(next_pow2(128) == 128) by {
            reveal_with_fuel(pow2_from, 9);
        }
        assert(bank_mask(m.rom) == 127);
        assert(b & 127 == b) by (bit_vector)
            requires
                b < 128,
        ;
    }
}

} // verus!
