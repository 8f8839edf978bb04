//! Game Boy joypad input handler.
//!
//! Register 0xFF00 (P1/JOYP):
//!   Bit 5 – Select Action buttons  (0 = select)
//!   Bit 4 – Select Direction buttons (0 = select)
//!   Bit 3 – Down  / Start  (0 = pressed)
//!   Bit 2 – Up    / Select (0 = pressed)
//!   Bit 1 – Left  / B      (0 = pressed)
//!   Bit 0 – Right / A      (0 = pressed)

use vstd::prelude::*;

verus! {

#[derive(Debug, Clone, Copy, PartialEq, Eq, Structural)]
pub enum Button {
    Right,
    Left,
    Up,
    Down,
    A,
    B,
    Select,
    Start,
}

/// Whether the button belongs to the action group (A, B, Select, Start).
pub open spec fn is_action(b: Button) -> bool {
    match b {
        Button::A | Button::B | Button::Select | Button::Start => true,
        _ => false,
    }
}

/// The bit of the button inside its group.
pub open spec fn button_mask(b: Button) -> u8 {
    match b {
        Button::A | Button::Right => 0x01,
        Button::B | Button::Left => 0x02,
        Button::Select | Button::Up => 0x04,
        Button::Start | Button::Down => 0x08,
    }
}

#[derive(Clone, Copy)]
pub struct Joypad {
    /// Action buttons: A, B, Select, Start (active-low, bits 0..3).
    pub action: u8,
    /// Direction buttons: Right, Left, Up, Down (active-low, bits 0..3).
    pub direction: u8,
    /// The value written to P1 (selects which group is read).
    pub select: u8,
    /// Set on a high-to-low transition of a selected input line.
    pub interrupt_requested: bool,
}

impl Joypad {
    pub open spec fn spec_action(self) -> u8 { self.action }
    pub open spec fn spec_direction(self) -> u8 { self.direction }
    pub open spec fn spec_select(self) -> u8 { self.select }

    /// P1 as read: bits 7-6 read 1, bits 5-4 give the selection, and bits 3-0 are 1 except
    /// for the pressed buttons of a selected group.
    pub open spec fn spec_read(self) -> u8 {
        let r0 = self.select | 0xCF;
        let r1 = if self.select & 0x20 == 0 { (r0 & 0xF0) | (self.action & 0x0F) } else { r0 };
        if self.select & 0x10 == 0 { (r1 & 0xF0) | (self.direction & 0x0F) } else { r1 }
    }

    /// The button's line pulled low.
    pub open spec fn with_pressed(self, b: Button) -> Joypad {
        if is_action(b) {
            Joypad { action: self.action & !button_mask(b), ..self }
        } else {
            Joypad { direction: self.direction & !button_mask(b), ..self }
        }
    }

    pub open spec fn spec_press(self, b: Button) -> Joypad {
        let j = self.with_pressed(b);
        let prev = self.spec_read() & 0x0F;
        let now = j.spec_read() & 0x0F;
        if prev != 0 && now != prev {
            Joypad { interrupt_requested: true, ..j }
        } else {
            j
        }
    }

    pub open spec fn spec_release(self, b: Button) -> Joypad {
        if is_action(b) {
            Joypad { action: self.action | button_mask(b), ..self }
        } else {
            Joypad { direction: self.direction | button_mask(b), ..self }
        }
    }

    /// Whether the button is held (its line is low).
    pub open spec fn is_pressed(self, b: Button) -> bool {
        if is_action(b) {
            self.action & button_mask(b) == 0
        } else {
            self.direction & button_mask(b) == 0
        }
    }

    pub fn new() -> (r: Self)
        ensures
            r.spec_action() == 0x0F,
            r.spec_direction() == 0x0F,
            r.spec_select() == 0xFF,
            !r.interrupt_requested,
    {
        Joypad { action: 0x0F, direction: 0x0F, select: 0xFF, interrupt_requested: false }
    }

    /// Read P1 (0xFF00).
    pub fn read(&self) -> (r: u8)
        ensures
            r == self.spec_read(),
    {
        let mut result = self.select | 0xCF;
        if self.select & 0x20 == 0 {
            result = (result & 0xF0) | (self.action & 0x0F);
        }
        if self.select & 0x10 == 0 {
            result = (result & 0xF0) | (self.direction & 0x0F);
        }
        result
    }

    /// Write P1: only bits 4-5 are writable.
    pub fn write(&mut self, value: u8)
        ensures
            final(self).spec_select() == value & 0x30,
            final(self).spec_action() == old(self).spec_action(),
            final(self).spec_direction() == old(self).spec_direction(),
            final(self).interrupt_requested == old(self).interrupt_requested,
    {
        self.select = value & 0x30;
    }

    pub fn press(&mut self, button: Button)
        ensures
            *final(self) == old(self).spec_press(button),
    {
        let prev = self.read();
        match button {
            Button::A => self.action &= !0x01u8,
            Button::B => self.action &= !0x02u8,
            Button::Select => self.action &= !0x04u8,
            Button::Start => self.action &= !0x08u8,
            Button::Right => self.direction &= !0x01u8,
            Button::Left => self.direction &= !0x02u8,
            Button::Up => self.direction &= !0x04u8,
            Button::Down => self.direction &= !0x08u8,
        }
        let now = self.read();
        if prev & 0x0F != 0 && now & 0x0F != prev & 0x0F {
            self.interrupt_requested = true;
        }
    }

    pub fn release(&mut self, button: Button)
        ensures
            *final(self) == old(self).spec_release(button),
    {
        match button {
            Button::A => self.action |= 0x01,
            Button::B => self.action |= 0x02,
            Button::Select => self.action |= 0x04,
            Button::Start => self.action |= 0x08,
            Button::Right => self.direction |= 0x01,
            Button::Left => self.direction |= 0x02,
            Button::Up => self.direction |= 0x04,
            Button::Down => self.direction |= 0x08,
        }
    }
}

proof fn lemma_mask_bits(x: u8, m: u8)
    by (bit_vector)
    requires
        m == 1 || m == 2 || m == 4 || m == 8,
    ensures
        (x & !m) & m == 0,
        (x | m) & m != 0,
        x & m != 0 ==> (x & !m) | m == x,
        x & m == 0 ==> x & !m == x,
        x & m == 0 ==> (x | m) & !m == x,
{
}

/// A press followed by a release of a button that was up gives back the same button state
/// (only the interrupt request may have been raised).
pub proof fn lemma_release_undoes_press(j: Joypad, b: Button)
    requires
        !j.is_pressed(b),
    ensures
        j.spec_press(b).spec_release(b).spec_action() == j.spec_action(),
        j.spec_press(b).spec_release(b).spec_direction() == j.spec_direction(),
        j.spec_press(b).spec_release(b).spec_select() == j.spec_select(),
{
    lemma_mask_bits(j.action, button_mask(b));
    lemma_mask_bits(j.direction, button_mask(b));
}

/// A pressed button is held and a released one is not; other buttons keep their state.
pub proof fn lemma_press_release_state(j: Joypad, b: Button, other: Button)
    requires
        other != b,
    ensures
        j.spec_press(b).is_pressed(b),
        !j.spec_release(b).is_pressed(b),
        j.spec_press(b).is_pressed(other) == j.is_pressed(other),
        j.spec_release(b).is_pressed(other) == j.is_pressed(other),
{
    lemma_mask_bits(j.action, button_mask(b));
    lemma_mask_bits(j.direction, button_mask(b));
    if button_mask(b) != button_mask(other) {
        lemma_other_bits(j.action, button_mask(b), button_mask(other));
        lemma_other_bits(j.direction, button_mask(b), button_mask(other));
    }
}

/// With neither button group selected, P1's input lines all read 1.
pub proof fn lemma_unselected_lines_high(j: Joypad)
    requires
        j.select & 0x30 == 0x30,
    ensures
        j.spec_read() & 0x0F == 0x0F,
        j.spec_read() & 0x30 == 0x30,
{
    let s = j.select;
    assert((s | 0xCF) & 0x0F == 0x0F && (s & 0x30 == 0x30 ==> (s | 0xCF) & 0x30 == 0x30)
        && (s & 0x30 == 0x30 ==> s & 0x20 != 0 && s & 0x10 != 0)) by (bit_vector);
}

proof fn lemma_other_bits(x: u8, m: u8, k: u8)
    by (bit_vector)
    requires
        m == 1 || m == 2 || m == 4 || m == 8,
        k == 1 || k == 2 || k == 4 || k == 8,
        m != k,
    ensures
        (x & !m) & k == x & k,
        (x | m) & k == x & k,
{
}

} // verus!
