//! Minimal serial port: no link cable is attached, so a transfer with the internal clock
//! completes at once and shifts in 0xFF.

use vstd::prelude::*;

verus! {

#[derive(Clone, Copy)]
pub struct Serial {
    /// 0xFF01 – serial transfer data.
    pub sb: u8,
    /// 0xFF02 – serial transfer control.
    pub sc: u8,
    pub interrupt_requested: bool,
}

impl Serial {
    pub open spec fn spec_read(self, addr: u16) -> u8 {
        if addr == 0xFF01 {
            self.sb
        } else if addr == 0xFF02 {
            self.sc | 0x7E
        } else {
            0xFF
        }
    }

    pub open spec fn spec_write(self, addr: u16, value: u8) -> Serial {
        if addr == 0xFF01 {
            Serial { sb: value, ..self }
        } else if addr == 0xFF02 {
            if value & 0x81 == 0x81 {
                // Transfer start with internal clock: finishes at once with nothing connected.
                Serial { sb: 0xFF, sc: value & 0x7F, interrupt_requested: true }
            } else {
                Serial { sc: value, ..self }
            }
        } else {
            self
        }
    }

    pub fn new() -> (r: Self)
        ensures
            r == (Serial { sb: 0, sc: 0, interrupt_requested: false }),
    {
        Serial { sb: 0, sc: 0, interrupt_requested: false }
    }

    pub fn read(&self, addr: u16) -> (r: u8)
        ensures
            r == self.spec_read(addr),
    {
        if addr == 0xFF01 {
            self.sb
        } else if addr == 0xFF02 {
            self.sc | 0x7E
        } else {
            0xFF
        }
    }

    pub fn write(&mut self, addr: u16, value: u8)
        ensures
            *final(self) == old(self).spec_write(addr, value),
    {
        if addr == 0xFF01 {
            self.sb = value;
        } else if addr == 0xFF02 {
            self.sc = value;
            if value & 0x81 == 0x81 {
                self.sb = 0xFF;
                self.sc &= 0x7F;
                self.interrupt_requested = true;
            }
        }
    }
}

} // verus!
