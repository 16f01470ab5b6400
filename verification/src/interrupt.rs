//! The shared interrupt registers IE (enable mask) and IF (pending flags),
//! and the five interrupt sources.

use vstd::prelude::*;
use crate::ioregister::IORegister;

verus! {

/// IF/IE bit 0: vertical blank.
pub const INTERRUPT_VBLANK: u8 = 0x01;

/// IF/IE bit 1: LCD status (STAT).
pub const INTERRUPT_LCD_STAT: u8 = 0x02;

/// IF/IE bit 2: timer overflow.
pub const INTERRUPT_TIMER: u8 = 0x04;

/// IF/IE bit 3: serial transfer complete.
pub const INTERRUPT_SERIAL: u8 = 0x08;

/// IF/IE bit 4: joypad.
pub const INTERRUPT_JOYPAD: u8 = 0x10;

/// The interrupt enable register IE (0xFFFF) and the pending flags IF
/// (0xFF0F).
#[derive(Debug, PartialEq, Eq, Structural, Copy, Clone)]
pub struct InterruptRegisters {
    pub ienable: IORegister,
    pub iflags: IORegister,
}

impl InterruptRegisters {
    /// Both registers zero and unmasked.
    pub fn new() -> (r: InterruptRegisters)
        ensures
            r.ienable == (IORegister { data: 0, wmask: 0xff, rmask: 0xff }),
            r.iflags == (IORegister { data: 0, wmask: 0xff, rmask: 0xff }),
    {
        InterruptRegisters { ienable: IORegister::new(), iflags: IORegister::new() }
    }

    /// The registers after a peripheral raises the interrupts in `mask`.
    pub open spec fn spec_request(self, mask: u8) -> InterruptRegisters {
        InterruptRegisters {
            iflags: IORegister { data: self.iflags.data | mask, ..self.iflags },
            ..self
        }
    }

    /// Raise the interrupts in `mask`: set their IF bits.
    pub fn request(&mut self, mask: u8)
        ensures
            *final(self) == old(self).spec_request(mask),
    {
        self.iflags.data = self.iflags.data | mask;
    }
}

impl Default for InterruptRegisters {
    fn default() -> (r: InterruptRegisters)
        ensures
            r.ienable == (IORegister { data: 0, wmask: 0xff, rmask: 0xff }),
            r.iflags == (IORegister { data: 0, wmask: 0xff, rmask: 0xff }),
    {
        InterruptRegisters::new()
    }
}

} // verus!
