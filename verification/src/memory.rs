//! The byte-granular memory interfaces: the 16-bit-addressed `Memory` bus
//! view and the offset-addressed `MemoryAccess` of single peripherals.

use vstd::prelude::*;

verus! {

/// A byte-addressable 16-bit address space.
pub trait Memory {
    fn read8(&mut self, addr: u16) -> u8;

    fn write8(&mut self, addr: u16, data: u8);
}

/// A peripheral mapped at some offset range of the bus.
pub trait MemoryAccess {
    fn write(&mut self, addr: u16, data: u8);

    fn read(&mut self, addr: u16) -> u8;
}

/// A memory that ignores writes and reads zero everywhere.
pub struct MemoryDummy;

impl Memory for MemoryDummy {
    fn read8(&mut self, _addr: u16) -> (r: u8)
        ensures
            r == 0,
    {
        0
    }

    fn write8(&mut self, _addr: u16, _data: u8) {
    }
}

} // verus!
