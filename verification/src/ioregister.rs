//! A memory-mapped I/O register: a data byte behind independent write and
//! read masks.  Bits outside the write mask keep their stored value; bits
//! outside the read mask read zero.

use vstd::prelude::*;
use crate::memory::MemoryAccess;

verus! {

/// One byte of memory-mapped I/O state with write and read masks.
#[derive(Debug, PartialEq, Eq, Structural, Copy, Clone)]
pub struct IORegister {
    pub data: u8,
    pub wmask: u8,
    pub rmask: u8,
}

impl IORegister {
    /// What a CPU read of this register returns.
    pub open spec fn spec_read(self) -> u8 {
        self.data & self.rmask
    }

    /// The register after a CPU write of `data`: only bits inside the write
    /// mask change.
    pub open spec fn spec_write(self, data: u8) -> IORegister {
        IORegister { data: (data & self.wmask) | (!self.wmask & self.data), ..self }
    }

    /// A fresh register: zero data, fully writable, fully readable.
    pub fn new() -> (r: IORegister)
        ensures
            r == (IORegister { data: 0, wmask: 0xff, rmask: 0xff }),
    {
        IORegister { data: 0, wmask: 0xff, rmask: 0xff }
    }

    /// Builder: preset the stored data.
    pub fn set(self, data: u8) -> (r: IORegister)
        ensures
            r == (IORegister { data: data, ..self }),
    {
        IORegister { data, ..self }
    }

    /// Builder: restrict which bits a CPU write may change.
    pub fn write_mask(self, mask: u8) -> (r: IORegister)
        ensures
            r == (IORegister { wmask: mask, ..self }),
    {
        IORegister { wmask: mask, ..self }
    }

    /// Builder: restrict which bits a CPU read sees.
    pub fn read_mask(self, mask: u8) -> (r: IORegister)
        ensures
            r == (IORegister { rmask: mask, ..self }),
    {
        IORegister { rmask: mask, ..self }
    }

    /// Builder: reads return zero.
    pub fn write_only(self) -> (r: IORegister)
        ensures
            r == (IORegister { rmask: 0, ..self }),
    {
        IORegister { rmask: 0, ..self }
    }

    /// Builder: CPU writes are ignored.
    pub fn read_only(self) -> (r: IORegister)
        ensures
            r == (IORegister { wmask: 0, ..self }),
    {
        IORegister { wmask: 0, ..self }
    }

    /// A CPU read through the read mask.
    pub fn read(&self, _addr: u16) -> (r: u8)
        ensures
            r == self.spec_read(),
    {
        self.data & self.rmask
    }

    /// A CPU write through the write mask.
    pub fn write(&mut self, _addr: u16, data: u8)
        ensures
            *final(self) == old(self).spec_write(data),
    {
        self.data = (data & self.wmask) | (!self.wmask & self.data);
    }
}

/// A write through a zero mask keeps the stored byte; through a full mask
/// it stores the new byte.
pub proof fn lemma_io_write_trivial_masks(x: u8, data: u8)
    by (bit_vector)
    ensures
        (data & 0) | (!0u8 & x) == x,
        (data & 0xff) | (!0xffu8 & x) == data,
{
}

impl Default for IORegister {
    fn default() -> (r: IORegister)
        ensures
            r == (IORegister { data: 0, wmask: 0xff, rmask: 0xff }),
    {
        IORegister::new()
    }
}

impl MemoryAccess for IORegister {
    fn write(&mut self, addr: u16, data: u8) {
        self.write(addr, data);
    }

    fn read(&mut self, addr: u16) -> u8 {
        IORegister::read(self, addr)
    }
}

} // verus!
