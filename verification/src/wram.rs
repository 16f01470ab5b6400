//! Work RAM and high RAM: plain byte storage.

use vstd::prelude::*;

verus! {

/// Bytes in one work-RAM bank.
pub const WRAM_BANK_SIZE: usize = 4096;

/// Bytes of high RAM (the "zero page" at 0xFF80-0xFFFE).
pub const ZERO_PAGE_SIZE: usize = 128;

/// One 4 KiB work-RAM bank.
pub struct WRAMBank(pub Vec<u8>);

/// The 127 bytes of high RAM, plus the slot the IE register shadows.
pub struct ZeroPageRAM(pub Vec<u8>);

impl WRAMBank {
    pub open spec fn wf(self) -> bool {
        self.0@.len() == WRAM_BANK_SIZE
    }

    /// A bank of zeroes.
    pub fn new() -> (r: WRAMBank)
        ensures
            r.wf(),
            r.0@ == Seq::new(WRAM_BANK_SIZE as nat, |i: int| 0u8),
    {
        let mut v: Vec<u8> = Vec::new();
        let mut i: usize = 0;
        while i < WRAM_BANK_SIZE
            invariant
                i <= WRAM_BANK_SIZE,
                v@ == Seq::new(i as nat, |j: int| 0u8),
            decreases WRAM_BANK_SIZE - i,
        {
            v.push(0);
            i += 1;
            proof {
                assert(v@ =~= Seq::new(i as nat, |j: int| 0u8));
            }
        }
        WRAMBank(v)
    }

    pub fn read(&self, addr: u16) -> (r: u8)
        requires
            self.wf(),
            addr < WRAM_BANK_SIZE,
        ensures
            r == self.0@[addr as int],
    {
        self.0[addr as usize]
    }

    pub fn write(&mut self, addr: u16, data: u8)
        requires
            old(self).wf(),
            addr < WRAM_BANK_SIZE,
        ensures
            final(self).wf(),
            final(self).0@ == old(self).0@.update(addr as int, data),
    {
        self.0[addr as usize] = data;
    }
}

impl ZeroPageRAM {
    pub open spec fn wf(self) -> bool {
        self.0@.len() == ZERO_PAGE_SIZE
    }

    /// A zero page of zeroes.
    pub fn new() -> (r: ZeroPageRAM)
        ensures
            r.wf(),
            r.0@ == Seq::new(ZERO_PAGE_SIZE as nat, |i: int| 0u8),
    {
        let mut v: Vec<u8> = Vec::new();
        let mut i: usize = 0;
        while i < ZERO_PAGE_SIZE
            invariant
                i <= ZERO_PAGE_SIZE,
                v@ == Seq::new(i as nat, |j: int| 0u8),
            decreases ZERO_PAGE_SIZE - i,
        {
            v.push(0);
            i += 1;
            proof {
                assert(v@ =~= Seq::new(i as nat, |j: int| 0u8));
            }
        }
        ZeroPageRAM(v)
    }

    pub fn read(&self, addr: u16) -> (r: u8)
        requires
            self.wf(),
            addr < ZERO_PAGE_SIZE,
        ensures
            r == self.0@[addr as int],
    {
        self.0[addr as usize]
    }

    pub fn write(&mut self, addr: u16, data: u8)
        requires
            old(self).wf(),
            addr < ZERO_PAGE_SIZE,
        ensures
            final(self).wf(),
            final(self).0@ == old(self).0@.update(addr as int, data),
    {
        self.0[addr as usize] = data;
    }
}

} // verus!
