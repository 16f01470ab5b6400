//! The cartridge's memory-bank controller: ROM bank selection, external RAM
//! gating, and the battery-backed save image.
//!
//! MBC1 banking is implemented in full.  Cartridges without a controller
//! ignore control writes; the other controller families are stubs that keep
//! bank 1 selected.  Writing the save image to its sidecar file is the
//! host's business: the controller raises `save_pending` instead.

use vstd::prelude::*;
use crate::rom::{spec_has_battery, spec_ram_size_bytes, CartridgeType, Rom, NUM_ROM_BANK_BYTES};

verus! {

/// Bytes in one external-RAM bank.
pub const EXT_RAM_BANK_SIZE: usize = 8192;

/// The controller family of a cartridge.
#[derive(Debug, PartialEq, Eq, Structural, Copy, Clone)]
pub enum MBCType {
    NoMbc,
    Mbc1,
    Mbc2,
    Mbc3,
    Mbc4,
    Mbc5,
    HuC1,
}

/// The controller family header byte 0x147 declares.
pub open spec fn spec_mbc_type(t: CartridgeType) -> MBCType {
    match t {
        CartridgeType::RomOnly | CartridgeType::RomRam | CartridgeType::RomRamBattery
            => MBCType::NoMbc,
        CartridgeType::Mbc1 | CartridgeType::Mbc1Ram | CartridgeType::Mbc1RamBattery
            => MBCType::Mbc1,
        CartridgeType::Mbc2 | CartridgeType::Mbc2Battery => MBCType::Mbc2,
        CartridgeType::Mbc3TimerBattery
        | CartridgeType::Mbc3TimerRamBattery
        | CartridgeType::Mbc3
        | CartridgeType::Mbc3Ram
        | CartridgeType::Mbc3RamBattery => MBCType::Mbc3,
        CartridgeType::Mbc4 | CartridgeType::Mbc4Ram | CartridgeType::Mbc4RamBattery
            => MBCType::Mbc4,
        CartridgeType::Mbc5
        | CartridgeType::Mbc5Ram
        | CartridgeType::Mbc5RamBattery
        | CartridgeType::Mbc5Rumble
        | CartridgeType::Mbc5RumbleRam
        | CartridgeType::Mbc5RumbleRamBattery => MBCType::Mbc5,
        CartridgeType::Huc1RamBattery => MBCType::HuC1,
        // No controller of these families is emulated; treat them as
        // plain ROM so that a bus access never becomes fatal.
        CartridgeType::Mmm01
        | CartridgeType::Mmm01Ram
        | CartridgeType::Mmm01RamBattery
        | CartridgeType::PocketCamera
        | CartridgeType::BandaiTama5
        | CartridgeType::Huc3 => MBCType::NoMbc,
    }
}

/// The mathematical state of a controller: the ROM banks it multiplexes,
/// the external RAM it gates, and its banking registers.
pub ghost struct MBCView {
    pub rom_banks: Seq<Seq<u8>>,
    pub ram: Seq<u8>,
    pub ctype: MBCType,
    pub rom_bank: u8,
    pub ram_bank: usize,
    pub ram_mode: bool,
    pub ram_enabled: bool,
    pub battery: bool,
    pub save_pending: bool,
}

impl MBCView {
    pub open spec fn wf(self) -> bool {
        &&& self.rom_banks.len() >= 2
        &&& forall|i: int|
            0 <= i < self.rom_banks.len() ==> (#[trigger] self.rom_banks[i]).len()
                == NUM_ROM_BANK_BYTES
        &&& self.rom_bank % 32 >= 1
        &&& self.rom_bank < 128
        &&& self.ram_bank <= 3
    }

    /// The ROM bank a 0x4000-0x7FFF access reaches: the selected bank,
    /// wrapped to the banks the cartridge has.
    pub open spec fn selected_bank(self) -> int {
        self.rom_bank as int % self.rom_banks.len() as int
    }

    /// The external-RAM index an 0xA000-0xBFFF access reaches.
    pub open spec fn ram_index(self, addr: u16) -> int {
        self.ram_bank * EXT_RAM_BANK_SIZE + (addr - 0xa000)
    }
}

/// What a controller read returns.  ROM bank 0 is fixed; the switchable
/// window follows `selected_bank`; external RAM reads 0xFF while disabled
/// or beyond the cartridge's RAM; anything else is unmapped and reads 0xFF.
pub open spec fn spec_mbc_read(v: MBCView, addr: u16) -> u8 {
    if addr < 0x4000 {
        v.rom_banks[0][addr as int]
    } else if addr < 0x8000 {
        v.rom_banks[v.selected_bank()][addr - 0x4000]
    } else if 0xa000 <= addr < 0xc000 {
        if v.ram_enabled && v.ram_index(addr) < v.ram.len() {
            v.ram[v.ram_index(addr)]
        } else {
            0xff
        }
    } else {
        0xff
    }
}

/// What a controller write does.  External-RAM stores land in RAM when it
/// is enabled and present, and mark the save image dirty on battery
/// cartridges; control stores follow the MBC1 rules; cartridges without a
/// controller (and the stub families) ignore them.
pub open spec fn spec_mbc_write(v: MBCView, addr: u16, data: u8) -> MBCView {
    if 0xa000 <= addr < 0xc000 {
        if v.ram_enabled && v.ram_index(addr) < v.ram.len() {
            MBCView {
                ram: v.ram.update(v.ram_index(addr), data),
                save_pending: v.save_pending || v.battery,
                ..v
            }
        } else {
            v
        }
    } else if v.ctype == MBCType::Mbc1 {
        if addr < 0x2000 {
            MBCView { ram_enabled: data % 16 == 0x0a, ..v }
        } else if addr < 0x4000 {
            // Replace the low five bank bits; a zero value selects bank 1.
            MBCView {
                rom_bank: (v.rom_bank / 32 * 32 + (if data % 32 == 0 {
                    1
                } else {
                    data % 32
                })) as u8,
                ..v
            }
        } else if addr < 0x6000 {
            if v.ram_mode {
                MBCView { ram_bank: (data % 4) as usize, ..v }
            } else {
                // Replace the high two bank bits (bits 5 and 6).
                MBCView { rom_bank: (v.rom_bank % 32 + (data % 4) * 32) as u8, ..v }
            }
        } else if addr < 0x8000 {
            MBCView { ram_mode: data % 2 == 1, ..v }
        } else {
            v
        }
    } else {
        v
    }
}

/// A cartridge controller: the ROM it owns, the external RAM it gates, and
/// its banking state.
pub struct MBC {
    pub rom: Rom,
    pub ram: Vec<u8>,
    pub ctype: MBCType,
    pub rom_bank: u8,
    pub ram_bank: usize,
    pub ram_mode: bool,
    pub ram_enabled: bool,
    /// Set by every external-RAM store on a battery cartridge; the host
    /// writes the save image out and clears it.
    pub save_pending: bool,
}

impl View for MBC {
    type V = MBCView;

    open spec fn view(&self) -> MBCView {
        MBCView {
            rom_banks: self.rom.banks@.map_values(|b: Vec<u8>| b@),
            ram: self.ram@,
            ctype: self.ctype,
            rom_bank: self.rom_bank,
            ram_bank: self.ram_bank,
            ram_mode: self.ram_mode,
            ram_enabled: self.ram_enabled,
            battery: self.rom.battery,
            save_pending: self.save_pending,
        }
    }
}

impl MBC {
    pub open spec fn wf(self) -> bool {
        &&& self.rom.wf()
        &&& self@.wf()
        &&& self.ram@.len() == spec_ram_size_bytes(self.rom.ram_size)
        &&& self.ctype == spec_mbc_type(self.rom.rom_type)
    }

    /// Take ownership of a parsed ROM; external RAM starts zeroed at the
    /// declared size, with banking in its power-on state.
    pub fn new(rom: Rom) -> (r: MBC)
        requires
            rom.wf(),
        ensures
            r.wf(),
            r.rom == rom,
            r@.ram =~= Seq::new(spec_ram_size_bytes(rom.ram_size) as nat, |i: int| 0u8),
            r.rom_bank == 1,
            r.ram_bank == 0,
            !r.ram_mode,
            !r.ram_enabled,
            !r.save_pending,
            r@.battery == rom.battery,
    {
        let ctype = match rom.rom_type {
            CartridgeType::RomOnly | CartridgeType::RomRam | CartridgeType::RomRamBattery
                => MBCType::NoMbc,
            CartridgeType::Mbc1 | CartridgeType::Mbc1Ram | CartridgeType::Mbc1RamBattery
                => MBCType::Mbc1,
            CartridgeType::Mbc2 | CartridgeType::Mbc2Battery => MBCType::Mbc2,
            CartridgeType::Mbc3TimerBattery
            | CartridgeType::Mbc3TimerRamBattery
            | CartridgeType::Mbc3
            | CartridgeType::Mbc3Ram
            | CartridgeType::Mbc3RamBattery => MBCType::Mbc3,
            CartridgeType::Mbc4 | CartridgeType::Mbc4Ram | CartridgeType::Mbc4RamBattery
                => MBCType::Mbc4,
            CartridgeType::Mbc5
            | CartridgeType::Mbc5Ram
            | CartridgeType::Mbc5RamBattery
            | CartridgeType::Mbc5Rumble
            | CartridgeType::Mbc5RumbleRam
            | CartridgeType::Mbc5RumbleRamBattery => MBCType::Mbc5,
            CartridgeType::Huc1RamBattery => MBCType::HuC1,
            CartridgeType::Mmm01
            | CartridgeType::Mmm01Ram
            | CartridgeType::Mmm01RamBattery
            | CartridgeType::PocketCamera
            | CartridgeType::BandaiTama5
            | CartridgeType::Huc3 => MBCType::NoMbc,
        };
        let ram_len = rom.ram_size.as_usize();
        let mut ram: Vec<u8> = Vec::new();
        let mut i: usize = 0;
        while i < ram_len
            invariant
                i <= ram_len,
                ram@ == Seq::new(i as nat, |j: int| 0u8),
            decreases ram_len - i,
        {
            ram.push(0);
            i += 1;
            proof {
                assert(ram@ =~= Seq::new(i as nat, |j: int| 0u8));
            }
        }
        MBC {
            rom,
            ram,
            ctype,
            rom_bank: 1,
            ram_bank: 0,
            ram_mode: false,
            ram_enabled: false,
            save_pending: false,
        }
    }

    /// Install a previously saved external-RAM image, as the host loads it
    /// from the sidecar file: bytes past the declared RAM size are ignored.
    pub fn load_external_ram(&mut self, data: &Vec<u8>)
        requires
            old(self).wf(),
        ensures
            final(self).wf(),
            final(self)@ == (MBCView {
                ram: final(self)@.ram,
                ..old(self)@
            }),
            final(self)@.ram.len() == old(self)@.ram.len(),
            forall|i: int|
                0 <= i < final(self)@.ram.len() ==> final(self)@.ram[i] == (if i < data@.len() {
                    data@[i]
                } else {
                    old(self)@.ram[i]
                }),
            final(self).rom == old(self).rom,
    {
        let mut i: usize = 0;
        let n = if data.len() < self.ram.len() {
            data.len()
        } else {
            self.ram.len()
        };
        while i < n
            invariant
                i <= n,
                n <= data@.len(),
                n <= self.ram@.len(),
                self.ram@.len() == old(self).ram@.len(),
                forall|j: int|
                    0 <= j < self.ram@.len() ==> self.ram@[j] == (if j < i {
                        data@[j]
                    } else {
                        old(self).ram@[j]
                    }),
                self.rom == old(self).rom,
                self.ctype == old(self).ctype,
                self.rom_bank == old(self).rom_bank,
                self.ram_bank == old(self).ram_bank,
                self.ram_mode == old(self).ram_mode,
                self.ram_enabled == old(self).ram_enabled,
                self.save_pending == old(self).save_pending,
            decreases n - i,
        {
            let b = data[i];
            self.ram[i] = b;
            i += 1;
        }
    }

    /// The external-RAM contents, which are exactly what the host persists
    /// to the save file: its size is the RAM size the header declares.
    pub fn save_image(&self) -> (r: &Vec<u8>)
        ensures
            r@ == self@.ram,
    {
        &self.ram
    }

    /// Acknowledge that the host has written the save image out.
    pub fn clear_save_pending(&mut self)
        ensures
            *final(self) == (MBC { save_pending: false, ..*old(self) }),
    {
        self.save_pending = false;
    }

    /// A read through the controller: ROM, banked ROM, or gated RAM.
    pub fn read(&self, addr: u16) -> (r: u8)
        requires
            self.wf(),
        ensures
            r == spec_mbc_read(self@, addr),
    {
        if addr < 0x4000 {
            self.rom.banks[0][addr as usize]
        } else if addr < 0x8000 {
            let bank = (self.rom_bank as usize) % self.rom.banks.len();
            self.rom.banks[bank][(addr - 0x4000) as usize]
        } else if 0xa000 <= addr && addr < 0xc000 {
            let ix = self.ram_bank * EXT_RAM_BANK_SIZE + (addr - 0xa000) as usize;
            if self.ram_enabled && ix < self.ram.len() {
                self.ram[ix]
            } else {
                0xff
            }
        } else {
            0xff
        }
    }

    /// A write through the controller: an external-RAM store, or an MBC1
    /// control store.
    pub fn write(&mut self, addr: u16, data: u8)
        requires
            old(self).wf(),
        ensures
            final(self).wf(),
            final(self)@ == spec_mbc_write(old(self)@, addr, data),
            final(self).rom == old(self).rom,
    {
        if 0xa000 <= addr && addr < 0xc000 {
            let ix = self.ram_bank * EXT_RAM_BANK_SIZE + (addr - 0xa000) as usize;
            if self.ram_enabled && ix < self.ram.len() {
                self.ram[ix] = data;
                if self.rom.battery {
                    self.save_pending = true;
                }
            }
        } else if matches!(self.ctype, MBCType::Mbc1) {
            if addr < 0x2000 {
                self.ram_enabled = data % 16 == 0x0a;
            } else if addr < 0x4000 {
                let low = if data % 32 == 0 {
                    1
                } else {
                    data % 32
                };
                self.rom_bank = self.rom_bank / 32 * 32 + low;
            } else if addr < 0x6000 {
                if self.ram_mode {
                    self.ram_bank = (data % 4) as usize;
                } else {
                    self.rom_bank = self.rom_bank % 32 + (data % 4) * 32;
                }
            } else if addr < 0x8000 {
                self.ram_mode = data % 2 == 1;
            }
        }
    }
}

} // verus!
