//! Cartridge ROM images: the fixed header fields and the 16 KiB banks.
//!
//! Reading the file is the host's business; this module parses an image
//! already in memory and rejects bad headers, the only fatal error path of
//! the whole core.

use vstd::prelude::*;

verus! {

/// Bytes in one ROM bank.
pub const NUM_ROM_BANK_BYTES: usize = 16384;

/// One 16 KiB ROM bank.
pub type RomBank = Vec<u8>;

/// Header byte 0x147: which memory-bank controller (and extras) the
/// cartridge carries.
#[derive(Copy, Clone, Debug, PartialEq, Eq, Structural)]
pub enum CartridgeType {
    RomOnly,
    Mbc1,
    Mbc1Ram,
    Mbc1RamBattery,
    Mbc2,
    Mbc2Battery,
    RomRam,
    RomRamBattery,
    Mmm01,
    Mmm01Ram,
    Mmm01RamBattery,
    Mbc3TimerBattery,
    Mbc3TimerRamBattery,
    Mbc3,
    Mbc3Ram,
    Mbc3RamBattery,
    Mbc4,
    Mbc4Ram,
    Mbc4RamBattery,
    Mbc5,
    Mbc5Ram,
    Mbc5RamBattery,
    Mbc5Rumble,
    Mbc5RumbleRam,
    Mbc5RumbleRamBattery,
    PocketCamera,
    BandaiTama5,
    Huc3,
    Huc1RamBattery,
}

/// Header byte 0x148: the ROM size, in 16 KiB banks.
#[derive(Copy, Clone, Debug, PartialEq, Eq, Structural)]
pub enum RomSize {
    Rom32K,
    Rom64K,
    Rom128K,
    Rom256K,
    Rom512K,
    Rom1M,
    Rom2M,
    Rom4M,
    Rom1M1,
    Rom1M2,
    Rom1M5,
}

/// Header byte 0x149: the external cartridge RAM size.
#[derive(Copy, Clone, Debug, PartialEq, Eq, Structural)]
pub enum RamSize {
    RamNone,
    Ram2K,
    Ram8K,
    Ram32K,
    Ram128K,
    Ram64K,
}

/// Why an image was rejected.
#[derive(Copy, Clone, Debug, PartialEq, Eq, Structural)]
pub enum RomError {
    /// Shorter than the fixed header.
    TooShort,
    /// Header byte 0x147 is no defined cartridge type.
    BadCartridgeType,
    /// Header byte 0x148 is no defined ROM size.
    BadRomSize,
    /// Header byte 0x149 is no defined RAM size.
    BadRamSize,
    /// The image ends before the size its header declares.
    UnexpectedEof,
}

/// The defined values of header byte 0x147.
pub open spec fn spec_cartridge_type(b: u8) -> Option<CartridgeType> {
    if b == 0x00 {
        Some(CartridgeType::RomOnly)
    } else if b == 0x01 {
        Some(CartridgeType::Mbc1)
    } else if b == 0x02 {
        Some(CartridgeType::Mbc1Ram)
    } else if b == 0x03 {
        Some(CartridgeType::Mbc1RamBattery)
    } else if b == 0x05 {
        Some(CartridgeType::Mbc2)
    } else if b == 0x06 {
        Some(CartridgeType::Mbc2Battery)
    } else if b == 0x08 {
        Some(CartridgeType::RomRam)
    } else if b == 0x09 {
        Some(CartridgeType::RomRamBattery)
    } else if b == 0x0b {
        Some(CartridgeType::Mmm01)
    } else if b == 0x0c {
        Some(CartridgeType::Mmm01Ram)
    } else if b == 0x0d {
        Some(CartridgeType::Mmm01RamBattery)
    } else if b == 0x0f {
        Some(CartridgeType::Mbc3TimerBattery)
    } else if b == 0x10 {
        Some(CartridgeType::Mbc3TimerRamBattery)
    } else if b == 0x11 {
        Some(CartridgeType::Mbc3)
    } else if b == 0x12 {
        Some(CartridgeType::Mbc3Ram)
    } else if b == 0x13 {
        Some(CartridgeType::Mbc3RamBattery)
    } else if b == 0x15 {
        Some(CartridgeType::Mbc4)
    } else if b == 0x16 {
        Some(CartridgeType::Mbc4Ram)
    } else if b == 0x17 {
        Some(CartridgeType::Mbc4RamBattery)
    } else if b == 0x19 {
        Some(CartridgeType::Mbc5)
    } else if b == 0x1a {
        Some(CartridgeType::Mbc5Ram)
    } else if b == 0x1b {
        Some(CartridgeType::Mbc5RamBattery)
    } else if b == 0x1c {
        Some(CartridgeType::Mbc5Rumble)
    } else if b == 0x1d {
        Some(CartridgeType::Mbc5RumbleRam)
    } else if b == 0x1e {
        Some(CartridgeType::Mbc5RumbleRamBattery)
    } else if b == 0xfc {
        Some(CartridgeType::PocketCamera)
    } else if b == 0xfd {
        Some(CartridgeType::BandaiTama5)
    } else if b == 0xfe {
        Some(CartridgeType::Huc3)
    } else if b == 0xff {
        Some(CartridgeType::Huc1RamBattery)
    } else {
        None
    }
}

/// The defined values of header byte 0x148.
pub open spec fn spec_rom_size(b: u8) -> Option<RomSize> {
    if b == 0x00 {
        Some(RomSize::Rom32K)
    } else if b == 0x01 {
        Some(RomSize::Rom64K)
    } else if b == 0x02 {
        Some(RomSize::Rom128K)
    } else if b == 0x03 {
        Some(RomSize::Rom256K)
    } else if b == 0x04 {
        Some(RomSize::Rom512K)
    } else if b == 0x05 {
        Some(RomSize::Rom1M)
    } else if b == 0x06 {
        Some(RomSize::Rom2M)
    } else if b == 0x07 {
        Some(RomSize::Rom4M)
    } else if b == 0x52 {
        Some(RomSize::Rom1M1)
    } else if b == 0x53 {
        Some(RomSize::Rom1M2)
    } else if b == 0x54 {
        Some(RomSize::Rom1M5)
    } else {
        None
    }
}

/// The defined values of header byte 0x149.
pub open spec fn spec_ram_size(b: u8) -> Option<RamSize> {
    if b == 0x00 {
        Some(RamSize::RamNone)
    } else if b == 0x01 {
        Some(RamSize::Ram2K)
    } else if b == 0x02 {
        Some(RamSize::Ram8K)
    } else if b == 0x03 {
        Some(RamSize::Ram32K)
    } else if b == 0x04 {
        Some(RamSize::Ram128K)
    } else if b == 0x05 {
        Some(RamSize::Ram64K)
    } else {
        None
    }
}

/// The image size, in bytes, a ROM-size code declares.  The three exotic
/// codes mean 72, 80 and 96 banks.
pub open spec fn spec_rom_size_bytes(s: RomSize) -> usize {
    match s {
        RomSize::Rom32K => 32768,
        RomSize::Rom64K => 65536,
        RomSize::Rom128K => 131072,
        RomSize::Rom256K => 262144,
        RomSize::Rom512K => 524288,
        RomSize::Rom1M => 1048576,
        RomSize::Rom2M => 2097152,
        RomSize::Rom4M => 4194304,
        RomSize::Rom1M1 => 1179648,
        RomSize::Rom1M2 => 1310720,
        RomSize::Rom1M5 => 1572864,
    }
}

/// The external RAM size, in bytes, a RAM-size code declares.
pub open spec fn spec_ram_size_bytes(s: RamSize) -> usize {
    match s {
        RamSize::RamNone => 0,
        RamSize::Ram2K => 2048,
        RamSize::Ram8K => 8192,
        RamSize::Ram32K => 32768,
        RamSize::Ram64K => 65536,
        RamSize::Ram128K => 131072,
    }
}

/// Whether the cartridge type declares battery-backed RAM, which the host
/// persists to a sidecar save file.
pub open spec fn spec_has_battery(t: CartridgeType) -> bool {
    match t {
        CartridgeType::Mbc1RamBattery
        | CartridgeType::Mbc2Battery
        | CartridgeType::RomRamBattery
        | CartridgeType::Mmm01RamBattery
        | CartridgeType::Mbc3TimerRamBattery
        | CartridgeType::Mbc3RamBattery
        | CartridgeType::Mbc4RamBattery
        | CartridgeType::Mbc5RamBattery
        | CartridgeType::Mbc5RumbleRamBattery
        | CartridgeType::Huc1RamBattery => true,
        _ => false,
    }
}

impl CartridgeType {
    /// Parse header byte 0x147.
    pub fn from_byte(b: u8) -> (r: Option<CartridgeType>)
        ensures
            r == spec_cartridge_type(b),
    {
        match b {
            0x00 => Some(CartridgeType::RomOnly),
            0x01 => Some(CartridgeType::Mbc1),
            0x02 => Some(CartridgeType::Mbc1Ram),
            0x03 => Some(CartridgeType::Mbc1RamBattery),
            0x05 => Some(CartridgeType::Mbc2),
            0x06 => Some(CartridgeType::Mbc2Battery),
            0x08 => Some(CartridgeType::RomRam),
            0x09 => Some(CartridgeType::RomRamBattery),
            0x0b => Some(CartridgeType::Mmm01),
            0x0c => Some(CartridgeType::Mmm01Ram),
            0x0d => Some(CartridgeType::Mmm01RamBattery),
            0x0f => Some(CartridgeType::Mbc3TimerBattery),
            0x10 => Some(CartridgeType::Mbc3TimerRamBattery),
            0x11 => Some(CartridgeType::Mbc3),
            0x12 => Some(CartridgeType::Mbc3Ram),
            0x13 => Some(CartridgeType::Mbc3RamBattery),
            0x15 => Some(CartridgeType::Mbc4),
            0x16 => Some(CartridgeType::Mbc4Ram),
            0x17 => Some(CartridgeType::Mbc4RamBattery),
            0x19 => Some(CartridgeType::Mbc5),
            0x1a => Some(CartridgeType::Mbc5Ram),
            0x1b => Some(CartridgeType::Mbc5RamBattery),
            0x1c => Some(CartridgeType::Mbc5Rumble),
            0x1d => Some(CartridgeType::Mbc5RumbleRam),
            0x1e => Some(CartridgeType::Mbc5RumbleRamBattery),
            0xfc => Some(CartridgeType::PocketCamera),
            0xfd => Some(CartridgeType::BandaiTama5),
            0xfe => Some(CartridgeType::Huc3),
            0xff => Some(CartridgeType::Huc1RamBattery),
            _ => None,
        }
    }
}

impl RomSize {
    /// Parse header byte 0x148.
    pub fn from_byte(b: u8) -> (r: Option<RomSize>)
        ensures
            r == spec_rom_size(b),
    {
        match b {
            0x00 => Some(RomSize::Rom32K),
            0x01 => Some(RomSize::Rom64K),
            0x02 => Some(RomSize::Rom128K),
            0x03 => Some(RomSize::Rom256K),
            0x04 => Some(RomSize::Rom512K),
            0x05 => Some(RomSize::Rom1M),
            0x06 => Some(RomSize::Rom2M),
            0x07 => Some(RomSize::Rom4M),
            0x52 => Some(RomSize::Rom1M1),
            0x53 => Some(RomSize::Rom1M2),
            0x54 => Some(RomSize::Rom1M5),
            _ => None,
        }
    }
}

impl RamSize {
    /// Parse header byte 0x149.
    pub fn from_byte(b: u8) -> (r: Option<RamSize>)
        ensures
            r == spec_ram_size(b),
    {
        match b {
            0x00 => Some(RamSize::RamNone),
            0x01 => Some(RamSize::Ram2K),
            0x02 => Some(RamSize::Ram8K),
            0x03 => Some(RamSize::Ram32K),
            0x04 => Some(RamSize::Ram128K),
            0x05 => Some(RamSize::Ram64K),
            _ => None,
        }
    }

    /// The declared external RAM size in bytes.
    pub fn as_usize(self) -> (r: usize)
        ensures
            r == spec_ram_size_bytes(self),
    {
        match self {
            RamSize::RamNone => 0,
            RamSize::Ram2K => 2048,
            RamSize::Ram8K => 8192,
            RamSize::Ram32K => 32768,
            RamSize::Ram64K => 65536,
            RamSize::Ram128K => 131072,
        }
    }
}

/// An immutable cartridge ROM image, split into its 16 KiB banks, with the
/// header fields the core consumes.
pub struct Rom {
    /// The path the host loaded the image from; the save file sits beside it.
    pub filename: String,
    pub banks: Vec<RomBank>,
    /// Header bytes 0x134-0x143: the title, ASCII, possibly NUL-padded.
    pub title: Vec<u8>,
    pub cgb_flag: bool,
    pub sgb_flag: bool,
    pub rom_type: CartridgeType,
    pub rom_size: RomSize,
    pub rom_manufacturer: [u8; 4],
    pub ram_size: RamSize,
    pub battery: bool,
}

impl Rom {
    /// Well-formed: the banks match the declared size, each 16 KiB.
    pub open spec fn wf(self) -> bool {
        &&& self.banks@.len() * NUM_ROM_BANK_BYTES == spec_rom_size_bytes(self.rom_size)
        &&& self.banks@.len() >= 2
        &&& forall|i: int|
            0 <= i < self.banks@.len() ==> (#[trigger] self.banks@[i])@.len()
                == NUM_ROM_BANK_BYTES
        &&& self.battery == spec_has_battery(self.rom_type)
    }

    /// The image size, in bytes, a ROM-size code declares.
    pub fn get_size_in_bytes(rom_size: &RomSize) -> (r: usize)
        ensures
            r == spec_rom_size_bytes(*rom_size),
    {
        match *rom_size {
            RomSize::Rom1M1 => 1179648,
            RomSize::Rom1M2 => 1310720,
            RomSize::Rom1M5 => 1572864,
            RomSize::Rom32K => 32768,
            RomSize::Rom64K => 65536,
            RomSize::Rom128K => 131072,
            RomSize::Rom256K => 262144,
            RomSize::Rom512K => 524288,
            RomSize::Rom1M => 1048576,
            RomSize::Rom2M => 2097152,
            RomSize::Rom4M => 4194304,
        }
    }

    pub fn has_battery(&self) -> (r: bool)
        ensures
            r == self.battery,
    {
        self.battery
    }

    /// Parse a raw cartridge image.  Accepts exactly the images whose header
    /// bytes 0x147..0x149 are defined values and whose length reaches the
    /// declared ROM size; trailing bytes past that size are ignored.
    pub fn from_bytes(filename: &str, data: &Vec<u8>) -> (r: Result<Rom, RomError>)
        ensures
            data@.len() < 0x150 <==> r == Err::<Rom, RomError>(RomError::TooShort),
            data@.len() >= 0x150 && spec_cartridge_type(data@[0x147]) is None <==> r == Err::<
                Rom,
                RomError,
            >(RomError::BadCartridgeType),
            data@.len() >= 0x150 && spec_cartridge_type(data@[0x147]) is Some && spec_rom_size(
                data@[0x148],
            ) is None <==> r == Err::<Rom, RomError>(RomError::BadRomSize),
            data@.len() >= 0x150 && spec_cartridge_type(data@[0x147]) is Some && spec_rom_size(
                data@[0x148],
            ) is Some && spec_ram_size(data@[0x149]) is None <==> r == Err::<Rom, RomError>(
                RomError::BadRamSize,
            ),
            r is Ok <==> data@.len() >= 0x150 && spec_cartridge_type(data@[0x147]) is Some
                && spec_rom_size(data@[0x148]) is Some && spec_ram_size(data@[0x149]) is Some
                && data@.len() >= spec_rom_size_bytes(spec_rom_size(data@[0x148])->Some_0),
            r matches Ok(rom) ==> {
                &&& rom.wf()
                &&& Some(rom.rom_type) == spec_cartridge_type(data@[0x147])
                &&& Some(rom.rom_size) == spec_rom_size(data@[0x148])
                &&& Some(rom.ram_size) == spec_ram_size(data@[0x149])
                &&& rom.battery == spec_has_battery(rom.rom_type)
                &&& rom.title@ == data@.subrange(0x134, 0x144)
                &&& rom.filename@ == filename@
                &&& forall|i: int|
                    0 <= i < rom.banks@.len() ==> (#[trigger] rom.banks@[i])@ == data@.subrange(
                        i * NUM_ROM_BANK_BYTES,
                        (i + 1) * NUM_ROM_BANK_BYTES,
                    )
            },
    {
        if data.len() < 0x150 {
            return Err(RomError::TooShort);
        }
        let rom_type = match CartridgeType::from_byte(data[0x147]) {
            Some(t) => t,
            None => {
                return Err(RomError::BadCartridgeType);
            },
        };
        let rom_size = match RomSize::from_byte(data[0x148]) {
            Some(s) => s,
            None => {
                return Err(RomError::BadRomSize);
            },
        };
        let ram_size = match RamSize::from_byte(data[0x149]) {
            Some(s) => s,
            None => {
                return Err(RomError::BadRamSize);
            },
        };
        let total = Rom::get_size_in_bytes(&rom_size);
        if data.len() < total {
            return Err(RomError::UnexpectedEof);
        }
        let num_banks = total / NUM_ROM_BANK_BYTES;
        assert(num_banks * NUM_ROM_BANK_BYTES == total && num_banks >= 2) by {
            assert(total % NUM_ROM_BANK_BYTES == 0 && total / NUM_ROM_BANK_BYTES >= 2);
        }

        let mut banks: Vec<RomBank> = Vec::new();
        let mut i: usize = 0;
        while i < num_banks
            invariant
                i <= num_banks,
                num_banks * NUM_ROM_BANK_BYTES == total,
                total <= data@.len(),
                banks@.len() == i,
                forall|k: int|
                    0 <= k < i ==> (#[trigger] banks@[k])@ == data@.subrange(
                        k * NUM_ROM_BANK_BYTES,
                        (k + 1) * NUM_ROM_BANK_BYTES,
                    ),
            decreases num_banks - i,
        {
            let base: usize = i * NUM_ROM_BANK_BYTES;
            assert(base + NUM_ROM_BANK_BYTES <= total) by (nonlinear_arith)
                requires
                    base == i * NUM_ROM_BANK_BYTES,
                    i < num_banks,
                    num_banks * NUM_ROM_BANK_BYTES == total,
            ;
            let mut bank: Vec<u8> = Vec::new();
            let mut j: usize = 0;
            while j < NUM_ROM_BANK_BYTES
                invariant
                    j <= NUM_ROM_BANK_BYTES,
                    base + NUM_ROM_BANK_BYTES <= total <= data@.len(),
                    bank@ == data@.subrange(base as int, base + j),
                decreases NUM_ROM_BANK_BYTES - j,
            {
                bank.push(data[base + j]);
                j += 1;
                proof {
                    assert(bank@ =~= data@.subrange(base as int, base + j));
                }
            }
            banks.push(bank);
            i += 1;
        }

        let mut title: Vec<u8> = Vec::new();
        let mut t: usize = 0;
        while t < 16
            invariant
                t <= 16,
                data@.len() >= 0x150,
                title@ == data@.subrange(0x134, 0x134 + t),
            decreases 16 - t,
        {
            title.push(data[0x134 + t]);
            t += 1;
            proof {
                assert(title@ =~= data@.subrange(0x134, 0x134 + t));
            }
        }
        let rom_manufacturer: [u8; 4] = [title[11], title[12], title[13], title[14]];
        let battery = match rom_type {
            CartridgeType::Mbc1RamBattery
            | CartridgeType::Mbc2Battery
            | CartridgeType::RomRamBattery
            | CartridgeType::Mmm01RamBattery
            | CartridgeType::Mbc3TimerRamBattery
            | CartridgeType::Mbc3RamBattery
            | CartridgeType::Mbc4RamBattery
            | CartridgeType::Mbc5RamBattery
            | CartridgeType::Mbc5RumbleRamBattery
            | CartridgeType::Huc1RamBattery => true,
            _ => false,
        };

        Ok(
            Rom {
                filename: filename.to_owned(),
                banks,
                title,
                cgb_flag: true,
                sgb_flag: true,
                rom_type,
                rom_size,
                rom_manufacturer,
                ram_size,
                battery,
            },
        )
    }
}

} // verus!
