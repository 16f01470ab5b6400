//! The pixel processing unit: VRAM, OAM, the LCD control/status registers,
//! the per-scanline mode state machine, and the scanline renderer that
//! fills the 160x144 framebuffer.

use vstd::prelude::*;
use crate::bits::{bit_u8, spec_bit_u8};
use crate::interrupt::{InterruptRegisters, INTERRUPT_LCD_STAT, INTERRUPT_VBLANK};
use crate::ioregister::IORegister;

verus! {

/// Bytes of tile data in VRAM: 384 tiles of 16 bytes.
pub const TILE_RAM_SIZE: usize = 6144;

/// Bytes of tile-map data in VRAM: two maps of 1024 tile indices.
pub const TILE_MAP_SIZE: usize = 2048;

/// Sprites in OAM.
pub const OAM_NUM_SPRITES: usize = 40;

/// Screen width in pixels.
pub const SCREEN_WIDTH: usize = 160;

/// Screen height in pixels.
pub const SCREEN_HEIGHT: usize = 144;

/// Pixels in the framebuffer.
pub const NUM_SCREEN_PIXELS: usize = 23040;

/// STAT bit 2: LY equals LYC.
pub const LCD_STATUS_COINCIDENCE: u8 = 2;

/// STAT bit 3: interrupt on entering HBLANK.
pub const LCD_STATUS_HBLANK_INTERRUPT: u8 = 3;

/// STAT bit 4: interrupt on entering VBLANK.
pub const LCD_STATUS_VBLANK_INTERRUPT: u8 = 4;

/// STAT bit 5: interrupt on entering OAM scan.
pub const LCD_STATUS_OAM_INTERRUPT: u8 = 5;

/// STAT bit 6: interrupt on the LY = LYC coincidence.
pub const LCD_STATUS_COINCIDENCE_INTERRUPT: u8 = 6;

/// LCDC bit 3: which tile map the background uses.
pub const LCD_CONTROL_BGMAP: u8 = 3;

/// LCDC bit 4: which tile-data addressing the background and window use.
pub const LCD_CONTROL_TSSEL: u8 = 4;

/// The four greyscale shades of the panel.
#[derive(Copy, Clone, Debug, PartialEq, Eq, Structural)]
pub enum DMGColor {
    White,
    LightGray,
    DarkGray,
    Black,
}

/// The 8-bit greyscale value a shade is presented as.
pub open spec fn spec_shade_value(c: DMGColor) -> u8 {
    match c {
        DMGColor::White => 0xff,
        DMGColor::LightGray => 0xb6,
        DMGColor::DarkGray => 0x49,
        DMGColor::Black => 0x00,
    }
}

/// The shade a two-bit palette color index selects from a palette register:
/// index 0 is the lightest.
pub open spec fn spec_shade_of_bits(bits: u8) -> u8 {
    if bits % 4 == 1 {
        0xb6
    } else if bits % 4 == 2 {
        0x49
    } else if bits % 4 == 3 {
        0x00
    } else {
        0xff
    }
}

/// Resolve a 2-bit color index through a palette register: the register
/// packs four 2-bit shade codes, lowest bits first.
pub open spec fn spec_palette_shade(pal: u8, ci: u8) -> u8 {
    if ci == 0 {
        spec_shade_of_bits(pal)
    } else if ci == 1 {
        spec_shade_of_bits(pal / 4)
    } else if ci == 2 {
        spec_shade_of_bits(pal / 16)
    } else {
        spec_shade_of_bits(pal / 64)
    }
}

impl DMGColor {
    /// The 8-bit greyscale value of this shade.
    pub fn value(self) -> (r: u8)
        ensures
            r == spec_shade_value(self),
    {
        match self {
            DMGColor::White => 0xff,
            DMGColor::LightGray => 0xb6,
            DMGColor::DarkGray => 0x49,
            DMGColor::Black => 0x00,
        }
    }
}

/// Resolve a 2-bit color index through a palette register.
pub fn palette_shade(pal: u8, ci: u8) -> (r: u8)
    ensures
        r == spec_palette_shade(pal, ci),
{
    let bits = if ci == 0 {
        pal
    } else if ci == 1 {
        pal / 4
    } else if ci == 2 {
        pal / 16
    } else {
        pal / 64
    };
    let sel = bits % 4;
    if sel == 1 {
        0xb6
    } else if sel == 2 {
        0x49
    } else if sel == 3 {
        0x00
    } else {
        0xff
    }
}

/// One OAM entry.  `y` and `x` are stored with the hardware's 16- and
/// 8-pixel offsets already removed, so they are the top-left screen
/// position; the attribute bits are kept both raw and decoded.
#[derive(Copy, Clone, Debug, PartialEq, Eq, Structural)]
pub struct Sprite {
    pub y: u8,
    pub x: u8,
    pub tile: u8,
    pub opt_data: u8,
    /// Attribute bit 7: behind non-zero background pixels.
    pub priority: bool,
    /// Attribute bit 6: mirrored vertically.
    pub y_flip: bool,
    /// Attribute bit 5: mirrored horizontally.
    pub x_flip: bool,
    /// Attribute bit 4: colored through OBP1 instead of OBP0.
    pub palette_1_sel: bool,
}

impl Sprite {
    /// The decoded attribute booleans agree with the raw attribute byte.
    pub open spec fn wf(self) -> bool {
        &&& self.priority == (self.opt_data / 128 % 2 == 1)
        &&& self.y_flip == (self.opt_data / 64 % 2 == 1)
        &&& self.x_flip == (self.opt_data / 32 % 2 == 1)
        &&& self.palette_1_sel == (self.opt_data / 16 % 2 == 1)
    }

    /// A sprite with all fields zero.
    pub fn new() -> (r: Sprite)
        ensures
            r == Sprite::spec_new(),
    {
        Sprite {
            y: 0,
            x: 0,
            tile: 0,
            opt_data: 0,
            priority: false,
            y_flip: false,
            x_flip: false,
            palette_1_sel: false,
        }
    }

    /// The all-zero sprite.
    pub open spec fn spec_new() -> Sprite {
        Sprite {
            y: 0,
            x: 0,
            tile: 0,
            opt_data: 0,
            priority: false,
            y_flip: false,
            x_flip: false,
            palette_1_sel: false,
        }
    }
}

/// The mathematical contents of a VRAM bank.
pub ghost struct VRAMView {
    pub tile_ram: Seq<u8>,
    pub tile_map: Seq<u8>,
    pub accessible: bool,
}

/// One 8 KiB VRAM bank: 384 tiles of 16 bytes, then two 1 KiB tile maps.
/// Both are raw bytes; the renderer decodes the planar tile format on the
/// fly.
pub struct VRAMBank {
    pub tile_ram: Vec<u8>,
    pub tile_map: Vec<u8>,
    pub accessible: bool,
}

impl View for VRAMBank {
    type V = VRAMView;

    open spec fn view(&self) -> VRAMView {
        VRAMView {
            tile_ram: self.tile_ram@,
            tile_map: self.tile_map@,
            accessible: self.accessible,
        }
    }
}

/// What a VRAM read at bank offset `addr` returns.
pub open spec fn spec_vram_read(v: VRAMView, addr: u16) -> u8 {
    if !v.accessible {
        0xff
    } else if addr < 0x1800 {
        v.tile_ram[addr as int]
    } else {
        v.tile_map[addr - 0x1800]
    }
}

/// What a VRAM write at bank offset `addr` leaves behind.
pub open spec fn spec_vram_write(v: VRAMView, addr: u16, data: u8) -> VRAMView {
    if !v.accessible {
        v
    } else if addr < 0x1800 {
        VRAMView { tile_ram: v.tile_ram.update(addr as int, data), ..v }
    } else {
        VRAMView { tile_map: v.tile_map.update(addr - 0x1800, data), ..v }
    }
}

impl VRAMBank {
    pub open spec fn wf(self) -> bool {
        &&& self.tile_ram@.len() == TILE_RAM_SIZE
        &&& self.tile_map@.len() == TILE_MAP_SIZE
    }

    /// An empty, accessible bank.
    pub fn new() -> (r: VRAMBank)
        ensures
            r.wf(),
            r.accessible,
            forall|i: int| 0 <= i < TILE_RAM_SIZE ==> r.tile_ram@[i] == 0u8,
            forall|i: int| 0 <= i < TILE_MAP_SIZE ==> r.tile_map@[i] == 0u8,
    {
        let mut tile_ram: Vec<u8> = Vec::new();
        let mut i: usize = 0;
        while i < TILE_RAM_SIZE
            invariant
                i <= TILE_RAM_SIZE,
                tile_ram@.len() == i,
                forall|j: int| 0 <= j < i ==> tile_ram@[j] == 0u8,
            decreases TILE_RAM_SIZE - i,
        {
            tile_ram.push(0);
            i += 1;
        }
        let mut tile_map: Vec<u8> = Vec::new();
        let mut j: usize = 0;
        while j < TILE_MAP_SIZE
            invariant
                j <= TILE_MAP_SIZE,
                tile_map@.len() == j,
                forall|k: int| 0 <= k < j ==> tile_map@[k] == 0u8,
            decreases TILE_MAP_SIZE - j,
        {
            tile_map.push(0);
            j += 1;
        }
        VRAMBank { tile_ram, tile_map, accessible: true }
    }

    /// A CPU read at bank offset `addr` (0x0000-0x1FFF).
    pub fn read(&self, addr: u16) -> (r: u8)
        requires
            self.wf(),
            addr < 0x2000,
        ensures
            r == spec_vram_read(self@, addr),
    {
        if !self.accessible {
            0xff
        } else if addr < 0x1800 {
            self.tile_ram[addr as usize]
        } else {
            self.tile_map[(addr - 0x1800) as usize]
        }
    }

    /// A CPU write at bank offset `addr` (0x0000-0x1FFF).
    pub fn write(&mut self, addr: u16, data: u8)
        requires
            old(self).wf(),
            addr < 0x2000,
        ensures
            final(self).wf(),
            final(self)@ == spec_vram_write(old(self)@, addr, data),
    {
        if !self.accessible {
        } else if addr < 0x1800 {
            self.tile_ram[addr as usize] = data;
        } else {
            self.tile_map[(addr - 0x1800) as usize] = data;
        }
    }
}

/// The mathematical contents of OAM.
pub ghost struct OAMView {
    pub sprites: Seq<Sprite>,
    pub accessible: bool,
    pub dma_transfer: bool,
    pub dma_addr: u16,
}

/// Object attribute memory: 40 sprites, plus the state of an in-progress
/// OAM DMA transfer.
pub struct OAM {
    pub sprite_ram: Vec<Sprite>,
    pub accessible: bool,
    /// A DMA transfer is copying one byte per machine cycle.
    pub dma_transfer: bool,
    /// The source address of the next DMA byte.
    pub dma_addr: u16,
}

impl View for OAM {
    type V = OAMView;

    open spec fn view(&self) -> OAMView {
        OAMView {
            sprites: self.sprite_ram@,
            accessible: self.accessible,
            dma_transfer: self.dma_transfer,
            dma_addr: self.dma_addr,
        }
    }
}

/// What an OAM read at offset `addr` (0x00-0x9F) returns: the four bytes of
/// sprite `addr / 4`, with the hardware position offsets restored.
pub open spec fn spec_oam_read(v: OAMView, addr: u16) -> u8 {
    if !v.accessible {
        0xff
    } else {
        let s = v.sprites[addr as int / 4];
        if addr % 4 == 0 {
            ((s.y + 16) % 256) as u8
        } else if addr % 4 == 1 {
            ((s.x + 8) % 256) as u8
        } else if addr % 4 == 2 {
            s.tile
        } else {
            s.opt_data
        }
    }
}

/// One sprite after a write to one of its four bytes.
pub open spec fn spec_sprite_write(s: Sprite, field: u16, data: u8) -> Sprite {
    if field == 0 {
        Sprite { y: ((data + 240) % 256) as u8, ..s }
    } else if field == 1 {
        Sprite { x: ((data + 248) % 256) as u8, ..s }
    } else if field == 2 {
        Sprite { tile: data, ..s }
    } else {
        Sprite {
            opt_data: data,
            priority: data / 128 % 2 == 1,
            y_flip: data / 64 % 2 == 1,
            x_flip: data / 32 % 2 == 1,
            palette_1_sel: data / 16 % 2 == 1,
            ..s
        }
    }
}

/// What an OAM write at offset `addr` leaves behind.
pub open spec fn spec_oam_write(v: OAMView, addr: u16, data: u8) -> OAMView {
    if !v.accessible {
        v
    } else {
        OAMView {
            sprites: v.sprites.update(
                addr as int / 4,
                spec_sprite_write(v.sprites[addr as int / 4], addr % 4, data),
            ),
            ..v
        }
    }
}

impl OAM {
    pub open spec fn wf(self) -> bool {
        self.sprite_ram@.len() == OAM_NUM_SPRITES
    }

    /// Forty zeroed sprites, no transfer in progress.
    pub fn new() -> (r: OAM)
        ensures
            r.wf(),
            r.accessible,
            !r.dma_transfer,
            r.dma_addr == 0,
            forall|i: int| 0 <= i < OAM_NUM_SPRITES ==> r.sprite_ram@[i] == Sprite::spec_new(),
    {
        let mut sprite_ram: Vec<Sprite> = Vec::new();
        let mut i: usize = 0;
        while i < OAM_NUM_SPRITES
            invariant
                i <= OAM_NUM_SPRITES,
                sprite_ram@.len() == i,
                forall|j: int| 0 <= j < i ==> sprite_ram@[j] == Sprite::spec_new(),
            decreases OAM_NUM_SPRITES - i,
        {
            sprite_ram.push(Sprite::new());
            i += 1;
        }
        OAM { sprite_ram, accessible: true, dma_transfer: false, dma_addr: 0 }
    }

    /// A CPU read at OAM offset `addr` (0x00-0x9F).
    pub fn read(&self, addr: u16) -> (r: u8)
        requires
            self.wf(),
            addr < 0xa0,
        ensures
            r == spec_oam_read(self@, addr),
    {
        if !self.accessible {
            0xff
        } else {
            let s = self.sprite_ram[(addr / 4) as usize];
            if addr % 4 == 0 {
                (((s.y as u16) + 16) % 256) as u8
            } else if addr % 4 == 1 {
                (((s.x as u16) + 8) % 256) as u8
            } else if addr % 4 == 2 {
                s.tile
            } else {
                s.opt_data
            }
        }
    }

    /// A CPU write at OAM offset `addr` (0x00-0x9F).
    pub fn write(&mut self, addr: u16, data: u8)
        requires
            old(self).wf(),
            addr < 0xa0,
        ensures
            final(self).wf(),
            final(self)@ == spec_oam_write(old(self)@, addr, data),
    {
        if !self.accessible {
            return ;
        }
        let i = (addr / 4) as usize;
        let field = addr % 4;
        let s = self.sprite_ram[i];
        let updated = if field == 0 {
            Sprite { y: (((data as u16) + 240) % 256) as u8, ..s }
        } else if field == 1 {
            Sprite { x: (((data as u16) + 248) % 256) as u8, ..s }
        } else if field == 2 {
            Sprite { tile: data, ..s }
        } else {
            Sprite {
                opt_data: data,
                priority: data / 128 % 2 == 1,
                y_flip: data / 64 % 2 == 1,
                x_flip: data / 32 % 2 == 1,
                palette_1_sel: data / 16 % 2 == 1,
                ..s
            }
        };
        self.sprite_ram[i] = updated;
    }

    /// A CPU write to the DMA register (0xFF46): a source page at or below
    /// 0xDF00 starts a 160-byte transfer into OAM, one byte per machine
    /// cycle.
    pub fn trigger_dma(&mut self, src: u8)
        ensures
            src <= 0xdf ==> *final(self) == (OAM {
                dma_addr: (src * 256) as u16,
                dma_transfer: true,
                ..*old(self)
            }),
            src > 0xdf ==> *final(self) == *old(self),
    {
        if src <= 0xdf {
            self.dma_addr = (src as u16) * 256;
            self.dma_transfer = true;
        }
    }

    /// A CPU read of the DMA register (0xFF46): the source page.
    pub fn dma_start_address(&self) -> (r: u8)
        ensures
            r == self.dma_addr / 256,
    {
        (self.dma_addr / 256) as u8
    }
}

/// The LCD control register LCDC (0xFF40), kept both raw and decoded.
#[derive(Debug, PartialEq, Eq, Structural, Copy, Clone)]
pub struct LCDControlRegister {
    pub data: u8,
    /// Bit 7: LCD operation.
    pub enabled: bool,
    /// Bit 6: window tile map at 0x9C00 instead of 0x9800.
    pub window_tile_map_1_sel: bool,
    /// Bit 5: window display.
    pub window_enabled: bool,
    /// Bit 4 clear: tile data addressed signed from 0x9000.
    pub tile_data_1_sel: bool,
    /// Bit 3: background tile map at 0x9C00 instead of 0x9800.
    pub bg_tile_map_1_sel: bool,
    /// Bit 2: sprites are 8x16.
    pub obj_size_8x16: bool,
    /// Bit 1: sprite display.
    pub obj_enabled: bool,
    /// Bit 0: background display.
    pub bg_enabled: bool,
}

/// LCDC after a CPU write.
pub open spec fn spec_lcdc_write(data: u8) -> LCDControlRegister {
    LCDControlRegister {
        data,
        enabled: data / 128 % 2 == 1,
        window_tile_map_1_sel: data / 64 % 2 == 1,
        window_enabled: data / 32 % 2 == 1,
        tile_data_1_sel: data / 16 % 2 == 0,
        bg_tile_map_1_sel: data / 8 % 2 == 1,
        obj_size_8x16: data / 4 % 2 == 1,
        obj_enabled: data / 2 % 2 == 1,
        bg_enabled: data % 2 == 1,
    }
}

impl LCDControlRegister {
    /// The power-on value: LCD on, background and sprites enabled.
    pub fn new() -> (r: LCDControlRegister)
        ensures
            r == spec_lcdc_write(0x83),
    {
        let mut ctrl = LCDControlRegister {
            data: 0,
            enabled: false,
            window_tile_map_1_sel: false,
            window_enabled: false,
            tile_data_1_sel: false,
            bg_tile_map_1_sel: false,
            obj_size_8x16: false,
            obj_enabled: false,
            bg_enabled: false,
        };
        ctrl.write(0x83);
        ctrl
    }

    /// A CPU write to LCDC (0xFF40).
    pub fn write(&mut self, data: u8)
        ensures
            *final(self) == spec_lcdc_write(data),
    {
        self.data = data;
        self.enabled = data / 128 % 2 == 1;
        self.window_tile_map_1_sel = data / 64 % 2 == 1;
        self.window_enabled = data / 32 % 2 == 1;
        self.tile_data_1_sel = data / 16 % 2 == 0;
        self.bg_tile_map_1_sel = data / 8 % 2 == 1;
        self.obj_size_8x16 = data / 4 % 2 == 1;
        self.obj_enabled = data / 2 % 2 == 1;
        self.bg_enabled = data % 2 == 1;
    }

    /// A CPU read of LCDC (0xFF40).
    pub fn read(&self) -> (r: u8)
        ensures
            r == self.data,
    {
        self.data
    }
}

/// The memory-mapped video registers.
#[derive(Debug, PartialEq, Eq, Structural, Copy, Clone)]
pub struct VideoRegisters {
    pub lcd_status: IORegister,
    pub scy: IORegister,
    pub scx: IORegister,
    pub ly: IORegister,
    pub lyc: IORegister,
    pub wy: IORegister,
    pub wx: IORegister,
    pub bgp: IORegister,
    pub obp0: IORegister,
    pub obp1: IORegister,
}

impl VideoRegisters {
    /// Power-on register file: STAT starts in mode 2 with only its enable
    /// bits writable, and LY is read-only.
    pub fn new() -> (r: VideoRegisters)
        ensures
            r == Self::spec_new(),
    {
        VideoRegisters {
            lcd_status: IORegister::new().set(2).write_mask(0x78),
            scy: IORegister::new(),
            scx: IORegister::new(),
            ly: IORegister::new().read_only(),
            lyc: IORegister::new(),
            wy: IORegister::new(),
            wx: IORegister::new(),
            bgp: IORegister::new(),
            obp0: IORegister::new(),
            obp1: IORegister::new(),
        }
    }

    /// The power-on video register file.
    pub open spec fn spec_new() -> VideoRegisters {
        VideoRegisters {
            lcd_status: IORegister { data: 2, wmask: 0x78, rmask: 0xff },
            scy: IORegister { data: 0, wmask: 0xff, rmask: 0xff },
            scx: IORegister { data: 0, wmask: 0xff, rmask: 0xff },
            ly: IORegister { data: 0, wmask: 0x00, rmask: 0xff },
            lyc: IORegister { data: 0, wmask: 0xff, rmask: 0xff },
            wy: IORegister { data: 0, wmask: 0xff, rmask: 0xff },
            wx: IORegister { data: 0, wmask: 0xff, rmask: 0xff },
            bgp: IORegister { data: 0, wmask: 0xff, rmask: 0xff },
            obp0: IORegister { data: 0, wmask: 0xff, rmask: 0xff },
            obp1: IORegister { data: 0, wmask: 0xff, rmask: 0xff },
        }
    }
}

/// The PPU mode: HBLANK (0), VBLANK (1), OAM scan (2), VRAM access (3).
#[derive(Copy, Clone, Debug, PartialEq, Eq, Structural)]
pub enum VideoMode {
    Hblank,
    Vblank,
    AccessOam,
    AccessVram,
}

/// The mode bits STAT exposes in its low two bits.
pub open spec fn spec_mode_bits(m: VideoMode) -> u8 {
    match m {
        VideoMode::Hblank => 0,
        VideoMode::Vblank => 1,
        VideoMode::AccessOam => 2,
        VideoMode::AccessVram => 3,
    }
}

/// How many clocks a mode lasts on one scanline; a whole VBLANK scanline is
/// one mode period.
pub open spec fn spec_mode_period(m: VideoMode) -> u32 {
    match m {
        VideoMode::Hblank => 204,
        VideoMode::Vblank => 456,
        VideoMode::AccessOam => 80,
        VideoMode::AccessVram => 172,
    }
}

/// The 2-bit color index of pixel (`col`, `row`) of tile `ti` in the
/// planar tile format: the first byte of a row holds the low color bits,
/// the second the high bits, bit 7 leftmost.
pub open spec fn spec_tile_pixel(tile_ram: Seq<u8>, ti: int, row: int, col: int) -> u8 {
    let lo = tile_ram[ti * 16 + row * 2];
    let hi = tile_ram[ti * 16 + row * 2 + 1];
    (spec_bit_u8(hi, (7 - col) as nat) * 2 + spec_bit_u8(lo, (7 - col) as nat)) as u8
}

/// The 2-bit color index of pixel (`col`, `row`) of tile `ti`.
pub fn tile_pixel(tile_ram: &Vec<u8>, ti: usize, row: usize, col: usize) -> (r: u8)
    requires
        tile_ram@.len() == TILE_RAM_SIZE,
        ti < 384,
        row < 8,
        col < 8,
    ensures
        r == spec_tile_pixel(tile_ram@, ti as int, row as int, col as int),
{
    let lo = tile_ram[ti * 16 + row * 2];
    let hi = tile_ram[ti * 16 + row * 2 + 1];
    bit_u8(hi, (7 - col) as u8) * 2 + bit_u8(lo, (7 - col) as u8)
}

/// The tile-data index a map entry selects: with LCDC bit 4 clear the entry
/// is signed and based at tile 256 (address 0x9000).
pub open spec fn spec_adjust_tile(ti: u8, signed_sel: bool) -> int {
    if signed_sel {
        if ti < 128 {
            256 + ti
        } else {
            ti as int
        }
    } else {
        ti as int
    }
}

/// The tile-data index a map entry selects.
pub fn adjust_tile(ti: u8, signed_sel: bool) -> (r: usize)
    ensures
        r == spec_adjust_tile(ti, signed_sel),
        r < 384,
{
    if signed_sel {
        if ti < 128 {
            256 + ti as usize
        } else {
            ti as usize
        }
    } else {
        ti as usize
    }
}

/// The background color index at screen column `x` of line `ly`, sampling
/// the scrolled 256x256 background plane.
pub open spec fn spec_bg_color_index(
    vram: VRAMView,
    lcdc: LCDControlRegister,
    scx: u8,
    scy: u8,
    ly: u8,
    x: int,
) -> u8 {
    let bx = (x + scx) % 256;
    let by = (ly + scy) % 256;
    let map_base: int = if lcdc.bg_tile_map_1_sel {
        1024
    } else {
        0
    };
    let ti = vram.tile_map[map_base + (by / 8) * 32 + bx / 8];
    spec_tile_pixel(vram.tile_ram, spec_adjust_tile(ti, lcdc.tile_data_1_sel), by % 8, bx % 8)
}

/// The window color index at screen column `x` of line `ly`.  The window's
/// top-left tile sits at screen position (WX - 7, WY), with the arithmetic
/// wrapping as the hardware registers do.
pub open spec fn spec_window_color_index(
    vram: VRAMView,
    lcdc: LCDControlRegister,
    wx: u8,
    wy: u8,
    ly: u8,
    x: int,
) -> u8 {
    let wxm7 = (wx + 249) % 256;
    let dx = (x + 256 - wxm7) % 256;
    let map_base: int = if lcdc.window_tile_map_1_sel {
        1024
    } else {
        0
    };
    let ti = vram.tile_map[map_base + ((ly - wy) / 8) * 32 + dx / 8];
    spec_tile_pixel(
        vram.tile_ram,
        spec_adjust_tile(ti, lcdc.tile_data_1_sel),
        (ly - wy) % 8,
        dx % 8,
    )
}

/// Whether a sprite intersects scanline `ly` for the current sprite height.
pub open spec fn spec_sprite_on_line(s: Sprite, ly: u8, size: u8) -> bool {
    (ly + 256 - s.y) % 256 < size
}

/// The up-to-ten sprites on line `ly` among the first `n` OAM entries, in
/// OAM order.
pub open spec fn spec_line_sprites(sprites: Seq<Sprite>, ly: u8, size: u8, n: nat) -> Seq<Sprite>
    decreases n,
{
    if n == 0 {
        Seq::empty()
    } else {
        let p = spec_line_sprites(sprites, ly, size, (n - 1) as nat);
        if spec_sprite_on_line(sprites[n - 1], ly, size) && p.len() < 10 {
            p.push(sprites[n - 1])
        } else {
            p
        }
    }
}

/// Insert a sprite into a draw-order list kept in decreasing `x`: it lands
/// after the sprites of strictly larger `x` and before the rest, so of two
/// sprites at the same `x` the one from the earlier OAM slot is drawn later
/// and wins.
pub open spec fn spec_insert_sprite(s: Seq<Sprite>, sp: Sprite) -> Seq<Sprite>
    decreases s.len(),
{
    if s.len() == 0 {
        seq![sp]
    } else if s[0].x > sp.x {
        seq![s[0]] + spec_insert_sprite(s.drop_first(), sp)
    } else {
        seq![sp] + s
    }
}

/// The draw order of the first `n` selected sprites: lowest priority
/// (largest `x`, then latest OAM slot) first, so later draws overwrite.
pub open spec fn spec_draw_order(sel: Seq<Sprite>, n: nat) -> Seq<Sprite>
    decreases n,
{
    if n == 0 {
        Seq::empty()
    } else {
        spec_insert_sprite(spec_draw_order(sel, (n - 1) as nat), sel[n - 1])
    }
}

/// Whether a sprite covers screen column `x`.
pub open spec fn spec_sprite_covers_col(s: Sprite, x: int) -> bool {
    (x + 256 - s.x) % 256 < 8
}

/// The 2-bit color index a sprite shows at screen column `x` of line `ly`,
/// honoring both flips and, for 8x16 sprites, the even/odd tile pair.
pub open spec fn spec_sprite_color_index(
    tile_ram: Seq<u8>,
    s: Sprite,
    size16: bool,
    ly: u8,
    x: int,
) -> u8 {
    let row0 = (ly + 256 - s.y) % 256;
    let t0: u8 = if size16 {
        (s.tile / 2 * 2) as u8
    } else {
        s.tile
    };
    let t1: u8 = if row0 >= 8 {
        if !s.y_flip {
            ((t0 + 1) % 256) as u8
        } else {
            t0
        }
    } else {
        if s.y_flip && size16 {
            ((t0 + 1) % 256) as u8
        } else {
            t0
        }
    };
    let row = if row0 >= 8 {
        row0 - 8
    } else {
        row0
    };
    let adj_row = if s.y_flip {
        7 - row
    } else {
        row
    };
    let c = (x + 256 - s.x) % 256;
    let adj_col = if s.x_flip {
        c
    } else {
        7 - c
    };
    let lo = tile_ram[t1 * 16 + adj_row * 2];
    let hi = tile_ram[t1 * 16 + adj_row * 2 + 1];
    (spec_bit_u8(hi, adj_col as nat) * 2 + spec_bit_u8(lo, adj_col as nat)) as u8
}

/// A pixel after the first `n` sprites of the draw order are painted over
/// it.  Color index 0 is transparent; a sprite with the background-priority
/// attribute paints only over the shade of background color 0.
pub open spec fn spec_apply_sprites(
    tile_ram: Seq<u8>,
    ord: Seq<Sprite>,
    n: nat,
    size16: bool,
    bgp: u8,
    obp0: u8,
    obp1: u8,
    ly: u8,
    x: int,
    base: u8,
) -> u8
    decreases n,
{
    if n == 0 {
        base
    } else {
        let prev = spec_apply_sprites(tile_ram, ord, (n - 1) as nat, size16, bgp, obp0, obp1, ly, x, base);
        let s = ord[n - 1];
        let ci = spec_sprite_color_index(tile_ram, s, size16, ly, x);
        if spec_sprite_covers_col(s, x) && ci != 0 && (!s.priority || prev == spec_palette_shade(
            bgp,
            0,
        )) {
            spec_palette_shade(
                if s.palette_1_sel {
                    obp1
                } else {
                    obp0
                },
                ci,
            )
        } else {
            prev
        }
    }
}

/// The mathematical state of the PPU.
pub ghost struct VideoView {
    pub regs: VideoRegisters,
    pub vram: VRAMView,
    pub oam: OAMView,
    pub lcd_ctrl: LCDControlRegister,
    pub mode: VideoMode,
    pub mode_cycles: u32,
    pub back_buffer: Seq<u8>,
    pub frame_ready: bool,
}

impl VideoView {
    /// Well-formed PPU state: storage at its fixed sizes, the mode clock
    /// inside its period, LY within the frame and consistent with the mode,
    /// and the hardware read/write masks on the video registers.
    pub open spec fn wf(self) -> bool {
        &&& self.vram.tile_ram.len() == TILE_RAM_SIZE
        &&& self.vram.tile_map.len() == TILE_MAP_SIZE
        &&& self.oam.sprites.len() == OAM_NUM_SPRITES
        &&& self.back_buffer.len() == NUM_SCREEN_PIXELS
        &&& self.mode_cycles < spec_mode_period(self.mode)
        &&& self.regs.ly.data <= 153
        &&& (self.mode == VideoMode::Vblank ==> self.regs.ly.data >= 144)
        &&& (self.mode != VideoMode::Vblank ==> self.regs.ly.data < 144)
        &&& self.regs.lcd_status.wmask == 0x78 && self.regs.lcd_status.rmask == 0xff
        &&& self.regs.ly.wmask == 0x00 && self.regs.ly.rmask == 0xff
        &&& self.regs.scy.wmask == 0xff && self.regs.scy.rmask == 0xff
        &&& self.regs.scx.wmask == 0xff && self.regs.scx.rmask == 0xff
        &&& self.regs.lyc.wmask == 0xff && self.regs.lyc.rmask == 0xff
        &&& self.regs.wy.wmask == 0xff && self.regs.wy.rmask == 0xff
        &&& self.regs.wx.wmask == 0xff && self.regs.wx.rmask == 0xff
        &&& self.regs.bgp.wmask == 0xff && self.regs.bgp.rmask == 0xff
        &&& self.regs.obp0.wmask == 0xff && self.regs.obp0.rmask == 0xff
        &&& self.regs.obp1.wmask == 0xff && self.regs.obp1.rmask == 0xff
    }
}

/// One rendered pixel of the current scanline: the background (or, with the
/// background disabled, the previous framebuffer contents), the window over
/// it, and the line's sprites painted in priority order.
pub open spec fn spec_pixel(v: VideoView, x: int) -> u8 {
    let ly = v.regs.ly.data;
    let bgp = v.regs.bgp.data;
    let base0 = if v.lcd_ctrl.bg_enabled {
        spec_palette_shade(
            bgp,
            spec_bg_color_index(v.vram, v.lcd_ctrl, v.regs.scx.data, v.regs.scy.data, ly, x),
        )
    } else {
        v.back_buffer[ly * 160 + x]
    };
    let wx = v.regs.wx.data;
    let wy = v.regs.wy.data;
    let win_start: int = if wx >= 7 {
        wx - 7
    } else {
        0
    };
    let base1 = if v.lcd_ctrl.window_enabled && wy <= ly && x >= win_start {
        spec_palette_shade(bgp, spec_window_color_index(v.vram, v.lcd_ctrl, wx, wy, ly, x))
    } else {
        base0
    };
    if v.lcd_ctrl.obj_enabled {
        let size16 = v.lcd_ctrl.obj_size_8x16;
        let size: u8 = if size16 {
            16
        } else {
            8
        };
        let sel = spec_line_sprites(v.oam.sprites, ly, size, OAM_NUM_SPRITES as nat);
        let ord = spec_draw_order(sel, sel.len());
        spec_apply_sprites(
            v.vram.tile_ram,
            ord,
            ord.len(),
            size16,
            bgp,
            v.regs.obp0.data,
            v.regs.obp1.data,
            ly,
            x,
            base1,
        )
    } else {
        base1
    }
}

/// The framebuffer after the current scanline is rendered: row LY holds the
/// freshly drawn pixels, every other row is untouched.
pub open spec fn spec_draw_line(v: VideoView) -> Seq<u8> {
    let ly = v.regs.ly.data;
    Seq::new(
        NUM_SCREEN_PIXELS as nat,
        |i: int|
            if ly * 160 <= i < ly * 160 + 160 {
                spec_pixel(v, i - ly * 160)
            } else {
                v.back_buffer[i]
            },
    )
}

/// The whole PPU: registers, VRAM, OAM, the mode state machine and the
/// framebuffer it renders into.
pub struct VideoData {
    pub regs: VideoRegisters,
    pub vram0: VRAMBank,
    pub oam: OAM,
    pub lcd_ctrl: LCDControlRegister,
    pub mode: VideoMode,
    pub mode_cycles: u32,
    /// 160 x 144 palette-resolved shades, row by row.
    pub back_buffer: Vec<u8>,
    /// Flipped when a frame completes; the host clears it after presenting.
    pub frame_ready: bool,
}

impl View for VideoData {
    type V = VideoView;

    open spec fn view(&self) -> VideoView {
        VideoView {
            regs: self.regs,
            vram: self.vram0@,
            oam: self.oam@,
            lcd_ctrl: self.lcd_ctrl,
            mode: self.mode,
            mode_cycles: self.mode_cycles,
            back_buffer: self.back_buffer@,
            frame_ready: self.frame_ready,
        }
    }
}

impl VideoData {
    pub open spec fn wf(self) -> bool {
        self@.wf()
    }

    /// The power-on PPU: OAM scan of line 0, light-gray framebuffer.
    pub fn new() -> (r: VideoData)
        ensures
            r.wf(),
            r.regs == VideoRegisters::spec_new(),
            r.lcd_ctrl == spec_lcdc_write(0x83),
            r.mode == VideoMode::AccessOam,
            r.mode_cycles == 0,
            !r.frame_ready,
            !r.oam@.dma_transfer,
            forall|i: int| 0 <= i < NUM_SCREEN_PIXELS ==> r.back_buffer@[i] == 0xb6u8,
    {
        let mut back_buffer: Vec<u8> = Vec::new();
        let mut i: usize = 0;
        while i < NUM_SCREEN_PIXELS
            invariant
                i <= NUM_SCREEN_PIXELS,
                back_buffer@.len() == i,
                forall|j: int| 0 <= j < i ==> back_buffer@[j] == 0xb6u8,
            decreases NUM_SCREEN_PIXELS - i,
        {
            back_buffer.push(0xb6);
            i += 1;
        }
        VideoData {
            regs: VideoRegisters::new(),
            vram0: VRAMBank::new(),
            oam: OAM::new(),
            lcd_ctrl: LCDControlRegister::new(),
            mode: VideoMode::AccessOam,
            mode_cycles: 0,
            back_buffer,
            frame_ready: false,
        }
    }

    /// A CPU read of OBP0 (0xFF48).
    pub fn get_obp0_palette(&self) -> (r: u8)
        ensures
            r == self.regs.obp0.data,
    {
        self.regs.obp0.data
    }

    /// A CPU read of OBP1 (0xFF49).
    pub fn get_obp1_palette(&self) -> (r: u8)
        ensures
            r == self.regs.obp1.data,
    {
        self.regs.obp1.data
    }

    /// A CPU read of BGP (0xFF47).
    pub fn get_bg_palette(&self) -> (r: u8)
        ensures
            r == self.regs.bgp.data,
    {
        self.regs.bgp.data
    }

    /// A CPU write to BGP (0xFF47).
    pub fn set_bg_palette(&mut self, data: u8)
        ensures
            *final(self) == (VideoData {
                regs: VideoRegisters { bgp: IORegister { data, ..old(self).regs.bgp }, ..old(self).regs },
                ..*old(self)
            }),
    {
        self.regs.bgp.data = data;
    }

    /// A CPU write to OBP0 (0xFF48).
    pub fn set_obp0_palette(&mut self, data: u8)
        ensures
            *final(self) == (VideoData {
                regs: VideoRegisters { obp0: IORegister { data, ..old(self).regs.obp0 }, ..old(self).regs },
                ..*old(self)
            }),
    {
        self.regs.obp0.data = data;
    }

    /// A CPU write to OBP1 (0xFF49).
    pub fn set_obp1_palette(&mut self, data: u8)
        ensures
            *final(self) == (VideoData {
                regs: VideoRegisters { obp1: IORegister { data, ..old(self).regs.obp1 }, ..old(self).regs },
                ..*old(self)
            }),
    {
        self.regs.obp1.data = data;
    }

    /// The background color index at screen column `x` of the current line.
    fn bg_color_index(&self, x: usize) -> (r: u8)
        requires
            self.wf(),
            x < SCREEN_WIDTH,
        ensures
            r == spec_bg_color_index(
                self@.vram,
                self.lcd_ctrl,
                self.regs.scx.data,
                self.regs.scy.data,
                self.regs.ly.data,
                x as int,
            ),
    {
        let bx = ((x as u16) + (self.regs.scx.data as u16)) % 256;
        let by = ((self.regs.ly.data as u16) + (self.regs.scy.data as u16)) % 256;
        let map_base: usize = if self.lcd_ctrl.bg_tile_map_1_sel {
            1024
        } else {
            0
        };
        let ti = self.vram0.tile_map[map_base + (by as usize / 8) * 32 + bx as usize / 8];
        let adj = adjust_tile(ti, self.lcd_ctrl.tile_data_1_sel);
        tile_pixel(&self.vram0.tile_ram, adj, by as usize % 8, bx as usize % 8)
    }

    /// The window color index at screen column `x` of the current line.
    fn window_color_index(&self, x: usize) -> (r: u8)
        requires
            self.wf(),
            x < SCREEN_WIDTH,
            self.regs.wy.data <= self.regs.ly.data,
        ensures
            r == spec_window_color_index(
                self@.vram,
                self.lcd_ctrl,
                self.regs.wx.data,
                self.regs.wy.data,
                self.regs.ly.data,
                x as int,
            ),
    {
        let wxm7 = ((self.regs.wx.data as u16) + 249) % 256;
        let dx = ((x as u16) + 256 - wxm7) % 256;
        let wline = (self.regs.ly.data - self.regs.wy.data) as usize;
        let map_base: usize = if self.lcd_ctrl.window_tile_map_1_sel {
            1024
        } else {
            0
        };
        let ti = self.vram0.tile_map[map_base + (wline / 8) * 32 + dx as usize / 8];
        let adj = adjust_tile(ti, self.lcd_ctrl.tile_data_1_sel);
        tile_pixel(&self.vram0.tile_ram, adj, wline % 8, dx as usize % 8)
    }

    /// Render the current scanline into framebuffer row LY: background,
    /// window, then the line's sprites in priority order.
    pub fn draw_line(&mut self)
        requires
            old(self).wf(),
            old(self).regs.ly.data < 144,
        ensures
            final(self).wf(),
            final(self)@ == (VideoView { back_buffer: spec_draw_line(old(self)@), ..old(self)@ }),
    {
        let ly = self.regs.ly.data;
        let size16 = self.lcd_ctrl.obj_size_8x16;
        let size: u8 = if size16 {
            16
        } else {
            8
        };

        // The up-to-ten sprites intersecting this line, in OAM order.
        let mut sel: Vec<Sprite> = Vec::new();
        let mut i: usize = 0;
        while i < OAM_NUM_SPRITES
            invariant
                i <= OAM_NUM_SPRITES,
                self == old(self),
                old(self).wf(),
                ly == self.regs.ly.data,
                size == (if size16 { 16u8 } else { 8u8 }),
                size16 == self.lcd_ctrl.obj_size_8x16,
                sel@ == spec_line_sprites(self@.oam.sprites, ly, size, i as nat),
            decreases OAM_NUM_SPRITES - i,
        {
            let s = self.oam.sprite_ram[i];
            let covers = ((ly as u16) + 256 - (s.y as u16)) % 256 < size as u16;
            if covers && sel.len() < 10 {
                sel.push(s);
            }
            i += 1;
        }

        // Sort into draw order: decreasing x, later OAM slots first among
        // equals, so the most visible sprite is painted last.
        let mut ord: Vec<Sprite> = Vec::new();
        let mut k: usize = 0;
        while k < sel.len()
            invariant
                k <= sel@.len(),
                self == old(self),
                old(self).wf(),
                ord@ == spec_draw_order(sel@, k as nat),
                ord@.len() == k,
            decreases sel@.len() - k,
        {
            let sp = sel[k];
            let mut j: usize = 0;
            while j < ord.len() && ord[j].x > sp.x
                invariant
                    j <= ord@.len(),
                    forall|m: int| 0 <= m < j ==> ord@[m].x > sp.x,
                decreases ord@.len() - j,
            {
                j += 1;
            }
            proof {
                lemma_insert_sprite_split(ord@, sp, j as int);
            }
            ord.insert(j, sp);
            k += 1;
            proof {
                assert(ord@ =~= spec_draw_order(sel@, k as nat));
            }
        }
        proof {
            lemma_draw_order_len(sel@, sel@.len());
        }

        // Paint each pixel of the row.
        let row_base: usize = (ly as usize) * 160;
        let bgp = self.regs.bgp.data;
        let shade0 = palette_shade(bgp, 0);
        let mut x: usize = 0;
        while x < SCREEN_WIDTH
            invariant
                x <= SCREEN_WIDTH,
                old(self).wf(),
                self.regs == old(self).regs,
                self.vram0 == old(self).vram0,
                self.oam == old(self).oam,
                self.lcd_ctrl == old(self).lcd_ctrl,
                self.mode == old(self).mode,
                self.mode_cycles == old(self).mode_cycles,
                self.frame_ready == old(self).frame_ready,
                ly == self.regs.ly.data,
                ly < 144,
                row_base == ly * 160,
                bgp == self.regs.bgp.data,
                shade0 == spec_palette_shade(bgp, 0),
                size16 == self.lcd_ctrl.obj_size_8x16,
                size == (if size16 { 16u8 } else { 8u8 }),
                sel@ == spec_line_sprites(self@.oam.sprites, ly, size, OAM_NUM_SPRITES as nat),
                ord@ == spec_draw_order(sel@, sel@.len()),
                self.back_buffer@.len() == NUM_SCREEN_PIXELS,
                forall|m: int|
                    0 <= m < NUM_SCREEN_PIXELS && !(row_base <= m < row_base + x) ==> self.back_buffer@[m]
                        == old(self).back_buffer@[m],
                forall|m: int|
                    row_base <= m < row_base + x ==> self.back_buffer@[m] == spec_pixel(
                        old(self)@,
                        m - row_base,
                    ),
            decreases SCREEN_WIDTH - x,
        {
            let mut px: u8;
            if self.lcd_ctrl.bg_enabled {
                px = palette_shade(bgp, self.bg_color_index(x));
            } else {
                px = self.back_buffer[row_base + x];
            }
            let wx = self.regs.wx.data;
            let wy = self.regs.wy.data;
            let win_start: usize = if wx >= 7 {
                (wx - 7) as usize
            } else {
                0
            };
            if self.lcd_ctrl.window_enabled && wy <= ly && x >= win_start {
                px = palette_shade(bgp, self.window_color_index(x));
            }
            proof {
                assert(self@.vram == old(self)@.vram);
                assert(self@.back_buffer[ly * 160 + x] == old(self)@.back_buffer[ly * 160 + x]);
            }
            if self.lcd_ctrl.obj_enabled {
                proof {
                    lemma_line_sprites_on_line(self@.oam.sprites, ly, size, OAM_NUM_SPRITES as nat);
                    lemma_draw_order_on_line(sel@, sel@.len() as nat, ly, size);
                }
                px = apply_line_sprites(
                    &self.vram0.tile_ram,
                    &ord,
                    size16,
                    bgp,
                    self.regs.obp0.data,
                    self.regs.obp1.data,
                    ly,
                    x,
                    px,
                );
            }
            self.back_buffer[row_base + x] = px;
            proof {
                assert(px == spec_pixel(old(self)@, x as int));
            }
            x += 1;
        }
        proof {
            assert(self.back_buffer@ =~= spec_draw_line(old(self)@));
            assert(self@ =~= (VideoView { back_buffer: spec_draw_line(old(self)@), ..old(self)@ }));
        }
    }
}

/// The color index a sprite shows at screen column `x` of line `ly`.
fn sprite_color_index(tile_ram: &Vec<u8>, s: Sprite, size16: bool, ly: u8, x: usize) -> (r: u8)
    requires
        tile_ram@.len() == TILE_RAM_SIZE,
        x < SCREEN_WIDTH,
        spec_sprite_on_line(s, ly, (if size16 { 16u8 } else { 8u8 })),
        spec_sprite_covers_col(s, x as int),
    ensures
        r == spec_sprite_color_index(tile_ram@, s, size16, ly, x as int),
{
    let row0 = (((ly as u16) + 256 - (s.y as u16)) % 256) as u8;
    let t0: u8 = if size16 {
        s.tile / 2 * 2
    } else {
        s.tile
    };
    let t1: u8 = if row0 >= 8 {
        if !s.y_flip {
            (((t0 as u16) + 1) % 256) as u8
        } else {
            t0
        }
    } else {
        if s.y_flip && size16 {
            (((t0 as u16) + 1) % 256) as u8
        } else {
            t0
        }
    };
    let row = if row0 >= 8 {
        row0 - 8
    } else {
        row0
    };
    let adj_row = if s.y_flip {
        7 - row
    } else {
        row
    };
    let c16 = ((x as u16) + 256 - (s.x as u16)) % 256;
    assert(c16 == (x as int + 256 - s.x) % 256);
    let c = c16 as u8;
    let adj_col = if s.x_flip {
        c
    } else {
        7 - c
    };
    let lo = tile_ram[(t1 as usize) * 16 + (adj_row as usize) * 2];
    let hi = tile_ram[(t1 as usize) * 16 + (adj_row as usize) * 2 + 1];
    bit_u8(hi, adj_col) * 2 + bit_u8(lo, adj_col)
}


/// Paint the draw-order sprites over one pixel.
fn apply_line_sprites(
    tile_ram: &Vec<u8>,
    ord: &Vec<Sprite>,
    size16: bool,
    bgp: u8,
    obp0: u8,
    obp1: u8,
    ly: u8,
    x: usize,
    base: u8,
) -> (r: u8)
    requires
        tile_ram@.len() == TILE_RAM_SIZE,
        x < SCREEN_WIDTH,
        forall|m: int|
            0 <= m < ord@.len() ==> spec_sprite_on_line(
                #[trigger] ord@[m],
                ly,
                (if size16 {
                    16u8
                } else {
                    8u8
                }),
            ),
    ensures
        r == spec_apply_sprites(
            tile_ram@,
            ord@,
            ord@.len() as nat,
            size16,
            bgp,
            obp0,
            obp1,
            ly,
            x as int,
            base,
        ),
{
    let shade0 = palette_shade(bgp, 0);
    let mut px = base;
    let mut k: usize = 0;
    while k < ord.len()
        invariant
            k <= ord@.len(),
            tile_ram@.len() == TILE_RAM_SIZE,
            x < SCREEN_WIDTH,
            shade0 == spec_palette_shade(bgp, 0),
            forall|m: int|
                0 <= m < ord@.len() ==> spec_sprite_on_line(
                    #[trigger] ord@[m],
                    ly,
                    (if size16 {
                        16u8
                    } else {
                        8u8
                    }),
                ),
            px == spec_apply_sprites(
                tile_ram@,
                ord@,
                k as nat,
                size16,
                bgp,
                obp0,
                obp1,
                ly,
                x as int,
                base,
            ),
        decreases ord@.len() - k,
    {
        let s = ord[k];
        let c = ((x as u16) + 256 - (s.x as u16)) % 256;
        assert(c == (x as int + 256 - s.x) % 256);
        if c < 8 {
            let ci = sprite_color_index(tile_ram, s, size16, ly, x);
            if ci != 0 && (!s.priority || px == shade0) {
                let obp = if s.palette_1_sel {
                    obp1
                } else {
                    obp0
                };
                px = palette_shade(obp, ci);
            }
        }
        k += 1;
    }
    px
}

/// Every sprite the line scan selects intersects the line.
proof fn lemma_line_sprites_on_line(sprites: Seq<Sprite>, ly: u8, size: u8, n: nat)
    ensures
        forall|m: int|
            0 <= m < spec_line_sprites(sprites, ly, size, n).len() ==> spec_sprite_on_line(
                #[trigger] spec_line_sprites(sprites, ly, size, n)[m],
                ly,
                size,
            ),
    decreases n,
{
    if n > 0 {
        lemma_line_sprites_on_line(sprites, ly, size, (n - 1) as nat);
        let p = spec_line_sprites(sprites, ly, size, (n - 1) as nat);
        let q = spec_line_sprites(sprites, ly, size, n);
        assert forall|m: int| 0 <= m < q.len() implies spec_sprite_on_line(
            #[trigger] q[m],
            ly,
            size,
        ) by {
            if m < p.len() {
                assert(q[m] == p[m]);
            }
        }
    }
}

/// Insertion keeps every member on the line.
proof fn lemma_insert_sprite_on_line(s: Seq<Sprite>, sp: Sprite, ly: u8, size: u8)
    requires
        forall|m: int| 0 <= m < s.len() ==> spec_sprite_on_line(#[trigger] s[m], ly, size),
        spec_sprite_on_line(sp, ly, size),
    ensures
        forall|m: int|
            0 <= m < spec_insert_sprite(s, sp).len() ==> spec_sprite_on_line(
                #[trigger] spec_insert_sprite(s, sp)[m],
                ly,
                size,
            ),
    decreases s.len(),
{
    if s.len() == 0 {
        assert(spec_insert_sprite(s, sp) =~= seq![sp]);
    } else if s[0].x > sp.x {
        assert(forall|m: int|
            0 <= m < s.drop_first().len() ==> spec_sprite_on_line(
                #[trigger] s.drop_first()[m],
                ly,
                size,
            ));
        lemma_insert_sprite_on_line(s.drop_first(), sp, ly, size);
        let inner = spec_insert_sprite(s.drop_first(), sp);
        assert forall|m: int|
            0 <= m < spec_insert_sprite(s, sp).len() implies spec_sprite_on_line(
            #[trigger] spec_insert_sprite(s, sp)[m],
            ly,
            size,
        ) by {
            if m == 0 {
                assert(spec_insert_sprite(s, sp)[0] == s[0]);
            } else {
                assert(spec_insert_sprite(s, sp)[m] == inner[m - 1]);
            }
        }
    } else {
        assert forall|m: int|
            0 <= m < spec_insert_sprite(s, sp).len() implies spec_sprite_on_line(
            #[trigger] spec_insert_sprite(s, sp)[m],
            ly,
            size,
        ) by {
            if m == 0 {
                assert(spec_insert_sprite(s, sp)[0] == sp);
            } else {
                assert(spec_insert_sprite(s, sp)[m] == s[m - 1]);
            }
        }
    }
}

/// Every member of the draw order intersects the line, provided the
/// selected sprites do.
proof fn lemma_draw_order_on_line(sel: Seq<Sprite>, n: nat, ly: u8, size: u8)
    requires
        n <= sel.len(),
        forall|m: int| 0 <= m < sel.len() ==> spec_sprite_on_line(#[trigger] sel[m], ly, size),
    ensures
        forall|m: int|
            0 <= m < spec_draw_order(sel, n).len() ==> spec_sprite_on_line(
                #[trigger] spec_draw_order(sel, n)[m],
                ly,
                size,
            ),
    decreases n,
{
    if n > 0 {
        lemma_draw_order_on_line(sel, (n - 1) as nat, ly, size);
        lemma_insert_sprite_on_line(spec_draw_order(sel, (n - 1) as nat), sel[n - 1], ly, size);
    }
}

/// The draw order holds exactly the selected sprites.
proof fn lemma_draw_order_len(sel: Seq<Sprite>, n: nat)
    requires
        n <= sel.len(),
    ensures
        spec_draw_order(sel, n).len() == n,
    decreases n,
{
    if n > 0 {
        lemma_draw_order_len(sel, (n - 1) as nat);
        lemma_insert_sprite_len(spec_draw_order(sel, (n - 1) as nat), sel[n - 1]);
    }
}

/// Inserting one sprite grows the draw order by one.
proof fn lemma_insert_sprite_len(s: Seq<Sprite>, sp: Sprite)
    ensures
        spec_insert_sprite(s, sp).len() == s.len() + 1,
    decreases s.len(),
{
    if s.len() > 0 && s[0].x > sp.x {
        lemma_insert_sprite_len(s.drop_first(), sp);
    }
}

/// Inserting into a draw-order list lands exactly before the first element
/// whose `x` does not exceed the new sprite's.
proof fn lemma_insert_sprite_split(s: Seq<Sprite>, sp: Sprite, j: int)
    requires
        0 <= j <= s.len(),
        forall|k: int| 0 <= k < j ==> s[k].x > sp.x,
        j < s.len() ==> s[j].x <= sp.x,
    ensures
        spec_insert_sprite(s, sp) =~= s.insert(j, sp),
    decreases j,
{
    if j == 0 {
        assert(spec_insert_sprite(s, sp) =~= s.insert(0, sp));
    } else {
        lemma_insert_sprite_split(s.drop_first(), sp, j - 1);
        assert(spec_insert_sprite(s, sp) =~= seq![s[0]] + spec_insert_sprite(s.drop_first(), sp));
        assert(seq![s[0]] + s.drop_first().insert(j - 1, sp) =~= s.insert(j, sp));
    }
}

/// STAT with its mode bits (low two) replaced.
pub open spec fn spec_stat_with_mode(stat: u8, m: VideoMode) -> u8 {
    (stat / 4 * 4 + spec_mode_bits(m)) as u8
}

/// STAT with the coincidence flag (bit 2) replaced.
pub open spec fn spec_stat_with_coincidence(stat: u8, c: bool) -> u8 {
    (stat / 8 * 8 + (if c {
        4u8
    } else {
        0u8
    }) + stat % 4) as u8
}

/// The PPU after switching mode: the mode field and the STAT mode bits.
pub open spec fn spec_set_mode(v: VideoView, m: VideoMode) -> VideoView {
    VideoView {
        mode: m,
        regs: VideoRegisters {
            lcd_status: IORegister {
                data: spec_stat_with_mode(v.regs.lcd_status.data, m),
                ..v.regs.lcd_status
            },
            ..v.regs
        },
        ..v
    }
}

/// The PPU with LY replaced.
pub open spec fn spec_with_ly(v: VideoView, ly: u8) -> VideoView {
    VideoView {
        regs: VideoRegisters { ly: IORegister { data: ly, ..v.regs.ly }, ..v.regs },
        ..v
    }
}

/// The coincidence update run at every LY change: STAT bit 2 becomes
/// LY = LYC, and if so and STAT bit 6 is set, the STAT interrupt is raised.
pub open spec fn spec_coincidence_update(v: VideoView, iflags: u8) -> (VideoView, u8) {
    let c = v.regs.ly.data == v.regs.lyc.data;
    let stat = spec_stat_with_coincidence(v.regs.lcd_status.data, c);
    let v2 = VideoView {
        regs: VideoRegisters {
            lcd_status: IORegister { data: stat, ..v.regs.lcd_status },
            ..v.regs
        },
        ..v
    };
    let ifl = if c && spec_bit_u8(stat, 6) == 1 {
        iflags | INTERRUPT_LCD_STAT
    } else {
        iflags
    };
    (v2, ifl)
}

/// Four clocks of the mode state machine.  Scanlines 0..143 run OAM scan
/// (80 clocks), VRAM access (172) and HBLANK (204); the line is rendered at
/// the VRAM-to-HBLANK transition.  Lines 144..153 are VBLANK, 456 clocks
/// each; entering VBLANK raises the VBLANK interrupt and flips
/// `frame_ready`.  Mode transitions raise the STAT interrupt when the
/// matching STAT enable bit is set, and every LY change updates the
/// coincidence flag.
pub open spec fn spec_video_tick4(v: VideoView, iflags: u8) -> (VideoView, u8) {
    let c = (v.mode_cycles + 4) as u32;
    match v.mode {
        VideoMode::AccessOam => {
            if c >= 80 {
                (spec_set_mode(VideoView { mode_cycles: (c - 80) as u32, ..v }, VideoMode::AccessVram), iflags)
            } else {
                (VideoView { mode_cycles: c, ..v }, iflags)
            }
        },
        VideoMode::AccessVram => {
            if c >= 172 {
                let drawn = VideoView {
                    back_buffer: spec_draw_line(v),
                    mode_cycles: (c - 172) as u32,
                    ..v
                };
                let v2 = spec_set_mode(drawn, VideoMode::Hblank);
                let ifl = if spec_bit_u8(v2.regs.lcd_status.data, 3) == 1 {
                    iflags | INTERRUPT_LCD_STAT
                } else {
                    iflags
                };
                (v2, ifl)
            } else {
                (VideoView { mode_cycles: c, ..v }, iflags)
            }
        },
        VideoMode::Hblank => {
            if c >= 204 {
                let ly2 = (v.regs.ly.data + 1) as u8;
                let v1 = spec_with_ly(VideoView { mode_cycles: (c - 204) as u32, ..v }, ly2);
                let co = spec_coincidence_update(v1, iflags);
                if ly2 >= 144 {
                    let v3 = VideoView { frame_ready: true, ..spec_set_mode(co.0, VideoMode::Vblank) };
                    let if2 = co.1 | INTERRUPT_VBLANK;
                    let if3 = if spec_bit_u8(v3.regs.lcd_status.data, 4) == 1 {
                        if2 | INTERRUPT_LCD_STAT
                    } else {
                        if2
                    };
                    (v3, if3)
                } else {
                    let v3 = spec_set_mode(co.0, VideoMode::AccessOam);
                    let if3 = if spec_bit_u8(v3.regs.lcd_status.data, 5) == 1 {
                        co.1 | INTERRUPT_LCD_STAT
                    } else {
                        co.1
                    };
                    (v3, if3)
                }
            } else {
                (VideoView { mode_cycles: c, ..v }, iflags)
            }
        },
        VideoMode::Vblank => {
            if c >= 456 {
                if v.regs.ly.data == 153 {
                    let v1 = spec_with_ly(VideoView { mode_cycles: (c - 456) as u32, ..v }, 0);
                    let co = spec_coincidence_update(v1, iflags);
                    let v3 = spec_set_mode(co.0, VideoMode::AccessOam);
                    let if3 = if spec_bit_u8(v3.regs.lcd_status.data, 5) == 1 {
                        co.1 | INTERRUPT_LCD_STAT
                    } else {
                        co.1
                    };
                    (v3, if3)
                } else {
                    let ly2 = (v.regs.ly.data + 1) as u8;
                    let v1 = spec_with_ly(VideoView { mode_cycles: (c - 456) as u32, ..v }, ly2);
                    spec_coincidence_update(v1, iflags)
                }
            } else {
                (VideoView { mode_cycles: c, ..v }, iflags)
            }
        },
    }
}

/// `n` times four clocks of the mode state machine.
pub open spec fn spec_video_ticks(v: VideoView, iflags: u8, n: nat) -> (VideoView, u8)
    decreases n,
{
    if n == 0 {
        (v, iflags)
    } else {
        let prev = spec_video_ticks(v, iflags, (n - 1) as nat);
        spec_video_tick4(prev.0, prev.1)
    }
}

/// The STAT mode bits of a mode.
pub fn mode_bits(m: VideoMode) -> (r: u8)
    ensures
        r == spec_mode_bits(m),
{
    match m {
        VideoMode::Hblank => 0,
        VideoMode::Vblank => 1,
        VideoMode::AccessOam => 2,
        VideoMode::AccessVram => 3,
    }
}

impl VideoData {
    /// Raise the LCD STAT interrupt.
    pub fn request_status_interrupt(&self, iregs: &mut InterruptRegisters)
        ensures
            *final(iregs) == old(iregs).spec_request(INTERRUPT_LCD_STAT),
    {
        iregs.request(INTERRUPT_LCD_STAT);
    }

    /// Switch mode and expose it in the STAT mode bits.
    pub fn set_mode(&mut self, mode: VideoMode)
        ensures
            final(self)@ == spec_set_mode(old(self)@, mode),
    {
        self.mode = mode;
        self.regs.lcd_status.data = self.regs.lcd_status.data / 4 * 4 + mode_bits(mode);
    }

    /// Recompute STAT bit 2 (LY = LYC) and raise the STAT interrupt on a
    /// coincidence with STAT bit 6 set.
    pub fn update_coincidence_flag(&mut self, iregs: &mut InterruptRegisters)
        ensures
            (final(self)@, final(iregs).iflags.data) == spec_coincidence_update(
                old(self)@,
                old(iregs).iflags.data,
            ),
            final(iregs).iflags.wmask == old(iregs).iflags.wmask,
            final(iregs).iflags.rmask == old(iregs).iflags.rmask,
            final(iregs).ienable == old(iregs).ienable,
    {
        let coincidence = self.regs.ly.data == self.regs.lyc.data;
        let stat = self.regs.lcd_status.data;
        let new_stat = stat / 8 * 8 + (if coincidence {
            4
        } else {
            0
        }) + stat % 4;
        self.regs.lcd_status.data = new_stat;
        if coincidence && bit_u8(new_stat, 6) == 1 {
            iregs.request(INTERRUPT_LCD_STAT);
        }
    }

    /// Four clocks of the mode state machine.
    fn tick4(&mut self, iregs: &mut InterruptRegisters)
        requires
            old(self).wf(),
        ensures
            final(self).wf(),
            (final(self)@, final(iregs).iflags.data) == spec_video_tick4(
                old(self)@,
                old(iregs).iflags.data,
            ),
            final(iregs).iflags.wmask == old(iregs).iflags.wmask,
            final(iregs).iflags.rmask == old(iregs).iflags.rmask,
            final(iregs).ienable == old(iregs).ienable,
    {
        let c = self.mode_cycles + 4;
        match self.mode {
            VideoMode::AccessOam => {
                if c >= 80 {
                    self.mode_cycles = c - 80;
                    self.set_mode(VideoMode::AccessVram);
                } else {
                    self.mode_cycles = c;
                }
            },
            VideoMode::AccessVram => {
                if c >= 172 {
                    self.draw_line();
                    self.mode_cycles = c - 172;
                    self.set_mode(VideoMode::Hblank);
                    if bit_u8(self.regs.lcd_status.data, 3) == 1 {
                        iregs.request(INTERRUPT_LCD_STAT);
                    }
                } else {
                    self.mode_cycles = c;
                }
            },
            VideoMode::Hblank => {
                if c >= 204 {
                    self.mode_cycles = c - 204;
                    self.regs.ly.data = self.regs.ly.data + 1;
                    self.update_coincidence_flag(iregs);
                    if self.regs.ly.data >= 144 {
                        self.set_mode(VideoMode::Vblank);
                        self.frame_ready = true;
                        iregs.request(INTERRUPT_VBLANK);
                        if bit_u8(self.regs.lcd_status.data, 4) == 1 {
                            iregs.request(INTERRUPT_LCD_STAT);
                        }
                    } else {
                        self.set_mode(VideoMode::AccessOam);
                        if bit_u8(self.regs.lcd_status.data, 5) == 1 {
                            iregs.request(INTERRUPT_LCD_STAT);
                        }
                    }
                } else {
                    self.mode_cycles = c;
                }
            },
            VideoMode::Vblank => {
                if c >= 456 {
                    self.mode_cycles = c - 456;
                    if self.regs.ly.data == 153 {
                        self.regs.ly.data = 0;
                        self.update_coincidence_flag(iregs);
                        self.set_mode(VideoMode::AccessOam);
                        if bit_u8(self.regs.lcd_status.data, 5) == 1 {
                            iregs.request(INTERRUPT_LCD_STAT);
                        }
                    } else {
                        self.regs.ly.data = self.regs.ly.data + 1;
                        self.update_coincidence_flag(iregs);
                    }
                } else {
                    self.mode_cycles = c;
                }
            },
        }
    }

    /// Advance the PPU by `delta` clocks, four at a time.
    pub fn update(&mut self, delta: u32, iregs: &mut InterruptRegisters)
        requires
            old(self).wf(),
            delta % 4 == 0,
        ensures
            final(self).wf(),
            (final(self)@, final(iregs).iflags.data) == spec_video_ticks(
                old(self)@,
                old(iregs).iflags.data,
                (delta / 4) as nat,
            ),
            final(iregs).iflags.wmask == old(iregs).iflags.wmask,
            final(iregs).iflags.rmask == old(iregs).iflags.rmask,
            final(iregs).ienable == old(iregs).ienable,
    {
        let n = delta / 4;
        let mut k: u32 = 0;
        while k < n
            invariant
                k <= n,
                self.wf(),
                (self@, iregs.iflags.data) == spec_video_ticks(
                    old(self)@,
                    old(iregs).iflags.data,
                    k as nat,
                ),
                iregs.iflags.wmask == old(iregs).iflags.wmask,
                iregs.iflags.rmask == old(iregs).iflags.rmask,
                iregs.ienable == old(iregs).ienable,
            decreases n - k,
        {
            self.tick4(iregs);
            k += 1;
        }
    }
}

/// The mode state machine never touches OAM: sprites and the DMA engine
/// state pass through unchanged.
pub proof fn lemma_video_ticks_oam(v: VideoView, iflags: u8, n: nat)
    ensures
        spec_video_ticks(v, iflags, n).0.oam == v.oam,
    decreases n,
{
    if n > 0 {
        lemma_video_ticks_oam(v, iflags, (n - 1) as nat);
    }
}

} // verus!
