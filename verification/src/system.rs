//! The bus: one owned structure holding every peripheral, with the 16-bit
//! address decode, the OAM DMA engine, and the per-instruction peripheral
//! update.

use vstd::prelude::*;
use crate::interrupt::InterruptRegisters;
use crate::joypad::{spec_joyp, Joypad};
use crate::mbc::{spec_mbc_read, spec_mbc_write, MBC, MBCView};
use crate::rom::Rom;
use crate::serial::SerialRegisters;
use crate::sound::SoundData;
use crate::sound::SoundRegisters;
use crate::timer::{spec_clear_divider, spec_timer_ticks, spec_write_control, TimerRegisters};
use crate::video::{
    spec_lcdc_write, spec_oam_read, spec_oam_write, spec_video_ticks, spec_vram_read,
    spec_vram_write, OAMView, VideoData, VideoRegisters, VideoView, VideoMode,
};
use crate::ioregister::IORegister;
use crate::wram::{WRAMBank, ZeroPageRAM, WRAM_BANK_SIZE, ZERO_PAGE_SIZE};

verus! {

/// The mathematical state of the whole bus.
pub ghost struct SysView {
    pub mbc: MBCView,
    pub video: VideoView,
    pub sound_regs: SoundRegisters,
    pub wave_ram: Seq<u8>,
    pub interrupt_regs: InterruptRegisters,
    pub joypad: Joypad,
    pub wram0: Seq<u8>,
    pub wram1: Seq<u8>,
    pub timer: TimerRegisters,
    pub serial: SerialRegisters,
    pub zero_page: Seq<u8>,
}

/// The whole machine behind the CPU: cartridge, video, sound storage,
/// interrupt registers, joypad, work RAM, timer, serial and high RAM.
pub struct GBSystem {
    pub mbc: MBC,
    pub video: VideoData,
    pub sound: SoundData,
    pub interrupt_regs: InterruptRegisters,
    pub joypad: Joypad,
    pub wram0: WRAMBank,
    pub wram1: WRAMBank,
    pub timer_regs: TimerRegisters,
    pub serial_regs: SerialRegisters,
    pub zero_page: ZeroPageRAM,
}

impl View for GBSystem {
    type V = SysView;

    open spec fn view(&self) -> SysView {
        SysView {
            mbc: self.mbc@,
            video: self.video@,
            sound_regs: self.sound.regs,
            wave_ram: self.sound.wave_ram.0@,
            interrupt_regs: self.interrupt_regs,
            joypad: self.joypad,
            wram0: self.wram0.0@,
            wram1: self.wram1.0@,
            timer: self.timer_regs,
            serial: self.serial_regs,
            zero_page: self.zero_page.0@,
        }
    }
}

/// What a read of the sound register file returns for 0xFF10-0xFF26.
pub open spec fn spec_sound_read(regs: SoundRegisters, addr: u16) -> u8 {
    if addr == 0xff10 {
        regs.ch1_sweep.spec_read()
    } else if addr == 0xff11 {
        regs.ch1_length_duty.spec_read()
    } else if addr == 0xff12 {
        regs.ch1_vol_env.spec_read()
    } else if addr == 0xff13 {
        regs.ch1_freq_low.spec_read()
    } else if addr == 0xff14 {
        regs.ch1_freq_high.spec_read()
    } else if addr == 0xff16 {
        regs.ch2_length_duty.spec_read()
    } else if addr == 0xff17 {
        regs.ch2_vol_env.spec_read()
    } else if addr == 0xff18 {
        regs.ch2_freq_low.spec_read()
    } else if addr == 0xff19 {
        regs.ch2_freq_high.spec_read()
    } else if addr == 0xff1a {
        regs.ch3_snd_on_off.spec_read()
    } else if addr == 0xff1b {
        regs.ch3_snd_length.spec_read()
    } else if addr == 0xff1c {
        regs.ch3_out_level.spec_read()
    } else if addr == 0xff1d {
        regs.ch3_freq_low.spec_read()
    } else if addr == 0xff1e {
        regs.ch3_freq_high.spec_read()
    } else if addr == 0xff20 {
        regs.ch4_snd_length.spec_read()
    } else if addr == 0xff21 {
        regs.ch4_vol_env.spec_read()
    } else if addr == 0xff22 {
        regs.ch4_poly_cnt.spec_read()
    } else if addr == 0xff23 {
        regs.ch4_cnt_init.spec_read()
    } else if addr == 0xff24 {
        regs.ctrl_vol.spec_read()
    } else if addr == 0xff25 {
        regs.ctrl_ch_mux.spec_read()
    } else if addr == 0xff26 {
        regs.ctrl_on_off.spec_read()
    } else {
        0xff
    }
}

/// The sound register file after a write to 0xFF10-0xFF26.
pub open spec fn spec_sound_write(regs: SoundRegisters, addr: u16, data: u8) -> SoundRegisters {
    if addr == 0xff10 {
        SoundRegisters { ch1_sweep: regs.ch1_sweep.spec_write(data), ..regs }
    } else if addr == 0xff11 {
        SoundRegisters { ch1_length_duty: regs.ch1_length_duty.spec_write(data), ..regs }
    } else if addr == 0xff12 {
        SoundRegisters { ch1_vol_env: regs.ch1_vol_env.spec_write(data), ..regs }
    } else if addr == 0xff13 {
        SoundRegisters { ch1_freq_low: regs.ch1_freq_low.spec_write(data), ..regs }
    } else if addr == 0xff14 {
        SoundRegisters { ch1_freq_high: regs.ch1_freq_high.spec_write(data), ..regs }
    } else if addr == 0xff16 {
        SoundRegisters { ch2_length_duty: regs.ch2_length_duty.spec_write(data), ..regs }
    } else if addr == 0xff17 {
        SoundRegisters { ch2_vol_env: regs.ch2_vol_env.spec_write(data), ..regs }
    } else if addr == 0xff18 {
        SoundRegisters { ch2_freq_low: regs.ch2_freq_low.spec_write(data), ..regs }
    } else if addr == 0xff19 {
        SoundRegisters { ch2_freq_high: regs.ch2_freq_high.spec_write(data), ..regs }
    } else if addr == 0xff1a {
        SoundRegisters { ch3_snd_on_off: regs.ch3_snd_on_off.spec_write(data), ..regs }
    } else if addr == 0xff1b {
        SoundRegisters { ch3_snd_length: regs.ch3_snd_length.spec_write(data), ..regs }
    } else if addr == 0xff1c {
        SoundRegisters { ch3_out_level: regs.ch3_out_level.spec_write(data), ..regs }
    } else if addr == 0xff1d {
        SoundRegisters { ch3_freq_low: regs.ch3_freq_low.spec_write(data), ..regs }
    } else if addr == 0xff1e {
        SoundRegisters { ch3_freq_high: regs.ch3_freq_high.spec_write(data), ..regs }
    } else if addr == 0xff20 {
        SoundRegisters { ch4_snd_length: regs.ch4_snd_length.spec_write(data), ..regs }
    } else if addr == 0xff21 {
        SoundRegisters { ch4_vol_env: regs.ch4_vol_env.spec_write(data), ..regs }
    } else if addr == 0xff22 {
        SoundRegisters { ch4_poly_cnt: regs.ch4_poly_cnt.spec_write(data), ..regs }
    } else if addr == 0xff23 {
        SoundRegisters { ch4_cnt_init: regs.ch4_cnt_init.spec_write(data), ..regs }
    } else if addr == 0xff24 {
        SoundRegisters { ctrl_vol: regs.ctrl_vol.spec_write(data), ..regs }
    } else if addr == 0xff25 {
        SoundRegisters { ctrl_ch_mux: regs.ctrl_ch_mux.spec_write(data), ..regs }
    } else if addr == 0xff26 {
        SoundRegisters { ctrl_on_off: regs.ctrl_on_off.spec_write(data), ..regs }
    } else {
        regs
    }
}

/// What a bus read at `addr` returns, per the address map: ROM and external
/// RAM through the controller, VRAM, work RAM with its echo, OAM, the
/// memory-mapped registers, high RAM; unusable and unmapped bytes read 0xFF.
#[verifier::opaque]
pub open spec fn spec_sys_read8(s: SysView, addr: u16) -> u8 {
    if addr < 0x8000 {
        spec_mbc_read(s.mbc, addr)
    } else if addr < 0xa000 {
        spec_vram_read(s.video.vram, (addr - 0x8000) as u16)
    } else if addr < 0xc000 {
        spec_mbc_read(s.mbc, addr)
    } else if addr < 0xd000 {
        s.wram0[addr - 0xc000]
    } else if addr < 0xe000 {
        s.wram1[addr - 0xd000]
    } else if addr < 0xf000 {
        s.wram0[addr - 0xe000]
    } else if addr < 0xfe00 {
        s.wram1[addr - 0xf000]
    } else if addr < 0xfea0 {
        spec_oam_read(s.video.oam, (addr - 0xfe00) as u16)
    } else if addr < 0xff00 {
        0xff
    } else if addr == 0xff00 {
        spec_joyp(s.joypad)
    } else if addr == 0xff01 {
        s.serial.data.spec_read()
    } else if addr == 0xff02 {
        s.serial.control.spec_read()
    } else if addr == 0xff04 {
        (s.timer.divider / 256) as u8
    } else if addr == 0xff05 {
        s.timer.counter
    } else if addr == 0xff06 {
        s.timer.modulo.spec_read()
    } else if addr == 0xff07 {
        s.timer.control.spec_read()
    } else if addr == 0xff0f {
        s.interrupt_regs.iflags.spec_read()
    } else if 0xff10 <= addr <= 0xff26 {
        spec_sound_read(s.sound_regs, addr)
    } else if 0xff30 <= addr < 0xff40 {
        s.wave_ram[addr - 0xff30]
    } else if addr == 0xff40 {
        s.video.lcd_ctrl.data
    } else if addr == 0xff41 {
        s.video.regs.lcd_status.spec_read()
    } else if addr == 0xff42 {
        s.video.regs.scy.spec_read()
    } else if addr == 0xff43 {
        s.video.regs.scx.spec_read()
    } else if addr == 0xff44 {
        s.video.regs.ly.spec_read()
    } else if addr == 0xff45 {
        s.video.regs.lyc.spec_read()
    } else if addr == 0xff46 {
        (s.video.oam.dma_addr / 256) as u8
    } else if addr == 0xff47 {
        s.video.regs.bgp.data
    } else if addr == 0xff48 {
        s.video.regs.obp0.data
    } else if addr == 0xff49 {
        s.video.regs.obp1.data
    } else if addr == 0xff4a {
        s.video.regs.wy.spec_read()
    } else if addr == 0xff4b {
        s.video.regs.wx.spec_read()
    } else if 0xff80 <= addr < 0xffff {
        s.zero_page[addr - 0xff80]
    } else if addr == 0xffff {
        s.interrupt_regs.ienable.spec_read()
    } else {
        0xff
    }
}

/// What a bus write at `addr` leaves behind, per the address map.  Writes
/// to unusable or unmapped bytes are dropped; LY is read-only; DIV, TAC and
/// the DMA register have their hardware side effects.
#[verifier::opaque]
pub open spec fn spec_sys_write8(s: SysView, addr: u16, data: u8) -> SysView {
    if addr < 0x8000 {
        SysView { mbc: spec_mbc_write(s.mbc, addr, data), ..s }
    } else if addr < 0xa000 {
        SysView {
            video: VideoView {
                vram: spec_vram_write(s.video.vram, (addr - 0x8000) as u16, data),
                ..s.video
            },
            ..s
        }
    } else if addr < 0xc000 {
        SysView { mbc: spec_mbc_write(s.mbc, addr, data), ..s }
    } else if addr < 0xd000 {
        SysView { wram0: s.wram0.update(addr - 0xc000, data), ..s }
    } else if addr < 0xe000 {
        SysView { wram1: s.wram1.update(addr - 0xd000, data), ..s }
    } else if addr < 0xf000 {
        SysView { wram0: s.wram0.update(addr - 0xe000, data), ..s }
    } else if addr < 0xfe00 {
        SysView { wram1: s.wram1.update(addr - 0xf000, data), ..s }
    } else if addr < 0xfea0 {
        SysView {
            video: VideoView {
                oam: spec_oam_write(s.video.oam, (addr - 0xfe00) as u16, data),
                ..s.video
            },
            ..s
        }
    } else if addr < 0xff00 {
        s
    } else if addr == 0xff00 {
        SysView { joypad: Joypad { sel_mask: (data / 16 % 4 * 16) as u8, ..s.joypad }, ..s }
    } else if addr == 0xff01 {
        SysView { serial: SerialRegisters { data: s.serial.data.spec_write(data), ..s.serial }, ..s }
    } else if addr == 0xff02 {
        SysView {
            serial: SerialRegisters { control: s.serial.control.spec_write(data), ..s.serial },
            ..s
        }
    } else if addr == 0xff04 {
        let t = spec_clear_divider(s.timer, s.interrupt_regs.iflags.data);
        SysView {
            timer: t.0,
            interrupt_regs: InterruptRegisters {
                iflags: IORegister { data: t.1, ..s.interrupt_regs.iflags },
                ..s.interrupt_regs
            },
            ..s
        }
    } else if addr == 0xff05 {
        SysView { timer: TimerRegisters { counter: data, ..s.timer }, ..s }
    } else if addr == 0xff06 {
        SysView { timer: TimerRegisters { modulo: s.timer.modulo.spec_write(data), ..s.timer }, ..s }
    } else if addr == 0xff07 {
        let t = spec_write_control(s.timer, data, s.interrupt_regs.iflags.data);
        SysView {
            timer: t.0,
            interrupt_regs: InterruptRegisters {
                iflags: IORegister { data: t.1, ..s.interrupt_regs.iflags },
                ..s.interrupt_regs
            },
            ..s
        }
    } else if addr == 0xff0f {
        SysView {
            interrupt_regs: InterruptRegisters {
                iflags: s.interrupt_regs.iflags.spec_write(data),
                ..s.interrupt_regs
            },
            ..s
        }
    } else if 0xff10 <= addr <= 0xff26 {
        SysView { sound_regs: spec_sound_write(s.sound_regs, addr, data), ..s }
    } else if 0xff30 <= addr < 0xff40 {
        SysView { wave_ram: s.wave_ram.update(addr - 0xff30, data), ..s }
    } else if addr == 0xff40 {
        SysView { video: VideoView { lcd_ctrl: spec_lcdc_write(data), ..s.video }, ..s }
    } else if addr == 0xff41 {
        SysView {
            video: VideoView {
                regs: VideoRegisters {
                    lcd_status: s.video.regs.lcd_status.spec_write(data),
                    ..s.video.regs
                },
                ..s.video
            },
            ..s
        }
    } else if addr == 0xff42 {
        SysView {
            video: VideoView {
                regs: VideoRegisters { scy: s.video.regs.scy.spec_write(data), ..s.video.regs },
                ..s.video
            },
            ..s
        }
    } else if addr == 0xff43 {
        SysView {
            video: VideoView {
                regs: VideoRegisters { scx: s.video.regs.scx.spec_write(data), ..s.video.regs },
                ..s.video
            },
            ..s
        }
    } else if addr == 0xff44 {
        SysView {
            video: VideoView {
                regs: VideoRegisters { ly: s.video.regs.ly.spec_write(data), ..s.video.regs },
                ..s.video
            },
            ..s
        }
    } else if addr == 0xff45 {
        SysView {
            video: VideoView {
                regs: VideoRegisters { lyc: s.video.regs.lyc.spec_write(data), ..s.video.regs },
                ..s.video
            },
            ..s
        }
    } else if addr == 0xff46 {
        if data <= 0xdf {
            SysView {
                video: VideoView {
                    oam: OAMView {
                        dma_addr: (data * 256) as u16,
                        dma_transfer: true,
                        ..s.video.oam
                    },
                    ..s.video
                },
                ..s
            }
        } else {
            s
        }
    } else if addr == 0xff47 {
        SysView {
            video: VideoView {
                regs: VideoRegisters {
                    bgp: IORegister { data, ..s.video.regs.bgp },
                    ..s.video.regs
                },
                ..s.video
            },
            ..s
        }
    } else if addr == 0xff48 {
        SysView {
            video: VideoView {
                regs: VideoRegisters {
                    obp0: IORegister { data, ..s.video.regs.obp0 },
                    ..s.video.regs
                },
                ..s.video
            },
            ..s
        }
    } else if addr == 0xff49 {
        SysView {
            video: VideoView {
                regs: VideoRegisters {
                    obp1: IORegister { data, ..s.video.regs.obp1 },
                    ..s.video.regs
                },
                ..s.video
            },
            ..s
        }
    } else if addr == 0xff4a {
        SysView {
            video: VideoView {
                regs: VideoRegisters { wy: s.video.regs.wy.spec_write(data), ..s.video.regs },
                ..s.video
            },
            ..s
        }
    } else if addr == 0xff4b {
        SysView {
            video: VideoView {
                regs: VideoRegisters { wx: s.video.regs.wx.spec_write(data), ..s.video.regs },
                ..s.video
            },
            ..s
        }
    } else if 0xff80 <= addr < 0xffff {
        SysView { zero_page: s.zero_page.update(addr - 0xff80, data), ..s }
    } else if addr == 0xffff {
        SysView {
            interrupt_regs: InterruptRegisters {
                ienable: s.interrupt_regs.ienable.spec_write(data),
                ..s.interrupt_regs
            },
            ..s
        }
    } else {
        s
    }
}

/// A little-endian 16-bit bus read.
#[verifier::opaque]
pub open spec fn spec_sys_read16(s: SysView, addr: u16) -> u16 {
    (spec_sys_read8(s, addr) + 256 * spec_sys_read8(s, ((addr + 1) % 0x10000) as u16)) as u16
}

/// A little-endian 16-bit bus write: low byte first.
#[verifier::opaque]
pub open spec fn spec_sys_write16(s: SysView, addr: u16, data: u16) -> SysView {
    spec_sys_write8(
        spec_sys_write8(s, addr, (data % 256) as u8),
        ((addr + 1) % 0x10000) as u16,
        (data / 256) as u8,
    )
}

impl GBSystem {
    /// Well-formed bus: every peripheral well-formed.
    pub open spec fn wf(self) -> bool {
        &&& self.mbc.wf()
        &&& self.video.wf()
        &&& self.video@.oam.dma_transfer ==> self.video@.oam.dma_addr % 256 < 0xa0
        &&& self.sound.wave_ram.wf()
        &&& self.joypad.wf()
        &&& self.wram0.wf()
        &&& self.wram1.wf()
        &&& self.zero_page.wf()
    }

    /// A bus around a parsed ROM, with every peripheral at power-on.
    pub fn new(rom: Rom) -> (r: GBSystem)
        requires
            rom.wf(),
        ensures
            r.wf(),
            r.mbc.rom == rom,
            r.interrupt_regs == (InterruptRegisters {
                ienable: IORegister { data: 0, wmask: 0xff, rmask: 0xff },
                iflags: IORegister { data: 0, wmask: 0xff, rmask: 0xff },
            }),
    {
        GBSystem {
            mbc: MBC::new(rom),
            video: VideoData::new(),
            sound: SoundData::default(),
            interrupt_regs: InterruptRegisters::new(),
            joypad: Joypad::new(),
            wram0: WRAMBank::new(),
            wram1: WRAMBank::new(),
            timer_regs: TimerRegisters::new(),
            serial_regs: SerialRegisters::default(),
            zero_page: ZeroPageRAM::new(),
        }
    }


    /// Advance every peripheral by `delta` clocks: the PPU, the timer, and
    /// one OAM DMA byte per machine cycle.
    pub fn update(&mut self, delta: u32)
        requires
            old(self).wf(),
            delta % 4 == 0,
        ensures
            final(self).wf(),
            final(self)@ == spec_sys_update(old(self)@, delta),
    {
        proof {
            crate::video::lemma_video_ticks_oam(
                self@.video,
                self@.interrupt_regs.iflags.data,
                (delta / 4) as nat,
            );
        }
        self.video.update(delta, &mut self.interrupt_regs);
        self.timer_regs.update(delta, &mut self.interrupt_regs);
        let ghost s2 = self@;
        let n = delta / 4;
        let mut k: u32 = 0;
        while k < n
            invariant
                k <= n,
                self.wf(),
                self@ == spec_dma_steps(s2, k as nat),
            decreases n - k,
        {
            if self.video.oam.dma_transfer {
                let addr = self.video.oam.dma_addr;
                let data = self.read8(addr);
                let index = addr % 256;
                self.video.oam.write(index, data);
                if index + 1 == 0xa0 {
                    self.video.oam.dma_transfer = false;
                } else {
                    self.video.oam.dma_transfer = true;
                }
                self.video.oam.dma_addr = addr + 1;
            }
            k += 1;
        }
        proof {
            assert(final(self)@ == spec_sys_update(old(self)@, delta));
        }
    }

    /// A bus read: dispatch `addr` per the address map.
    pub fn read8(&self, addr: u16) -> (r: u8)
        requires
            self.wf(),
        ensures
            r == spec_sys_read8(self@, addr),
    {
        proof {
            reveal(spec_sys_read8);
        }
        if addr < 0x8000 {
            self.mbc.read(addr)
        } else if addr < 0xa000 {
            self.video.vram0.read(addr - 0x8000)
        } else if addr < 0xc000 {
            self.mbc.read(addr)
        } else if addr < 0xd000 {
            self.wram0.read(addr - 0xc000)
        } else if addr < 0xe000 {
            self.wram1.read(addr - 0xd000)
        } else if addr < 0xf000 {
            self.wram0.read(addr - 0xe000)
        } else if addr < 0xfe00 {
            self.wram1.read(addr - 0xf000)
        } else if addr < 0xfea0 {
            self.video.oam.read(addr - 0xfe00)
        } else if addr < 0xff00 {
            0xff
        } else if addr == 0xff00 {
            self.joypad.get_register()
        } else if addr == 0xff01 {
            self.serial_regs.data.read(addr)
        } else if addr == 0xff02 {
            self.serial_regs.control.read(addr)
        } else if addr == 0xff04 {
            self.timer_regs.read_divider()
        } else if addr == 0xff05 {
            self.timer_regs.read_counter()
        } else if addr == 0xff06 {
            self.timer_regs.modulo.read(addr)
        } else if addr == 0xff07 {
            self.timer_regs.control.read(addr)
        } else if addr == 0xff0f {
            self.interrupt_regs.iflags.read(addr)
        } else if 0xff10 <= addr && addr <= 0xff26 {
            self.read_sound(addr)
        } else if 0xff30 <= addr && addr < 0xff40 {
            self.sound.wave_ram.read(addr - 0xff30)
        } else if addr == 0xff40 {
            self.video.lcd_ctrl.read()
        } else if addr == 0xff41 {
            self.video.regs.lcd_status.read(addr)
        } else if addr == 0xff42 {
            self.video.regs.scy.read(addr)
        } else if addr == 0xff43 {
            self.video.regs.scx.read(addr)
        } else if addr == 0xff44 {
            self.video.regs.ly.read(addr)
        } else if addr == 0xff45 {
            self.video.regs.lyc.read(addr)
        } else if addr == 0xff46 {
            self.video.oam.dma_start_address()
        } else if addr == 0xff47 {
            self.video.get_bg_palette()
        } else if addr == 0xff48 {
            self.video.get_obp0_palette()
        } else if addr == 0xff49 {
            self.video.get_obp1_palette()
        } else if addr == 0xff4a {
            self.video.regs.wy.read(addr)
        } else if addr == 0xff4b {
            self.video.regs.wx.read(addr)
        } else if 0xff80 <= addr && addr < 0xffff {
            self.zero_page.read(addr - 0xff80)
        } else if addr == 0xffff {
            self.interrupt_regs.ienable.read(addr)
        } else {
            0xff
        }
    }

    /// A read of the sound register file (0xFF10-0xFF26).
    fn read_sound(&self, addr: u16) -> (r: u8)
        requires
            0xff10 <= addr <= 0xff26,
        ensures
            r == spec_sound_read(self.sound.regs, addr),
    {
        let regs = &self.sound.regs;
        if addr == 0xff10 {
            regs.ch1_sweep.read(addr)
        } else if addr == 0xff11 {
            regs.ch1_length_duty.read(addr)
        } else if addr == 0xff12 {
            regs.ch1_vol_env.read(addr)
        } else if addr == 0xff13 {
            regs.ch1_freq_low.read(addr)
        } else if addr == 0xff14 {
            regs.ch1_freq_high.read(addr)
        } else if addr == 0xff16 {
            regs.ch2_length_duty.read(addr)
        } else if addr == 0xff17 {
            regs.ch2_vol_env.read(addr)
        } else if addr == 0xff18 {
            regs.ch2_freq_low.read(addr)
        } else if addr == 0xff19 {
            regs.ch2_freq_high.read(addr)
        } else if addr == 0xff1a {
            regs.ch3_snd_on_off.read(addr)
        } else if addr == 0xff1b {
            regs.ch3_snd_length.read(addr)
        } else if addr == 0xff1c {
            regs.ch3_out_level.read(addr)
        } else if addr == 0xff1d {
            regs.ch3_freq_low.read(addr)
        } else if addr == 0xff1e {
            regs.ch3_freq_high.read(addr)
        } else if addr == 0xff20 {
            regs.ch4_snd_length.read(addr)
        } else if addr == 0xff21 {
            regs.ch4_vol_env.read(addr)
        } else if addr == 0xff22 {
            regs.ch4_poly_cnt.read(addr)
        } else if addr == 0xff23 {
            regs.ch4_cnt_init.read(addr)
        } else if addr == 0xff24 {
            regs.ctrl_vol.read(addr)
        } else if addr == 0xff25 {
            regs.ctrl_ch_mux.read(addr)
        } else if addr == 0xff26 {
            regs.ctrl_on_off.read(addr)
        } else {
            0xff
        }
    }

    /// A write to the sound register file (0xFF10-0xFF26).
    fn write_sound(&mut self, addr: u16, data: u8)
        requires
            0xff10 <= addr <= 0xff26,
        ensures
            *final(self) == (GBSystem {
                sound: SoundData {
                    regs: spec_sound_write(old(self).sound.regs, addr, data),
                    ..old(self).sound
                },
                ..*old(self)
            }),
    {
        let regs = &mut self.sound.regs;
        if addr == 0xff10 {
            regs.ch1_sweep.write(addr, data);
        } else if addr == 0xff11 {
            regs.ch1_length_duty.write(addr, data);
        } else if addr == 0xff12 {
            regs.ch1_vol_env.write(addr, data);
        } else if addr == 0xff13 {
            regs.ch1_freq_low.write(addr, data);
        } else if addr == 0xff14 {
            regs.ch1_freq_high.write(addr, data);
        } else if addr == 0xff16 {
            regs.ch2_length_duty.write(addr, data);
        } else if addr == 0xff17 {
            regs.ch2_vol_env.write(addr, data);
        } else if addr == 0xff18 {
            regs.ch2_freq_low.write(addr, data);
        } else if addr == 0xff19 {
            regs.ch2_freq_high.write(addr, data);
        } else if addr == 0xff1a {
            regs.ch3_snd_on_off.write(addr, data);
        } else if addr == 0xff1b {
            regs.ch3_snd_length.write(addr, data);
        } else if addr == 0xff1c {
            regs.ch3_out_level.write(addr, data);
        } else if addr == 0xff1d {
            regs.ch3_freq_low.write(addr, data);
        } else if addr == 0xff1e {
            regs.ch3_freq_high.write(addr, data);
        } else if addr == 0xff20 {
            regs.ch4_snd_length.write(addr, data);
        } else if addr == 0xff21 {
            regs.ch4_vol_env.write(addr, data);
        } else if addr == 0xff22 {
            regs.ch4_poly_cnt.write(addr, data);
        } else if addr == 0xff23 {
            regs.ch4_cnt_init.write(addr, data);
        } else if addr == 0xff24 {
            regs.ctrl_vol.write(addr, data);
        } else if addr == 0xff25 {
            regs.ctrl_ch_mux.write(addr, data);
        } else if addr == 0xff26 {
            regs.ctrl_on_off.write(addr, data);
        }
    }

    /// A bus write: dispatch `addr` per the address map.
    #[verifier::rlimit(60)]
    pub fn write8(&mut self, addr: u16, data: u8)
        requires
            old(self).wf(),
        ensures
            final(self).wf(),
            final(self)@ == spec_sys_write8(old(self)@, addr, data),
    {
        proof {
            reveal(spec_sys_write8);
        }
        if addr < 0x8000 {
            self.mbc.write(addr, data);
        } else if addr < 0xa000 {
            self.video.vram0.write(addr - 0x8000, data);
        } else if addr < 0xc000 {
            self.mbc.write(addr, data);
        } else if addr < 0xd000 {
            self.wram0.write(addr - 0xc000, data);
        } else if addr < 0xe000 {
            self.wram1.write(addr - 0xd000, data);
        } else if addr < 0xf000 {
            self.wram0.write(addr - 0xe000, data);
        } else if addr < 0xfe00 {
            self.wram1.write(addr - 0xf000, data);
        } else if addr < 0xfea0 {
            self.video.oam.write(addr - 0xfe00, data);
        } else if addr < 0xff00 {
        } else if addr == 0xff00 {
            self.joypad.set_register(data);
        } else if addr == 0xff01 {
            self.serial_regs.data.write(addr, data);
        } else if addr == 0xff02 {
            self.serial_regs.control.write(addr, data);
        } else if addr == 0xff04 {
            self.timer_regs.clear_divider(&mut self.interrupt_regs);
        } else if addr == 0xff05 {
            self.timer_regs.write_counter(data);
        } else if addr == 0xff06 {
            self.timer_regs.modulo.write(addr, data);
        } else if addr == 0xff07 {
            self.timer_regs.write_control(data, &mut self.interrupt_regs);
        } else if addr == 0xff0f {
            self.interrupt_regs.iflags.write(addr, data);
        } else if 0xff10 <= addr && addr <= 0xff26 {
            self.write_sound(addr, data);
        } else if 0xff30 <= addr && addr < 0xff40 {
            self.sound.wave_ram.write(addr - 0xff30, data);
        } else if addr == 0xff40 {
            self.video.lcd_ctrl.write(data);
        } else if addr == 0xff41 {
            self.video.regs.lcd_status.write(addr, data);
        } else if addr == 0xff42 {
            self.video.regs.scy.write(addr, data);
        } else if addr == 0xff43 {
            self.video.regs.scx.write(addr, data);
        } else if addr == 0xff44 {
            // LY is read-only: the masked write keeps the stored value.
            proof {
                crate::ioregister::lemma_io_write_trivial_masks(self.video.regs.ly.data, data);
            }
            self.video.regs.ly.write(addr, data);
        } else if addr == 0xff45 {
            self.video.regs.lyc.write(addr, data);
        } else if addr == 0xff46 {
            self.video.oam.trigger_dma(data);
        } else if addr == 0xff47 {
            self.video.set_bg_palette(data);
        } else if addr == 0xff48 {
            self.video.set_obp0_palette(data);
        } else if addr == 0xff49 {
            self.video.set_obp1_palette(data);
        } else if addr == 0xff4a {
            self.video.regs.wy.write(addr, data);
        } else if addr == 0xff4b {
            self.video.regs.wx.write(addr, data);
        } else if 0xff80 <= addr && addr < 0xffff {
            self.zero_page.write(addr - 0xff80, data);
        } else if addr == 0xffff {
            self.interrupt_regs.ienable.write(addr, data);
        }
    }

    /// A little-endian 16-bit bus read.
    pub fn read16(&self, addr: u16) -> (r: u16)
        requires
            self.wf(),
        ensures
            r == spec_sys_read16(self@, addr),
    {
        proof {
            reveal(spec_sys_read16);
        }
        let lo = self.read8(addr);
        let hi = self.read8(if addr == 0xffff {
            0
        } else {
            addr + 1
        });
        (lo as u16) + 256 * (hi as u16)
    }

    /// A little-endian 16-bit bus write: low byte first.
    #[verifier::rlimit(100)]
    pub fn write16(&mut self, addr: u16, data: u16)
        requires
            old(self).wf(),
        ensures
            final(self).wf(),
            final(self)@ == spec_sys_write16(old(self)@, addr, data),
    {
        proof {
            reveal(spec_sys_write16);
        }
        self.write8(addr, (data % 256) as u8);
        self.write8(
            if addr == 0xffff {
                0
            } else {
                addr + 1
            },
            (data / 256) as u8,
        );
    }
}

/// One machine cycle of the OAM DMA engine: while a transfer is active, one
/// byte moves from the source address into OAM, and the transfer ends after
/// byte 0x9F.
pub open spec fn spec_dma_step(s: SysView) -> SysView {
    if s.video.oam.dma_transfer {
        let addr = s.video.oam.dma_addr;
        let data = spec_sys_read8(s, addr);
        let index = addr % 256;
        let oam2 = spec_oam_write(s.video.oam, (addr % 256) as u16, data);
        let oam3 = OAMView {
            dma_transfer: index + 1 != 0xa0,
            dma_addr: ((addr + 1) % 0x10000) as u16,
            ..oam2
        };
        SysView { video: VideoView { oam: oam3, ..s.video }, ..s }
    } else {
        s
    }
}

/// `n` machine cycles of the OAM DMA engine.
pub open spec fn spec_dma_steps(s: SysView, n: nat) -> SysView
    decreases n,
{
    if n == 0 {
        s
    } else {
        spec_dma_step(spec_dma_steps(s, (n - 1) as nat))
    }
}

/// The bus after `delta` clocks: the PPU and the timer advance (each may
/// raise interrupt flags), then any in-progress OAM DMA copies one byte per
/// machine cycle.
pub open spec fn spec_sys_update(s: SysView, delta: u32) -> SysView {
    let v = spec_video_ticks(s.video, s.interrupt_regs.iflags.data, (delta / 4) as nat);
    let t = spec_timer_ticks(s.timer, v.1, delta as nat);
    let s2 = SysView {
        video: v.0,
        timer: t.0,
        interrupt_regs: InterruptRegisters {
            iflags: IORegister { data: t.1, ..s.interrupt_regs.iflags },
            ..s.interrupt_regs
        },
        ..s
    };
    spec_dma_steps(s2, (delta / 4) as nat)
}

} // verus!
