//! The sound registers and wave RAM.  Memory-mapped storage only: this core
//! produces no audio, but programs read back what they wrote, through the
//! masks the hardware applies.

use vstd::prelude::*;
use crate::ioregister::IORegister;

verus! {

/// The 16 bytes of wave-pattern RAM at 0xFF30-0xFF3F.
pub struct WaveRAM(pub Vec<u8>);

/// The sound channel and control registers, each behind its hardware
/// write/read mask.
pub struct SoundRegisters {
    // control registers
    pub ctrl_vol: IORegister,
    pub ctrl_ch_mux: IORegister,
    pub ctrl_on_off: IORegister,
    // channel registers
    pub ch1_sweep: IORegister,
    pub ch1_length_duty: IORegister,
    pub ch1_vol_env: IORegister,
    pub ch1_freq_low: IORegister,
    pub ch1_freq_high: IORegister,
    pub ch2_length_duty: IORegister,
    pub ch2_vol_env: IORegister,
    pub ch2_freq_low: IORegister,
    pub ch2_freq_high: IORegister,
    pub ch3_snd_on_off: IORegister,
    pub ch3_snd_length: IORegister,
    pub ch3_out_level: IORegister,
    pub ch3_freq_low: IORegister,
    pub ch3_freq_high: IORegister,
    pub ch4_snd_length: IORegister,
    pub ch4_vol_env: IORegister,
    pub ch4_poly_cnt: IORegister,
    pub ch4_cnt_init: IORegister,
}

/// All sound state: the register file and the wave RAM.
pub struct SoundData {
    pub regs: SoundRegisters,
    pub wave_ram: WaveRAM,
}

impl WaveRAM {
    pub open spec fn wf(self) -> bool {
        self.0@.len() == 16
    }

    pub fn read(&self, addr: u16) -> (r: u8)
        requires
            self.wf(),
            addr < 16,
        ensures
            r == self.0@[addr as int],
    {
        self.0[addr as usize]
    }

    pub fn write(&mut self, addr: u16, data: u8)
        requires
            old(self).wf(),
            addr < 16,
        ensures
            final(self).wf(),
            final(self).0@ == old(self).0@.update(addr as int, data),
    {
        self.0[addr as usize] = data;
    }
}

impl Default for SoundData {
    fn default() -> (r: SoundData)
        ensures
            r.wave_ram.wf(),
            forall|i: int| 0 <= i < 16 ==> r.wave_ram.0@[i] == 0u8,
            r.regs == SoundRegisters::spec_default(),
    {
        let mut wave: Vec<u8> = Vec::new();
        let mut i: usize = 0;
        while i < 16
            invariant
                i <= 16,
                wave@.len() == i,
                forall|j: int| 0 <= j < i ==> wave@[j] == 0u8,
            decreases 16 - i,
        {
            wave.push(0);
            i += 1;
        }
        SoundData { regs: SoundRegisters::default(), wave_ram: WaveRAM(wave) }
    }
}

impl SoundRegisters {
    /// The power-on register file, with the hardware masks: frequency-low
    /// registers are write-only, frequency-high registers expose only the
    /// length-enable bit on reads, and so on.
    pub open spec fn spec_default() -> SoundRegisters {
        SoundRegisters {
            ctrl_on_off: IORegister { data: 0, wmask: 0x80, rmask: 0xff },
            ctrl_ch_mux: IORegister { data: 0, wmask: 0xff, rmask: 0xff },
            ctrl_vol: IORegister { data: 0, wmask: 0xff, rmask: 0xff },
            ch1_sweep: IORegister { data: 0, wmask: 0x7f, rmask: 0xff },
            ch1_length_duty: IORegister { data: 0, wmask: 0xff, rmask: 0xc0 },
            ch1_vol_env: IORegister { data: 0, wmask: 0xff, rmask: 0xff },
            ch1_freq_low: IORegister { data: 0, wmask: 0xff, rmask: 0x00 },
            ch1_freq_high: IORegister { data: 0, wmask: 0xc7, rmask: 0x40 },
            ch2_length_duty: IORegister { data: 0, wmask: 0xff, rmask: 0xc0 },
            ch2_vol_env: IORegister { data: 0, wmask: 0xff, rmask: 0xff },
            ch2_freq_low: IORegister { data: 0, wmask: 0xff, rmask: 0x00 },
            ch2_freq_high: IORegister { data: 0, wmask: 0xc7, rmask: 0x40 },
            ch3_snd_on_off: IORegister { data: 0, wmask: 0x80, rmask: 0xff },
            ch3_snd_length: IORegister { data: 0, wmask: 0xff, rmask: 0xff },
            ch3_out_level: IORegister { data: 0, wmask: 0x60, rmask: 0xff },
            ch3_freq_low: IORegister { data: 0, wmask: 0xff, rmask: 0x00 },
            ch3_freq_high: IORegister { data: 0, wmask: 0xc7, rmask: 0x40 },
            ch4_snd_length: IORegister { data: 0, wmask: 0x3f, rmask: 0xff },
            ch4_vol_env: IORegister { data: 0, wmask: 0xff, rmask: 0xff },
            ch4_poly_cnt: IORegister { data: 0, wmask: 0xff, rmask: 0xff },
            ch4_cnt_init: IORegister { data: 0, wmask: 0xc0, rmask: 0x40 },
        }
    }
}

impl Default for SoundRegisters {
    fn default() -> (r: SoundRegisters)
        ensures
            r == Self::spec_default(),
    {
        SoundRegisters {
            ctrl_on_off: IORegister::new().write_mask(0x80),
            ctrl_ch_mux: IORegister::new(),
            ctrl_vol: IORegister::new(),
            ch1_sweep: IORegister::new().write_mask(0x7f),
            ch1_length_duty: IORegister::new().read_mask(0xc0),
            ch1_vol_env: IORegister::new(),
            ch1_freq_low: IORegister::new().write_only(),
            ch1_freq_high: IORegister::new().write_mask(0xc7).read_mask(0x40),
            ch2_length_duty: IORegister::new().read_mask(0xc0),
            ch2_vol_env: IORegister::new(),
            ch2_freq_low: IORegister::new().write_only(),
            ch2_freq_high: IORegister::new().write_mask(0xc7).read_mask(0x40),
            ch3_snd_on_off: IORegister::new().write_mask(0x80),
            ch3_snd_length: IORegister::new(),
            ch3_out_level: IORegister::new().write_mask(0x60),
            ch3_freq_low: IORegister::new().write_only(),
            ch3_freq_high: IORegister::new().write_mask(0xc7).read_mask(0x40),
            ch4_snd_length: IORegister::new().write_mask(0x3f),
            ch4_vol_env: IORegister::new(),
            ch4_poly_cnt: IORegister::new(),
            ch4_cnt_init: IORegister::new().write_mask(0xc0).read_mask(0x40),
        }
    }
}

} // verus!
