//! The CPU: the register file, the halt/stop latches, instruction fetch,
//! and the tick loop that drives the peripherals.

use vstd::prelude::*;
use crate::decode::{decode, spec_decode};
use crate::instruction::Instruction;
use crate::regs::GBRegisters;
use crate::rom::Rom;
use crate::system::{spec_sys_read8, GBSystem};

verus! {

/// The processor state outside the bus: registers and the halt/stop
/// latches.
pub struct CPU {
    pub regs: GBRegisters,
    pub halt_mode: bool,
    pub stop_mode: bool,
}

impl CPU {
    /// A CPU in the boot-ROM post-state, not halted.
    pub fn new() -> (r: CPU)
        ensures
            r.regs == GBRegisters::spec_reset(),
            !r.halt_mode,
            !r.stop_mode,
    {
        CPU { regs: GBRegisters::new(), halt_mode: false, stop_mode: false }
    }

    /// Reset the register file to the boot-ROM post-state.
    pub fn reset(&mut self)
        ensures
            final(self).regs == GBRegisters::spec_reset(),
            final(self).halt_mode == old(self).halt_mode,
            final(self).stop_mode == old(self).stop_mode,
    {
        self.regs.reset();
    }

    /// Fetch the three consecutive bytes at `addr`; the addresses wrap.
    pub fn fetch(&self, addr: u16, sys: &GBSystem) -> (r: [u8; 3])
        requires
            sys.wf(),
        ensures
            r[0] == spec_sys_read8(sys@, addr),
            r[1] == spec_sys_read8(sys@, ((addr + 1) % 0x10000) as u16),
            r[2] == spec_sys_read8(sys@, ((addr + 2) % 0x10000) as u16),
    {
        let a1: u16 = if addr == 0xffff {
            0
        } else {
            addr + 1
        };
        let a2: u16 = if a1 == 0xffff {
            0
        } else {
            a1 + 1
        };
        [sys.read8(addr), sys.read8(a1), sys.read8(a2)]
    }

    /// Decode three fetched bytes.
    pub fn decode(&self, opcode: [u8; 3]) -> (r: Instruction)
        ensures
            r == spec_decode(
                opcode[0],
                opcode[1],
                ((opcode[2] as u16) * 256 + opcode[1]) as u16,
            ),
            crate::decode::insn_wf(r),
    {
        decode(opcode)
    }
}

/// Build the whole machine around a parsed ROM: the CPU in its boot-ROM
/// post-state and the bus with every peripheral at power-on.
pub fn init(rom: Rom) -> (r: (CPU, GBSystem))
    requires
        rom.wf(),
    ensures
        r.0.regs == GBRegisters::spec_reset(),
        !r.0.halt_mode,
        !r.0.stop_mode,
        r.1.wf(),
        r.1.mbc.rom == rom,
{
    let sys = GBSystem::new(rom);
    (CPU::new(), sys)
}

} // verus!
