//! The timer: a free-running 16-bit divider whose upper byte is DIV, and
//! the TIMA counter driven by a falling-edge detector on one divider bit.
//!
//! TAC selects divider bit 9, 3, 5 or 7 (i.e. every 1024, 16, 64 or 256
//! clocks) and gates it with the enable bit.  Whenever the gated bit falls,
//! TIMA increments; on overflow it reloads from TMA and raises the timer
//! interrupt.  Writing DIV zeroes the whole divider, and writing TAC can
//! reroute the detector; both may themselves produce a falling edge, which
//! increments TIMA immediately, as on hardware.

use vstd::prelude::*;
use crate::interrupt::{InterruptRegisters, INTERRUPT_TIMER};
use crate::ioregister::IORegister;

verus! {

/// The 16-bit divider as a register value (DIV is its upper byte).
pub struct DividerRegister(pub u16);

/// Timer state: divider, TIMA, TMA and TAC.
#[derive(Debug, PartialEq, Eq, Structural, Copy, Clone)]
pub struct TimerRegisters {
    /// The internal 16-bit counter; DIV reads its upper byte.
    pub divider: u16,
    /// TIMA, the timer counter (0xFF05).
    pub counter: u8,
    /// TMA, the modulo reloaded into TIMA on overflow (0xFF06).
    pub modulo: IORegister,
    /// TAC, the control register (0xFF07): bit 2 enables, bits 0..1 select.
    pub control: IORegister,
}

/// The divider bit TAC selects, as its place value: TAC bits 0..1 of 0, 1,
/// 2, 3 select bit 9, 3, 5 or 7, i.e. place value 512, 8, 32 or 128.
pub open spec fn spec_selected_divisor(control: u8) -> u16 {
    if control % 4 == 0 {
        512
    } else if control % 4 == 1 {
        8
    } else if control % 4 == 2 {
        32
    } else {
        128
    }
}

/// The selected divider bit of `divider` under `control`.
pub open spec fn spec_div_bit(divider: u16, control: u8) -> bool {
    divider / spec_selected_divisor(control) % 2 == 1
}

/// TAC bit 2: whether the timer counts at all.
pub open spec fn spec_timer_enabled(control: u8) -> bool {
    control / 4 % 2 == 1
}

/// TIMA stepped once: on overflow it reloads from TMA and raises the timer
/// interrupt bit in `iflags`.
pub open spec fn spec_increase_counter(t: TimerRegisters, iflags: u8) -> (TimerRegisters, u8) {
    if t.counter == 255 {
        (TimerRegisters { counter: t.modulo.data, ..t }, iflags | INTERRUPT_TIMER)
    } else {
        (TimerRegisters { counter: (t.counter + 1) as u8, ..t }, iflags)
    }
}

/// One clock: the divider advances by one, and a falling edge of the gated
/// selected bit steps TIMA.
pub open spec fn spec_timer_tick(t: TimerRegisters, iflags: u8) -> (TimerRegisters, u8) {
    let next = ((t.divider + 1) % 0x10000) as u16;
    let stepped = if spec_timer_enabled(t.control.data) && spec_div_bit(t.divider, t.control.data)
        && !spec_div_bit(next, t.control.data) {
        spec_increase_counter(t, iflags)
    } else {
        (t, iflags)
    };
    (TimerRegisters { divider: next, ..stepped.0 }, stepped.1)
}

/// `n` clocks of the timer.
pub open spec fn spec_timer_ticks(t: TimerRegisters, iflags: u8, n: nat) -> (TimerRegisters, u8)
    decreases n,
{
    if n == 0 {
        (t, iflags)
    } else {
        let prev = spec_timer_ticks(t, iflags, (n - 1) as nat);
        spec_timer_tick(prev.0, prev.1)
    }
}

/// A write to DIV: the divider resets to zero; a falling edge of the
/// gated selected bit steps TIMA first.
pub open spec fn spec_clear_divider(t: TimerRegisters, iflags: u8) -> (TimerRegisters, u8) {
    let stepped = if spec_timer_enabled(t.control.data) && spec_div_bit(t.divider, t.control.data) {
        spec_increase_counter(t, iflags)
    } else {
        (t, iflags)
    };
    (TimerRegisters { divider: 0, ..stepped.0 }, stepped.1)
}

/// A write to TAC: the masked write lands in the register; if the gated
/// selected bit falls because of the new routing, TIMA steps.
pub open spec fn spec_write_control(t: TimerRegisters, data: u8, iflags: u8) -> (TimerRegisters, u8) {
    let newc = t.control.spec_write(data).data;
    let oldc = t.control.data;
    let edge = (spec_timer_enabled(oldc) && spec_div_bit(t.divider, oldc)) && !(spec_timer_enabled(
        newc,
    ) && spec_div_bit(t.divider, newc));
    let stepped = if edge {
        spec_increase_counter(t, iflags)
    } else {
        (t, iflags)
    };
    (TimerRegisters { control: t.control.spec_write(data), ..stepped.0 }, stepped.1)
}

impl TimerRegisters {
    /// Power-on state: everything zero; only TAC bits 0..2 are writable.
    pub fn new() -> (r: TimerRegisters)
        ensures
            r.divider == 0,
            r.counter == 0,
            r.modulo == (IORegister { data: 0, wmask: 0xff, rmask: 0xff }),
            r.control == (IORegister { data: 0, wmask: 0x07, rmask: 0xff }),
    {
        TimerRegisters {
            divider: 0,
            counter: 0,
            modulo: IORegister::new(),
            control: IORegister::new().write_mask(0x07),
        }
    }

    /// The place value of the selected divider bit.
    pub fn selected_divisor(&self) -> (r: u16)
        ensures
            r == spec_selected_divisor(self.control.data),
    {
        let sel = self.control.data % 4;
        if sel == 0 {
            512
        } else if sel == 1 {
            8
        } else if sel == 2 {
            32
        } else {
            128
        }
    }

    /// Whether the selected, gated divider bit goes high-to-low when the
    /// divider changes to `new`.
    pub fn falling_edge(&self, new: u16) -> (r: bool)
        ensures
            r == (spec_div_bit(self.divider, self.control.data) && !spec_div_bit(
                new,
                self.control.data,
            )),
    {
        let divisor = self.selected_divisor();
        self.divider / divisor % 2 == 1 && !(new / divisor % 2 == 1)
    }

    /// Step TIMA once; overflow reloads TMA and raises the timer interrupt.
    pub fn increase_counter(&mut self, iregs: &mut InterruptRegisters)
        ensures
            (*final(self), final(iregs).iflags.data) == spec_increase_counter(
                *old(self),
                old(iregs).iflags.data,
            ),
            final(iregs).iflags.wmask == old(iregs).iflags.wmask,
            final(iregs).iflags.rmask == old(iregs).iflags.rmask,
            final(iregs).ienable == old(iregs).ienable,
    {
        if self.counter == 255 {
            self.counter = self.modulo.data;
            iregs.request(INTERRUPT_TIMER);
        } else {
            self.counter = self.counter + 1;
        }
    }

    /// Advance the timer by `delta` clocks, cycle by cycle.
    pub fn update(&mut self, delta: u32, iregs: &mut InterruptRegisters)
        ensures
            (*final(self), final(iregs).iflags.data) == spec_timer_ticks(
                *old(self),
                old(iregs).iflags.data,
                delta as nat,
            ),
            final(iregs).iflags.wmask == old(iregs).iflags.wmask,
            final(iregs).iflags.rmask == old(iregs).iflags.rmask,
            final(iregs).ienable == old(iregs).ienable,
    {
        self.update_cycle_by_cycle(delta, iregs)
    }

    /// The falling-edge detector run one clock at a time.
    pub fn update_cycle_by_cycle(&mut self, delta: u32, iregs: &mut InterruptRegisters)
        ensures
            (*final(self), final(iregs).iflags.data) == spec_timer_ticks(
                *old(self),
                old(iregs).iflags.data,
                delta as nat,
            ),
            final(iregs).iflags.wmask == old(iregs).iflags.wmask,
            final(iregs).iflags.rmask == old(iregs).iflags.rmask,
            final(iregs).ienable == old(iregs).ienable,
    {
        let timer_enabled = self.control.data / 4 % 2 == 1;
        let mut i: u32 = 0;
        while i < delta
            invariant
                i <= delta,
                timer_enabled == spec_timer_enabled(old(self).control.data),
                (*self, iregs.iflags.data) == spec_timer_ticks(
                    *old(self),
                    old(iregs).iflags.data,
                    i as nat,
                ),
                self.control == old(self).control,
                self.modulo == old(self).modulo,
                iregs.iflags.wmask == old(iregs).iflags.wmask,
                iregs.iflags.rmask == old(iregs).iflags.rmask,
                iregs.ienable == old(iregs).ienable,
            decreases delta - i,
        {
            let next_divider = if self.divider == 0xffff {
                0
            } else {
                self.divider + 1
            };
            if timer_enabled && self.falling_edge(next_divider) {
                self.increase_counter(iregs);
            }
            self.divider = next_divider;
            i += 1;
        }
    }

    /// A CPU write to TIMA (0xFF05).
    pub fn write_counter(&mut self, value: u8)
        ensures
            *final(self) == (TimerRegisters { counter: value, ..*old(self) }),
    {
        self.counter = value;
    }

    /// A CPU read of TIMA (0xFF05).
    pub fn read_counter(&self) -> (r: u8)
        ensures
            r == self.counter,
    {
        self.counter
    }

    /// A CPU write to DIV (0xFF04): the whole 16-bit divider resets to
    /// zero.  If the selected, gated bit was high, the detector sees a
    /// falling edge and TIMA increments immediately.
    pub fn clear_divider(&mut self, iregs: &mut InterruptRegisters)
        ensures
            (*final(self), final(iregs).iflags.data) == spec_clear_divider(
                *old(self),
                old(iregs).iflags.data,
            ),
            final(iregs).iflags.wmask == old(iregs).iflags.wmask,
            final(iregs).iflags.rmask == old(iregs).iflags.rmask,
            final(iregs).ienable == old(iregs).ienable,
    {
        let timer_enabled = self.control.data / 4 % 2 == 1;
        if timer_enabled && self.falling_edge(0) {
            self.increase_counter(iregs);
        }
        self.divider = 0;
    }

    /// A CPU read of DIV (0xFF04): the upper byte of the divider.
    pub fn read_divider(&self) -> (r: u8)
        ensures
            r == self.divider / 256,
    {
        (self.divider / 256) as u8
    }

    /// A CPU write to TAC (0xFF07).  Rerouting or disabling the detector
    /// while the selected bit is high produces a falling edge, and TIMA
    /// increments immediately, as on hardware.
    pub fn write_control(&mut self, data: u8, iregs: &mut InterruptRegisters)
        ensures
            (*final(self), final(iregs).iflags.data) == spec_write_control(
                *old(self),
                data,
                old(iregs).iflags.data,
            ),
            final(iregs).iflags.wmask == old(iregs).iflags.wmask,
            final(iregs).iflags.rmask == old(iregs).iflags.rmask,
            final(iregs).ienable == old(iregs).ienable,
    {
        let oldc = self.control.data;
        let old_bit = (oldc / 4 % 2 == 1) && self.divider / self.selected_divisor() % 2 == 1;
        self.control.write(0xff07, data);
        let newc = self.control.data;
        let new_bit = (newc / 4 % 2 == 1) && self.divider / self.selected_divisor() % 2 == 1;
        if old_bit && !new_bit {
            self.increase_counter(iregs);
        }
    }
}

} // verus!
