//! The joypad: two key nibbles (1 = released, 0 = pressed) behind the JOYP
//! select bits, raising the joypad interrupt on key release, as the
//! hardware this core reproduces does.

use vstd::prelude::*;
use crate::interrupt::{InterruptRegisters, INTERRUPT_JOYPAD};

verus! {

/// JOYP bit 4: the action keys A/B/Select/Start are selected.
pub const SELECT_BUTTON_KEYS: u8 = 0x10;

/// JOYP bit 5: the direction keys are selected.
pub const SELECT_DIR_KEYS: u8 = 0x20;

/// Joypad state: the two select bits and the two key nibbles.
#[derive(Debug, PartialEq, Eq, Structural, Copy, Clone)]
pub struct Joypad {
    /// JOYP bits 4..5 as last written.
    pub sel_mask: u8,
    /// Right, Left, Up, Down in bits 0..3; 1 = released.
    pub dir_keys: u8,
    /// A, B, Select, Start in bits 0..3; 1 = released.
    pub btn_keys: u8,
}

/// A key nibble after a key changes state: releasing sets its bit,
/// pressing clears it.
pub open spec fn spec_key_nibble(keys: u8, bit: u8, pressed: bool) -> u8 {
    if pressed {
        if keys / bit % 2 == 1 {
            (keys - bit) as u8
        } else {
            keys
        }
    } else {
        if keys / bit % 2 == 1 {
            keys
        } else {
            (keys + bit) as u8
        }
    }
}

/// What a read of JOYP (0xFF00) returns: the select bits, plus the selected
/// key nibble; with neither group selected the low nibble reads released.
pub open spec fn spec_joyp(j: Joypad) -> u8 {
    if j.sel_mask / 16 % 2 == 1 {
        (j.sel_mask + j.btn_keys) as u8
    } else if j.sel_mask / 32 % 2 == 1 {
        (j.sel_mask + j.dir_keys) as u8
    } else {
        (j.sel_mask + 0x0f) as u8
    }
}

impl Joypad {
    /// Key nibbles within range, select bits alone in the select byte.
    pub open spec fn wf(self) -> bool {
        &&& self.dir_keys <= 0x0f
        &&& self.btn_keys <= 0x0f
        &&& self.sel_mask % 16 == 0
        &&& self.sel_mask <= 0x30
    }

    /// All keys released, nothing selected.
    pub fn new() -> (r: Joypad)
        ensures
            r == (Joypad { sel_mask: 0, dir_keys: 0x0f, btn_keys: 0x0f }),
            r.wf(),
    {
        Joypad { sel_mask: 0, dir_keys: 0x0f, btn_keys: 0x0f }
    }

    /// A CPU read of JOYP (0xFF00).
    pub fn get_register(&self) -> (r: u8)
        requires
            self.wf(),
        ensures
            r == spec_joyp(*self),
    {
        if self.sel_mask / 16 % 2 == 1 {
            self.sel_mask + self.btn_keys
        } else if self.sel_mask / 32 % 2 == 1 {
            self.sel_mask + self.dir_keys
        } else {
            self.sel_mask + 0x0f
        }
    }

    /// A CPU write to JOYP (0xFF00): only the two select bits stick.
    pub fn set_register(&mut self, data: u8)
        ensures
            *final(self) == (Joypad { sel_mask: (data / 16 % 4 * 16) as u8, ..*old(self) }),
            old(self).wf() ==> final(self).wf(),
    {
        self.sel_mask = data / 16 % 4 * 16;
    }

    fn key_event(&mut self, dir: bool, bit: u8, pressed: bool, iregs: &mut InterruptRegisters)
        requires
            old(self).wf(),
            bit == 1 || bit == 2 || bit == 4 || bit == 8,
        ensures
            final(self).wf(),
            final(self).sel_mask == old(self).sel_mask,
            final(self).dir_keys == if dir {
                spec_key_nibble(old(self).dir_keys, bit, pressed)
            } else {
                old(self).dir_keys
            },
            final(self).btn_keys == if dir {
                old(self).btn_keys
            } else {
                spec_key_nibble(old(self).btn_keys, bit, pressed)
            },
            *final(iregs) == if pressed {
                *old(iregs)
            } else {
                old(iregs).spec_request(INTERRUPT_JOYPAD)
            },
    {
        let keys = if dir {
            self.dir_keys
        } else {
            self.btn_keys
        };
        let updated = if pressed {
            if keys / bit % 2 == 1 {
                keys - bit
            } else {
                keys
            }
        } else {
            if keys / bit % 2 == 1 {
                keys
            } else {
                keys + bit
            }
        };
        if dir {
            self.dir_keys = updated;
        } else {
            self.btn_keys = updated;
        }
        if !pressed {
            iregs.request(INTERRUPT_JOYPAD);
        }
        proof {
            assert(updated <= 0x0f) by (nonlinear_arith)
                requires
                    keys <= 0x0f,
                    bit == 1 || bit == 2 || bit == 4 || bit == 8,
                    updated == spec_key_nibble(keys, bit, pressed),
            ;
        }
    }

    /// The Start key changed state; releasing it raises the joypad
    /// interrupt.
    pub fn set_start_pressed(&mut self, pressed: bool, iregs: &mut InterruptRegisters)
        requires
            old(self).wf(),
        ensures
            final(self).wf(),
            final(self).sel_mask == old(self).sel_mask,
            final(self).dir_keys == old(self).dir_keys,
            final(self).btn_keys == spec_key_nibble(old(self).btn_keys, 8, pressed),
            *final(iregs) == if pressed {
                *old(iregs)
            } else {
                old(iregs).spec_request(INTERRUPT_JOYPAD)
            },
    {
        self.key_event(false, 8, pressed, iregs)
    }

    /// The Select key changed state.
    pub fn set_select_pressed(&mut self, pressed: bool, iregs: &mut InterruptRegisters)
        requires
            old(self).wf(),
        ensures
            final(self).wf(),
            final(self).sel_mask == old(self).sel_mask,
            final(self).dir_keys == old(self).dir_keys,
            final(self).btn_keys == spec_key_nibble(old(self).btn_keys, 4, pressed),
            *final(iregs) == if pressed {
                *old(iregs)
            } else {
                old(iregs).spec_request(INTERRUPT_JOYPAD)
            },
    {
        self.key_event(false, 4, pressed, iregs)
    }

    /// The A key changed state.
    pub fn set_a_pressed(&mut self, pressed: bool, iregs: &mut InterruptRegisters)
        requires
            old(self).wf(),
        ensures
            final(self).wf(),
            final(self).sel_mask == old(self).sel_mask,
            final(self).dir_keys == old(self).dir_keys,
            final(self).btn_keys == spec_key_nibble(old(self).btn_keys, 1, pressed),
            *final(iregs) == if pressed {
                *old(iregs)
            } else {
                old(iregs).spec_request(INTERRUPT_JOYPAD)
            },
    {
        self.key_event(false, 1, pressed, iregs)
    }

    /// The B key changed state.
    pub fn set_b_pressed(&mut self, pressed: bool, iregs: &mut InterruptRegisters)
        requires
            old(self).wf(),
        ensures
            final(self).wf(),
            final(self).sel_mask == old(self).sel_mask,
            final(self).dir_keys == old(self).dir_keys,
            final(self).btn_keys == spec_key_nibble(old(self).btn_keys, 2, pressed),
            *final(iregs) == if pressed {
                *old(iregs)
            } else {
                old(iregs).spec_request(INTERRUPT_JOYPAD)
            },
    {
        self.key_event(false, 2, pressed, iregs)
    }

    /// The Up key changed state.
    pub fn set_up_pressed(&mut self, pressed: bool, iregs: &mut InterruptRegisters)
        requires
            old(self).wf(),
        ensures
            final(self).wf(),
            final(self).sel_mask == old(self).sel_mask,
            final(self).btn_keys == old(self).btn_keys,
            final(self).dir_keys == spec_key_nibble(old(self).dir_keys, 4, pressed),
            *final(iregs) == if pressed {
                *old(iregs)
            } else {
                old(iregs).spec_request(INTERRUPT_JOYPAD)
            },
    {
        self.key_event(true, 4, pressed, iregs)
    }

    /// The Down key changed state.
    pub fn set_down_pressed(&mut self, pressed: bool, iregs: &mut InterruptRegisters)
        requires
            old(self).wf(),
        ensures
            final(self).wf(),
            final(self).sel_mask == old(self).sel_mask,
            final(self).btn_keys == old(self).btn_keys,
            final(self).dir_keys == spec_key_nibble(old(self).dir_keys, 8, pressed),
            *final(iregs) == if pressed {
                *old(iregs)
            } else {
                old(iregs).spec_request(INTERRUPT_JOYPAD)
            },
    {
        self.key_event(true, 8, pressed, iregs)
    }

    /// The Left key changed state.
    pub fn set_left_pressed(&mut self, pressed: bool, iregs: &mut InterruptRegisters)
        requires
            old(self).wf(),
        ensures
            final(self).wf(),
            final(self).sel_mask == old(self).sel_mask,
            final(self).btn_keys == old(self).btn_keys,
            final(self).dir_keys == spec_key_nibble(old(self).dir_keys, 2, pressed),
            *final(iregs) == if pressed {
                *old(iregs)
            } else {
                old(iregs).spec_request(INTERRUPT_JOYPAD)
            },
    {
        self.key_event(true, 2, pressed, iregs)
    }

    /// The Right key changed state.
    pub fn set_right_pressed(&mut self, pressed: bool, iregs: &mut InterruptRegisters)
        requires
            old(self).wf(),
        ensures
            final(self).wf(),
            final(self).sel_mask == old(self).sel_mask,
            final(self).btn_keys == old(self).btn_keys,
            final(self).dir_keys == spec_key_nibble(old(self).dir_keys, 1, pressed),
            *final(iregs) == if pressed {
                *old(iregs)
            } else {
                old(iregs).spec_request(INTERRUPT_JOYPAD)
            },
    {
        self.key_event(true, 1, pressed, iregs)
    }
}

} // verus!
