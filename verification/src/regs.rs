//! The CPU register file: four 16-bit register pairs `AF`, `BC`, `DE`, `HL`,
//! the stack pointer, the program counter and the interrupt master enable.
//!
//! The four condition flags are stored as booleans, so the low four bits of
//! the flag byte `F` are zero by construction, as on the hardware.

use vstd::prelude::*;

verus! {

/// A 16-bit register value.
pub type Register = u16;

/// Byte access into a 16-bit register value.
pub trait Contents {
    fn low(&self) -> (r: u8)
        ensures
            r == *self.view_word() % 256,
    ;

    fn high(&self) -> (r: u8)
        ensures
            r == *self.view_word() / 256,
    ;

    fn set_low(&mut self, value: u8)
        ensures
            *final(self).view_word() == *old(self).view_word() / 256 * 256 + value,
    ;

    fn set_high(&mut self, value: u8)
        ensures
            *final(self).view_word() == value * 256 + *old(self).view_word() % 256,
    ;

    spec fn view_word(&self) -> &u16;
}

impl Contents for Register {
    fn low(&self) -> (r: u8) {
        (*self % 256) as u8
    }

    fn high(&self) -> (r: u8) {
        (*self / 256) as u8
    }

    fn set_low(&mut self, value: u8) {
        *self = *self / 256 * 256 + (value as u16);
    }

    fn set_high(&mut self, value: u8) {
        *self = (value as u16) * 256 + *self % 256;
    }

    open spec fn view_word(&self) -> &u16 {
        self
    }
}

/// Bit position of the carry flag C inside `F`.
pub const CARRY_FLAG: u16 = 4;

/// Bit position of the half-carry flag H inside `F`.
pub const HALFCARRY_FLAG: u16 = 5;

/// Bit position of the subtraction flag N inside `F`.
pub const SUB_FLAG: u16 = 6;

/// Bit position of the zero flag Z inside `F`.
pub const ZERO_FLAG: u16 = 7;

/// One of the seven 8-bit registers.
#[derive(Debug, PartialEq, Eq, Structural, Copy, Clone)]
pub enum Reg8Operand {
    A,
    B,
    C,
    D,
    E,
    H,
    L,
}

/// One of the six 16-bit register pairs.
#[derive(Debug, PartialEq, Eq, Structural, Copy, Clone)]
pub enum Reg16Operand {
    Af,
    Bc,
    De,
    Hl,
    Sp,
    Pc,
}

/// A branch condition: unconditional, or one of the Z/C flag tests.
#[derive(Debug, PartialEq, Eq, Structural, Copy, Clone)]
pub enum CCOperand {
    Always,
    Z,
    Nz,
    C,
    Nc,
}

/// The register file.  The flag byte is kept as four booleans, one per
/// hardware flag; its low nibble therefore reads zero always.
#[derive(Debug, PartialEq, Eq, Structural, Copy, Clone)]
pub struct GBRegisters {
    pub a: u8,
    pub b: u8,
    pub c: u8,
    pub d: u8,
    pub e: u8,
    pub h: u8,
    pub l: u8,
    /// Zero flag Z (bit 7 of `F`).
    pub f_z: bool,
    /// Subtraction flag N (bit 6 of `F`).
    pub f_n: bool,
    /// Half-carry flag H (bit 5 of `F`).
    pub f_h: bool,
    /// Carry flag C (bit 4 of `F`).
    pub f_c: bool,
    pub sp: u16,
    pub pc: u16,
    /// Interrupt master enable.  Held with the registers but not
    /// memory-mapped.
    pub ime: bool,
}

impl GBRegisters {
    /// The flag byte `F`: Z, N, H, C in bits 7..4, low nibble zero.
    pub open spec fn spec_f(self) -> u8 {
        ((if self.f_z {
            0x80u16
        } else {
            0
        }) + (if self.f_n {
            0x40u16
        } else {
            0
        }) + (if self.f_h {
            0x20u16
        } else {
            0
        }) + (if self.f_c {
            0x10u16
        } else {
            0
        })) as u8
    }

    /// What a 16-bit register pair holds.
    pub open spec fn spec_get16(self, reg: Reg16Operand) -> u16 {
        match reg {
            Reg16Operand::Af => (self.a * 256 + self.spec_f()) as u16,
            Reg16Operand::Bc => (self.b * 256 + self.c) as u16,
            Reg16Operand::De => (self.d * 256 + self.e) as u16,
            Reg16Operand::Hl => (self.h * 256 + self.l) as u16,
            Reg16Operand::Sp => self.sp,
            Reg16Operand::Pc => self.pc,
        }
    }

    /// What an 8-bit register holds.
    pub open spec fn spec_get8(self, reg: Reg8Operand) -> u8 {
        match reg {
            Reg8Operand::A => self.a,
            Reg8Operand::B => self.b,
            Reg8Operand::C => self.c,
            Reg8Operand::D => self.d,
            Reg8Operand::E => self.e,
            Reg8Operand::H => self.h,
            Reg8Operand::L => self.l,
        }
    }

    /// The register file after storing `val` into an 8-bit register.
    pub open spec fn spec_set8(self, reg: Reg8Operand, val: u8) -> GBRegisters {
        match reg {
            Reg8Operand::A => GBRegisters { a: val, ..self },
            Reg8Operand::B => GBRegisters { b: val, ..self },
            Reg8Operand::C => GBRegisters { c: val, ..self },
            Reg8Operand::D => GBRegisters { d: val, ..self },
            Reg8Operand::E => GBRegisters { e: val, ..self },
            Reg8Operand::H => GBRegisters { h: val, ..self },
            Reg8Operand::L => GBRegisters { l: val, ..self },
        }
    }

    /// The register file after storing `val` into a 16-bit register pair.
    /// A store to `AF` drops the low nibble of `F`, as the hardware does.
    pub open spec fn spec_set16(self, reg: Reg16Operand, val: u16) -> GBRegisters {
        match reg {
            Reg16Operand::Af => GBRegisters {
                a: (val / 256) as u8,
                f_z: val / 128 % 2 == 1,
                f_n: val / 64 % 2 == 1,
                f_h: val / 32 % 2 == 1,
                f_c: val / 16 % 2 == 1,
                ..self
            },
            Reg16Operand::Bc => GBRegisters { b: (val / 256) as u8, c: (val % 256) as u8, ..self },
            Reg16Operand::De => GBRegisters { d: (val / 256) as u8, e: (val % 256) as u8, ..self },
            Reg16Operand::Hl => GBRegisters { h: (val / 256) as u8, l: (val % 256) as u8, ..self },
            Reg16Operand::Sp => GBRegisters { sp: val, ..self },
            Reg16Operand::Pc => GBRegisters { pc: val, ..self },
        }
    }

    /// Whether a branch condition holds of the current flags.
    pub open spec fn spec_cc_satisfied(self, cond: CCOperand) -> bool {
        match cond {
            CCOperand::Z => self.f_z,
            CCOperand::Nz => !self.f_z,
            CCOperand::C => self.f_c,
            CCOperand::Nc => !self.f_c,
            CCOperand::Always => true,
        }
    }

    /// The boot-ROM post-state: the register values the hardware leaves
    /// behind before the cartridge's entry point at 0x100 runs.
    pub open spec fn spec_reset() -> GBRegisters {
        GBRegisters {
            a: 0x01,
            f_z: true,
            f_n: false,
            f_h: true,
            f_c: true,
            b: 0x00,
            c: 0x13,
            d: 0x00,
            e: 0xd8,
            h: 0x01,
            l: 0x4d,
            sp: 0xfffe,
            pc: 0x100,
            ime: false,
        }
    }

    pub fn new() -> (r: GBRegisters)
        ensures
            r == Self::spec_reset(),
    {
        GBRegisters {
            a: 0x01,
            f_z: true,
            f_n: false,
            f_h: true,
            f_c: true,
            b: 0x00,
            c: 0x13,
            d: 0x00,
            e: 0xd8,
            h: 0x01,
            l: 0x4d,
            sp: 0xfffe,
            pc: 0x100,
            ime: false,
        }
    }

    /// Restore the boot-ROM post-state: PC at the cartridge entry point,
    /// AF=0x01B0, BC=0x0013, DE=0x00D8, HL=0x014D, SP=0xFFFE, IME off.
    pub fn reset(&mut self)
        ensures
            *final(self) == Self::spec_reset(),
    {
        *self = GBRegisters::new();
    }

    /// The flag byte `F`.
    pub fn f(&self) -> (r: u8)
        ensures
            r == self.spec_f(),
    {
        let mut r: u16 = 0;
        if self.f_z {
            r += 0x80;
        }
        if self.f_n {
            r += 0x40;
        }
        if self.f_h {
            r += 0x20;
        }
        if self.f_c {
            r += 0x10;
        }
        r as u8
    }

    pub fn get8(&self, reg: Reg8Operand) -> (r: u8)
        ensures
            r == self.spec_get8(reg),
    {
        match reg {
            Reg8Operand::A => self.a,
            Reg8Operand::B => self.b,
            Reg8Operand::C => self.c,
            Reg8Operand::D => self.d,
            Reg8Operand::E => self.e,
            Reg8Operand::H => self.h,
            Reg8Operand::L => self.l,
        }
    }

    pub fn set8(&mut self, reg: Reg8Operand, val: u8)
        ensures
            *final(self) == old(self).spec_set8(reg, val),
    {
        match reg {
            Reg8Operand::A => self.a = val,
            Reg8Operand::B => self.b = val,
            Reg8Operand::C => self.c = val,
            Reg8Operand::D => self.d = val,
            Reg8Operand::E => self.e = val,
            Reg8Operand::H => self.h = val,
            Reg8Operand::L => self.l = val,
        }
    }

    pub fn get16(&self, reg: Reg16Operand) -> (r: u16)
        ensures
            r == self.spec_get16(reg),
    {
        match reg {
            Reg16Operand::Af => (self.a as u16) * 256 + (self.f() as u16),
            Reg16Operand::Bc => (self.b as u16) * 256 + (self.c as u16),
            Reg16Operand::De => (self.d as u16) * 256 + (self.e as u16),
            Reg16Operand::Hl => (self.h as u16) * 256 + (self.l as u16),
            Reg16Operand::Sp => self.sp,
            Reg16Operand::Pc => self.pc,
        }
    }

    pub fn set16(&mut self, reg: Reg16Operand, val: u16)
        ensures
            *final(self) == old(self).spec_set16(reg, val),
    {
        match reg {
            Reg16Operand::Af => {
                self.a = (val / 256) as u8;
                self.f_z = val / 128 % 2 == 1;
                self.f_n = val / 64 % 2 == 1;
                self.f_h = val / 32 % 2 == 1;
                self.f_c = val / 16 % 2 == 1;
            },
            Reg16Operand::Bc => {
                self.b = (val / 256) as u8;
                self.c = (val % 256) as u8;
            },
            Reg16Operand::De => {
                self.d = (val / 256) as u8;
                self.e = (val % 256) as u8;
            },
            Reg16Operand::Hl => {
                self.h = (val / 256) as u8;
                self.l = (val % 256) as u8;
            },
            Reg16Operand::Sp => self.sp = val,
            Reg16Operand::Pc => self.pc = val,
        }
    }

    /// The register file after forcing one flag bit.
    pub open spec fn spec_set_flag(self, flag: u16, v: bool) -> GBRegisters {
        if flag == ZERO_FLAG {
            GBRegisters { f_z: v, ..self }
        } else if flag == SUB_FLAG {
            GBRegisters { f_n: v, ..self }
        } else if flag == HALFCARRY_FLAG {
            GBRegisters { f_h: v, ..self }
        } else if flag == CARRY_FLAG {
            GBRegisters { f_c: v, ..self }
        } else {
            self
        }
    }

    /// Force one of the four condition flags.
    pub fn set_flag(&mut self, flag: u16, v: bool)
        requires
            flag == CARRY_FLAG || flag == HALFCARRY_FLAG || flag == SUB_FLAG || flag == ZERO_FLAG,
        ensures
            *final(self) == old(self).spec_set_flag(flag, v),
    {
        if flag == ZERO_FLAG {
            self.f_z = v;
        } else if flag == SUB_FLAG {
            self.f_n = v;
        } else if flag == HALFCARRY_FLAG {
            self.f_h = v;
        } else {
            self.f_c = v;
        }
    }

    pub fn z_flag(&self) -> (r: bool)
        ensures
            r == self.f_z,
    {
        self.f_z
    }

    pub fn c_flag(&self) -> (r: bool)
        ensures
            r == self.f_c,
    {
        self.f_c
    }

    pub fn n_flag(&self) -> (r: bool)
        ensures
            r == self.f_n,
    {
        self.f_n
    }

    pub fn h_flag(&self) -> (r: bool)
        ensures
            r == self.f_h,
    {
        self.f_h
    }

    pub fn cc_satisfied(&self, cond: CCOperand) -> (r: bool)
        ensures
            r == self.spec_cc_satisfied(cond),
    {
        match cond {
            CCOperand::Z => self.f_z,
            CCOperand::Nz => !self.f_z,
            CCOperand::C => self.f_c,
            CCOperand::Nc => !self.f_c,
            CCOperand::Always => true,
        }
    }
}

} // verus!
