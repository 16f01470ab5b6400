//! Instruction operands: immediates, registers and the addressing forms of
//! the LR35902.

use vstd::prelude::*;
use vstd::string::StringSliceAdditionalSpecFns;
use crate::regs::{Reg16Operand, Reg8Operand};

verus! {

/// A decoded operand.  `MemIoImm` and `MemIoReg` address `0xFF00 + n`.
#[derive(Debug, PartialEq, Eq, Structural, Copy, Clone)]
pub enum Operand {
    Empty,
    Imm8(u8),
    Imm16(u16),
    Reg8(Reg8Operand),
    Reg16(Reg16Operand),
    MemImm(u16),
    MemReg(Reg16Operand),
    MemIoImm(u8),
    MemIoReg(Reg8Operand),
}

impl Reg16Operand {
    /// Parse a register-pair name as the debugger prompt writes it: one of
    /// "af", "bc", "de", "hl", "sp", "pc".  Unknown names yield `None`.
    pub fn from_str(name: &str) -> (r: Option<Reg16Operand>)
        ensures
            name.spec_bytes() == seq![0x61u8, 0x66u8] ==> r == Some(Reg16Operand::Af),
            name.spec_bytes() == seq![0x62u8, 0x63u8] ==> r == Some(Reg16Operand::Bc),
            name.spec_bytes() == seq![0x64u8, 0x65u8] ==> r == Some(Reg16Operand::De),
            name.spec_bytes() == seq![0x68u8, 0x6cu8] ==> r == Some(Reg16Operand::Hl),
            name.spec_bytes() == seq![0x73u8, 0x70u8] ==> r == Some(Reg16Operand::Sp),
            name.spec_bytes() == seq![0x70u8, 0x63u8] ==> r == Some(Reg16Operand::Pc),
    {
        let b = name.as_bytes();
        if b.len() != 2 {
            return None;
        }
        let pair = (b[0], b[1]);
        proof {
            assert(name.spec_bytes() =~= seq![b[0int], b[1int]]);
        }
        match pair {
            (0x61, 0x66) => Some(Reg16Operand::Af),
            (0x62, 0x63) => Some(Reg16Operand::Bc),
            (0x64, 0x65) => Some(Reg16Operand::De),
            (0x68, 0x6c) => Some(Reg16Operand::Hl),
            (0x73, 0x70) => Some(Reg16Operand::Sp),
            (0x70, 0x63) => Some(Reg16Operand::Pc),
            _ => None,
        }
    }
}

impl Reg8Operand {
    /// Parse an 8-bit register name as the debugger prompt writes it: one of
    /// "a", "b", "c", "d", "e", "h", "l".  Unknown names yield `None`.
    pub fn from_str(name: &str) -> (r: Option<Reg8Operand>)
        ensures
            name.spec_bytes() == seq![0x61u8] ==> r == Some(Reg8Operand::A),
            name.spec_bytes() == seq![0x62u8] ==> r == Some(Reg8Operand::B),
            name.spec_bytes() == seq![0x63u8] ==> r == Some(Reg8Operand::C),
            name.spec_bytes() == seq![0x64u8] ==> r == Some(Reg8Operand::D),
            name.spec_bytes() == seq![0x65u8] ==> r == Some(Reg8Operand::E),
            name.spec_bytes() == seq![0x68u8] ==> r == Some(Reg8Operand::H),
            name.spec_bytes() == seq![0x6cu8] ==> r == Some(Reg8Operand::L),
    {
        let b = name.as_bytes();
        if b.len() != 1 {
            return None;
        }
        proof {
            assert(name.spec_bytes() =~= seq![b[0int]]);
        }
        match b[0] {
            0x61 => Some(Reg8Operand::A),
            0x62 => Some(Reg8Operand::B),
            0x63 => Some(Reg8Operand::C),
            0x64 => Some(Reg8Operand::D),
            0x65 => Some(Reg8Operand::E),
            0x68 => Some(Reg8Operand::H),
            0x6c => Some(Reg8Operand::L),
            _ => None,
        }
    }
}

} // verus!
