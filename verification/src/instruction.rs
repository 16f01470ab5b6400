//! The decoded instruction record.

use vstd::prelude::*;
use crate::operands::Operand;
use crate::regs::CCOperand;

verus! {

/// The mnemonic of a decoded instruction.
#[derive(Debug, Clone, Copy, PartialEq, Eq, Structural)]
pub enum InstructionType {
    // Load commands
    Ld,
    Ldi,
    Ldd,
    Push,
    Pop,
    // Arithmetic/logical commands
    Add,
    Adc,
    Sub,
    Sbc,
    And,
    Xor,
    Or,
    Cp,
    Inc,
    Dec,
    Daa,
    Cpl,
    // Rotate and shift commands
    Rlca,
    Rla,
    Rrca,
    Rra,
    Rl,
    Rlc,
    Rr,
    Rrc,
    Sla,
    Sra,
    Srl,
    Swap,
    // Single-bit operation commands
    BitTest,
    SetBit,
    ResBit,
    // CPU control commands
    Ccf,
    Scf,
    Nop,
    Halt,
    Stop,
    Di,
    Ei,
    // Branches
    Jp,
    Jr,
    Call,
    Ret,
    Reti,
    Rst,
    // Undefined opcodes
    Invalid,
}

/// A decoded instruction: mnemonic, destination, up to two sources, branch
/// condition, and its encoded length in bytes (1 to 3).
#[derive(Debug, Copy, Clone, PartialEq)]
pub struct Instruction {
    pub itype: InstructionType,
    pub dest: Operand,
    pub src: [Operand; 2],
    pub cc: CCOperand,
    pub length: u16,
}

impl Instruction {
    /// Whether the mnemonic may write the program counter itself.  All other
    /// instructions leave `PC` at the address of the following instruction.
    pub open spec fn spec_is_branch(self) -> bool {
        match self.itype {
            InstructionType::Jp
            | InstructionType::Jr
            | InstructionType::Call
            | InstructionType::Ret
            | InstructionType::Reti
            | InstructionType::Rst => true,
            _ => false,
        }
    }

    /// Whether the mnemonic may write the program counter itself.
    pub fn is_branch(&self) -> (r: bool)
        ensures
            r == self.spec_is_branch(),
    {
        match self.itype {
            InstructionType::Jp
            | InstructionType::Jr
            | InstructionType::Call
            | InstructionType::Ret
            | InstructionType::Reti
            | InstructionType::Rst => true,
            _ => false,
        }
    }
}

} // verus!
