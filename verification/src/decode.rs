//! The instruction decoder: three consecutive bytes starting at `PC` become
//! an `Instruction`.
//!
//! The opcode byte is the primary key.  The regular blocks 0x40-0x7F
//! (`LD r, r'`), 0x80-0xBF (ALU on `A`) and the whole 0xCB prefix are decoded
//! through the 8-entry operand table `[B, C, D, E, H, L, (HL), A]`; the rest
//! follows the standard LR35902 opcode map.  Undefined opcodes decode to an
//! `Invalid` instruction that executes as a 4-cycle NOP.

use vstd::prelude::*;
use crate::instruction::{Instruction, InstructionType};
use crate::operands::Operand;
use crate::regs::{CCOperand, Reg16Operand, Reg8Operand};

verus! {

/// The 8-entry register/memory operand table shared by the regular opcode
/// blocks: index 6 is the memory operand `(HL)`.
pub open spec fn spec_op_lut(i: u8) -> Operand {
    if i == 0 {
        Operand::Reg8(Reg8Operand::B)
    } else if i == 1 {
        Operand::Reg8(Reg8Operand::C)
    } else if i == 2 {
        Operand::Reg8(Reg8Operand::D)
    } else if i == 3 {
        Operand::Reg8(Reg8Operand::E)
    } else if i == 4 {
        Operand::Reg8(Reg8Operand::H)
    } else if i == 5 {
        Operand::Reg8(Reg8Operand::L)
    } else if i == 6 {
        Operand::MemReg(Reg16Operand::Hl)
    } else {
        Operand::Reg8(Reg8Operand::A)
    }
}

/// The ALU mnemonic table for the 0x80-0xBF block.
pub open spec fn spec_alu_lut(i: u8) -> InstructionType {
    if i == 0 {
        InstructionType::Add
    } else if i == 1 {
        InstructionType::Adc
    } else if i == 2 {
        InstructionType::Sub
    } else if i == 3 {
        InstructionType::Sbc
    } else if i == 4 {
        InstructionType::And
    } else if i == 5 {
        InstructionType::Xor
    } else if i == 6 {
        InstructionType::Or
    } else {
        InstructionType::Cp
    }
}

/// The rotate/shift mnemonic table for the 0xCB prefix block 0x00-0x3F.
pub open spec fn spec_cb_alu_lut(i: u8) -> InstructionType {
    if i == 0 {
        InstructionType::Rlc
    } else if i == 1 {
        InstructionType::Rrc
    } else if i == 2 {
        InstructionType::Rl
    } else if i == 3 {
        InstructionType::Rr
    } else if i == 4 {
        InstructionType::Sla
    } else if i == 5 {
        InstructionType::Sra
    } else if i == 6 {
        InstructionType::Swap
    } else {
        InstructionType::Srl
    }
}

/// Whether the opcode carries a 16-bit immediate (or absolute address):
/// these instructions are three bytes long.
pub open spec fn has_imm16(op: u8) -> bool {
    op == 0x01 || op == 0x08 || op == 0x11 || op == 0x21 || op == 0x31 || op == 0xc2 || op == 0xc3
        || op == 0xc4 || op == 0xca || op == 0xcc || op == 0xcd || op == 0xd2 || op == 0xd4
        || op == 0xda || op == 0xdc || op == 0xea || op == 0xfa
}

/// Whether the opcode carries an 8-bit immediate: these instructions are two
/// bytes long, as is every 0xCB-prefixed instruction.
pub open spec fn has_imm8(op: u8) -> bool {
    op == 0x06 || op == 0x0e || op == 0x16 || op == 0x18 || op == 0x1e || op == 0x20 || op == 0x26
        || op == 0x28 || op == 0x2e || op == 0x30 || op == 0x36 || op == 0x38 || op == 0x3e
        || op == 0xc6 || op == 0xce || op == 0xd6 || op == 0xde || op == 0xe0 || op == 0xe6
        || op == 0xe8 || op == 0xee || op == 0xf0 || op == 0xf6 || op == 0xf8 || op == 0xfe
}

/// The encoded length, in bytes, of the instruction whose first byte is
/// `op`, as the standard opcode map gives it.
pub open spec fn spec_opcode_length(op: u8) -> u16 {
    if op == 0xcb {
        2
    } else if has_imm16(op) {
        3
    } else if has_imm8(op) {
        2
    } else {
        1
    }
}


/// An 8-bit-readable source operand: a register, an immediate, or one of
/// the memory addressing forms the executor fetches bytes through.
pub open spec fn is_src8(op: Operand) -> bool {
    match op {
        Operand::Reg8(_) => true,
        Operand::Imm8(_) => true,
        Operand::MemReg(_) => true,
        Operand::MemImm(_) => true,
        Operand::MemIoImm(_) => true,
        Operand::MemIoReg(r) => r == Reg8Operand::C,
        _ => false,
    }
}

/// The operand shapes the executor accepts: exactly these return a cycle
/// count, anything else an operand-mismatch error.  Every instruction the
/// decoder yields satisfies this.
pub open spec fn insn_wf(i: Instruction) -> bool {
    match i.itype {
        InstructionType::Ld => match i.dest {
            Operand::Reg8(_) => is_src8(i.src[0]),
            Operand::Reg16(_) => (i.src[1] is Imm8) || (i.src[0] is Reg16) || (i.src[0] is Imm16),
            Operand::MemImm(_) => (i.src[0] is Reg8) || i.src[0] == Operand::Reg16(Reg16Operand::Sp),
            Operand::MemReg(_) => (i.src[0] is Reg8) || (i.src[0] is Imm8),
            Operand::MemIoImm(_) => i.src[0] is Reg8,
            Operand::MemIoReg(_) => i.src[0] is Reg8,
            _ => false,
        },
        InstructionType::Ldi | InstructionType::Ldd => i.dest == Operand::Reg8(Reg8Operand::A)
            || i.dest == Operand::MemReg(Reg16Operand::Hl),
        InstructionType::Push => i.src[0] is Reg16,
        InstructionType::Pop => i.dest is Reg16,
        InstructionType::Add
        | InstructionType::Adc
        | InstructionType::Sub
        | InstructionType::Sbc
        | InstructionType::Cp => match i.dest {
            Operand::Reg8(_) => is_src8(i.src[0]),
            Operand::Reg16(r) => (r == Reg16Operand::Sp && i.src[0] is Imm8) || (r
                == Reg16Operand::Hl && i.src[0] is Reg16),
            _ => false,
        },
        InstructionType::And | InstructionType::Xor | InstructionType::Or => is_src8(i.src[0]),
        InstructionType::Inc | InstructionType::Dec => (i.dest is Reg8) || (i.dest is MemReg) || (
        i.dest is Reg16),
        InstructionType::Rl
        | InstructionType::Rlc
        | InstructionType::Rr
        | InstructionType::Rrc
        | InstructionType::Sla
        | InstructionType::Sra
        | InstructionType::Srl
        | InstructionType::Swap => (i.dest is Reg8) || (i.dest is MemReg),
        InstructionType::BitTest => (match i.src[0] {
            Operand::Imm8(b) => b < 8,
            _ => false,
        }) && ((i.src[1] is Reg8) || (i.src[1] is MemReg)),
        InstructionType::SetBit | InstructionType::ResBit => (match i.src[0] {
            Operand::Imm8(b) => b < 8,
            _ => false,
        }) && ((i.dest is Reg8) || (i.dest is MemReg)),
        InstructionType::Jp => (i.src[0] is Imm16) || i.src[0] == Operand::Reg16(Reg16Operand::Hl),
        InstructionType::Jr => i.src[0] is Imm8,
        InstructionType::Call => i.src[0] is Imm16,
        InstructionType::Rst => i.src[0] is Imm8,
        _ => true,
    }
}

/// The 8-entry operand table `[B, C, D, E, H, L, (HL), A]`.
pub fn op_lut(i: u8) -> (r: Operand)
    ensures
        r == spec_op_lut(i),
{
    if i == 0 {
        Operand::Reg8(Reg8Operand::B)
    } else if i == 1 {
        Operand::Reg8(Reg8Operand::C)
    } else if i == 2 {
        Operand::Reg8(Reg8Operand::D)
    } else if i == 3 {
        Operand::Reg8(Reg8Operand::E)
    } else if i == 4 {
        Operand::Reg8(Reg8Operand::H)
    } else if i == 5 {
        Operand::Reg8(Reg8Operand::L)
    } else if i == 6 {
        Operand::MemReg(Reg16Operand::Hl)
    } else {
        Operand::Reg8(Reg8Operand::A)
    }
}

/// The ALU mnemonic table for the 0x80-0xBF block.
pub fn alu_lut(i: u8) -> (r: InstructionType)
    ensures
        r == spec_alu_lut(i),
{
    if i == 0 {
        InstructionType::Add
    } else if i == 1 {
        InstructionType::Adc
    } else if i == 2 {
        InstructionType::Sub
    } else if i == 3 {
        InstructionType::Sbc
    } else if i == 4 {
        InstructionType::And
    } else if i == 5 {
        InstructionType::Xor
    } else if i == 6 {
        InstructionType::Or
    } else {
        InstructionType::Cp
    }
}

/// The rotate/shift mnemonic table for the 0xCB prefix block 0x00-0x3F.
pub fn cb_alu_lut(i: u8) -> (r: InstructionType)
    ensures
        r == spec_cb_alu_lut(i),
{
    if i == 0 {
        InstructionType::Rlc
    } else if i == 1 {
        InstructionType::Rrc
    } else if i == 2 {
        InstructionType::Rl
    } else if i == 3 {
        InstructionType::Rr
    } else if i == 4 {
        InstructionType::Sla
    } else if i == 5 {
        InstructionType::Sra
    } else if i == 6 {
        InstructionType::Swap
    } else {
        InstructionType::Srl
    }
}

/// The encoded length of the instruction whose first byte is `op`.
pub fn opcode_length(op: u8) -> (r: u16)
    ensures
        r == spec_opcode_length(op),
{
    if op == 0xcb {
        2
    } else if op == 0x01 || op == 0x08 || op == 0x11 || op == 0x21 || op == 0x31 || op == 0xc2
        || op == 0xc3 || op == 0xc4 || op == 0xca || op == 0xcc || op == 0xcd || op == 0xd2 || op
        == 0xd4 || op == 0xda || op == 0xdc || op == 0xea || op == 0xfa {
        3
    } else if op == 0x06 || op == 0x0e || op == 0x16 || op == 0x18 || op == 0x1e || op == 0x20
        || op == 0x26 || op == 0x28 || op == 0x2e || op == 0x30 || op == 0x36 || op == 0x38 || op
        == 0x3e || op == 0xc6 || op == 0xce || op == 0xd6 || op == 0xde || op == 0xe0 || op == 0xe6
        || op == 0xe8 || op == 0xee || op == 0xf0 || op == 0xf6 || op == 0xf8 || op == 0xfe {
        2
    } else {
        1
    }
}

/// Decode the second byte of a 0xCB-prefixed instruction: rotates, shifts,
/// nibble swap, and the bit test/set/reset family.
pub fn decode_cb_prefix_inst(opcode: u8) -> (r: Instruction)
    ensures
        r == spec_decode_cb(opcode),
        insn_wf(r),
{
    if opcode < 0x40 {
        Instruction {
            itype: cb_alu_lut(opcode / 8 % 8),
            dest: op_lut(opcode % 8),
            src: [Operand::Empty, Operand::Empty],
            cc: CCOperand::Always,
            length: 2,
        }
    } else if opcode < 0x80 {
        Instruction {
            itype: InstructionType::BitTest,
            dest: Operand::Empty,
            src: [Operand::Imm8(opcode / 8 % 8), op_lut(opcode % 8)],
            cc: CCOperand::Always,
            length: 2,
        }
    } else if opcode < 0xc0 {
        Instruction {
            itype: InstructionType::SetBit,
            dest: op_lut(opcode % 8),
            src: [Operand::Imm8(opcode / 8 % 8), Operand::Empty],
            cc: CCOperand::Always,
            length: 2,
        }
    } else {
        Instruction {
            itype: InstructionType::ResBit,
            dest: op_lut(opcode % 8),
            src: [Operand::Imm8(opcode / 8 % 8), Operand::Empty],
            cc: CCOperand::Always,
            length: 2,
        }
    }
}

/// What the main (unprefixed) opcode table decodes `op` to; `n` is the
/// byte after the opcode and `nn` the 16-bit little-endian immediate.
pub open spec fn spec_decode_main(op: u8, n: u8, nn: u16) -> Instruction {
    let len = spec_opcode_length(op);
    if op == 0x00 {
        Instruction { itype: InstructionType::Nop, dest: Operand::Empty, src: [Operand::Empty, Operand::Empty], cc: CCOperand::Always, length: len }
    } else if op == 0x01 {
        Instruction { itype: InstructionType::Ld, dest: Operand::Reg16(Reg16Operand::Bc), src: [Operand::Imm16(nn), Operand::Empty], cc: CCOperand::Always, length: len }
    } else if op == 0x02 {
        Instruction { itype: InstructionType::Ld, dest: Operand::MemReg(Reg16Operand::Bc), src: [Operand::Reg8(Reg8Operand::A), Operand::Empty], cc: CCOperand::Always, length: len }
    } else if op == 0x03 {
        Instruction { itype: InstructionType::Inc, dest: Operand::Reg16(Reg16Operand::Bc), src: [Operand::Empty, Operand::Empty], cc: CCOperand::Always, length: len }
    } else if op == 0x04 {
        Instruction { itype: InstructionType::Inc, dest: Operand::Reg8(Reg8Operand::B), src: [Operand::Empty, Operand::Empty], cc: CCOperand::Always, length: len }
    } else if op == 0x05 {
        Instruction { itype: InstructionType::Dec, dest: Operand::Reg8(Reg8Operand::B), src: [Operand::Empty, Operand::Empty], cc: CCOperand::Always, length: len }
    } else if op == 0x06 {
        Instruction { itype: InstructionType::Ld, dest: Operand::Reg8(Reg8Operand::B), src: [Operand::Imm8(n), Operand::Empty], cc: CCOperand::Always, length: len }
    } else if op == 0x07 {
        Instruction { itype: InstructionType::Rlca, dest: Operand::Empty, src: [Operand::Empty, Operand::Empty], cc: CCOperand::Always, length: len }
    } else if op == 0x08 {
        Instruction { itype: InstructionType::Ld, dest: Operand::MemImm(nn), src: [Operand::Reg16(Reg16Operand::Sp), Operand::Empty], cc: CCOperand::Always, length: len }
    } else if op == 0x09 {
        Instruction { itype: InstructionType::Add, dest: Operand::Reg16(Reg16Operand::Hl), src: [Operand::Reg16(Reg16Operand::Bc), Operand::Empty], cc: CCOperand::Always, length: len }
    } else if op == 0x0a {
        Instruction { itype: InstructionType::Ld, dest: Operand::Reg8(Reg8Operand::A), src: [Operand::MemReg(Reg16Operand::Bc), Operand::Empty], cc: CCOperand::Always, length: len }
    } else if op == 0x0b {
        Instruction { itype: InstructionType::Dec, dest: Operand::Reg16(Reg16Operand::Bc), src: [Operand::Empty, Operand::Empty], cc: CCOperand::Always, length: len }
    } else if op == 0x0c {
        Instruction { itype: InstructionType::Inc, dest: Operand::Reg8(Reg8Operand::C), src: [Operand::Empty, Operand::Empty], cc: CCOperand::Always, length: len }
    } else if op == 0x0d {
        Instruction { itype: InstructionType::Dec, dest: Operand::Reg8(Reg8Operand::C), src: [Operand::Empty, Operand::Empty], cc: CCOperand::Always, length: len }
    } else if op == 0x0e {
        Instruction { itype: InstructionType::Ld, dest: Operand::Reg8(Reg8Operand::C), src: [Operand::Imm8(n), Operand::Empty], cc: CCOperand::Always, length: len }
    } else if op == 0x0f {
        Instruction { itype: InstructionType::Rrca, dest: Operand::Empty, src: [Operand::Empty, Operand::Empty], cc: CCOperand::Always, length: len }
    } else if op == 0x10 {
        Instruction { itype: InstructionType::Stop, dest: Operand::Empty, src: [Operand::Empty, Operand::Empty], cc: CCOperand::Always, length: len }
    } else if op == 0x11 {
        Instruction { itype: InstructionType::Ld, dest: Operand::Reg16(Reg16Operand::De), src: [Operand::Imm16(nn), Operand::Empty], cc: CCOperand::Always, length: len }
    } else if op == 0x12 {
        Instruction { itype: InstructionType::Ld, dest: Operand::MemReg(Reg16Operand::De), src: [Operand::Reg8(Reg8Operand::A), Operand::Empty], cc: CCOperand::Always, length: len }
    } else if op == 0x13 {
        Instruction { itype: InstructionType::Inc, dest: Operand::Reg16(Reg16Operand::De), src: [Operand::Empty, Operand::Empty], cc: CCOperand::Always, length: len }
    } else if op == 0x14 {
        Instruction { itype: InstructionType::Inc, dest: Operand::Reg8(Reg8Operand::D), src: [Operand::Empty, Operand::Empty], cc: CCOperand::Always, length: len }
    } else if op == 0x15 {
        Instruction { itype: InstructionType::Dec, dest: Operand::Reg8(Reg8Operand::D), src: [Operand::Empty, Operand::Empty], cc: CCOperand::Always, length: len }
    } else if op == 0x16 {
        Instruction { itype: InstructionType::Ld, dest: Operand::Reg8(Reg8Operand::D), src: [Operand::Imm8(n), Operand::Empty], cc: CCOperand::Always, length: len }
    } else if op == 0x17 {
        Instruction { itype: InstructionType::Rla, dest: Operand::Empty, src: [Operand::Empty, Operand::Empty], cc: CCOperand::Always, length: len }
    } else if op == 0x18 {
        Instruction { itype: InstructionType::Jr, dest: Operand::Empty, src: [Operand::Imm8(n), Operand::Empty], cc: CCOperand::Always, length: len }
    } else if op == 0x19 {
        Instruction { itype: InstructionType::Add, dest: Operand::Reg16(Reg16Operand::Hl), src: [Operand::Reg16(Reg16Operand::De), Operand::Empty], cc: CCOperand::Always, length: len }
    } else if op == 0x1a {
        Instruction { itype: InstructionType::Ld, dest: Operand::Reg8(Reg8Operand::A), src: [Operand::MemReg(Reg16Operand::De), Operand::Empty], cc: CCOperand::Always, length: len }
    } else if op == 0x1b {
        Instruction { itype: InstructionType::Dec, dest: Operand::Reg16(Reg16Operand::De), src: [Operand::Empty, Operand::Empty], cc: CCOperand::Always, length: len }
    } else if op == 0x1c {
        Instruction { itype: InstructionType::Inc, dest: Operand::Reg8(Reg8Operand::E), src: [Operand::Empty, Operand::Empty], cc: CCOperand::Always, length: len }
    } else if op == 0x1d {
        Instruction { itype: InstructionType::Dec, dest: Operand::Reg8(Reg8Operand::E), src: [Operand::Empty, Operand::Empty], cc: CCOperand::Always, length: len }
    } else if op == 0x1e {
        Instruction { itype: InstructionType::Ld, dest: Operand::Reg8(Reg8Operand::E), src: [Operand::Imm8(n), Operand::Empty], cc: CCOperand::Always, length: len }
    } else if op == 0x1f {
        Instruction { itype: InstructionType::Rra, dest: Operand::Empty, src: [Operand::Empty, Operand::Empty], cc: CCOperand::Always, length: len }
    } else if op == 0x20 {
        Instruction { itype: InstructionType::Jr, dest: Operand::Empty, src: [Operand::Imm8(n), Operand::Empty], cc: CCOperand::Nz, length: len }
    } else if op == 0x21 {
        Instruction { itype: InstructionType::Ld, dest: Operand::Reg16(Reg16Operand::Hl), src: [Operand::Imm16(nn), Operand::Empty], cc: CCOperand::Always, length: len }
    } else if op == 0x22 {
        Instruction { itype: InstructionType::Ldi, dest: Operand::MemReg(Reg16Operand::Hl), src: [Operand::Reg8(Reg8Operand::A), Operand::Empty], cc: CCOperand::Always, length: len }
    } else if op == 0x23 {
        Instruction { itype: InstructionType::Inc, dest: Operand::Reg16(Reg16Operand::Hl), src: [Operand::Empty, Operand::Empty], cc: CCOperand::Always, length: len }
    } else if op == 0x24 {
        Instruction { itype: InstructionType::Inc, dest: Operand::Reg8(Reg8Operand::H), src: [Operand::Empty, Operand::Empty], cc: CCOperand::Always, length: len }
    } else if op == 0x25 {
        Instruction { itype: InstructionType::Dec, dest: Operand::Reg8(Reg8Operand::H), src: [Operand::Empty, Operand::Empty], cc: CCOperand::Always, length: len }
    } else if op == 0x26 {
        Instruction { itype: InstructionType::Ld, dest: Operand::Reg8(Reg8Operand::H), src: [Operand::Imm8(n), Operand::Empty], cc: CCOperand::Always, length: len }
    } else if op == 0x27 {
        Instruction { itype: InstructionType::Daa, dest: Operand::Empty, src: [Operand::Empty, Operand::Empty], cc: CCOperand::Always, length: len }
    } else if op == 0x28 {
        Instruction { itype: InstructionType::Jr, dest: Operand::Empty, src: [Operand::Imm8(n), Operand::Empty], cc: CCOperand::Z, length: len }
    } else if op == 0x29 {
        Instruction { itype: InstructionType::Add, dest: Operand::Reg16(Reg16Operand::Hl), src: [Operand::Reg16(Reg16Operand::Hl), Operand::Empty], cc: CCOperand::Always, length: len }
    } else if op == 0x2a {
        Instruction { itype: InstructionType::Ldi, dest: Operand::Reg8(Reg8Operand::A), src: [Operand::MemReg(Reg16Operand::Hl), Operand::Empty], cc: CCOperand::Always, length: len }
    } else if op == 0x2b {
        Instruction { itype: InstructionType::Dec, dest: Operand::Reg16(Reg16Operand::Hl), src: [Operand::Empty, Operand::Empty], cc: CCOperand::Always, length: len }
    } else if op == 0x2c {
        Instruction { itype: InstructionType::Inc, dest: Operand::Reg8(Reg8Operand::L), src: [Operand::Empty, Operand::Empty], cc: CCOperand::Always, length: len }
    } else if op == 0x2d {
        Instruction { itype: InstructionType::Dec, dest: Operand::Reg8(Reg8Operand::L), src: [Operand::Empty, Operand::Empty], cc: CCOperand::Always, length: len }
    } else if op == 0x2e {
        Instruction { itype: InstructionType::Ld, dest: Operand::Reg8(Reg8Operand::L), src: [Operand::Imm8(n), Operand::Empty], cc: CCOperand::Always, length: len }
    } else if op == 0x2f {
        Instruction { itype: InstructionType::Cpl, dest: Operand::Empty, src: [Operand::Empty, Operand::Empty], cc: CCOperand::Always, length: len }
    } else if op == 0x30 {
        Instruction { itype: InstructionType::Jr, dest: Operand::Empty, src: [Operand::Imm8(n), Operand::Empty], cc: CCOperand::Nc, length: len }
    } else if op == 0x31 {
        Instruction { itype: InstructionType::Ld, dest: Operand::Reg16(Reg16Operand::Sp), src: [Operand::Imm16(nn), Operand::Empty], cc: CCOperand::Always, length: len }
    } else if op == 0x32 {
        Instruction { itype: InstructionType::Ldd, dest: Operand::MemReg(Reg16Operand::Hl), src: [Operand::Reg8(Reg8Operand::A), Operand::Empty], cc: CCOperand::Always, length: len }
    } else if op == 0x33 {
        Instruction { itype: InstructionType::Inc, dest: Operand::Reg16(Reg16Operand::Sp), src: [Operand::Empty, Operand::Empty], cc: CCOperand::Always, length: len }
    } else if op == 0x34 {
        Instruction { itype: InstructionType::Inc, dest: Operand::MemReg(Reg16Operand::Hl), src: [Operand::Empty, Operand::Empty], cc: CCOperand::Always, length: len }
    } else if op == 0x35 {
        Instruction { itype: InstructionType::Dec, dest: Operand::MemReg(Reg16Operand::Hl), src: [Operand::Empty, Operand::Empty], cc: CCOperand::Always, length: len }
    } else if op == 0x36 {
        Instruction { itype: InstructionType::Ld, dest: Operand::MemReg(Reg16Operand::Hl), src: [Operand::Imm8(n), Operand::Empty], cc: CCOperand::Always, length: len }
    } else if op == 0x37 {
        Instruction { itype: InstructionType::Scf, dest: Operand::Empty, src: [Operand::Empty, Operand::Empty], cc: CCOperand::Always, length: len }
    } else if op == 0x38 {
        Instruction { itype: InstructionType::Jr, dest: Operand::Empty, src: [Operand::Imm8(n), Operand::Empty], cc: CCOperand::C, length: len }
    } else if op == 0x39 {
        Instruction { itype: InstructionType::Add, dest: Operand::Reg16(Reg16Operand::Hl), src: [Operand::Reg16(Reg16Operand::Sp), Operand::Empty], cc: CCOperand::Always, length: len }
    } else if op == 0x3a {
        Instruction { itype: InstructionType::Ldd, dest: Operand::Reg8(Reg8Operand::A), src: [Operand::MemReg(Reg16Operand::Hl), Operand::Empty], cc: CCOperand::Always, length: len }
    } else if op == 0x3b {
        Instruction { itype: InstructionType::Dec, dest: Operand::Reg16(Reg16Operand::Sp), src: [Operand::Empty, Operand::Empty], cc: CCOperand::Always, length: len }
    } else if op == 0x3c {
        Instruction { itype: InstructionType::Inc, dest: Operand::Reg8(Reg8Operand::A), src: [Operand::Empty, Operand::Empty], cc: CCOperand::Always, length: len }
    } else if op == 0x3d {
        Instruction { itype: InstructionType::Dec, dest: Operand::Reg8(Reg8Operand::A), src: [Operand::Empty, Operand::Empty], cc: CCOperand::Always, length: len }
    } else if op == 0x3e {
        Instruction { itype: InstructionType::Ld, dest: Operand::Reg8(Reg8Operand::A), src: [Operand::Imm8(n), Operand::Empty], cc: CCOperand::Always, length: len }
    } else if op == 0x3f {
        Instruction { itype: InstructionType::Ccf, dest: Operand::Empty, src: [Operand::Empty, Operand::Empty], cc: CCOperand::Always, length: len }
    } else if op == 0x76 {
        Instruction { itype: InstructionType::Halt, dest: Operand::Empty, src: [Operand::Empty, Operand::Empty], cc: CCOperand::Always, length: len }
    } else if op == 0xc0 {
        Instruction { itype: InstructionType::Ret, dest: Operand::Empty, src: [Operand::Empty, Operand::Empty], cc: CCOperand::Nz, length: len }
    } else if op == 0xc1 {
        Instruction { itype: InstructionType::Pop, dest: Operand::Reg16(Reg16Operand::Bc), src: [Operand::Empty, Operand::Empty], cc: CCOperand::Always, length: len }
    } else if op == 0xc2 {
        Instruction { itype: InstructionType::Jp, dest: Operand::Empty, src: [Operand::Imm16(nn), Operand::Empty], cc: CCOperand::Nz, length: len }
    } else if op == 0xc3 {
        Instruction { itype: InstructionType::Jp, dest: Operand::Empty, src: [Operand::Imm16(nn), Operand::Empty], cc: CCOperand::Always, length: len }
    } else if op == 0xc4 {
        Instruction { itype: InstructionType::Call, dest: Operand::Empty, src: [Operand::Imm16(nn), Operand::Empty], cc: CCOperand::Nz, length: len }
    } else if op == 0xc5 {
        Instruction { itype: InstructionType::Push, dest: Operand::Empty, src: [Operand::Reg16(Reg16Operand::Bc), Operand::Empty], cc: CCOperand::Always, length: len }
    } else if op == 0xc6 {
        Instruction { itype: InstructionType::Add, dest: Operand::Reg8(Reg8Operand::A), src: [Operand::Imm8(n), Operand::Empty], cc: CCOperand::Always, length: len }
    } else if op == 0xc7 {
        Instruction { itype: InstructionType::Rst, dest: Operand::Empty, src: [Operand::Imm8(0x00), Operand::Empty], cc: CCOperand::Always, length: len }
    } else if op == 0xc8 {
        Instruction { itype: InstructionType::Ret, dest: Operand::Empty, src: [Operand::Empty, Operand::Empty], cc: CCOperand::Z, length: len }
    } else if op == 0xc9 {
        Instruction { itype: InstructionType::Ret, dest: Operand::Empty, src: [Operand::Empty, Operand::Empty], cc: CCOperand::Always, length: len }
    } else if op == 0xca {
        Instruction { itype: InstructionType::Jp, dest: Operand::Empty, src: [Operand::Imm16(nn), Operand::Empty], cc: CCOperand::Z, length: len }
    } else if op == 0xcc {
        Instruction { itype: InstructionType::Call, dest: Operand::Empty, src: [Operand::Imm16(nn), Operand::Empty], cc: CCOperand::Z, length: len }
    } else if op == 0xcd {
        Instruction { itype: InstructionType::Call, dest: Operand::Empty, src: [Operand::Imm16(nn), Operand::Empty], cc: CCOperand::Always, length: len }
    } else if op == 0xce {
        Instruction { itype: InstructionType::Adc, dest: Operand::Reg8(Reg8Operand::A), src: [Operand::Imm8(n), Operand::Empty], cc: CCOperand::Always, length: len }
    } else if op == 0xcf {
        Instruction { itype: InstructionType::Rst, dest: Operand::Empty, src: [Operand::Imm8(0x08), Operand::Empty], cc: CCOperand::Always, length: len }
    } else if op == 0xd0 {
        Instruction { itype: InstructionType::Ret, dest: Operand::Empty, src: [Operand::Empty, Operand::Empty], cc: CCOperand::Nc, length: len }
    } else if op == 0xd1 {
        Instruction { itype: InstructionType::Pop, dest: Operand::Reg16(Reg16Operand::De), src: [Operand::Empty, Operand::Empty], cc: CCOperand::Always, length: len }
    } else if op == 0xd2 {
        Instruction { itype: InstructionType::Jp, dest: Operand::Empty, src: [Operand::Imm16(nn), Operand::Empty], cc: CCOperand::Nc, length: len }
    } else if op == 0xd3 {
        Instruction { itype: InstructionType::Invalid, dest: Operand::Empty, src: [Operand::Empty, Operand::Empty], cc: CCOperand::Always, length: len }
    } else if op == 0xd4 {
        Instruction { itype: InstructionType::Call, dest: Operand::Empty, src: [Operand::Imm16(nn), Operand::Empty], cc: CCOperand::Nc, length: len }
    } else if op == 0xd5 {
        Instruction { itype: InstructionType::Push, dest: Operand::Empty, src: [Operand::Reg16(Reg16Operand::De), Operand::Empty], cc: CCOperand::Always, length: len }
    } else if op == 0xd6 {
        Instruction { itype: InstructionType::Sub, dest: Operand::Reg8(Reg8Operand::A), src: [Operand::Imm8(n), Operand::Empty], cc: CCOperand::Always, length: len }
    } else if op == 0xd7 {
        Instruction { itype: InstructionType::Rst, dest: Operand::Empty, src: [Operand::Imm8(0x10), Operand::Empty], cc: CCOperand::Always, length: len }
    } else if op == 0xd8 {
        Instruction { itype: InstructionType::Ret, dest: Operand::Empty, src: [Operand::Empty, Operand::Empty], cc: CCOperand::C, length: len }
    } else if op == 0xd9 {
        Instruction { itype: InstructionType::Reti, dest: Operand::Empty, src: [Operand::Empty, Operand::Empty], cc: CCOperand::Always, length: len }
    } else if op == 0xda {
        Instruction { itype: InstructionType::Jp, dest: Operand::Empty, src: [Operand::Imm16(nn), Operand::Empty], cc: CCOperand::C, length: len }
    } else if op == 0xdb {
        Instruction { itype: InstructionType::Invalid, dest: Operand::Empty, src: [Operand::Empty, Operand::Empty], cc: CCOperand::Always, length: len }
    } else if op == 0xdc {
        Instruction { itype: InstructionType::Call, dest: Operand::Empty, src: [Operand::Imm16(nn), Operand::Empty], cc: CCOperand::C, length: len }
    } else if op == 0xdd {
        Instruction { itype: InstructionType::Invalid, dest: Operand::Empty, src: [Operand::Empty, Operand::Empty], cc: CCOperand::Always, length: len }
    } else if op == 0xde {
        Instruction { itype: InstructionType::Sbc, dest: Operand::Reg8(Reg8Operand::A), src: [Operand::Imm8(n), Operand::Empty], cc: CCOperand::Always, length: len }
    } else if op == 0xdf {
        Instruction { itype: InstructionType::Rst, dest: Operand::Empty, src: [Operand::Imm8(0x18), Operand::Empty], cc: CCOperand::Always, length: len }
    } else if op == 0xe0 {
        Instruction { itype: InstructionType::Ld, dest: Operand::MemIoImm(n), src: [Operand::Reg8(Reg8Operand::A), Operand::Empty], cc: CCOperand::Always, length: len }
    } else if op == 0xe1 {
        Instruction { itype: InstructionType::Pop, dest: Operand::Reg16(Reg16Operand::Hl), src: [Operand::Empty, Operand::Empty], cc: CCOperand::Always, length: len }
    } else if op == 0xe2 {
        Instruction { itype: InstructionType::Ld, dest: Operand::MemIoReg(Reg8Operand::C), src: [Operand::Reg8(Reg8Operand::A), Operand::Empty], cc: CCOperand::Always, length: len }
    } else if op == 0xe3 {
        Instruction { itype: InstructionType::Invalid, dest: Operand::Empty, src: [Operand::Empty, Operand::Empty], cc: CCOperand::Always, length: len }
    } else if op == 0xe4 {
        Instruction { itype: InstructionType::Invalid, dest: Operand::Empty, src: [Operand::Empty, Operand::Empty], cc: CCOperand::Always, length: len }
    } else if op == 0xe5 {
        Instruction { itype: InstructionType::Push, dest: Operand::Empty, src: [Operand::Reg16(Reg16Operand::Hl), Operand::Empty], cc: CCOperand::Always, length: len }
    } else if op == 0xe6 {
        Instruction { itype: InstructionType::And, dest: Operand::Reg8(Reg8Operand::A), src: [Operand::Imm8(n), Operand::Empty], cc: CCOperand::Always, length: len }
    } else if op == 0xe7 {
        Instruction { itype: InstructionType::Rst, dest: Operand::Empty, src: [Operand::Imm8(0x20), Operand::Empty], cc: CCOperand::Always, length: len }
    } else if op == 0xe8 {
        Instruction { itype: InstructionType::Add, dest: Operand::Reg16(Reg16Operand::Sp), src: [Operand::Imm8(n), Operand::Empty], cc: CCOperand::Always, length: len }
    } else if op == 0xe9 {
        Instruction { itype: InstructionType::Jp, dest: Operand::Empty, src: [Operand::Reg16(Reg16Operand::Hl), Operand::Empty], cc: CCOperand::Always, length: len }
    } else if op == 0xea {
        Instruction { itype: InstructionType::Ld, dest: Operand::MemImm(nn), src: [Operand::Reg8(Reg8Operand::A), Operand::Empty], cc: CCOperand::Always, length: len }
    } else if op == 0xeb {
        Instruction { itype: InstructionType::Invalid, dest: Operand::Empty, src: [Operand::Empty, Operand::Empty], cc: CCOperand::Always, length: len }
    } else if op == 0xec {
        Instruction { itype: InstructionType::Invalid, dest: Operand::Empty, src: [Operand::Empty, Operand::Empty], cc: CCOperand::Always, length: len }
    } else if op == 0xed {
        Instruction { itype: InstructionType::Invalid, dest: Operand::Empty, src: [Operand::Empty, Operand::Empty], cc: CCOperand::Always, length: len }
    } else if op == 0xee {
        Instruction { itype: InstructionType::Xor, dest: Operand::Reg8(Reg8Operand::A), src: [Operand::Imm8(n), Operand::Empty], cc: CCOperand::Always, length: len }
    } else if op == 0xef {
        Instruction { itype: InstructionType::Rst, dest: Operand::Empty, src: [Operand::Imm8(0x28), Operand::Empty], cc: CCOperand::Always, length: len }
    } else if op == 0xf0 {
        Instruction { itype: InstructionType::Ld, dest: Operand::Reg8(Reg8Operand::A), src: [Operand::MemIoImm(n), Operand::Empty], cc: CCOperand::Always, length: len }
    } else if op == 0xf1 {
        Instruction { itype: InstructionType::Pop, dest: Operand::Reg16(Reg16Operand::Af), src: [Operand::Empty, Operand::Empty], cc: CCOperand::Always, length: len }
    } else if op == 0xf2 {
        Instruction { itype: InstructionType::Ld, dest: Operand::Reg8(Reg8Operand::A), src: [Operand::MemIoReg(Reg8Operand::C), Operand::Empty], cc: CCOperand::Always, length: len }
    } else if op == 0xf3 {
        Instruction { itype: InstructionType::Di, dest: Operand::Empty, src: [Operand::Empty, Operand::Empty], cc: CCOperand::Always, length: len }
    } else if op == 0xf4 {
        Instruction { itype: InstructionType::Invalid, dest: Operand::Empty, src: [Operand::Empty, Operand::Empty], cc: CCOperand::Always, length: len }
    } else if op == 0xf5 {
        Instruction { itype: InstructionType::Push, dest: Operand::Empty, src: [Operand::Reg16(Reg16Operand::Af), Operand::Empty], cc: CCOperand::Always, length: len }
    } else if op == 0xf6 {
        Instruction { itype: InstructionType::Or, dest: Operand::Reg8(Reg8Operand::A), src: [Operand::Imm8(n), Operand::Empty], cc: CCOperand::Always, length: len }
    } else if op == 0xf7 {
        Instruction { itype: InstructionType::Rst, dest: Operand::Empty, src: [Operand::Imm8(0x30), Operand::Empty], cc: CCOperand::Always, length: len }
    } else if op == 0xf8 {
        Instruction { itype: InstructionType::Ld, dest: Operand::Reg16(Reg16Operand::Hl), src: [Operand::Reg16(Reg16Operand::Sp), Operand::Imm8(n)], cc: CCOperand::Always, length: len }
    } else if op == 0xf9 {
        Instruction { itype: InstructionType::Ld, dest: Operand::Reg16(Reg16Operand::Sp), src: [Operand::Reg16(Reg16Operand::Hl), Operand::Empty], cc: CCOperand::Always, length: len }
    } else if op == 0xfa {
        Instruction { itype: InstructionType::Ld, dest: Operand::Reg8(Reg8Operand::A), src: [Operand::MemImm(nn), Operand::Empty], cc: CCOperand::Always, length: len }
    } else if op == 0xfb {
        Instruction { itype: InstructionType::Ei, dest: Operand::Empty, src: [Operand::Empty, Operand::Empty], cc: CCOperand::Always, length: len }
    } else if op == 0xfc {
        Instruction { itype: InstructionType::Invalid, dest: Operand::Empty, src: [Operand::Empty, Operand::Empty], cc: CCOperand::Always, length: len }
    } else if op == 0xfd {
        Instruction { itype: InstructionType::Invalid, dest: Operand::Empty, src: [Operand::Empty, Operand::Empty], cc: CCOperand::Always, length: len }
    } else if op == 0xfe {
        Instruction { itype: InstructionType::Cp, dest: Operand::Reg8(Reg8Operand::A), src: [Operand::Imm8(n), Operand::Empty], cc: CCOperand::Always, length: len }
    } else if op == 0xff {
        Instruction { itype: InstructionType::Rst, dest: Operand::Empty, src: [Operand::Imm8(0x38), Operand::Empty], cc: CCOperand::Always, length: len }
    } else if 0x40 <= op && op <= 0x7f {
        Instruction { itype: InstructionType::Ld, dest: spec_op_lut((op / 8 % 8) as u8), src: [spec_op_lut((op % 8) as u8), Operand::Empty], cc: CCOperand::Always, length: len }
    } else {
        Instruction { itype: spec_alu_lut((op / 8 % 8) as u8), dest: Operand::Reg8(Reg8Operand::A), src: [spec_op_lut((op % 8) as u8), Operand::Empty], cc: CCOperand::Always, length: len }
    }
}

/// What the 0xCB-prefixed table decodes its second byte `n` to.
pub open spec fn spec_decode_cb(n: u8) -> Instruction {
    if n < 0x40 {
        Instruction { itype: spec_cb_alu_lut((n / 8 % 8) as u8), dest: spec_op_lut((n % 8) as u8), src: [Operand::Empty, Operand::Empty], cc: CCOperand::Always, length: 2 }
    } else if n < 0x80 {
        Instruction { itype: InstructionType::BitTest, dest: Operand::Empty, src: [Operand::Imm8((n / 8 % 8) as u8), spec_op_lut((n % 8) as u8)], cc: CCOperand::Always, length: 2 }
    } else if n < 0xc0 {
        Instruction { itype: InstructionType::SetBit, dest: spec_op_lut((n % 8) as u8), src: [Operand::Imm8((n / 8 % 8) as u8), Operand::Empty], cc: CCOperand::Always, length: 2 }
    } else {
        Instruction { itype: InstructionType::ResBit, dest: spec_op_lut((n % 8) as u8), src: [Operand::Imm8((n / 8 % 8) as u8), Operand::Empty], cc: CCOperand::Always, length: 2 }
    }
}

/// What the decoder yields for the three bytes at `PC`.
pub open spec fn spec_decode(op: u8, n: u8, nn: u16) -> Instruction {
    if op == 0xcb {
        spec_decode_cb(n)
    } else {
        spec_decode_main(op, n, nn)
    }
}

/// Decode three consecutive bytes into an instruction, per the standard
/// LR35902 opcode map.  The decoded length is 1, 2 or 3 bytes.
pub fn decode(opcode: [u8; 3]) -> (r: Instruction)
    ensures
        r == spec_decode(opcode@[0], opcode@[1], ((opcode@[2] as u16) * 256 + opcode@[1]) as u16),
        insn_wf(r),
        opcode@[0] != 0xcb ==> r.length == spec_opcode_length(opcode@[0]),
        opcode@[0] == 0xcb ==> r.length == 2,
        1 <= r.length <= 3,
{
    let op: u8 = opcode[0];
    let n: u8 = opcode[1];
    let nn: u16 = (opcode[2] as u16) * 256 + (opcode[1] as u16);
    let len: u16 = opcode_length(op);
    if op == 0xcb {
        return decode_cb_prefix_inst(n);
    }
    if op == 0x00 {
        Instruction { itype: InstructionType::Nop, dest: Operand::Empty, src: [Operand::Empty, Operand::Empty], cc: CCOperand::Always, length: len }
    } else if op == 0x01 {
        Instruction { itype: InstructionType::Ld, dest: Operand::Reg16(Reg16Operand::Bc), src: [Operand::Imm16(nn), Operand::Empty], cc: CCOperand::Always, length: len }
    } else if op == 0x02 {
        Instruction { itype: InstructionType::Ld, dest: Operand::MemReg(Reg16Operand::Bc), src: [Operand::Reg8(Reg8Operand::A), Operand::Empty], cc: CCOperand::Always, length: len }
    } else if op == 0x03 {
        Instruction { itype: InstructionType::Inc, dest: Operand::Reg16(Reg16Operand::Bc), src: [Operand::Empty, Operand::Empty], cc: CCOperand::Always, length: len }
    } else if op == 0x04 {
        Instruction { itype: InstructionType::Inc, dest: Operand::Reg8(Reg8Operand::B), src: [Operand::Empty, Operand::Empty], cc: CCOperand::Always, length: len }
    } else if op == 0x05 {
        Instruction { itype: InstructionType::Dec, dest: Operand::Reg8(Reg8Operand::B), src: [Operand::Empty, Operand::Empty], cc: CCOperand::Always, length: len }
    } else if op == 0x06 {
        Instruction { itype: InstructionType::Ld, dest: Operand::Reg8(Reg8Operand::B), src: [Operand::Imm8(n), Operand::Empty], cc: CCOperand::Always, length: len }
    } else if op == 0x07 {
        Instruction { itype: InstructionType::Rlca, dest: Operand::Empty, src: [Operand::Empty, Operand::Empty], cc: CCOperand::Always, length: len }
    } else if op == 0x08 {
        Instruction { itype: InstructionType::Ld, dest: Operand::MemImm(nn), src: [Operand::Reg16(Reg16Operand::Sp), Operand::Empty], cc: CCOperand::Always, length: len }
    } else if op == 0x09 {
        Instruction { itype: InstructionType::Add, dest: Operand::Reg16(Reg16Operand::Hl), src: [Operand::Reg16(Reg16Operand::Bc), Operand::Empty], cc: CCOperand::Always, length: len }
    } else if op == 0x0a {
        Instruction { itype: InstructionType::Ld, dest: Operand::Reg8(Reg8Operand::A), src: [Operand::MemReg(Reg16Operand::Bc), Operand::Empty], cc: CCOperand::Always, length: len }
    } else if op == 0x0b {
        Instruction { itype: InstructionType::Dec, dest: Operand::Reg16(Reg16Operand::Bc), src: [Operand::Empty, Operand::Empty], cc: CCOperand::Always, length: len }
    } else if op == 0x0c {
        Instruction { itype: InstructionType::Inc, dest: Operand::Reg8(Reg8Operand::C), src: [Operand::Empty, Operand::Empty], cc: CCOperand::Always, length: len }
    } else if op == 0x0d {
        Instruction { itype: InstructionType::Dec, dest: Operand::Reg8(Reg8Operand::C), src: [Operand::Empty, Operand::Empty], cc: CCOperand::Always, length: len }
    } else if op == 0x0e {
        Instruction { itype: InstructionType::Ld, dest: Operand::Reg8(Reg8Operand::C), src: [Operand::Imm8(n), Operand::Empty], cc: CCOperand::Always, length: len }
    } else if op == 0x0f {
        Instruction { itype: InstructionType::Rrca, dest: Operand::Empty, src: [Operand::Empty, Operand::Empty], cc: CCOperand::Always, length: len }
    } else if op == 0x10 {
        Instruction { itype: InstructionType::Stop, dest: Operand::Empty, src: [Operand::Empty, Operand::Empty], cc: CCOperand::Always, length: len }
    } else if op == 0x11 {
        Instruction { itype: InstructionType::Ld, dest: Operand::Reg16(Reg16Operand::De), src: [Operand::Imm16(nn), Operand::Empty], cc: CCOperand::Always, length: len }
    } else if op == 0x12 {
        Instruction { itype: InstructionType::Ld, dest: Operand::MemReg(Reg16Operand::De), src: [Operand::Reg8(Reg8Operand::A), Operand::Empty], cc: CCOperand::Always, length: len }
    } else if op == 0x13 {
        Instruction { itype: InstructionType::Inc, dest: Operand::Reg16(Reg16Operand::De), src: [Operand::Empty, Operand::Empty], cc: CCOperand::Always, length: len }
    } else if op == 0x14 {
        Instruction { itype: InstructionType::Inc, dest: Operand::Reg8(Reg8Operand::D), src: [Operand::Empty, Operand::Empty], cc: CCOperand::Always, length: len }
    } else if op == 0x15 {
        Instruction { itype: InstructionType::Dec, dest: Operand::Reg8(Reg8Operand::D), src: [Operand::Empty, Operand::Empty], cc: CCOperand::Always, length: len }
    } else if op == 0x16 {
        Instruction { itype: InstructionType::Ld, dest: Operand::Reg8(Reg8Operand::D), src: [Operand::Imm8(n), Operand::Empty], cc: CCOperand::Always, length: len }
    } else if op == 0x17 {
        Instruction { itype: InstructionType::Rla, dest: Operand::Empty, src: [Operand::Empty, Operand::Empty], cc: CCOperand::Always, length: len }
    } else if op == 0x18 {
        Instruction { itype: InstructionType::Jr, dest: Operand::Empty, src: [Operand::Imm8(n), Operand::Empty], cc: CCOperand::Always, length: len }
    } else if op == 0x19 {
        Instruction { itype: InstructionType::Add, dest: Operand::Reg16(Reg16Operand::Hl), src: [Operand::Reg16(Reg16Operand::De), Operand::Empty], cc: CCOperand::Always, length: len }
    } else if op == 0x1a {
        Instruction { itype: InstructionType::Ld, dest: Operand::Reg8(Reg8Operand::A), src: [Operand::MemReg(Reg16Operand::De), Operand::Empty], cc: CCOperand::Always, length: len }
    } else if op == 0x1b {
        Instruction { itype: InstructionType::Dec, dest: Operand::Reg16(Reg16Operand::De), src: [Operand::Empty, Operand::Empty], cc: CCOperand::Always, length: len }
    } else if op == 0x1c {
        Instruction { itype: InstructionType::Inc, dest: Operand::Reg8(Reg8Operand::E), src: [Operand::Empty, Operand::Empty], cc: CCOperand::Always, length: len }
    } else if op == 0x1d {
        Instruction { itype: InstructionType::Dec, dest: Operand::Reg8(Reg8Operand::E), src: [Operand::Empty, Operand::Empty], cc: CCOperand::Always, length: len }
    } else if op == 0x1e {
        Instruction { itype: InstructionType::Ld, dest: Operand::Reg8(Reg8Operand::E), src: [Operand::Imm8(n), Operand::Empty], cc: CCOperand::Always, length: len }
    } else if op == 0x1f {
        Instruction { itype: InstructionType::Rra, dest: Operand::Empty, src: [Operand::Empty, Operand::Empty], cc: CCOperand::Always, length: len }
    } else if op == 0x20 {
        Instruction { itype: InstructionType::Jr, dest: Operand::Empty, src: [Operand::Imm8(n), Operand::Empty], cc: CCOperand::Nz, length: len }
    } else if op == 0x21 {
        Instruction { itype: InstructionType::Ld, dest: Operand::Reg16(Reg16Operand::Hl), src: [Operand::Imm16(nn), Operand::Empty], cc: CCOperand::Always, length: len }
    } else if op == 0x22 {
        Instruction { itype: InstructionType::Ldi, dest: Operand::MemReg(Reg16Operand::Hl), src: [Operand::Reg8(Reg8Operand::A), Operand::Empty], cc: CCOperand::Always, length: len }
    } else if op == 0x23 {
        Instruction { itype: InstructionType::Inc, dest: Operand::Reg16(Reg16Operand::Hl), src: [Operand::Empty, Operand::Empty], cc: CCOperand::Always, length: len }
    } else if op == 0x24 {
        Instruction { itype: InstructionType::Inc, dest: Operand::Reg8(Reg8Operand::H), src: [Operand::Empty, Operand::Empty], cc: CCOperand::Always, length: len }
    } else if op == 0x25 {
        Instruction { itype: InstructionType::Dec, dest: Operand::Reg8(Reg8Operand::H), src: [Operand::Empty, Operand::Empty], cc: CCOperand::Always, length: len }
    } else if op == 0x26 {
        Instruction { itype: InstructionType::Ld, dest: Operand::Reg8(Reg8Operand::H), src: [Operand::Imm8(n), Operand::Empty], cc: CCOperand::Always, length: len }
    } else if op == 0x27 {
        Instruction { itype: InstructionType::Daa, dest: Operand::Empty, src: [Operand::Empty, Operand::Empty], cc: CCOperand::Always, length: len }
    } else if op == 0x28 {
        Instruction { itype: InstructionType::Jr, dest: Operand::Empty, src: [Operand::Imm8(n), Operand::Empty], cc: CCOperand::Z, length: len }
    } else if op == 0x29 {
        Instruction { itype: InstructionType::Add, dest: Operand::Reg16(Reg16Operand::Hl), src: [Operand::Reg16(Reg16Operand::Hl), Operand::Empty], cc: CCOperand::Always, length: len }
    } else if op == 0x2a {
        Instruction { itype: InstructionType::Ldi, dest: Operand::Reg8(Reg8Operand::A), src: [Operand::MemReg(Reg16Operand::Hl), Operand::Empty], cc: CCOperand::Always, length: len }
    } else if op == 0x2b {
        Instruction { itype: InstructionType::Dec, dest: Operand::Reg16(Reg16Operand::Hl), src: [Operand::Empty, Operand::Empty], cc: CCOperand::Always, length: len }
    } else if op == 0x2c {
        Instruction { itype: InstructionType::Inc, dest: Operand::Reg8(Reg8Operand::L), src: [Operand::Empty, Operand::Empty], cc: CCOperand::Always, length: len }
    } else if op == 0x2d {
        Instruction { itype: InstructionType::Dec, dest: Operand::Reg8(Reg8Operand::L), src: [Operand::Empty, Operand::Empty], cc: CCOperand::Always, length: len }
    } else if op == 0x2e {
        Instruction { itype: InstructionType::Ld, dest: Operand::Reg8(Reg8Operand::L), src: [Operand::Imm8(n), Operand::Empty], cc: CCOperand::Always, length: len }
    } else if op == 0x2f {
        Instruction { itype: InstructionType::Cpl, dest: Operand::Empty, src: [Operand::Empty, Operand::Empty], cc: CCOperand::Always, length: len }
    } else if op == 0x30 {
        Instruction { itype: InstructionType::Jr, dest: Operand::Empty, src: [Operand::Imm8(n), Operand::Empty], cc: CCOperand::Nc, length: len }
    } else if op == 0x31 {
        Instruction { itype: InstructionType::Ld, dest: Operand::Reg16(Reg16Operand::Sp), src: [Operand::Imm16(nn), Operand::Empty], cc: CCOperand::Always, length: len }
    } else if op == 0x32 {
        Instruction { itype: InstructionType::Ldd, dest: Operand::MemReg(Reg16Operand::Hl), src: [Operand::Reg8(Reg8Operand::A), Operand::Empty], cc: CCOperand::Always, length: len }
    } else if op == 0x33 {
        Instruction { itype: InstructionType::Inc, dest: Operand::Reg16(Reg16Operand::Sp), src: [Operand::Empty, Operand::Empty], cc: CCOperand::Always, length: len }
    } else if op == 0x34 {
        Instruction { itype: InstructionType::Inc, dest: Operand::MemReg(Reg16Operand::Hl), src: [Operand::Empty, Operand::Empty], cc: CCOperand::Always, length: len }
    } else if op == 0x35 {
        Instruction { itype: InstructionType::Dec, dest: Operand::MemReg(Reg16Operand::Hl), src: [Operand::Empty, Operand::Empty], cc: CCOperand::Always, length: len }
    } else if op == 0x36 {
        Instruction { itype: InstructionType::Ld, dest: Operand::MemReg(Reg16Operand::Hl), src: [Operand::Imm8(n), Operand::Empty], cc: CCOperand::Always, length: len }
    } else if op == 0x37 {
        Instruction { itype: InstructionType::Scf, dest: Operand::Empty, src: [Operand::Empty, Operand::Empty], cc: CCOperand::Always, length: len }
    } else if op == 0x38 {
        Instruction { itype: InstructionType::Jr, dest: Operand::Empty, src: [Operand::Imm8(n), Operand::Empty], cc: CCOperand::C, length: len }
    } else if op == 0x39 {
        Instruction { itype: InstructionType::Add, dest: Operand::Reg16(Reg16Operand::Hl), src: [Operand::Reg16(Reg16Operand::Sp), Operand::Empty], cc: CCOperand::Always, length: len }
    } else if op == 0x3a {
        Instruction { itype: InstructionType::Ldd, dest: Operand::Reg8(Reg8Operand::A), src: [Operand::MemReg(Reg16Operand::Hl), Operand::Empty], cc: CCOperand::Always, length: len }
    } else if op == 0x3b {
        Instruction { itype: InstructionType::Dec, dest: Operand::Reg16(Reg16Operand::Sp), src: [Operand::Empty, Operand::Empty], cc: CCOperand::Always, length: len }
    } else if op == 0x3c {
        Instruction { itype: InstructionType::Inc, dest: Operand::Reg8(Reg8Operand::A), src: [Operand::Empty, Operand::Empty], cc: CCOperand::Always, length: len }
    } else if op == 0x3d {
        Instruction { itype: InstructionType::Dec, dest: Operand::Reg8(Reg8Operand::A), src: [Operand::Empty, Operand::Empty], cc: CCOperand::Always, length: len }
    } else if op == 0x3e {
        Instruction { itype: InstructionType::Ld, dest: Operand::Reg8(Reg8Operand::A), src: [Operand::Imm8(n), Operand::Empty], cc: CCOperand::Always, length: len }
    } else if op == 0x3f {
        Instruction { itype: InstructionType::Ccf, dest: Operand::Empty, src: [Operand::Empty, Operand::Empty], cc: CCOperand::Always, length: len }
    } else if op == 0x76 {
        Instruction { itype: InstructionType::Halt, dest: Operand::Empty, src: [Operand::Empty, Operand::Empty], cc: CCOperand::Always, length: len }
    } else if op == 0xc0 {
        Instruction { itype: InstructionType::Ret, dest: Operand::Empty, src: [Operand::Empty, Operand::Empty], cc: CCOperand::Nz, length: len }
    } else if op == 0xc1 {
        Instruction { itype: InstructionType::Pop, dest: Operand::Reg16(Reg16Operand::Bc), src: [Operand::Empty, Operand::Empty], cc: CCOperand::Always, length: len }
    } else if op == 0xc2 {
        Instruction { itype: InstructionType::Jp, dest: Operand::Empty, src: [Operand::Imm16(nn), Operand::Empty], cc: CCOperand::Nz, length: len }
    } else if op == 0xc3 {
        Instruction { itype: InstructionType::Jp, dest: Operand::Empty, src: [Operand::Imm16(nn), Operand::Empty], cc: CCOperand::Always, length: len }
    } else if op == 0xc4 {
        Instruction { itype: InstructionType::Call, dest: Operand::Empty, src: [Operand::Imm16(nn), Operand::Empty], cc: CCOperand::Nz, length: len }
    } else if op == 0xc5 {
        Instruction { itype: InstructionType::Push, dest: Operand::Empty, src: [Operand::Reg16(Reg16Operand::Bc), Operand::Empty], cc: CCOperand::Always, length: len }
    } else if op == 0xc6 {
        Instruction { itype: InstructionType::Add, dest: Operand::Reg8(Reg8Operand::A), src: [Operand::Imm8(n), Operand::Empty], cc: CCOperand::Always, length: len }
    } else if op == 0xc7 {
        Instruction { itype: InstructionType::Rst, dest: Operand::Empty, src: [Operand::Imm8(0x00), Operand::Empty], cc: CCOperand::Always, length: len }
    } else if op == 0xc8 {
        Instruction { itype: InstructionType::Ret, dest: Operand::Empty, src: [Operand::Empty, Operand::Empty], cc: CCOperand::Z, length: len }
    } else if op == 0xc9 {
        Instruction { itype: InstructionType::Ret, dest: Operand::Empty, src: [Operand::Empty, Operand::Empty], cc: CCOperand::Always, length: len }
    } else if op == 0xca {
        Instruction { itype: InstructionType::Jp, dest: Operand::Empty, src: [Operand::Imm16(nn), Operand::Empty], cc: CCOperand::Z, length: len }
    } else if op == 0xcc {
        Instruction { itype: InstructionType::Call, dest: Operand::Empty, src: [Operand::Imm16(nn), Operand::Empty], cc: CCOperand::Z, length: len }
    } else if op == 0xcd {
        Instruction { itype: InstructionType::Call, dest: Operand::Empty, src: [Operand::Imm16(nn), Operand::Empty], cc: CCOperand::Always, length: len }
    } else if op == 0xce {
        Instruction { itype: InstructionType::Adc, dest: Operand::Reg8(Reg8Operand::A), src: [Operand::Imm8(n), Operand::Empty], cc: CCOperand::Always, length: len }
    } else if op == 0xcf {
        Instruction { itype: InstructionType::Rst, dest: Operand::Empty, src: [Operand::Imm8(0x08), Operand::Empty], cc: CCOperand::Always, length: len }
    } else if op == 0xd0 {
        Instruction { itype: InstructionType::Ret, dest: Operand::Empty, src: [Operand::Empty, Operand::Empty], cc: CCOperand::Nc, length: len }
    } else if op == 0xd1 {
        Instruction { itype: InstructionType::Pop, dest: Operand::Reg16(Reg16Operand::De), src: [Operand::Empty, Operand::Empty], cc: CCOperand::Always, length: len }
    } else if op == 0xd2 {
        Instruction { itype: InstructionType::Jp, dest: Operand::Empty, src: [Operand::Imm16(nn), Operand::Empty], cc: CCOperand::Nc, length: len }
    } else if op == 0xd3 {
        Instruction { itype: InstructionType::Invalid, dest: Operand::Empty, src: [Operand::Empty, Operand::Empty], cc: CCOperand::Always, length: len }
    } else if op == 0xd4 {
        Instruction { itype: InstructionType::Call, dest: Operand::Empty, src: [Operand::Imm16(nn), Operand::Empty], cc: CCOperand::Nc, length: len }
    } else if op == 0xd5 {
        Instruction { itype: InstructionType::Push, dest: Operand::Empty, src: [Operand::Reg16(Reg16Operand::De), Operand::Empty], cc: CCOperand::Always, length: len }
    } else if op == 0xd6 {
        Instruction { itype: InstructionType::Sub, dest: Operand::Reg8(Reg8Operand::A), src: [Operand::Imm8(n), Operand::Empty], cc: CCOperand::Always, length: len }
    } else if op == 0xd7 {
        Instruction { itype: InstructionType::Rst, dest: Operand::Empty, src: [Operand::Imm8(0x10), Operand::Empty], cc: CCOperand::Always, length: len }
    } else if op == 0xd8 {
        Instruction { itype: InstructionType::Ret, dest: Operand::Empty, src: [Operand::Empty, Operand::Empty], cc: CCOperand::C, length: len }
    } else if op == 0xd9 {
        Instruction { itype: InstructionType::Reti, dest: Operand::Empty, src: [Operand::Empty, Operand::Empty], cc: CCOperand::Always, length: len }
    } else if op == 0xda {
        Instruction { itype: InstructionType::Jp, dest: Operand::Empty, src: [Operand::Imm16(nn), Operand::Empty], cc: CCOperand::C, length: len }
    } else if op == 0xdb {
        Instruction { itype: InstructionType::Invalid, dest: Operand::Empty, src: [Operand::Empty, Operand::Empty], cc: CCOperand::Always, length: len }
    } else if op == 0xdc {
        Instruction { itype: InstructionType::Call, dest: Operand::Empty, src: [Operand::Imm16(nn), Operand::Empty], cc: CCOperand::C, length: len }
    } else if op == 0xdd {
        Instruction { itype: InstructionType::Invalid, dest: Operand::Empty, src: [Operand::Empty, Operand::Empty], cc: CCOperand::Always, length: len }
    } else if op == 0xde {
        Instruction { itype: InstructionType::Sbc, dest: Operand::Reg8(Reg8Operand::A), src: [Operand::Imm8(n), Operand::Empty], cc: CCOperand::Always, length: len }
    } else if op == 0xdf {
        Instruction { itype: InstructionType::Rst, dest: Operand::Empty, src: [Operand::Imm8(0x18), Operand::Empty], cc: CCOperand::Always, length: len }
    } else if op == 0xe0 {
        Instruction { itype: InstructionType::Ld, dest: Operand::MemIoImm(n), src: [Operand::Reg8(Reg8Operand::A), Operand::Empty], cc: CCOperand::Always, length: len }
    } else if op == 0xe1 {
        Instruction { itype: InstructionType::Pop, dest: Operand::Reg16(Reg16Operand::Hl), src: [Operand::Empty, Operand::Empty], cc: CCOperand::Always, length: len }
    } else if op == 0xe2 {
        Instruction { itype: InstructionType::Ld, dest: Operand::MemIoReg(Reg8Operand::C), src: [Operand::Reg8(Reg8Operand::A), Operand::Empty], cc: CCOperand::Always, length: len }
    } else if op == 0xe3 {
        Instruction { itype: InstructionType::Invalid, dest: Operand::Empty, src: [Operand::Empty, Operand::Empty], cc: CCOperand::Always, length: len }
    } else if op == 0xe4 {
        Instruction { itype: InstructionType::Invalid, dest: Operand::Empty, src: [Operand::Empty, Operand::Empty], cc: CCOperand::Always, length: len }
    } else if op == 0xe5 {
        Instruction { itype: InstructionType::Push, dest: Operand::Empty, src: [Operand::Reg16(Reg16Operand::Hl), Operand::Empty], cc: CCOperand::Always, length: len }
    } else if op == 0xe6 {
        Instruction { itype: InstructionType::And, dest: Operand::Reg8(Reg8Operand::A), src: [Operand::Imm8(n), Operand::Empty], cc: CCOperand::Always, length: len }
    } else if op == 0xe7 {
        Instruction { itype: InstructionType::Rst, dest: Operand::Empty, src: [Operand::Imm8(0x20), Operand::Empty], cc: CCOperand::Always, length: len }
    } else if op == 0xe8 {
        Instruction { itype: InstructionType::Add, dest: Operand::Reg16(Reg16Operand::Sp), src: [Operand::Imm8(n), Operand::Empty], cc: CCOperand::Always, length: len }
    } else if op == 0xe9 {
        Instruction { itype: InstructionType::Jp, dest: Operand::Empty, src: [Operand::Reg16(Reg16Operand::Hl), Operand::Empty], cc: CCOperand::Always, length: len }
    } else if op == 0xea {
        Instruction { itype: InstructionType::Ld, dest: Operand::MemImm(nn), src: [Operand::Reg8(Reg8Operand::A), Operand::Empty], cc: CCOperand::Always, length: len }
    } else if op == 0xeb {
        Instruction { itype: InstructionType::Invalid, dest: Operand::Empty, src: [Operand::Empty, Operand::Empty], cc: CCOperand::Always, length: len }
    } else if op == 0xec {
        Instruction { itype: InstructionType::Invalid, dest: Operand::Empty, src: [Operand::Empty, Operand::Empty], cc: CCOperand::Always, length: len }
    } else if op == 0xed {
        Instruction { itype: InstructionType::Invalid, dest: Operand::Empty, src: [Operand::Empty, Operand::Empty], cc: CCOperand::Always, length: len }
    } else if op == 0xee {
        Instruction { itype: InstructionType::Xor, dest: Operand::Reg8(Reg8Operand::A), src: [Operand::Imm8(n), Operand::Empty], cc: CCOperand::Always, length: len }
    } else if op == 0xef {
        Instruction { itype: InstructionType::Rst, dest: Operand::Empty, src: [Operand::Imm8(0x28), Operand::Empty], cc: CCOperand::Always, length: len }
    } else if op == 0xf0 {
        Instruction { itype: InstructionType::Ld, dest: Operand::Reg8(Reg8Operand::A), src: [Operand::MemIoImm(n), Operand::Empty], cc: CCOperand::Always, length: len }
    } else if op == 0xf1 {
        Instruction { itype: InstructionType::Pop, dest: Operand::Reg16(Reg16Operand::Af), src: [Operand::Empty, Operand::Empty], cc: CCOperand::Always, length: len }
    } else if op == 0xf2 {
        Instruction { itype: InstructionType::Ld, dest: Operand::Reg8(Reg8Operand::A), src: [Operand::MemIoReg(Reg8Operand::C), Operand::Empty], cc: CCOperand::Always, length: len }
    } else if op == 0xf3 {
        Instruction { itype: InstructionType::Di, dest: Operand::Empty, src: [Operand::Empty, Operand::Empty], cc: CCOperand::Always, length: len }
    } else if op == 0xf4 {
        Instruction { itype: InstructionType::Invalid, dest: Operand::Empty, src: [Operand::Empty, Operand::Empty], cc: CCOperand::Always, length: len }
    } else if op == 0xf5 {
        Instruction { itype: InstructionType::Push, dest: Operand::Empty, src: [Operand::Reg16(Reg16Operand::Af), Operand::Empty], cc: CCOperand::Always, length: len }
    } else if op == 0xf6 {
        Instruction { itype: InstructionType::Or, dest: Operand::Reg8(Reg8Operand::A), src: [Operand::Imm8(n), Operand::Empty], cc: CCOperand::Always, length: len }
    } else if op == 0xf7 {
        Instruction { itype: InstructionType::Rst, dest: Operand::Empty, src: [Operand::Imm8(0x30), Operand::Empty], cc: CCOperand::Always, length: len }
    } else if op == 0xf8 {
        Instruction { itype: InstructionType::Ld, dest: Operand::Reg16(Reg16Operand::Hl), src: [Operand::Reg16(Reg16Operand::Sp), Operand::Imm8(n)], cc: CCOperand::Always, length: len }
    } else if op == 0xf9 {
        Instruction { itype: InstructionType::Ld, dest: Operand::Reg16(Reg16Operand::Sp), src: [Operand::Reg16(Reg16Operand::Hl), Operand::Empty], cc: CCOperand::Always, length: len }
    } else if op == 0xfa {
        Instruction { itype: InstructionType::Ld, dest: Operand::Reg8(Reg8Operand::A), src: [Operand::MemImm(nn), Operand::Empty], cc: CCOperand::Always, length: len }
    } else if op == 0xfb {
        Instruction { itype: InstructionType::Ei, dest: Operand::Empty, src: [Operand::Empty, Operand::Empty], cc: CCOperand::Always, length: len }
    } else if op == 0xfc {
        Instruction { itype: InstructionType::Invalid, dest: Operand::Empty, src: [Operand::Empty, Operand::Empty], cc: CCOperand::Always, length: len }
    } else if op == 0xfd {
        Instruction { itype: InstructionType::Invalid, dest: Operand::Empty, src: [Operand::Empty, Operand::Empty], cc: CCOperand::Always, length: len }
    } else if op == 0xfe {
        Instruction { itype: InstructionType::Cp, dest: Operand::Reg8(Reg8Operand::A), src: [Operand::Imm8(n), Operand::Empty], cc: CCOperand::Always, length: len }
    } else if op == 0xff {
        Instruction { itype: InstructionType::Rst, dest: Operand::Empty, src: [Operand::Imm8(0x38), Operand::Empty], cc: CCOperand::Always, length: len }
    } else if 0x40 <= op && op <= 0x7f {
        Instruction { itype: InstructionType::Ld, dest: op_lut(op / 8 % 8), src: [op_lut(op % 8), Operand::Empty], cc: CCOperand::Always, length: len }
    } else {
        Instruction { itype: alu_lut(op / 8 % 8), dest: Operand::Reg8(Reg8Operand::A), src: [op_lut(op % 8), Operand::Empty], cc: CCOperand::Always, length: len }
    }
}


} // verus!
