//! Exercises of the instruction core: decode lengths, ALU flag rules, and
//! the round-trip identities.

use rustyboy::alu::{arith_op, logic_op, rot_shift_op};
use rustyboy::decode::{decode, opcode_length};
use rustyboy::instruction::InstructionType;
use rustyboy::regs::{GBRegisters, Reg16Operand, Reg8Operand};

#[test]
fn decode_lengths_match_the_standard_map() {
    // Every opcode decodes to a length of 1, 2 or 3.
    for op in 0..=255u8 {
        let insn = decode([op, 0x34, 0x12]);
        assert!(insn.length >= 1 && insn.length <= 3);
        assert_eq!(insn.length, opcode_length(op));
    }
    // Spot checks against the standard opcode map.
    assert_eq!(decode([0x00, 0, 0]).length, 1); // NOP
    assert_eq!(decode([0x06, 5, 0]).length, 2); // LD B, n
    assert_eq!(decode([0x01, 5, 6]).length, 3); // LD BC, nn
    assert_eq!(decode([0xc3, 5, 6]).length, 3); // JP nn
    assert_eq!(decode([0xcb, 0x11, 0]).length, 2); // RL C
    assert_eq!(decode([0xcb, 0x46, 0]).length, 2); // BIT 0, (HL)
    assert_eq!(decode([0xc7, 0, 0]).length, 1); // RST 00
    assert_eq!(decode([0xe8, 1, 0]).length, 2); // ADD SP, e8
    assert_eq!(decode([0xf8, 1, 0]).length, 2); // LD HL, SP+e8
    assert_eq!(decode([0x18, 1, 0]).length, 2); // JR e8
    assert_eq!(decode([0x76, 0, 0]).itype, InstructionType::Halt);
}

#[test]
fn inc_on_ff_wraps_with_z_and_h() {
    let (r, z, n, h, _c) = arith_op(InstructionType::Inc, 0xff, 1, 0);
    assert_eq!(r, 0x00);
    assert!(z);
    assert!(h);
    assert!(!n);
}

#[test]
fn dec_on_00_wraps_with_h_and_n() {
    let (r, z, n, h, _c) = arith_op(InstructionType::Dec, 0x00, 1, 0);
    assert_eq!(r, 0xff);
    assert!(!z);
    assert!(h);
    assert!(n);
}

#[test]
fn add_a_a_with_80() {
    let (r, z, n, h, c) = arith_op(InstructionType::Add, 0x80, 0x80, 0);
    assert_eq!(r, 0x00);
    assert!(z);
    assert!(!n);
    assert!(!h);
    assert!(c);
}

#[test]
fn adc_consumes_the_carry() {
    let (r, _z, _n, _h, c) = arith_op(InstructionType::Adc, 0xfe, 0x01, 1);
    assert_eq!(r, 0x00);
    assert!(c);
}

#[test]
fn sub_borrow_sets_carry() {
    let (r, z, n, h, c) = arith_op(InstructionType::Sub, 0x00, 0x01, 0);
    assert_eq!(r, 0xff);
    assert!(!z);
    assert!(n);
    assert!(h);
    assert!(c);
}

#[test]
fn swap_twice_is_identity() {
    for v in 0..=255u8 {
        let (once, c1) = rot_shift_op(InstructionType::Swap, v, 0);
        let (twice, c2) = rot_shift_op(InstructionType::Swap, once, 0);
        assert_eq!(twice, v);
        assert!(!c1 && !c2);
    }
    assert_eq!(rot_shift_op(InstructionType::Swap, 0xa5, 0).0, 0x5a);
}

#[test]
fn logic_ops() {
    assert_eq!(logic_op(InstructionType::And, 0xf0, 0x0f), (0x00, true));
    assert_eq!(logic_op(InstructionType::Or, 0xf0, 0x0f), (0xff, false));
    assert_eq!(logic_op(InstructionType::Xor, 0xff, 0xff), (0x00, true));
}

#[test]
fn register_file_flags_read_zero_low_nibble() {
    let mut regs = GBRegisters::new();
    // Boot post-state: AF = 0x01B0.
    assert_eq!(regs.get16(Reg16Operand::Af), 0x01b0);
    regs.set16(Reg16Operand::Af, 0xffff);
    // The low nibble of F always reads zero.
    assert_eq!(regs.get16(Reg16Operand::Af), 0xfff0);
    regs.set16(Reg16Operand::Af, 0x1234);
    assert_eq!(regs.get16(Reg16Operand::Af) % 16, 0);
    regs.set8(Reg8Operand::A, 0x42);
    assert_eq!(regs.get8(Reg8Operand::A), 0x42);
}

#[test]
fn register_pairs_split_and_join() {
    let mut regs = GBRegisters::new();
    regs.set16(Reg16Operand::Hl, 0xbeef);
    assert_eq!(regs.get8(Reg8Operand::H), 0xbe);
    assert_eq!(regs.get8(Reg8Operand::L), 0xef);
    assert_eq!(regs.get16(Reg16Operand::Hl), 0xbeef);
}
