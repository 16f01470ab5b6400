//! The arithmetic/logic helpers shared by the executor: 8-bit
//! add/subtract with flags, the bitwise operations, and the rotate/shift
//! family.
//!
//! Flag rules: Z is set iff the 8-bit result is zero; N marks the
//! subtraction family; H is a carry or borrow out of bit 3; C is a carry or
//! borrow out of bit 7.

use vstd::prelude::*;
use crate::instruction::InstructionType;

verus! {

/// The mnemonics `arith_op` accepts.
pub open spec fn is_arith_type(itype: InstructionType) -> bool {
    match itype {
        InstructionType::Add
        | InstructionType::Adc
        | InstructionType::Inc
        | InstructionType::Sub
        | InstructionType::Sbc
        | InstructionType::Dec
        | InstructionType::Cp => true,
        _ => false,
    }
}

/// The additive mnemonics; the rest of `is_arith_type` subtracts.
pub open spec fn is_add_type(itype: InstructionType) -> bool {
    match itype {
        InstructionType::Add | InstructionType::Adc | InstructionType::Inc => true,
        _ => false,
    }
}

/// The carry actually consumed: only ADC and SBC use the carry flag.
pub open spec fn spec_carry_in(itype: InstructionType, ci: u8) -> u8 {
    match itype {
        InstructionType::Adc | InstructionType::Sbc => ci,
        _ => 0,
    }
}

/// Result and flags (result, Z, N, H, C) of an 8-bit add or subtract.
pub open spec fn spec_arith(itype: InstructionType, acc: u8, op: u8, ci: u8) -> (u8, bool, bool, bool, bool) {
    let cin = spec_carry_in(itype, ci);
    if is_add_type(itype) {
        let r = ((acc + op + cin) % 256) as u8;
        (r, r == 0, false, acc % 16 + op % 16 + cin >= 16, acc + op + cin >= 256)
    } else {
        let r = ((acc + 512 - op - cin) % 256) as u8;
        (r, r == 0, true, (acc % 16) < op % 16 + cin, acc < op + cin)
    }
}

/// 8-bit add/subtract with the LR35902 flag rules.  `ci` is the carry flag
/// as 0 or 1; it is consumed by ADC and SBC only.
pub fn arith_op(itype: InstructionType, acc: u8, op: u8, ci: u8) -> (r: (u8, bool, bool, bool, bool))
    requires
        is_arith_type(itype),
        ci <= 1,
    ensures
        r == spec_arith(itype, acc, op, ci),
{
    let cin: u16 = match itype {
        InstructionType::Adc | InstructionType::Sbc => ci as u16,
        _ => 0,
    };
    match itype {
        InstructionType::Add | InstructionType::Adc | InstructionType::Inc => {
            let sum: u16 = acc as u16 + op as u16 + cin;
            let low: u16 = (acc % 16) as u16 + (op % 16) as u16 + cin;
            let result = (sum % 256) as u8;
            (result, result == 0, false, low >= 16, sum >= 256)
        },
        _ => {
            let diff: u16 = acc as u16 + 512 - op as u16 - cin;
            let result = (diff % 256) as u8;
            let h = ((acc % 16) as u16) < (op % 16) as u16 + cin;
            let c = (acc as u16) < op as u16 + cin;
            (result, result == 0, true, h, c)
        },
    }
}

/// The mnemonics `logic_op` accepts.
pub open spec fn is_logic_type(itype: InstructionType) -> bool {
    match itype {
        InstructionType::And | InstructionType::Or | InstructionType::Xor => true,
        _ => false,
    }
}

/// Result of a bitwise AND/OR/XOR on the accumulator.
pub open spec fn spec_logic(itype: InstructionType, acc: u8, op: u8) -> u8 {
    match itype {
        InstructionType::And => acc & op,
        InstructionType::Or => acc | op,
        _ => acc ^ op,
    }
}

/// Bitwise AND/OR/XOR; the returned flag is Z.
pub fn logic_op(itype: InstructionType, acc: u8, op: u8) -> (r: (u8, bool))
    requires
        is_logic_type(itype),
    ensures
        r.0 == spec_logic(itype, acc, op),
        r.1 == (r.0 == 0),
{
    let result: u8 = match itype {
        InstructionType::And => acc & op,
        InstructionType::Or => acc | op,
        _ => acc ^ op,
    };
    (result, result == 0)
}

/// The mnemonics `rot_shift_op` accepts.
pub open spec fn is_rot_shift_type(itype: InstructionType) -> bool {
    match itype {
        InstructionType::Rl
        | InstructionType::Rla
        | InstructionType::Rlc
        | InstructionType::Rlca
        | InstructionType::Rr
        | InstructionType::Rra
        | InstructionType::Rrc
        | InstructionType::Rrca
        | InstructionType::Sla
        | InstructionType::Sra
        | InstructionType::Srl
        | InstructionType::Swap => true,
        _ => false,
    }
}

/// Result and carry-out of a rotate, shift or nibble swap.  `ci` is the
/// carry flag as 0 or 1, consumed by the through-carry rotates RL and RR.
pub open spec fn spec_rot_shift(itype: InstructionType, acc: u8, ci: u8) -> (u8, bool) {
    let high_c = acc >= 128;
    let low_c = acc % 2 == 1;
    match itype {
        InstructionType::Rl | InstructionType::Rla => (((acc % 128) * 2 + ci) as u8, high_c),
        InstructionType::Rlc | InstructionType::Rlca => (
            ((acc % 128) * 2 + acc / 128) as u8,
            high_c,
        ),
        InstructionType::Rr | InstructionType::Rra => ((acc / 2 + ci * 128) as u8, low_c),
        InstructionType::Rrc | InstructionType::Rrca => (
            (acc / 2 + (acc % 2) * 128) as u8,
            low_c,
        ),
        InstructionType::Sla => (((acc % 128) * 2) as u8, high_c),
        InstructionType::Sra => ((acc / 2 + acc / 128 * 128) as u8, low_c),
        InstructionType::Srl => ((acc / 2) as u8, low_c),
        _ => (((acc % 16) * 16 + acc / 16) as u8, false),
    }
}

/// Rotates, shifts and the nibble swap, with their carry-out.
pub fn rot_shift_op(itype: InstructionType, acc: u8, ci: u8) -> (r: (u8, bool))
    requires
        is_rot_shift_type(itype),
        ci <= 1,
    ensures
        r == spec_rot_shift(itype, acc, ci),
{
    let high_c = acc >= 128;
    let low_c = acc % 2 == 1;
    match itype {
        InstructionType::Rl | InstructionType::Rla => ((acc % 128) * 2 + ci, high_c),
        InstructionType::Rlc | InstructionType::Rlca => ((acc % 128) * 2 + acc / 128, high_c),
        InstructionType::Rr | InstructionType::Rra => (acc / 2 + ci * 128, low_c),
        InstructionType::Rrc | InstructionType::Rrca => (acc / 2 + (acc % 2) * 128, low_c),
        InstructionType::Sla => ((acc % 128) * 2, high_c),
        InstructionType::Sra => (acc / 2 + acc / 128 * 128, low_c),
        InstructionType::Srl => (acc / 2, low_c),
        _ => ((acc % 16) * 16 + acc / 16, false),
    }
}

} // verus!
