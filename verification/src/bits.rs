//! Bit-level helpers phrased arithmetically: place values and single-bit
//! extraction inside a byte.

use vstd::prelude::*;

verus! {

/// 2 to the power `i`, for bit positions inside a byte.
pub open spec fn spec_pow2_u8(i: nat) -> u8 {
    if i == 0 {
        1
    } else if i == 1 {
        2
    } else if i == 2 {
        4
    } else if i == 3 {
        8
    } else if i == 4 {
        16
    } else if i == 5 {
        32
    } else if i == 6 {
        64
    } else {
        128
    }
}

/// Bit `i` of `b`, as 0 or 1.
pub open spec fn spec_bit_u8(b: u8, i: nat) -> u8 {
    b / spec_pow2_u8(i) % 2
}

/// Bit `i` of `b`, as 0 or 1.
pub fn bit_u8(b: u8, i: u8) -> (r: u8)
    requires
        i < 8,
    ensures
        r == spec_bit_u8(b, i as nat),
{
    let p: u8 = if i == 0 {
        1
    } else if i == 1 {
        2
    } else if i == 2 {
        4
    } else if i == 3 {
        8
    } else if i == 4 {
        16
    } else if i == 5 {
        32
    } else if i == 6 {
        64
    } else {
        128
    };
    b / p % 2
}


/// 2 to the power `i`, for bit positions inside a byte.
pub fn pow2_u8(i: u8) -> (r: u8)
    requires
        i < 8,
    ensures
        r == spec_pow2_u8(i as nat),
{
    if i == 0 {
        1
    } else if i == 1 {
        2
    } else if i == 2 {
        4
    } else if i == 3 {
        8
    } else if i == 4 {
        16
    } else if i == 5 {
        32
    } else if i == 6 {
        64
    } else {
        128
    }
}

/// A set bit puts its place value inside the byte; a clear bit leaves room
/// for it.
pub proof fn lemma_bit_bound(v: u8, i: u8)
    requires
        i < 8,
    ensures
        spec_bit_u8(v, i as nat) == 1 ==> v >= spec_pow2_u8(i as nat),
        spec_bit_u8(v, i as nat) == 0 ==> v + spec_pow2_u8(i as nat) <= 255,
{
    let p = spec_pow2_u8(i as nat);
    assert(v / p % 2 == 0 ==> v + p <= 255) by (nonlinear_arith)
        requires
            v <= 255,
            (p == 1 || p == 2 || p == 4 || p == 8 || p == 16 || p == 32 || p == 64 || p == 128),
    ;
}

} // verus!
