//! Condition-flag primitives: pure helpers that derive the Z, S, P flag bits
//! from an 8-bit result and the CY bit from an overflow indication.

use vstd::prelude::*;

verus! {

/// The Z flag: 1 exactly when the 8-bit result is zero.
pub open spec fn spec_z(num: u8) -> u8 {
    if num == 0 {
        1
    } else {
        0
    }
}

/// The S flag: the high bit (bit 7) of the 8-bit result.
pub open spec fn spec_s(num: u8) -> u8 {
    if num >= 128 {
        1
    } else {
        0
    }
}

/// The number of 1-bits in an 8-bit value, written over the bit weights.
pub open spec fn spec_ones(num: u8) -> int {
    (num / 1) % 2 + (num / 2) % 2 + (num / 4) % 2 + (num / 8) % 2 + (num / 16) % 2 + (num / 32) % 2
        + (num / 64) % 2 + (num / 128) % 2
}

/// The P flag: 1 exactly when the result has an even number of 1-bits.
pub open spec fn spec_p(num: u8) -> u8 {
    if spec_ones(num) % 2 == 0 {
        1
    } else {
        0
    }
}

/// The CY flag: 1 exactly when the operation carried or borrowed.
pub open spec fn spec_cy(has_overflowed: bool) -> u8 {
    if has_overflowed {
        1
    } else {
        0
    }
}

pub fn get_z(num: u8) -> (r: u8)
    ensures
        r == spec_z(num),
{
    if num == 0 {
        1
    } else {
        0
    }
}

pub fn get_s(num: u8) -> (r: u8)
    ensures
        r == spec_s(num),
{
    if num >= 128 {
        1
    } else {
        0
    }
}

pub fn get_p(num: u8) -> (r: u8)
    ensures
        r == spec_p(num),
{
    let ones: u8 = (num / 1) % 2 + (num / 2) % 2 + (num / 4) % 2 + (num / 8) % 2 + (num / 16) % 2
        + (num / 32) % 2 + (num / 64) % 2 + (num / 128) % 2;
    if ones % 2 == 0 {
        1
    } else {
        0
    }
}

pub fn get_cy(has_overflowed: bool) -> (r: u8)
    ensures
        r == spec_cy(has_overflowed),
{
    if has_overflowed {
        1
    } else {
        0
    }
}

} // verus!
