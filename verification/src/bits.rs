//! Small numeric helpers shared by the decoder, the lowering rules and the
//! IR evaluator: sign extension, truncation to a field width, and signed
//! views of 64-bit register values.

use vstd::prelude::*;

verus! {

/// Sign extension of a 16-bit value to 64 bits.
pub open spec fn sext16(x: u16) -> u64 {
    if x < 0x8000 {
        x as u64
    } else {
        (x + 0xFFFF_FFFF_FFFF_0000) as u64
    }
}

/// Sign extension of the low 32 bits of `x` (which must already be a 32-bit
/// value) to 64 bits.
pub open spec fn sext32(x: u64) -> u64
    recommends
        x < 0x1_0000_0000,
{
    if x < 0x8000_0000 {
        x
    } else {
        (x + 0xFFFF_FFFF_0000_0000) as u64
    }
}

/// Sign extension of the low 8 bits of `x` (an 8-bit value) to 64 bits.
pub open spec fn sext8_64(x: u64) -> u64
    recommends
        x < 0x100,
{
    if x < 0x80 {
        x
    } else {
        (x + 0xFFFF_FFFF_FFFF_FF00) as u64
    }
}

/// Sign extension of the low 16 bits of `x` (a 16-bit value) to 64 bits.
pub open spec fn sext16_64(x: u64) -> u64
    recommends
        x < 0x1_0000,
{
    if x < 0x8000 {
        x
    } else {
        (x + 0xFFFF_FFFF_FFFF_0000) as u64
    }
}

/// Executable form of [`sext8_64`].
pub fn sign_extend8_64(x: u64) -> (r: u64)
    requires
        x < 0x100,
    ensures
        r == sext8_64(x),
{
    if x < 0x80 {
        x
    } else {
        x + 0xFFFF_FFFF_FFFF_FF00
    }
}

/// Executable form of [`sext16_64`].
pub fn sign_extend16_64(x: u64) -> (r: u64)
    requires
        x < 0x1_0000,
    ensures
        r == sext16_64(x),
{
    if x < 0x8000 {
        x
    } else {
        x + 0xFFFF_FFFF_FFFF_0000
    }
}

/// The low 32 bits of a 64-bit value.
pub open spec fn low32(x: u64) -> u64 {
    x % 0x1_0000_0000
}

/// The 64-bit value reinterpreted as a signed integer.
pub open spec fn as_signed(x: u64) -> int {
    if x < 0x8000_0000_0000_0000 {
        x as int
    } else {
        x - 0x1_0000_0000_0000_0000
    }
}

/// Executable sign extension of a 16-bit value.
pub fn sign_extend16(x: u16) -> (r: u64)
    ensures
        r == sext16(x),
{
    if x < 0x8000 {
        x as u64
    } else {
        (x as u64) + 0xFFFF_FFFF_FFFF_0000
    }
}

/// Executable sign extension of an in-range 32-bit value.
pub fn sign_extend32(x: u64) -> (r: u64)
    requires
        x < 0x1_0000_0000,
    ensures
        r == sext32(x),
{
    if x < 0x8000_0000 {
        x
    } else {
        x + 0xFFFF_FFFF_0000_0000
    }
}

/// Signed less-than on the raw 64-bit register representation.
pub fn lt_signed(a: u64, b: u64) -> (r: bool)
    ensures
        r == (as_signed(a) < as_signed(b)),
{
    let a_neg = a >= 0x8000_0000_0000_0000;
    let b_neg = b >= 0x8000_0000_0000_0000;
    if a_neg == b_neg {
        a < b
    } else {
        a_neg
    }
}

} // verus!
