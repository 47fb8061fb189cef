//! Arithmetic helpers for the 8-bit and 16-bit registers: wraparound,
//! byte/word composition and page bookkeeping.

use vstd::prelude::*;

verus! {

/// One step of wraparound into the 16-bit address space; total on the sums
/// and differences the processor forms (they stay within one modulus of it).
pub open spec fn wrap16(n: int) -> int {
    if n < 0 {
        n + 0x10000
    } else if n >= 0x10000 {
        n - 0x10000
    } else {
        n
    }
}

/// One step of wraparound into the 8-bit range.
pub open spec fn wrap8(n: int) -> int {
    if n < 0 {
        n + 0x100
    } else if n >= 0x100 {
        n - 0x100
    } else {
        n
    }
}

/// The value of a byte read as a two's-complement signed offset.
pub open spec fn signed8(b: u8) -> int {
    if b >= 0x80 {
        b - 0x100
    } else {
        b as int
    }
}

/// High byte of a 16-bit word.
pub open spec fn hi8(w: u16) -> u8 {
    (w / 0x100) as u8
}

/// Low byte of a 16-bit word.
pub open spec fn lo8(w: u16) -> u8 {
    (w % 0x100) as u8
}

/// The 256-byte page an address lies in.
pub open spec fn page_of(a: int) -> int {
    a / 0x100
}

pub open spec fn spec_make_address(c: u8, d: u8) -> u16 {
    (d * 0x100 + c) as u16
}

/// Combines an instruction's two operand bytes, low byte first, into the
/// 16-bit address they encode.
#[verifier::when_used_as_spec(spec_make_address)]
pub fn make_address(c: u8, d: u8) -> (r: u16)
    ensures
        r == spec_make_address(c, d),
        r == d * 0x100 + c,
{
    (d as u16) * 0x100 + (c as u16)
}

/// 16-bit addition with natural unsigned wraparound.
pub fn word_plus(a: u16, b: u16) -> (r: u16)
    ensures
        r == wrap16(a + b),
{
    let s: u32 = a as u32 + b as u32;
    if s > 0xffff {
        (s - 0x10000) as u16
    } else {
        s as u16
    }
}

/// The address a relative branch lands on: the follow-on address plus the
/// signed offset byte, wrapped into the 16-bit space.
pub fn branch_target(next: u16, off: u8) -> (r: u16)
    ensures
        r == wrap16(next + signed8(off)),
{
    let delta: i32 = if off >= 0x80 {
        off as i32 - 0x100
    } else {
        off as i32
    };
    let t: i32 = next as i32 + delta;
    if t < 0 {
        (t + 0x10000) as u16
    } else if t > 0xffff {
        (t - 0x10000) as u16
    } else {
        t as u16
    }
}

} // verus!
