//! The packed single-byte encoding of the seven condition flags, used when
//! the status register is pushed on or pulled off the stack.
//!
//! Bit positions: sign `0x80`, overflow `0x40`, break `0x10`, decimal `0x08`,
//! interrupt-disable `0x04`, zero `0x02`, carry `0x01`. Bit `0x20` is unused
//! and stored clear.

use vstd::prelude::*;

verus! {

/// Whether a result byte sets the sign flag (its top bit is on).
pub open spec fn sign8(v: u8) -> bool {
    v >= 0x80
}

/// Whether `mask`'s bits are all set in `s`.
pub open spec fn bit_set(s: u8, mask: u8) -> bool {
    s & mask == mask
}

/// The packed status byte for the given flag values.
pub open spec fn status_bits(
    sign: bool,
    overflow: bool,
    brk: bool,
    decimal: bool,
    interrupt: bool,
    zero: bool,
    carry: bool,
) -> u8 {
    ((if sign {
        0x80int
    } else {
        0int
    }) + (if overflow {
        0x40int
    } else {
        0int
    }) + (if brk {
        0x10int
    } else {
        0int
    }) + (if decimal {
        0x08int
    } else {
        0int
    }) + (if interrupt {
        0x04int
    } else {
        0int
    }) + (if zero {
        0x02int
    } else {
        0int
    }) + (if carry {
        0x01int
    } else {
        0int
    })) as u8
}

} // verus!
