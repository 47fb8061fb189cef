//! The byte-addressable 16-bit address space the processor executes against.
//!
//! The processor core never caches memory contents between instructions; it
//! reads and writes single bytes, and reads little-endian words, through this
//! type. The reset vector lives at `0xFFFC`, the interrupt vector at `0xFFFE`,
//! and the stack occupies the fixed page `0x0100`-`0x01FF`.

use vstd::prelude::*;

use crate::arith::make_address;
use crate::arith::word_plus;
use crate::arith::wrap16;

verus! {

/// The little-endian word stored at `a`: low byte at `a`, high byte at
/// `a + 1` with natural 16-bit wraparound of the second address.
pub open spec fn word_at(m: Seq<u8>, a: int) -> int {
    m[a] + 0x100 * m[wrap16(a + 1)]
}

/// A 64 KiB byte-addressable memory.
pub struct Memory {
    bytes: Vec<u8>,
}

impl View for Memory {
    type V = Seq<u8>;

    closed spec fn view(&self) -> Seq<u8> {
        self.bytes@
    }
}

impl Memory {
    #[verifier::type_invariant]
    spec fn inv(self) -> bool {
        self.bytes.len() == 0x10000
    }

    /// A fresh address space holding zero in every cell.
    pub fn new() -> (r: Memory)
        ensures
            r@.len() == 0x10000,
            forall|i: int| 0 <= i < 0x10000 ==> r@[i] == 0u8,
    {
        let mut bytes: Vec<u8> = Vec::new();
        while bytes.len() < 0x10000
            invariant
                bytes.len() <= 0x10000,
                forall|i: int| 0 <= i < bytes.len() ==> bytes@[i] == 0u8,
            decreases 0x10000 - bytes.len(),
        {
            bytes.push(0);
        }
        Memory { bytes }
    }

    /// The byte stored at `address`.
    pub fn read_byte(&self, address: u16) -> (r: u8)
        ensures
            r == self@[address as int],
            self@.len() == 0x10000,
    {
        proof {
            use_type_invariant(self);
        }
        self.bytes[address as usize]
    }

    /// Stores `value` at `address`.
    pub fn write_byte(&mut self, address: u16, value: u8)
        ensures
            final(self)@ == old(self)@.update(address as int, value),
            final(self)@.len() == 0x10000,
        no_unwind
    {
        proof {
            use_type_invariant(&*self);
        }
        self.bytes[address as usize] = value;
    }

    /// The little-endian word at `address`: low byte there, high byte at the
    /// next address, with no wraparound beyond natural 16-bit overflow.
    pub fn read_word(&self, address: u16) -> (r: u16)
        ensures
            r == word_at(self@, address as int),
            self@.len() == 0x10000,
    {
        let lo = self.read_byte(address);
        let hi = self.read_byte(word_plus(address, 1));
        make_address(lo, hi)
    }
}

} // verus!
