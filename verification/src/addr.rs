//! The addressing-mode matrix: spec-level effective-address computation and
//! the executable resolver methods the instruction handlers call.
//!
//! Read modes return the operand byte; write modes store a byte. The three
//! indexed modes that take a `check_page` flag charge one extra cycle, at
//! resolution time, when the high byte of the base address differs from the
//! high byte of the indexed address.

use vstd::prelude::*;

use crate::arith::make_address;
use crate::arith::page_of;
use crate::arith::spec_make_address;
use crate::arith::word_plus;
use crate::arith::wrap16;
use crate::arith::wrap8;
use crate::cpu::Cpu;
use crate::memory::word_at;
use crate::memory::Memory;

verus! {

/// The rule an opcode selects for locating its operand.
pub enum Mode {
    /// Operand byte follows the opcode.
    Immediate,
    /// The operand is the accumulator itself.
    Accumulator,
    /// One operand byte addresses page zero.
    ZeroPage,
    /// Zero-page address indexed by X, wrapping within page zero.
    ZeroPageX,
    /// Zero-page address indexed by Y, wrapping within page zero.
    ZeroPageY,
    /// Two operand bytes give the full address.
    Absolute,
    /// Absolute address indexed by X with natural 16-bit wraparound.
    AbsoluteX,
    /// Absolute address indexed by Y with natural 16-bit wraparound.
    AbsoluteY,
    /// Zero-page pointer indexed by X before dereference.
    IndirectX,
    /// Zero-page pointer dereferenced, then indexed by Y.
    IndirectY,
}

/// The instruction's first operand byte.
pub open spec fn arg1(c: Cpu, m: Seq<u8>) -> u8 {
    m[wrap16(c.pc + 1)]
}

/// The instruction's second operand byte.
pub open spec fn arg2(c: Cpu, m: Seq<u8>) -> u8 {
    m[wrap16(c.pc + 2)]
}

/// The un-indexed base address of the modes that can cross a page.
pub open spec fn base_addr(c: Cpu, m: Seq<u8>, mode: Mode) -> int {
    match mode {
        Mode::AbsoluteX => spec_make_address(arg1(c, m), arg2(c, m)) as int,
        Mode::AbsoluteY => spec_make_address(arg1(c, m), arg2(c, m)) as int,
        Mode::IndirectY => word_at(m, arg1(c, m) as int),
        _ => 0,
    }
}

/// The effective address the mode resolves to.
pub open spec fn eff_addr(c: Cpu, m: Seq<u8>, mode: Mode) -> int {
    match mode {
        Mode::Immediate => wrap16(c.pc + 1),
        Mode::Accumulator => 0,
        Mode::ZeroPage => arg1(c, m) as int,
        Mode::ZeroPageX => wrap8(arg1(c, m) + c.x),
        Mode::ZeroPageY => wrap8(arg1(c, m) + c.y),
        Mode::Absolute => spec_make_address(arg1(c, m), arg2(c, m)) as int,
        Mode::AbsoluteX => wrap16(spec_make_address(arg1(c, m), arg2(c, m)) + c.x),
        Mode::AbsoluteY => wrap16(spec_make_address(arg1(c, m), arg2(c, m)) + c.y),
        Mode::IndirectX => word_at(m, wrap8(arg1(c, m) + c.x)),
        Mode::IndirectY => wrap16(word_at(m, arg1(c, m) as int) + c.y),
    }
}

/// The operand byte a read mode yields.
pub open spec fn read_val(c: Cpu, m: Seq<u8>, mode: Mode) -> u8 {
    m[eff_addr(c, m, mode)]
}

/// Whether a base and an indexed address lie in different 256-byte pages.
pub open spec fn crossed(base: int, idx: int) -> bool {
    page_of(base) != page_of(idx)
}

/// The extra cycle a page-checking resolution charges.
pub open spec fn penalty(c: Cpu, m: Seq<u8>, mode: Mode, check: bool) -> int {
    if check && crossed(base_addr(c, m, mode), eff_addr(c, m, mode)) && (mode is AbsoluteX
        || mode is AbsoluteY || mode is IndirectY) {
        1
    } else {
        0
    }
}

/// The encoded length of an instruction using the mode.
pub open spec fn mode_len(mode: Mode) -> int {
    match mode {
        Mode::Immediate => 2,
        Mode::Accumulator => 1,
        Mode::ZeroPage => 2,
        Mode::ZeroPageX => 2,
        Mode::ZeroPageY => 2,
        Mode::Absolute => 3,
        Mode::AbsoluteX => 3,
        Mode::AbsoluteY => 3,
        Mode::IndirectX => 2,
        Mode::IndirectY => 2,
    }
}

/// Base cycle count of a plain read instruction using the mode.
pub open spec fn mode_cycles_read(mode: Mode) -> int {
    match mode {
        Mode::Immediate => 2,
        Mode::Accumulator => 2,
        Mode::ZeroPage => 3,
        Mode::ZeroPageX => 4,
        Mode::ZeroPageY => 4,
        Mode::Absolute => 4,
        Mode::AbsoluteX => 4,
        Mode::AbsoluteY => 4,
        Mode::IndirectX => 6,
        Mode::IndirectY => 5,
    }
}

/// Base cycle count of a read-modify-write instruction using the mode.
pub open spec fn mode_cycles_rmw(mode: Mode) -> int {
    match mode {
        Mode::Accumulator => 2,
        Mode::ZeroPage => 5,
        Mode::ZeroPageX => 6,
        Mode::Absolute => 6,
        Mode::AbsoluteX => 7,
        _ => 0,
    }
}

/// Base cycle count of a store instruction using the mode.
pub open spec fn mode_cycles_store(mode: Mode) -> int {
    match mode {
        Mode::ZeroPage => 3,
        Mode::ZeroPageX => 4,
        Mode::ZeroPageY => 4,
        Mode::Absolute => 4,
        Mode::AbsoluteX => 5,
        Mode::AbsoluteY => 5,
        Mode::IndirectX => 6,
        Mode::IndirectY => 6,
        _ => 0,
    }
}

impl Cpu {
    /// Zero-page read.
    pub fn zero_page(&self, mem: &Memory, c: u8) -> (r: u8)
        ensures
            r == mem@[c as int],
    {
        mem.read_byte(c as u16)
    }

    /// Zero-page read indexed by X; the sum wraps within page zero.
    pub fn zero_page_x(&self, mem: &Memory, c: u8) -> (r: u8)
        ensures
            r == mem@[wrap8(c + self.x)],
    {
        let s: u16 = c as u16 + self.x as u16;
        let new_addr: u16 = if s > 0xff {
            s - 0x100
        } else {
            s
        };
        mem.read_byte(new_addr)
    }

    /// Zero-page read indexed by Y; the sum wraps within page zero.
    pub fn zero_page_y(&self, mem: &Memory, c: u8) -> (r: u8)
        ensures
            r == mem@[wrap8(c + self.y)],
    {
        let s: u16 = c as u16 + self.y as u16;
        let new_addr: u16 = if s > 0xff {
            s - 0x100
        } else {
            s
        };
        mem.read_byte(new_addr)
    }

    /// Absolute read.
    pub fn absolute(&self, mem: &Memory, c: u8, d: u8) -> (r: u8)
        ensures
            r == mem@[make_address(c, d) as int],
    {
        mem.read_byte(make_address(c, d))
    }

    /// Absolute read indexed by X; with `check_page`, charges one extra
    /// cycle when the indexed address leaves the base address's page.
    pub fn absolute_x(&mut self, mem: &Memory, c: u8, d: u8, check_page: bool) -> (r: u8)
        requires
            old(self).tick_count + 1 <= u32::MAX,
        ensures
            ({
                let base = make_address(c, d) as int;
                let idx = wrap16(base + old(self).x);
                &&& r == mem@[idx]
                &&& *final(self) == (Cpu {
                    tick_count: (old(self).tick_count + (if check_page && crossed(base, idx) {
                        1int
                    } else {
                        0int
                    })) as u32,
                    ..*old(self)
                })
            }),
    {
        let base = make_address(c, d);
        let idx = word_plus(base, self.x as u16);
        if check_page {
            if base / 0x100 != idx / 0x100 {
                self.tick_count += 1;
            }
        }
        mem.read_byte(idx)
    }

    /// Absolute read indexed by Y; with `check_page`, charges one extra
    /// cycle when the indexed address leaves the base address's page.
    pub fn absolute_y(&mut self, mem: &Memory, c: u8, d: u8, check_page: bool) -> (r: u8)
        requires
            old(self).tick_count + 1 <= u32::MAX,
        ensures
            ({
                let base = make_address(c, d) as int;
                let idx = wrap16(base + old(self).y);
                &&& r == mem@[idx]
                &&& *final(self) == (Cpu {
                    tick_count: (old(self).tick_count + (if check_page && crossed(base, idx) {
                        1int
                    } else {
                        0int
                    })) as u32,
                    ..*old(self)
                })
            }),
    {
        let base = make_address(c, d);
        let idx = word_plus(base, self.y as u16);
        if check_page {
            if base / 0x100 != idx / 0x100 {
                self.tick_count += 1;
            }
        }
        mem.read_byte(idx)
    }

    /// Indirect read through a zero-page pointer indexed by X before the
    /// dereference; the pointer addition wraps within page zero.
    pub fn indirect_x(&self, mem: &Memory, c: u8) -> (r: u8)
        ensures
            r == mem@[word_at(mem@, wrap8(c + self.x))],
    {
        let s: u16 = c as u16 + self.x as u16;
        let ptr: u16 = if s > 0xff {
            s - 0x100
        } else {
            s
        };
        let new_addr = mem.read_word(ptr);
        mem.read_byte(new_addr)
    }

    /// Indirect read through a zero-page pointer, then indexed by Y with
    /// 16-bit addition; with `check_page`, charges one extra cycle when the
    /// indexed address leaves the pointer target's page.
    pub fn indirect_y(&mut self, mem: &Memory, c: u8, check_page: bool) -> (r: u8)
        requires
            old(self).tick_count + 1 <= u32::MAX,
        ensures
            ({
                let base = word_at(mem@, c as int);
                let idx = wrap16(base + old(self).y);
                &&& r == mem@[idx]
                &&& *final(self) == (Cpu {
                    tick_count: (old(self).tick_count + (if check_page && crossed(base, idx) {
                        1int
                    } else {
                        0int
                    })) as u32,
                    ..*old(self)
                })
            }),
    {
        let base = mem.read_word(c as u16);
        let idx = word_plus(base, self.y as u16);
        if check_page {
            if base / 0x100 != idx / 0x100 {
                self.tick_count += 1;
            }
        }
        mem.read_byte(idx)
    }

    /// Zero-page store.
    pub fn zero_page_write(&self, mem: &mut Memory, c: u8, data: u8)
        ensures
            final(mem)@ == old(mem)@.update(c as int, data),
    {
        mem.write_byte(c as u16, data);
    }

    /// Zero-page store indexed by X, wrapping within page zero.
    pub fn zero_page_x_write(&self, mem: &mut Memory, c: u8, data: u8)
        ensures
            final(mem)@ == old(mem)@.update(wrap8(c + self.x), data),
    {
        let s: u16 = c as u16 + self.x as u16;
        let addr: u16 = if s > 0xff {
            s - 0x100
        } else {
            s
        };
        mem.write_byte(addr, data);
    }

    /// Zero-page store indexed by Y, wrapping within page zero.
    pub fn zero_page_y_write(&self, mem: &mut Memory, c: u8, data: u8)
        ensures
            final(mem)@ == old(mem)@.update(wrap8(c + self.y), data),
    {
        let s: u16 = c as u16 + self.y as u16;
        let addr: u16 = if s > 0xff {
            s - 0x100
        } else {
            s
        };
        mem.write_byte(addr, data);
    }

    /// Absolute store.
    pub fn absolute_write(&self, mem: &mut Memory, c: u8, d: u8, data: u8)
        ensures
            final(mem)@ == old(mem)@.update(make_address(c, d) as int, data),
    {
        mem.write_byte(make_address(c, d), data);
    }

    /// Absolute store indexed by X.
    pub fn absolute_x_write(&self, mem: &mut Memory, c: u8, d: u8, data: u8)
        ensures
            final(mem)@ == old(mem)@.update(wrap16(make_address(c, d) + self.x), data),
    {
        let addr = word_plus(make_address(c, d), self.x as u16);
        mem.write_byte(addr, data);
    }

    /// Absolute store indexed by Y.
    pub fn absolute_y_write(&self, mem: &mut Memory, c: u8, d: u8, data: u8)
        ensures
            final(mem)@ == old(mem)@.update(wrap16(make_address(c, d) + self.y), data),
    {
        let addr = word_plus(make_address(c, d), self.y as u16);
        mem.write_byte(addr, data);
    }

    /// Indirect store through a zero-page pointer indexed by X before the
    /// dereference.
    pub fn indirect_x_write(&self, mem: &mut Memory, c: u8, data: u8)
        ensures
            final(mem)@ == old(mem)@.update(word_at(old(mem)@, wrap8(c + self.x)), data),
    {
        let s: u16 = c as u16 + self.x as u16;
        let ptr: u16 = if s > 0xff {
            s - 0x100
        } else {
            s
        };
        let new_addr = mem.read_word(ptr);
        mem.write_byte(new_addr, data);
    }

    /// Indirect store through a zero-page pointer, then indexed by Y.
    pub fn indirect_y_write(&self, mem: &mut Memory, c: u8, data: u8)
        ensures
            final(mem)@ == old(mem)@.update(
                wrap16(word_at(old(mem)@, c as int) + self.y),
                data,
            ),
    {
        let base = mem.read_word(c as u16);
        let new_addr = word_plus(base, self.y as u16);
        mem.write_byte(new_addr, data);
    }
}

} // verus!
