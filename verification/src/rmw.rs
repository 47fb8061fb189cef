//! The read-modify-write instructions: shifts, rotates and memory
//! increment/decrement. Each reads its operand, computes the new value,
//! derives carry (shifts and rotates only), zero and sign, and writes the
//! result back through the same addressing mode — or into the accumulator
//! for the accumulator variants.

use vstd::prelude::*;

use crate::addr::eff_addr;
use crate::addr::mode_cycles_rmw;
use crate::addr::mode_len;
use crate::addr::penalty;
use crate::addr::read_val;
use crate::addr::Mode;
use crate::arith::word_plus;
use crate::arith::wrap16;
use crate::arith::wrap8;
use crate::cpu::Cpu;
use crate::cpu::Diagnostic;
use crate::memory::Memory;
use crate::status::sign8;

verus! {

pub open spec fn is_asl_op(op: u8) -> bool {
    op == 0x0a || op == 0x06 || op == 0x16 || op == 0x0e || op == 0x1e
}

pub open spec fn is_lsr_op(op: u8) -> bool {
    op == 0x4a || op == 0x46 || op == 0x56 || op == 0x4e || op == 0x5e
}

pub open spec fn is_rol_op(op: u8) -> bool {
    op == 0x2a || op == 0x26 || op == 0x36 || op == 0x2e || op == 0x3e
}

pub open spec fn is_ror_op(op: u8) -> bool {
    op == 0x6a || op == 0x66 || op == 0x76 || op == 0x6e || op == 0x7e
}

pub open spec fn is_dec_op(op: u8) -> bool {
    op == 0xc6 || op == 0xd6 || op == 0xce || op == 0xde
}

pub open spec fn is_inc_op(op: u8) -> bool {
    op == 0xe6 || op == 0xf6 || op == 0xee || op == 0xfe
}

/// The addressing mode of a shift or rotate opcode (accumulator,
/// zero-page, zero-page-X, absolute, absolute-X in the low nibble order the
/// encoding fixes).
pub open spec fn shift_mode(op: u8) -> Mode {
    let low = op % 0x20;
    if low == 0x0a {
        Mode::Accumulator
    } else if low == 0x06 {
        Mode::ZeroPage
    } else if low == 0x16 {
        Mode::ZeroPageX
    } else if low == 0x0e {
        Mode::Absolute
    } else {
        Mode::AbsoluteX
    }
}

pub open spec fn stepper_mode(op: u8) -> Mode {
    let low = op % 0x20;
    if low == 0x06 {
        Mode::ZeroPage
    } else if low == 0x16 {
        Mode::ZeroPageX
    } else if low == 0x0e {
        Mode::Absolute
    } else {
        Mode::AbsoluteX
    }
}

/// Arithmetic shift left: the intermediate is forced back to 8 bits.
pub open spec fn asl_res(v: u8) -> u8 {
    wrap8(2 * v) as u8
}

/// Logical shift right.
pub open spec fn lsr_res(v: u8) -> u8 {
    v / 2
}

/// Rotate left through carry: the shifted value is held to 8 bits before
/// the carry-in bit is added.
pub open spec fn rol_res(v: u8, carry: bool) -> u8 {
    ((v % 0x80) * 2 + (if carry {
        1int
    } else {
        0int
    })) as u8
}

/// Rotate right through carry.
pub open spec fn ror_res(v: u8, carry: bool) -> u8 {
    (v / 2 + (if carry {
        0x80int
    } else {
        0int
    })) as u8
}

/// Common shape of a read-modify-write outcome: result stored back through
/// the mode (or into the accumulator), zero and sign from the result, carry
/// as the instruction dictates, cycles from the read-modify-write table plus
/// any page penalty the read charged.
pub open spec fn rmw_post(
    pre: Cpu,
    post: Cpu,
    m0: Seq<u8>,
    m1: Seq<u8>,
    mode: Mode,
    res: u8,
    carry: bool,
    check: bool,
) -> bool {
    if mode is Accumulator {
        &&& m1 == m0
        &&& post == (Cpu {
            a: res,
            carry: carry,
            zero: res == 0,
            sign: sign8(res),
            pc: wrap16(pre.pc + 1) as u16,
            tick_count: (pre.tick_count + 2) as u32,
            ..pre
        })
    } else {
        &&& m1 == m0.update(eff_addr(pre, m0, mode), res)
        &&& post == (Cpu {
            carry: carry,
            zero: res == 0,
            sign: sign8(res),
            pc: wrap16(pre.pc + mode_len(mode)) as u16,
            tick_count: (pre.tick_count + mode_cycles_rmw(mode) + penalty(pre, m0, mode, check))
                as u32,
            ..pre
        })
    }
}

/// Arithmetic shift left; carry takes the operand's old bit 7.
pub open spec fn asl_post(
    pre: Cpu,
    post: Cpu,
    m0: Seq<u8>,
    m1: Seq<u8>,
    r: Result<(), Diagnostic>,
) -> bool {
    if is_asl_op(pre.current_opcode) {
        let mode = shift_mode(pre.current_opcode);
        let v = if mode is Accumulator {
            pre.a
        } else {
            read_val(pre, m0, mode)
        };
        &&& r == Ok::<(), Diagnostic>(())
        &&& rmw_post(pre, post, m0, m1, mode, asl_res(v), sign8(v), true)
    } else {
        &&& r == Err::<(), Diagnostic>(Diagnostic::InternalDispatchInconsistency(
            pre.current_opcode,
        ))
        &&& m1 == m0
        &&& post == (Cpu {
            carry: sign8(0),
            zero: asl_res(0) == 0,
            sign: sign8(asl_res(0)),
            ..pre
        })
    }
}

/// Logical shift right; carry takes the operand's old bit 0, whichever
/// addressing mode supplied the operand.
pub open spec fn lsr_post(
    pre: Cpu,
    post: Cpu,
    m0: Seq<u8>,
    m1: Seq<u8>,
    r: Result<(), Diagnostic>,
) -> bool {
    if is_lsr_op(pre.current_opcode) {
        let mode = shift_mode(pre.current_opcode);
        let v = if mode is Accumulator {
            pre.a
        } else {
            read_val(pre, m0, mode)
        };
        &&& r == Ok::<(), Diagnostic>(())
        &&& rmw_post(pre, post, m0, m1, mode, lsr_res(v), v % 2 == 1, true)
    } else {
        &&& r == Err::<(), Diagnostic>(Diagnostic::InternalDispatchInconsistency(
            pre.current_opcode,
        ))
        &&& m1 == m0
        &&& post == (Cpu {
            carry: false,
            zero: lsr_res(0) == 0,
            sign: sign8(lsr_res(0)),
            ..pre
        })
    }
}

/// Rotate left through carry; carry takes the operand's old bit 7.
///
/// The absolute-X variant charges no page-cross penalty: alone among the
/// absolute-X read-modify-write forms it costs a fixed 7 cycles, where
/// shift-left, rotate-right, increment and decrement cost 7 plus the
/// penalty their operand read reports. Real hardware charges a fixed 7 for
/// all five; the uneven charge is part of this core's defined timing.
pub open spec fn rol_post(
    pre: Cpu,
    post: Cpu,
    m0: Seq<u8>,
    m1: Seq<u8>,
    r: Result<(), Diagnostic>,
) -> bool {
    if is_rol_op(pre.current_opcode) {
        let mode = shift_mode(pre.current_opcode);
        let v = if mode is Accumulator {
            pre.a
        } else {
            read_val(pre, m0, mode)
        };
        &&& r == Ok::<(), Diagnostic>(())
        &&& rmw_post(pre, post, m0, m1, mode, rol_res(v, pre.carry), sign8(v), false)
    } else {
        &&& r == Err::<(), Diagnostic>(Diagnostic::InternalDispatchInconsistency(
            pre.current_opcode,
        ))
        &&& m1 == m0
        &&& post == (Cpu {
            carry: sign8(0),
            zero: rol_res(0, pre.carry) == 0,
            sign: sign8(rol_res(0, pre.carry)),
            ..pre
        })
    }
}

/// Rotate right through carry; carry takes the operand's old bit 0.
pub open spec fn ror_post(
    pre: Cpu,
    post: Cpu,
    m0: Seq<u8>,
    m1: Seq<u8>,
    r: Result<(), Diagnostic>,
) -> bool {
    if is_ror_op(pre.current_opcode) {
        let mode = shift_mode(pre.current_opcode);
        let v = if mode is Accumulator {
            pre.a
        } else {
            read_val(pre, m0, mode)
        };
        &&& r == Ok::<(), Diagnostic>(())
        &&& rmw_post(pre, post, m0, m1, mode, ror_res(v, pre.carry), v % 2 == 1, true)
    } else {
        &&& r == Err::<(), Diagnostic>(Diagnostic::InternalDispatchInconsistency(
            pre.current_opcode,
        ))
        &&& m1 == m0
        &&& post == (Cpu {
            carry: false,
            zero: ror_res(0, pre.carry) == 0,
            sign: sign8(ror_res(0, pre.carry)),
            ..pre
        })
    }
}

/// Decrement a memory operand with 8-bit wraparound; zero and sign from the
/// result, carry never touched.
pub open spec fn dec_post(
    pre: Cpu,
    post: Cpu,
    m0: Seq<u8>,
    m1: Seq<u8>,
    r: Result<(), Diagnostic>,
) -> bool {
    if is_dec_op(pre.current_opcode) {
        let mode = stepper_mode(pre.current_opcode);
        let res = wrap8(read_val(pre, m0, mode) - 1) as u8;
        &&& r == Ok::<(), Diagnostic>(())
        &&& m1 == m0.update(eff_addr(pre, m0, mode), res)
        &&& post == (Cpu {
            zero: res == 0,
            sign: sign8(res),
            pc: wrap16(pre.pc + mode_len(mode)) as u16,
            tick_count: (pre.tick_count + mode_cycles_rmw(mode) + penalty(pre, m0, mode, true))
                as u32,
            ..pre
        })
    } else {
        let res = wrap8(0int - 1) as u8;
        &&& r == Err::<(), Diagnostic>(Diagnostic::InternalDispatchInconsistency(
            pre.current_opcode,
        ))
        &&& m1 == m0
        &&& post == (Cpu { zero: res == 0, sign: sign8(res), ..pre })
    }
}

/// Increment a memory operand with 8-bit wraparound; zero and sign from the
/// result, carry never touched.
pub open spec fn inc_post(
    pre: Cpu,
    post: Cpu,
    m0: Seq<u8>,
    m1: Seq<u8>,
    r: Result<(), Diagnostic>,
) -> bool {
    if is_inc_op(pre.current_opcode) {
        let mode = stepper_mode(pre.current_opcode);
        let res = wrap8(read_val(pre, m0, mode) + 1) as u8;
        &&& r == Ok::<(), Diagnostic>(())
        &&& m1 == m0.update(eff_addr(pre, m0, mode), res)
        &&& post == (Cpu {
            zero: res == 0,
            sign: sign8(res),
            pc: wrap16(pre.pc + mode_len(mode)) as u16,
            tick_count: (pre.tick_count + mode_cycles_rmw(mode) + penalty(pre, m0, mode, true))
                as u32,
            ..pre
        })
    } else {
        let res = wrap8(0int + 1) as u8;
        &&& r == Err::<(), Diagnostic>(Diagnostic::InternalDispatchInconsistency(
            pre.current_opcode,
        ))
        &&& m1 == m0
        &&& post == (Cpu { zero: res == 0, sign: sign8(res), ..pre })
    }
}

impl Cpu {
    /// Arithmetic shift left.
    #[verifier::rlimit(100)]
    pub fn asl(&mut self, mem: &mut Memory) -> (r: Result<(), Diagnostic>)
        requires
            old(self).tick_count + 8 <= u32::MAX,
        ensures
            asl_post(*old(self), *final(self), old(mem)@, final(mem)@, r),
    {
        let arg1 = mem.read_byte(word_plus(self.pc, 1));
        let arg2 = mem.read_byte(word_plus(self.pc, 2));
        let (value, cycles, length, known): (u8, u32, u16, bool) = match self.current_opcode {
            0x0a => (self.a, 2, 1, true),
            0x06 => (self.zero_page(mem, arg1), 5, 2, true),
            0x16 => (self.zero_page_x(mem, arg1), 6, 2, true),
            0x0e => (self.absolute(mem, arg1, arg2), 6, 3, true),
            0x1e => (self.absolute_x(mem, arg1, arg2, true), 7, 3, true),
            _ => (0, 0, 0, false),
        };
        self.carry = value >= 0x80;
        let w: u16 = value as u16 * 2;
        let res: u8 = if w > 0xff {
            (w - 0x100) as u8
        } else {
            w as u8
        };
        self.zero = res == 0;
        self.sign = res >= 0x80;
        match self.current_opcode {
            0x0a => self.a = res,
            0x06 => self.zero_page_write(mem, arg1, res),
            0x16 => self.zero_page_x_write(mem, arg1, res),
            0x0e => self.absolute_write(mem, arg1, arg2, res),
            0x1e => self.absolute_x_write(mem, arg1, arg2, res),
            _ => {},
        }
        self.tick_count += cycles;
        self.pc = word_plus(self.pc, length);
        if known {
            Ok(())
        } else {
            Err(Diagnostic::InternalDispatchInconsistency(self.current_opcode))
        }
    }

    /// Logical shift right.
    #[verifier::rlimit(100)]
    pub fn lsr(&mut self, mem: &mut Memory) -> (r: Result<(), Diagnostic>)
        requires
            old(self).tick_count + 8 <= u32::MAX,
        ensures
            lsr_post(*old(self), *final(self), old(mem)@, final(mem)@, r),
    {
        let arg1 = mem.read_byte(word_plus(self.pc, 1));
        let arg2 = mem.read_byte(word_plus(self.pc, 2));
        let (value, cycles, length, known): (u8, u32, u16, bool) = match self.current_opcode {
            0x4a => (self.a, 2, 1, true),
            0x46 => (self.zero_page(mem, arg1), 5, 2, true),
            0x56 => (self.zero_page_x(mem, arg1), 6, 2, true),
            0x4e => (self.absolute(mem, arg1, arg2), 6, 3, true),
            0x5e => (self.absolute_x(mem, arg1, arg2, true), 7, 3, true),
            _ => (0, 0, 0, false),
        };
        self.carry = value % 2 == 1;
        let res: u8 = value / 2;
        self.zero = res == 0;
        self.sign = res >= 0x80;
        match self.current_opcode {
            0x4a => self.a = res,
            0x46 => self.zero_page_write(mem, arg1, res),
            0x56 => self.zero_page_x_write(mem, arg1, res),
            0x4e => self.absolute_write(mem, arg1, arg2, res),
            0x5e => self.absolute_x_write(mem, arg1, arg2, res),
            _ => {},
        }
        self.tick_count += cycles;
        self.pc = word_plus(self.pc, length);
        if known {
            Ok(())
        } else {
            Err(Diagnostic::InternalDispatchInconsistency(self.current_opcode))
        }
    }

    /// Rotate left through carry.
    #[verifier::rlimit(100)]
    pub fn rol(&mut self, mem: &mut Memory) -> (r: Result<(), Diagnostic>)
        requires
            old(self).tick_count + 7 <= u32::MAX,
        ensures
            rol_post(*old(self), *final(self), old(mem)@, final(mem)@, r),
    {
        let arg1 = mem.read_byte(word_plus(self.pc, 1));
        let arg2 = mem.read_byte(word_plus(self.pc, 2));
        let (value, cycles, length, known): (u8, u32, u16, bool) = match self.current_opcode {
            0x2a => (self.a, 2, 1, true),
            0x26 => (self.zero_page(mem, arg1), 5, 2, true),
            0x36 => (self.zero_page_x(mem, arg1), 6, 2, true),
            0x2e => (self.absolute(mem, arg1, arg2), 6, 3, true),
            0x3e => (self.absolute_x(mem, arg1, arg2, false), 7, 3, true),
            _ => (0, 0, 0, false),
        };
        let bit = value >= 0x80;
        let mut res: u8 = (value % 0x80) * 2;
        if self.carry {
            res += 1;
        }
        self.carry = bit;
        self.zero = res == 0;
        self.sign = res >= 0x80;
        match self.current_opcode {
            0x2a => self.a = res,
            0x26 => self.zero_page_write(mem, arg1, res),
            0x36 => self.zero_page_x_write(mem, arg1, res),
            0x2e => self.absolute_write(mem, arg1, arg2, res),
            0x3e => self.absolute_x_write(mem, arg1, arg2, res),
            _ => {},
        }
        self.tick_count += cycles;
        self.pc = word_plus(self.pc, length);
        if known {
            Ok(())
        } else {
            Err(Diagnostic::InternalDispatchInconsistency(self.current_opcode))
        }
    }

    /// Rotate right through carry.
    #[verifier::rlimit(100)]
    pub fn ror(&mut self, mem: &mut Memory) -> (r: Result<(), Diagnostic>)
        requires
            old(self).tick_count + 8 <= u32::MAX,
        ensures
            ror_post(*old(self), *final(self), old(mem)@, final(mem)@, r),
    {
        let arg1 = mem.read_byte(word_plus(self.pc, 1));
        let arg2 = mem.read_byte(word_plus(self.pc, 2));
        let (value, cycles, length, known): (u8, u32, u16, bool) = match self.current_opcode {
            0x6a => (self.a, 2, 1, true),
            0x66 => (self.zero_page(mem, arg1), 5, 2, true),
            0x76 => (self.zero_page_x(mem, arg1), 6, 2, true),
            0x6e => (self.absolute(mem, arg1, arg2), 6, 3, true),
            0x7e => (self.absolute_x(mem, arg1, arg2, true), 7, 3, true),
            _ => (0, 0, 0, false),
        };
        let bit = value % 2 == 1;
        let mut res: u8 = value / 2;
        if self.carry {
            res += 0x80;
        }
        self.carry = bit;
        self.zero = res == 0;
        self.sign = res >= 0x80;
        match self.current_opcode {
            0x6a => self.a = res,
            0x66 => self.zero_page_write(mem, arg1, res),
            0x76 => self.zero_page_x_write(mem, arg1, res),
            0x6e => self.absolute_write(mem, arg1, arg2, res),
            0x7e => self.absolute_x_write(mem, arg1, arg2, res),
            _ => {},
        }
        self.tick_count += cycles;
        self.pc = word_plus(self.pc, length);
        if known {
            Ok(())
        } else {
            Err(Diagnostic::InternalDispatchInconsistency(self.current_opcode))
        }
    }

    /// Decrement a memory operand.
    #[verifier::rlimit(100)]
    pub fn dec(&mut self, mem: &mut Memory) -> (r: Result<(), Diagnostic>)
        requires
            old(self).tick_count + 8 <= u32::MAX,
        ensures
            dec_post(*old(self), *final(self), old(mem)@, final(mem)@, r),
    {
        let arg1 = mem.read_byte(word_plus(self.pc, 1));
        let arg2 = mem.read_byte(word_plus(self.pc, 2));
        let (value, cycles, length, known): (u8, u32, u16, bool) = match self.current_opcode {
            0xc6 => (self.zero_page(mem, arg1), 5, 2, true),
            0xd6 => (self.zero_page_x(mem, arg1), 6, 2, true),
            0xce => (self.absolute(mem, arg1, arg2), 6, 3, true),
            0xde => (self.absolute_x(mem, arg1, arg2, true), 7, 3, true),
            _ => (0, 0, 0, false),
        };
        let res: u8 = if value == 0 {
            0xff
        } else {
            value - 1
        };
        self.zero = res == 0;
        self.sign = res >= 0x80;
        match self.current_opcode {
            0xc6 => self.zero_page_write(mem, arg1, res),
            0xd6 => self.zero_page_x_write(mem, arg1, res),
            0xce => self.absolute_write(mem, arg1, arg2, res),
            0xde => self.absolute_x_write(mem, arg1, arg2, res),
            _ => {},
        }
        self.tick_count += cycles;
        self.pc = word_plus(self.pc, length);
        if known {
            Ok(())
        } else {
            Err(Diagnostic::InternalDispatchInconsistency(self.current_opcode))
        }
    }

    /// Increment a memory operand.
    #[verifier::rlimit(100)]
    pub fn inc(&mut self, mem: &mut Memory) -> (r: Result<(), Diagnostic>)
        requires
            old(self).tick_count + 8 <= u32::MAX,
        ensures
            inc_post(*old(self), *final(self), old(mem)@, final(mem)@, r),
    {
        let arg1 = mem.read_byte(word_plus(self.pc, 1));
        let arg2 = mem.read_byte(word_plus(self.pc, 2));
        let (value, cycles, length, known): (u8, u32, u16, bool) = match self.current_opcode {
            0xe6 => (self.zero_page(mem, arg1), 5, 2, true),
            0xf6 => (self.zero_page_x(mem, arg1), 6, 2, true),
            0xee => (self.absolute(mem, arg1, arg2), 6, 3, true),
            0xfe => (self.absolute_x(mem, arg1, arg2, true), 7, 3, true),
            _ => (0, 0, 0, false),
        };
        let res: u8 = if value == 0xff {
            0
        } else {
            value + 1
        };
        self.zero = res == 0;
        self.sign = res >= 0x80;
        match self.current_opcode {
            0xe6 => self.zero_page_write(mem, arg1, res),
            0xf6 => self.zero_page_x_write(mem, arg1, res),
            0xee => self.absolute_write(mem, arg1, arg2, res),
            0xfe => self.absolute_x_write(mem, arg1, arg2, res),
            _ => {},
        }
        self.tick_count += cycles;
        self.pc = word_plus(self.pc, length);
        if known {
            Ok(())
        } else {
            Err(Diagnostic::InternalDispatchInconsistency(self.current_opcode))
        }
    }
}

} // verus!
