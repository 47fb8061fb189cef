//! One handler per instruction mnemonic. Each handler serves every
//! addressing-mode variant of its mnemonic: it selects the mode from the
//! opcode byte already fetched into `current_opcode`, reads or writes the
//! operand, derives exactly the flags the hardware derives, and charges the
//! opcode's program-counter advance and base cycle count on top of any
//! page-cross penalty the resolver charged.
//!
//! A handler reached with an opcode outside its set (impossible through
//! correct dispatch) substitutes a zero operand, completes without advancing
//! the program counter or tick counter, and reports the inconsistency.

use vstd::prelude::*;

use crate::addr::mode_cycles_read;
use crate::addr::mode_len;
use crate::addr::penalty;
use crate::addr::read_val;
use crate::addr::Mode;
use crate::arith::word_plus;
use crate::arith::wrap16;
use crate::arith::wrap8;
use crate::cpu::Cpu;
use crate::cpu::Diagnostic;
use crate::memory::Memory;
use crate::status::bit_set;
use crate::status::sign8;

verus! {

/// The addressing mode encoded in bits 2-4 of the eight-mode arithmetic and
/// logical opcodes (add, and, compare, exclusive-or, load-accumulator, or,
/// subtract).
pub open spec fn g1_mode(op: u8) -> Mode {
    let b = (op / 4) % 8;
    if b == 0 {
        Mode::IndirectX
    } else if b == 1 {
        Mode::ZeroPage
    } else if b == 2 {
        Mode::Immediate
    } else if b == 3 {
        Mode::Absolute
    } else if b == 4 {
        Mode::IndirectY
    } else if b == 5 {
        Mode::ZeroPageX
    } else if b == 6 {
        Mode::AbsoluteY
    } else {
        Mode::AbsoluteX
    }
}

/// The low byte of a result register after an 8-bit difference.
pub open spec fn diff8(reg: u8, v: u8) -> u8 {
    wrap8(reg - v) as u8
}

pub open spec fn is_adc_op(op: u8) -> bool {
    op == 0x69 || op == 0x65 || op == 0x75 || op == 0x6d || op == 0x7d || op == 0x79 || op == 0x61
        || op == 0x71
}

pub open spec fn is_and_op(op: u8) -> bool {
    op == 0x29 || op == 0x25 || op == 0x35 || op == 0x2d || op == 0x3d || op == 0x39 || op == 0x21
        || op == 0x31
}

pub open spec fn is_cmp_op(op: u8) -> bool {
    op == 0xc9 || op == 0xc5 || op == 0xd5 || op == 0xcd || op == 0xdd || op == 0xd9 || op == 0xc1
        || op == 0xd1
}

pub open spec fn is_eor_op(op: u8) -> bool {
    op == 0x49 || op == 0x45 || op == 0x55 || op == 0x4d || op == 0x5d || op == 0x59 || op == 0x41
        || op == 0x51
}

pub open spec fn is_lda_op(op: u8) -> bool {
    op == 0xa9 || op == 0xa5 || op == 0xb5 || op == 0xad || op == 0xbd || op == 0xb9 || op == 0xa1
        || op == 0xb1
}

pub open spec fn is_ora_op(op: u8) -> bool {
    op == 0x09 || op == 0x05 || op == 0x15 || op == 0x0d || op == 0x1d || op == 0x19 || op == 0x01
        || op == 0x11
}

pub open spec fn is_sbc_op(op: u8) -> bool {
    op == 0xe9 || op == 0xe5 || op == 0xf5 || op == 0xed || op == 0xfd || op == 0xf9 || op == 0xe1
        || op == 0xf1
}

pub open spec fn is_ldx_op(op: u8) -> bool {
    op == 0xa2 || op == 0xa6 || op == 0xb6 || op == 0xae || op == 0xbe
}

pub open spec fn is_ldy_op(op: u8) -> bool {
    op == 0xa0 || op == 0xa4 || op == 0xb4 || op == 0xac || op == 0xbc
}

pub open spec fn is_cpx_op(op: u8) -> bool {
    op == 0xe0 || op == 0xe4 || op == 0xec
}

pub open spec fn is_cpy_op(op: u8) -> bool {
    op == 0xc0 || op == 0xc4 || op == 0xcc
}

pub open spec fn is_bit_op(op: u8) -> bool {
    op == 0x24 || op == 0x2c
}

pub open spec fn ldx_mode(op: u8) -> Mode {
    if op == 0xa2 {
        Mode::Immediate
    } else if op == 0xa6 {
        Mode::ZeroPage
    } else if op == 0xb6 {
        Mode::ZeroPageY
    } else if op == 0xae {
        Mode::Absolute
    } else {
        Mode::AbsoluteY
    }
}

pub open spec fn ldy_mode(op: u8) -> Mode {
    if op == 0xa0 {
        Mode::Immediate
    } else if op == 0xa4 {
        Mode::ZeroPage
    } else if op == 0xb4 {
        Mode::ZeroPageX
    } else if op == 0xac {
        Mode::Absolute
    } else {
        Mode::AbsoluteX
    }
}

pub open spec fn cpx_mode(op: u8) -> Mode {
    if op == 0xe0 {
        Mode::Immediate
    } else if op == 0xe4 {
        Mode::ZeroPage
    } else {
        Mode::Absolute
    }
}

pub open spec fn cpy_mode(op: u8) -> Mode {
    if op == 0xc0 {
        Mode::Immediate
    } else if op == 0xc4 {
        Mode::ZeroPage
    } else {
        Mode::Absolute
    }
}

pub open spec fn bit_mode(op: u8) -> Mode {
    if op == 0x24 {
        Mode::ZeroPage
    } else {
        Mode::Absolute
    }
}

/// Add with carry: a 9-bit intermediate sum of accumulator, operand and
/// incoming carry; carry and overflow from the sum exceeding 255, zero and
/// sign from the truncated low byte.
pub open spec fn adc_post(pre: Cpu, post: Cpu, m: Seq<u8>, r: Result<(), Diagnostic>) -> bool {
    if is_adc_op(pre.current_opcode) {
        let mode = g1_mode(pre.current_opcode);
        let v = read_val(pre, m, mode);
        let total = pre.a + v + (if pre.carry {
            1int
        } else {
            0int
        });
        &&& r == Ok::<(), Diagnostic>(())
        &&& post == (Cpu {
            a: wrap8(total) as u8,
            carry: total > 0xff,
            overflow: total > 0xff,
            zero: wrap8(total) == 0,
            sign: sign8(wrap8(total) as u8),
            pc: wrap16(pre.pc + mode_len(mode)) as u16,
            tick_count: (pre.tick_count + mode_cycles_read(mode) + penalty(pre, m, mode, true))
                as u32,
            ..pre
        })
    } else {
        let total = pre.a + (if pre.carry {
            1int
        } else {
            0int
        });
        &&& r == Err::<(), Diagnostic>(Diagnostic::InternalDispatchInconsistency(
            pre.current_opcode,
        ))
        &&& post == (Cpu {
            a: wrap8(total) as u8,
            carry: total > 0xff,
            overflow: total > 0xff,
            zero: wrap8(total) == 0,
            sign: sign8(wrap8(total) as u8),
            ..pre
        })
    }
}

/// Subtract with carry: accumulator minus operand minus the complemented
/// carry as a signed intermediate; carry means no borrow occurred, overflow
/// follows the borrow, zero and sign come from the truncated low byte.
pub open spec fn sbc_post(pre: Cpu, post: Cpu, m: Seq<u8>, r: Result<(), Diagnostic>) -> bool {
    if is_sbc_op(pre.current_opcode) {
        let mode = g1_mode(pre.current_opcode);
        let v = read_val(pre, m, mode);
        let total = pre.a - v - (if pre.carry {
            0int
        } else {
            1int
        });
        &&& r == Ok::<(), Diagnostic>(())
        &&& post == (Cpu {
            a: wrap8(total) as u8,
            carry: total >= 0,
            overflow: total < 0,
            zero: wrap8(total) == 0,
            sign: sign8(wrap8(total) as u8),
            pc: wrap16(pre.pc + mode_len(mode)) as u16,
            tick_count: (pre.tick_count + mode_cycles_read(mode) + penalty(pre, m, mode, true))
                as u32,
            ..pre
        })
    } else {
        let total = pre.a - (if pre.carry {
            0int
        } else {
            1int
        });
        &&& r == Err::<(), Diagnostic>(Diagnostic::InternalDispatchInconsistency(
            pre.current_opcode,
        ))
        &&& post == (Cpu {
            a: wrap8(total) as u8,
            carry: total >= 0,
            overflow: total < 0,
            zero: wrap8(total) == 0,
            sign: sign8(wrap8(total) as u8),
            ..pre
        })
    }
}

/// Bitwise and into the accumulator; zero and sign from the result.
pub open spec fn and_post(pre: Cpu, post: Cpu, m: Seq<u8>, r: Result<(), Diagnostic>) -> bool {
    if is_and_op(pre.current_opcode) {
        let mode = g1_mode(pre.current_opcode);
        let v = read_val(pre, m, mode);
        &&& r == Ok::<(), Diagnostic>(())
        &&& post == (Cpu {
            a: pre.a & v,
            zero: pre.a & v == 0,
            sign: sign8(pre.a & v),
            pc: wrap16(pre.pc + mode_len(mode)) as u16,
            tick_count: (pre.tick_count + mode_cycles_read(mode) + penalty(pre, m, mode, true))
                as u32,
            ..pre
        })
    } else {
        &&& r == Err::<(), Diagnostic>(Diagnostic::InternalDispatchInconsistency(
            pre.current_opcode,
        ))
        &&& post == (Cpu { a: pre.a & 0, zero: pre.a & 0 == 0, sign: sign8(pre.a & 0), ..pre })
    }
}

/// Bitwise or into the accumulator; zero and sign from the result.
pub open spec fn ora_post(pre: Cpu, post: Cpu, m: Seq<u8>, r: Result<(), Diagnostic>) -> bool {
    if is_ora_op(pre.current_opcode) {
        let mode = g1_mode(pre.current_opcode);
        let v = read_val(pre, m, mode);
        &&& r == Ok::<(), Diagnostic>(())
        &&& post == (Cpu {
            a: pre.a | v,
            zero: pre.a | v == 0,
            sign: sign8(pre.a | v),
            pc: wrap16(pre.pc + mode_len(mode)) as u16,
            tick_count: (pre.tick_count + mode_cycles_read(mode) + penalty(pre, m, mode, true))
                as u32,
            ..pre
        })
    } else {
        &&& r == Err::<(), Diagnostic>(Diagnostic::InternalDispatchInconsistency(
            pre.current_opcode,
        ))
        &&& post == (Cpu { a: pre.a | 0, zero: pre.a | 0 == 0, sign: sign8(pre.a | 0), ..pre })
    }
}

/// Bitwise exclusive-or into the accumulator; zero and sign from the result.
pub open spec fn eor_post(pre: Cpu, post: Cpu, m: Seq<u8>, r: Result<(), Diagnostic>) -> bool {
    if is_eor_op(pre.current_opcode) {
        let mode = g1_mode(pre.current_opcode);
        let v = read_val(pre, m, mode);
        &&& r == Ok::<(), Diagnostic>(())
        &&& post == (Cpu {
            a: pre.a ^ v,
            zero: pre.a ^ v == 0,
            sign: sign8(pre.a ^ v),
            pc: wrap16(pre.pc + mode_len(mode)) as u16,
            tick_count: (pre.tick_count + mode_cycles_read(mode) + penalty(pre, m, mode, true))
                as u32,
            ..pre
        })
    } else {
        &&& r == Err::<(), Diagnostic>(Diagnostic::InternalDispatchInconsistency(
            pre.current_opcode,
        ))
        &&& post == (Cpu { a: pre.a ^ 0, zero: pre.a ^ 0 == 0, sign: sign8(pre.a ^ 0), ..pre })
    }
}

/// Compare a register with the operand: carry when the register is at least
/// the operand, zero and sign from the 8-bit difference. The register and
/// the accumulator stay untouched.
pub open spec fn compare_post(
    pre: Cpu,
    post: Cpu,
    reg: u8,
    v: u8,
    mode: Mode,
    m: Seq<u8>,
    check: bool,
) -> bool {
    post == (Cpu {
        carry: reg >= v,
        zero: diff8(reg, v) == 0,
        sign: sign8(diff8(reg, v)),
        pc: wrap16(pre.pc + mode_len(mode)) as u16,
        tick_count: (pre.tick_count + mode_cycles_read(mode) + penalty(pre, m, mode, check))
            as u32,
        ..pre
    })
}

pub open spec fn cmp_post(pre: Cpu, post: Cpu, m: Seq<u8>, r: Result<(), Diagnostic>) -> bool {
    if is_cmp_op(pre.current_opcode) {
        let mode = g1_mode(pre.current_opcode);
        let v = read_val(pre, m, mode);
        &&& r == Ok::<(), Diagnostic>(())
        &&& compare_post(pre, post, pre.a, v, mode, m, true)
    } else {
        &&& r == Err::<(), Diagnostic>(Diagnostic::InternalDispatchInconsistency(
            pre.current_opcode,
        ))
        &&& post == (Cpu {
            carry: true,
            zero: diff8(pre.a, 0) == 0,
            sign: sign8(diff8(pre.a, 0)),
            ..pre
        })
    }
}

pub open spec fn cpx_post(pre: Cpu, post: Cpu, m: Seq<u8>, r: Result<(), Diagnostic>) -> bool {
    if is_cpx_op(pre.current_opcode) {
        let mode = cpx_mode(pre.current_opcode);
        let v = read_val(pre, m, mode);
        &&& r == Ok::<(), Diagnostic>(())
        &&& compare_post(pre, post, pre.x, v, mode, m, true)
    } else {
        &&& r == Err::<(), Diagnostic>(Diagnostic::InternalDispatchInconsistency(
            pre.current_opcode,
        ))
        &&& post == (Cpu {
            carry: true,
            zero: diff8(pre.x, 0) == 0,
            sign: sign8(diff8(pre.x, 0)),
            ..pre
        })
    }
}

pub open spec fn cpy_post(pre: Cpu, post: Cpu, m: Seq<u8>, r: Result<(), Diagnostic>) -> bool {
    if is_cpy_op(pre.current_opcode) {
        let mode = cpy_mode(pre.current_opcode);
        let v = read_val(pre, m, mode);
        &&& r == Ok::<(), Diagnostic>(())
        &&& compare_post(pre, post, pre.y, v, mode, m, true)
    } else {
        &&& r == Err::<(), Diagnostic>(Diagnostic::InternalDispatchInconsistency(
            pre.current_opcode,
        ))
        &&& post == (Cpu {
            carry: true,
            zero: diff8(pre.y, 0) == 0,
            sign: sign8(diff8(pre.y, 0)),
            ..pre
        })
    }
}

/// Load the accumulator; zero and sign from the loaded value. An opcode
/// outside the set leaves the accumulator as it was and rederives the flags
/// from it.
pub open spec fn lda_post(pre: Cpu, post: Cpu, m: Seq<u8>, r: Result<(), Diagnostic>) -> bool {
    if is_lda_op(pre.current_opcode) {
        let mode = g1_mode(pre.current_opcode);
        let v = read_val(pre, m, mode);
        &&& r == Ok::<(), Diagnostic>(())
        &&& post == (Cpu {
            a: v,
            zero: v == 0,
            sign: sign8(v),
            pc: wrap16(pre.pc + mode_len(mode)) as u16,
            tick_count: (pre.tick_count + mode_cycles_read(mode) + penalty(pre, m, mode, true))
                as u32,
            ..pre
        })
    } else {
        &&& r == Err::<(), Diagnostic>(Diagnostic::InternalDispatchInconsistency(
            pre.current_opcode,
        ))
        &&& post == (Cpu { zero: pre.a == 0, sign: sign8(pre.a), ..pre })
    }
}

/// Load the X register; zero and sign from the loaded value.
pub open spec fn ldx_post(pre: Cpu, post: Cpu, m: Seq<u8>, r: Result<(), Diagnostic>) -> bool {
    if is_ldx_op(pre.current_opcode) {
        let mode = ldx_mode(pre.current_opcode);
        let v = read_val(pre, m, mode);
        &&& r == Ok::<(), Diagnostic>(())
        &&& post == (Cpu {
            x: v,
            zero: v == 0,
            sign: sign8(v),
            pc: wrap16(pre.pc + mode_len(mode)) as u16,
            tick_count: (pre.tick_count + mode_cycles_read(mode) + penalty(pre, m, mode, true))
                as u32,
            ..pre
        })
    } else {
        &&& r == Err::<(), Diagnostic>(Diagnostic::InternalDispatchInconsistency(
            pre.current_opcode,
        ))
        &&& post == (Cpu { zero: pre.x == 0, sign: sign8(pre.x), ..pre })
    }
}

/// Load the Y register; zero and sign from the loaded value.
pub open spec fn ldy_post(pre: Cpu, post: Cpu, m: Seq<u8>, r: Result<(), Diagnostic>) -> bool {
    if is_ldy_op(pre.current_opcode) {
        let mode = ldy_mode(pre.current_opcode);
        let v = read_val(pre, m, mode);
        &&& r == Ok::<(), Diagnostic>(())
        &&& post == (Cpu {
            y: v,
            zero: v == 0,
            sign: sign8(v),
            pc: wrap16(pre.pc + mode_len(mode)) as u16,
            tick_count: (pre.tick_count + mode_cycles_read(mode) + penalty(pre, m, mode, true))
                as u32,
            ..pre
        })
    } else {
        &&& r == Err::<(), Diagnostic>(Diagnostic::InternalDispatchInconsistency(
            pre.current_opcode,
        ))
        &&& post == (Cpu { zero: pre.y == 0, sign: sign8(pre.y), ..pre })
    }
}

/// Bit test: zero from accumulator-and-operand, sign from operand bit 7,
/// overflow from operand bit 6.
pub open spec fn bit_post(pre: Cpu, post: Cpu, m: Seq<u8>, r: Result<(), Diagnostic>) -> bool {
    if is_bit_op(pre.current_opcode) {
        let mode = bit_mode(pre.current_opcode);
        let v = read_val(pre, m, mode);
        &&& r == Ok::<(), Diagnostic>(())
        &&& post == (Cpu {
            zero: pre.a & v == 0,
            sign: sign8(v),
            overflow: bit_set(v, 0x40),
            pc: wrap16(pre.pc + mode_len(mode)) as u16,
            tick_count: (pre.tick_count + mode_cycles_read(mode)) as u32,
            ..pre
        })
    } else {
        &&& r == Err::<(), Diagnostic>(Diagnostic::InternalDispatchInconsistency(
            pre.current_opcode,
        ))
        &&& post == (Cpu {
            zero: pre.a & 0 == 0,
            sign: sign8(0),
            overflow: bit_set(0, 0x40),
            ..pre
        })
    }
}

impl Cpu {
    /// Add with carry.
    #[verifier::rlimit(100)]
    pub fn adc(&mut self, mem: &Memory) -> (r: Result<(), Diagnostic>)
        requires
            old(self).tick_count + 7 <= u32::MAX,
        ensures
            adc_post(*old(self), *final(self), mem@, r),
    {
        let arg1 = mem.read_byte(word_plus(self.pc, 1));
        let arg2 = mem.read_byte(word_plus(self.pc, 2));
        let (value, cycles, length, known): (u8, u32, u16, bool) = match self.current_opcode {
            0x69 => (arg1, 2, 2, true),
            0x65 => (self.zero_page(mem, arg1), 3, 2, true),
            0x75 => (self.zero_page_x(mem, arg1), 4, 2, true),
            0x6d => (self.absolute(mem, arg1, arg2), 4, 3, true),
            0x7d => (self.absolute_x(mem, arg1, arg2, true), 4, 3, true),
            0x79 => (self.absolute_y(mem, arg1, arg2, true), 4, 3, true),
            0x61 => (self.indirect_x(mem, arg1), 6, 2, true),
            0x71 => (self.indirect_y(mem, arg1, true), 5, 2, true),
            _ => (0, 0, 0, false),
        };
        let total: u16 = self.a as u16 + value as u16 + if self.carry {
            1
        } else {
            0
        };
        let low: u16 = if total > 0xff {
            total - 0x100
        } else {
            total
        };
        self.carry = total > 0xff;
        self.overflow = total > 0xff;
        self.zero = low == 0;
        self.sign = low >= 0x80;
        self.a = low as u8;
        self.tick_count += cycles;
        self.pc = word_plus(self.pc, length);
        if known {
            Ok(())
        } else {
            Err(Diagnostic::InternalDispatchInconsistency(self.current_opcode))
        }
    }

    /// Subtract with carry.
    #[verifier::rlimit(60)]
    pub fn sbc(&mut self, mem: &Memory) -> (r: Result<(), Diagnostic>)
        requires
            old(self).tick_count + 7 <= u32::MAX,
        ensures
            sbc_post(*old(self), *final(self), mem@, r),
    {
        let arg1 = mem.read_byte(word_plus(self.pc, 1));
        let arg2 = mem.read_byte(word_plus(self.pc, 2));
        let value: u8 = match self.current_opcode {
            0xe9 => arg1,
            0xe5 => self.zero_page(mem, arg1),
            0xf5 => self.zero_page_x(mem, arg1),
            0xed => self.absolute(mem, arg1, arg2),
            0xfd => self.absolute_x(mem, arg1, arg2, true),
            0xf9 => self.absolute_y(mem, arg1, arg2, true),
            0xe1 => self.indirect_x(mem, arg1),
            0xf1 => self.indirect_y(mem, arg1, true),
            _ => 0,
        };
        let total: i16 = self.a as i16 - value as i16 - if self.carry {
            0
        } else {
            1
        };
        let low: i16 = if total < 0 {
            total + 0x100
        } else {
            total
        };
        self.carry = total >= 0;
        self.overflow = total < 0;
        self.zero = low == 0;
        self.sign = low >= 0x80;
        self.a = low as u8;
        match self.current_opcode {
            0xe9 => {
                self.tick_count += 2;
                self.pc = word_plus(self.pc, 2);
                Ok(())
            },
            0xe5 => {
                self.tick_count += 3;
                self.pc = word_plus(self.pc, 2);
                Ok(())
            },
            0xf5 => {
                self.tick_count += 4;
                self.pc = word_plus(self.pc, 2);
                Ok(())
            },
            0xed => {
                self.tick_count += 4;
                self.pc = word_plus(self.pc, 3);
                Ok(())
            },
            0xfd => {
                self.tick_count += 4;
                self.pc = word_plus(self.pc, 3);
                Ok(())
            },
            0xf9 => {
                self.tick_count += 4;
                self.pc = word_plus(self.pc, 3);
                Ok(())
            },
            0xe1 => {
                self.tick_count += 6;
                self.pc = word_plus(self.pc, 2);
                Ok(())
            },
            0xf1 => {
                self.tick_count += 5;
                self.pc = word_plus(self.pc, 2);
                Ok(())
            },
            _ => Err(Diagnostic::InternalDispatchInconsistency(self.current_opcode)),
        }
    }

    /// Bitwise and into the accumulator.
    pub fn and(&mut self, mem: &Memory) -> (r: Result<(), Diagnostic>)
        requires
            old(self).tick_count + 7 <= u32::MAX,
        ensures
            and_post(*old(self), *final(self), mem@, r),
    {
        let arg1 = mem.read_byte(word_plus(self.pc, 1));
        let arg2 = mem.read_byte(word_plus(self.pc, 2));
        let value: u8 = match self.current_opcode {
            0x29 => arg1,
            0x25 => self.zero_page(mem, arg1),
            0x35 => self.zero_page_x(mem, arg1),
            0x2d => self.absolute(mem, arg1, arg2),
            0x3d => self.absolute_x(mem, arg1, arg2, true),
            0x39 => self.absolute_y(mem, arg1, arg2, true),
            0x21 => self.indirect_x(mem, arg1),
            0x31 => self.indirect_y(mem, arg1, true),
            _ => 0,
        };
        self.a = self.a & value;
        self.zero = self.a == 0;
        self.sign = self.a >= 0x80;
        match self.current_opcode {
            0x29 => {
                self.tick_count += 2;
                self.pc = word_plus(self.pc, 2);
                Ok(())
            },
            0x25 => {
                self.tick_count += 3;
                self.pc = word_plus(self.pc, 2);
                Ok(())
            },
            0x35 => {
                self.tick_count += 4;
                self.pc = word_plus(self.pc, 2);
                Ok(())
            },
            0x2d => {
                self.tick_count += 4;
                self.pc = word_plus(self.pc, 3);
                Ok(())
            },
            0x3d => {
                self.tick_count += 4;
                self.pc = word_plus(self.pc, 3);
                Ok(())
            },
            0x39 => {
                self.tick_count += 4;
                self.pc = word_plus(self.pc, 3);
                Ok(())
            },
            0x21 => {
                self.tick_count += 6;
                self.pc = word_plus(self.pc, 2);
                Ok(())
            },
            0x31 => {
                self.tick_count += 5;
                self.pc = word_plus(self.pc, 2);
                Ok(())
            },
            _ => Err(Diagnostic::InternalDispatchInconsistency(self.current_opcode)),
        }
    }

    /// Bitwise or into the accumulator.
    pub fn ora(&mut self, mem: &Memory) -> (r: Result<(), Diagnostic>)
        requires
            old(self).tick_count + 7 <= u32::MAX,
        ensures
            ora_post(*old(self), *final(self), mem@, r),
    {
        let arg1 = mem.read_byte(word_plus(self.pc, 1));
        let arg2 = mem.read_byte(word_plus(self.pc, 2));
        let value: u8 = match self.current_opcode {
            0x09 => arg1,
            0x05 => self.zero_page(mem, arg1),
            0x15 => self.zero_page_x(mem, arg1),
            0x0d => self.absolute(mem, arg1, arg2),
            0x1d => self.absolute_x(mem, arg1, arg2, true),
            0x19 => self.absolute_y(mem, arg1, arg2, true),
            0x01 => self.indirect_x(mem, arg1),
            0x11 => self.indirect_y(mem, arg1, true),
            _ => 0,
        };
        self.a = self.a | value;
        self.zero = self.a == 0;
        self.sign = self.a >= 0x80;
        match self.current_opcode {
            0x09 => {
                self.tick_count += 2;
                self.pc = word_plus(self.pc, 2);
                Ok(())
            },
            0x05 => {
                self.tick_count += 3;
                self.pc = word_plus(self.pc, 2);
                Ok(())
            },
            0x15 => {
                self.tick_count += 4;
                self.pc = word_plus(self.pc, 2);
                Ok(())
            },
            0x0d => {
                self.tick_count += 4;
                self.pc = word_plus(self.pc, 3);
                Ok(())
            },
            0x1d => {
                self.tick_count += 4;
                self.pc = word_plus(self.pc, 3);
                Ok(())
            },
            0x19 => {
                self.tick_count += 4;
                self.pc = word_plus(self.pc, 3);
                Ok(())
            },
            0x01 => {
                self.tick_count += 6;
                self.pc = word_plus(self.pc, 2);
                Ok(())
            },
            0x11 => {
                self.tick_count += 5;
                self.pc = word_plus(self.pc, 2);
                Ok(())
            },
            _ => Err(Diagnostic::InternalDispatchInconsistency(self.current_opcode)),
        }
    }

    /// Bitwise exclusive-or into the accumulator.
    pub fn eor(&mut self, mem: &Memory) -> (r: Result<(), Diagnostic>)
        requires
            old(self).tick_count + 7 <= u32::MAX,
        ensures
            eor_post(*old(self), *final(self), mem@, r),
    {
        let arg1 = mem.read_byte(word_plus(self.pc, 1));
        let arg2 = mem.read_byte(word_plus(self.pc, 2));
        let value: u8 = match self.current_opcode {
            0x49 => arg1,
            0x45 => self.zero_page(mem, arg1),
            0x55 => self.zero_page_x(mem, arg1),
            0x4d => self.absolute(mem, arg1, arg2),
            0x5d => self.absolute_x(mem, arg1, arg2, true),
            0x59 => self.absolute_y(mem, arg1, arg2, true),
            0x41 => self.indirect_x(mem, arg1),
            0x51 => self.indirect_y(mem, arg1, true),
            _ => 0,
        };
        self.a = self.a ^ value;
        self.zero = self.a == 0;
        self.sign = self.a >= 0x80;
        match self.current_opcode {
            0x49 => {
                self.tick_count += 2;
                self.pc = word_plus(self.pc, 2);
                Ok(())
            },
            0x45 => {
                self.tick_count += 3;
                self.pc = word_plus(self.pc, 2);
                Ok(())
            },
            0x55 => {
                self.tick_count += 4;
                self.pc = word_plus(self.pc, 2);
                Ok(())
            },
            0x4d => {
                self.tick_count += 4;
                self.pc = word_plus(self.pc, 3);
                Ok(())
            },
            0x5d => {
                self.tick_count += 4;
                self.pc = word_plus(self.pc, 3);
                Ok(())
            },
            0x59 => {
                self.tick_count += 4;
                self.pc = word_plus(self.pc, 3);
                Ok(())
            },
            0x41 => {
                self.tick_count += 6;
                self.pc = word_plus(self.pc, 2);
                Ok(())
            },
            0x51 => {
                self.tick_count += 5;
                self.pc = word_plus(self.pc, 2);
                Ok(())
            },
            _ => Err(Diagnostic::InternalDispatchInconsistency(self.current_opcode)),
        }
    }

    /// Compare the accumulator with the operand.
    #[verifier::rlimit(60)]
    pub fn cmp(&mut self, mem: &Memory) -> (r: Result<(), Diagnostic>)
        requires
            old(self).tick_count + 7 <= u32::MAX,
        ensures
            cmp_post(*old(self), *final(self), mem@, r),
    {
        let arg1 = mem.read_byte(word_plus(self.pc, 1));
        let arg2 = mem.read_byte(word_plus(self.pc, 2));
        let value: u8 = match self.current_opcode {
            0xc9 => arg1,
            0xc5 => self.zero_page(mem, arg1),
            0xd5 => self.zero_page_x(mem, arg1),
            0xcd => self.absolute(mem, arg1, arg2),
            0xdd => self.absolute_x(mem, arg1, arg2, true),
            0xd9 => self.absolute_y(mem, arg1, arg2, true),
            0xc1 => self.indirect_x(mem, arg1),
            0xd1 => self.indirect_y(mem, arg1, true),
            _ => 0,
        };
        self.carry = self.a >= value;
        let low: u8 = if self.a >= value {
            self.a - value
        } else {
            ((0x100 + self.a as u16) - value as u16) as u8
        };
        self.zero = low == 0;
        self.sign = low >= 0x80;
        match self.current_opcode {
            0xc9 => {
                self.tick_count += 2;
                self.pc = word_plus(self.pc, 2);
                Ok(())
            },
            0xc5 => {
                self.tick_count += 3;
                self.pc = word_plus(self.pc, 2);
                Ok(())
            },
            0xd5 => {
                self.tick_count += 4;
                self.pc = word_plus(self.pc, 2);
                Ok(())
            },
            0xcd => {
                self.tick_count += 4;
                self.pc = word_plus(self.pc, 3);
                Ok(())
            },
            0xdd => {
                self.tick_count += 4;
                self.pc = word_plus(self.pc, 3);
                Ok(())
            },
            0xd9 => {
                self.tick_count += 4;
                self.pc = word_plus(self.pc, 3);
                Ok(())
            },
            0xc1 => {
                self.tick_count += 6;
                self.pc = word_plus(self.pc, 2);
                Ok(())
            },
            0xd1 => {
                self.tick_count += 5;
                self.pc = word_plus(self.pc, 2);
                Ok(())
            },
            _ => Err(Diagnostic::InternalDispatchInconsistency(self.current_opcode)),
        }
    }

    /// Compare the X register with the operand.
    pub fn cpx(&mut self, mem: &Memory) -> (r: Result<(), Diagnostic>)
        requires
            old(self).tick_count + 4 <= u32::MAX,
        ensures
            cpx_post(*old(self), *final(self), mem@, r),
    {
        let arg1 = mem.read_byte(word_plus(self.pc, 1));
        let arg2 = mem.read_byte(word_plus(self.pc, 2));
        let value: u8 = match self.current_opcode {
            0xe0 => arg1,
            0xe4 => self.zero_page(mem, arg1),
            0xec => self.absolute(mem, arg1, arg2),
            _ => 0,
        };
        self.carry = self.x >= value;
        let low: u8 = if self.x >= value {
            self.x - value
        } else {
            ((0x100 + self.x as u16) - value as u16) as u8
        };
        self.zero = low == 0;
        self.sign = low >= 0x80;
        match self.current_opcode {
            0xe0 => {
                self.tick_count += 2;
                self.pc = word_plus(self.pc, 2);
                Ok(())
            },
            0xe4 => {
                self.tick_count += 3;
                self.pc = word_plus(self.pc, 2);
                Ok(())
            },
            0xec => {
                self.tick_count += 4;
                self.pc = word_plus(self.pc, 3);
                Ok(())
            },
            _ => Err(Diagnostic::InternalDispatchInconsistency(self.current_opcode)),
        }
    }

    /// Compare the Y register with the operand.
    pub fn cpy(&mut self, mem: &Memory) -> (r: Result<(), Diagnostic>)
        requires
            old(self).tick_count + 4 <= u32::MAX,
        ensures
            cpy_post(*old(self), *final(self), mem@, r),
    {
        let arg1 = mem.read_byte(word_plus(self.pc, 1));
        let arg2 = mem.read_byte(word_plus(self.pc, 2));
        let value: u8 = match self.current_opcode {
            0xc0 => arg1,
            0xc4 => self.zero_page(mem, arg1),
            0xcc => self.absolute(mem, arg1, arg2),
            _ => 0,
        };
        self.carry = self.y >= value;
        let low: u8 = if self.y >= value {
            self.y - value
        } else {
            ((0x100 + self.y as u16) - value as u16) as u8
        };
        self.zero = low == 0;
        self.sign = low >= 0x80;
        match self.current_opcode {
            0xc0 => {
                self.tick_count += 2;
                self.pc = word_plus(self.pc, 2);
                Ok(())
            },
            0xc4 => {
                self.tick_count += 3;
                self.pc = word_plus(self.pc, 2);
                Ok(())
            },
            0xcc => {
                self.tick_count += 4;
                self.pc = word_plus(self.pc, 3);
                Ok(())
            },
            _ => Err(Diagnostic::InternalDispatchInconsistency(self.current_opcode)),
        }
    }

    /// Load the accumulator.
    pub fn lda(&mut self, mem: &Memory) -> (r: Result<(), Diagnostic>)
        requires
            old(self).tick_count + 7 <= u32::MAX,
        ensures
            lda_post(*old(self), *final(self), mem@, r),
    {
        let arg1 = mem.read_byte(word_plus(self.pc, 1));
        let arg2 = mem.read_byte(word_plus(self.pc, 2));
        let value: u8 = match self.current_opcode {
            0xa9 => arg1,
            0xa5 => self.zero_page(mem, arg1),
            0xb5 => self.zero_page_x(mem, arg1),
            0xad => self.absolute(mem, arg1, arg2),
            0xbd => self.absolute_x(mem, arg1, arg2, true),
            0xb9 => self.absolute_y(mem, arg1, arg2, true),
            0xa1 => self.indirect_x(mem, arg1),
            0xb1 => self.indirect_y(mem, arg1, true),
            _ => self.a,
        };
        self.a = value;
        self.zero = self.a == 0;
        self.sign = self.a >= 0x80;
        match self.current_opcode {
            0xa9 => {
                self.tick_count += 2;
                self.pc = word_plus(self.pc, 2);
                Ok(())
            },
            0xa5 => {
                self.tick_count += 3;
                self.pc = word_plus(self.pc, 2);
                Ok(())
            },
            0xb5 => {
                self.tick_count += 4;
                self.pc = word_plus(self.pc, 2);
                Ok(())
            },
            0xad => {
                self.tick_count += 4;
                self.pc = word_plus(self.pc, 3);
                Ok(())
            },
            0xbd => {
                self.tick_count += 4;
                self.pc = word_plus(self.pc, 3);
                Ok(())
            },
            0xb9 => {
                self.tick_count += 4;
                self.pc = word_plus(self.pc, 3);
                Ok(())
            },
            0xa1 => {
                self.tick_count += 6;
                self.pc = word_plus(self.pc, 2);
                Ok(())
            },
            0xb1 => {
                self.tick_count += 5;
                self.pc = word_plus(self.pc, 2);
                Ok(())
            },
            _ => Err(Diagnostic::InternalDispatchInconsistency(self.current_opcode)),
        }
    }

    /// Load the X register.
    pub fn ldx(&mut self, mem: &Memory) -> (r: Result<(), Diagnostic>)
        requires
            old(self).tick_count + 5 <= u32::MAX,
        ensures
            ldx_post(*old(self), *final(self), mem@, r),
    {
        let arg1 = mem.read_byte(word_plus(self.pc, 1));
        let arg2 = mem.read_byte(word_plus(self.pc, 2));
        let value: u8 = match self.current_opcode {
            0xa2 => arg1,
            0xa6 => self.zero_page(mem, arg1),
            0xb6 => self.zero_page_y(mem, arg1),
            0xae => self.absolute(mem, arg1, arg2),
            0xbe => self.absolute_y(mem, arg1, arg2, true),
            _ => self.x,
        };
        self.x = value;
        self.zero = self.x == 0;
        self.sign = self.x >= 0x80;
        match self.current_opcode {
            0xa2 => {
                self.tick_count += 2;
                self.pc = word_plus(self.pc, 2);
                Ok(())
            },
            0xa6 => {
                self.tick_count += 3;
                self.pc = word_plus(self.pc, 2);
                Ok(())
            },
            0xb6 => {
                self.tick_count += 4;
                self.pc = word_plus(self.pc, 2);
                Ok(())
            },
            0xae => {
                self.tick_count += 4;
                self.pc = word_plus(self.pc, 3);
                Ok(())
            },
            0xbe => {
                self.tick_count += 4;
                self.pc = word_plus(self.pc, 3);
                Ok(())
            },
            _ => Err(Diagnostic::InternalDispatchInconsistency(self.current_opcode)),
        }
    }

    /// Load the Y register.
    pub fn ldy(&mut self, mem: &Memory) -> (r: Result<(), Diagnostic>)
        requires
            old(self).tick_count + 5 <= u32::MAX,
        ensures
            ldy_post(*old(self), *final(self), mem@, r),
    {
        let arg1 = mem.read_byte(word_plus(self.pc, 1));
        let arg2 = mem.read_byte(word_plus(self.pc, 2));
        let value: u8 = match self.current_opcode {
            0xa0 => arg1,
            0xa4 => self.zero_page(mem, arg1),
            0xb4 => self.zero_page_x(mem, arg1),
            0xac => self.absolute(mem, arg1, arg2),
            0xbc => self.absolute_x(mem, arg1, arg2, true),
            _ => self.y,
        };
        self.y = value;
        self.zero = self.y == 0;
        self.sign = self.y >= 0x80;
        match self.current_opcode {
            0xa0 => {
                self.tick_count += 2;
                self.pc = word_plus(self.pc, 2);
                Ok(())
            },
            0xa4 => {
                self.tick_count += 3;
                self.pc = word_plus(self.pc, 2);
                Ok(())
            },
            0xb4 => {
                self.tick_count += 4;
                self.pc = word_plus(self.pc, 2);
                Ok(())
            },
            0xac => {
                self.tick_count += 4;
                self.pc = word_plus(self.pc, 3);
                Ok(())
            },
            0xbc => {
                self.tick_count += 4;
                self.pc = word_plus(self.pc, 3);
                Ok(())
            },
            _ => Err(Diagnostic::InternalDispatchInconsistency(self.current_opcode)),
        }
    }

    /// Bit test of the accumulator against a memory operand.
    pub fn bit(&mut self, mem: &Memory) -> (r: Result<(), Diagnostic>)
        requires
            old(self).tick_count + 4 <= u32::MAX,
        ensures
            bit_post(*old(self), *final(self), mem@, r),
    {
        let arg1 = mem.read_byte(word_plus(self.pc, 1));
        let arg2 = mem.read_byte(word_plus(self.pc, 2));
        let value: u8 = match self.current_opcode {
            0x24 => self.zero_page(mem, arg1),
            0x2c => self.absolute(mem, arg1, arg2),
            _ => 0,
        };
        self.zero = (self.a & value) == 0;
        self.sign = value >= 0x80;
        self.overflow = (value & 0x40) == 0x40;
        match self.current_opcode {
            0x24 => {
                self.tick_count += 3;
                self.pc = word_plus(self.pc, 2);
                Ok(())
            },
            0x2c => {
                self.tick_count += 4;
                self.pc = word_plus(self.pc, 3);
                Ok(())
            },
            _ => Err(Diagnostic::InternalDispatchInconsistency(self.current_opcode)),
        }
    }
}

} // verus!
