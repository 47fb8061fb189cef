//! The store instructions: each writes a register through its addressing
//! mode; no flags change and no page-cross penalty is charged.

use vstd::prelude::*;

use crate::addr::eff_addr;
use crate::addr::mode_cycles_store;
use crate::addr::mode_len;
use crate::addr::Mode;
use crate::arith::word_plus;
use crate::arith::wrap16;
use crate::cpu::Cpu;
use crate::cpu::Diagnostic;
use crate::memory::Memory;

verus! {

pub open spec fn is_sta_op(op: u8) -> bool {
    op == 0x85 || op == 0x95 || op == 0x8d || op == 0x9d || op == 0x99 || op == 0x81 || op == 0x91
}

pub open spec fn is_stx_op(op: u8) -> bool {
    op == 0x86 || op == 0x96 || op == 0x8e
}

pub open spec fn is_sty_op(op: u8) -> bool {
    op == 0x84 || op == 0x94 || op == 0x8c
}

pub open spec fn sta_mode(op: u8) -> Mode {
    if op == 0x85 {
        Mode::ZeroPage
    } else if op == 0x95 {
        Mode::ZeroPageX
    } else if op == 0x8d {
        Mode::Absolute
    } else if op == 0x9d {
        Mode::AbsoluteX
    } else if op == 0x99 {
        Mode::AbsoluteY
    } else if op == 0x81 {
        Mode::IndirectX
    } else {
        Mode::IndirectY
    }
}

pub open spec fn stx_mode(op: u8) -> Mode {
    if op == 0x86 {
        Mode::ZeroPage
    } else if op == 0x96 {
        Mode::ZeroPageY
    } else {
        Mode::Absolute
    }
}

pub open spec fn sty_mode(op: u8) -> Mode {
    if op == 0x84 {
        Mode::ZeroPage
    } else if op == 0x94 {
        Mode::ZeroPageX
    } else {
        Mode::Absolute
    }
}

/// A store's outcome: the register's value lands at the mode's effective
/// address, registers and flags stay as they were.
pub open spec fn store_post(
    pre: Cpu,
    post: Cpu,
    m0: Seq<u8>,
    m1: Seq<u8>,
    mode: Mode,
    data: u8,
) -> bool {
    &&& m1 == m0.update(eff_addr(pre, m0, mode), data)
    &&& post == (Cpu {
        pc: wrap16(pre.pc + mode_len(mode)) as u16,
        tick_count: (pre.tick_count + mode_cycles_store(mode)) as u32,
        ..pre
    })
}

pub open spec fn sta_post(
    pre: Cpu,
    post: Cpu,
    m0: Seq<u8>,
    m1: Seq<u8>,
    r: Result<(), Diagnostic>,
) -> bool {
    if is_sta_op(pre.current_opcode) {
        &&& r == Ok::<(), Diagnostic>(())
        &&& store_post(pre, post, m0, m1, sta_mode(pre.current_opcode), pre.a)
    } else {
        &&& r == Err::<(), Diagnostic>(Diagnostic::InternalDispatchInconsistency(
            pre.current_opcode,
        ))
        &&& m1 == m0
        &&& post == pre
    }
}

pub open spec fn stx_post(
    pre: Cpu,
    post: Cpu,
    m0: Seq<u8>,
    m1: Seq<u8>,
    r: Result<(), Diagnostic>,
) -> bool {
    if is_stx_op(pre.current_opcode) {
        &&& r == Ok::<(), Diagnostic>(())
        &&& store_post(pre, post, m0, m1, stx_mode(pre.current_opcode), pre.x)
    } else {
        &&& r == Err::<(), Diagnostic>(Diagnostic::InternalDispatchInconsistency(
            pre.current_opcode,
        ))
        &&& m1 == m0
        &&& post == pre
    }
}

pub open spec fn sty_post(
    pre: Cpu,
    post: Cpu,
    m0: Seq<u8>,
    m1: Seq<u8>,
    r: Result<(), Diagnostic>,
) -> bool {
    if is_sty_op(pre.current_opcode) {
        &&& r == Ok::<(), Diagnostic>(())
        &&& store_post(pre, post, m0, m1, sty_mode(pre.current_opcode), pre.y)
    } else {
        &&& r == Err::<(), Diagnostic>(Diagnostic::InternalDispatchInconsistency(
            pre.current_opcode,
        ))
        &&& m1 == m0
        &&& post == pre
    }
}

impl Cpu {
    /// Store the accumulator.
    #[verifier::rlimit(100)]
    pub fn sta(&mut self, mem: &mut Memory) -> (r: Result<(), Diagnostic>)
        requires
            old(self).tick_count + 6 <= u32::MAX,
        ensures
            sta_post(*old(self), *final(self), old(mem)@, final(mem)@, r),
    {
        let arg1 = mem.read_byte(word_plus(self.pc, 1));
        let arg2 = mem.read_byte(word_plus(self.pc, 2));
        let a = self.a;
        match self.current_opcode {
            0x85 => {
                self.zero_page_write(mem, arg1, a);
                self.tick_count += 3;
                self.pc = word_plus(self.pc, 2);
                Ok(())
            },
            0x95 => {
                self.zero_page_x_write(mem, arg1, a);
                self.tick_count += 4;
                self.pc = word_plus(self.pc, 2);
                Ok(())
            },
            0x8d => {
                self.absolute_write(mem, arg1, arg2, a);
                self.tick_count += 4;
                self.pc = word_plus(self.pc, 3);
                Ok(())
            },
            0x9d => {
                self.absolute_x_write(mem, arg1, arg2, a);
                self.tick_count += 5;
                self.pc = word_plus(self.pc, 3);
                Ok(())
            },
            0x99 => {
                self.absolute_y_write(mem, arg1, arg2, a);
                self.tick_count += 5;
                self.pc = word_plus(self.pc, 3);
                Ok(())
            },
            0x81 => {
                self.indirect_x_write(mem, arg1, a);
                self.tick_count += 6;
                self.pc = word_plus(self.pc, 2);
                Ok(())
            },
            0x91 => {
                self.indirect_y_write(mem, arg1, a);
                self.tick_count += 6;
                self.pc = word_plus(self.pc, 2);
                Ok(())
            },
            _ => Err(Diagnostic::InternalDispatchInconsistency(self.current_opcode)),
        }
    }

    /// Store the X register.
    pub fn stx(&mut self, mem: &mut Memory) -> (r: Result<(), Diagnostic>)
        requires
            old(self).tick_count + 4 <= u32::MAX,
        ensures
            stx_post(*old(self), *final(self), old(mem)@, final(mem)@, r),
    {
        let arg1 = mem.read_byte(word_plus(self.pc, 1));
        let arg2 = mem.read_byte(word_plus(self.pc, 2));
        let x = self.x;
        match self.current_opcode {
            0x86 => {
                self.zero_page_write(mem, arg1, x);
                self.tick_count += 3;
                self.pc = word_plus(self.pc, 2);
                Ok(())
            },
            0x96 => {
                self.zero_page_y_write(mem, arg1, x);
                self.tick_count += 4;
                self.pc = word_plus(self.pc, 2);
                Ok(())
            },
            0x8e => {
                self.absolute_write(mem, arg1, arg2, x);
                self.tick_count += 4;
                self.pc = word_plus(self.pc, 3);
                Ok(())
            },
            _ => Err(Diagnostic::InternalDispatchInconsistency(self.current_opcode)),
        }
    }

    /// Store the Y register.
    pub fn sty(&mut self, mem: &mut Memory) -> (r: Result<(), Diagnostic>)
        requires
            old(self).tick_count + 4 <= u32::MAX,
        ensures
            sty_post(*old(self), *final(self), old(mem)@, final(mem)@, r),
    {
        let arg1 = mem.read_byte(word_plus(self.pc, 1));
        let arg2 = mem.read_byte(word_plus(self.pc, 2));
        let y = self.y;
        match self.current_opcode {
            0x84 => {
                self.zero_page_write(mem, arg1, y);
                self.tick_count += 3;
                self.pc = word_plus(self.pc, 2);
                Ok(())
            },
            0x94 => {
                self.zero_page_x_write(mem, arg1, y);
                self.tick_count += 4;
                self.pc = word_plus(self.pc, 2);
                Ok(())
            },
            0x8c => {
                self.absolute_write(mem, arg1, arg2, y);
                self.tick_count += 4;
                self.pc = word_plus(self.pc, 3);
                Ok(())
            },
            _ => Err(Diagnostic::InternalDispatchInconsistency(self.current_opcode)),
        }
    }
}

} // verus!
