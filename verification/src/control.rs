//! Control transfer and stack instructions: the eight conditional branches,
//! jumps, subroutine call and return, software interrupt and return from
//! interrupt, and the push/pull instructions.

use vstd::prelude::*;

use crate::arith::branch_target;
use crate::arith::hi8;
use crate::arith::lo8;
use crate::arith::make_address;
use crate::arith::page_of;
use crate::arith::signed8;
use crate::arith::word_plus;
use crate::arith::wrap16;
use crate::arith::wrap8;
use crate::cpu::Cpu;
use crate::cpu::Diagnostic;
use crate::memory::word_at;
use crate::memory::Memory;
use crate::status::bit_set;
use crate::status::sign8;
use crate::status::status_bits;

verus! {

/// A conditional branch's outcome. Every branch charges 2 base cycles; a
/// taken branch charges 1 more, and 1 further when the target lies in a
/// different page than the address immediately following the branch.
pub open spec fn branch_post(pre: Cpu, post: Cpu, m: Seq<u8>, cond: bool) -> bool {
    let off = m[wrap16(pre.pc + 1)];
    let next = wrap16(pre.pc + 2);
    if cond {
        let target = wrap16(next + signed8(off));
        post == (Cpu {
            pc: target as u16,
            tick_count: (pre.tick_count + (if page_of(next) != page_of(target) {
                4int
            } else {
                3int
            })) as u32,
            ..pre
        })
    } else {
        post == (Cpu {
            pc: next as u16,
            tick_count: (pre.tick_count + 2) as u32,
            ..pre
        })
    }
}

/// Absolute jump (`0x4C`) or indirect jump (`0x6C`). The indirect jump
/// reads its target through the pointer with a plain little-endian word
/// read.
pub open spec fn jmp_post(pre: Cpu, post: Cpu, m: Seq<u8>, r: Result<(), Diagnostic>) -> bool {
    if pre.current_opcode == 0x4c {
        &&& r == Ok::<(), Diagnostic>(())
        &&& post == (Cpu {
            pc: word_at(m, wrap16(pre.pc + 1)) as u16,
            tick_count: (pre.tick_count + 3) as u32,
            ..pre
        })
    } else if pre.current_opcode == 0x6c {
        &&& r == Ok::<(), Diagnostic>(())
        &&& post == (Cpu {
            pc: word_at(m, word_at(m, wrap16(pre.pc + 1))) as u16,
            tick_count: (pre.tick_count + 5) as u32,
            ..pre
        })
    } else {
        &&& r == Err::<(), Diagnostic>(Diagnostic::InternalDispatchInconsistency(
            pre.current_opcode,
        ))
        &&& post == pre
    }
}

/// Subroutine call: pushes the address of the call instruction's last byte,
/// then jumps to the absolute operand.
pub open spec fn jsr_post(pre: Cpu, post: Cpu, m0: Seq<u8>, m1: Seq<u8>) -> bool {
    let ret = wrap16(pre.pc + 2) as u16;
    &&& m1 == m0.update(0x100 + pre.sp, hi8(ret)).update(0x100 + wrap8(pre.sp - 1), lo8(ret))
    &&& post == (Cpu {
        sp: wrap8(pre.sp - 2) as u8,
        pc: make_address(m0[wrap16(pre.pc + 1)], m0[wrap16(pre.pc + 2)]),
        tick_count: (pre.tick_count + 6) as u32,
        ..pre
    })
}

/// Subroutine return: pulls the program counter and adds 1.
pub open spec fn rts_post(pre: Cpu, post: Cpu, m: Seq<u8>) -> bool {
    post == (Cpu {
        sp: wrap8(pre.sp + 2) as u8,
        pc: wrap16(
            make_address(m[0x100 + wrap8(pre.sp + 1)], m[0x100 + wrap8(pre.sp + 2)]) + 1,
        ) as u16,
        tick_count: (pre.tick_count + 6) as u32,
        ..pre
    })
}

/// Return from interrupt: pulls status, then pulls the program counter
/// verbatim.
pub open spec fn rti_post(pre: Cpu, post: Cpu, m: Seq<u8>) -> bool {
    let s = m[0x100 + wrap8(pre.sp + 1)];
    post == (Cpu {
        sp: wrap8(pre.sp + 3) as u8,
        sign: bit_set(s, 0x80),
        overflow: bit_set(s, 0x40),
        brk: bit_set(s, 0x10),
        decimal: bit_set(s, 0x08),
        interrupt: bit_set(s, 0x04),
        zero: bit_set(s, 0x02),
        carry: bit_set(s, 0x01),
        pc: make_address(m[0x100 + wrap8(pre.sp + 2)], m[0x100 + wrap8(pre.sp + 3)]),
        tick_count: (pre.tick_count + 6) as u32,
        ..pre
    })
}

/// Software interrupt: advances the program counter past the instruction
/// and its padding byte, pushes it, sets break, pushes status, sets
/// interrupt-disable, and loads the program counter from the interrupt
/// vector at `0xFFFE`.
pub open spec fn brk_post(pre: Cpu, post: Cpu, m0: Seq<u8>, m1: Seq<u8>) -> bool {
    let ret = wrap16(pre.pc + 2) as u16;
    let pushed = m0.update(0x100 + pre.sp, hi8(ret)).update(
        0x100 + wrap8(pre.sp - 1),
        lo8(ret),
    ).update(
        0x100 + wrap8(pre.sp - 2),
        status_bits(pre.sign, pre.overflow, true, pre.decimal, pre.interrupt, pre.zero, pre.carry),
    );
    &&& m1 == pushed
    &&& post == (Cpu {
        sp: wrap8(pre.sp - 3) as u8,
        brk: true,
        interrupt: true,
        pc: word_at(pushed, 0xfffe) as u16,
        tick_count: (pre.tick_count + 7) as u32,
        ..pre
    })
}

impl Cpu {
    /// Branch when carry is clear.
    pub fn bcc(&mut self, mem: &Memory)
        requires
            old(self).tick_count + 4 <= u32::MAX,
        ensures
            branch_post(*old(self), *final(self), mem@, !old(self).carry),
    {
        let arg1 = mem.read_byte(word_plus(self.pc, 1));
        self.pc = word_plus(self.pc, 2);
        if !self.carry {
            let target = branch_target(self.pc, arg1);
            if self.pc / 0x100 != target / 0x100 {
                self.tick_count += 1;
            }
            self.pc = target;
            self.tick_count += 1;
        }
        self.tick_count += 2;
    }

    /// Branch when carry is set.
    pub fn bcs(&mut self, mem: &Memory)
        requires
            old(self).tick_count + 4 <= u32::MAX,
        ensures
            branch_post(*old(self), *final(self), mem@, old(self).carry),
    {
        let arg1 = mem.read_byte(word_plus(self.pc, 1));
        self.pc = word_plus(self.pc, 2);
        if self.carry {
            let target = branch_target(self.pc, arg1);
            if self.pc / 0x100 != target / 0x100 {
                self.tick_count += 1;
            }
            self.pc = target;
            self.tick_count += 1;
        }
        self.tick_count += 2;
    }

    /// Branch when the zero flag is set.
    pub fn beq(&mut self, mem: &Memory)
        requires
            old(self).tick_count + 4 <= u32::MAX,
        ensures
            branch_post(*old(self), *final(self), mem@, old(self).zero),
    {
        let arg1 = mem.read_byte(word_plus(self.pc, 1));
        self.pc = word_plus(self.pc, 2);
        if self.zero {
            let target = branch_target(self.pc, arg1);
            if self.pc / 0x100 != target / 0x100 {
                self.tick_count += 1;
            }
            self.pc = target;
            self.tick_count += 1;
        }
        self.tick_count += 2;
    }

    /// Branch when the zero flag is clear.
    pub fn bne(&mut self, mem: &Memory)
        requires
            old(self).tick_count + 4 <= u32::MAX,
        ensures
            branch_post(*old(self), *final(self), mem@, !old(self).zero),
    {
        let arg1 = mem.read_byte(word_plus(self.pc, 1));
        self.pc = word_plus(self.pc, 2);
        if !self.zero {
            let target = branch_target(self.pc, arg1);
            if self.pc / 0x100 != target / 0x100 {
                self.tick_count += 1;
            }
            self.pc = target;
            self.tick_count += 1;
        }
        self.tick_count += 2;
    }

    /// Branch when the sign flag is set.
    pub fn bmi(&mut self, mem: &Memory)
        requires
            old(self).tick_count + 4 <= u32::MAX,
        ensures
            branch_post(*old(self), *final(self), mem@, old(self).sign),
    {
        let arg1 = mem.read_byte(word_plus(self.pc, 1));
        self.pc = word_plus(self.pc, 2);
        if self.sign {
            let target = branch_target(self.pc, arg1);
            if self.pc / 0x100 != target / 0x100 {
                self.tick_count += 1;
            }
            self.pc = target;
            self.tick_count += 1;
        }
        self.tick_count += 2;
    }

    /// Branch when the sign flag is clear.
    pub fn bpl(&mut self, mem: &Memory)
        requires
            old(self).tick_count + 4 <= u32::MAX,
        ensures
            branch_post(*old(self), *final(self), mem@, !old(self).sign),
    {
        let arg1 = mem.read_byte(word_plus(self.pc, 1));
        self.pc = word_plus(self.pc, 2);
        if !self.sign {
            let target = branch_target(self.pc, arg1);
            if self.pc / 0x100 != target / 0x100 {
                self.tick_count += 1;
            }
            self.pc = target;
            self.tick_count += 1;
        }
        self.tick_count += 2;
    }

    /// Branch when overflow is set.
    pub fn bvs(&mut self, mem: &Memory)
        requires
            old(self).tick_count + 4 <= u32::MAX,
        ensures
            branch_post(*old(self), *final(self), mem@, old(self).overflow),
    {
        let arg1 = mem.read_byte(word_plus(self.pc, 1));
        self.pc = word_plus(self.pc, 2);
        if self.overflow {
            let target = branch_target(self.pc, arg1);
            if self.pc / 0x100 != target / 0x100 {
                self.tick_count += 1;
            }
            self.pc = target;
            self.tick_count += 1;
        }
        self.tick_count += 2;
    }

    /// Branch when overflow is clear.
    pub fn bvc(&mut self, mem: &Memory)
        requires
            old(self).tick_count + 4 <= u32::MAX,
        ensures
            branch_post(*old(self), *final(self), mem@, !old(self).overflow),
    {
        let arg1 = mem.read_byte(word_plus(self.pc, 1));
        self.pc = word_plus(self.pc, 2);
        if !self.overflow {
            let target = branch_target(self.pc, arg1);
            if self.pc / 0x100 != target / 0x100 {
                self.tick_count += 1;
            }
            self.pc = target;
            self.tick_count += 1;
        }
        self.tick_count += 2;
    }

    /// Absolute or indirect jump.
    pub fn jmp(&mut self, mem: &Memory) -> (r: Result<(), Diagnostic>)
        requires
            old(self).tick_count + 5 <= u32::MAX,
        ensures
            jmp_post(*old(self), *final(self), mem@, r),
    {
        let addr = mem.read_word(word_plus(self.pc, 1));
        match self.current_opcode {
            0x4c => {
                self.pc = addr;
                self.tick_count += 3;
                Ok(())
            },
            0x6c => {
                self.pc = mem.read_word(addr);
                self.tick_count += 5;
                Ok(())
            },
            _ => Err(Diagnostic::InternalDispatchInconsistency(self.current_opcode)),
        }
    }

    /// Subroutine call.
    pub fn jsr(&mut self, mem: &mut Memory)
        requires
            old(self).tick_count + 6 <= u32::MAX,
        ensures
            jsr_post(*old(self), *final(self), old(mem)@, final(mem)@),
    {
        let pc = self.pc;
        let arg1 = mem.read_byte(word_plus(pc, 1));
        let arg2 = mem.read_byte(word_plus(pc, 2));
        let ret = word_plus(pc, 2);
        self.push_u16(mem, ret);
        self.pc = make_address(arg1, arg2);
        self.tick_count += 6;
    }

    /// Subroutine return.
    pub fn rts(&mut self, mem: &Memory)
        requires
            old(self).tick_count + 6 <= u32::MAX,
        ensures
            rts_post(*old(self), *final(self), mem@),
    {
        let addr = self.pull_u16(mem);
        self.pc = word_plus(addr, 1);
        self.tick_count += 6;
    }

    /// Return from interrupt.
    pub fn rti(&mut self, mem: &Memory)
        requires
            old(self).tick_count + 6 <= u32::MAX,
        ensures
            rti_post(*old(self), *final(self), mem@),
    {
        self.pull_status(mem);
        self.pc = self.pull_u16(mem);
        self.tick_count += 6;
    }

    /// Software interrupt.
    pub fn brk(&mut self, mem: &mut Memory)
        requires
            old(self).tick_count + 7 <= u32::MAX,
        ensures
            brk_post(*old(self), *final(self), old(mem)@, final(mem)@),
    {
        let ret = word_plus(self.pc, 2);
        self.pc = ret;
        self.push_u16(mem, ret);
        self.brk = true;
        self.push_status(mem);
        self.interrupt = true;
        self.pc = mem.read_word(0xfffe);
        self.tick_count += 7;
    }

    /// Push the accumulator.
    pub fn pha(&mut self, mem: &mut Memory)
        requires
            old(self).tick_count + 3 <= u32::MAX,
        ensures
            final(mem)@ == old(mem)@.update(0x100 + old(self).sp, old(self).a),
            *final(self) == (Cpu {
                sp: wrap8(old(self).sp - 1) as u8,
                pc: wrap16(old(self).pc + 1) as u16,
                tick_count: (old(self).tick_count + 3) as u32,
                ..*old(self)
            }),
    {
        let a = self.a;
        self.push_u8(mem, a);
        self.pc = word_plus(self.pc, 1);
        self.tick_count += 3;
    }

    /// Push the packed status byte.
    pub fn php(&mut self, mem: &mut Memory)
        requires
            old(self).tick_count + 3 <= u32::MAX,
        ensures
            final(mem)@ == old(mem)@.update(
                0x100 + old(self).sp,
                status_bits(
                    old(self).sign,
                    old(self).overflow,
                    old(self).brk,
                    old(self).decimal,
                    old(self).interrupt,
                    old(self).zero,
                    old(self).carry,
                ),
            ),
            *final(self) == (Cpu {
                sp: wrap8(old(self).sp - 1) as u8,
                pc: wrap16(old(self).pc + 1) as u16,
                tick_count: (old(self).tick_count + 3) as u32,
                ..*old(self)
            }),
    {
        self.push_status(mem);
        self.pc = word_plus(self.pc, 1);
        self.tick_count += 3;
    }

    /// Pull the accumulator; zero and sign follow the pulled value.
    pub fn pla(&mut self, mem: &Memory)
        requires
            old(self).tick_count + 4 <= u32::MAX,
        ensures
            *final(self) == (Cpu {
                a: mem@[0x100 + wrap8(old(self).sp + 1)],
                zero: mem@[0x100 + wrap8(old(self).sp + 1)] == 0,
                sign: sign8(mem@[0x100 + wrap8(old(self).sp + 1)]),
                sp: wrap8(old(self).sp + 1) as u8,
                pc: wrap16(old(self).pc + 1) as u16,
                tick_count: (old(self).tick_count + 4) as u32,
                ..*old(self)
            }),
    {
        self.a = self.pull_u8(mem);
        self.zero = self.a == 0;
        self.sign = self.a >= 0x80;
        self.pc = word_plus(self.pc, 1);
        self.tick_count += 4;
    }

    /// Pull the packed status byte into the seven flags.
    pub fn plp(&mut self, mem: &Memory)
        requires
            old(self).tick_count + 4 <= u32::MAX,
        ensures
            *final(self) == (Cpu {
                sp: wrap8(old(self).sp + 1) as u8,
                sign: bit_set(mem@[0x100 + wrap8(old(self).sp + 1)], 0x80),
                overflow: bit_set(mem@[0x100 + wrap8(old(self).sp + 1)], 0x40),
                brk: bit_set(mem@[0x100 + wrap8(old(self).sp + 1)], 0x10),
                decimal: bit_set(mem@[0x100 + wrap8(old(self).sp + 1)], 0x08),
                interrupt: bit_set(mem@[0x100 + wrap8(old(self).sp + 1)], 0x04),
                zero: bit_set(mem@[0x100 + wrap8(old(self).sp + 1)], 0x02),
                carry: bit_set(mem@[0x100 + wrap8(old(self).sp + 1)], 0x01),
                pc: wrap16(old(self).pc + 1) as u16,
                tick_count: (old(self).tick_count + 4) as u32,
                ..*old(self)
            }),
    {
        self.pull_status(mem);
        self.pc = word_plus(self.pc, 1);
        self.tick_count += 4;
    }
}

} // verus!
