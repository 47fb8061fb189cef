//! The processor state: registers, condition flags and the cycle counter,
//! with the stack unit, the reset entry point and the one-byte register
//! instructions. The memory-operand instructions live in `instr`, the
//! addressing-mode resolvers in `addr`, and opcode dispatch with the
//! execution loop in `dispatch`.

use vstd::prelude::*;

use crate::arith::word_plus;
use crate::arith::wrap16;
use crate::arith::wrap8;
use crate::arith::hi8;
use crate::arith::lo8;
use crate::arith::make_address;
use crate::memory::word_at;
use crate::memory::Memory;
use crate::status::bit_set;
use crate::status::sign8;
use crate::status::status_bits;

verus! {

/// Cycle budget of one scanline of the video-timing subsystem; the execution
/// loop never runs past it in a single call.
pub const TICKS_PER_SCANLINE: u32 = 113;

/// The caller-supplied stopping rule for one invocation of the execution
/// loop.
#[derive(Clone)]
pub enum BreakCondition {
    /// Run until the program counter equals the given address.
    RunToPc(u16),
    /// Run exactly one instruction.
    RunNext,
    /// Run until the scanline tick budget is spent.
    RunToScanline,
    /// Never self-stop; the loop only returns when the tick budget is spent.
    RunFrame,
}

/// A fault in the instruction stream, reported to the caller rather than
/// printed or panicked on.
#[derive(Clone, Copy, PartialEq, Eq, Structural, Debug)]
pub enum Diagnostic {
    /// The fetched opcode byte has no handler; the program counter and tick
    /// counter were not advanced, so the caller must treat this as fatal.
    UnsupportedOpcode(u8),
    /// A handler's internal addressing-mode selection saw an opcode outside
    /// its set (unreachable through correct dispatch); a zero operand was
    /// substituted and the instruction completed without advancing the
    /// program counter or tick counter.
    InternalDispatchInconsistency(u8),
}

/// The processor state. All registers and flags are well-defined from
/// construction on; `tick_count` only ever increases.
pub struct Cpu {
    /// Accumulator.
    pub a: u8,
    /// X index register.
    pub x: u8,
    /// Y index register.
    pub y: u8,
    /// Stack pointer: an offset into the fixed stack page `0x0100`-`0x01FF`,
    /// wrapping modulo 256, never signalling overflow.
    pub sp: u8,
    /// Program counter.
    pub pc: u16,
    /// Carry flag.
    pub carry: bool,
    /// Zero flag.
    pub zero: bool,
    /// Interrupt-disable flag.
    pub interrupt: bool,
    /// Decimal flag.
    pub decimal: bool,
    /// Break flag.
    pub brk: bool,
    /// Overflow flag.
    pub overflow: bool,
    /// Sign flag.
    pub sign: bool,
    /// Cycles elapsed since the processor was created.
    pub tick_count: u32,
    /// Whether the execution loop's caller wants a per-step trace.
    pub is_debugging: bool,
    /// The most recently fetched instruction byte, kept for diagnostics.
    pub current_opcode: u8,
}

impl Cpu {
    /// A powered-on processor: all registers zero but for the stack pointer
    /// at `0xFF` and the program counter at the reset-vector placeholder.
    pub fn new() -> (r: Cpu)
        ensures
            r == (Cpu {
                a: 0u8,
                x: 0u8,
                y: 0u8,
                sp: 0xffu8,
                pc: 0xfffcu16,
                carry: false,
                zero: false,
                interrupt: false,
                decimal: false,
                brk: false,
                overflow: false,
                sign: false,
                tick_count: 0u32,
                is_debugging: false,
                current_opcode: 0u8,
            }),
    {
        Cpu {
            a: 0,
            x: 0,
            y: 0,
            sp: 0xff,
            pc: 0xfffc,
            carry: false,
            zero: false,
            interrupt: false,
            decimal: false,
            brk: false,
            overflow: false,
            sign: false,
            tick_count: 0,
            is_debugging: false,
            current_opcode: 0,
        }
    }

    /// Loads the program counter from the reset vector at `0xFFFC`; no other
    /// register or flag is touched.
    pub fn reset(&mut self, mem: &Memory)
        ensures
            *final(self) == (Cpu { pc: word_at(mem@, 0xfffc) as u16, ..*old(self) }),
    {
        self.pc = mem.read_word(0xfffc);
    }

    /// Writes one byte at the stack pointer's slot of the stack page, then
    /// decrements the stack pointer with wraparound from 0 to 255.
    pub fn push_u8(&mut self, mem: &mut Memory, data: u8)
        ensures
            final(mem)@ == old(mem)@.update(0x100 + old(self).sp, data),
            *final(self) == (Cpu { sp: wrap8(old(self).sp - 1) as u8, ..*old(self) }),
    {
        mem.write_byte(0x100 + self.sp as u16, data);
        if self.sp == 0 {
            self.sp = 0xff;
        } else {
            self.sp -= 1;
        }
    }

    /// Pushes a word: high byte first, so it is pulled last.
    pub fn push_u16(&mut self, mem: &mut Memory, data: u16)
        ensures
            final(mem)@ == old(mem)@.update(0x100 + old(self).sp, hi8(data)).update(
                0x100 + wrap8(old(self).sp - 1),
                lo8(data),
            ),
            *final(self) == (Cpu { sp: wrap8(old(self).sp - 2) as u8, ..*old(self) }),
    {
        self.push_u8(mem, (data / 0x100) as u8);
        self.push_u8(mem, (data % 0x100) as u8);
    }

    /// Packs the seven flags into one byte and pushes it.
    pub fn push_status(&mut self, mem: &mut Memory)
        ensures
            final(mem)@ == old(mem)@.update(
                0x100 + old(self).sp,
                status_bits(
                    old(self).sign,
                    old(self).overflow,
                    old(self).brk,
                    old(self).decimal,
                    old(self).interrupt,
                    old(self).zero,
                    old(self).carry,
                ),
            ),
            *final(self) == (Cpu { sp: wrap8(old(self).sp - 1) as u8, ..*old(self) }),
    {
        let mut status: u8 = 0;
        if self.sign {
            status += 0x80;
        }
        if self.overflow {
            status += 0x40;
        }
        if self.brk {
            status += 0x10;
        }
        if self.decimal {
            status += 0x08;
        }
        if self.interrupt {
            status += 0x04;
        }
        if self.zero {
            status += 0x02;
        }
        if self.carry {
            status += 0x01;
        }
        self.push_u8(mem, status);
    }

    /// Increments the stack pointer with wraparound from 255 to 0, then
    /// reads the byte at its slot of the stack page.
    pub fn pull_u8(&mut self, mem: &Memory) -> (r: u8)
        ensures
            r == mem@[0x100 + wrap8(old(self).sp + 1)],
            *final(self) == (Cpu { sp: wrap8(old(self).sp + 1) as u8, ..*old(self) }),
    {
        if self.sp == 0xff {
            self.sp = 0;
        } else {
            self.sp += 1;
        }
        mem.read_byte(0x100 + self.sp as u16)
    }

    /// Pulls a word: low byte first, matching the push order.
    pub fn pull_u16(&mut self, mem: &Memory) -> (r: u16)
        ensures
            r == make_address(
                mem@[0x100 + wrap8(old(self).sp + 1)],
                mem@[0x100 + wrap8(old(self).sp + 2)],
            ),
            *final(self) == (Cpu { sp: wrap8(old(self).sp + 2) as u8, ..*old(self) }),
    {
        let data_1 = self.pull_u8(mem);
        let data_2 = self.pull_u8(mem);
        make_address(data_1, data_2)
    }

    /// Pulls a status byte and unpacks it into the seven flags, discarding
    /// the unused bit.
    pub fn pull_status(&mut self, mem: &Memory)
        ensures
            *final(self) == (Cpu {
                sp: wrap8(old(self).sp + 1) as u8,
                sign: bit_set(mem@[0x100 + wrap8(old(self).sp + 1)], 0x80),
                overflow: bit_set(mem@[0x100 + wrap8(old(self).sp + 1)], 0x40),
                brk: bit_set(mem@[0x100 + wrap8(old(self).sp + 1)], 0x10),
                decimal: bit_set(mem@[0x100 + wrap8(old(self).sp + 1)], 0x08),
                interrupt: bit_set(mem@[0x100 + wrap8(old(self).sp + 1)], 0x04),
                zero: bit_set(mem@[0x100 + wrap8(old(self).sp + 1)], 0x02),
                carry: bit_set(mem@[0x100 + wrap8(old(self).sp + 1)], 0x01),
                ..*old(self)
            }),
    {
        let status = self.pull_u8(mem);
        self.sign = (status & 0x80) == 0x80;
        self.overflow = (status & 0x40) == 0x40;
        self.brk = (status & 0x10) == 0x10;
        self.decimal = (status & 0x08) == 0x08;
        self.interrupt = (status & 0x04) == 0x04;
        self.zero = (status & 0x02) == 0x02;
        self.carry = (status & 0x01) == 0x01;
    }

    /// Clear carry.
    pub fn clc(&mut self)
        requires
            old(self).tick_count + 2 <= u32::MAX,
        ensures
            *final(self) == (Cpu {
                carry: false,
                pc: wrap16(old(self).pc + 1) as u16,
                tick_count: (old(self).tick_count + 2) as u32,
                ..*old(self)
            }),
    {
        self.carry = false;
        self.pc = word_plus(self.pc, 1);
        self.tick_count = self.tick_count + 2;
    }

    /// Clear decimal.
    pub fn cld(&mut self)
        requires
            old(self).tick_count + 2 <= u32::MAX,
        ensures
            *final(self) == (Cpu {
                decimal: false,
                pc: wrap16(old(self).pc + 1) as u16,
                tick_count: (old(self).tick_count + 2) as u32,
                ..*old(self)
            }),
    {
        self.decimal = false;
        self.pc = word_plus(self.pc, 1);
        self.tick_count = self.tick_count + 2;
    }

    /// Clear interrupt-disable.
    pub fn cli(&mut self)
        requires
            old(self).tick_count + 2 <= u32::MAX,
        ensures
            *final(self) == (Cpu {
                interrupt: false,
                pc: wrap16(old(self).pc + 1) as u16,
                tick_count: (old(self).tick_count + 2) as u32,
                ..*old(self)
            }),
    {
        self.interrupt = false;
        self.pc = word_plus(self.pc, 1);
        self.tick_count = self.tick_count + 2;
    }

    /// Clear overflow.
    pub fn clv(&mut self)
        requires
            old(self).tick_count + 2 <= u32::MAX,
        ensures
            *final(self) == (Cpu {
                overflow: false,
                pc: wrap16(old(self).pc + 1) as u16,
                tick_count: (old(self).tick_count + 2) as u32,
                ..*old(self)
            }),
    {
        self.overflow = false;
        self.pc = word_plus(self.pc, 1);
        self.tick_count = self.tick_count + 2;
    }

    /// Set carry.
    pub fn sec(&mut self)
        requires
            old(self).tick_count + 2 <= u32::MAX,
        ensures
            *final(self) == (Cpu {
                carry: true,
                pc: wrap16(old(self).pc + 1) as u16,
                tick_count: (old(self).tick_count + 2) as u32,
                ..*old(self)
            }),
    {
        self.carry = true;
        self.tick_count = self.tick_count + 2;
        self.pc = word_plus(self.pc, 1);
    }

    /// Set decimal.
    pub fn sed(&mut self)
        requires
            old(self).tick_count + 2 <= u32::MAX,
        ensures
            *final(self) == (Cpu {
                decimal: true,
                pc: wrap16(old(self).pc + 1) as u16,
                tick_count: (old(self).tick_count + 2) as u32,
                ..*old(self)
            }),
    {
        self.decimal = true;
        self.tick_count = self.tick_count + 2;
        self.pc = word_plus(self.pc, 1);
    }

    /// Set interrupt-disable.
    pub fn sei(&mut self)
        requires
            old(self).tick_count + 2 <= u32::MAX,
        ensures
            *final(self) == (Cpu {
                interrupt: true,
                pc: wrap16(old(self).pc + 1) as u16,
                tick_count: (old(self).tick_count + 2) as u32,
                ..*old(self)
            }),
    {
        self.interrupt = true;
        self.tick_count = self.tick_count + 2;
        self.pc = word_plus(self.pc, 1);
    }

    /// Decrement X with 8-bit wraparound; zero and sign follow the result,
    /// carry is never touched.
    pub fn dex(&mut self)
        requires
            old(self).tick_count + 2 <= u32::MAX,
        ensures
            *final(self) == (Cpu {
                x: wrap8(old(self).x - 1) as u8,
                zero: wrap8(old(self).x - 1) == 0,
                sign: sign8(wrap8(old(self).x - 1) as u8),
                pc: wrap16(old(self).pc + 1) as u16,
                tick_count: (old(self).tick_count + 2) as u32,
                ..*old(self)
            }),
    {
        if self.x == 0 {
            self.x = 0xff;
        } else {
            self.x -= 1;
        }
        self.zero = self.x == 0;
        self.sign = self.x >= 0x80;
        self.pc = word_plus(self.pc, 1);
        self.tick_count = self.tick_count + 2;
    }

    /// Decrement Y with 8-bit wraparound.
    pub fn dey(&mut self)
        requires
            old(self).tick_count + 2 <= u32::MAX,
        ensures
            *final(self) == (Cpu {
                y: wrap8(old(self).y - 1) as u8,
                zero: wrap8(old(self).y - 1) == 0,
                sign: sign8(wrap8(old(self).y - 1) as u8),
                pc: wrap16(old(self).pc + 1) as u16,
                tick_count: (old(self).tick_count + 2) as u32,
                ..*old(self)
            }),
    {
        if self.y == 0 {
            self.y = 0xff;
        } else {
            self.y -= 1;
        }
        self.zero = self.y == 0;
        self.sign = self.y >= 0x80;
        self.pc = word_plus(self.pc, 1);
        self.tick_count = self.tick_count + 2;
    }

    /// Increment X with 8-bit wraparound.
    pub fn inx(&mut self)
        requires
            old(self).tick_count + 2 <= u32::MAX,
        ensures
            *final(self) == (Cpu {
                x: wrap8(old(self).x + 1) as u8,
                zero: wrap8(old(self).x + 1) == 0,
                sign: sign8(wrap8(old(self).x + 1) as u8),
                pc: wrap16(old(self).pc + 1) as u16,
                tick_count: (old(self).tick_count + 2) as u32,
                ..*old(self)
            }),
    {
        if self.x == 0xff {
            self.x = 0;
        } else {
            self.x += 1;
        }
        self.zero = self.x == 0;
        self.sign = self.x >= 0x80;
        self.pc = word_plus(self.pc, 1);
        self.tick_count = self.tick_count + 2;
    }

    /// Increment Y with 8-bit wraparound.
    pub fn iny(&mut self)
        requires
            old(self).tick_count + 2 <= u32::MAX,
        ensures
            *final(self) == (Cpu {
                y: wrap8(old(self).y + 1) as u8,
                zero: wrap8(old(self).y + 1) == 0,
                sign: sign8(wrap8(old(self).y + 1) as u8),
                pc: wrap16(old(self).pc + 1) as u16,
                tick_count: (old(self).tick_count + 2) as u32,
                ..*old(self)
            }),
    {
        if self.y == 0xff {
            self.y = 0;
        } else {
            self.y += 1;
        }
        self.zero = self.y == 0;
        self.sign = self.y >= 0x80;
        self.pc = word_plus(self.pc, 1);
        self.tick_count = self.tick_count + 2;
    }

    /// No operation beyond advancing the program counter and charging one
    /// cycle.
    pub fn nop(&mut self)
        requires
            old(self).tick_count + 1 <= u32::MAX,
        ensures
            *final(self) == (Cpu {
                pc: wrap16(old(self).pc + 1) as u16,
                tick_count: (old(self).tick_count + 1) as u32,
                ..*old(self)
            }),
    {
        self.pc = word_plus(self.pc, 1);
        self.tick_count = self.tick_count + 1;
    }

    /// Transfer accumulator to X.
    pub fn tax(&mut self)
        requires
            old(self).tick_count + 2 <= u32::MAX,
        ensures
            *final(self) == (Cpu {
                x: old(self).a,
                zero: old(self).a == 0,
                sign: sign8(old(self).a),
                pc: wrap16(old(self).pc + 1) as u16,
                tick_count: (old(self).tick_count + 2) as u32,
                ..*old(self)
            }),
    {
        self.x = self.a;
        self.zero = self.x == 0;
        self.sign = self.x >= 0x80;
        self.pc = word_plus(self.pc, 1);
        self.tick_count = self.tick_count + 2;
    }

    /// Transfer accumulator to Y.
    pub fn tay(&mut self)
        requires
            old(self).tick_count + 2 <= u32::MAX,
        ensures
            *final(self) == (Cpu {
                y: old(self).a,
                zero: old(self).a == 0,
                sign: sign8(old(self).a),
                pc: wrap16(old(self).pc + 1) as u16,
                tick_count: (old(self).tick_count + 2) as u32,
                ..*old(self)
            }),
    {
        self.y = self.a;
        self.zero = self.y == 0;
        self.sign = self.y >= 0x80;
        self.pc = word_plus(self.pc, 1);
        self.tick_count = self.tick_count + 2;
    }

    /// Transfer stack pointer to X.
    pub fn tsx(&mut self)
        requires
            old(self).tick_count + 2 <= u32::MAX,
        ensures
            *final(self) == (Cpu {
                x: old(self).sp,
                zero: old(self).sp == 0,
                sign: sign8(old(self).sp),
                pc: wrap16(old(self).pc + 1) as u16,
                tick_count: (old(self).tick_count + 2) as u32,
                ..*old(self)
            }),
    {
        self.x = self.sp;
        self.zero = self.x == 0;
        self.sign = self.x >= 0x80;
        self.pc = word_plus(self.pc, 1);
        self.tick_count = self.tick_count + 2;
    }

    /// Transfer X to accumulator.
    pub fn txa(&mut self)
        requires
            old(self).tick_count + 2 <= u32::MAX,
        ensures
            *final(self) == (Cpu {
                a: old(self).x,
                zero: old(self).x == 0,
                sign: sign8(old(self).x),
                pc: wrap16(old(self).pc + 1) as u16,
                tick_count: (old(self).tick_count + 2) as u32,
                ..*old(self)
            }),
    {
        self.a = self.x;
        self.zero = self.a == 0;
        self.sign = self.a >= 0x80;
        self.pc = word_plus(self.pc, 1);
        self.tick_count = self.tick_count + 2;
    }

    /// Transfer X to stack pointer; no flags are touched.
    pub fn txs(&mut self)
        requires
            old(self).tick_count + 2 <= u32::MAX,
        ensures
            *final(self) == (Cpu {
                sp: old(self).x,
                pc: wrap16(old(self).pc + 1) as u16,
                tick_count: (old(self).tick_count + 2) as u32,
                ..*old(self)
            }),
    {
        self.sp = self.x;
        self.pc = word_plus(self.pc, 1);
        self.tick_count = self.tick_count + 2;
    }

    /// Transfer Y to accumulator.
    pub fn tya(&mut self)
        requires
            old(self).tick_count + 2 <= u32::MAX,
        ensures
            *final(self) == (Cpu {
                a: old(self).y,
                zero: old(self).y == 0,
                sign: sign8(old(self).y),
                pc: wrap16(old(self).pc + 1) as u16,
                tick_count: (old(self).tick_count + 2) as u32,
                ..*old(self)
            }),
    {
        self.a = self.y;
        self.zero = self.a == 0;
        self.sign = self.a >= 0x80;
        self.pc = word_plus(self.pc, 1);
        self.tick_count = self.tick_count + 2;
    }
}

} // verus!
