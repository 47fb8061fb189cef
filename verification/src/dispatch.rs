//! Opcode dispatch and the execution loop: a total mapping from the opcode
//! space to the instruction handlers, the single-instruction step, and the
//! bounded loop that runs until a break condition holds or the scanline tick
//! budget is spent.

use vstd::prelude::*;

use crate::arith::wrap16;
use crate::arith::wrap8;
use crate::control::branch_post;
use crate::control::brk_post;
use crate::control::jmp_post;
use crate::control::jsr_post;
use crate::control::rti_post;
use crate::control::rts_post;
use crate::cpu::BreakCondition;
use crate::cpu::Cpu;
use crate::cpu::Diagnostic;
use crate::cpu::TICKS_PER_SCANLINE;
use crate::instr::adc_post;
use crate::instr::and_post;
use crate::instr::bit_post;
use crate::instr::cmp_post;
use crate::instr::cpx_post;
use crate::instr::cpy_post;
use crate::instr::eor_post;
use crate::instr::lda_post;
use crate::instr::ldx_post;
use crate::instr::ldy_post;
use crate::instr::ora_post;
use crate::instr::sbc_post;
use crate::instr::is_adc_op;
use crate::instr::is_and_op;
use crate::instr::is_bit_op;
use crate::instr::is_cmp_op;
use crate::instr::is_cpx_op;
use crate::instr::is_cpy_op;
use crate::instr::is_eor_op;
use crate::instr::is_lda_op;
use crate::instr::is_ldx_op;
use crate::instr::is_ldy_op;
use crate::instr::is_ora_op;
use crate::instr::is_sbc_op;
use crate::memory::Memory;
use crate::rmw::asl_post;
use crate::rmw::dec_post;
use crate::rmw::inc_post;
use crate::rmw::is_asl_op;
use crate::rmw::is_dec_op;
use crate::rmw::is_inc_op;
use crate::rmw::is_lsr_op;
use crate::rmw::is_rol_op;
use crate::rmw::is_ror_op;
use crate::rmw::lsr_post;
use crate::rmw::rol_post;
use crate::rmw::ror_post;
use crate::status::bit_set;
use crate::status::sign8;
use crate::status::status_bits;
use crate::store::is_sta_op;
use crate::store::is_stx_op;
use crate::store::is_sty_op;
use crate::store::sta_post;
use crate::store::stx_post;
use crate::store::sty_post;

verus! {

/// The processor state right after an opcode fetch.
pub open spec fn with_op(c: Cpu, op: u8) -> Cpu {
    Cpu { current_opcode: op, ..c }
}

/// Whether the opcode byte has a handler in this emulator's supported
/// subset.
pub open spec fn op_supported(op: u8) -> bool {
    is_ora_op(op) || is_and_op(op) || is_eor_op(op) || is_adc_op(op) || is_sbc_op(op) ||
        is_cmp_op(op) || is_cpx_op(op) || is_cpy_op(op) || is_lda_op(op) || is_ldx_op(op) ||
        is_ldy_op(op) || is_bit_op(op) || is_asl_op(op) || is_lsr_op(op) || is_rol_op(op) ||
        is_ror_op(op) || is_dec_op(op) || is_inc_op(op) || is_sta_op(op) || is_stx_op(op) ||
        is_sty_op(op) || op == 0x00 || op == 0x08 || op == 0x10 || op == 0x18 || op == 0x20
        || op == 0x28 || op == 0x30 || op == 0x32 || op == 0x33 || op == 0x34 || op == 0x38
        || op == 0x40 || op == 0x48 || op == 0x4c || op == 0x50 || op == 0x58 || op == 0x60
        || op == 0x68 || op == 0x6c || op == 0x70 || op == 0x78 || op == 0x88 || op == 0x8a
        || op == 0x90 || op == 0x98 || op == 0x9a || op == 0xa8 || op == 0xaa || op == 0xb0
        || op == 0xb8 || op == 0xba || op == 0xc8 || op == 0xca || op == 0xd0 || op == 0xd8
        || op == 0xe8 || op == 0xf0 || op == 0xf8
}

pub open spec fn pha_step(pre: Cpu, post: Cpu, m0: Seq<u8>, m1: Seq<u8>) -> bool {
    &&& m1 == m0.update(0x100 + pre.sp, pre.a)
    &&& post == (Cpu {
        sp: wrap8(pre.sp - 1) as u8,
        pc: wrap16(pre.pc + 1) as u16,
        tick_count: (pre.tick_count + 3) as u32,
        ..pre
    })
}

pub open spec fn php_step(pre: Cpu, post: Cpu, m0: Seq<u8>, m1: Seq<u8>) -> bool {
    &&& m1 == m0.update(
        0x100 + pre.sp,
        status_bits(
            pre.sign,
            pre.overflow,
            pre.brk,
            pre.decimal,
            pre.interrupt,
            pre.zero,
            pre.carry,
        ),
    )
    &&& post == (Cpu {
        sp: wrap8(pre.sp - 1) as u8,
        pc: wrap16(pre.pc + 1) as u16,
        tick_count: (pre.tick_count + 3) as u32,
        ..pre
    })
}

pub open spec fn pla_step(pre: Cpu, post: Cpu, m: Seq<u8>) -> bool {
    post == (Cpu {
        a: m[0x100 + wrap8(pre.sp + 1)],
        zero: m[0x100 + wrap8(pre.sp + 1)] == 0,
        sign: sign8(m[0x100 + wrap8(pre.sp + 1)]),
        sp: wrap8(pre.sp + 1) as u8,
        pc: wrap16(pre.pc + 1) as u16,
        tick_count: (pre.tick_count + 4) as u32,
        ..pre
    })
}

pub open spec fn plp_step(pre: Cpu, post: Cpu, m: Seq<u8>) -> bool {
    post == (Cpu {
        sp: wrap8(pre.sp + 1) as u8,
        sign: bit_set(m[0x100 + wrap8(pre.sp + 1)], 0x80),
        overflow: bit_set(m[0x100 + wrap8(pre.sp + 1)], 0x40),
        brk: bit_set(m[0x100 + wrap8(pre.sp + 1)], 0x10),
        decimal: bit_set(m[0x100 + wrap8(pre.sp + 1)], 0x08),
        interrupt: bit_set(m[0x100 + wrap8(pre.sp + 1)], 0x04),
        zero: bit_set(m[0x100 + wrap8(pre.sp + 1)], 0x02),
        carry: bit_set(m[0x100 + wrap8(pre.sp + 1)], 0x01),
        pc: wrap16(pre.pc + 1) as u16,
        tick_count: (pre.tick_count + 4) as u32,
        ..pre
    })
}

pub open spec fn clc_step(pre: Cpu, post: Cpu) -> bool {
    post == (Cpu {
        carry: false,
        pc: wrap16(pre.pc + 1) as u16,
        tick_count: (pre.tick_count + 2) as u32,
        ..pre
    })
}

pub open spec fn cld_step(pre: Cpu, post: Cpu) -> bool {
    post == (Cpu {
        decimal: false,
        pc: wrap16(pre.pc + 1) as u16,
        tick_count: (pre.tick_count + 2) as u32,
        ..pre
    })
}

pub open spec fn cli_step(pre: Cpu, post: Cpu) -> bool {
    post == (Cpu {
        interrupt: false,
        pc: wrap16(pre.pc + 1) as u16,
        tick_count: (pre.tick_count + 2) as u32,
        ..pre
    })
}

pub open spec fn clv_step(pre: Cpu, post: Cpu) -> bool {
    post == (Cpu {
        overflow: false,
        pc: wrap16(pre.pc + 1) as u16,
        tick_count: (pre.tick_count + 2) as u32,
        ..pre
    })
}

pub open spec fn sec_step(pre: Cpu, post: Cpu) -> bool {
    post == (Cpu {
        carry: true,
        pc: wrap16(pre.pc + 1) as u16,
        tick_count: (pre.tick_count + 2) as u32,
        ..pre
    })
}

pub open spec fn sed_step(pre: Cpu, post: Cpu) -> bool {
    post == (Cpu {
        decimal: true,
        pc: wrap16(pre.pc + 1) as u16,
        tick_count: (pre.tick_count + 2) as u32,
        ..pre
    })
}

pub open spec fn sei_step(pre: Cpu, post: Cpu) -> bool {
    post == (Cpu {
        interrupt: true,
        pc: wrap16(pre.pc + 1) as u16,
        tick_count: (pre.tick_count + 2) as u32,
        ..pre
    })
}

pub open spec fn dex_step(pre: Cpu, post: Cpu) -> bool {
    post == (Cpu {
        x: wrap8(pre.x - 1) as u8,
        zero: wrap8(pre.x - 1) == 0,
        sign: sign8(wrap8(pre.x - 1) as u8),
        pc: wrap16(pre.pc + 1) as u16,
        tick_count: (pre.tick_count + 2) as u32,
        ..pre
    })
}

pub open spec fn dey_step(pre: Cpu, post: Cpu) -> bool {
    post == (Cpu {
        y: wrap8(pre.y - 1) as u8,
        zero: wrap8(pre.y - 1) == 0,
        sign: sign8(wrap8(pre.y - 1) as u8),
        pc: wrap16(pre.pc + 1) as u16,
        tick_count: (pre.tick_count + 2) as u32,
        ..pre
    })
}

pub open spec fn inx_step(pre: Cpu, post: Cpu) -> bool {
    post == (Cpu {
        x: wrap8(pre.x + 1) as u8,
        zero: wrap8(pre.x + 1) == 0,
        sign: sign8(wrap8(pre.x + 1) as u8),
        pc: wrap16(pre.pc + 1) as u16,
        tick_count: (pre.tick_count + 2) as u32,
        ..pre
    })
}

pub open spec fn iny_step(pre: Cpu, post: Cpu) -> bool {
    post == (Cpu {
        y: wrap8(pre.y + 1) as u8,
        zero: wrap8(pre.y + 1) == 0,
        sign: sign8(wrap8(pre.y + 1) as u8),
        pc: wrap16(pre.pc + 1) as u16,
        tick_count: (pre.tick_count + 2) as u32,
        ..pre
    })
}

pub open spec fn tax_step(pre: Cpu, post: Cpu) -> bool {
    post == (Cpu {
        x: pre.a,
        zero: pre.a == 0,
        sign: sign8(pre.a),
        pc: wrap16(pre.pc + 1) as u16,
        tick_count: (pre.tick_count + 2) as u32,
        ..pre
    })
}

pub open spec fn tay_step(pre: Cpu, post: Cpu) -> bool {
    post == (Cpu {
        y: pre.a,
        zero: pre.a == 0,
        sign: sign8(pre.a),
        pc: wrap16(pre.pc + 1) as u16,
        tick_count: (pre.tick_count + 2) as u32,
        ..pre
    })
}

pub open spec fn tsx_step(pre: Cpu, post: Cpu) -> bool {
    post == (Cpu {
        x: pre.sp,
        zero: pre.sp == 0,
        sign: sign8(pre.sp),
        pc: wrap16(pre.pc + 1) as u16,
        tick_count: (pre.tick_count + 2) as u32,
        ..pre
    })
}

pub open spec fn txa_step(pre: Cpu, post: Cpu) -> bool {
    post == (Cpu {
        a: pre.x,
        zero: pre.x == 0,
        sign: sign8(pre.x),
        pc: wrap16(pre.pc + 1) as u16,
        tick_count: (pre.tick_count + 2) as u32,
        ..pre
    })
}

pub open spec fn txs_step(pre: Cpu, post: Cpu) -> bool {
    post == (Cpu {
        sp: pre.x,
        pc: wrap16(pre.pc + 1) as u16,
        tick_count: (pre.tick_count + 2) as u32,
        ..pre
    })
}

pub open spec fn tya_step(pre: Cpu, post: Cpu) -> bool {
    post == (Cpu {
        a: pre.y,
        zero: pre.y == 0,
        sign: sign8(pre.y),
        pc: wrap16(pre.pc + 1) as u16,
        tick_count: (pre.tick_count + 2) as u32,
        ..pre
    })
}

pub open spec fn nop_step(pre: Cpu, post: Cpu) -> bool {
    post == (Cpu {
        pc: wrap16(pre.pc + 1) as u16,
        tick_count: (pre.tick_count + 1) as u32,
        ..pre
    })
}

/// What one instruction step does: `pre` is the state with the opcode
/// already fetched, `post` the state after it executed, `m0` and `m1` the
/// memory before and after. An unsupported opcode changes nothing and is
/// reported; a supported one acts as its mnemonic's relation says.
pub open spec fn step_post(
    pre: Cpu,
    post: Cpu,
    m0: Seq<u8>,
    m1: Seq<u8>,
    r: Result<(), Diagnostic>,
) -> bool {
    let op = pre.current_opcode;
    if !op_supported(op) {
        &&& post == pre
        &&& m1 == m0
        &&& r == Err::<(), Diagnostic>(Diagnostic::UnsupportedOpcode(op))
    } else {
        &&& (is_ora_op(op) ==> ora_post(pre, post, m0, r) && m1 == m0)
        &&& (is_and_op(op) ==> and_post(pre, post, m0, r) && m1 == m0)
        &&& (is_eor_op(op) ==> eor_post(pre, post, m0, r) && m1 == m0)
        &&& (is_adc_op(op) ==> adc_post(pre, post, m0, r) && m1 == m0)
        &&& (is_sbc_op(op) ==> sbc_post(pre, post, m0, r) && m1 == m0)
        &&& (is_cmp_op(op) ==> cmp_post(pre, post, m0, r) && m1 == m0)
        &&& (is_cpx_op(op) ==> cpx_post(pre, post, m0, r) && m1 == m0)
        &&& (is_cpy_op(op) ==> cpy_post(pre, post, m0, r) && m1 == m0)
        &&& (is_lda_op(op) ==> lda_post(pre, post, m0, r) && m1 == m0)
        &&& (is_ldx_op(op) ==> ldx_post(pre, post, m0, r) && m1 == m0)
        &&& (is_ldy_op(op) ==> ldy_post(pre, post, m0, r) && m1 == m0)
        &&& (is_bit_op(op) ==> bit_post(pre, post, m0, r) && m1 == m0)
        &&& (is_asl_op(op) ==> asl_post(pre, post, m0, m1, r))
        &&& (is_lsr_op(op) ==> lsr_post(pre, post, m0, m1, r))
        &&& (is_rol_op(op) ==> rol_post(pre, post, m0, m1, r))
        &&& (is_ror_op(op) ==> ror_post(pre, post, m0, m1, r))
        &&& (is_dec_op(op) ==> dec_post(pre, post, m0, m1, r))
        &&& (is_inc_op(op) ==> inc_post(pre, post, m0, m1, r))
        &&& (is_sta_op(op) ==> sta_post(pre, post, m0, m1, r))
        &&& (is_stx_op(op) ==> stx_post(pre, post, m0, m1, r))
        &&& (is_sty_op(op) ==> sty_post(pre, post, m0, m1, r))
        &&& (op == 0x4c || op == 0x6c ==> jmp_post(pre, post, m0, r) && m1 == m0)
        &&& (op == 0x00 ==> brk_post(pre, post, m0, m1) && r == Ok::<(), Diagnostic>(()))
        &&& (op == 0x20 ==> jsr_post(pre, post, m0, m1) && r == Ok::<(), Diagnostic>(()))
        &&& (op == 0x60 ==> rts_post(pre, post, m0) && m1 == m0 && r == Ok::<(), Diagnostic>(()))
        &&& (op == 0x40 ==> rti_post(pre, post, m0) && m1 == m0 && r == Ok::<(), Diagnostic>(()))
        &&& (op == 0x48 ==> pha_step(pre, post, m0, m1) && r == Ok::<(), Diagnostic>(()))
        &&& (op == 0x08 ==> php_step(pre, post, m0, m1) && r == Ok::<(), Diagnostic>(()))
        &&& (op == 0x68 ==> pla_step(pre, post, m0) && m1 == m0 && r == Ok::<(), Diagnostic>(()))
        &&& (op == 0x28 ==> plp_step(pre, post, m0) && m1 == m0 && r == Ok::<(), Diagnostic>(()))
        &&& (op == 0x10 ==> branch_post(pre, post, m0, !pre.sign) && m1 == m0 && r == Ok::<(), Diagnostic>(()))
        &&& (op == 0x30 ==> branch_post(pre, post, m0, pre.sign) && m1 == m0 && r == Ok::<(), Diagnostic>(()))
        &&& (op == 0x50 ==> branch_post(pre, post, m0, !pre.overflow) && m1 == m0 && r == Ok::<(), Diagnostic>(()))
        &&& (op == 0x70 ==> branch_post(pre, post, m0, pre.overflow) && m1 == m0 && r == Ok::<(), Diagnostic>(()))
        &&& (op == 0x90 ==> branch_post(pre, post, m0, !pre.carry) && m1 == m0 && r == Ok::<(), Diagnostic>(()))
        &&& (op == 0xb0 ==> branch_post(pre, post, m0, pre.carry) && m1 == m0 && r == Ok::<(), Diagnostic>(()))
        &&& (op == 0xd0 ==> branch_post(pre, post, m0, !pre.zero) && m1 == m0 && r == Ok::<(), Diagnostic>(()))
        &&& (op == 0xf0 ==> branch_post(pre, post, m0, pre.zero) && m1 == m0 && r == Ok::<(), Diagnostic>(()))
        &&& (op == 0x18 ==> clc_step(pre, post) && m1 == m0 && r == Ok::<(), Diagnostic>(()))
        &&& (op == 0x38 ==> sec_step(pre, post) && m1 == m0 && r == Ok::<(), Diagnostic>(()))
        &&& (op == 0x58 ==> cli_step(pre, post) && m1 == m0 && r == Ok::<(), Diagnostic>(()))
        &&& (op == 0x78 ==> sei_step(pre, post) && m1 == m0 && r == Ok::<(), Diagnostic>(()))
        &&& (op == 0xb8 ==> clv_step(pre, post) && m1 == m0 && r == Ok::<(), Diagnostic>(()))
        &&& (op == 0xd8 ==> cld_step(pre, post) && m1 == m0 && r == Ok::<(), Diagnostic>(()))
        &&& (op == 0xf8 ==> sed_step(pre, post) && m1 == m0 && r == Ok::<(), Diagnostic>(()))
        &&& (op == 0x88 ==> dey_step(pre, post) && m1 == m0 && r == Ok::<(), Diagnostic>(()))
        &&& (op == 0x8a ==> txa_step(pre, post) && m1 == m0 && r == Ok::<(), Diagnostic>(()))
        &&& (op == 0x98 ==> tya_step(pre, post) && m1 == m0 && r == Ok::<(), Diagnostic>(()))
        &&& (op == 0x9a ==> txs_step(pre, post) && m1 == m0 && r == Ok::<(), Diagnostic>(()))
        &&& (op == 0xa8 ==> tay_step(pre, post) && m1 == m0 && r == Ok::<(), Diagnostic>(()))
        &&& (op == 0xaa ==> tax_step(pre, post) && m1 == m0 && r == Ok::<(), Diagnostic>(()))
        &&& (op == 0xba ==> tsx_step(pre, post) && m1 == m0 && r == Ok::<(), Diagnostic>(()))
        &&& (op == 0xc8 ==> iny_step(pre, post) && m1 == m0 && r == Ok::<(), Diagnostic>(()))
        &&& (op == 0xca ==> dex_step(pre, post) && m1 == m0 && r == Ok::<(), Diagnostic>(()))
        &&& (op == 0xe8 ==> inx_step(pre, post) && m1 == m0 && r == Ok::<(), Diagnostic>(()))
        &&& (op == 0x32 || op == 0x33 || op == 0x34 ==> nop_step(pre, post) && m1 == m0 && r == Ok::<(), Diagnostic>(()))
    }
}


/// Whether a break condition is satisfied by the state `c`, measured
/// against the tick count the loop started with: the program counter
/// equals the target, the tick counter moved at all, the scanline budget
/// is reached — or never, in frame mode.
pub open spec fn break_satisfied(cond: BreakCondition, c: Cpu, start_tick: u32) -> bool {
    match cond {
        BreakCondition::RunToPc(pc) => c.pc == pc,
        BreakCondition::RunNext => c.tick_count != start_tick,
        BreakCondition::RunToScanline => c.tick_count >= TICKS_PER_SCANLINE,
        BreakCondition::RunFrame => false,
    }
}

/// `n` completed iterations of the execution loop lead from `(c0, m0)` to
/// `(c1, m1)`: each began under the scanline tick budget, fetched and
/// executed one instruction exactly as `step_post` says, succeeded, and
/// left the break condition unsatisfied.
pub open spec fn steps_to(
    c0: Cpu,
    m0: Seq<u8>,
    c1: Cpu,
    m1: Seq<u8>,
    n: nat,
    cond: BreakCondition,
    start_tick: u32,
) -> bool
    decreases n,
{
    if n == 0 {
        c1 == c0 && m1 == m0
    } else {
        exists|c2: Cpu, m2: Seq<u8>|
            {
                &&& steps_to(c0, m0, c2, m2, (n - 1) as nat, cond, start_tick)
                &&& c2.tick_count < TICKS_PER_SCANLINE
                &&& step_post(with_op(c2, m2[c2.pc as int]), c1, m2, m1, Ok::<(), Diagnostic>(()))
                &&& !break_satisfied(cond, c1, start_tick)
            }
    }
}

/// A supported instruction always charges at least one cycle, and at most 8;
/// an unsupported opcode charges none and changes nothing.
#[verifier::rlimit(100)]
pub proof fn lemma_step_tick(
    pre: Cpu,
    post: Cpu,
    m0: Seq<u8>,
    m1: Seq<u8>,
    r: Result<(), Diagnostic>,
)
    requires
        step_post(pre, post, m0, m1, r),
        pre.tick_count + 8 <= u32::MAX,
    ensures
        r is Ok ==> pre.tick_count < post.tick_count <= pre.tick_count + 8,
        r is Err ==> post == pre,
{
}

/// The step reports an error only for an opcode outside the supported set,
/// and then leaves processor and memory untouched.
#[verifier::rlimit(100)]
pub proof fn lemma_step_err(
    pre: Cpu,
    post: Cpu,
    m0: Seq<u8>,
    m1: Seq<u8>,
    r: Result<(), Diagnostic>,
)
    requires
        step_post(pre, post, m0, m1, r),
        r is Err,
    ensures
        !op_supported(pre.current_opcode),
        r == Err::<(), Diagnostic>(Diagnostic::UnsupportedOpcode(pre.current_opcode)),
        post == pre,
        m1 == m0,
{
}

impl Cpu {
    #[verifier::rlimit(100)]
    fn run_op_00(&mut self, mem: &mut Memory) -> (r: Result<(), Diagnostic>)
        requires
            old(self).tick_count + 8 <= u32::MAX,
            old(self).current_opcode < 0x40,
        ensures
            step_post(*old(self), *final(self), old(mem)@, final(mem)@, r),
    {
        match self.current_opcode {
            0x00 => {
                self.brk(mem);
                Ok(())
            },
            0x01 => self.ora(mem),
            0x05 => self.ora(mem),
            0x06 => self.asl(mem),
            0x08 => {
                self.php(mem);
                Ok(())
            },
            0x09 => self.ora(mem),
            0x0a => self.asl(mem),
            0x0d => self.ora(mem),
            0x0e => self.asl(mem),
            0x10 => {
                self.bpl(mem);
                Ok(())
            },
            0x11 => self.ora(mem),
            0x15 => self.ora(mem),
            0x16 => self.asl(mem),
            0x18 => {
                self.clc();
                Ok(())
            },
            0x19 => self.ora(mem),
            0x1d => self.ora(mem),
            0x1e => self.asl(mem),
            0x20 => {
                self.jsr(mem);
                Ok(())
            },
            0x21 => self.and(mem),
            0x24 => self.bit(mem),
            0x25 => self.and(mem),
            0x26 => self.rol(mem),
            0x28 => {
                self.plp(mem);
                Ok(())
            },
            0x29 => self.and(mem),
            0x2a => self.rol(mem),
            0x2c => self.bit(mem),
            0x2d => self.and(mem),
            0x2e => self.rol(mem),
            0x30 => {
                self.bmi(mem);
                Ok(())
            },
            0x31 => self.and(mem),
            0x32 => {
                self.nop();
                Ok(())
            },
            0x33 => {
                self.nop();
                Ok(())
            },
            0x34 => {
                self.nop();
                Ok(())
            },
            0x35 => self.and(mem),
            0x36 => self.rol(mem),
            0x38 => {
                self.sec();
                Ok(())
            },
            0x39 => self.and(mem),
            0x3d => self.and(mem),
            0x3e => self.rol(mem),
            _ => Err(Diagnostic::UnsupportedOpcode(self.current_opcode)),
        }
    }

    #[verifier::rlimit(100)]
    fn run_op_40(&mut self, mem: &mut Memory) -> (r: Result<(), Diagnostic>)
        requires
            old(self).tick_count + 8 <= u32::MAX,
            0x40 <= old(self).current_opcode < 0x80,
        ensures
            step_post(*old(self), *final(self), old(mem)@, final(mem)@, r),
    {
        match self.current_opcode {
            0x40 => {
                self.rti(mem);
                Ok(())
            },
            0x41 => self.eor(mem),
            0x45 => self.eor(mem),
            0x46 => self.lsr(mem),
            0x48 => {
                self.pha(mem);
                Ok(())
            },
            0x49 => self.eor(mem),
            0x4a => self.lsr(mem),
            0x4c => self.jmp(mem),
            0x4d => self.eor(mem),
            0x4e => self.lsr(mem),
            0x50 => {
                self.bvc(mem);
                Ok(())
            },
            0x51 => self.eor(mem),
            0x55 => self.eor(mem),
            0x56 => self.lsr(mem),
            0x58 => {
                self.cli();
                Ok(())
            },
            0x59 => self.eor(mem),
            0x5d => self.eor(mem),
            0x5e => self.lsr(mem),
            0x60 => {
                self.rts(mem);
                Ok(())
            },
            0x61 => self.adc(mem),
            0x65 => self.adc(mem),
            0x66 => self.ror(mem),
            0x68 => {
                self.pla(mem);
                Ok(())
            },
            0x69 => self.adc(mem),
            0x6a => self.ror(mem),
            0x6c => self.jmp(mem),
            0x6d => self.adc(mem),
            0x6e => self.ror(mem),
            0x70 => {
                self.bvs(mem);
                Ok(())
            },
            0x71 => self.adc(mem),
            0x75 => self.adc(mem),
            0x76 => self.ror(mem),
            0x78 => {
                self.sei();
                Ok(())
            },
            0x79 => self.adc(mem),
            0x7d => self.adc(mem),
            0x7e => self.ror(mem),
            _ => Err(Diagnostic::UnsupportedOpcode(self.current_opcode)),
        }
    }

    #[verifier::rlimit(100)]
    fn run_op_80(&mut self, mem: &mut Memory) -> (r: Result<(), Diagnostic>)
        requires
            old(self).tick_count + 8 <= u32::MAX,
            0x80 <= old(self).current_opcode < 0xc0,
        ensures
            step_post(*old(self), *final(self), old(mem)@, final(mem)@, r),
    {
        match self.current_opcode {
            0x81 => self.sta(mem),
            0x84 => self.sty(mem),
            0x85 => self.sta(mem),
            0x86 => self.stx(mem),
            0x88 => {
                self.dey();
                Ok(())
            },
            0x8a => {
                self.txa();
                Ok(())
            },
            0x8c => self.sty(mem),
            0x8d => self.sta(mem),
            0x8e => self.stx(mem),
            0x90 => {
                self.bcc(mem);
                Ok(())
            },
            0x91 => self.sta(mem),
            0x94 => self.sty(mem),
            0x95 => self.sta(mem),
            0x96 => self.stx(mem),
            0x98 => {
                self.tya();
                Ok(())
            },
            0x99 => self.sta(mem),
            0x9a => {
                self.txs();
                Ok(())
            },
            0x9d => self.sta(mem),
            0xa0 => self.ldy(mem),
            0xa1 => self.lda(mem),
            0xa2 => self.ldx(mem),
            0xa4 => self.ldy(mem),
            0xa5 => self.lda(mem),
            0xa6 => self.ldx(mem),
            0xa8 => {
                self.tay();
                Ok(())
            },
            0xa9 => self.lda(mem),
            0xaa => {
                self.tax();
                Ok(())
            },
            0xac => self.ldy(mem),
            0xad => self.lda(mem),
            0xae => self.ldx(mem),
            0xb0 => {
                self.bcs(mem);
                Ok(())
            },
            0xb1 => self.lda(mem),
            0xb4 => self.ldy(mem),
            0xb5 => self.lda(mem),
            0xb6 => self.ldx(mem),
            0xb8 => {
                self.clv();
                Ok(())
            },
            0xb9 => self.lda(mem),
            0xba => {
                self.tsx();
                Ok(())
            },
            0xbc => self.ldy(mem),
            0xbd => self.lda(mem),
            0xbe => self.ldx(mem),
            _ => Err(Diagnostic::UnsupportedOpcode(self.current_opcode)),
        }
    }

    #[verifier::rlimit(100)]
    fn run_op_c0(&mut self, mem: &mut Memory) -> (r: Result<(), Diagnostic>)
        requires
            old(self).tick_count + 8 <= u32::MAX,
            0xc0 <= old(self).current_opcode,
        ensures
            step_post(*old(self), *final(self), old(mem)@, final(mem)@, r),
    {
        match self.current_opcode {
            0xc0 => self.cpy(mem),
            0xc1 => self.cmp(mem),
            0xc4 => self.cpy(mem),
            0xc5 => self.cmp(mem),
            0xc6 => self.dec(mem),
            0xc8 => {
                self.iny();
                Ok(())
            },
            0xc9 => self.cmp(mem),
            0xca => {
                self.dex();
                Ok(())
            },
            0xcc => self.cpy(mem),
            0xcd => self.cmp(mem),
            0xce => self.dec(mem),
            0xd0 => {
                self.bne(mem);
                Ok(())
            },
            0xd1 => self.cmp(mem),
            0xd5 => self.cmp(mem),
            0xd6 => self.dec(mem),
            0xd8 => {
                self.cld();
                Ok(())
            },
            0xd9 => self.cmp(mem),
            0xdd => self.cmp(mem),
            0xde => self.dec(mem),
            0xe0 => self.cpx(mem),
            0xe1 => self.sbc(mem),
            0xe4 => self.cpx(mem),
            0xe5 => self.sbc(mem),
            0xe6 => self.inc(mem),
            0xe8 => {
                self.inx();
                Ok(())
            },
            0xe9 => self.sbc(mem),
            0xec => self.cpx(mem),
            0xed => self.sbc(mem),
            0xee => self.inc(mem),
            0xf0 => {
                self.beq(mem);
                Ok(())
            },
            0xf1 => self.sbc(mem),
            0xf5 => self.sbc(mem),
            0xf6 => self.inc(mem),
            0xf8 => {
                self.sed();
                Ok(())
            },
            0xf9 => self.sbc(mem),
            0xfd => self.sbc(mem),
            0xfe => self.inc(mem),
            _ => Err(Diagnostic::UnsupportedOpcode(self.current_opcode)),
        }
    }

    /// Fetches the opcode at the program counter and executes exactly one
    /// instruction. An unsupported opcode advances neither the program
    /// counter nor the tick counter and is reported; the caller must treat
    /// it as fatal, since re-running would fetch the same byte again.
    #[verifier::rlimit(100)]
    pub fn fetch_and_execute(&mut self, mem: &mut Memory) -> (r: Result<(), Diagnostic>)
        requires
            old(self).tick_count + 8 <= u32::MAX,
        ensures
            final(self).current_opcode == old(mem)@[old(self).pc as int],
            step_post(
                with_op(*old(self), old(mem)@[old(self).pc as int]),
                *final(self),
                old(mem)@,
                final(mem)@,
                r,
            ),
    {
        self.current_opcode = mem.read_byte(self.pc);
        if self.current_opcode < 0x40 {
            self.run_op_00(mem)
        } else if self.current_opcode < 0x80 {
            self.run_op_40(mem)
        } else if self.current_opcode < 0xc0 {
            self.run_op_80(mem)
        } else {
            self.run_op_c0(mem)
        }
    }
    /// The execution loop: runs one instruction at a time until the break
    /// condition is satisfied (`Ok(true)`), the scanline tick budget is
    /// spent (`Ok(false)`), or an unsupported opcode is fetched (`Err`,
    /// with processor and memory left exactly as they were before that
    /// fetch). Every outcome is tied to actual execution: a chain of
    /// `steps_to` iterations, none of which satisfied the condition,
    /// followed — for `Ok(true)` — by one more step that did, or — for
    /// `Err` — by the failing fetch of the opcode the program counter
    /// points at in memory.
    #[verifier::rlimit(100)]
    pub fn run_until_condition(&mut self, mem: &mut Memory, break_cond: &BreakCondition) -> (r:
        Result<bool, Diagnostic>)
        ensures
            old(self).tick_count <= final(self).tick_count,
            (r == Ok::<bool, Diagnostic>(true) ==> match *break_cond {
                BreakCondition::RunToPc(pc) => final(self).pc == pc,
                BreakCondition::RunNext => final(self).tick_count > old(self).tick_count,
                BreakCondition::RunToScanline => final(self).tick_count >= TICKS_PER_SCANLINE,
                BreakCondition::RunFrame => false,
            }),
            (r == Ok::<bool, Diagnostic>(true) ==> exists|n: nat, c2: Cpu, m2: Seq<u8>|
                steps_to(*old(self), old(mem)@, c2, m2, n, *break_cond, old(self).tick_count)
                    && c2.tick_count < TICKS_PER_SCANLINE && step_post(
                    with_op(c2, m2[c2.pc as int]),
                    *final(self),
                    m2,
                    final(mem)@,
                    Ok::<(), Diagnostic>(()),
                ) && break_satisfied(*break_cond, *final(self), old(self).tick_count)),
            (r == Ok::<bool, Diagnostic>(false) ==> final(self).tick_count >= TICKS_PER_SCANLINE
                && exists|n: nat|
                steps_to(
                    *old(self),
                    old(mem)@,
                    *final(self),
                    final(mem)@,
                    n,
                    *break_cond,
                    old(self).tick_count,
                )),
            (r matches Err(d) ==> d == Diagnostic::UnsupportedOpcode(final(self).current_opcode)
                && !op_supported(final(self).current_opcode) && final(self).current_opcode
                == final(mem)@[final(self).pc as int]),
            (r matches Err(d) ==> exists|n: nat, c2: Cpu, m2: Seq<u8>|
                steps_to(*old(self), old(mem)@, c2, m2, n, *break_cond, old(self).tick_count)
                    && c2.tick_count < TICKS_PER_SCANLINE && step_post(
                    with_op(c2, m2[c2.pc as int]),
                    *final(self),
                    m2,
                    final(mem)@,
                    Err::<(), Diagnostic>(d),
                )),
            (break_cond matches BreakCondition::RunNext && old(self).tick_count
                < TICKS_PER_SCANLINE && op_supported(old(mem)@[old(self).pc as int]) ==> r
                == Ok::<bool, Diagnostic>(true)),
            (break_cond matches BreakCondition::RunNext && r == Ok::<bool, Diagnostic>(true)
                ==> step_post(
                with_op(*old(self), old(mem)@[old(self).pc as int]),
                *final(self),
                old(mem)@,
                final(mem)@,
                Ok::<(), Diagnostic>(()),
            )),
    {
        let starting_tick_count = self.tick_count;
        let ghost mut n: nat = 0;
        while self.tick_count < TICKS_PER_SCANLINE
            invariant
                starting_tick_count == old(self).tick_count,
                starting_tick_count <= self.tick_count,
                steps_to(
                    *old(self),
                    old(mem)@,
                    *self,
                    mem@,
                    n,
                    *break_cond,
                    starting_tick_count,
                ),
                n == 0 ==> *self == *old(self) && mem@ == old(mem)@,
                n > 0 ==> self.tick_count > starting_tick_count,
                n > 0 ==> !break_satisfied(*break_cond, *self, starting_tick_count),
            decreases (if self.tick_count < TICKS_PER_SCANLINE {
                TICKS_PER_SCANLINE - self.tick_count
            } else {
                0int
            }),
        {
            let ghost pre_cpu = *self;
            let ghost m0 = mem@;
            let step = self.fetch_and_execute(mem);
            proof {
                lemma_step_tick(
                    with_op(pre_cpu, m0[pre_cpu.pc as int]),
                    *self,
                    m0,
                    mem@,
                    step,
                );
                if step is Err {
                    lemma_step_err(
                        with_op(pre_cpu, m0[pre_cpu.pc as int]),
                        *self,
                        m0,
                        mem@,
                        step,
                    );
                }
            }
            match step {
                Ok(()) => {},
                Err(d) => {
                    return Err(d);
                },
            }
            match break_cond {
                BreakCondition::RunToPc(pc) => {
                    if self.pc == *pc {
                        return Ok(true);
                    }
                },
                BreakCondition::RunNext => {
                    if self.tick_count != starting_tick_count {
                        return Ok(true);
                    }
                },
                BreakCondition::RunToScanline => {
                    if self.tick_count >= TICKS_PER_SCANLINE {
                        return Ok(true);
                    }
                },
                BreakCondition::RunFrame => {},
            }
            proof {
                assert(!break_satisfied(*break_cond, *self, starting_tick_count));
                n = n + 1;
                assert(steps_to(
                    *old(self),
                    old(mem)@,
                    *self,
                    mem@,
                    n,
                    *break_cond,
                    starting_tick_count,
                ));
            }
        }
        Ok(false)
    }
}

} // verus!
