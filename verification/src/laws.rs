//! Laws of the stack unit, the branch timing and the page-cross penalty,
//! stated over the same spec functions the operations' contracts use.

use vstd::prelude::*;

use crate::addr::arg1;
use crate::addr::arg2;
use crate::arith::hi8;
use crate::arith::lo8;
use crate::arith::make_address;
use crate::arith::page_of;
use crate::arith::signed8;
use crate::arith::spec_make_address;
use crate::arith::wrap16;
use crate::arith::wrap8;
use crate::control::branch_post;
use crate::cpu::Cpu;
use crate::cpu::Diagnostic;
use crate::instr::lda_post;
use crate::rmw::dec_post;
use crate::rmw::inc_post;
use crate::status::bit_set;
use crate::status::status_bits;

verus! {

/// Pushing a word and immediately pulling one, with no stack operation in
/// between, returns the pushed value and restores the stack pointer. The
/// expressions are exactly those of `push_u16`'s and `pull_u16`'s
/// contracts: `pushed` and `sp_after_push` are the memory and stack pointer
/// `push_u16` leaves, and the first conclusion is the word `pull_u16`
/// then returns.
pub proof fn lemma_stack_word_round_trip(m: Seq<u8>, sp: u8, w: u16)
    requires
        m.len() == 0x10000,
    ensures
        ({
            let pushed = m.update(0x100 + sp, hi8(w)).update(0x100 + wrap8(sp - 1), lo8(w));
            let sp_after_push = wrap8(sp - 2);
            &&& make_address(
                pushed[0x100 + wrap8(sp_after_push + 1)],
                pushed[0x100 + wrap8(sp_after_push + 2)],
            ) == w
            &&& wrap8(sp_after_push + 2) == sp
        }),
{
    let pushed = m.update(0x100 + sp, hi8(w)).update(0x100 + wrap8(sp - 1), lo8(w));
    let sp_after_push = wrap8(sp - 2);
    assert(wrap8(sp_after_push + 1) == wrap8(sp - 1));
    assert(wrap8(sp_after_push + 2) == sp);
    assert(pushed[0x100 + wrap8(sp - 1)] == lo8(w));
    assert(0x100 + wrap8(sp - 1) != 0x100 + sp);
    assert(pushed[0x100 + sp] == hi8(w));
    assert(make_address(lo8(w), hi8(w)) == w);
}

/// The stack pointer wraps: a push from `0x00` leaves it at `0xFF`, a pull
/// from `0xFF` leaves it at `0x00`. These are the stack-pointer updates of
/// `push_u8`'s and `pull_u8`'s contracts at those two starting values.
pub proof fn lemma_stack_pointer_wrap()
    ensures
        wrap8(0x00u8 - 1) == 0xff,
        wrap8(0xffu8 + 1) == 0x00,
{
}

/// Branch cycle accounting: a not-taken branch costs exactly 2 cycles, a
/// taken branch to the page of the address following the branch costs
/// exactly 3, and a taken branch that crosses a page costs exactly 4.
pub proof fn lemma_branch_cycles(pre: Cpu, post: Cpu, m: Seq<u8>, cond: bool)
    requires
        branch_post(pre, post, m, cond),
        pre.tick_count + 4 <= u32::MAX,
    ensures
        !cond ==> post.tick_count == pre.tick_count + 2,
        ({
            let next = wrap16(pre.pc + 2);
            let target = wrap16(next + signed8(m[wrap16(pre.pc + 1)]));
            &&& (cond && page_of(next) == page_of(target)) ==> post.tick_count == pre.tick_count
                + 3
            &&& (cond && page_of(next) != page_of(target)) ==> post.tick_count == pre.tick_count
                + 4
        }),
{
}

/// Page-cross read penalty, on the absolute-indexed accumulator loads: when
/// the base address and the indexed address share a page the instruction
/// costs its 4 base cycles, and when they differ it costs 5.
pub proof fn lemma_read_page_penalty(pre: Cpu, post: Cpu, m: Seq<u8>, r: Result<(), Diagnostic>)
    requires
        lda_post(pre, post, m, r),
        pre.current_opcode == 0xbd || pre.current_opcode == 0xb9,
        pre.tick_count + 5 <= u32::MAX,
    ensures
        ({
            let base = spec_make_address(arg1(pre, m), arg2(pre, m));
            let idx = wrap16(base + (if pre.current_opcode == 0xbd {
                pre.x
            } else {
                pre.y
            }));
            &&& page_of(base as int) == page_of(idx) ==> post.tick_count == pre.tick_count + 4
            &&& page_of(base as int) != page_of(idx) ==> post.tick_count == pre.tick_count + 5
        }),
{
}

/// Increment and decrement of a memory operand never touch the carry flag
/// (nor the accumulator).
pub proof fn lemma_stepper_leaves_carry(
    pre: Cpu,
    post: Cpu,
    m0: Seq<u8>,
    m1: Seq<u8>,
    r: Result<(), Diagnostic>,
)
    requires
        inc_post(pre, post, m0, m1, r) || dec_post(pre, post, m0, m1, r),
    ensures
        post.carry == pre.carry,
        post.a == pre.a,
{
}

/// Packing the seven flags into the status byte and testing its bits gives
/// the flags back: pushing status and pulling it restores every flag, and
/// the unused bit stays clear.
pub proof fn lemma_status_round_trip(
    sign: bool,
    overflow: bool,
    brk: bool,
    decimal: bool,
    interrupt: bool,
    zero: bool,
    carry: bool,
)
    ensures
        bit_set(status_bits(sign, overflow, brk, decimal, interrupt, zero, carry), 0x80) == sign,
        bit_set(status_bits(sign, overflow, brk, decimal, interrupt, zero, carry), 0x40)
            == overflow,
        bit_set(status_bits(sign, overflow, brk, decimal, interrupt, zero, carry), 0x10) == brk,
        bit_set(status_bits(sign, overflow, brk, decimal, interrupt, zero, carry), 0x08)
            == decimal,
        bit_set(status_bits(sign, overflow, brk, decimal, interrupt, zero, carry), 0x04)
            == interrupt,
        bit_set(status_bits(sign, overflow, brk, decimal, interrupt, zero, carry), 0x02) == zero,
        bit_set(status_bits(sign, overflow, brk, decimal, interrupt, zero, carry), 0x01) == carry,
        !bit_set(status_bits(sign, overflow, brk, decimal, interrupt, zero, carry), 0x20),
{
    let su: u8 = if sign { 1 } else { 0 };
    let vu: u8 = if overflow { 1 } else { 0 };
    let bu: u8 = if brk { 1 } else { 0 };
    let du: u8 = if decimal { 1 } else { 0 };
    let iu: u8 = if interrupt { 1 } else { 0 };
    let zu: u8 = if zero { 1 } else { 0 };
    let cu: u8 = if carry { 1 } else { 0 };
    let byte = status_bits(sign, overflow, brk, decimal, interrupt, zero, carry);
    assert(byte == (0x80 * su + 0x40 * vu + 0x10 * bu + 0x08 * du + 0x04 * iu + 0x02 * zu
        + cu) as u8);
    assert((byte & 0x80 == 0x80) == (su == 1) && (byte & 0x40 == 0x40) == (vu == 1) && (byte
        & 0x10 == 0x10) == (bu == 1) && (byte & 0x08 == 0x08) == (du == 1) && (byte & 0x04 == 0x04)
        == (iu == 1) && (byte & 0x02 == 0x02) == (zu == 1) && (byte & 0x01 == 0x01) == (cu == 1)
        && (byte & 0x20 != 0x20)) by (bit_vector)
        requires
            byte == (0x80 * su + 0x40 * vu + 0x10 * bu + 0x08 * du + 0x04 * iu + 0x02 * zu
                + cu) as u8,
            su <= 1 && vu <= 1 && bu <= 1 && du <= 1 && iu <= 1 && zu <= 1 && cu <= 1,
    ;
}

} // verus!