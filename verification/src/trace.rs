//! The debug-trace rendering of the full processor state, in the fixed
//! layout `{opcode:XX a:XX x:XX y:XX sp:XX pc:XXXX flags:NZCIDV} tick: N`:
//! hexadecimal, zero-padded, lower case; each flag rendered as its letter
//! when set and `-` when clear, in the order sign, zero, carry, interrupt,
//! decimal, overflow; the tick count in decimal. Tooling diffs these lines
//! against other emulators' traces, so the layout is part of the contract.

use vstd::prelude::*;

use crate::arith::hi8;
use crate::arith::lo8;
use crate::cpu::Cpu;

verus! {

/// The character of one hexadecimal digit, lower case.
pub open spec fn hex_digit(d: int) -> u8 {
    if d < 10 {
        (0x30 + d) as u8
    } else {
        (0x57 + d) as u8
    }
}

/// Two hexadecimal digits of a byte, high digit first.
pub open spec fn hex2(v: u8) -> Seq<u8> {
    seq![hex_digit(v as int / 16), hex_digit(v as int % 16)]
}

/// Four hexadecimal digits of a word, high digit first.
pub open spec fn hex4(v: u16) -> Seq<u8> {
    hex2(hi8(v)) + hex2(lo8(v))
}

/// A flag's letter when it is set, `-` when it is clear.
pub open spec fn flag_char(b: bool, letter: u8) -> u8 {
    if b {
        letter
    } else {
        0x2d
    }
}

/// The decimal digits of `n`, empty for zero.
pub open spec fn dec_rep_aux(n: nat) -> Seq<u8>
    decreases n,
{
    if n == 0 {
        Seq::empty()
    } else {
        dec_rep_aux(n / 10).push((0x30 + n % 10) as u8)
    }
}

/// The decimal rendering of `n`, `0` included.
pub open spec fn dec_rep(n: nat) -> Seq<u8> {
    if n == 0 {
        seq![0x30u8]
    } else {
        dec_rep_aux(n)
    }
}

/// The register section of the trace line, `{opcode:` through the program
/// counter.
pub open spec fn reg_bytes(c: Cpu) -> Seq<u8> {
    seq![0x7bu8, 0x6fu8, 0x70u8, 0x63u8, 0x6fu8, 0x64u8, 0x65u8, 0x3au8] + hex2(c.current_opcode)
        + seq![0x20u8, 0x61u8, 0x3au8] + hex2(c.a) + seq![0x20u8, 0x78u8, 0x3au8] + hex2(c.x)
        + seq![0x20u8, 0x79u8, 0x3au8] + hex2(c.y) + seq![0x20u8, 0x73u8, 0x70u8, 0x3au8] + hex2(
        c.sp,
    ) + seq![0x20u8, 0x70u8, 0x63u8, 0x3au8] + hex4(c.pc)
}

/// The flag section, ` flags:` through the closing brace.
pub open spec fn flag_bytes(c: Cpu) -> Seq<u8> {
    seq![
        0x20u8,
        0x66u8,
        0x6cu8,
        0x61u8,
        0x67u8,
        0x73u8,
        0x3au8,
        flag_char(c.sign, 0x4eu8),
        flag_char(c.zero, 0x5au8),
        flag_char(c.carry, 0x43u8),
        flag_char(c.interrupt, 0x49u8),
        flag_char(c.decimal, 0x44u8),
        flag_char(c.overflow, 0x56u8),
        0x7du8,
    ]
}

/// The tick section, ` tick: ` and the decimal count.
pub open spec fn tick_bytes(c: Cpu) -> Seq<u8> {
    seq![0x20u8, 0x74u8, 0x69u8, 0x63u8, 0x6bu8, 0x3au8, 0x20u8] + dec_rep(c.tick_count as nat)
}

/// The full trace line for a processor state.
pub open spec fn trace_bytes(c: Cpu) -> Seq<u8> {
    reg_bytes(c) + flag_bytes(c) + tick_bytes(c)
}

/// One hexadecimal digit character.
fn hex_digit_of(d: u8) -> (r: u8)
    requires
        d < 16,
    ensures
        r == hex_digit(d as int),
{
    if d < 10 {
        0x30 + d
    } else {
        0x57 + d
    }
}

/// Appends a byte's two hexadecimal digits.
fn push_hex2(out: &mut Vec<u8>, v: u8)
    ensures
        final(out)@ == old(out)@ + hex2(v),
{
    out.push(hex_digit_of(v / 16));
    out.push(hex_digit_of(v % 16));
    proof {
        assert(final(out)@ =~= old(out)@ + hex2(v));
    }
}

/// Appends a word's four hexadecimal digits.
fn push_hex4(out: &mut Vec<u8>, v: u16)
    ensures
        final(out)@ == old(out)@ + hex4(v),
{
    push_hex2(out, (v / 0x100) as u8);
    push_hex2(out, (v % 0x100) as u8);
    proof {
        assert(final(out)@ =~= old(out)@ + hex4(v));
    }
}

/// Appends a flag's letter or `-`.
fn push_flag(out: &mut Vec<u8>, b: bool, letter: u8)
    ensures
        final(out)@ == old(out)@.push(flag_char(b, letter)),
{
    if b {
        out.push(letter);
    } else {
        out.push(0x2d);
    }
}

/// Appends the decimal digits of `n`, nothing for zero.
fn push_dec(out: &mut Vec<u8>, n: u32)
    ensures
        final(out)@ == old(out)@ + dec_rep_aux(n as nat),
    decreases n,
{
    if n == 0 {
        proof {
            assert(final(out)@ =~= old(out)@ + dec_rep_aux(0));
        }
        return ;
    }
    push_dec(out, n / 10);
    out.push(0x30 + (n % 10) as u8);
    proof {
        assert(final(out)@ =~= old(out)@ + dec_rep_aux(n as nat));
    }
}

fn push_regs(out: &mut Vec<u8>, c: &Cpu)
    ensures
        final(out)@ == old(out)@ + reg_bytes(*c),
{
    out.push(0x7b);
    out.push(0x6f);
    out.push(0x70);
    out.push(0x63);
    out.push(0x6f);
    out.push(0x64);
    out.push(0x65);
    out.push(0x3a);
    push_hex2(out, c.current_opcode);
    out.push(0x20);
    out.push(0x61);
    out.push(0x3a);
    push_hex2(out, c.a);
    out.push(0x20);
    out.push(0x78);
    out.push(0x3a);
    push_hex2(out, c.x);
    out.push(0x20);
    out.push(0x79);
    out.push(0x3a);
    push_hex2(out, c.y);
    out.push(0x20);
    out.push(0x73);
    out.push(0x70);
    out.push(0x3a);
    push_hex2(out, c.sp);
    out.push(0x20);
    out.push(0x70);
    out.push(0x63);
    out.push(0x3a);
    push_hex4(out, c.pc);
    proof {
        assert(final(out)@ =~= old(out)@ + reg_bytes(*c));
    }
}

fn push_flags(out: &mut Vec<u8>, c: &Cpu)
    ensures
        final(out)@ == old(out)@ + flag_bytes(*c),
{
    out.push(0x20);
    out.push(0x66);
    out.push(0x6c);
    out.push(0x61);
    out.push(0x67);
    out.push(0x73);
    out.push(0x3a);
    push_flag(out, c.sign, 0x4e);
    push_flag(out, c.zero, 0x5a);
    push_flag(out, c.carry, 0x43);
    push_flag(out, c.interrupt, 0x49);
    push_flag(out, c.decimal, 0x44);
    push_flag(out, c.overflow, 0x56);
    out.push(0x7d);
    proof {
        assert(final(out)@ =~= old(out)@ + flag_bytes(*c));
    }
}

fn push_tick(out: &mut Vec<u8>, c: &Cpu)
    ensures
        final(out)@ == old(out)@ + tick_bytes(*c),
{
    out.push(0x20);
    out.push(0x74);
    out.push(0x69);
    out.push(0x63);
    out.push(0x6b);
    out.push(0x3a);
    out.push(0x20);
    if c.tick_count == 0 {
        out.push(0x30);
    } else {
        push_dec(out, c.tick_count);
    }
    proof {
        assert(final(out)@ =~= old(out)@ + tick_bytes(*c));
    }
}

impl Cpu {
    /// Renders the trace line for the current processor state as ASCII
    /// bytes.
    pub fn trace_line(&self) -> (r: Vec<u8>)
        ensures
            r@ == trace_bytes(*self),
    {
        let mut out: Vec<u8> = Vec::new();
        push_regs(&mut out, self);
        push_flags(&mut out, self);
        push_tick(&mut out, self);
        proof {
            assert(out@ =~= trace_bytes(*self));
        }
        out
    }
}

} // verus!
