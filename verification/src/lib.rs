//! Instruction-execution core of a 6502-family microprocessor.
//!
//! The crate models the processor state (registers, condition flags and a
//! cycle counter), a byte-addressable 16-bit memory, the full addressing-mode
//! matrix with its page-cross cycle penalties, the one-page stack with its
//! 8-bit wraparound discipline, one handler per instruction mnemonic, a total
//! dispatch over the opcode space, and the bounded execution loop that stops
//! on a caller-supplied break condition or when the per-scanline tick budget
//! is spent.

pub mod arith;
pub mod memory;
pub mod status;
pub mod cpu;
pub mod addr;
pub mod instr;
pub mod rmw;
pub mod store;
pub mod control;
pub mod dispatch;
pub mod trace;
pub mod laws;

pub use cpu::BreakCondition;
pub use cpu::Cpu;
pub use cpu::Diagnostic;
pub use cpu::TICKS_PER_SCANLINE;
pub use memory::Memory;
