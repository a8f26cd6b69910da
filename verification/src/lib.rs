//! Instruction-processing core of an SM83-class 8-bit CPU: an opcode decoder
//! and an execution engine over a register file and a flat 64 KiB memory bus.
//!
//! The executable engine is verified against a mathematical model: the spec
//! function [`cpu::spec_step`] says exactly what one fetch/decode/execute
//! step does to the machine state, and [`cpu::Cpu::step`] is proved to agree
//! with it on every state.

pub mod cpu;
pub mod instruction;
pub mod laws;
pub mod memory;
pub mod registers;
pub mod semantics;
