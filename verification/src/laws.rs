//! Laws the library states about itself, proved for every input: the flag
//! byte/struct isomorphism, the register-pair round trip, and the advance of
//! the program counter past the operand of a conditional jump that is not
//! taken.

use vstd::prelude::*;

use crate::cpu::{spec_step, StepError};
use crate::instruction::{spec_from_byte_not_prefixed, Instruction, JumpCondition};
use crate::registers::{
    spec_flags_from_byte, spec_flags_to_byte, spec_get_16b, spec_set_16b, FlagRegister, Registers,
    Registers16b,
};
use crate::semantics::{lemma_wrap16, spec_condition_holds, with_pc, wrap16, CpuState};

verus! {

/// Flag struct -> byte -> struct is the identity: the byte encoding loses
/// none of the four flag bits, for all sixteen combinations.
pub proof fn lemma_flags_round_trip(f: FlagRegister)
    ensures
        spec_flags_from_byte(spec_flags_to_byte(f)) == f,
{
    let z: u8 = if f.zero {
        0x80
    } else {
        0
    };
    let n: u8 = if f.substraction {
        0x40
    } else {
        0
    };
    let h: u8 = if f.half_carry {
        0x20
    } else {
        0
    };
    let c: u8 = if f.carry {
        0x10
    } else {
        0
    };
    let b: u8 = (z + n + h + c) as u8;
    assert(spec_flags_to_byte(f) == b);
    assert((b & 0x80 == 0x80) == (z == 0x80) && (b & 0x40 == 0x40) == (n == 0x40) && (b & 0x20
        == 0x20) == (h == 0x20) && (b & 0x10 == 0x10) == (c == 0x10)) by (bit_vector)
        requires
            b == (z + n + h + c) as u8,
            z == 0x80 || z == 0,
            n == 0x40 || n == 0,
            h == 0x20 || h == 0,
            c == 0x10 || c == 0,
    ;
}

/// A byte with its low nibble set decodes to the same flags as the byte
/// with the low nibble cleared: only bits 7..4 matter.
pub proof fn lemma_flags_from_byte_ignores_low_nibble(byte: u8)
    ensures
        spec_flags_from_byte(byte) == spec_flags_from_byte(byte & 0xF0),
{
    assert((byte & 0xF0) & 0x80 == byte & 0x80 && (byte & 0xF0) & 0x40 == byte & 0x40 && (byte
        & 0xF0) & 0x20 == byte & 0x20 && (byte & 0xF0) & 0x10 == byte & 0x10) by (bit_vector);
}

/// Byte -> flag struct -> byte clears exactly the low nibble: the encoding
/// is the identity on the canonical (low-nibble-zero) bytes.
pub proof fn lemma_flags_byte_round_trip(byte: u8)
    ensures
        spec_flags_to_byte(spec_flags_from_byte(byte)) == byte & 0xF0,
{
    let z: u8 = if byte & 0x80 == 0x80 {
        0x80
    } else {
        0
    };
    let n: u8 = if byte & 0x40 == 0x40 {
        0x40
    } else {
        0
    };
    let h: u8 = if byte & 0x20 == 0x20 {
        0x20
    } else {
        0
    };
    let c: u8 = if byte & 0x10 == 0x10 {
        0x10
    } else {
        0
    };
    assert(z == byte & 0x80 && n == byte & 0x40 && h == byte & 0x20 && c == byte & 0x10)
        by (bit_vector)
        requires
            z == (if byte & 0x80 == 0x80 {
                0x80u8
            } else {
                0u8
            }),
            n == (if byte & 0x40 == 0x40 {
                0x40u8
            } else {
                0u8
            }),
            h == (if byte & 0x20 == 0x20 {
                0x20u8
            } else {
                0u8
            }),
            c == (if byte & 0x10 == 0x10 {
                0x10u8
            } else {
                0u8
            }),
    ;
    assert(((byte & 0x80) + (byte & 0x40) + (byte & 0x20) + (byte & 0x10)) as u8 == byte & 0xF0)
        by (bit_vector);
}

/// Register-pair round trip: writing a composite 16-bit register and reading
/// it back returns the value written. For AF the low nibble of the value
/// must be zero, since the flag register has no storage for it.
pub proof fn lemma_register_pair_round_trip(regs: Registers, register: Registers16b, value: u16)
    requires
        register is AF ==> value & 0xF == 0,
    ensures
        spec_get_16b(spec_set_16b(regs, register, value), register) == value,
{
    let hi: u8 = (value >> 8) as u8;
    let lo: u8 = (value & 0xff) as u8;
    assert(((hi as u16) << 8) | (lo as u16) == value) by (bit_vector)
        requires
            hi == (value >> 8) as u8,
            lo == (value & 0xff) as u8,
    ;
    if register is AF {
        lemma_flags_byte_round_trip(lo);
        assert(lo & 0xF0 == lo) by (bit_vector)
            requires
                value & 0xF == 0,
                lo == (value & 0xff) as u8,
        ;
    }
}

/// Every error a step can produce is a decode failure: the engine
/// implements every instruction its decoder recognizes, so the distinct
/// "recognized but unimplemented" class is never reported.
pub proof fn lemma_step_errors_are_decode_failures(s: CpuState)
    ensures
        spec_step(s) matches Err(e) ==> e is UnknownOpcode,
{
}

/// A conditional absolute jump whose condition does not hold still consumes
/// its two operand bytes: the step succeeds and changes nothing but the
/// program counter, which advances by exactly 3 from the opcode's address.
pub proof fn lemma_conditional_jump_not_taken_advances(s: CpuState, cc: JumpCondition)
    requires
        s.wf(),
        !s.halted,
        spec_from_byte_not_prefixed(s.mem[s.regs.pc as int]) == Some(Instruction::Jp(cc)),
        !spec_condition_holds(cc, s.regs.f),
    ensures
        spec_step(s) == Ok::<CpuState, StepError>(with_pc(s, wrap16(s.regs.pc + 3))),
{
    let pc = s.regs.pc;
    lemma_wrap16(pc + 1);
    lemma_wrap16(wrap16(pc + 1) + 2);
    lemma_wrap16(pc + 3);
    assert(spec_step(s) matches Ok(t) && t =~= with_pc(s, wrap16(pc + 3)));
}

} // verus!

