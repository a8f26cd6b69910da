//! The mathematical model of execution: a machine state as a value, and spec
//! functions that say exactly what each instruction does to it — register,
//! memory and flag effects, wrapping arithmetic, conditional control flow.
//!
//! The execution engine in [`crate::cpu`] is proved to agree with
//! [`spec_exec`] on every instruction and every state.

use vstd::prelude::*;

use crate::instruction::{AluOp, IndirectR16, Instruction, JumpCondition, R16, R8, RotOp, StackR16};
use crate::registers::{
    spec_get_16b, spec_hi, spec_lo, spec_set_16b, spec_word, FlagRegister, Registers, Registers16b,
};

verus! {

/// The whole machine state: the register file, the 64 KiB memory, the halted
/// flag and the interrupt-enable intent.
#[verifier::ext_equal]
pub ghost struct CpuState {
    pub regs: Registers,
    pub mem: Seq<u8>,
    pub halted: bool,
    pub ime: bool,
}

impl CpuState {
    /// The memory holds exactly one byte per 16-bit address.
    pub open spec fn wf(self) -> bool {
        self.mem.len() == 0x10000
    }
}

/// Reduction modulo 256: 8-bit arithmetic wraps, never traps.
pub open spec fn wrap8(x: int) -> u8 {
    (x % 0x100) as u8
}

/// Reduction modulo 65536: 16-bit arithmetic wraps, never traps.
pub open spec fn wrap16(x: int) -> u16 {
    (x % 0x10000) as u16
}

/// Where reduction modulo 256 lands, for the range one 8-bit operation can
/// produce.
pub proof fn lemma_wrap8(x: int)
    requires
        -0x100 <= x < 0x200,
    ensures
        0 <= x < 0x100 ==> wrap8(x) == x,
        0x100 <= x ==> wrap8(x) == x - 0x100,
        x < 0 ==> wrap8(x) == x + 0x100,
{
    if 0 <= x < 0x100 {
        vstd::arithmetic::div_mod::lemma_small_mod(x as nat, 0x100);
    } else if 0x100 <= x {
        vstd::arithmetic::div_mod::lemma_mod_add_multiples_vanish(x - 0x100, 0x100);
        vstd::arithmetic::div_mod::lemma_small_mod((x - 0x100) as nat, 0x100);
    } else {
        vstd::arithmetic::div_mod::lemma_mod_add_multiples_vanish(x, 0x100);
        vstd::arithmetic::div_mod::lemma_small_mod((x + 0x100) as nat, 0x100);
    }
}

/// Where reduction modulo 65536 lands, for the range one 16-bit operation
/// can produce.
pub proof fn lemma_wrap16(x: int)
    requires
        -0x10000 <= x < 0x20000,
    ensures
        0 <= x < 0x10000 ==> wrap16(x) == x,
        0x10000 <= x ==> wrap16(x) == x - 0x10000,
        x < 0 ==> wrap16(x) == x + 0x10000,
{
    if 0 <= x < 0x10000 {
        vstd::arithmetic::div_mod::lemma_small_mod(x as nat, 0x10000);
    } else if 0x10000 <= x {
        vstd::arithmetic::div_mod::lemma_mod_add_multiples_vanish(x - 0x10000, 0x10000);
        vstd::arithmetic::div_mod::lemma_small_mod((x - 0x10000) as nat, 0x10000);
    } else {
        vstd::arithmetic::div_mod::lemma_mod_add_multiples_vanish(x, 0x10000);
        vstd::arithmetic::div_mod::lemma_small_mod((x + 0x10000) as nat, 0x10000);
    }
}

/// A byte read as a signed 8-bit offset (two's complement).
pub open spec fn signed8(b: u8) -> int {
    if b < 0x80 {
        b as int
    } else {
        b - 0x100
    }
}

/// The carry flag as the 0-or-1 summand of add-with-carry and
/// subtract-with-carry.
pub open spec fn carry_in(f: FlagRegister) -> int {
    if f.carry {
        1
    } else {
        0
    }
}

/// Whether a jump/call/return condition holds under the given flags.
pub open spec fn spec_condition_holds(c: JumpCondition, f: FlagRegister) -> bool {
    match c {
        JumpCondition::Always => true,
        JumpCondition::Zero => f.zero,
        JumpCondition::NotZero => !f.zero,
        JumpCondition::Carry => f.carry,
        JumpCondition::NotCarry => !f.carry,
    }
}

/// The composite register a register-pair selector names.
pub open spec fn spec_r16_view(r: R16) -> Registers16b {
    match r {
        R16::Bc => Registers16b::BC,
        R16::De => Registers16b::DE,
        R16::Hl => Registers16b::HL,
        R16::Sp => Registers16b::SP,
    }
}

/// The composite register a stack register-pair selector names.
pub open spec fn spec_stack_r16_view(r: StackR16) -> Registers16b {
    match r {
        StackR16::Bc => Registers16b::BC,
        StackR16::De => Registers16b::DE,
        StackR16::Hl => Registers16b::HL,
        StackR16::Af => Registers16b::AF,
    }
}

/// The address an indirect-addressing mode reads from the register file.
pub open spec fn spec_indirect_addr(regs: Registers, m: IndirectR16) -> u16 {
    match m {
        IndirectR16::Bc => spec_word(regs.b, regs.c),
        IndirectR16::De => spec_word(regs.d, regs.e),
        IndirectR16::Hli => spec_word(regs.h, regs.l),
        IndirectR16::Hld => spec_word(regs.h, regs.l),
    }
}

/// The register file after the post-increment or post-decrement of HL that
/// the Hli/Hld addressing modes perform.
pub open spec fn spec_indirect_after(regs: Registers, m: IndirectR16) -> Registers {
    match m {
        IndirectR16::Bc => regs,
        IndirectR16::De => regs,
        IndirectR16::Hli => spec_set_16b(
            regs,
            Registers16b::HL,
            wrap16(spec_word(regs.h, regs.l) + 1),
        ),
        IndirectR16::Hld => spec_set_16b(
            regs,
            Registers16b::HL,
            wrap16(spec_word(regs.h, regs.l) - 1),
        ),
    }
}

/// The value of an 8-bit operand: a register, or the byte addressed by HL.
pub open spec fn get_r8(s: CpuState, r: R8) -> u8 {
    match r {
        R8::B => s.regs.b,
        R8::C => s.regs.c,
        R8::D => s.regs.d,
        R8::E => s.regs.e,
        R8::H => s.regs.h,
        R8::L => s.regs.l,
        R8::Hl => s.mem[spec_word(s.regs.h, s.regs.l) as int],
        R8::A => s.regs.a,
    }
}

/// The state after writing an 8-bit operand: a register, or the byte
/// addressed by HL.
pub open spec fn set_r8(s: CpuState, r: R8, v: u8) -> CpuState {
    match r {
        R8::B => CpuState { regs: Registers { b: v, ..s.regs }, ..s },
        R8::C => CpuState { regs: Registers { c: v, ..s.regs }, ..s },
        R8::D => CpuState { regs: Registers { d: v, ..s.regs }, ..s },
        R8::E => CpuState { regs: Registers { e: v, ..s.regs }, ..s },
        R8::H => CpuState { regs: Registers { h: v, ..s.regs }, ..s },
        R8::L => CpuState { regs: Registers { l: v, ..s.regs }, ..s },
        R8::Hl => CpuState {
            mem: s.mem.update(spec_word(s.regs.h, s.regs.l) as int, v),
            ..s
        },
        R8::A => CpuState { regs: Registers { a: v, ..s.regs }, ..s },
    }
}

/// The state with the accumulator replaced.
pub open spec fn with_a(s: CpuState, v: u8) -> CpuState {
    CpuState { regs: Registers { a: v, ..s.regs }, ..s }
}

/// The state with the flags replaced.
pub open spec fn with_flags(s: CpuState, f: FlagRegister) -> CpuState {
    CpuState { regs: Registers { f: f, ..s.regs }, ..s }
}

/// The state with the program counter replaced.
pub open spec fn with_pc(s: CpuState, v: u16) -> CpuState {
    CpuState { regs: Registers { pc: v, ..s.regs }, ..s }
}

/// The state with the stack pointer replaced.
pub open spec fn with_sp(s: CpuState, v: u16) -> CpuState {
    CpuState { regs: Registers { sp: v, ..s.regs }, ..s }
}

/// The state with the whole register file replaced.
pub open spec fn with_regs(s: CpuState, regs: Registers) -> CpuState {
    CpuState { regs: regs, ..s }
}

/// The byte at the program counter.
pub open spec fn fetched_byte(s: CpuState) -> u8 {
    s.mem[s.regs.pc as int]
}

/// The state after consuming one operand byte: PC advances by 1, wrapping.
pub open spec fn after_fetch8(s: CpuState) -> CpuState {
    with_pc(s, wrap16(s.regs.pc + 1))
}

/// The two bytes at the program counter combined little-endian (low byte
/// first).
pub open spec fn fetched_word(s: CpuState) -> u16 {
    spec_word(s.mem[wrap16(s.regs.pc + 1) as int], s.mem[s.regs.pc as int])
}

/// The state after consuming a two-byte operand: PC advances by 2, wrapping.
pub open spec fn after_fetch16(s: CpuState) -> CpuState {
    with_pc(s, wrap16(s.regs.pc + 2))
}

/// The state after pushing a word: SP decreases by 2 and the word is written
/// at the new SP, low byte first.
pub open spec fn after_push(s: CpuState, w: u16) -> CpuState {
    let sp1 = wrap16(s.regs.sp - 2);
    CpuState {
        regs: Registers { sp: sp1, ..s.regs },
        mem: s.mem.update(sp1 as int, spec_lo(w)).update(wrap16(sp1 + 1) as int, spec_hi(w)),
        ..s
    }
}

/// The word at the top of the stack, combined little-endian.
pub open spec fn popped_word(s: CpuState) -> u16 {
    spec_word(s.mem[wrap16(s.regs.sp + 1) as int], s.mem[s.regs.sp as int])
}

/// The state after popping a word: SP increases by 2.
pub open spec fn after_pop(s: CpuState) -> CpuState {
    CpuState { regs: Registers { sp: wrap16(s.regs.sp + 2), ..s.regs }, ..s }
}

/// The 8-bit result of an accumulator operation (the compare leaves the
/// accumulator unchanged).
pub open spec fn spec_alu_result(op: AluOp, a: u8, v: u8, f: FlagRegister) -> u8 {
    match op {
        AluOp::Add => wrap8(a + v),
        AluOp::Adc => wrap8(a + v + carry_in(f)),
        AluOp::Sub => wrap8(a - v),
        AluOp::Sbc => wrap8(a - v - carry_in(f)),
        AluOp::And => a & v,
        AluOp::Xor => a ^ v,
        AluOp::Or => a | v,
        AluOp::Cp => a,
    }
}

/// The flags of an accumulator operation: Zero from the 8-bit result,
/// Subtract for the subtract family, Half-Carry from bit 3, Carry from bit 7
/// (the carry bit itself joins the sum/difference for adc/sbc; the logical
/// operations fix Half-Carry and Carry, with AND setting Half-Carry).
pub open spec fn spec_alu_flags(op: AluOp, a: u8, v: u8, f: FlagRegister) -> FlagRegister {
    match op {
        AluOp::Add => FlagRegister {
            zero: wrap8(a + v) == 0,
            substraction: false,
            half_carry: (a & 0xF) + (v & 0xF) > 0xF,
            carry: a + v > 0xFF,
        },
        AluOp::Adc => FlagRegister {
            zero: wrap8(a + v + carry_in(f)) == 0,
            substraction: false,
            half_carry: (a & 0xF) + (v & 0xF) + carry_in(f) > 0xF,
            carry: a + v + carry_in(f) > 0xFF,
        },
        AluOp::Sub => FlagRegister {
            zero: wrap8(a - v) == 0,
            substraction: true,
            half_carry: (a & 0xF) < (v & 0xF),
            carry: (a as int) < (v as int),
        },
        AluOp::Sbc => FlagRegister {
            zero: wrap8(a - v - carry_in(f)) == 0,
            substraction: true,
            half_carry: (a & 0xF) < (v & 0xF) + carry_in(f),
            carry: (a as int) < v + carry_in(f),
        },
        AluOp::And => FlagRegister {
            zero: (a & v) == 0,
            substraction: false,
            half_carry: true,
            carry: false,
        },
        AluOp::Xor => FlagRegister {
            zero: (a ^ v) == 0,
            substraction: false,
            half_carry: false,
            carry: false,
        },
        AluOp::Or => FlagRegister {
            zero: (a | v) == 0,
            substraction: false,
            half_carry: false,
            carry: false,
        },
        AluOp::Cp => FlagRegister {
            zero: wrap8(a - v) == 0,
            substraction: true,
            half_carry: (a & 0xF) < (v & 0xF),
            carry: (a as int) < (v as int),
        },
    }
}

/// The 8-bit result of a rotate/shift (shifts on `u8` drop the bits that
/// leave the byte).
pub open spec fn spec_rot_result(op: RotOp, v: u8, carry: bool) -> u8 {
    match op {
        RotOp::Rlc => (v << 1) | (v >> 7),
        RotOp::Rrc => (v >> 1) | (v << 7),
        RotOp::Rl => (v << 1) | (if carry {
            1u8
        } else {
            0u8
        }),
        RotOp::Rr => (v >> 1) | (if carry {
            0x80u8
        } else {
            0u8
        }),
        RotOp::Sla => v << 1,
        RotOp::Sra => (v >> 1) | (v & 0x80),
        RotOp::Swap => (v >> 4) | (v << 4),
        RotOp::Srl => v >> 1,
    }
}

/// The carry flag of a rotate/shift: the bit shifted out (none for a nibble
/// swap).
pub open spec fn spec_rot_carry(op: RotOp, v: u8) -> bool {
    match op {
        RotOp::Rlc => v & 0x80 == 0x80,
        RotOp::Rrc => v & 1 == 1,
        RotOp::Rl => v & 0x80 == 0x80,
        RotOp::Rr => v & 1 == 1,
        RotOp::Sla => v & 0x80 == 0x80,
        RotOp::Sra => v & 1 == 1,
        RotOp::Swap => false,
        RotOp::Srl => v & 1 == 1,
    }
}

/// The state after one of the accumulator-only rotates, which always clear
/// Zero, Subtract and Half-Carry.
pub open spec fn spec_acc_rot(s: CpuState, op: RotOp) -> CpuState {
    let s1 = with_a(s, spec_rot_result(op, s.regs.a, s.regs.f.carry));
    with_flags(
        s1,
        FlagRegister {
            zero: false,
            substraction: false,
            half_carry: false,
            carry: spec_rot_carry(op, s.regs.a),
        },
    )
}

/// The flags of a 16-bit add to HL: Half-Carry from bit 11, Carry from bit
/// 15, Subtract cleared, Zero untouched.
pub open spec fn spec_add16_flags(hl: u16, v: u16, f: FlagRegister) -> FlagRegister {
    FlagRegister {
        zero: f.zero,
        substraction: false,
        half_carry: (hl & 0xFFF) + (v & 0xFFF) > 0xFFF,
        carry: hl + v > 0xFFFF,
    }
}

/// The flags of an 8-bit increment: Carry is never touched.
pub open spec fn spec_inc8_flags(v: u8, f: FlagRegister) -> FlagRegister {
    FlagRegister {
        zero: wrap8(v + 1) == 0,
        substraction: false,
        half_carry: v & 0xF == 0xF,
        carry: f.carry,
    }
}

/// The flags of an 8-bit decrement: Carry is never touched.
pub open spec fn spec_dec8_flags(v: u8, f: FlagRegister) -> FlagRegister {
    FlagRegister {
        zero: wrap8(v - 1) == 0,
        substraction: true,
        half_carry: v & 0xF == 0,
        carry: f.carry,
    }
}

/// The flags of stack-pointer-plus-signed-immediate: Zero and Subtract
/// clear, Half-Carry and Carry from the unsigned low-byte addition.
pub open spec fn spec_spd_flags(sp: u16, d: u8) -> FlagRegister {
    FlagRegister {
        zero: false,
        substraction: false,
        half_carry: (sp & 0xF) + (d & 0xF) > 0xF,
        carry: (sp & 0xFF) + d > 0xFF,
    }
}

/// The accumulator after the decimal (BCD) adjust: in add mode, 0x60 and/or
/// 0x06 corrections by carry, half-carry and digit overflow; in subtract
/// mode, the corrections are subtracted and only the incoming flags decide.
pub open spec fn spec_daa_a(a: u8, f: FlagRegister) -> u8 {
    if !f.substraction {
        let a1 = if f.carry || a > 0x99 {
            wrap8(a + 0x60)
        } else {
            a
        };
        if f.half_carry || (a & 0xF) > 9 {
            wrap8(a1 + 6)
        } else {
            a1
        }
    } else {
        let a1 = if f.carry {
            wrap8(a - 0x60)
        } else {
            a
        };
        if f.half_carry {
            wrap8(a1 - 6)
        } else {
            a1
        }
    }
}

/// The carry after the decimal adjust: set by an applied 0x60 correction in
/// add mode, kept as-is in subtract mode.
pub open spec fn spec_daa_carry(a: u8, f: FlagRegister) -> bool {
    if !f.substraction {
        f.carry || a > 0x99
    } else {
        f.carry
    }
}

/// The flags after the decimal adjust: Zero from the result, Subtract kept,
/// Half-Carry cleared.
pub open spec fn spec_daa_flags(a: u8, f: FlagRegister) -> FlagRegister {
    FlagRegister {
        zero: spec_daa_a(a, f) == 0,
        substraction: f.substraction,
        half_carry: false,
        carry: spec_daa_carry(a, f),
    }
}

/// What one decoded instruction does to the machine state. `s` is the state
/// just after the opcode byte(s) were consumed: PC sits on the first operand
/// byte, if any.
pub open spec fn spec_exec(i: Instruction, s: CpuState) -> CpuState {
    match i {
        Instruction::Nop => s,
        Instruction::Stop => CpuState { halted: true, ..s },
        Instruction::Halt => CpuState { halted: true, ..s },
        Instruction::Di => CpuState { ime: false, ..s },
        Instruction::Ei => CpuState { ime: true, ..s },
        Instruction::Load(d, src) => set_r8(s, d, get_r8(s, src)),
        Instruction::LoadImm(d) => set_r8(after_fetch8(s), d, fetched_byte(s)),
        Instruction::LoadR16Imm(rp) => {
            let s1 = after_fetch16(s);
            with_regs(s1, spec_set_16b(s1.regs, spec_r16_view(rp), fetched_word(s)))
        },
        Instruction::LoadIndirectFromA(m) => {
            let addr = spec_indirect_addr(s.regs, m);
            let s1 = CpuState { mem: s.mem.update(addr as int, s.regs.a), ..s };
            with_regs(s1, spec_indirect_after(s1.regs, m))
        },
        Instruction::LoadIndirectToA(m) => {
            let addr = spec_indirect_addr(s.regs, m);
            let s1 = with_a(s, s.mem[addr as int]);
            with_regs(s1, spec_indirect_after(s1.regs, m))
        },
        Instruction::StoreSpImm => {
            let s1 = after_fetch16(s);
            let addr = fetched_word(s);
            CpuState {
                mem: s1.mem.update(addr as int, spec_lo(s.regs.sp)).update(
                    wrap16(addr + 1) as int,
                    spec_hi(s.regs.sp),
                ),
                ..s1
            }
        },
        Instruction::LoadSpHl => with_sp(s, spec_word(s.regs.h, s.regs.l)),
        Instruction::LoadHlSpImm => {
            let s1 = after_fetch8(s);
            let d = fetched_byte(s);
            let s2 = with_regs(
                s1,
                spec_set_16b(s1.regs, Registers16b::HL, wrap16(s.regs.sp + signed8(d))),
            );
            with_flags(s2, spec_spd_flags(s.regs.sp, d))
        },
        Instruction::AddSpImm => {
            let s1 = after_fetch8(s);
            let d = fetched_byte(s);
            let s2 = with_sp(s1, wrap16(s.regs.sp + signed8(d)));
            with_flags(s2, spec_spd_flags(s.regs.sp, d))
        },
        Instruction::AddHl(rp) => {
            let hl = spec_word(s.regs.h, s.regs.l);
            let v = spec_get_16b(s.regs, spec_r16_view(rp));
            let s1 = with_regs(s, spec_set_16b(s.regs, Registers16b::HL, wrap16(hl + v)));
            with_flags(s1, spec_add16_flags(hl, v, s.regs.f))
        },
        Instruction::IncR16(rp) => {
            let v = spec_get_16b(s.regs, spec_r16_view(rp));
            with_regs(s, spec_set_16b(s.regs, spec_r16_view(rp), wrap16(v + 1)))
        },
        Instruction::DecR16(rp) => {
            let v = spec_get_16b(s.regs, spec_r16_view(rp));
            with_regs(s, spec_set_16b(s.regs, spec_r16_view(rp), wrap16(v - 1)))
        },
        Instruction::Inc(r) => {
            let v = get_r8(s, r);
            with_flags(set_r8(s, r, wrap8(v + 1)), spec_inc8_flags(v, s.regs.f))
        },
        Instruction::Dec(r) => {
            let v = get_r8(s, r);
            with_flags(set_r8(s, r, wrap8(v - 1)), spec_dec8_flags(v, s.regs.f))
        },
        Instruction::Alu(op, r) => {
            let v = get_r8(s, r);
            let s1 = with_a(s, spec_alu_result(op, s.regs.a, v, s.regs.f));
            with_flags(s1, spec_alu_flags(op, s.regs.a, v, s.regs.f))
        },
        Instruction::AluImm(op) => {
            let s1 = after_fetch8(s);
            let v = fetched_byte(s);
            let s2 = with_a(s1, spec_alu_result(op, s.regs.a, v, s.regs.f));
            with_flags(s2, spec_alu_flags(op, s.regs.a, v, s.regs.f))
        },
        Instruction::Rlca => spec_acc_rot(s, RotOp::Rlc),
        Instruction::Rrca => spec_acc_rot(s, RotOp::Rrc),
        Instruction::Rla => spec_acc_rot(s, RotOp::Rl),
        Instruction::Rra => spec_acc_rot(s, RotOp::Rr),
        Instruction::Daa => {
            let s1 = with_a(s, spec_daa_a(s.regs.a, s.regs.f));
            with_flags(s1, spec_daa_flags(s.regs.a, s.regs.f))
        },
        Instruction::Cpl => {
            let s1 = with_a(s, !s.regs.a);
            with_flags(
                s1,
                FlagRegister {
                    zero: s.regs.f.zero,
                    substraction: true,
                    half_carry: true,
                    carry: s.regs.f.carry,
                },
            )
        },
        Instruction::Scf => with_flags(
            s,
            FlagRegister {
                zero: s.regs.f.zero,
                substraction: false,
                half_carry: false,
                carry: true,
            },
        ),
        Instruction::Ccf => with_flags(
            s,
            FlagRegister {
                zero: s.regs.f.zero,
                substraction: false,
                half_carry: false,
                carry: !s.regs.f.carry,
            },
        ),
        Instruction::Jr(cc) => {
            let s1 = after_fetch8(s);
            let d = fetched_byte(s);
            if spec_condition_holds(cc, s.regs.f) {
                with_pc(s1, wrap16(s1.regs.pc + signed8(d)))
            } else {
                s1
            }
        },
        Instruction::Jp(cc) => {
            let s1 = after_fetch16(s);
            if spec_condition_holds(cc, s.regs.f) {
                with_pc(s1, fetched_word(s))
            } else {
                s1
            }
        },
        Instruction::JpHl => with_pc(s, spec_word(s.regs.h, s.regs.l)),
        Instruction::Call(cc) => {
            let s1 = after_fetch16(s);
            if spec_condition_holds(cc, s.regs.f) {
                with_pc(after_push(s1, s1.regs.pc), fetched_word(s))
            } else {
                s1
            }
        },
        Instruction::Ret(cc) => {
            if spec_condition_holds(cc, s.regs.f) {
                with_pc(after_pop(s), popped_word(s))
            } else {
                s
            }
        },
        Instruction::Reti => CpuState { ime: true, ..with_pc(after_pop(s), popped_word(s)) },
        Instruction::Push(rp) => after_push(s, spec_get_16b(s.regs, spec_stack_r16_view(rp))),
        Instruction::Pop(rp) => {
            let s1 = after_pop(s);
            with_regs(s1, spec_set_16b(s1.regs, spec_stack_r16_view(rp), popped_word(s)))
        },
        Instruction::Rst(v) => with_pc(after_push(s, s.regs.pc), v as u16),
        Instruction::Rot(op, r) => {
            let v = get_r8(s, r);
            let res = spec_rot_result(op, v, s.regs.f.carry);
            let s1 = set_r8(s, r, res);
            with_flags(
                s1,
                FlagRegister {
                    zero: res == 0,
                    substraction: false,
                    half_carry: false,
                    carry: spec_rot_carry(op, v),
                },
            )
        },
        Instruction::BitTest(b, r) => with_flags(
            s,
            FlagRegister {
                zero: (get_r8(s, r) >> b) & 1 == 0,
                substraction: false,
                half_carry: true,
                carry: s.regs.f.carry,
            },
        ),
        Instruction::ResetBit(b, r) => set_r8(s, r, get_r8(s, r) & !(1u8 << b)),
        Instruction::SetBit(b, r) => set_r8(s, r, get_r8(s, r) | (1u8 << b)),
        Instruction::LdhImmA => {
            let s1 = after_fetch8(s);
            let n = fetched_byte(s);
            CpuState { mem: s1.mem.update(0xFF00 + n, s.regs.a), ..s1 }
        },
        Instruction::LdhAImm => {
            let s1 = after_fetch8(s);
            let n = fetched_byte(s);
            with_a(s1, s1.mem[0xFF00 + n])
        },
        Instruction::LdhCA => CpuState { mem: s.mem.update(0xFF00 + s.regs.c, s.regs.a), ..s },
        Instruction::LdhAC => with_a(s, s.mem[0xFF00 + s.regs.c]),
        Instruction::LdImmA => {
            let s1 = after_fetch16(s);
            let addr = fetched_word(s);
            CpuState { mem: s1.mem.update(addr as int, s.regs.a), ..s1 }
        },
        Instruction::LdAImm => {
            let s1 = after_fetch16(s);
            let addr = fetched_word(s);
            with_a(s1, s1.mem[addr as int])
        },
    }
}

} // verus!
