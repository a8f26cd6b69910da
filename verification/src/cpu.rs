//! The execution engine: fetch, decode, execute. One `step` reads the opcode
//! at the program counter (with prefix lookahead), decodes it, and carries
//! out the instruction's register, memory and flag effects, all proved equal
//! to the model in [`crate::semantics`].

use vstd::prelude::*;

use crate::instruction::{
    AluOp, IndirectR16, Instruction, JumpCondition, R16, R8, RotOp, StackR16, INSTRUCTION_PREFIX,
    spec_from_byte_not_prefixed, spec_from_byte_prefixed,
};
use crate::memory::MemoryBus;
use crate::registers::{FlagRegister, Registers, Registers16b};
use crate::semantics::{
    after_fetch16, after_fetch8, after_pop, after_push, fetched_byte, fetched_word, get_r8,
    lemma_wrap16, lemma_wrap8, popped_word, set_r8, signed8, spec_acc_rot, spec_alu_flags,
    spec_alu_result, spec_condition_holds, spec_daa_a, spec_daa_flags, spec_exec,
    spec_indirect_addr, spec_indirect_after, spec_r16_view, spec_rot_carry, spec_rot_result,
    spec_stack_r16_view, with_a, with_flags, with_pc, with_regs, wrap16, CpuState,
};

verus! {

/// A fatal condition reported by `step`. Decode failure is the only failure
/// the engine itself produces; it is never conflated with a silently skipped
/// byte.
#[derive(Clone, Copy, Debug, PartialEq, Eq, Structural)]
pub enum StepError {
    /// The byte at `address` encodes no instruction under the given prefix
    /// context. The caller must treat this as fatal, never as a no-op.
    UnknownOpcode { byte: u8, address: u16, prefixed: bool },
    /// A recognized instruction whose execution semantics are not written
    /// yet. This engine implements every instruction its decoder recognizes,
    /// so it never produces this; the class stays distinct from
    /// `UnknownOpcode` so callers can tell a decode failure from pending
    /// work.
    UnimplementedInstruction { byte: u8, address: u16, prefixed: bool },
}

/// The machine state a fresh engine starts from: everything zero, not
/// halted, interrupts not enabled.
pub open spec fn spec_initial_state() -> CpuState {
    CpuState {
        regs: Registers {
            a: 0,
            b: 0,
            c: 0,
            d: 0,
            e: 0,
            f: FlagRegister { zero: false, substraction: false, half_carry: false, carry: false },
            h: 0,
            l: 0,
            sp: 0,
            pc: 0,
        },
        mem: Seq::new(0x10000, |i: int| 0u8),
        halted: false,
        ime: false,
    }
}

/// What one `step` does: nothing when halted; otherwise fetch the byte at
/// PC (two bytes when the first is the prefix value), decode, and execute,
/// or report the unrecognized byte with the machine left untouched.
pub open spec fn spec_step(s: CpuState) -> Result<CpuState, StepError> {
    if s.halted {
        Ok(s)
    } else {
        let b0 = s.mem[s.regs.pc as int];
        if b0 == INSTRUCTION_PREFIX {
            let b1 = s.mem[wrap16(s.regs.pc + 1) as int];
            Ok(spec_exec(spec_from_byte_prefixed(b1), with_pc(s, wrap16(s.regs.pc + 2))))
        } else {
            match spec_from_byte_not_prefixed(b0) {
                Some(i) => Ok(spec_exec(i, with_pc(s, wrap16(s.regs.pc + 1)))),
                None => Err(
                    StepError::UnknownOpcode { byte: b0, address: s.regs.pc, prefixed: false },
                ),
            }
        }
    }
}

/// `base` plus a byte read as a signed 8-bit offset, wrapping.
fn add_signed_offset(base: u16, d: u8) -> (r: u16)
    ensures
        r == wrap16(base + signed8(d)),
{
    if d < 0x80 {
        proof {
            lemma_wrap16(base + d);
        }
        base.wrapping_add(d as u16)
    } else {
        proof {
            lemma_wrap16(base + d - 0x100);
        }
        base.wrapping_sub(0x100 - (d as u16))
    }
}

/// The 8-bit result of a rotate/shift.
fn rot_result(op: RotOp, v: u8, carry: bool) -> (r: u8)
    ensures
        r == spec_rot_result(op, v, carry),
{
    match op {
        RotOp::Rlc => (v << 1) | (v >> 7),
        RotOp::Rrc => (v >> 1) | (v << 7),
        RotOp::Rl => (v << 1) | (if carry {
            1u8
        } else {
            0u8
        }),
        RotOp::Rr => (v >> 1) | (if carry {
            0x80u8
        } else {
            0u8
        }),
        RotOp::Sla => v << 1,
        RotOp::Sra => (v >> 1) | (v & 0x80),
        RotOp::Swap => (v >> 4) | (v << 4),
        RotOp::Srl => v >> 1,
    }
}

/// The bit a rotate/shift moves into the carry flag.
fn rot_carry(op: RotOp, v: u8) -> (c: bool)
    ensures
        c == spec_rot_carry(op, v),
{
    match op {
        RotOp::Rlc => v & 0x80 == 0x80,
        RotOp::Rrc => v & 1 == 1,
        RotOp::Rl => v & 0x80 == 0x80,
        RotOp::Rr => v & 1 == 1,
        RotOp::Sla => v & 0x80 == 0x80,
        RotOp::Sra => v & 1 == 1,
        RotOp::Swap => false,
        RotOp::Srl => v & 1 == 1,
    }
}

impl R16 {
    /// The composite register this selector names.
    pub fn to_registers16b(self) -> (r: Registers16b)
        ensures
            r == spec_r16_view(self),
    {
        match self {
            R16::Bc => Registers16b::BC,
            R16::De => Registers16b::DE,
            R16::Hl => Registers16b::HL,
            R16::Sp => Registers16b::SP,
        }
    }
}

impl StackR16 {
    /// The composite register this selector names.
    pub fn to_registers16b(self) -> (r: Registers16b)
        ensures
            r == spec_stack_r16_view(self),
    {
        match self {
            StackR16::Bc => Registers16b::BC,
            StackR16::De => Registers16b::DE,
            StackR16::Hl => Registers16b::HL,
            StackR16::Af => Registers16b::AF,
        }
    }
}

/// The execution engine: a register file and a memory bus, stepped one
/// instruction at a time.
pub struct Cpu {
    pub registers: Registers,
    pub bus: MemoryBus,
    /// Set by Halt (and Stop); a halted engine stops advancing.
    pub halted: bool,
    /// The interrupt-enable intent recorded by Ei/Di/Reti. Interrupt
    /// delivery itself is outside this core.
    pub ime: bool,
}

impl View for Cpu {
    type V = CpuState;

    open spec fn view(&self) -> CpuState {
        CpuState { regs: self.registers, mem: self.bus@, halted: self.halted, ime: self.ime }
    }
}

impl Cpu {
    /// The bus holds a byte for every 16-bit address.
    pub open spec fn wf(&self) -> bool {
        self.bus.wf()
    }

    /// A fresh engine: zeroed registers over zeroed memory.
    pub fn new() -> (cpu: Cpu)
        ensures
            cpu.wf(),
            cpu@ == spec_initial_state(),
    {
        let cpu = Cpu {
            registers: Registers::default(),
            bus: MemoryBus::new(),
            halted: false,
            ime: false,
        };
        proof {
            assert(cpu@ =~= spec_initial_state());
        }
        cpu
    }

    /// Reads the byte at PC, then advances PC by 1, wrapping.
    pub fn read_next_byte(&mut self) -> (byte: u8)
        requires
            old(self).wf(),
        ensures
            final(self).wf(),
            byte == fetched_byte(old(self)@),
            final(self)@ == after_fetch8(old(self)@),
    {
        let byte = self.bus.read_byte(self.registers.pc);
        proof {
            lemma_wrap16(self.registers.pc + 1);
        }
        self.registers.pc = self.registers.pc.wrapping_add(1);
        proof {
            assert(self@ =~= after_fetch8(old(self)@));
        }
        byte
    }

    /// Reads the two bytes at PC combined little-endian (low byte first),
    /// advancing PC by 2, wrapping.
    pub fn read_next_2_bytes_le(&mut self) -> (word: u16)
        requires
            old(self).wf(),
        ensures
            final(self).wf(),
            word == fetched_word(old(self)@),
            final(self)@ == after_fetch16(old(self)@),
    {
        let ghost pc0 = self.registers.pc;
        let lo = self.bus.read_byte(self.registers.pc);
        proof {
            lemma_wrap16(pc0 + 1);
        }
        self.registers.pc = self.registers.pc.wrapping_add(1);
        let hi = self.bus.read_byte(self.registers.pc);
        proof {
            lemma_wrap16(pc0 + 2);
            lemma_wrap16(wrap16(pc0 + 1) + 1);
        }
        self.registers.pc = self.registers.pc.wrapping_add(1);
        proof {
            assert(self@ =~= after_fetch16(old(self)@));
        }
        ((hi as u16) << 8) | (lo as u16)
    }

    /// Whether a jump/call/return condition holds under the current flags.
    fn condition_holds(&self, cc: JumpCondition) -> (r: bool)
        ensures
            r == spec_condition_holds(cc, self.registers.f),
    {
        match cc {
            JumpCondition::Always => true,
            JumpCondition::Zero => self.registers.f.zero,
            JumpCondition::NotZero => !self.registers.f.zero,
            JumpCondition::Carry => self.registers.f.carry,
            JumpCondition::NotCarry => !self.registers.f.carry,
        }
    }

    /// Reads an 8-bit operand: a register, or the byte addressed by HL.
    fn get_operand(&self, r: R8) -> (v: u8)
        requires
            self.wf(),
        ensures
            v == get_r8(self@, r),
    {
        match r {
            R8::B => self.registers.b,
            R8::C => self.registers.c,
            R8::D => self.registers.d,
            R8::E => self.registers.e,
            R8::H => self.registers.h,
            R8::L => self.registers.l,
            R8::Hl => self.bus.read_byte(self.registers.get_16b_register(Registers16b::HL)),
            R8::A => self.registers.a,
        }
    }

    /// Writes an 8-bit operand: a register, or the byte addressed by HL.
    fn set_operand(&mut self, r: R8, v: u8)
        requires
            old(self).wf(),
        ensures
            final(self).wf(),
            final(self)@ == set_r8(old(self)@, r, v),
    {
        match r {
            R8::B => self.registers.b = v,
            R8::C => self.registers.c = v,
            R8::D => self.registers.d = v,
            R8::E => self.registers.e = v,
            R8::H => self.registers.h = v,
            R8::L => self.registers.l = v,
            R8::Hl => {
                let addr = self.registers.get_16b_register(Registers16b::HL);
                self.bus.write_byte(addr, v);
            },
            R8::A => self.registers.a = v,
        }
        proof {
            assert(self@ =~= set_r8(old(self)@, r, v));
        }
    }

    /// The address an indirect-addressing mode designates.
    fn indirect_addr(&self, m: IndirectR16) -> (addr: u16)
        ensures
            addr == spec_indirect_addr(self.registers, m),
    {
        match m {
            IndirectR16::Bc => self.registers.get_16b_register(Registers16b::BC),
            IndirectR16::De => self.registers.get_16b_register(Registers16b::DE),
            IndirectR16::Hli => self.registers.get_16b_register(Registers16b::HL),
            IndirectR16::Hld => self.registers.get_16b_register(Registers16b::HL),
        }
    }

    /// The post-increment or post-decrement of HL that the Hli/Hld
    /// addressing modes perform after the access.
    fn indirect_post(&mut self, m: IndirectR16)
        requires
            old(self).wf(),
        ensures
            final(self).wf(),
            final(self)@ == with_regs(old(self)@, spec_indirect_after(old(self).registers, m)),
    {
        match m {
            IndirectR16::Bc => {},
            IndirectR16::De => {},
            IndirectR16::Hli => {
                let hl = self.registers.get_16b_register(Registers16b::HL);
                proof {
                    lemma_wrap16(hl + 1);
                }
                self.registers.set_16b_register(Registers16b::HL, hl.wrapping_add(1));
            },
            IndirectR16::Hld => {
                let hl = self.registers.get_16b_register(Registers16b::HL);
                proof {
                    lemma_wrap16(hl - 1);
                }
                self.registers.set_16b_register(Registers16b::HL, hl.wrapping_sub(1));
            },
        }
        proof {
            assert(self@ =~= with_regs(old(self)@, spec_indirect_after(old(self).registers, m)));
        }
    }

    /// Pushes a word: SP decreases by 2 and the word is written at the new
    /// SP, low byte first.
    fn push_word(&mut self, w: u16)
        requires
            old(self).wf(),
        ensures
            final(self).wf(),
            final(self)@ == after_push(old(self)@, w),
    {
        proof {
            lemma_wrap16(self.registers.sp - 2);
        }
        let sp1 = self.registers.sp.wrapping_sub(2);
        self.registers.sp = sp1;
        self.bus.write_byte(sp1, (w & 0xff) as u8);
        proof {
            lemma_wrap16(sp1 + 1);
        }
        self.bus.write_byte(sp1.wrapping_add(1), (w >> 8) as u8);
        proof {
            assert(self@ =~= after_push(old(self)@, w));
        }
    }

    /// Pops a word from the stack: SP increases by 2.
    fn pop_word(&mut self) -> (w: u16)
        requires
            old(self).wf(),
        ensures
            final(self).wf(),
            w == popped_word(old(self)@),
            final(self)@ == after_pop(old(self)@),
    {
        let lo = self.bus.read_byte(self.registers.sp);
        proof {
            lemma_wrap16(self.registers.sp + 1);
            lemma_wrap16(self.registers.sp + 2);
        }
        let hi = self.bus.read_byte(self.registers.sp.wrapping_add(1));
        self.registers.sp = self.registers.sp.wrapping_add(2);
        proof {
            assert(self@ =~= after_pop(old(self)@));
        }
        ((hi as u16) << 8) | (lo as u16)
    }

    /// Adds a value to the accumulator, setting the four flags; the caller
    /// stores the returned 8-bit result.
    pub fn add(&mut self, value: u8) -> (result: u8)
        requires
            old(self).wf(),
        ensures
            final(self).wf(),
            result == spec_alu_result(
                AluOp::Add,
                old(self).registers.a,
                value,
                old(self).registers.f,
            ),
            final(self)@ == with_flags(
                old(self)@,
                spec_alu_flags(AluOp::Add, old(self).registers.a, value, old(self).registers.f),
            ),
    {
        let a = self.registers.a;
        let sum: u16 = a as u16 + value as u16;
        let result: u8 = (sum % 0x100) as u8;
        self.registers.f = FlagRegister {
            zero: result == 0,
            substraction: false,
            half_carry: ((a & 0xF) as u16) + ((value & 0xF) as u16) > 0xF,
            carry: sum > 0xFF,
        };
        proof {
            assert(self@ =~= with_flags(
                old(self)@,
                spec_alu_flags(AluOp::Add, a, value, old(self).registers.f),
            ));
        }
        result
    }

    /// Applies one of the eight accumulator operations, writing the result
    /// (the compare discards it) and the four flags.
    fn alu_apply(&mut self, op: AluOp, value: u8)
        requires
            old(self).wf(),
        ensures
            final(self).wf(),
            final(self)@ == with_flags(
                with_a(
                    old(self)@,
                    spec_alu_result(op, old(self).registers.a, value, old(self).registers.f),
                ),
                spec_alu_flags(op, old(self).registers.a, value, old(self).registers.f),
            ),
    {
        let a = self.registers.a;
        let f = self.registers.f;
        let ci: u16 = if f.carry {
            1
        } else {
            0
        };
        match op {
            AluOp::Add => {
                let sum: u16 = a as u16 + value as u16;
                self.registers.a = (sum % 0x100) as u8;
                self.registers.f = FlagRegister {
                    zero: sum % 0x100 == 0,
                    substraction: false,
                    half_carry: ((a & 0xF) as u16) + ((value & 0xF) as u16) > 0xF,
                    carry: sum > 0xFF,
                };
            },
            AluOp::Adc => {
                let sum: u16 = a as u16 + value as u16 + ci;
                self.registers.a = (sum % 0x100) as u8;
                self.registers.f = FlagRegister {
                    zero: sum % 0x100 == 0,
                    substraction: false,
                    half_carry: ((a & 0xF) as u16) + ((value & 0xF) as u16) + ci > 0xF,
                    carry: sum > 0xFF,
                };
            },
            AluOp::Sub => {
                proof {
                    lemma_wrap8(a - value);
                }
                let r: u8 = if a >= value {
                    a - value
                } else {
                    ((a as u16 + 0x100) - value as u16) as u8
                };
                self.registers.a = r;
                self.registers.f = FlagRegister {
                    zero: r == 0,
                    substraction: true,
                    half_carry: (a & 0xF) < (value & 0xF),
                    carry: a < value,
                };
            },
            AluOp::Sbc => {
                let total: u16 = value as u16 + ci;
                proof {
                    lemma_wrap8(a - value - ci);
                }
                let r: u8 = if a as u16 >= total {
                    (a as u16 - total) as u8
                } else {
                    ((a as u16 + 0x100) - total) as u8
                };
                self.registers.a = r;
                self.registers.f = FlagRegister {
                    zero: r == 0,
                    substraction: true,
                    half_carry: ((a & 0xF) as u16) < ((value & 0xF) as u16) + ci,
                    carry: (a as u16) < total,
                };
            },
            AluOp::And => {
                let r = a & value;
                self.registers.a = r;
                self.registers.f = FlagRegister {
                    zero: r == 0,
                    substraction: false,
                    half_carry: true,
                    carry: false,
                };
            },
            AluOp::Xor => {
                let r = a ^ value;
                self.registers.a = r;
                self.registers.f = FlagRegister {
                    zero: r == 0,
                    substraction: false,
                    half_carry: false,
                    carry: false,
                };
            },
            AluOp::Or => {
                let r = a | value;
                self.registers.a = r;
                self.registers.f = FlagRegister {
                    zero: r == 0,
                    substraction: false,
                    half_carry: false,
                    carry: false,
                };
            },
            AluOp::Cp => {
                proof {
                    lemma_wrap8(a - value);
                }
                let r: u8 = if a >= value {
                    a - value
                } else {
                    ((a as u16 + 0x100) - value as u16) as u8
                };
                self.registers.f = FlagRegister {
                    zero: r == 0,
                    substraction: true,
                    half_carry: (a & 0xF) < (value & 0xF),
                    carry: a < value,
                };
            },
        }
        proof {
            assert(self@ =~= with_flags(
                with_a(old(self)@, spec_alu_result(op, a, value, f)),
                spec_alu_flags(op, a, value, f),
            ));
        }
    }

    /// One of the accumulator-only rotates, which always clear Zero,
    /// Subtract and Half-Carry.
    fn acc_rot(&mut self, op: RotOp)
        requires
            old(self).wf(),
        ensures
            final(self).wf(),
            final(self)@ == spec_acc_rot(old(self)@, op),
    {
        let a = self.registers.a;
        let c0 = self.registers.f.carry;
        let r = rot_result(op, a, c0);
        let c = rot_carry(op, a);
        self.registers.a = r;
        self.registers.f = FlagRegister {
            zero: false,
            substraction: false,
            half_carry: false,
            carry: c,
        };
        proof {
            assert(self@ =~= spec_acc_rot(old(self)@, op));
        }
    }

    /// The decimal (BCD) adjust of the accumulator.
    fn daa(&mut self)
        requires
            old(self).wf(),
        ensures
            final(self).wf(),
            final(self)@ == with_flags(
                with_a(old(self)@, spec_daa_a(old(self).registers.a, old(self).registers.f)),
                spec_daa_flags(old(self).registers.a, old(self).registers.f),
            ),
    {
        let a = self.registers.a;
        let f = self.registers.f;
        if !f.substraction {
            let c1 = f.carry || a > 0x99;
            let a1: u8 = if c1 {
                proof {
                    lemma_wrap8(a + 0x60);
                }
                ((a as u16 + 0x60) % 0x100) as u8
            } else {
                a
            };
            let a2: u8 = if f.half_carry || (a & 0xF) > 9 {
                proof {
                    lemma_wrap8(a1 + 6);
                }
                ((a1 as u16 + 6) % 0x100) as u8
            } else {
                a1
            };
            self.registers.a = a2;
            self.registers.f = FlagRegister {
                zero: a2 == 0,
                substraction: f.substraction,
                half_carry: false,
                carry: c1,
            };
        } else {
            let a1: u8 = if f.carry {
                proof {
                    lemma_wrap8(a - 0x60);
                }
                if a >= 0x60 {
                    a - 0x60
                } else {
                    ((a as u16 + 0x100) - 0x60) as u8
                }
            } else {
                a
            };
            let a2: u8 = if f.half_carry {
                proof {
                    lemma_wrap8(a1 - 6);
                }
                if a1 >= 6 {
                    a1 - 6
                } else {
                    ((a1 as u16 + 0x100) - 6) as u8
                }
            } else {
                a1
            };
            self.registers.a = a2;
            self.registers.f = FlagRegister {
                zero: a2 == 0,
                substraction: f.substraction,
                half_carry: false,
                carry: f.carry,
            };
        }
        proof {
            assert(self@ =~= with_flags(
                with_a(old(self)@, spec_daa_a(a, f)),
                spec_daa_flags(a, f),
            ));
        }
    }

    /// Carries out one decoded instruction. `self` must already stand past
    /// the opcode byte(s): PC sits on the first operand byte, if any.
    pub fn execute(&mut self, instruction: Instruction)
        requires
            old(self).wf(),
            instruction.wf(),
        ensures
            final(self).wf(),
            final(self)@ == spec_exec(instruction, old(self)@),
    {
        match instruction {
            Instruction::Nop
            | Instruction::Stop
            | Instruction::Halt
            | Instruction::Di
            | Instruction::Ei
            | Instruction::Scf
            | Instruction::Ccf
            | Instruction::Cpl => self.exec_misc(instruction),
            Instruction::Load(_, _)
            | Instruction::LoadImm(_)
            | Instruction::LoadR16Imm(_)
            | Instruction::LoadIndirectFromA(_)
            | Instruction::LoadIndirectToA(_)
            | Instruction::LoadSpHl => self.exec_load(instruction),
            Instruction::StoreSpImm
            | Instruction::LdhImmA
            | Instruction::LdhAImm
            | Instruction::LdhCA
            | Instruction::LdhAC
            | Instruction::LdImmA
            | Instruction::LdAImm => self.exec_mem(instruction),
            Instruction::Alu(_, _)
            | Instruction::AluImm(_)
            | Instruction::Inc(_)
            | Instruction::Dec(_)
            | Instruction::Daa => self.exec_arith8(instruction),
            Instruction::AddHl(_)
            | Instruction::IncR16(_)
            | Instruction::DecR16(_)
            | Instruction::AddSpImm
            | Instruction::LoadHlSpImm => self.exec_arith16(instruction),
            Instruction::Rlca
            | Instruction::Rrca
            | Instruction::Rla
            | Instruction::Rra
            | Instruction::Rot(_, _)
            | Instruction::BitTest(_, _)
            | Instruction::ResetBit(_, _)
            | Instruction::SetBit(_, _) => self.exec_rot_bit(instruction),
            Instruction::Jr(_)
            | Instruction::Jp(_)
            | Instruction::JpHl
            | Instruction::Call(_)
            | Instruction::Ret(_)
            | Instruction::Reti => self.exec_control(instruction),
            Instruction::Push(_) | Instruction::Pop(_) | Instruction::Rst(_) => self.exec_stack(
                instruction,
            ),
        }
    }

    /// Halt/stop, interrupt intent, and the flag-only operations.
    fn exec_misc(&mut self, instruction: Instruction)
        requires
            old(self).wf(),
            instruction is Nop || instruction is Stop || instruction is Halt || instruction is Di
                || instruction is Ei || instruction is Scf || instruction is Ccf
                || instruction is Cpl,
        ensures
            final(self).wf(),
            final(self)@ == spec_exec(instruction, old(self)@),
    {
        match instruction {
            Instruction::Nop => {},
            Instruction::Stop => {
                self.halted = true;
            },
            Instruction::Halt => {
                self.halted = true;
            },
            Instruction::Di => {
                self.ime = false;
            },
            Instruction::Ei => {
                self.ime = true;
            },
            Instruction::Scf => {
                self.registers.f = FlagRegister {
                    zero: self.registers.f.zero,
                    substraction: false,
                    half_carry: false,
                    carry: true,
                };
            },
            Instruction::Ccf => {
                self.registers.f = FlagRegister {
                    zero: self.registers.f.zero,
                    substraction: false,
                    half_carry: false,
                    carry: !self.registers.f.carry,
                };
            },
            Instruction::Cpl => {
                self.registers.a = !self.registers.a;
                self.registers.f = FlagRegister {
                    zero: self.registers.f.zero,
                    substraction: true,
                    half_carry: true,
                    carry: self.registers.f.carry,
                };
            },
            _ => {},
        }
        proof {
            assert(self@ =~= spec_exec(instruction, old(self)@));
        }
    }

    /// The load family: register/immediate/indirect copies, no flag effect.
    fn exec_load(&mut self, instruction: Instruction)
        requires
            old(self).wf(),
            instruction is Load || instruction is LoadImm || instruction is LoadR16Imm
                || instruction is LoadIndirectFromA || instruction is LoadIndirectToA
                || instruction is LoadSpHl,
        ensures
            final(self).wf(),
            final(self)@ == spec_exec(instruction, old(self)@),
    {
        match instruction {
            Instruction::Load(d, src) => {
                let v = self.get_operand(src);
                self.set_operand(d, v);
            },
            Instruction::LoadImm(d) => {
                let v = self.read_next_byte();
                self.set_operand(d, v);
            },
            Instruction::LoadR16Imm(rp) => {
                let v = self.read_next_2_bytes_le();
                let reg = rp.to_registers16b();
                self.registers.set_16b_register(reg, v);
            },
            Instruction::LoadIndirectFromA(m) => {
                let addr = self.indirect_addr(m);
                self.bus.write_byte(addr, self.registers.a);
                self.indirect_post(m);
            },
            Instruction::LoadIndirectToA(m) => {
                let addr = self.indirect_addr(m);
                self.registers.a = self.bus.read_byte(addr);
                self.indirect_post(m);
            },
            Instruction::LoadSpHl => {
                let hl = self.registers.get_16b_register(Registers16b::HL);
                self.registers.sp = hl;
            },
            _ => {},
        }
        proof {
            assert(self@ =~= spec_exec(instruction, old(self)@));
        }
    }

    /// Accumulator/SP transfers against immediate or offset addresses.
    fn exec_mem(&mut self, instruction: Instruction)
        requires
            old(self).wf(),
            instruction is StoreSpImm || instruction is LdhImmA || instruction is LdhAImm
                || instruction is LdhCA || instruction is LdhAC || instruction is LdImmA
                || instruction is LdAImm,
        ensures
            final(self).wf(),
            final(self)@ == spec_exec(instruction, old(self)@),
    {
        match instruction {
            Instruction::StoreSpImm => {
                let addr = self.read_next_2_bytes_le();
                let sp = self.registers.sp;
                self.bus.write_byte(addr, (sp & 0xff) as u8);
                proof {
                    lemma_wrap16(addr + 1);
                }
                self.bus.write_byte(addr.wrapping_add(1), (sp >> 8) as u8);
            },
            Instruction::LdhImmA => {
                let n = self.read_next_byte();
                self.bus.write_byte(0xFF00 + n as u16, self.registers.a);
            },
            Instruction::LdhAImm => {
                let n = self.read_next_byte();
                self.registers.a = self.bus.read_byte(0xFF00 + n as u16);
            },
            Instruction::LdhCA => {
                let addr = 0xFF00 + self.registers.c as u16;
                self.bus.write_byte(addr, self.registers.a);
            },
            Instruction::LdhAC => {
                let addr = 0xFF00 + self.registers.c as u16;
                self.registers.a = self.bus.read_byte(addr);
            },
            Instruction::LdImmA => {
                let addr = self.read_next_2_bytes_le();
                self.bus.write_byte(addr, self.registers.a);
            },
            Instruction::LdAImm => {
                let addr = self.read_next_2_bytes_le();
                self.registers.a = self.bus.read_byte(addr);
            },
            _ => {},
        }
        proof {
            assert(self@ =~= spec_exec(instruction, old(self)@));
        }
    }

    /// The 8-bit arithmetic family: the eight accumulator operations,
    /// increment/decrement, and the decimal adjust.
    fn exec_arith8(&mut self, instruction: Instruction)
        requires
            old(self).wf(),
            instruction is Alu || instruction is AluImm || instruction is Inc
                || instruction is Dec || instruction is Daa,
        ensures
            final(self).wf(),
            final(self)@ == spec_exec(instruction, old(self)@),
    {
        match instruction {
            Instruction::Alu(op, r) => {
                let v = self.get_operand(r);
                self.alu_apply(op, v);
            },
            Instruction::AluImm(op) => {
                let v = self.read_next_byte();
                self.alu_apply(op, v);
            },
            Instruction::Inc(r) => {
                let v = self.get_operand(r);
                let nv = ((v as u16 + 1) % 0x100) as u8;
                self.set_operand(r, nv);
                self.registers.f = FlagRegister {
                    zero: nv == 0,
                    substraction: false,
                    half_carry: v & 0xF == 0xF,
                    carry: self.registers.f.carry,
                };
            },
            Instruction::Dec(r) => {
                let v = self.get_operand(r);
                proof {
                    lemma_wrap8(v - 1);
                }
                let nv: u8 = if v == 0 {
                    0xFF
                } else {
                    v - 1
                };
                self.set_operand(r, nv);
                self.registers.f = FlagRegister {
                    zero: nv == 0,
                    substraction: true,
                    half_carry: v & 0xF == 0,
                    carry: self.registers.f.carry,
                };
            },
            Instruction::Daa => self.daa(),
            _ => {},
        }
        proof {
            assert(self@ =~= spec_exec(instruction, old(self)@));
        }
    }

    /// The 16-bit arithmetic family: add-to-HL, register-pair
    /// increment/decrement, and the signed stack-pointer additions.
    fn exec_arith16(&mut self, instruction: Instruction)
        requires
            old(self).wf(),
            instruction is AddHl || instruction is IncR16 || instruction is DecR16
                || instruction is AddSpImm || instruction is LoadHlSpImm,
        ensures
            final(self).wf(),
            final(self)@ == spec_exec(instruction, old(self)@),
    {
        match instruction {
            Instruction::AddHl(rp) => {
                let hl = self.registers.get_16b_register(Registers16b::HL);
                let reg = rp.to_registers16b();
                let v = self.registers.get_16b_register(reg);
                let sum: u32 = hl as u32 + v as u32;
                let r = (sum % 0x10000) as u16;
                self.registers.set_16b_register(Registers16b::HL, r);
                self.registers.f = FlagRegister {
                    zero: self.registers.f.zero,
                    substraction: false,
                    half_carry: ((hl & 0xFFF) as u32) + ((v & 0xFFF) as u32) > 0xFFF,
                    carry: sum > 0xFFFF,
                };
            },
            Instruction::IncR16(rp) => {
                let reg = rp.to_registers16b();
                let v = self.registers.get_16b_register(reg);
                proof {
                    lemma_wrap16(v + 1);
                }
                self.registers.set_16b_register(reg, v.wrapping_add(1));
            },
            Instruction::DecR16(rp) => {
                let reg = rp.to_registers16b();
                let v = self.registers.get_16b_register(reg);
                proof {
                    lemma_wrap16(v - 1);
                }
                self.registers.set_16b_register(reg, v.wrapping_sub(1));
            },
            Instruction::AddSpImm => {
                let sp = self.registers.sp;
                let d = self.read_next_byte();
                let r = add_signed_offset(sp, d);
                self.registers.sp = r;
                self.registers.f = FlagRegister {
                    zero: false,
                    substraction: false,
                    half_carry: ((sp & 0xF) as u32) + ((d & 0xF) as u32) > 0xF,
                    carry: ((sp & 0xFF) as u32) + (d as u32) > 0xFF,
                };
            },
            Instruction::LoadHlSpImm => {
                let sp = self.registers.sp;
                let d = self.read_next_byte();
                let r = add_signed_offset(sp, d);
                self.registers.set_16b_register(Registers16b::HL, r);
                self.registers.f = FlagRegister {
                    zero: false,
                    substraction: false,
                    half_carry: ((sp & 0xF) as u32) + ((d & 0xF) as u32) > 0xF,
                    carry: ((sp & 0xFF) as u32) + (d as u32) > 0xFF,
                };
            },
            _ => {},
        }
        proof {
            assert(self@ =~= spec_exec(instruction, old(self)@));
        }
    }

    /// The rotate/shift and bit-test/reset/set families.
    fn exec_rot_bit(&mut self, instruction: Instruction)
        requires
            old(self).wf(),
            instruction.wf(),
            instruction is Rlca || instruction is Rrca || instruction is Rla
                || instruction is Rra || instruction is Rot || instruction is BitTest
                || instruction is ResetBit || instruction is SetBit,
        ensures
            final(self).wf(),
            final(self)@ == spec_exec(instruction, old(self)@),
    {
        match instruction {
            Instruction::Rlca => self.acc_rot(RotOp::Rlc),
            Instruction::Rrca => self.acc_rot(RotOp::Rrc),
            Instruction::Rla => self.acc_rot(RotOp::Rl),
            Instruction::Rra => self.acc_rot(RotOp::Rr),
            Instruction::Rot(op, r) => {
                let v = self.get_operand(r);
                let c0 = self.registers.f.carry;
                let res = rot_result(op, v, c0);
                let c = rot_carry(op, v);
                self.set_operand(r, res);
                self.registers.f = FlagRegister {
                    zero: res == 0,
                    substraction: false,
                    half_carry: false,
                    carry: c,
                };
            },
            Instruction::BitTest(b, r) => {
                let v = self.get_operand(r);
                self.registers.f = FlagRegister {
                    zero: (v >> b) & 1 == 0,
                    substraction: false,
                    half_carry: true,
                    carry: self.registers.f.carry,
                };
            },
            Instruction::ResetBit(b, r) => {
                let v = self.get_operand(r);
                self.set_operand(r, v & !(1u8 << b));
            },
            Instruction::SetBit(b, r) => {
                let v = self.get_operand(r);
                self.set_operand(r, v | (1u8 << b));
            },
            _ => {},
        }
        proof {
            assert(self@ =~= spec_exec(instruction, old(self)@));
        }
    }

    /// The control-flow family: relative and absolute jumps, calls and
    /// returns.
    fn exec_control(&mut self, instruction: Instruction)
        requires
            old(self).wf(),
            instruction is Jr || instruction is Jp || instruction is JpHl
                || instruction is Call || instruction is Ret || instruction is Reti,
        ensures
            final(self).wf(),
            final(self)@ == spec_exec(instruction, old(self)@),
    {
        match instruction {
            Instruction::Jr(cc) => {
                let d = self.read_next_byte();
                if self.condition_holds(cc) {
                    let t = add_signed_offset(self.registers.pc, d);
                    self.registers.pc = t;
                }
            },
            Instruction::Jp(cc) => {
                let t = self.read_next_2_bytes_le();
                if self.condition_holds(cc) {
                    self.registers.pc = t;
                }
            },
            Instruction::JpHl => {
                let hl = self.registers.get_16b_register(Registers16b::HL);
                self.registers.pc = hl;
            },
            Instruction::Call(cc) => {
                let t = self.read_next_2_bytes_le();
                if self.condition_holds(cc) {
                    let ret = self.registers.pc;
                    self.push_word(ret);
                    self.registers.pc = t;
                }
            },
            Instruction::Ret(cc) => {
                if self.condition_holds(cc) {
                    let t = self.pop_word();
                    self.registers.pc = t;
                }
            },
            Instruction::Reti => {
                let t = self.pop_word();
                self.registers.pc = t;
                self.ime = true;
            },
            _ => {},
        }
        proof {
            assert(self@ =~= spec_exec(instruction, old(self)@));
        }
    }

    /// The stack family: push/pop of register pairs and the fixed-vector
    /// restart call.
    fn exec_stack(&mut self, instruction: Instruction)
        requires
            old(self).wf(),
            instruction is Push || instruction is Pop || instruction is Rst,
        ensures
            final(self).wf(),
            final(self)@ == spec_exec(instruction, old(self)@),
    {
        match instruction {
            Instruction::Push(rp) => {
                let reg = rp.to_registers16b();
                let v = self.registers.get_16b_register(reg);
                self.push_word(v);
            },
            Instruction::Pop(rp) => {
                let v = self.pop_word();
                let reg = rp.to_registers16b();
                self.registers.set_16b_register(reg, v);
            },
            Instruction::Rst(v) => {
                let ret = self.registers.pc;
                self.push_word(ret);
                self.registers.pc = v as u16;
            },
            _ => {},
        }
        proof {
            assert(self@ =~= spec_exec(instruction, old(self)@));
        }
    }

    /// One fetch/decode/execute step. A halted engine does nothing. An
    /// unrecognized opcode is reported with its byte and address, and the
    /// machine is left exactly as it was.
    pub fn step(&mut self) -> (r: Result<(), StepError>)
        requires
            old(self).wf(),
        ensures
            final(self).wf(),
            match r {
                Ok(_) => spec_step(old(self)@) == Ok::<CpuState, StepError>(final(self)@),
                Err(e) => final(self)@ == old(self)@ && spec_step(old(self)@) == Err::<
                    CpuState,
                    StepError,
                >(e),
            },
    {
        if self.halted {
            return Ok(());
        }
        let pc = self.registers.pc;
        let b0 = self.bus.read_byte(pc);
        if b0 == INSTRUCTION_PREFIX {
            proof {
                lemma_wrap16(pc + 1);
                lemma_wrap16(pc + 2);
            }
            let b1 = self.bus.read_byte(pc.wrapping_add(1));
            match Instruction::from_byte(b1, true) {
                Some(instruction) => {
                    self.registers.pc = pc.wrapping_add(2);
                    proof {
                        assert(self@ =~= with_pc(old(self)@, wrap16(pc + 2)));
                    }
                    self.execute(instruction);
                    Ok(())
                },
                // The prefixed table is total, so this arm cannot be reached.
                None => Ok(()),
            }
        } else {
            match Instruction::from_byte(b0, false) {
                Some(instruction) => {
                    proof {
                        lemma_wrap16(pc + 1);
                    }
                    self.registers.pc = pc.wrapping_add(1);
                    proof {
                        assert(self@ =~= with_pc(old(self)@, wrap16(pc + 1)));
                    }
                    self.execute(instruction);
                    Ok(())
                },
                None => Err(StepError::UnknownOpcode { byte: b0, address: pc, prefixed: false }),
            }
        }
    }
}

impl Default for Cpu {
    /// A fresh engine: zeroed registers over zeroed memory.
    fn default() -> (cpu: Cpu)
        ensures
            cpu.wf(),
            cpu@ == spec_initial_state(),
    {
        Cpu::new()
    }
}

} // verus!
