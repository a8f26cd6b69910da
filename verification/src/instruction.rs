//! The opcode decoder: a pure, total function from a raw byte (and a prefix
//! flag) to a typed instruction or "unrecognized".
//!
//! Decoding follows the standard bit-field decomposition for this CPU family:
//! the byte splits into `x` (bits 7..6), `y` (bits 5..3), `z` (bits 2..0),
//! with `p = y >> 1` and `q = y & 1`, and two independent tables are keyed on
//! those fields, one for unprefixed bytes and one for bytes that follow the
//! reserved prefix value.

use vstd::prelude::*;

verus! {

/// The reserved opcode value that selects the prefixed decode table for the
/// byte that follows it.
pub const INSTRUCTION_PREFIX: u8 = 0xcb;

/// An 8-bit operand selector: one of the seven 8-bit registers, or the byte
/// in memory addressed by HL.
#[derive(Clone, Copy, Debug, PartialEq, Eq, Structural)]
pub enum R8 {
    B,
    C,
    D,
    E,
    H,
    L,
    Hl,
    A,
}

/// A 16-bit register-pair selector for loads, 16-bit arithmetic and
/// increment/decrement.
#[derive(Clone, Copy, Debug, PartialEq, Eq, Structural)]
pub enum R16 {
    Bc,
    De,
    Hl,
    Sp,
}

/// A 16-bit register-pair selector for push/pop, where slot 3 is AF instead
/// of SP.
#[derive(Clone, Copy, Debug, PartialEq, Eq, Structural)]
pub enum StackR16 {
    Bc,
    De,
    Hl,
    Af,
}

/// An indirect-addressing mode through a register pair: through BC, through
/// DE, or through HL with post-increment or post-decrement of HL.
#[derive(Clone, Copy, Debug, PartialEq, Eq, Structural)]
pub enum IndirectR16 {
    Bc,
    De,
    Hli,
    Hld,
}

/// A condition for jumps, calls and returns, evaluated against the flags.
#[derive(Clone, Copy, Debug, PartialEq, Eq, Structural)]
pub enum JumpCondition {
    NotZero,
    Zero,
    NotCarry,
    Carry,
    Always,
}

/// The eight-way accumulator operation family.
#[derive(Clone, Copy, Debug, PartialEq, Eq, Structural)]
pub enum AluOp {
    Add,
    Adc,
    Sub,
    Sbc,
    And,
    Xor,
    Or,
    Cp,
}

/// The eight-way rotate/shift family of the prefixed table.
#[derive(Clone, Copy, Debug, PartialEq, Eq, Structural)]
pub enum RotOp {
    Rlc,
    Rrc,
    Rl,
    Rr,
    Sla,
    Sra,
    Swap,
    Srl,
}

/// One decoded instruction. Each variant carries only the operand selectors
/// it needs; immediate operand bytes are fetched by the execution engine.
#[derive(Clone, Copy, Debug, PartialEq, Eq, Structural)]
pub enum Instruction {
    Nop,
    Stop,
    Halt,
    /// Disable interrupts.
    Di,
    /// Enable interrupts.
    Ei,
    /// LD r, r: copy between 8-bit operands (destination, source).
    Load(R8, R8),
    /// LD r, n: load an 8-bit immediate.
    LoadImm(R8),
    /// LD rp, nn: load a 16-bit immediate.
    LoadR16Imm(R16),
    /// LD (rp), A with the given addressing mode.
    LoadIndirectFromA(IndirectR16),
    /// LD A, (rp) with the given addressing mode.
    LoadIndirectToA(IndirectR16),
    /// LD (nn), SP: store the stack pointer at an immediate address.
    StoreSpImm,
    /// LD SP, HL.
    LoadSpHl,
    /// LD HL, SP + d: HL from the stack pointer plus a signed immediate.
    LoadHlSpImm,
    /// ADD SP, d: stack pointer plus a signed immediate.
    AddSpImm,
    /// ADD HL, rp.
    AddHl(R16),
    IncR16(R16),
    DecR16(R16),
    Inc(R8),
    Dec(R8),
    /// One of the eight accumulator operations against an 8-bit operand.
    Alu(AluOp, R8),
    /// One of the eight accumulator operations against an immediate byte.
    AluImm(AluOp),
    /// Accumulator-only rotates: circular left/right, through-carry left/right.
    Rlca,
    Rrca,
    Rla,
    Rra,
    /// Decimal (BCD) adjust of the accumulator.
    Daa,
    /// Complement the accumulator.
    Cpl,
    /// Set the carry flag.
    Scf,
    /// Complement the carry flag.
    Ccf,
    /// JR cc, d: relative jump by a signed immediate.
    Jr(JumpCondition),
    /// JP cc, nn: absolute jump to an immediate address.
    Jp(JumpCondition),
    /// JP HL.
    JpHl,
    /// CALL cc, nn.
    Call(JumpCondition),
    /// RET cc.
    Ret(JumpCondition),
    /// Return and enable interrupts.
    Reti,
    Push(StackR16),
    Pop(StackR16),
    /// RST: call to the fixed vector `y * 8`.
    Rst(u8),
    /// A rotate/shift of the prefixed table on an 8-bit operand.
    Rot(RotOp, R8),
    /// BIT y, r: test the given bit of an 8-bit operand.
    BitTest(u8, R8),
    /// RES y, r: reset the given bit of an 8-bit operand.
    ResetBit(u8, R8),
    /// SET y, r: set the given bit of an 8-bit operand.
    SetBit(u8, R8),
    /// LDH (n), A: store A at 0xFF00 + immediate offset.
    LdhImmA,
    /// LDH A, (n): load A from 0xFF00 + immediate offset.
    LdhAImm,
    /// LD (0xFF00 + C), A.
    LdhCA,
    /// LD A, (0xFF00 + C).
    LdhAC,
    /// LD (nn), A: store A at an immediate address.
    LdImmA,
    /// LD A, (nn): load A from an immediate address.
    LdAImm,
}

/// The 8-bit operand selector encoded by a 3-bit field.
pub open spec fn spec_r8(v: u8) -> R8 {
    if v == 0 {
        R8::B
    } else if v == 1 {
        R8::C
    } else if v == 2 {
        R8::D
    } else if v == 3 {
        R8::E
    } else if v == 4 {
        R8::H
    } else if v == 5 {
        R8::L
    } else if v == 6 {
        R8::Hl
    } else {
        R8::A
    }
}

/// The register-pair selector encoded by a 2-bit field.
pub open spec fn spec_r16(v: u8) -> R16 {
    if v == 0 {
        R16::Bc
    } else if v == 1 {
        R16::De
    } else if v == 2 {
        R16::Hl
    } else {
        R16::Sp
    }
}

/// The stack register-pair selector encoded by a 2-bit field.
pub open spec fn spec_stack_r16(v: u8) -> StackR16 {
    if v == 0 {
        StackR16::Bc
    } else if v == 1 {
        StackR16::De
    } else if v == 2 {
        StackR16::Hl
    } else {
        StackR16::Af
    }
}

/// The indirect-addressing mode encoded by a 2-bit field.
pub open spec fn spec_indirect_r16(v: u8) -> IndirectR16 {
    if v == 0 {
        IndirectR16::Bc
    } else if v == 1 {
        IndirectR16::De
    } else if v == 2 {
        IndirectR16::Hli
    } else {
        IndirectR16::Hld
    }
}

/// The jump condition encoded by a 2-bit field (the unconditional form is
/// selected by the table, never by this field).
pub open spec fn spec_condition(v: u8) -> JumpCondition {
    if v == 0 {
        JumpCondition::NotZero
    } else if v == 1 {
        JumpCondition::Zero
    } else if v == 2 {
        JumpCondition::NotCarry
    } else {
        JumpCondition::Carry
    }
}

/// The accumulator operation encoded by a 3-bit field.
pub open spec fn spec_alu_op(v: u8) -> AluOp {
    if v == 0 {
        AluOp::Add
    } else if v == 1 {
        AluOp::Adc
    } else if v == 2 {
        AluOp::Sub
    } else if v == 3 {
        AluOp::Sbc
    } else if v == 4 {
        AluOp::And
    } else if v == 5 {
        AluOp::Xor
    } else if v == 6 {
        AluOp::Or
    } else {
        AluOp::Cp
    }
}

/// The rotate/shift operation encoded by a 3-bit field.
pub open spec fn spec_rot_op(v: u8) -> RotOp {
    if v == 0 {
        RotOp::Rlc
    } else if v == 1 {
        RotOp::Rrc
    } else if v == 2 {
        RotOp::Rl
    } else if v == 3 {
        RotOp::Rr
    } else if v == 4 {
        RotOp::Sla
    } else if v == 5 {
        RotOp::Sra
    } else if v == 6 {
        RotOp::Swap
    } else {
        RotOp::Srl
    }
}

impl R8 {
    /// The 8-bit operand selector for a 3-bit field value.
    pub fn from_bits(v: u8) -> (r: R8)
        requires
            v < 8,
        ensures
            r == spec_r8(v),
    {
        if v == 0 {
            R8::B
        } else if v == 1 {
            R8::C
        } else if v == 2 {
            R8::D
        } else if v == 3 {
            R8::E
        } else if v == 4 {
            R8::H
        } else if v == 5 {
            R8::L
        } else if v == 6 {
            R8::Hl
        } else {
            R8::A
        }
    }
}

impl R16 {
    /// The register-pair selector for a 2-bit field value.
    pub fn from_bits(v: u8) -> (r: R16)
        requires
            v < 4,
        ensures
            r == spec_r16(v),
    {
        if v == 0 {
            R16::Bc
        } else if v == 1 {
            R16::De
        } else if v == 2 {
            R16::Hl
        } else {
            R16::Sp
        }
    }
}

impl StackR16 {
    /// The stack register-pair selector for a 2-bit field value.
    pub fn from_bits(v: u8) -> (r: StackR16)
        requires
            v < 4,
        ensures
            r == spec_stack_r16(v),
    {
        if v == 0 {
            StackR16::Bc
        } else if v == 1 {
            StackR16::De
        } else if v == 2 {
            StackR16::Hl
        } else {
            StackR16::Af
        }
    }
}

impl IndirectR16 {
    /// The indirect-addressing mode for a 2-bit field value.
    pub fn from_bits(v: u8) -> (r: IndirectR16)
        requires
            v < 4,
        ensures
            r == spec_indirect_r16(v),
    {
        if v == 0 {
            IndirectR16::Bc
        } else if v == 1 {
            IndirectR16::De
        } else if v == 2 {
            IndirectR16::Hli
        } else {
            IndirectR16::Hld
        }
    }
}

impl JumpCondition {
    /// The jump condition for a 2-bit field value.
    pub fn from_bits(v: u8) -> (r: JumpCondition)
        requires
            v < 4,
        ensures
            r == spec_condition(v),
    {
        if v == 0 {
            JumpCondition::NotZero
        } else if v == 1 {
            JumpCondition::Zero
        } else if v == 2 {
            JumpCondition::NotCarry
        } else {
            JumpCondition::Carry
        }
    }
}

impl AluOp {
    /// The accumulator operation for a 3-bit field value.
    pub fn from_bits(v: u8) -> (r: AluOp)
        requires
            v < 8,
        ensures
            r == spec_alu_op(v),
    {
        if v == 0 {
            AluOp::Add
        } else if v == 1 {
            AluOp::Adc
        } else if v == 2 {
            AluOp::Sub
        } else if v == 3 {
            AluOp::Sbc
        } else if v == 4 {
            AluOp::And
        } else if v == 5 {
            AluOp::Xor
        } else if v == 6 {
            AluOp::Or
        } else {
            AluOp::Cp
        }
    }
}

impl RotOp {
    /// The rotate/shift operation for a 3-bit field value.
    pub fn from_bits(v: u8) -> (r: RotOp)
        requires
            v < 8,
        ensures
            r == spec_rot_op(v),
    {
        if v == 0 {
            RotOp::Rlc
        } else if v == 1 {
            RotOp::Rrc
        } else if v == 2 {
            RotOp::Rl
        } else if v == 3 {
            RotOp::Rr
        } else if v == 4 {
            RotOp::Sla
        } else if v == 5 {
            RotOp::Sra
        } else if v == 6 {
            RotOp::Swap
        } else {
            RotOp::Srl
        }
    }
}

impl Instruction {
    /// The operand selectors carried by an instruction are in range: bit
    /// indices are 0..7 and restart vectors are multiples of 8 below 0x40.
    /// Every instruction the decoder yields satisfies this.
    pub open spec fn wf(self) -> bool {
        match self {
            Instruction::BitTest(b, _) => b < 8,
            Instruction::ResetBit(b, _) => b < 8,
            Instruction::SetBit(b, _) => b < 8,
            Instruction::Rst(v) => v < 0x40 && v % 8 == 0,
            _ => true,
        }
    }
}

/// The prefixed decode table, keyed on the byte that follows the prefix
/// value. It is total: every byte encodes an instruction.
pub open spec fn spec_from_byte_prefixed(byte: u8) -> Instruction {
    let x = byte / 64;
    let y = (byte / 8) % 8;
    let z = byte % 8;
    if x == 0 {
        Instruction::Rot(spec_rot_op(y), spec_r8(z))
    } else if x == 1 {
        Instruction::BitTest(y, spec_r8(z))
    } else if x == 2 {
        Instruction::ResetBit(y, spec_r8(z))
    } else {
        Instruction::SetBit(y, spec_r8(z))
    }
}

/// The unprefixed decode table. Bytes not enumerated by the table decode to
/// `None`, never silently to a wrong instruction; the reserved prefix value
/// itself carries no unprefixed meaning and also decodes to `None`.
pub open spec fn spec_from_byte_not_prefixed(byte: u8) -> Option<Instruction> {
    let x = byte / 64;
    let y = (byte / 8) % 8;
    let z = byte % 8;
    let p = y / 2;
    let q = y % 2;
    if x == 0 {
        if z == 0 {
            if y == 0 {
                Some(Instruction::Nop)
            } else if y == 1 {
                Some(Instruction::StoreSpImm)
            } else if y == 2 {
                Some(Instruction::Stop)
            } else if y == 3 {
                Some(Instruction::Jr(JumpCondition::Always))
            } else {
                Some(Instruction::Jr(spec_condition((y - 4) as u8)))
            }
        } else if z == 1 {
            if q == 0 {
                Some(Instruction::LoadR16Imm(spec_r16(p)))
            } else {
                Some(Instruction::AddHl(spec_r16(p)))
            }
        } else if z == 2 {
            if q == 0 {
                Some(Instruction::LoadIndirectFromA(spec_indirect_r16(p)))
            } else {
                Some(Instruction::LoadIndirectToA(spec_indirect_r16(p)))
            }
        } else if z == 3 {
            if q == 0 {
                Some(Instruction::IncR16(spec_r16(p)))
            } else {
                Some(Instruction::DecR16(spec_r16(p)))
            }
        } else if z == 4 {
            Some(Instruction::Inc(spec_r8(y)))
        } else if z == 5 {
            Some(Instruction::Dec(spec_r8(y)))
        } else if z == 6 {
            Some(Instruction::LoadImm(spec_r8(y)))
        } else {
            if y == 0 {
                Some(Instruction::Rlca)
            } else if y == 1 {
                Some(Instruction::Rrca)
            } else if y == 2 {
                Some(Instruction::Rla)
            } else if y == 3 {
                Some(Instruction::Rra)
            } else if y == 4 {
                Some(Instruction::Daa)
            } else if y == 5 {
                Some(Instruction::Cpl)
            } else if y == 6 {
                Some(Instruction::Scf)
            } else {
                Some(Instruction::Ccf)
            }
        }
    } else if x == 1 {
        if z == 6 && y == 6 {
            Some(Instruction::Halt)
        } else {
            Some(Instruction::Load(spec_r8(y), spec_r8(z)))
        }
    } else if x == 2 {
        Some(Instruction::Alu(spec_alu_op(y), spec_r8(z)))
    } else {
        if z == 0 {
            if y <= 3 {
                Some(Instruction::Ret(spec_condition(y)))
            } else if y == 4 {
                Some(Instruction::LdhImmA)
            } else if y == 5 {
                Some(Instruction::AddSpImm)
            } else if y == 6 {
                Some(Instruction::LdhAImm)
            } else {
                Some(Instruction::LoadHlSpImm)
            }
        } else if z == 1 {
            if q == 0 {
                Some(Instruction::Pop(spec_stack_r16(p)))
            } else if p == 0 {
                Some(Instruction::Ret(JumpCondition::Always))
            } else if p == 1 {
                Some(Instruction::Reti)
            } else if p == 2 {
                Some(Instruction::JpHl)
            } else {
                Some(Instruction::LoadSpHl)
            }
        } else if z == 2 {
            if y <= 3 {
                Some(Instruction::Jp(spec_condition(y)))
            } else if y == 4 {
                Some(Instruction::LdhCA)
            } else if y == 5 {
                Some(Instruction::LdImmA)
            } else if y == 6 {
                Some(Instruction::LdhAC)
            } else {
                Some(Instruction::LdAImm)
            }
        } else if z == 3 {
            if y == 0 {
                Some(Instruction::Jp(JumpCondition::Always))
            } else if y == 6 {
                Some(Instruction::Di)
            } else if y == 7 {
                Some(Instruction::Ei)
            } else {
                None
            }
        } else if z == 4 {
            if y <= 3 {
                Some(Instruction::Call(spec_condition(y)))
            } else {
                None
            }
        } else if z == 5 {
            if q == 0 {
                Some(Instruction::Push(spec_stack_r16(p)))
            } else if p == 0 {
                Some(Instruction::Call(JumpCondition::Always))
            } else {
                None
            }
        } else if z == 6 {
            Some(Instruction::AluImm(spec_alu_op(y)))
        } else {
            Some(Instruction::Rst((y * 8) as u8))
        }
    }
}

/// What `Instruction::from_byte` decodes: the prefixed table (always defined)
/// or the unprefixed one (partial).
pub open spec fn spec_from_byte(byte: u8, prefixed: bool) -> Option<Instruction> {
    if prefixed {
        Some(spec_from_byte_prefixed(byte))
    } else {
        spec_from_byte_not_prefixed(byte)
    }
}

impl Instruction {
    /// Decodes one byte against the table selected by the prefix flag.
    pub fn from_byte(byte: u8, prefixed: bool) -> (r: Option<Instruction>)
        ensures
            r == spec_from_byte(byte, prefixed),
            r matches Some(i) ==> i.wf(),
    {
        if prefixed {
            Instruction::from_byte_prefixed(byte)
        } else {
            Instruction::from_byte_not_prefixed(byte)
        }
    }

    /// Decodes one byte against the prefixed table, which is total.
    pub fn from_byte_prefixed(byte: u8) -> (r: Option<Instruction>)
        ensures
            r == Some(spec_from_byte_prefixed(byte)),
            r matches Some(i) ==> i.wf(),
    {
        let x = byte / 64;
        let y = (byte / 8) % 8;
        let z = byte % 8;
        if x == 0 {
            Some(Instruction::Rot(RotOp::from_bits(y), R8::from_bits(z)))
        } else if x == 1 {
            Some(Instruction::BitTest(y, R8::from_bits(z)))
        } else if x == 2 {
            Some(Instruction::ResetBit(y, R8::from_bits(z)))
        } else {
            Some(Instruction::SetBit(y, R8::from_bits(z)))
        }
    }

    /// Decodes one byte against the unprefixed table.
    pub fn from_byte_not_prefixed(byte: u8) -> (r: Option<Instruction>)
        ensures
            r == spec_from_byte_not_prefixed(byte),
            r matches Some(i) ==> i.wf(),
    {
        let x = byte / 64;
        let y = (byte / 8) % 8;
        let z = byte % 8;
        let p = y / 2;
        let q = y % 2;
        if x == 0 {
            if z == 0 {
                if y == 0 {
                    Some(Instruction::Nop)
                } else if y == 1 {
                    Some(Instruction::StoreSpImm)
                } else if y == 2 {
                    Some(Instruction::Stop)
                } else if y == 3 {
                    Some(Instruction::Jr(JumpCondition::Always))
                } else {
                    Some(Instruction::Jr(JumpCondition::from_bits(y - 4)))
                }
            } else if z == 1 {
                if q == 0 {
                    Some(Instruction::LoadR16Imm(R16::from_bits(p)))
                } else {
                    Some(Instruction::AddHl(R16::from_bits(p)))
                }
            } else if z == 2 {
                if q == 0 {
                    Some(Instruction::LoadIndirectFromA(IndirectR16::from_bits(p)))
                } else {
                    Some(Instruction::LoadIndirectToA(IndirectR16::from_bits(p)))
                }
            } else if z == 3 {
                if q == 0 {
                    Some(Instruction::IncR16(R16::from_bits(p)))
                } else {
                    Some(Instruction::DecR16(R16::from_bits(p)))
                }
            } else if z == 4 {
                Some(Instruction::Inc(R8::from_bits(y)))
            } else if z == 5 {
                Some(Instruction::Dec(R8::from_bits(y)))
            } else if z == 6 {
                Some(Instruction::LoadImm(R8::from_bits(y)))
            } else {
                if y == 0 {
                    Some(Instruction::Rlca)
                } else if y == 1 {
                    Some(Instruction::Rrca)
                } else if y == 2 {
                    Some(Instruction::Rla)
                } else if y == 3 {
                    Some(Instruction::Rra)
                } else if y == 4 {
                    Some(Instruction::Daa)
                } else if y == 5 {
                    Some(Instruction::Cpl)
                } else if y == 6 {
                    Some(Instruction::Scf)
                } else {
                    Some(Instruction::Ccf)
                }
            }
        } else if x == 1 {
            if z == 6 && y == 6 {
                Some(Instruction::Halt)
            } else {
                Some(Instruction::Load(R8::from_bits(y), R8::from_bits(z)))
            }
        } else if x == 2 {
            Some(Instruction::Alu(AluOp::from_bits(y), R8::from_bits(z)))
        } else {
            if z == 0 {
                if y <= 3 {
                    Some(Instruction::Ret(JumpCondition::from_bits(y)))
                } else if y == 4 {
                    Some(Instruction::LdhImmA)
                } else if y == 5 {
                    Some(Instruction::AddSpImm)
                } else if y == 6 {
                    Some(Instruction::LdhAImm)
                } else {
                    Some(Instruction::LoadHlSpImm)
                }
            } else if z == 1 {
                if q == 0 {
                    Some(Instruction::Pop(StackR16::from_bits(p)))
                } else if p == 0 {
                    Some(Instruction::Ret(JumpCondition::Always))
                } else if p == 1 {
                    Some(Instruction::Reti)
                } else if p == 2 {
                    Some(Instruction::JpHl)
                } else {
                    Some(Instruction::LoadSpHl)
                }
            } else if z == 2 {
                if y <= 3 {
                    Some(Instruction::Jp(JumpCondition::from_bits(y)))
                } else if y == 4 {
                    Some(Instruction::LdhCA)
                } else if y == 5 {
                    Some(Instruction::LdImmA)
                } else if y == 6 {
                    Some(Instruction::LdhAC)
                } else {
                    Some(Instruction::LdAImm)
                }
            } else if z == 3 {
                if y == 0 {
                    Some(Instruction::Jp(JumpCondition::Always))
                } else if y == 6 {
                    Some(Instruction::Di)
                } else if y == 7 {
                    Some(Instruction::Ei)
                } else {
                    None
                }
            } else if z == 4 {
                if y <= 3 {
                    Some(Instruction::Call(JumpCondition::from_bits(y)))
                } else {
                    None
                }
            } else if z == 5 {
                if q == 0 {
                    Some(Instruction::Push(StackR16::from_bits(p)))
                } else if p == 0 {
                    Some(Instruction::Call(JumpCondition::Always))
                } else {
                    None
                }
            } else if z == 6 {
                Some(Instruction::AluImm(AluOp::from_bits(y)))
            } else {
                Some(Instruction::Rst(y * 8))
            }
        }
    }
}

} // verus!
