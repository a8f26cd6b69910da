use sm83::instruction::{
    AluOp, IndirectR16, Instruction, JumpCondition, R16, R8, RotOp, StackR16,
};

#[test]
fn decode_representative_sample() {
    assert_eq!(Instruction::from_byte(0x00, false), Some(Instruction::Nop));
    assert_eq!(
        Instruction::from_byte(0xC3, false),
        Some(Instruction::Jp(JumpCondition::Always))
    );
    assert_eq!(
        Instruction::from_byte(0x3E, false),
        Some(Instruction::LoadImm(R8::A))
    );
    assert_eq!(
        Instruction::from_byte(0xC6, false),
        Some(Instruction::AluImm(AluOp::Add))
    );
}

#[test]
fn decode_loads() {
    assert_eq!(
        Instruction::from_byte(0x41, false),
        Some(Instruction::Load(R8::B, R8::C))
    );
    assert_eq!(
        Instruction::from_byte(0x7E, false),
        Some(Instruction::Load(R8::A, R8::Hl))
    );
    assert_eq!(
        Instruction::from_byte(0x06, false),
        Some(Instruction::LoadImm(R8::B))
    );
    assert_eq!(
        Instruction::from_byte(0x36, false),
        Some(Instruction::LoadImm(R8::Hl))
    );
    assert_eq!(
        Instruction::from_byte(0x01, false),
        Some(Instruction::LoadR16Imm(R16::Bc))
    );
    assert_eq!(
        Instruction::from_byte(0x31, false),
        Some(Instruction::LoadR16Imm(R16::Sp))
    );
    assert_eq!(
        Instruction::from_byte(0x02, false),
        Some(Instruction::LoadIndirectFromA(IndirectR16::Bc))
    );
    assert_eq!(
        Instruction::from_byte(0x22, false),
        Some(Instruction::LoadIndirectFromA(IndirectR16::Hli))
    );
    assert_eq!(
        Instruction::from_byte(0x3A, false),
        Some(Instruction::LoadIndirectToA(IndirectR16::Hld))
    );
    assert_eq!(Instruction::from_byte(0x08, false), Some(Instruction::StoreSpImm));
    assert_eq!(Instruction::from_byte(0xF9, false), Some(Instruction::LoadSpHl));
    assert_eq!(Instruction::from_byte(0xF8, false), Some(Instruction::LoadHlSpImm));
}

#[test]
fn decode_halt_wins_over_load_hl_hl() {
    assert_eq!(Instruction::from_byte(0x76, false), Some(Instruction::Halt));
}

#[test]
fn decode_arithmetic() {
    assert_eq!(
        Instruction::from_byte(0x80, false),
        Some(Instruction::Alu(AluOp::Add, R8::B))
    );
    assert_eq!(
        Instruction::from_byte(0x8F, false),
        Some(Instruction::Alu(AluOp::Adc, R8::A))
    );
    assert_eq!(
        Instruction::from_byte(0x96, false),
        Some(Instruction::Alu(AluOp::Sub, R8::Hl))
    );
    assert_eq!(
        Instruction::from_byte(0x9D, false),
        Some(Instruction::Alu(AluOp::Sbc, R8::L))
    );
    assert_eq!(
        Instruction::from_byte(0xA1, false),
        Some(Instruction::Alu(AluOp::And, R8::C))
    );
    assert_eq!(
        Instruction::from_byte(0xAA, false),
        Some(Instruction::Alu(AluOp::Xor, R8::D))
    );
    assert_eq!(
        Instruction::from_byte(0xB3, false),
        Some(Instruction::Alu(AluOp::Or, R8::E))
    );
    assert_eq!(
        Instruction::from_byte(0xBC, false),
        Some(Instruction::Alu(AluOp::Cp, R8::H))
    );
    assert_eq!(
        Instruction::from_byte(0xCE, false),
        Some(Instruction::AluImm(AluOp::Adc))
    );
    assert_eq!(
        Instruction::from_byte(0xFE, false),
        Some(Instruction::AluImm(AluOp::Cp))
    );
    assert_eq!(Instruction::from_byte(0x04, false), Some(Instruction::Inc(R8::B)));
    assert_eq!(Instruction::from_byte(0x35, false), Some(Instruction::Dec(R8::Hl)));
    assert_eq!(
        Instruction::from_byte(0x09, false),
        Some(Instruction::AddHl(R16::Bc))
    );
    assert_eq!(
        Instruction::from_byte(0x33, false),
        Some(Instruction::IncR16(R16::Sp))
    );
    assert_eq!(
        Instruction::from_byte(0x1B, false),
        Some(Instruction::DecR16(R16::De))
    );
    assert_eq!(Instruction::from_byte(0xE8, false), Some(Instruction::AddSpImm));
}

#[test]
fn decode_accumulator_block() {
    assert_eq!(Instruction::from_byte(0x07, false), Some(Instruction::Rlca));
    assert_eq!(Instruction::from_byte(0x0F, false), Some(Instruction::Rrca));
    assert_eq!(Instruction::from_byte(0x17, false), Some(Instruction::Rla));
    assert_eq!(Instruction::from_byte(0x1F, false), Some(Instruction::Rra));
    assert_eq!(Instruction::from_byte(0x27, false), Some(Instruction::Daa));
    assert_eq!(Instruction::from_byte(0x2F, false), Some(Instruction::Cpl));
    assert_eq!(Instruction::from_byte(0x37, false), Some(Instruction::Scf));
    assert_eq!(Instruction::from_byte(0x3F, false), Some(Instruction::Ccf));
}

#[test]
fn decode_control_flow() {
    assert_eq!(Instruction::from_byte(0x10, false), Some(Instruction::Stop));
    assert_eq!(
        Instruction::from_byte(0x18, false),
        Some(Instruction::Jr(JumpCondition::Always))
    );
    assert_eq!(
        Instruction::from_byte(0x20, false),
        Some(Instruction::Jr(JumpCondition::NotZero))
    );
    assert_eq!(
        Instruction::from_byte(0x28, false),
        Some(Instruction::Jr(JumpCondition::Zero))
    );
    assert_eq!(
        Instruction::from_byte(0x30, false),
        Some(Instruction::Jr(JumpCondition::NotCarry))
    );
    assert_eq!(
        Instruction::from_byte(0x38, false),
        Some(Instruction::Jr(JumpCondition::Carry))
    );
    assert_eq!(
        Instruction::from_byte(0xDA, false),
        Some(Instruction::Jp(JumpCondition::Carry))
    );
    assert_eq!(Instruction::from_byte(0xE9, false), Some(Instruction::JpHl));
    assert_eq!(
        Instruction::from_byte(0xC4, false),
        Some(Instruction::Call(JumpCondition::NotZero))
    );
    assert_eq!(
        Instruction::from_byte(0xCD, false),
        Some(Instruction::Call(JumpCondition::Always))
    );
    assert_eq!(
        Instruction::from_byte(0xC0, false),
        Some(Instruction::Ret(JumpCondition::NotZero))
    );
    assert_eq!(
        Instruction::from_byte(0xC9, false),
        Some(Instruction::Ret(JumpCondition::Always))
    );
    assert_eq!(Instruction::from_byte(0xD9, false), Some(Instruction::Reti));
    assert_eq!(Instruction::from_byte(0xC7, false), Some(Instruction::Rst(0x00)));
    assert_eq!(Instruction::from_byte(0xFF, false), Some(Instruction::Rst(0x38)));
}

#[test]
fn decode_stack_and_high_loads() {
    assert_eq!(
        Instruction::from_byte(0xC5, false),
        Some(Instruction::Push(StackR16::Bc))
    );
    assert_eq!(
        Instruction::from_byte(0xF5, false),
        Some(Instruction::Push(StackR16::Af))
    );
    assert_eq!(
        Instruction::from_byte(0xD1, false),
        Some(Instruction::Pop(StackR16::De))
    );
    assert_eq!(
        Instruction::from_byte(0xE1, false),
        Some(Instruction::Pop(StackR16::Hl))
    );
    assert_eq!(Instruction::from_byte(0xE0, false), Some(Instruction::LdhImmA));
    assert_eq!(Instruction::from_byte(0xF0, false), Some(Instruction::LdhAImm));
    assert_eq!(Instruction::from_byte(0xE2, false), Some(Instruction::LdhCA));
    assert_eq!(Instruction::from_byte(0xF2, false), Some(Instruction::LdhAC));
    assert_eq!(Instruction::from_byte(0xEA, false), Some(Instruction::LdImmA));
    assert_eq!(Instruction::from_byte(0xFA, false), Some(Instruction::LdAImm));
    assert_eq!(Instruction::from_byte(0xF3, false), Some(Instruction::Di));
    assert_eq!(Instruction::from_byte(0xFB, false), Some(Instruction::Ei));
}

#[test]
fn decode_rejects_the_eleven_holes() {
    for byte in [
        0xD3u8, 0xDB, 0xDD, 0xE3, 0xE4, 0xEB, 0xEC, 0xED, 0xF4, 0xFC, 0xFD,
    ] {
        assert_eq!(Instruction::from_byte(byte, false), None);
    }
}

#[test]
fn decode_prefix_byte_alone_is_unrecognized() {
    assert_eq!(Instruction::from_byte(0xCB, false), None);
}

#[test]
fn decode_unprefixed_is_total_outside_the_holes() {
    let holes = [
        0xCBu8, 0xD3, 0xDB, 0xDD, 0xE3, 0xE4, 0xEB, 0xEC, 0xED, 0xF4, 0xFC, 0xFD,
    ];
    for byte in 0u8..=0xFF {
        let decoded = Instruction::from_byte(byte, false);
        if holes.contains(&byte) {
            assert_eq!(decoded, None);
        } else {
            assert!(decoded.is_some());
        }
    }
}

#[test]
fn decode_prefixed_rotates_and_shifts() {
    assert_eq!(
        Instruction::from_byte(0x00, true),
        Some(Instruction::Rot(RotOp::Rlc, R8::B))
    );
    assert_eq!(
        Instruction::from_byte(0x0E, true),
        Some(Instruction::Rot(RotOp::Rrc, R8::Hl))
    );
    assert_eq!(
        Instruction::from_byte(0x17, true),
        Some(Instruction::Rot(RotOp::Rl, R8::A))
    );
    assert_eq!(
        Instruction::from_byte(0x19, true),
        Some(Instruction::Rot(RotOp::Rr, R8::C))
    );
    assert_eq!(
        Instruction::from_byte(0x22, true),
        Some(Instruction::Rot(RotOp::Sla, R8::D))
    );
    assert_eq!(
        Instruction::from_byte(0x2B, true),
        Some(Instruction::Rot(RotOp::Sra, R8::E))
    );
    assert_eq!(
        Instruction::from_byte(0x34, true),
        Some(Instruction::Rot(RotOp::Swap, R8::H))
    );
    assert_eq!(
        Instruction::from_byte(0x3D, true),
        Some(Instruction::Rot(RotOp::Srl, R8::L))
    );
}

#[test]
fn decode_prefixed_bit_operations() {
    assert_eq!(
        Instruction::from_byte(0x40, true),
        Some(Instruction::BitTest(0, R8::B))
    );
    assert_eq!(
        Instruction::from_byte(0x7F, true),
        Some(Instruction::BitTest(7, R8::A))
    );
    assert_eq!(
        Instruction::from_byte(0x86, true),
        Some(Instruction::ResetBit(0, R8::Hl))
    );
    assert_eq!(
        Instruction::from_byte(0xBD, true),
        Some(Instruction::ResetBit(7, R8::L))
    );
    assert_eq!(
        Instruction::from_byte(0xC1, true),
        Some(Instruction::SetBit(0, R8::C))
    );
    assert_eq!(
        Instruction::from_byte(0xFA, true),
        Some(Instruction::SetBit(7, R8::D))
    );
}

#[test]
fn decode_prefixed_is_total() {
    for byte in 0u8..=0xFF {
        assert!(Instruction::from_byte(byte, true).is_some());
    }
}
