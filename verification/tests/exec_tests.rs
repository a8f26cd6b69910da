use sm83::cpu::Cpu;
use sm83::instruction::{AluOp, IndirectR16, Instruction, R16, R8, RotOp, StackR16};
use sm83::registers::Registers16b;

fn fresh() -> Cpu {
    Cpu::default()
}

#[test]
fn load_register_to_register() {
    let mut cpu = fresh();
    cpu.registers.c = 0x42;
    cpu.execute(Instruction::Load(R8::B, R8::C));
    assert_eq!(cpu.registers.b, 0x42);
    // Loads leave the flags alone.
    assert_eq!(cpu.registers.f.to_byte(), 0x00);
}

#[test]
fn load_through_hl_both_directions() {
    let mut cpu = fresh();
    cpu.registers.h = 0x12;
    cpu.registers.l = 0x34;
    cpu.registers.a = 0x99;
    cpu.execute(Instruction::Load(R8::Hl, R8::A));
    assert_eq!(cpu.bus.read_byte(0x1234), 0x99);
    cpu.execute(Instruction::Load(R8::D, R8::Hl));
    assert_eq!(cpu.registers.d, 0x99);
}

#[test]
fn load_indirect_post_increment_and_decrement() {
    let mut cpu = fresh();
    cpu.registers.a = 0x77;
    cpu.registers.h = 0x20;
    cpu.registers.l = 0xFF;
    cpu.execute(Instruction::LoadIndirectFromA(IndirectR16::Hli));
    assert_eq!(cpu.bus.read_byte(0x20FF), 0x77);
    assert_eq!(cpu.registers.get_16b_register(Registers16b::HL), 0x2100);

    cpu.execute(Instruction::LoadIndirectFromA(IndirectR16::Hld));
    assert_eq!(cpu.bus.read_byte(0x2100), 0x77);
    assert_eq!(cpu.registers.get_16b_register(Registers16b::HL), 0x20FF);
}

#[test]
fn load_indirect_through_bc_and_de() {
    let mut cpu = fresh();
    cpu.registers.b = 0x30;
    cpu.registers.c = 0x01;
    cpu.registers.d = 0x30;
    cpu.registers.e = 0x02;
    cpu.registers.a = 0x5A;
    cpu.execute(Instruction::LoadIndirectFromA(IndirectR16::Bc));
    assert_eq!(cpu.bus.read_byte(0x3001), 0x5A);
    cpu.registers.a = 0;
    cpu.execute(Instruction::LoadIndirectToA(IndirectR16::Bc));
    assert_eq!(cpu.registers.a, 0x5A);
    cpu.registers.a = 0xA5;
    cpu.execute(Instruction::LoadIndirectFromA(IndirectR16::De));
    assert_eq!(cpu.bus.read_byte(0x3002), 0xA5);
}

#[test]
fn subtract_sets_borrow_flags() {
    let mut cpu = fresh();
    cpu.registers.a = 0x10;
    cpu.execute(Instruction::Alu(AluOp::Sub, R8::B));
    assert_eq!(cpu.registers.a, 0x10);
    cpu.registers.b = 0x11;
    cpu.execute(Instruction::Alu(AluOp::Sub, R8::B));
    // 0x10 - 0x11 wraps to 0xFF with both borrows set.
    assert_eq!(cpu.registers.a, 0xFF);
    assert!(cpu.registers.f.substraction);
    assert!(cpu.registers.f.half_carry);
    assert!(cpu.registers.f.carry);
    assert!(!cpu.registers.f.zero);
}

#[test]
fn adc_and_sbc_include_the_carry() {
    let mut cpu = fresh();
    cpu.registers.a = 0xFE;
    cpu.registers.b = 0x01;
    cpu.registers.f.carry = true;
    cpu.execute(Instruction::Alu(AluOp::Adc, R8::B));
    assert_eq!(cpu.registers.a, 0x00);
    assert!(cpu.registers.f.zero);
    assert!(cpu.registers.f.carry);
    assert!(cpu.registers.f.half_carry);

    let mut cpu = fresh();
    cpu.registers.a = 0x10;
    cpu.registers.b = 0x0F;
    cpu.registers.f.carry = true;
    cpu.execute(Instruction::Alu(AluOp::Sbc, R8::B));
    assert_eq!(cpu.registers.a, 0x00);
    assert!(cpu.registers.f.zero);
    assert!(!cpu.registers.f.carry);
    assert!(cpu.registers.f.half_carry);
}

#[test]
fn logical_operations_fix_their_flags() {
    let mut cpu = fresh();
    cpu.registers.a = 0xF0;
    cpu.registers.b = 0x0F;
    cpu.execute(Instruction::Alu(AluOp::And, R8::B));
    assert_eq!(cpu.registers.a, 0x00);
    assert!(cpu.registers.f.zero);
    assert!(cpu.registers.f.half_carry);
    assert!(!cpu.registers.f.carry);

    cpu.registers.a = 0xF0;
    cpu.execute(Instruction::Alu(AluOp::Or, R8::B));
    assert_eq!(cpu.registers.a, 0xFF);
    assert!(!cpu.registers.f.zero);
    assert!(!cpu.registers.f.half_carry);

    cpu.execute(Instruction::Alu(AluOp::Xor, R8::A));
    assert_eq!(cpu.registers.a, 0x00);
    assert!(cpu.registers.f.zero);
}

#[test]
fn compare_discards_the_result() {
    let mut cpu = fresh();
    cpu.registers.a = 0x42;
    cpu.registers.b = 0x42;
    cpu.execute(Instruction::Alu(AluOp::Cp, R8::B));
    assert_eq!(cpu.registers.a, 0x42);
    assert!(cpu.registers.f.zero);
    assert!(cpu.registers.f.substraction);
}

#[test]
fn inc_dec_leave_carry_alone() {
    let mut cpu = fresh();
    cpu.registers.f.carry = true;
    cpu.registers.b = 0x0F;
    cpu.execute(Instruction::Inc(R8::B));
    assert_eq!(cpu.registers.b, 0x10);
    assert!(cpu.registers.f.half_carry);
    assert!(cpu.registers.f.carry);
    assert!(!cpu.registers.f.substraction);

    cpu.registers.c = 0x01;
    cpu.execute(Instruction::Dec(R8::C));
    assert_eq!(cpu.registers.c, 0x00);
    assert!(cpu.registers.f.zero);
    assert!(cpu.registers.f.substraction);
    assert!(cpu.registers.f.carry);

    cpu.registers.d = 0x00;
    cpu.execute(Instruction::Dec(R8::D));
    assert_eq!(cpu.registers.d, 0xFF);
    assert!(cpu.registers.f.half_carry);
}

#[test]
fn add_hl_flags_come_from_bits_11_and_15() {
    let mut cpu = fresh();
    cpu.registers.f.zero = true;
    cpu.registers.h = 0x0F;
    cpu.registers.l = 0xFF;
    cpu.registers.b = 0x00;
    cpu.registers.c = 0x01;
    cpu.execute(Instruction::AddHl(R16::Bc));
    assert_eq!(cpu.registers.get_16b_register(Registers16b::HL), 0x1000);
    assert!(cpu.registers.f.half_carry);
    assert!(!cpu.registers.f.carry);
    // Zero is untouched by the 16-bit add.
    assert!(cpu.registers.f.zero);

    cpu.registers.h = 0xFF;
    cpu.registers.l = 0xFF;
    cpu.execute(Instruction::AddHl(R16::Bc));
    assert_eq!(cpu.registers.get_16b_register(Registers16b::HL), 0x0000);
    assert!(cpu.registers.f.carry);
}

#[test]
fn register_pair_inc_dec_wrap_without_flags() {
    let mut cpu = fresh();
    cpu.registers.sp = 0xFFFF;
    cpu.execute(Instruction::IncR16(R16::Sp));
    assert_eq!(cpu.registers.sp, 0x0000);
    cpu.execute(Instruction::DecR16(R16::Sp));
    assert_eq!(cpu.registers.sp, 0xFFFF);
    assert_eq!(cpu.registers.f.to_byte(), 0x00);
}

#[test]
fn accumulator_rotates_clear_zero() {
    let mut cpu = fresh();
    cpu.registers.a = 0x80;
    cpu.execute(Instruction::Rlca);
    assert_eq!(cpu.registers.a, 0x01);
    assert!(cpu.registers.f.carry);
    assert!(!cpu.registers.f.zero);

    cpu.registers.a = 0x01;
    cpu.execute(Instruction::Rrca);
    assert_eq!(cpu.registers.a, 0x80);
    assert!(cpu.registers.f.carry);

    cpu.registers.a = 0x80;
    cpu.registers.f.carry = false;
    cpu.execute(Instruction::Rla);
    // The old carry rotates in; the shifted-out bit becomes the new carry.
    assert_eq!(cpu.registers.a, 0x00);
    assert!(cpu.registers.f.carry);
    assert!(!cpu.registers.f.zero);

    cpu.registers.a = 0x01;
    cpu.registers.f.carry = false;
    cpu.execute(Instruction::Rra);
    assert_eq!(cpu.registers.a, 0x00);
    assert!(cpu.registers.f.carry);
}

#[test]
fn prefixed_rotates_set_zero_from_result() {
    let mut cpu = fresh();
    cpu.registers.b = 0x80;
    cpu.execute(Instruction::Rot(RotOp::Sla, R8::B));
    assert_eq!(cpu.registers.b, 0x00);
    assert!(cpu.registers.f.zero);
    assert!(cpu.registers.f.carry);

    cpu.registers.c = 0x81;
    cpu.execute(Instruction::Rot(RotOp::Sra, R8::C));
    assert_eq!(cpu.registers.c, 0xC0);
    assert!(cpu.registers.f.carry);

    cpu.registers.d = 0x01;
    cpu.execute(Instruction::Rot(RotOp::Srl, R8::D));
    assert_eq!(cpu.registers.d, 0x00);
    assert!(cpu.registers.f.zero);
    assert!(cpu.registers.f.carry);

    cpu.registers.e = 0xAB;
    cpu.execute(Instruction::Rot(RotOp::Swap, R8::E));
    assert_eq!(cpu.registers.e, 0xBA);
    assert!(!cpu.registers.f.carry);
}

#[test]
fn rotate_through_memory_operand() {
    let mut cpu = fresh();
    cpu.registers.h = 0x40;
    cpu.registers.l = 0x00;
    cpu.bus.write_byte(0x4000, 0x01);
    cpu.execute(Instruction::Rot(RotOp::Rlc, R8::Hl));
    assert_eq!(cpu.bus.read_byte(0x4000), 0x02);
}

#[test]
fn bit_test_set_reset() {
    let mut cpu = fresh();
    cpu.registers.b = 0b0100_0000;
    cpu.execute(Instruction::BitTest(6, R8::B));
    assert!(!cpu.registers.f.zero);
    assert!(cpu.registers.f.half_carry);
    cpu.execute(Instruction::BitTest(7, R8::B));
    assert!(cpu.registers.f.zero);

    cpu.execute(Instruction::SetBit(0, R8::B));
    assert_eq!(cpu.registers.b, 0b0100_0001);
    cpu.execute(Instruction::ResetBit(6, R8::B));
    assert_eq!(cpu.registers.b, 0b0000_0001);
}

#[test]
fn daa_adjusts_bcd_addition() {
    let mut cpu = fresh();
    // 0x15 + 0x27 = 0x3C binary; the decimal answer is 0x42.
    cpu.registers.a = 0x15;
    cpu.registers.b = 0x27;
    cpu.execute(Instruction::Alu(AluOp::Add, R8::B));
    assert_eq!(cpu.registers.a, 0x3C);
    cpu.execute(Instruction::Daa);
    assert_eq!(cpu.registers.a, 0x42);
    assert!(!cpu.registers.f.carry);
    assert!(!cpu.registers.f.half_carry);

    // 0x99 + 0x01 = 0x9A binary; the decimal answer is 1_00.
    cpu.registers.a = 0x99;
    cpu.registers.b = 0x01;
    cpu.execute(Instruction::Alu(AluOp::Add, R8::B));
    cpu.execute(Instruction::Daa);
    assert_eq!(cpu.registers.a, 0x00);
    assert!(cpu.registers.f.zero);
    assert!(cpu.registers.f.carry);
}

#[test]
fn daa_adjusts_bcd_subtraction() {
    let mut cpu = fresh();
    // 0x42 - 0x15 = 0x2D binary; the decimal answer is 0x27.
    cpu.registers.a = 0x42;
    cpu.registers.b = 0x15;
    cpu.execute(Instruction::Alu(AluOp::Sub, R8::B));
    assert_eq!(cpu.registers.a, 0x2D);
    cpu.execute(Instruction::Daa);
    assert_eq!(cpu.registers.a, 0x27);
}

#[test]
fn complement_and_carry_operations() {
    let mut cpu = fresh();
    cpu.registers.a = 0x35;
    cpu.execute(Instruction::Cpl);
    assert_eq!(cpu.registers.a, 0xCA);
    assert!(cpu.registers.f.substraction);
    assert!(cpu.registers.f.half_carry);

    cpu.execute(Instruction::Scf);
    assert!(cpu.registers.f.carry);
    assert!(!cpu.registers.f.substraction);
    assert!(!cpu.registers.f.half_carry);

    cpu.execute(Instruction::Ccf);
    assert!(!cpu.registers.f.carry);
    cpu.execute(Instruction::Ccf);
    assert!(cpu.registers.f.carry);
}

#[test]
fn push_and_pop_register_pairs() {
    let mut cpu = fresh();
    cpu.registers.sp = 0xFFFE;
    cpu.registers.b = 0x12;
    cpu.registers.c = 0x34;
    cpu.execute(Instruction::Push(StackR16::Bc));
    assert_eq!(cpu.registers.sp, 0xFFFC);
    assert_eq!(cpu.bus.read_byte(0xFFFC), 0x34);
    assert_eq!(cpu.bus.read_byte(0xFFFD), 0x12);
    cpu.execute(Instruction::Pop(StackR16::De));
    assert_eq!(cpu.registers.d, 0x12);
    assert_eq!(cpu.registers.e, 0x34);
    assert_eq!(cpu.registers.sp, 0xFFFE);
}

#[test]
fn push_pop_af_drops_the_low_nibble() {
    let mut cpu = fresh();
    cpu.registers.sp = 0xFFFE;
    cpu.bus.write_byte(0xFFFC, 0xFF);
    cpu.bus.write_byte(0xFFFD, 0x12);
    cpu.registers.sp = 0xFFFC;
    cpu.execute(Instruction::Pop(StackR16::Af));
    assert_eq!(cpu.registers.a, 0x12);
    assert_eq!(cpu.registers.f.to_byte(), 0xF0);
}

#[test]
fn store_sp_at_immediate_address() {
    let mut cpu = fresh();
    cpu.registers.sp = 0xBEEF;
    // Operand bytes for LD (nn), SP with nn = 0x2000, starting at PC = 0.
    cpu.bus.copy_bytes(0, &[0x00, 0x20]);
    cpu.execute(Instruction::StoreSpImm);
    assert_eq!(cpu.bus.read_byte(0x2000), 0xEF);
    assert_eq!(cpu.bus.read_byte(0x2001), 0xBE);
    assert_eq!(cpu.registers.pc, 2);
}

#[test]
fn high_memory_loads_use_the_ff00_page() {
    let mut cpu = fresh();
    cpu.registers.a = 0x66;
    cpu.registers.c = 0x80;
    cpu.execute(Instruction::LdhCA);
    assert_eq!(cpu.bus.read_byte(0xFF80), 0x66);
    cpu.registers.a = 0;
    cpu.execute(Instruction::LdhAC);
    assert_eq!(cpu.registers.a, 0x66);

    // LDH (n), A with n = 0x42 at PC = 0.
    cpu.bus.copy_bytes(0, &[0x42]);
    cpu.registers.a = 0x77;
    cpu.execute(Instruction::LdhImmA);
    assert_eq!(cpu.bus.read_byte(0xFF42), 0x77);
    cpu.registers.pc = 0;
    cpu.registers.a = 0;
    cpu.execute(Instruction::LdhAImm);
    assert_eq!(cpu.registers.a, 0x77);
}

#[test]
fn absolute_accumulator_loads() {
    let mut cpu = fresh();
    // LD (nn), A with nn = 0x1234.
    cpu.bus.copy_bytes(0, &[0x34, 0x12]);
    cpu.registers.a = 0x5C;
    cpu.execute(Instruction::LdImmA);
    assert_eq!(cpu.bus.read_byte(0x1234), 0x5C);
    cpu.registers.pc = 0;
    cpu.registers.a = 0;
    cpu.execute(Instruction::LdAImm);
    assert_eq!(cpu.registers.a, 0x5C);
}

#[test]
fn add_sp_signed_immediate() {
    let mut cpu = fresh();
    cpu.registers.sp = 0x0005;
    // ADD SP, -5 (offset byte 0xFB at PC = 0).
    cpu.bus.copy_bytes(0, &[0xFB]);
    cpu.execute(Instruction::AddSpImm);
    assert_eq!(cpu.registers.sp, 0x0000);
    // The flags come from the unsigned low-byte addition: 0x05 + 0xFB.
    assert!(cpu.registers.f.half_carry);
    assert!(cpu.registers.f.carry);
    assert!(!cpu.registers.f.zero);
}

#[test]
fn load_hl_sp_plus_offset() {
    let mut cpu = fresh();
    cpu.registers.sp = 0xFFF8;
    // LD HL, SP + 2.
    cpu.bus.copy_bytes(0, &[0x02]);
    cpu.execute(Instruction::LoadHlSpImm);
    assert_eq!(cpu.registers.get_16b_register(Registers16b::HL), 0xFFFA);
    assert_eq!(cpu.registers.sp, 0xFFF8);
    assert!(!cpu.registers.f.carry);
    assert!(!cpu.registers.f.half_carry);
}

#[test]
fn jump_to_hl_uses_the_pair_value() {
    let mut cpu = fresh();
    cpu.registers.h = 0x45;
    cpu.registers.l = 0x67;
    cpu.execute(Instruction::JpHl);
    assert_eq!(cpu.registers.pc, 0x4567);
}

#[test]
fn load_sp_from_hl() {
    let mut cpu = fresh();
    cpu.registers.h = 0xAB;
    cpu.registers.l = 0xCD;
    cpu.execute(Instruction::LoadSpHl);
    assert_eq!(cpu.registers.sp, 0xABCD);
}

#[test]
fn conditional_return_not_taken_keeps_pc() {
    let mut cpu = fresh();
    cpu.registers.sp = 0xFFFC;
    cpu.bus.copy_bytes(0xFFFC, &[0x34, 0x12]);
    cpu.registers.pc = 0x55;
    cpu.registers.f.carry = false;
    // RET C with the Carry flag clear.
    cpu.execute(Instruction::Ret(sm83::instruction::JumpCondition::Carry));
    assert_eq!(cpu.registers.pc, 0x55);
    assert_eq!(cpu.registers.sp, 0xFFFC);
}

#[test]
fn stack_wraps_at_bottom_of_memory() {
    let mut cpu = fresh();
    cpu.registers.sp = 0x0000;
    cpu.registers.b = 0xAB;
    cpu.registers.c = 0xCD;
    cpu.execute(Instruction::Push(StackR16::Bc));
    assert_eq!(cpu.registers.sp, 0xFFFE);
    assert_eq!(cpu.bus.read_byte(0xFFFE), 0xCD);
    assert_eq!(cpu.bus.read_byte(0xFFFF), 0xAB);
}
