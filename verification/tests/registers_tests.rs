use sm83::registers::{FlagRegister, Registers, Registers16b};

#[test]
fn flag_register_from_u8() {
    let register: u8 = 0xF0;
    let flag_register = FlagRegister::from_byte(register);
    assert!(flag_register.zero, "Zero flag not correctly set!");
    assert!(
        flag_register.substraction,
        "Substraction flag not correctly set!"
    );
    assert!(
        flag_register.half_carry,
        "Half carry flag not correctly set!"
    );
    assert!(flag_register.carry, "Carry flag not correctly set!");

    let register: u8 = 0b1000_0000;
    let flag_register = FlagRegister::from_byte(register);
    assert!(flag_register.zero, "Zero flag not correctly set!");
    let register: u8 = 0b0100_0000;
    let flag_register = FlagRegister::from_byte(register);
    assert!(
        flag_register.substraction,
        "Substraction flag not correctly set!"
    );
    let register: u8 = 0b0010_0000;
    let flag_register = FlagRegister::from_byte(register);
    assert!(
        flag_register.half_carry,
        "Half carry flag not correctly set!"
    );
    let register: u8 = 0b0001_0000;
    let flag_register = FlagRegister::from_byte(register);
    assert!(flag_register.carry, "Carry flag not correctly set!");
}

#[test]
fn u8_from_flag_register() {
    let register: u8 = FlagRegister {
        zero: true,
        substraction: true,
        half_carry: true,
        carry: true,
    }
    .to_byte();
    assert_eq!(register, 0xF0, "All flags are wrong!");
    let register: u8 = FlagRegister {
        zero: true,
        substraction: false,
        half_carry: false,
        carry: false,
    }
    .to_byte();
    assert_eq!(register, 0b1000_0000, "Zero flag not correctly set!");
    let register: u8 = FlagRegister {
        zero: false,
        substraction: true,
        half_carry: false,
        carry: false,
    }
    .to_byte();
    assert_eq!(
        register, 0b0100_0000,
        "Substraction flag not correctly set!"
    );
    let register: u8 = FlagRegister {
        zero: false,
        substraction: false,
        half_carry: true,
        carry: false,
    }
    .to_byte();
    assert_eq!(register, 0b0010_0000, "Half carry flag not correctly set!");
    let register: u8 = FlagRegister {
        zero: false,
        substraction: false,
        half_carry: false,
        carry: true,
    }
    .to_byte();
    assert_eq!(register, 0b0001_0000, "Carry flag not correctly set!");
}

#[test]
fn get_set_16b_register() {
    let mut register = Registers::default();
    let num: u16 = 0xFAF0;

    register.set_16b_register(Registers16b::AF, num);
    assert_eq!(num, register.get_16b_register(Registers16b::AF));
    register.set_16b_register(Registers16b::BC, num);
    assert_eq!(num, register.get_16b_register(Registers16b::BC));
    register.set_16b_register(Registers16b::DE, num);
    assert_eq!(num, register.get_16b_register(Registers16b::DE));
    register.set_16b_register(Registers16b::HL, num);
    assert_eq!(num, register.get_16b_register(Registers16b::HL));
    register.set_16b_register(Registers16b::SP, num);
    assert_eq!(num, register.get_16b_register(Registers16b::SP));
    register.set_16b_register(Registers16b::PC, num);
    assert_eq!(num, register.get_16b_register(Registers16b::PC));
}

#[test]
fn flag_round_trip_all_sixteen() {
    for bits in 0u8..16 {
        let f = FlagRegister {
            zero: bits & 8 != 0,
            substraction: bits & 4 != 0,
            half_carry: bits & 2 != 0,
            carry: bits & 1 != 0,
        };
        let back = FlagRegister::from_byte(f.to_byte());
        assert_eq!(back, f);
    }
}

#[test]
fn flag_from_byte_ignores_low_nibble() {
    for low in 0u8..16 {
        let with_low = FlagRegister::from_byte(0xB0 | low);
        let canonical = FlagRegister::from_byte(0xB0);
        assert_eq!(with_low, canonical);
        assert_eq!(with_low.to_byte(), 0xB0);
    }
}

#[test]
fn af_keeps_high_byte_and_flag_nibble() {
    let mut register = Registers::default();
    register.set_16b_register(Registers16b::AF, 0x12FF);
    assert_eq!(register.a, 0x12);
    // The low nibble of F has no storage: reading AF back returns it as zero.
    assert_eq!(register.get_16b_register(Registers16b::AF), 0x12F0);
}
