//! The register file: eight 8-bit registers, the packed flag register, and
//! the 16-bit stack pointer and program counter, with the composite 16-bit
//! views AF, BC, DE, HL.

use vstd::prelude::*;

verus! {

/// The four condition flags. Architecturally they live in the top nibble of
/// the F register: Zero at bit 7, Subtract at bit 6, Half-Carry at bit 5,
/// Carry at bit 4; the low nibble is always zero.
#[verifier::ext_equal]
#[derive(Clone, Copy, Debug, PartialEq, Eq, Structural)]
pub struct FlagRegister {
    pub zero: bool,
    pub substraction: bool,
    pub half_carry: bool,
    pub carry: bool,
}

/// The byte encoding of the four flags: bits 7,6,5,4, low nibble zero.
pub open spec fn spec_flags_to_byte(f: FlagRegister) -> u8 {
    ((if f.zero {
        0x80u8
    } else {
        0u8
    }) + (if f.substraction {
        0x40u8
    } else {
        0u8
    }) + (if f.half_carry {
        0x20u8
    } else {
        0u8
    }) + (if f.carry {
        0x10u8
    } else {
        0u8
    })) as u8
}

/// The flags read back from a byte: bits 7,6,5,4; the low nibble is ignored.
pub open spec fn spec_flags_from_byte(byte: u8) -> FlagRegister {
    FlagRegister {
        zero: byte & 0x80 == 0x80,
        substraction: byte & 0x40 == 0x40,
        half_carry: byte & 0x20 == 0x20,
        carry: byte & 0x10 == 0x10,
    }
}

impl FlagRegister {
    /// Decodes the four flags from a byte, reading bits 7..4 and ignoring the
    /// low nibble.
    pub fn from_byte(byte: u8) -> (f: FlagRegister)
        ensures
            f == spec_flags_from_byte(byte),
    {
        FlagRegister {
            zero: byte & 0x80 == 0x80,
            substraction: byte & 0x40 == 0x40,
            half_carry: byte & 0x20 == 0x20,
            carry: byte & 0x10 == 0x10,
        }
    }

    /// Packs the four flags into a byte with the low nibble zero.
    pub fn to_byte(self) -> (b: u8)
        ensures
            b == spec_flags_to_byte(self),
    {
        (if self.zero {
            0x80u8
        } else {
            0u8
        }) + (if self.substraction {
            0x40u8
        } else {
            0u8
        }) + (if self.half_carry {
            0x20u8
        } else {
            0u8
        }) + (if self.carry {
            0x10u8
        } else {
            0u8
        })
    }
}

impl Default for FlagRegister {
    /// All four flags clear.
    fn default() -> (f: FlagRegister)
        ensures
            f == (FlagRegister { zero: false, substraction: false, half_carry: false, carry: false }),
    {
        FlagRegister { zero: false, substraction: false, half_carry: false, carry: false }
    }
}

/// The register file. A, B, C, D, E, H, L are independent 8-bit registers;
/// SP and PC are genuine 16-bit storage; the 16-bit pairs AF, BC, DE, HL are
/// views over the 8-bit halves, not separate storage.
#[verifier::ext_equal]
#[derive(Clone, Copy, Debug, PartialEq, Eq, Structural)]
pub struct Registers {
    pub a: u8,
    pub b: u8,
    pub c: u8,
    pub d: u8,
    pub e: u8,
    pub f: FlagRegister,
    pub h: u8,
    pub l: u8,
    pub sp: u16,
    pub pc: u16,
}

/// Selects one of the composite 16-bit registers or views.
#[derive(Clone, Copy, Debug, PartialEq, Eq, Structural)]
pub enum Registers16b {
    AF,
    BC,
    DE,
    HL,
    SP,
    PC,
}

/// Two bytes combined into a 16-bit value, high byte first.
pub open spec fn spec_word(hi: u8, lo: u8) -> u16 {
    ((hi as u16) << 8) | (lo as u16)
}

/// The high byte of a 16-bit value.
pub open spec fn spec_hi(w: u16) -> u8 {
    (w >> 8) as u8
}

/// The low byte of a 16-bit value.
pub open spec fn spec_lo(w: u16) -> u8 {
    (w & 0xff) as u8
}

/// The value of a composite 16-bit register: the high register concatenated
/// with the low one (for AF, the flag byte), or SP/PC directly.
pub open spec fn spec_get_16b(regs: Registers, register: Registers16b) -> u16 {
    match register {
        Registers16b::AF => spec_word(regs.a, spec_flags_to_byte(regs.f)),
        Registers16b::BC => spec_word(regs.b, regs.c),
        Registers16b::DE => spec_word(regs.d, regs.e),
        Registers16b::HL => spec_word(regs.h, regs.l),
        Registers16b::SP => regs.sp,
        Registers16b::PC => regs.pc,
    }
}

/// The register file after writing a composite 16-bit register: the high and
/// low bytes of the value go to the two 8-bit halves (for AF, the low byte is
/// decoded into the four flags), or to SP/PC whole.
pub open spec fn spec_set_16b(regs: Registers, register: Registers16b, value: u16) -> Registers {
    match register {
        Registers16b::AF => Registers {
            a: spec_hi(value),
            f: spec_flags_from_byte(spec_lo(value)),
            ..regs
        },
        Registers16b::BC => Registers { b: spec_hi(value), c: spec_lo(value), ..regs },
        Registers16b::DE => Registers { d: spec_hi(value), e: spec_lo(value), ..regs },
        Registers16b::HL => Registers { h: spec_hi(value), l: spec_lo(value), ..regs },
        Registers16b::SP => Registers { sp: value, ..regs },
        Registers16b::PC => Registers { pc: value, ..regs },
    }
}

impl Registers {
    /// Reads a composite 16-bit register.
    pub fn get_16b_register(&self, register: Registers16b) -> (value: u16)
        ensures
            value == spec_get_16b(*self, register),
    {
        match register {
            Registers16b::AF => {
                let flag_byte = self.f.to_byte();
                ((self.a as u16) << 8) | (flag_byte as u16)
            },
            Registers16b::BC => ((self.b as u16) << 8) | (self.c as u16),
            Registers16b::DE => ((self.d as u16) << 8) | (self.e as u16),
            Registers16b::HL => ((self.h as u16) << 8) | (self.l as u16),
            Registers16b::SP => self.sp,
            Registers16b::PC => self.pc,
        }
    }

    /// Writes a composite 16-bit register from the high and low bytes of the
    /// given value.
    pub fn set_16b_register(&mut self, register: Registers16b, value: u16)
        ensures
            *final(self) == spec_set_16b(*old(self), register, value),
    {
        let higher = (value >> 8) as u8;
        let lower = (value & 0xff) as u8;
        match register {
            Registers16b::AF => {
                self.a = higher;
                self.f = FlagRegister::from_byte(lower);
            },
            Registers16b::BC => {
                self.b = higher;
                self.c = lower;
            },
            Registers16b::DE => {
                self.d = higher;
                self.e = lower;
            },
            Registers16b::HL => {
                self.h = higher;
                self.l = lower;
            },
            Registers16b::SP => {
                self.sp = value;
            },
            Registers16b::PC => {
                self.pc = value;
            },
        }
    }
}

impl Default for Registers {
    /// The zero-initialized register file.
    fn default() -> (regs: Registers)
        ensures
            regs == (Registers {
                a: 0,
                b: 0,
                c: 0,
                d: 0,
                e: 0,
                f: FlagRegister { zero: false, substraction: false, half_carry: false, carry: false },
                h: 0,
                l: 0,
                sp: 0,
                pc: 0,
            }),
    {
        Registers {
            a: 0,
            b: 0,
            c: 0,
            d: 0,
            e: 0,
            f: FlagRegister { zero: false, substraction: false, half_carry: false, carry: false },
            h: 0,
            l: 0,
            sp: 0,
            pc: 0,
        }
    }
}

} // verus!
