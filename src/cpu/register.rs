use vstd::prelude::*;

use super::instruction::{Register16, Register8};

verus! {

/// The flag register F: zero (bit 7), subtract (bit 6), half-carry (bit 5), carry (bit 4).
/// Its low nibble reads as zero.
#[derive(Clone, Copy, Debug, PartialEq, Eq, Structural)]
pub struct Flag {
    pub zero: bool,
    pub subtract: bool,
    pub half_carry: bool,
    pub carry: bool,
}

/// 1 for true, 0 for false.
pub open spec fn bit_value(b: bool) -> u8 {
    if b {
        1
    } else {
        0
    }
}

impl Flag {
    /// The byte that F reads as.
    pub open spec fn byte(self) -> u8 {
        (128 * bit_value(self.zero) + 64 * bit_value(self.subtract) + 32 * bit_value(
            self.half_carry,
        ) + 16 * bit_value(self.carry)) as u8
    }

    /// Whether a condition holds, or a flag is set.
    pub open spec fn holds(self, cond: super::instruction::Flag) -> bool {
        match cond {
            super::instruction::Flag::Z => self.zero,
            super::instruction::Flag::NZ => !self.zero,
            super::instruction::Flag::N => self.subtract,
            super::instruction::Flag::H => self.half_carry,
            super::instruction::Flag::C => self.carry,
            super::instruction::Flag::NC => !self.carry,
        }
    }

    /// The flags held in the high nibble of `val`; the low nibble is dropped.
    pub fn new(val: u8) -> (r: Flag)
        ensures
            r.zero == (val / 128 % 2 == 1),
            r.subtract == (val / 64 % 2 == 1),
            r.half_carry == (val / 32 % 2 == 1),
            r.carry == (val / 16 % 2 == 1),
            r.byte() == val / 16 * 16,
    {
        Flag {
            zero: val / 128 % 2 == 1,
            subtract: val / 64 % 2 == 1,
            half_carry: val / 32 % 2 == 1,
            carry: val / 16 % 2 == 1,
        }
    }

    /// All four flags cleared.
    pub fn empty() -> (r: Flag)
        ensures
            !r.zero && !r.subtract && !r.half_carry && !r.carry,
            r.byte() == 0,
    {
        Flag { zero: false, subtract: false, half_carry: false, carry: false }
    }

    /// The byte that F reads as; its low nibble is zero.
    pub fn bits(&self) -> (r: u8)
        ensures
            r == self.byte(),
            r % 16 == 0,
    {
        let mut r: u8 = 0;
        if self.zero {
            r = r + 128;
        }
        if self.subtract {
            r = r + 64;
        }
        if self.half_carry {
            r = r + 32;
        }
        if self.carry {
            r = r + 16;
        }
        r
    }

    /// Whether the condition holds (Z, NZ, C, NC) or the flag is set (N, H).
    pub fn contains(&self, flag: super::instruction::Flag) -> (r: bool)
        ensures
            r == self.holds(flag),
    {
        match flag {
            super::instruction::Flag::Z => self.zero,
            super::instruction::Flag::NZ => !self.zero,
            super::instruction::Flag::N => self.subtract,
            super::instruction::Flag::H => self.half_carry,
            super::instruction::Flag::C => self.carry,
            super::instruction::Flag::NC => !self.carry,
        }
    }

    /// Set bit `bit` of F (7 zero, 6 subtract, 5 half-carry, 4 carry) to `val`.
    pub fn set(&mut self, bit: u8, val: bool)
        requires
            4 <= bit <= 7,
        ensures
            final(self).zero == if bit == 7 {
                val
            } else {
                old(self).zero
            },
            final(self).subtract == if bit == 6 {
                val
            } else {
                old(self).subtract
            },
            final(self).half_carry == if bit == 5 {
                val
            } else {
                old(self).half_carry
            },
            final(self).carry == if bit == 4 {
                val
            } else {
                old(self).carry
            },
    {
        if bit == 7 {
            self.zero = val;
        } else if bit == 6 {
            self.subtract = val;
        } else if bit == 5 {
            self.half_carry = val;
        } else {
            self.carry = val;
        }
    }
}

/// The register file: eight 8-bit registers, the stack pointer and the program counter.
#[derive(Clone, Copy, Debug, PartialEq, Eq, Structural)]
pub struct Registers {
    pub a: u8,
    pub f: Flag,
    pub b: u8,
    pub c: u8,
    pub d: u8,
    pub e: u8,
    pub h: u8,
    pub l: u8,
    pub pc: u16,
    pub sp: u16,
}

/// The word with `high` as its high byte and `low` as its low byte.
pub open spec fn join(high: u8, low: u8) -> u16 {
    (high as int * 256 + low as int) as u16
}

impl Registers {
    /// The value of an 8-bit register (not (HL), which is a bus access).
    pub open spec fn reg8(self, r: Register8) -> u8 {
        match r {
            Register8::A => self.a,
            Register8::B => self.b,
            Register8::C => self.c,
            Register8::D => self.d,
            Register8::E => self.e,
            Register8::H => self.h,
            Register8::L => self.l,
            Register8::F => self.f.byte(),
            Register8::DerefHL => 0,
        }
    }

    /// The registers after an 8-bit register (not (HL)) is given `v`; F keeps the high nibble.
    pub open spec fn with8(self, r: Register8, v: u8) -> Registers {
        match r {
            Register8::A => Registers { a: v, ..self },
            Register8::B => Registers { b: v, ..self },
            Register8::C => Registers { c: v, ..self },
            Register8::D => Registers { d: v, ..self },
            Register8::E => Registers { e: v, ..self },
            Register8::H => Registers { h: v, ..self },
            Register8::L => Registers { l: v, ..self },
            Register8::F => Registers { f: flags_of(v), ..self },
            Register8::DerefHL => self,
        }
    }

    /// The value of a 16-bit register.
    pub open spec fn reg16(self, p: Register16) -> u16 {
        match p {
            Register16::AF => join(self.a, self.f.byte()),
            Register16::BC => join(self.b, self.c),
            Register16::DE => join(self.d, self.e),
            Register16::HL => join(self.h, self.l),
            Register16::SP => self.sp,
        }
    }

    /// The registers after a 16-bit register is given `v`; for AF the low nibble of F is dropped.
    pub open spec fn with16(self, p: Register16, v: u16) -> Registers {
        match p {
            Register16::AF => Registers { a: (v / 256) as u8, f: flags_of((v % 256) as u8), ..self },
            Register16::BC => Registers { b: (v / 256) as u8, c: (v % 256) as u8, ..self },
            Register16::DE => Registers { d: (v / 256) as u8, e: (v % 256) as u8, ..self },
            Register16::HL => Registers { h: (v / 256) as u8, l: (v % 256) as u8, ..self },
            Register16::SP => Registers { sp: v, ..self },
        }
    }

    pub fn get_af(&self) -> (r: u16)
        ensures
            r == self.reg16(Register16::AF),
    {
        self.a as u16 * 256 + self.f.bits() as u16
    }

    pub fn set_af(&mut self, af: u16)
        ensures
            *final(self) == old(self).with16(Register16::AF, af),
    {
        self.a = (af / 256) as u8;
        self.f = Flag::new((af % 256) as u8);
    }

    pub fn get_bc(&self) -> (r: u16)
        ensures
            r == self.reg16(Register16::BC),
    {
        self.b as u16 * 256 + self.c as u16
    }

    pub fn set_bc(&mut self, bc: u16)
        ensures
            *final(self) == old(self).with16(Register16::BC, bc),
    {
        self.c = (bc % 256) as u8;
        self.b = (bc / 256) as u8;
    }

    pub fn get_de(&self) -> (r: u16)
        ensures
            r == self.reg16(Register16::DE),
    {
        self.d as u16 * 256 + self.e as u16
    }

    pub fn set_de(&mut self, de: u16)
        ensures
            *final(self) == old(self).with16(Register16::DE, de),
    {
        self.e = (de % 256) as u8;
        self.d = (de / 256) as u8;
    }

    pub fn get_hl(&self) -> (r: u16)
        ensures
            r == self.reg16(Register16::HL),
    {
        self.h as u16 * 256 + self.l as u16
    }

    pub fn set_hl(&mut self, hl: u16)
        ensures
            *final(self) == old(self).with16(Register16::HL, hl),
    {
        self.l = (hl % 256) as u8;
        self.h = (hl / 256) as u8;
    }

    /// Read an 8-bit register.
    pub fn read8(&self, r: Register8) -> (v: u8)
        requires
            r != Register8::DerefHL,
        ensures
            v == self.reg8(r),
    {
        match r {
            Register8::A => self.a,
            Register8::B => self.b,
            Register8::C => self.c,
            Register8::D => self.d,
            Register8::E => self.e,
            Register8::H => self.h,
            Register8::L => self.l,
            _ => self.f.bits(),
        }
    }

    /// Write an 8-bit register.
    pub fn write8(&mut self, r: Register8, v: u8)
        requires
            r != Register8::DerefHL,
        ensures
            *final(self) == old(self).with8(r, v),
    {
        match r {
            Register8::A => self.a = v,
            Register8::B => self.b = v,
            Register8::C => self.c = v,
            Register8::D => self.d = v,
            Register8::E => self.e = v,
            Register8::H => self.h = v,
            Register8::L => self.l = v,
            _ => self.f = Flag::new(v),
        }
    }

    /// Read a 16-bit register.
    pub fn read16(&self, p: Register16) -> (v: u16)
        ensures
            v == self.reg16(p),
    {
        match p {
            Register16::AF => self.get_af(),
            Register16::BC => self.get_bc(),
            Register16::DE => self.get_de(),
            Register16::HL => self.get_hl(),
            Register16::SP => self.sp,
        }
    }

    /// Write a 16-bit register.
    pub fn write16(&mut self, p: Register16, v: u16)
        ensures
            *final(self) == old(self).with16(p, v),
    {
        match p {
            Register16::AF => self.set_af(v),
            Register16::BC => self.set_bc(v),
            Register16::DE => self.set_de(v),
            Register16::HL => self.set_hl(v),
            Register16::SP => self.sp = v,
        }
    }
}

/// The flags held in the high nibble of a byte.
pub open spec fn flags_of(v: u8) -> Flag {
    Flag {
        zero: v / 128 % 2 == 1,
        subtract: v / 64 % 2 == 1,
        half_carry: v / 32 % 2 == 1,
        carry: v / 16 % 2 == 1,
    }
}

/// Writing a register pair and reading it back gives the value written; for AF the low
/// nibble reads as zero.
pub proof fn lemma_pair_round_trip(regs: Registers, p: Register16, v: u16)
    ensures
        p != Register16::AF ==> regs.with16(p, v).reg16(p) == v,
        p == Register16::AF ==> regs.with16(p, v).reg16(p) == v / 16 * 16,
{
    let lo = (v % 256) as u8;
    assert(flags_of(lo).byte() == lo / 16 * 16);
}

} // verus!
