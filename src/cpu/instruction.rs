use vstd::prelude::*;

verus! {

/// An 8-bit operand: a register, or the byte at the address held in HL.
#[derive(Clone, Copy, Debug, PartialEq, Eq, Structural)]
pub enum Register8 {
    A,
    B,
    C,
    D,
    E,
    H,
    L,
    DerefHL,
    F,
}

/// A 16-bit register: a pair of 8-bit registers, or the stack pointer.
#[derive(Clone, Copy, Debug, PartialEq, Eq, Structural)]
pub enum Register16 {
    BC,
    DE,
    HL,
    AF,
    SP,
}

/// A branch condition, or a single flag.
#[derive(Clone, Copy, Debug, PartialEq, Eq, Structural)]
pub enum Flag {
    /// Zero
    Z,
    /// Not zero
    NZ,
    /// Subtract
    N,
    /// Half-carry
    H,
    /// Carry
    C,
    /// Not carry
    NC,
}

/// One decoded instruction with its immediate operands.
///
/// Names read `ActionDestSrc` where there is ambiguity: `StoreImm16AddrSp` stores SP
/// at the address given by the immediate 16-bit value.
#[derive(Clone, Copy, Debug, PartialEq, Eq, Structural)]
pub enum Instruction {
    /// No operation.
    Nop,
    /// Enter the low-power STOP state.
    Stop,
    /// Enter the low-power HALT state until an interrupt is serviced.
    Halt,
    /// Load an immediate value into a 16-bit register.
    StoreImm16(Register16, u16),
    /// Load an immediate value into an 8-bit operand.
    StoreImm8(Register8, u8),
    /// Store A at (HL), then increment (true) or decrement (false) HL.
    StoreAToHlAddr(bool),
    /// Load A from (HL), then increment (true) or decrement (false) HL.
    LoadAFromHlAddr(bool),
    /// Store A at the address held in BC or DE.
    StoreATo16(Register16),
    /// Load A from the address held in BC or DE.
    LoadAFromReg16Addr(Register16),
    /// Copy one 8-bit operand into another.
    Mov8(Register8, Register8),
    /// Relative jump, if the condition holds, by a signed displacement.
    Jr(Option<Flag>, i8),
    /// Absolute jump, if the condition holds.
    Jp(Option<Flag>, u16),
    /// Increment an 8-bit operand.
    Inc8(Register8),
    /// Decrement an 8-bit operand.
    Dec8(Register8),
    /// Increment a 16-bit register.
    Inc16(Register16),
    /// Decrement a 16-bit register.
    Dec16(Register16),
    /// Push a register pair onto the stack.
    Push(Register16),
    /// Pop a register pair off the stack.
    Pop(Register16),
    /// A += operand.
    Add(Register8),
    /// A += operand + carry.
    Adc(Register8),
    /// A -= operand.
    Sub(Register8),
    /// A -= operand + carry.
    Sbc(Register8),
    /// A &= operand.
    And(Register8),
    /// A ^= operand.
    Xor(Register8),
    /// A |= operand.
    Or(Register8),
    /// Compare A with the operand, setting flags only.
    Cp(Register8),
    /// A += immediate.
    Add8(u8),
    /// A += immediate + carry.
    Adc8(u8),
    /// A -= immediate.
    Sub8(u8),
    /// A -= immediate + carry.
    Sbc8(u8),
    /// A &= immediate.
    And8(u8),
    /// A ^= immediate.
    Xor8(u8),
    /// A |= immediate.
    Or8(u8),
    /// Compare A with the immediate, setting flags only.
    Cp8(u8),
    /// SP += signed immediate.
    AddSp8(i8),
    /// Decimal-adjust A after a BCD addition or subtraction.
    Daa,
    /// Set the carry flag.
    Scf,
    /// A = !A.
    Cpl,
    /// Complement the carry flag.
    Ccf,
    /// Rotate A left.
    Rlca,
    /// Rotate A left through carry.
    Rla,
    /// Rotate A right.
    Rrca,
    /// Rotate A right through carry.
    Rra,
    /// Store SP at the immediate address.
    StoreImm16AddrSp(u16),
    /// HL += a 16-bit register.
    AddHl(Register16),
    /// Return, if the condition holds.
    Ret(Option<Flag>),
    /// Return and clear the interrupt master enable.
    Reti,
    /// Disable interrupts.
    Di,
    /// Enable interrupts.
    Ei,
    /// Call, if the condition holds: push the return address and jump.
    Call(Option<Flag>, u16),
    /// Jump to the address held in HL.
    JpHl,
    /// Call the fixed address given (a multiple of 8 below 0x40).
    Rst(u8),
    /// HL = SP + signed immediate.
    LdHlSp8(i8),
    /// SP = HL.
    LdSpHl,
    /// Store A at 0xFF00 + immediate.
    StoreHA(u8),
    /// Load A from 0xFF00 + immediate.
    LoadHA(u8),
    /// Store A at 0xFF00 + C.
    StoreCA,
    /// Load A from 0xFF00 + C.
    LoadCA,
    /// Store A at the immediate address.
    StoreAAtAddress(u16),
    /// Load A from the immediate address.
    LoadAFromAddress(u16),
    /// Rotate left.
    Rlc(Register8),
    /// Rotate right.
    Rrc(Register8),
    /// Rotate right through carry.
    Rr(Register8),
    /// Rotate left through carry.
    Rl(Register8),
    /// Arithmetic shift left.
    Sla(Register8),
    /// Arithmetic shift right.
    Sra(Register8),
    /// Swap the two nibbles.
    Swap(Register8),
    /// Logical shift right.
    Srl(Register8),
    /// Test bit (0 to 7) of the operand.
    Bit(u8, Register8),
    /// Clear bit (0 to 7) of the operand.
    Res(u8, Register8),
    /// Set bit (0 to 7) of the operand.
    SetBit(u8, Register8),
}

impl Instruction {
    /// The number of bytes the instruction occupies, opcode and prefix included.
    pub open spec fn byte_len(self) -> u16 {
        match self {
            Instruction::StoreImm16(..) | Instruction::Jp(..) | Instruction::StoreImm16AddrSp(..)
            | Instruction::Call(..) | Instruction::StoreAAtAddress(..)
            | Instruction::LoadAFromAddress(..) => 3,
            Instruction::Stop | Instruction::StoreImm8(..) | Instruction::Jr(..)
            | Instruction::Add8(..) | Instruction::Adc8(..) | Instruction::Sub8(..)
            | Instruction::Sbc8(..) | Instruction::And8(..) | Instruction::Xor8(..)
            | Instruction::Or8(..) | Instruction::Cp8(..) | Instruction::AddSp8(..)
            | Instruction::LdHlSp8(..) | Instruction::StoreHA(..) | Instruction::LoadHA(..)
            | Instruction::Rlc(..) | Instruction::Rrc(..) | Instruction::Rr(..)
            | Instruction::Rl(..) | Instruction::Sla(..) | Instruction::Sra(..)
            | Instruction::Swap(..) | Instruction::Srl(..) | Instruction::Bit(..)
            | Instruction::Res(..) | Instruction::SetBit(..) => 2,
            _ => 1,
        }
    }

    /// The number of bytes the instruction takes up.
    pub fn size(&self) -> (r: u16)
        ensures
            r == self.byte_len(),
            1 <= r <= 3,
    {
        match self {
            Instruction::StoreImm16(..) | Instruction::Jp(..) | Instruction::StoreImm16AddrSp(..)
            | Instruction::Call(..) | Instruction::StoreAAtAddress(..)
            | Instruction::LoadAFromAddress(..) => 3,
            Instruction::Stop | Instruction::StoreImm8(..) | Instruction::Jr(..)
            | Instruction::Add8(..) | Instruction::Adc8(..) | Instruction::Sub8(..)
            | Instruction::Sbc8(..) | Instruction::And8(..) | Instruction::Xor8(..)
            | Instruction::Or8(..) | Instruction::Cp8(..) | Instruction::AddSp8(..)
            | Instruction::LdHlSp8(..) | Instruction::StoreHA(..) | Instruction::LoadHA(..)
            | Instruction::Rlc(..) | Instruction::Rrc(..) | Instruction::Rr(..)
            | Instruction::Rl(..) | Instruction::Sla(..) | Instruction::Sra(..)
            | Instruction::Swap(..) | Instruction::Srl(..) | Instruction::Bit(..)
            | Instruction::Res(..) | Instruction::SetBit(..) => 2,
            _ => 1,
        }
    }

    /// The base cost in clock ticks, before any extra cost of a taken branch.
    pub open spec fn base_cycles(self) -> u32 {
        match self {
            Instruction::StoreImm16AddrSp(..) => 20,
            Instruction::Call(None, _) => 24,
            Instruction::Jp(None, _) | Instruction::Push(..) | Instruction::AddSp8(..)
            | Instruction::Ret(None) | Instruction::Reti | Instruction::Rst(..)
            | Instruction::StoreAAtAddress(..) | Instruction::LoadAFromAddress(..) => 16,
            Instruction::StoreImm16(..) | Instruction::Jr(None, _) | Instruction::Jp(Some(_), _)
            | Instruction::Pop(..) | Instruction::LdHlSp8(..) | Instruction::Call(Some(_), _)
            | Instruction::StoreHA(..) | Instruction::LoadHA(..) => 12,
            Instruction::StoreImm8(r, _) | Instruction::Inc8(r) | Instruction::Dec8(r) => if r
                == Register8::DerefHL {
                12
            } else {
                4
            },
            Instruction::Mov8(d, s) => if d == Register8::DerefHL || s == Register8::DerefHL {
                8
            } else {
                4
            },
            Instruction::Add(r) | Instruction::Adc(r) | Instruction::Sub(r) | Instruction::Sbc(r)
            | Instruction::And(r) | Instruction::Xor(r) | Instruction::Or(r)
            | Instruction::Cp(r) => if r == Register8::DerefHL {
                8
            } else {
                4
            },
            Instruction::Rlc(r) | Instruction::Rrc(r) | Instruction::Rr(r) | Instruction::Rl(r)
            | Instruction::Sla(r) | Instruction::Sra(r) | Instruction::Swap(r)
            | Instruction::Srl(r) | Instruction::Res(_, r) | Instruction::SetBit(_, r) => if r
                == Register8::DerefHL {
                16
            } else {
                8
            },
            Instruction::Bit(_, r) => if r == Register8::DerefHL {
                12
            } else {
                8
            },
            Instruction::StoreAToHlAddr(..) | Instruction::LoadAFromHlAddr(..)
            | Instruction::StoreATo16(..) | Instruction::LoadAFromReg16Addr(..)
            | Instruction::Jr(Some(_), _) | Instruction::Inc16(..) | Instruction::Dec16(..)
            | Instruction::Add8(..) | Instruction::Adc8(..) | Instruction::Sub8(..)
            | Instruction::Sbc8(..) | Instruction::And8(..) | Instruction::Xor8(..)
            | Instruction::Or8(..) | Instruction::Cp8(..) | Instruction::AddHl(..)
            | Instruction::Ret(Some(_)) | Instruction::LdSpHl | Instruction::StoreCA
            | Instruction::LoadCA => 8,
            _ => 4,
        }
    }

    /// The base cost in clock ticks, before any extra cost of a taken branch.
    pub fn cycles(&self) -> (r: u32)
        ensures
            r == self.base_cycles(),
            4 <= r <= 24,
    {
        match *self {
            Instruction::StoreImm16AddrSp(..) => 20,
            Instruction::Call(None, _) => 24,
            Instruction::Jp(None, _) | Instruction::Push(..) | Instruction::AddSp8(..)
            | Instruction::Ret(None) | Instruction::Reti | Instruction::Rst(..)
            | Instruction::StoreAAtAddress(..) | Instruction::LoadAFromAddress(..) => 16,
            Instruction::StoreImm16(..) | Instruction::Jr(None, _) | Instruction::Jp(Some(_), _)
            | Instruction::Pop(..) | Instruction::LdHlSp8(..) | Instruction::Call(Some(_), _)
            | Instruction::StoreHA(..) | Instruction::LoadHA(..) => 12,
            Instruction::StoreImm8(r, _) | Instruction::Inc8(r) | Instruction::Dec8(r) => if r
                == Register8::DerefHL {
                12
            } else {
                4
            },
            Instruction::Mov8(d, s) => if d == Register8::DerefHL || s == Register8::DerefHL {
                8
            } else {
                4
            },
            Instruction::Add(r) | Instruction::Adc(r) | Instruction::Sub(r) | Instruction::Sbc(r)
            | Instruction::And(r) | Instruction::Xor(r) | Instruction::Or(r)
            | Instruction::Cp(r) => if r == Register8::DerefHL {
                8
            } else {
                4
            },
            Instruction::Rlc(r) | Instruction::Rrc(r) | Instruction::Rr(r) | Instruction::Rl(r)
            | Instruction::Sla(r) | Instruction::Sra(r) | Instruction::Swap(r)
            | Instruction::Srl(r) | Instruction::Res(_, r) | Instruction::SetBit(_, r) => if r
                == Register8::DerefHL {
                16
            } else {
                8
            },
            Instruction::Bit(_, r) => if r == Register8::DerefHL {
                12
            } else {
                8
            },
            Instruction::StoreAToHlAddr(..) | Instruction::LoadAFromHlAddr(..)
            | Instruction::StoreATo16(..) | Instruction::LoadAFromReg16Addr(..)
            | Instruction::Jr(Some(_), _) | Instruction::Inc16(..) | Instruction::Dec16(..)
            | Instruction::Add8(..) | Instruction::Adc8(..) | Instruction::Sub8(..)
            | Instruction::Sbc8(..) | Instruction::And8(..) | Instruction::Xor8(..)
            | Instruction::Or8(..) | Instruction::Cp8(..) | Instruction::AddHl(..)
            | Instruction::Ret(Some(_)) | Instruction::LdSpHl | Instruction::StoreCA
            | Instruction::LoadCA => 8,
            _ => 4,
        }
    }

    /// Whether the instruction sets the program counter itself (jumps, calls, returns, restarts).
    pub open spec fn is_jump(self) -> bool {
        match self {
            Instruction::Jr(..) | Instruction::Jp(..) | Instruction::JpHl | Instruction::Call(..)
            | Instruction::Ret(..) | Instruction::Reti | Instruction::Rst(..) => true,
            _ => false,
        }
    }
}

impl Register16 {
    /// The two 8-bit registers of a pair: high byte first.
    pub open spec fn halves(self) -> (Register8, Register8) {
        match self {
            Register16::BC => (Register8::B, Register8::C),
            Register16::DE => (Register8::D, Register8::E),
            Register16::HL => (Register8::H, Register8::L),
            _ => (Register8::A, Register8::F),
        }
    }

    /// Split a register pair into its high and low 8-bit registers.
    pub fn tear(&self) -> (r: (Register8, Register8))
        requires
            *self != Register16::SP,
        ensures
            r == self.halves(),
    {
        match self {
            Register16::BC => (Register8::B, Register8::C),
            Register16::DE => (Register8::D, Register8::E),
            Register16::HL => (Register8::H, Register8::L),
            _ => (Register8::A, Register8::F),
        }
    }
}

} // verus!
