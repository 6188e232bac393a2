use vstd::prelude::*;

use super::instruction::{Flag, Instruction, Register16, Register8};

verus! {

/// Why the CPU cannot go on.
#[derive(Clone, Copy, Debug, PartialEq, Eq, Structural)]
pub enum CpuError {
    /// The opcode is not defined on this CPU.
    UndefinedOpcode(u8),
}

/// The 8-bit operand table: B, C, D, E, H, L, (HL), A.
pub open spec fn r_table(i: u8) -> Register8 {
    if i == 0 {
        Register8::B
    } else if i == 1 {
        Register8::C
    } else if i == 2 {
        Register8::D
    } else if i == 3 {
        Register8::E
    } else if i == 4 {
        Register8::H
    } else if i == 5 {
        Register8::L
    } else if i == 6 {
        Register8::DerefHL
    } else {
        Register8::A
    }
}

/// The register pair table with SP: BC, DE, HL, SP.
pub open spec fn rp_table(i: u8) -> Register16 {
    if i == 0 {
        Register16::BC
    } else if i == 1 {
        Register16::DE
    } else if i == 2 {
        Register16::HL
    } else {
        Register16::SP
    }
}

/// The register pair table with AF: BC, DE, HL, AF.
pub open spec fn rp2_table(i: u8) -> Register16 {
    if i == 3 {
        Register16::AF
    } else {
        rp_table(i)
    }
}

/// The condition table: NZ, Z, NC, C.
pub open spec fn cc_table(i: u8) -> Flag {
    if i == 0 {
        Flag::NZ
    } else if i == 1 {
        Flag::Z
    } else if i == 2 {
        Flag::NC
    } else {
        Flag::C
    }
}

/// The prefixed instruction that the byte after 0xCB selects.
pub open spec fn decode_cb_spec(n: u8) -> Instruction {
    let x = n / 64;
    let y = n / 8 % 8;
    let reg = r_table(n % 8);
    if x == 0 {
        if y == 0 {
            Instruction::Rlc(reg)
        } else if y == 1 {
            Instruction::Rrc(reg)
        } else if y == 2 {
            Instruction::Rl(reg)
        } else if y == 3 {
            Instruction::Rr(reg)
        } else if y == 4 {
            Instruction::Sla(reg)
        } else if y == 5 {
            Instruction::Sra(reg)
        } else if y == 6 {
            Instruction::Swap(reg)
        } else {
            Instruction::Srl(reg)
        }
    } else if x == 1 {
        Instruction::Bit(y, reg)
    } else if x == 2 {
        Instruction::Res(y, reg)
    } else {
        Instruction::SetBit(y, reg)
    }
}

/// The arithmetic or logic instruction `y` on operand `r`: ADD ADC SUB SBC AND XOR OR CP.
pub open spec fn alu_r_spec(y: u8, r: Register8) -> Instruction {
    if y == 0 {
        Instruction::Add(r)
    } else if y == 1 {
        Instruction::Adc(r)
    } else if y == 2 {
        Instruction::Sub(r)
    } else if y == 3 {
        Instruction::Sbc(r)
    } else if y == 4 {
        Instruction::And(r)
    } else if y == 5 {
        Instruction::Xor(r)
    } else if y == 6 {
        Instruction::Or(r)
    } else {
        Instruction::Cp(r)
    }
}

/// The arithmetic or logic instruction `y` on an immediate byte.
pub open spec fn alu_n_spec(y: u8, n: u8) -> Instruction {
    if y == 0 {
        Instruction::Add8(n)
    } else if y == 1 {
        Instruction::Adc8(n)
    } else if y == 2 {
        Instruction::Sub8(n)
    } else if y == 3 {
        Instruction::Sbc8(n)
    } else if y == 4 {
        Instruction::And8(n)
    } else if y == 5 {
        Instruction::Xor8(n)
    } else if y == 6 {
        Instruction::Or8(n)
    } else {
        Instruction::Cp8(n)
    }
}

/// The instruction that starts with `op`, followed by the bytes `n` and `n2`
/// (`nn` = `n2 * 256 + n`), split as x = bits 7-6, y = bits 5-3, z = bits 2-0, p = y / 2,
/// q = y % 2.
#[verifier::opaque]
pub open spec fn decode_spec(op: u8, n: u8, n2: u8) -> Result<Instruction, CpuError> {
    let x = op / 64;
    let y = op / 8 % 8;
    let z = op % 8;
    let p = y / 2;
    let q = y % 2;
    let nn = (n2 * 256 + n) as u16;
    let d = n as i8;
    if op == 0xCB {
        Ok(decode_cb_spec(n))
    } else if x == 0 {
        if z == 0 {
            if y == 0 {
                Ok(Instruction::Nop)
            } else if y == 1 {
                Ok(Instruction::StoreImm16AddrSp(nn))
            } else if y == 2 {
                Ok(Instruction::Stop)
            } else if y == 3 {
                Ok(Instruction::Jr(None, d))
            } else {
                Ok(Instruction::Jr(Some(cc_table((y - 4) as u8)), d))
            }
        } else if z == 1 {
            if q == 0 {
                Ok(Instruction::StoreImm16(rp_table(p), nn))
            } else {
                Ok(Instruction::AddHl(rp_table(p)))
            }
        } else if z == 2 {
            if q == 0 {
                if p == 0 {
                    Ok(Instruction::StoreATo16(Register16::BC))
                } else if p == 1 {
                    Ok(Instruction::StoreATo16(Register16::DE))
                } else {
                    Ok(Instruction::StoreAToHlAddr(p == 2))
                }
            } else {
                if p == 0 {
                    Ok(Instruction::LoadAFromReg16Addr(Register16::BC))
                } else if p == 1 {
                    Ok(Instruction::LoadAFromReg16Addr(Register16::DE))
                } else {
                    Ok(Instruction::LoadAFromHlAddr(p == 2))
                }
            }
        } else if z == 3 {
            if q == 0 {
                Ok(Instruction::Inc16(rp_table(p)))
            } else {
                Ok(Instruction::Dec16(rp_table(p)))
            }
        } else if z == 4 {
            Ok(Instruction::Inc8(r_table(y)))
        } else if z == 5 {
            Ok(Instruction::Dec8(r_table(y)))
        } else if z == 6 {
            Ok(Instruction::StoreImm8(r_table(y), n))
        } else {
            if y == 0 {
                Ok(Instruction::Rlca)
            } else if y == 1 {
                Ok(Instruction::Rrca)
            } else if y == 2 {
                Ok(Instruction::Rla)
            } else if y == 3 {
                Ok(Instruction::Rra)
            } else if y == 4 {
                Ok(Instruction::Daa)
            } else if y == 5 {
                Ok(Instruction::Cpl)
            } else if y == 6 {
                Ok(Instruction::Scf)
            } else {
                Ok(Instruction::Ccf)
            }
        }
    } else if x == 1 {
        if z == 6 && y == 6 {
            Ok(Instruction::Halt)
        } else {
            Ok(Instruction::Mov8(r_table(y), r_table(z)))
        }
    } else if x == 2 {
        Ok(alu_r_spec(y, r_table(z)))
    } else {
        if z == 0 {
            if y < 4 {
                Ok(Instruction::Ret(Some(cc_table(y))))
            } else if y == 4 {
                Ok(Instruction::StoreHA(n))
            } else if y == 5 {
                Ok(Instruction::AddSp8(d))
            } else if y == 6 {
                Ok(Instruction::LoadHA(n))
            } else {
                Ok(Instruction::LdHlSp8(d))
            }
        } else if z == 1 {
            if q == 0 {
                Ok(Instruction::Pop(rp2_table(p)))
            } else if p == 0 {
                Ok(Instruction::Ret(None))
            } else if p == 1 {
                Ok(Instruction::Reti)
            } else if p == 2 {
                Ok(Instruction::JpHl)
            } else {
                Ok(Instruction::LdSpHl)
            }
        } else if z == 2 {
            if y < 4 {
                Ok(Instruction::Jp(Some(cc_table(y)), nn))
            } else if y == 4 {
                Ok(Instruction::StoreCA)
            } else if y == 5 {
                Ok(Instruction::StoreAAtAddress(nn))
            } else if y == 6 {
                Ok(Instruction::LoadCA)
            } else {
                Ok(Instruction::LoadAFromAddress(nn))
            }
        } else if z == 3 {
            if y == 0 {
                Ok(Instruction::Jp(None, nn))
            } else if y == 6 {
                Ok(Instruction::Di)
            } else if y == 7 {
                Ok(Instruction::Ei)
            } else {
                Err(CpuError::UndefinedOpcode(op))
            }
        } else if z == 4 {
            if y < 4 {
                Ok(Instruction::Call(Some(cc_table(y)), nn))
            } else {
                Err(CpuError::UndefinedOpcode(op))
            }
        } else if z == 5 {
            if q == 0 {
                Ok(Instruction::Push(rp2_table(p)))
            } else if p == 0 {
                Ok(Instruction::Call(None, nn))
            } else {
                Err(CpuError::UndefinedOpcode(op))
            }
        } else if z == 6 {
            Ok(alu_n_spec(y, n))
        } else {
            Ok(Instruction::Rst((y * 8) as u8))
        }
    }
}

/// The opcodes that this CPU leaves undefined.
pub open spec fn undefined_opcode(op: u8) -> bool {
    op == 0xD3 || op == 0xDB || op == 0xDD || op == 0xE3 || op == 0xE4 || op == 0xEB || op
        == 0xEC || op == 0xED || op == 0xF4 || op == 0xFC || op == 0xFD
}

/// Decoding fails exactly on the undefined opcodes.
pub proof fn lemma_decode_fails_iff_undefined(op: u8, n: u8, n2: u8)
    ensures
        decode_spec(op, n, n2) is Err <==> undefined_opcode(op),
{
    reveal(decode_spec);
}

/// The 8-bit operand at index `idx` (0 to 7) of the operand table.
pub fn reg8(idx: u8) -> (r: Register8)
    requires
        idx < 8,
    ensures
        r == r_table(idx),
{
    if idx == 0 {
        Register8::B
    } else if idx == 1 {
        Register8::C
    } else if idx == 2 {
        Register8::D
    } else if idx == 3 {
        Register8::E
    } else if idx == 4 {
        Register8::H
    } else if idx == 5 {
        Register8::L
    } else if idx == 6 {
        Register8::DerefHL
    } else {
        Register8::A
    }
}

/// The register pair at index `idx` (0 to 3) of the table ending with SP.
pub fn reg16(idx: u8) -> (r: Register16)
    requires
        idx < 4,
    ensures
        r == rp_table(idx),
{
    if idx == 0 {
        Register16::BC
    } else if idx == 1 {
        Register16::DE
    } else if idx == 2 {
        Register16::HL
    } else {
        Register16::SP
    }
}

/// The register pair at index `idx` (0 to 3) of the table ending with AF.
pub fn reg16_af(idx: u8) -> (r: Register16)
    requires
        idx < 4,
    ensures
        r == rp2_table(idx),
{
    if idx == 3 {
        Register16::AF
    } else {
        reg16(idx)
    }
}

/// The condition at index `idx` (0 to 3) of the condition table.
pub fn flag(idx: u8) -> (r: Flag)
    requires
        idx < 4,
    ensures
        r == cc_table(idx),
{
    if idx == 0 {
        Flag::NZ
    } else if idx == 1 {
        Flag::Z
    } else if idx == 2 {
        Flag::NC
    } else {
        Flag::C
    }
}

fn decode_cb(n: u8) -> (r: Instruction)
    ensures
        r == decode_cb_spec(n),
{
    let x = n / 64;
    let y = n / 8 % 8;
    let reg = reg8(n % 8);
    if x == 0 {
        if y == 0 {
            Instruction::Rlc(reg)
        } else if y == 1 {
            Instruction::Rrc(reg)
        } else if y == 2 {
            Instruction::Rl(reg)
        } else if y == 3 {
            Instruction::Rr(reg)
        } else if y == 4 {
            Instruction::Sla(reg)
        } else if y == 5 {
            Instruction::Sra(reg)
        } else if y == 6 {
            Instruction::Swap(reg)
        } else {
            Instruction::Srl(reg)
        }
    } else if x == 1 {
        Instruction::Bit(y, reg)
    } else if x == 2 {
        Instruction::Res(y, reg)
    } else {
        Instruction::SetBit(y, reg)
    }
}

fn alu_r(y: u8, r: Register8) -> (i: Instruction)
    ensures
        i == alu_r_spec(y, r),
{
    if y == 0 {
        Instruction::Add(r)
    } else if y == 1 {
        Instruction::Adc(r)
    } else if y == 2 {
        Instruction::Sub(r)
    } else if y == 3 {
        Instruction::Sbc(r)
    } else if y == 4 {
        Instruction::And(r)
    } else if y == 5 {
        Instruction::Xor(r)
    } else if y == 6 {
        Instruction::Or(r)
    } else {
        Instruction::Cp(r)
    }
}

fn alu_n(y: u8, n: u8) -> (i: Instruction)
    ensures
        i == alu_n_spec(y, n),
{
    if y == 0 {
        Instruction::Add8(n)
    } else if y == 1 {
        Instruction::Adc8(n)
    } else if y == 2 {
        Instruction::Sub8(n)
    } else if y == 3 {
        Instruction::Sbc8(n)
    } else if y == 4 {
        Instruction::And8(n)
    } else if y == 5 {
        Instruction::Xor8(n)
    } else if y == 6 {
        Instruction::Or8(n)
    } else {
        Instruction::Cp8(n)
    }
}

/// Decode the instruction that starts with `op`, followed by the bytes `n` and `n2`.
pub fn decode_bytes(op: u8, n: u8, n2: u8) -> (r: Result<Instruction, CpuError>)
    ensures
        r == decode_spec(op, n, n2),
{
    reveal(decode_spec);
    let x = op / 64;
    let y = op / 8 % 8;
    let z = op % 8;
    let p = y / 2;
    let q = y % 2;
    let nn: u16 = n2 as u16 * 256 + n as u16;
    let d = n as i8;
    if op == 0xCB {
        Ok(decode_cb(n))
    } else if x == 0 {
        if z == 0 {
            if y == 0 {
                Ok(Instruction::Nop)
            } else if y == 1 {
                Ok(Instruction::StoreImm16AddrSp(nn))
            } else if y == 2 {
                Ok(Instruction::Stop)
            } else if y == 3 {
                Ok(Instruction::Jr(None, d))
            } else {
                Ok(Instruction::Jr(Some(flag(y - 4)), d))
            }
        } else if z == 1 {
            if q == 0 {
                Ok(Instruction::StoreImm16(reg16(p), nn))
            } else {
                Ok(Instruction::AddHl(reg16(p)))
            }
        } else if z == 2 {
            if q == 0 {
                if p == 0 {
                    Ok(Instruction::StoreATo16(Register16::BC))
                } else if p == 1 {
                    Ok(Instruction::StoreATo16(Register16::DE))
                } else {
                    Ok(Instruction::StoreAToHlAddr(p == 2))
                }
            } else {
                if p == 0 {
                    Ok(Instruction::LoadAFromReg16Addr(Register16::BC))
                } else if p == 1 {
                    Ok(Instruction::LoadAFromReg16Addr(Register16::DE))
                } else {
                    Ok(Instruction::LoadAFromHlAddr(p == 2))
                }
            }
        } else if z == 3 {
            if q == 0 {
                Ok(Instruction::Inc16(reg16(p)))
            } else {
                Ok(Instruction::Dec16(reg16(p)))
            }
        } else if z == 4 {
            Ok(Instruction::Inc8(reg8(y)))
        } else if z == 5 {
            Ok(Instruction::Dec8(reg8(y)))
        } else if z == 6 {
            Ok(Instruction::StoreImm8(reg8(y), n))
        } else {
            if y == 0 {
                Ok(Instruction::Rlca)
            } else if y == 1 {
                Ok(Instruction::Rrca)
            } else if y == 2 {
                Ok(Instruction::Rla)
            } else if y == 3 {
                Ok(Instruction::Rra)
            } else if y == 4 {
                Ok(Instruction::Daa)
            } else if y == 5 {
                Ok(Instruction::Cpl)
            } else if y == 6 {
                Ok(Instruction::Scf)
            } else {
                Ok(Instruction::Ccf)
            }
        }
    } else if x == 1 {
        if z == 6 && y == 6 {
            Ok(Instruction::Halt)
        } else {
            Ok(Instruction::Mov8(reg8(y), reg8(z)))
        }
    } else if x == 2 {
        Ok(alu_r(y, reg8(z)))
    } else {
        if z == 0 {
            if y < 4 {
                Ok(Instruction::Ret(Some(flag(y))))
            } else if y == 4 {
                Ok(Instruction::StoreHA(n))
            } else if y == 5 {
                Ok(Instruction::AddSp8(d))
            } else if y == 6 {
                Ok(Instruction::LoadHA(n))
            } else {
                Ok(Instruction::LdHlSp8(d))
            }
        } else if z == 1 {
            if q == 0 {
                Ok(Instruction::Pop(reg16_af(p)))
            } else if p == 0 {
                Ok(Instruction::Ret(None))
            } else if p == 1 {
                Ok(Instruction::Reti)
            } else if p == 2 {
                Ok(Instruction::JpHl)
            } else {
                Ok(Instruction::LdSpHl)
            }
        } else if z == 2 {
            if y < 4 {
                Ok(Instruction::Jp(Some(flag(y)), nn))
            } else if y == 4 {
                Ok(Instruction::StoreCA)
            } else if y == 5 {
                Ok(Instruction::StoreAAtAddress(nn))
            } else if y == 6 {
                Ok(Instruction::LoadCA)
            } else {
                Ok(Instruction::LoadAFromAddress(nn))
            }
        } else if z == 3 {
            if y == 0 {
                Ok(Instruction::Jp(None, nn))
            } else if y == 6 {
                Ok(Instruction::Di)
            } else if y == 7 {
                Ok(Instruction::Ei)
            } else {
                Err(CpuError::UndefinedOpcode(op))
            }
        } else if z == 4 {
            if y < 4 {
                Ok(Instruction::Call(Some(flag(y)), nn))
            } else {
                Err(CpuError::UndefinedOpcode(op))
            }
        } else if z == 5 {
            if q == 0 {
                Ok(Instruction::Push(reg16_af(p)))
            } else if p == 0 {
                Ok(Instruction::Call(None, nn))
            } else {
                Err(CpuError::UndefinedOpcode(op))
            }
        } else if z == 6 {
            Ok(alu_n(y, n))
        } else {
            Ok(Instruction::Rst(y * 8))
        }
    }
}

} // verus!
