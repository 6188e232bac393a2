use kunzite::cpu::decode::{decode_bytes, flag, reg16, reg16_af, reg8, CpuError};
use kunzite::cpu::instruction::{Flag, Instruction, Register16, Register8};

#[test]
fn decodes_main_table() {
    assert_eq!(decode_bytes(0x00, 0, 0), Ok(Instruction::Nop));
    assert_eq!(decode_bytes(0x01, 0x34, 0x12), Ok(Instruction::StoreImm16(Register16::BC, 0x1234)));
    assert_eq!(decode_bytes(0x08, 0x00, 0xC0), Ok(Instruction::StoreImm16AddrSp(0xC000)));
    assert_eq!(decode_bytes(0x18, 0xFE, 0), Ok(Instruction::Jr(None, -2)));
    assert_eq!(decode_bytes(0x20, 0x05, 0), Ok(Instruction::Jr(Some(Flag::NZ), 5)));
    assert_eq!(decode_bytes(0x38, 0x05, 0), Ok(Instruction::Jr(Some(Flag::C), 5)));
    assert_eq!(decode_bytes(0x22, 0, 0), Ok(Instruction::StoreAToHlAddr(true)));
    assert_eq!(decode_bytes(0x3A, 0, 0), Ok(Instruction::LoadAFromHlAddr(false)));
    assert_eq!(decode_bytes(0x36, 0x77, 0), Ok(Instruction::StoreImm8(Register8::DerefHL, 0x77)));
    assert_eq!(decode_bytes(0x76, 0, 0), Ok(Instruction::Halt));
    assert_eq!(decode_bytes(0x78, 0, 0), Ok(Instruction::Mov8(Register8::A, Register8::B)));
    assert_eq!(decode_bytes(0x66, 0, 0), Ok(Instruction::Mov8(Register8::H, Register8::DerefHL)));
    assert_eq!(decode_bytes(0x80, 0, 0), Ok(Instruction::Add(Register8::B)));
    assert_eq!(decode_bytes(0xBE, 0, 0), Ok(Instruction::Cp(Register8::DerefHL)));
    assert_eq!(decode_bytes(0xC1, 0, 0), Ok(Instruction::Pop(Register16::BC)));
    assert_eq!(decode_bytes(0xF5, 0, 0), Ok(Instruction::Push(Register16::AF)));
    assert_eq!(decode_bytes(0xCA, 0x00, 0x02), Ok(Instruction::Jp(Some(Flag::Z), 0x0200)));
    assert_eq!(decode_bytes(0xDA, 0x00, 0x02), Ok(Instruction::Jp(Some(Flag::C), 0x0200)));
    assert_eq!(decode_bytes(0xCD, 0x00, 0x02), Ok(Instruction::Call(None, 0x0200)));
    assert_eq!(decode_bytes(0xD9, 0, 0), Ok(Instruction::Reti));
    assert_eq!(decode_bytes(0xE0, 0x44, 0), Ok(Instruction::StoreHA(0x44)));
    assert_eq!(decode_bytes(0xE8, 0xFF, 0), Ok(Instruction::AddSp8(-1)));
    assert_eq!(decode_bytes(0xFE, 0x90, 0), Ok(Instruction::Cp8(0x90)));
    assert_eq!(decode_bytes(0xFF, 0, 0), Ok(Instruction::Rst(0x38)));
    assert_eq!(decode_bytes(0xFB, 0, 0), Ok(Instruction::Ei));
}

#[test]
fn decodes_prefixed_table() {
    assert_eq!(decode_bytes(0xCB, 0x00, 0), Ok(Instruction::Rlc(Register8::B)));
    assert_eq!(decode_bytes(0xCB, 0x37, 0), Ok(Instruction::Swap(Register8::A)));
    assert_eq!(decode_bytes(0xCB, 0x7C, 0), Ok(Instruction::Bit(7, Register8::H)));
    assert_eq!(decode_bytes(0xCB, 0x86, 0), Ok(Instruction::Res(0, Register8::DerefHL)));
    assert_eq!(decode_bytes(0xCB, 0xFF, 0), Ok(Instruction::SetBit(7, Register8::A)));
}

#[test]
fn undefined_opcodes_are_refused() {
    let undefined = [0xD3u8, 0xDB, 0xDD, 0xE3, 0xE4, 0xEB, 0xEC, 0xED, 0xF4, 0xFC, 0xFD];
    for op in 0..=255u8 {
        let r = decode_bytes(op, 0, 0);
        if undefined.contains(&op) {
            assert_eq!(r, Err(CpuError::UndefinedOpcode(op)));
        } else {
            assert!(r.is_ok(), "opcode {:02X}", op);
        }
    }
}

#[test]
fn sizes_and_cycles() {
    assert_eq!(Instruction::Nop.size(), 1);
    assert_eq!(Instruction::Stop.size(), 2);
    assert_eq!(Instruction::StoreImm16(Register16::HL, 0).size(), 3);
    assert_eq!(Instruction::Bit(0, Register8::A).size(), 2);
    assert_eq!(Instruction::Nop.cycles(), 4);
    assert_eq!(Instruction::Call(None, 0).cycles(), 24);
    assert_eq!(Instruction::Call(Some(Flag::Z), 0).cycles(), 12);
    assert_eq!(Instruction::Bit(0, Register8::DerefHL).cycles(), 12);
    assert_eq!(Instruction::SetBit(0, Register8::DerefHL).cycles(), 16);
    assert_eq!(Instruction::Mov8(Register8::A, Register8::DerefHL).cycles(), 8);
    assert_eq!(Instruction::StoreImm16AddrSp(0).cycles(), 20);
}

#[test]
fn operand_tables() {
    assert_eq!(reg8(6), Register8::DerefHL);
    assert_eq!(reg8(7), Register8::A);
    assert_eq!(reg16(3), Register16::SP);
    assert_eq!(reg16_af(3), Register16::AF);
    assert_eq!(flag(0), Flag::NZ);
    assert_eq!(flag(3), Flag::C);
    assert_eq!(Register16::DE.tear(), (Register8::D, Register8::E));
    assert_eq!(Register16::AF.tear(), (Register8::A, Register8::F));
}
