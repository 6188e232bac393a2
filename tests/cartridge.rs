use kunzite::memory::cartridge::{Cartridge, CartridgeError};
use kunzite::memory::mbc::{Mbc1, MbcType, RomOnly};

fn header_checksum(rom: &[u8]) -> u8 {
    let mut x: u8 = 0;
    for b in &rom[0x134..0x14D] {
        x = x.wrapping_sub(*b).wrapping_sub(1);
    }
    x
}

fn image(cart_type: u8, rom_code: u8, ram_code: u8) -> Vec<u8> {
    let mut rom = vec![0u8; 0x8000 << rom_code];
    rom[0x134..0x138].copy_from_slice(b"TEST");
    rom[0x143] = 0x80;
    rom[0x147] = cart_type;
    rom[0x148] = rom_code;
    rom[0x149] = ram_code;
    rom[0x14D] = header_checksum(&rom);
    rom
}

#[test]
fn valid_header_is_accepted() {
    let c = Cartridge::from_rom(image(0x01, 1, 2)).ok().unwrap();
    assert_eq!(c.get_rom_banks(), 4);
    assert_eq!(c.get_ram_banks(), 1);
    assert_eq!(c.get_ram_size(), 2);
    assert_eq!(c.get_mbc_type(), MbcType::Mbc1);
    assert_eq!(c.get_rom().len(), 0x10000);
    assert_eq!(c.get_ram().len(), 0x8000);
    assert!(c.get_ram().iter().all(|b| *b == 0xFF));
    assert_eq!(c.get_name(), "TEST");
    assert!(c.is_cgb());
}

#[test]
fn ram_size_codes_map_to_banks() {
    let banks = [0usize, 1, 1, 4, 16, 8];
    for (code, expected) in banks.iter().enumerate() {
        let c = Cartridge::from_rom(image(0x00, 0, code as u8)).ok().unwrap();
        assert_eq!(c.get_ram_banks(), *expected);
    }
}

#[test]
fn controller_types_are_classified() {
    let cases = [
        (0x00u8, MbcType::RomOnly),
        (0x09, MbcType::RomOnly),
        (0x03, MbcType::Mbc1),
        (0xFF, MbcType::Mbc1),
        (0x06, MbcType::Mbc2),
        (0x13, MbcType::Mbc3),
        (0x1B, MbcType::Mbc5),
    ];
    for (t, m) in cases.iter() {
        let c = Cartridge::from_rom(image(*t, 0, 0)).ok().unwrap();
        assert_eq!(c.get_mbc_type(), *m);
    }
}

#[test]
fn short_image_is_refused() {
    assert_eq!(Cartridge::from_rom(vec![0u8; 0x14F]).err(), Some(CartridgeError::TooShort));
}

#[test]
fn unknown_cartridge_type_is_refused() {
    let rom = image(0x20, 0, 0);
    assert_eq!(Cartridge::from_rom(rom).err(), Some(CartridgeError::UnsupportedType(0x20)));
}

#[test]
fn unknown_rom_size_is_refused() {
    let mut rom = image(0x00, 0, 0);
    rom[0x148] = 9;
    assert_eq!(Cartridge::from_rom(rom).err(), Some(CartridgeError::UnknownRomSize(9)));
}

#[test]
fn length_mismatch_is_refused() {
    let mut rom = image(0x00, 0, 0);
    rom[0x148] = 1;
    rom[0x14D] = header_checksum(&rom);
    assert_eq!(Cartridge::from_rom(rom).err(), Some(CartridgeError::LengthMismatch));
}

#[test]
fn unknown_ram_size_is_refused() {
    let mut rom = image(0x00, 0, 0);
    rom[0x149] = 6;
    rom[0x14D] = header_checksum(&rom);
    assert_eq!(Cartridge::from_rom(rom).err(), Some(CartridgeError::UnknownRamSize(6)));
}

#[test]
fn corrupt_checksum_byte_is_refused() {
    let mut rom = image(0x00, 0, 0);
    rom[0x14D] = rom[0x14D].wrapping_add(1);
    assert_eq!(Cartridge::from_rom(rom).err(), Some(CartridgeError::BadChecksum));
}

#[test]
fn corrupt_last_checksummed_byte_is_refused() {
    let mut rom = image(0x00, 0, 0);
    rom[0x14C] ^= 0x01;
    assert_eq!(Cartridge::from_rom(rom).err(), Some(CartridgeError::BadChecksum));
}

fn banked_image() -> Vec<u8> {
    // 128 banks of 16 KiB; each bank starts with its own number.
    let mut rom = image(0x03, 6, 3);
    for bank in 1..128usize {
        rom[bank * 0x4000] = bank as u8;
    }
    rom[0x14D] = header_checksum(&rom);
    rom
}

#[test]
fn mbc1_unreachable_banks_map_to_next() {
    for v in [0x00u8, 0x20, 0x40, 0x60].iter() {
        let mut m = Mbc1::new(Cartridge::from_rom(banked_image()).ok().unwrap());
        m.write_byte(0x4000, *v >> 5);
        m.write_byte(0x2000, *v);
        assert_eq!(m.rom_bank(), *v as usize + 1);
        assert_eq!(m.read_byte(0x4000), *v + 1);
    }
}

#[test]
fn mbc1_selects_banks() {
    let mut m = Mbc1::new(Cartridge::from_rom(banked_image()).ok().unwrap());
    assert_eq!(m.rom_bank(), 1);
    m.write_byte(0x2000, 0x05);
    assert_eq!(m.read_byte(0x4000), 5);
    m.write_byte(0x4000, 0x01);
    assert_eq!(m.rom_bank(), 0x25);
    // RAM-banking mode: the upper bits select the RAM bank instead.
    m.write_byte(0x6000, 0x01);
    assert_eq!(m.rom_bank(), 0x05);
    assert_eq!(m.ram_bank(), 1);
    // Bank 0 stays at 0x0000-0x3FFF.
    assert_eq!(m.read_byte(0x0000), 0);
}

#[test]
fn mbc1_masks_bank_to_rom_size() {
    let mut m = Mbc1::new(Cartridge::from_rom(image(0x01, 1, 0)).ok().unwrap());
    m.write_byte(0x2000, 0x07);
    assert_eq!(m.rom_bank(), 3);
}

#[test]
fn mbc1_ram_gated_by_enable() {
    let mut m = Mbc1::new(Cartridge::from_rom(banked_image()).ok().unwrap());
    assert_eq!(m.read_byte(0xA000), 0xFF);
    m.write_byte(0xA000, 0x42);
    assert_eq!(m.read_byte(0xA000), 0xFF);
    m.write_byte(0x0000, 0x0A);
    assert_eq!(m.read_byte(0xA000), 0xFF);
    m.write_byte(0xA000, 0x42);
    assert_eq!(m.read_byte(0xA000), 0x42);
    m.write_byte(0x0000, 0x00);
    m.write_byte(0xA000, 0x17);
    m.write_byte(0x0000, 0x1A);
    assert_eq!(m.read_byte(0xA000), 0x42);
}

#[test]
fn rom_only_ignores_rom_writes() {
    let mut r = RomOnly::new(Cartridge::from_rom(image(0x00, 0, 0)).ok().unwrap());
    assert_eq!(r.read_byte(0x0134), b'T');
    r.write_byte(0x0134, 0x00);
    assert_eq!(r.read_byte(0x0134), b'T');
    assert_eq!(r.read_byte(0xA000), 0xFF);
}

#[test]
fn rom_only_ram_when_declared() {
    let mut r = RomOnly::new(Cartridge::from_rom(image(0x08, 0, 2)).ok().unwrap());
    r.write_byte(0xA123, 0x99);
    assert_eq!(r.read_byte(0xA123), 0x99);
}
