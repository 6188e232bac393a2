use kunzite::cpu::alu::{add16, add8, add_signed, daa8, dec8, inc8, shift8, sub8};
use kunzite::cpu::register::{Flag, Registers};

fn flags(zero: bool, subtract: bool, half_carry: bool, carry: bool) -> Flag {
    Flag { zero, subtract, half_carry, carry }
}

#[test]
fn add_fc_09_sets_half_and_full_carry() {
    let (a, f) = add8(0xFC, 0x09, false);
    assert_eq!(a, 0x05);
    assert_eq!(f, flags(false, false, true, true));
}

#[test]
fn adc_adds_carry_in() {
    let (a, f) = add8(0x0E, 0x01, true);
    assert_eq!(a, 0x10);
    assert_eq!(f, flags(false, false, true, false));
    let (a, f) = add8(0xFF, 0x00, true);
    assert_eq!(a, 0x00);
    assert_eq!(f, flags(true, false, true, true));
}

#[test]
fn dec_zero_wraps_with_half_borrow() {
    let (v, f) = dec8(0x00, Flag::empty());
    assert_eq!(v, 0xFF);
    assert_eq!(f, flags(false, true, true, false));
}

#[test]
fn dec_keeps_carry() {
    let (v, f) = dec8(0x01, flags(false, false, false, true));
    assert_eq!(v, 0x00);
    assert_eq!(f, flags(true, true, false, true));
}

#[test]
fn inc_half_carry_from_low_nibble() {
    let (v, f) = inc8(0x0F, Flag::empty());
    assert_eq!(v, 0x10);
    assert_eq!(f, flags(false, false, true, false));
    let (v, f) = inc8(0xFF, flags(false, true, false, true));
    assert_eq!(v, 0x00);
    assert_eq!(f, flags(true, false, true, true));
}

#[test]
fn inc_then_dec_returns_every_byte() {
    for a in 0..=255u8 {
        let start = flags(false, false, false, a % 2 == 0);
        let (up, fu) = inc8(a, start);
        let (back, fb) = dec8(up, fu);
        assert_eq!(back, a);
        assert_eq!(fu.half_carry, a & 0x0F == 0x0F);
        assert_eq!(fb.half_carry, up & 0x0F == 0);
        assert_eq!(fb.zero, a == 0);
        assert_eq!(fb.carry, start.carry);
        let (down, fd) = dec8(a, start);
        let (again, _) = inc8(down, fd);
        assert_eq!(again, a);
    }
}

#[test]
fn compare_with_itself_sets_zero_and_subtract_only() {
    for v in 0..=255u8 {
        let (r, f) = sub8(v, v, false);
        assert_eq!(r, 0);
        assert_eq!(f, flags(true, true, false, false));
    }
}

#[test]
fn sub_borrows() {
    let (a, f) = sub8(0x10, 0x01, false);
    assert_eq!(a, 0x0F);
    assert_eq!(f, flags(false, true, true, false));
    let (a, f) = sub8(0x00, 0x01, false);
    assert_eq!(a, 0xFF);
    assert_eq!(f, flags(false, true, true, true));
    let (a, f) = sub8(0x05, 0x04, true);
    assert_eq!(a, 0x00);
    assert_eq!(f, flags(true, true, false, false));
}

#[test]
fn rotates_and_shifts() {
    // RLC
    assert_eq!(shift8(0, 0x85, false, true), (0x0B, flags(false, false, false, true)));
    // RRC
    assert_eq!(shift8(1, 0x01, false, true), (0x80, flags(false, false, false, true)));
    // RL through carry
    assert_eq!(shift8(2, 0x80, false, true), (0x00, flags(true, false, false, true)));
    assert_eq!(shift8(2, 0x80, false, false), (0x00, flags(false, false, false, true)));
    // RR through carry
    assert_eq!(shift8(3, 0x01, true, true), (0x80, flags(false, false, false, true)));
    // SLA
    assert_eq!(shift8(4, 0xFF, false, true), (0xFE, flags(false, false, false, true)));
    // SRA keeps bit 7
    assert_eq!(shift8(5, 0x81, false, true), (0xC0, flags(false, false, false, true)));
    // SWAP clears carry
    assert_eq!(shift8(6, 0xF1, true, true), (0x1F, flags(false, false, false, false)));
    // SRL
    assert_eq!(shift8(7, 0x01, false, true), (0x00, flags(true, false, false, true)));
}

#[test]
fn add_hl_carries_from_bits_11_and_15() {
    let (v, f) = add16(0x0FFF, 0x0001, flags(true, true, false, false));
    assert_eq!(v, 0x1000);
    assert_eq!(f, flags(true, false, true, false));
    let (v, f) = add16(0xFFFF, 0x0001, Flag::empty());
    assert_eq!(v, 0x0000);
    assert_eq!(f, flags(false, false, true, true));
}

#[test]
fn add_signed_displacement() {
    let (v, f) = add_signed(0xFFF8, 0x08);
    assert_eq!(v, 0x0000);
    assert_eq!(f, flags(false, false, true, true));
    let (v, f) = add_signed(0x0100, -1);
    assert_eq!(v, 0x00FF);
    assert_eq!(f, flags(false, false, false, false));
}

#[test]
fn daa_corrects_bcd() {
    // 0x45 + 0x38 = 0x7D, corrected to 0x83
    let (a, f) = add8(0x45, 0x38, false);
    assert_eq!(daa8(a, f), (0x83, flags(false, false, false, false)));
    // 0x99 + 0x01 = 0x9A, corrected to 0x00 with carry
    let (a, f) = add8(0x99, 0x01, false);
    assert_eq!(daa8(a, f), (0x00, flags(true, false, false, true)));
    // 0x42 - 0x05 = 0x3D, corrected to 0x37
    let (a, f) = sub8(0x42, 0x05, false);
    assert_eq!(daa8(a, f), (0x37, flags(false, true, false, false)));
}

#[test]
fn flag_byte_and_new() {
    let f = Flag::new(0xB7);
    assert_eq!(f, flags(true, false, true, true));
    assert_eq!(f.bits(), 0xB0);
    assert!(f.contains(kunzite::cpu::instruction::Flag::Z));
    assert!(!f.contains(kunzite::cpu::instruction::Flag::NZ));
    assert!(f.contains(kunzite::cpu::instruction::Flag::C));
    assert!(!f.contains(kunzite::cpu::instruction::Flag::N));
    let mut g = Flag::empty();
    g.set(6, true);
    assert_eq!(g.bits(), 0x40);
    g.set(6, false);
    assert_eq!(g.bits(), 0x00);
}

fn zero_registers() -> Registers {
    Registers { a: 0, f: Flag::empty(), b: 0, c: 0, d: 0, e: 0, h: 0, l: 0, pc: 0, sp: 0 }
}

#[test]
fn register_pairs_alias_their_bytes() {
    let mut r = zero_registers();
    r.set_bc(0x1234);
    assert_eq!((r.b, r.c), (0x12, 0x34));
    r.set_de(0xABCD);
    assert_eq!((r.d, r.e), (0xAB, 0xCD));
    r.h = 0xC0;
    r.l = 0x01;
    assert_eq!(r.get_hl(), 0xC001);
    r.set_af(0x12FF);
    assert_eq!(r.a, 0x12);
    assert_eq!(r.get_af(), 0x12F0);
    assert_eq!(r.read16(kunzite::cpu::instruction::Register16::BC), 0x1234);
    r.write16(kunzite::cpu::instruction::Register16::SP, 0xFFFE);
    assert_eq!(r.sp, 0xFFFE);
    r.write8(kunzite::cpu::instruction::Register8::F, 0x5A);
    assert_eq!(r.read8(kunzite::cpu::instruction::Register8::F), 0x50);
}
