use vstd::prelude::*;

use super::register::{bit_value, Flag};

verus! {

/// A + v (+ carry in): result, then Z, N = 0, H from bit 3, C from bit 7.
pub open spec fn add_spec(a: u8, v: u8, cin: bool) -> (u8, Flag) {
    let sum = a + v + bit_value(cin);
    let r = (sum % 256) as u8;
    (
        r,
        Flag {
            zero: r == 0,
            subtract: false,
            half_carry: a % 16 + v % 16 + bit_value(cin) > 15,
            carry: sum > 255,
        },
    )
}

/// A - v (- carry in): result, then Z, N = 1, H on a borrow from bit 4, C on a borrow.
pub open spec fn sub_spec(a: u8, v: u8, cin: bool) -> (u8, Flag) {
    let r = ((a - v - bit_value(cin)) % 256) as u8;
    (
        r,
        Flag {
            zero: r == 0,
            subtract: true,
            half_carry: a % 16 < v % 16 + bit_value(cin),
            carry: a < v + bit_value(cin),
        },
    )
}

/// The flags after a bitwise operation whose result is `r`; H is set for AND only.
pub open spec fn logic_flags(r: u8, is_and: bool) -> Flag {
    Flag { zero: r == 0, subtract: false, half_carry: is_and, carry: false }
}

/// INC: carry kept, H when the low nibble was 0xF.
pub open spec fn inc_spec(v: u8, f: Flag) -> (u8, Flag) {
    let r = ((v + 1) % 256) as u8;
    (r, Flag { zero: r == 0, subtract: false, half_carry: v % 16 == 15, carry: f.carry })
}

/// DEC: carry kept, H when the low nibble was 0.
pub open spec fn dec_spec(v: u8, f: Flag) -> (u8, Flag) {
    let r = ((v + 255) % 256) as u8;
    (r, Flag { zero: r == 0, subtract: true, half_carry: v % 16 == 0, carry: f.carry })
}

/// The flags of a rotate or shift: Z from the result (cleared for the accumulator-only forms),
/// N and H cleared, C the bit shifted out.
pub open spec fn shift_flags(r: u8, out: bool, keep_zero: bool) -> Flag {
    Flag { zero: keep_zero && r == 0, subtract: false, half_carry: false, carry: out }
}

/// Rotate left, bit 7 coming back in as bit 0.
pub open spec fn rlc_spec(v: u8) -> u8 {
    ((v * 2) % 256 + v / 128) as u8
}

/// Rotate right, bit 0 coming back in as bit 7.
pub open spec fn rrc_spec(v: u8) -> u8 {
    (v / 2 + (v % 2) * 128) as u8
}

/// Rotate left through carry.
pub open spec fn rl_spec(v: u8, cin: bool) -> u8 {
    ((v * 2) % 256 + bit_value(cin)) as u8
}

/// Rotate right through carry.
pub open spec fn rr_spec(v: u8, cin: bool) -> u8 {
    (v / 2 + bit_value(cin) * 128) as u8
}

/// Arithmetic shift right: bit 7 kept.
pub open spec fn sra_spec(v: u8) -> u8 {
    (v / 2 + (v / 128) * 128) as u8
}

/// The two nibbles exchanged.
pub open spec fn swap_spec(v: u8) -> u8 {
    ((v % 16) * 16 + v / 16) as u8
}

/// HL + v: Z kept, N cleared, H from bit 11, C from bit 15.
pub open spec fn add_hl_spec(hl: u16, v: u16, f: Flag) -> (u16, Flag) {
    (
        ((hl + v) % 65536) as u16,
        Flag {
            zero: f.zero,
            subtract: false,
            half_carry: hl % 4096 + v % 4096 > 4095,
            carry: hl + v > 65535,
        },
    )
}

/// SP + d: Z and N cleared, H and C from the unsigned addition of the low byte.
pub open spec fn add_sp_spec(sp: u16, d: i8) -> (u16, Flag) {
    let u = (d as u8) as int;
    (
        ((sp + d + 65536) % 65536) as u16,
        Flag {
            zero: false,
            subtract: false,
            half_carry: sp % 16 + u % 16 > 15,
            carry: sp % 256 + u > 255,
        },
    )
}

/// The correction that DAA adds (after an addition) or subtracts (after a subtraction).
pub open spec fn daa_adjust(a: u8, f: Flag) -> u8 {
    let high: u8 = if f.carry || (!f.subtract && a > 0x99) {
        0x60
    } else {
        0
    };
    let low: u8 = if f.half_carry || (!f.subtract && a % 16 > 9) {
        0x06
    } else {
        0
    };
    (high + low) as u8
}

/// DAA: A corrected to packed BCD; N kept, H cleared, C set when the high digit was corrected.
pub open spec fn daa_spec(a: u8, f: Flag) -> (u8, Flag) {
    let adj = daa_adjust(a, f);
    let r = if f.subtract {
        ((a - adj + 256) % 256) as u8
    } else {
        ((a + adj) % 256) as u8
    };
    (r, Flag { zero: r == 0, subtract: f.subtract, half_carry: false, carry: adj >= 0x60 })
}

/// ADD and ADC.
pub fn add8(a: u8, v: u8, cin: bool) -> (r: (u8, Flag))
    ensures
        r == add_spec(a, v, cin),
{
    let c: u16 = if cin {
        1
    } else {
        0
    };
    let sum: u16 = a as u16 + v as u16 + c;
    let half = (a % 16) as u16 + (v % 16) as u16 + c > 15;
    let r = (sum % 256) as u8;
    (r, Flag { zero: r == 0, subtract: false, half_carry: half, carry: sum > 255 })
}

/// SUB, SBC and CP.
pub fn sub8(a: u8, v: u8, cin: bool) -> (r: (u8, Flag))
    ensures
        r == sub_spec(a, v, cin),
{
    let c: u16 = if cin {
        1
    } else {
        0
    };
    let borrow = (a as u16) < v as u16 + c;
    let r = if borrow {
        (a as u16 + 256 - v as u16 - c) as u8
    } else {
        (a as u16 - v as u16 - c) as u8
    };
    let half = ((a % 16) as u16) < (v % 16) as u16 + c;
    (r, Flag { zero: r == 0, subtract: true, half_carry: half, carry: borrow })
}

/// INC on an 8-bit value.
pub fn inc8(v: u8, f: Flag) -> (r: (u8, Flag))
    ensures
        r == inc_spec(v, f),
{
    let r = v.wrapping_add(1);
    (r, Flag { zero: r == 0, subtract: false, half_carry: v % 16 == 15, carry: f.carry })
}

/// DEC on an 8-bit value.
pub fn dec8(v: u8, f: Flag) -> (r: (u8, Flag))
    ensures
        r == dec_spec(v, f),
{
    let r = v.wrapping_sub(1);
    (r, Flag { zero: r == 0, subtract: true, half_carry: v % 16 == 0, carry: f.carry })
}

/// The bit shifted out and the result of a rotate or shift, by kind:
/// 0 RLC, 1 RRC, 2 RL, 3 RR, 4 SLA, 5 SRA, 6 SWAP, 7 SRL.
pub open spec fn shift_spec(kind: u8, v: u8, cin: bool) -> (u8, bool) {
    if kind == 0 {
        (rlc_spec(v), v >= 128)
    } else if kind == 1 {
        (rrc_spec(v), v % 2 == 1)
    } else if kind == 2 {
        (rl_spec(v, cin), v >= 128)
    } else if kind == 3 {
        (rr_spec(v, cin), v % 2 == 1)
    } else if kind == 4 {
        (((v * 2) % 256) as u8, v >= 128)
    } else if kind == 5 {
        (sra_spec(v), v % 2 == 1)
    } else if kind == 6 {
        (swap_spec(v), false)
    } else {
        (v / 2, v % 2 == 1)
    }
}

/// A rotate, shift or swap of the given kind (see `shift_spec`), with its flags.
pub fn shift8(kind: u8, v: u8, cin: bool, keep_zero: bool) -> (r: (u8, Flag))
    requires
        kind < 8,
    ensures
        r.0 == shift_spec(kind, v, cin).0,
        r.1 == shift_flags(r.0, shift_spec(kind, v, cin).1, keep_zero),
{
    let c: u8 = if cin {
        1
    } else {
        0
    };
    let (res, out): (u8, bool) = if kind == 0 {
        (((v as u16 * 2) % 256) as u8 + v / 128, v >= 128)
    } else if kind == 1 {
        (v / 2 + (v % 2) * 128, v % 2 == 1)
    } else if kind == 2 {
        (((v as u16 * 2) % 256) as u8 + c, v >= 128)
    } else if kind == 3 {
        (v / 2 + c * 128, v % 2 == 1)
    } else if kind == 4 {
        (((v as u16 * 2) % 256) as u8, v >= 128)
    } else if kind == 5 {
        (v / 2 + (v / 128) * 128, v % 2 == 1)
    } else if kind == 6 {
        ((v % 16) * 16 + v / 16, false)
    } else {
        (v / 2, v % 2 == 1)
    };
    (res, Flag { zero: keep_zero && res == 0, subtract: false, half_carry: false, carry: out })
}

/// ADD HL, rr.
pub fn add16(hl: u16, v: u16, f: Flag) -> (r: (u16, Flag))
    ensures
        r == add_hl_spec(hl, v, f),
{
    let sum: u32 = hl as u32 + v as u32;
    let half = hl % 4096 + v % 4096 > 4095;
    ((sum % 65536) as u16, Flag { zero: f.zero, subtract: false, half_carry: half, carry: sum > 65535 })
}

/// SP plus a signed displacement, with the flags of ADD SP, d and LD HL, SP + d.
pub fn add_signed(sp: u16, d: i8) -> (r: (u16, Flag))
    ensures
        r == add_sp_spec(sp, d),
{
    let u = d as u8;
    let res = ((sp as i32 + d as i32 + 65536) % 65536) as u16;
    let half = sp % 16 + (u % 16) as u16 > 15;
    let carry = sp % 256 + u as u16 > 255;
    (res, Flag { zero: false, subtract: false, half_carry: half, carry: carry })
}

/// DAA on the accumulator.
pub fn daa8(a: u8, f: Flag) -> (r: (u8, Flag))
    ensures
        r == daa_spec(a, f),
{
    let high: u8 = if f.carry || (!f.subtract && a > 0x99) {
        0x60
    } else {
        0
    };
    let low: u8 = if f.half_carry || (!f.subtract && a % 16 > 9) {
        0x06
    } else {
        0
    };
    let adj = high + low;
    let res = if f.subtract {
        a.wrapping_sub(adj)
    } else {
        a.wrapping_add(adj)
    };
    (res, Flag { zero: res == 0, subtract: f.subtract, half_carry: false, carry: adj >= 0x60 })
}

/// INC and DEC undo each other, and the half-carry of each is the one the other
/// reports on the way back: for every byte `a`, DEC(INC(a)) == a and INC(DEC(a)) == a.
pub proof fn lemma_inc_dec_inverse(a: u8, f: Flag)
    ensures
        dec_spec(inc_spec(a, f).0, inc_spec(a, f).1).0 == a,
        inc_spec(dec_spec(a, f).0, dec_spec(a, f).1).0 == a,
        dec_spec(inc_spec(a, f).0, f).1.half_carry == inc_spec(a, f).1.half_carry,
        inc_spec(dec_spec(a, f).0, f).1.half_carry == dec_spec(a, f).1.half_carry,
        inc_spec(a, f).1.zero == (a == 255),
        dec_spec(a, f).1.zero == (a == 1),
        dec_spec(inc_spec(a, f).0, inc_spec(a, f).1).1.zero == (a == 0),
        dec_spec(inc_spec(a, f).0, inc_spec(a, f).1).1.carry == f.carry,
{
}

/// Comparing a value with itself: Z and N set, H and C cleared, whatever the value.
pub proof fn lemma_compare_equal(v: u8)
    ensures
        sub_spec(v, v, false).1 == (Flag { zero: true, subtract: true, half_carry: false, carry: false }),
{
}

} // verus!
