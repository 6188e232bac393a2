use vstd::prelude::*;

use super::alu::{
    add_hl_spec, add_sp_spec, add_spec, daa_spec, dec_spec, inc_spec, logic_flags, shift_flags,
    shift_spec, sub_spec,
};
use super::instruction::{Flag as Cond, Instruction, Register16, Register8};
use super::register::{Flag, Registers};
use super::decode::{decode_spec, CpuError};
use crate::memory::{is_ram, MemoryView};

verus! {

/// What the executor reads and changes of the CPU: the register file, the halted state and
/// the interrupt master enable (IME).
pub struct CpuView {
    pub regs: Registers,
    pub halted: bool,
    pub ime: bool,
}

/// The result of executing one instruction: the CPU, the bus, and the clock ticks charged
/// beyond the instruction's base cost (for a taken conditional branch).
pub struct Outcome {
    pub cpu: CpuView,
    pub mem: MemoryView,
    pub extra: u32,
}

/// `a + k` wrapped to 16 bits.
pub open spec fn wrap16(a: u16, k: int) -> u16 {
    ((a + k) % 0x10000) as u16
}

/// The value of an 8-bit operand: a register, or the byte at HL.
pub open spec fn operand(r: Registers, m: MemoryView, o: Register8) -> u8 {
    if o == Register8::DerefHL {
        m.read(r.reg16(Register16::HL) as int)
    } else {
        r.reg8(o)
    }
}

/// Registers and bus after an 8-bit operand is given `v`.
pub open spec fn put(r: Registers, m: MemoryView, o: Register8, v: u8) -> (Registers, MemoryView) {
    if o == Register8::DerefHL {
        (r, m.written(r.reg16(Register16::HL) as int, v))
    } else {
        (r.with8(o, v), m)
    }
}

/// Whether a branch is taken: always without a condition, else when the condition holds.
pub open spec fn taken(f: Flag, c: Option<Cond>) -> bool {
    match c {
        None => true,
        Some(c) => f.holds(c),
    }
}

/// The arithmetic or logic kind of an instruction: 0 ADD, 1 ADC, 2 SUB, 3 SBC, 4 AND,
/// 5 XOR, 6 OR, 7 CP.
pub open spec fn alu_kind(i: Instruction) -> Option<u8> {
    match i {
        Instruction::Add(_) | Instruction::Add8(_) => Some(0),
        Instruction::Adc(_) | Instruction::Adc8(_) => Some(1),
        Instruction::Sub(_) | Instruction::Sub8(_) => Some(2),
        Instruction::Sbc(_) | Instruction::Sbc8(_) => Some(3),
        Instruction::And(_) | Instruction::And8(_) => Some(4),
        Instruction::Xor(_) | Instruction::Xor8(_) => Some(5),
        Instruction::Or(_) | Instruction::Or8(_) => Some(6),
        Instruction::Cp(_) | Instruction::Cp8(_) => Some(7),
        _ => None,
    }
}

/// The second operand of an arithmetic or logic instruction.
pub open spec fn alu_source(i: Instruction, r: Registers, m: MemoryView) -> u8 {
    match i {
        Instruction::Add(o) | Instruction::Adc(o) | Instruction::Sub(o) | Instruction::Sbc(o)
        | Instruction::And(o) | Instruction::Xor(o) | Instruction::Or(o)
        | Instruction::Cp(o) => operand(r, m, o),
        Instruction::Add8(n) | Instruction::Adc8(n) | Instruction::Sub8(n)
        | Instruction::Sbc8(n) | Instruction::And8(n) | Instruction::Xor8(n)
        | Instruction::Or8(n) | Instruction::Cp8(n) => n,
        _ => 0,
    }
}

/// A and the flags after arithmetic or logic of kind `k` with second operand `v`.
pub open spec fn alu_apply(k: u8, a: u8, v: u8, f: Flag) -> (u8, Flag) {
    if k == 0 {
        add_spec(a, v, false)
    } else if k == 1 {
        add_spec(a, v, f.carry)
    } else if k == 2 {
        sub_spec(a, v, false)
    } else if k == 3 {
        sub_spec(a, v, f.carry)
    } else if k == 4 {
        (a & v, logic_flags(a & v, true))
    } else if k == 5 {
        (a ^ v, logic_flags(a ^ v, false))
    } else if k == 6 {
        (a | v, logic_flags(a | v, false))
    } else {
        (a, sub_spec(a, v, false).1)
    }
}

/// The rotate or shift kind of a prefixed instruction (see `shift_spec`) and its operand.
pub open spec fn cb_shift(i: Instruction) -> Option<(u8, Register8)> {
    match i {
        Instruction::Rlc(o) => Some((0u8, o)),
        Instruction::Rrc(o) => Some((1u8, o)),
        Instruction::Rl(o) => Some((2u8, o)),
        Instruction::Rr(o) => Some((3u8, o)),
        Instruction::Sla(o) => Some((4u8, o)),
        Instruction::Sra(o) => Some((5u8, o)),
        Instruction::Swap(o) => Some((6u8, o)),
        Instruction::Srl(o) => Some((7u8, o)),
        _ => None,
    }
}

/// The rotate kind of an accumulator rotate: RLCA, RRCA, RLA, RRA.
pub open spec fn a_rotate(i: Instruction) -> Option<u8> {
    match i {
        Instruction::Rlca => Some(0u8),
        Instruction::Rrca => Some(1u8),
        Instruction::Rla => Some(2u8),
        Instruction::Rra => Some(3u8),
        _ => None,
    }
}

/// Bit indices of BIT, RES and SET are 0 to 7.
pub open spec fn well_formed(i: Instruction) -> bool {
    match i {
        Instruction::Bit(b, _) | Instruction::Res(b, _) | Instruction::SetBit(b, _) => b < 8,
        _ => true,
    }
}

/// The outcome with new registers and bus, nothing else changed, no extra cost.
pub open spec fn plain(s: CpuView, r: Registers, m: MemoryView) -> Outcome {
    Outcome { cpu: CpuView { regs: r, ..s }, mem: m, extra: 0 }
}

/// The outcome of pushing `v`: SP lowered by two, the word stored at the new SP.
pub open spec fn pushed(s: CpuView, m: MemoryView, v: u16) -> (Registers, MemoryView) {
    let sp = wrap16(s.regs.sp, -2);
    (Registers { sp, ..s.regs }, m.word_written(sp as int, v))
}

/// Executing the arithmetic, logic, rotate and bit instructions.
pub open spec fn alu_group_spec(s: CpuView, m: MemoryView, i: Instruction) -> Outcome {
    let r = s.regs;
    if let Some(k) = alu_kind(i) {
        let (a, f) = alu_apply(k, r.a, alu_source(i, r, m), r.f);
        plain(s, Registers { a, f, ..r }, m)
    } else if let Some((k, o)) = cb_shift(i) {
        let (v, out) = shift_spec(k, operand(r, m, o), r.f.carry);
        let (r2, m2) = put(Registers { f: shift_flags(v, out, true), ..r }, m, o, v);
        plain(s, r2, m2)
    } else if let Some(k) = a_rotate(i) {
        let (v, out) = shift_spec(k, r.a, r.f.carry);
        plain(s, Registers { a: v, f: shift_flags(v, out, false), ..r }, m)
    } else {
        match i {
            Instruction::Inc8(o) => {
                let (v, f) = inc_spec(operand(r, m, o), r.f);
                let (r2, m2) = put(Registers { f, ..r }, m, o, v);
                plain(s, r2, m2)
            },
            Instruction::Dec8(o) => {
                let (v, f) = dec_spec(operand(r, m, o), r.f);
                let (r2, m2) = put(Registers { f, ..r }, m, o, v);
                plain(s, r2, m2)
            },
            Instruction::Daa => {
                let (a, f) = daa_spec(r.a, r.f);
                plain(s, Registers { a, f, ..r }, m)
            },
            Instruction::Cpl => plain(
                s,
                Registers {
                    a: (255 - r.a) as u8,
                    f: Flag { subtract: true, half_carry: true, ..r.f },
                    ..r
                },
                m,
            ),
            Instruction::Scf => plain(
                s,
                Registers { f: Flag { subtract: false, half_carry: false, carry: true, ..r.f }, ..r },
                m,
            ),
            Instruction::Ccf => plain(
                s,
                Registers {
                    f: Flag { subtract: false, half_carry: false, carry: !r.f.carry, ..r.f },
                    ..r
                },
                m,
            ),
            Instruction::AddHl(p) => {
                let (v, f) = add_hl_spec(r.reg16(Register16::HL), r.reg16(p), r.f);
                plain(s, Registers { f, ..r }.with16(Register16::HL, v), m)
            },
            Instruction::Bit(b, o) => plain(
                s,
                Registers {
                    f: Flag {
                        zero: operand(r, m, o) & (1u8 << b) == 0,
                        subtract: false,
                        half_carry: true,
                        carry: r.f.carry,
                    },
                    ..r
                },
                m,
            ),
            Instruction::Res(b, o) => {
                let (r2, m2) = put(r, m, o, operand(r, m, o) & !(1u8 << b));
                plain(s, r2, m2)
            },
            Instruction::SetBit(b, o) => {
                let (r2, m2) = put(r, m, o, operand(r, m, o) | (1u8 << b));
                plain(s, r2, m2)
            },
            _ => plain(s, r, m),
        }
    }
}

/// Executing the loads, stores and stack transfers.
pub open spec fn load_group_spec(s: CpuView, m: MemoryView, i: Instruction) -> Outcome {
    let r = s.regs;
    let hl = r.reg16(Register16::HL);
    match i {
        Instruction::StoreImm16(p, v) => plain(s, r.with16(p, v), m),
        Instruction::StoreImm8(o, v) => {
            let (r2, m2) = put(r, m, o, v);
            plain(s, r2, m2)
        },
        Instruction::StoreAToHlAddr(inc) => plain(
            s,
            r.with16(
                Register16::HL,
                wrap16(
                    hl,
                    if inc {
                        1
                    } else {
                        -1
                    },
                ),
            ),
            m.written(hl as int, r.a),
        ),
        Instruction::LoadAFromHlAddr(inc) => plain(
            s,
            Registers { a: m.read(hl as int), ..r }.with16(
                Register16::HL,
                wrap16(
                    hl,
                    if inc {
                        1
                    } else {
                        -1
                    },
                ),
            ),
            m,
        ),
        Instruction::StoreATo16(p) => plain(s, r, m.written(r.reg16(p) as int, r.a)),
        Instruction::LoadAFromReg16Addr(p) => plain(
            s,
            Registers { a: m.read(r.reg16(p) as int), ..r },
            m,
        ),
        Instruction::Mov8(d, o) => {
            let (r2, m2) = put(r, m, d, operand(r, m, o));
            plain(s, r2, m2)
        },
        Instruction::Inc16(p) => plain(s, r.with16(p, wrap16(r.reg16(p), 1)), m),
        Instruction::Dec16(p) => plain(s, r.with16(p, wrap16(r.reg16(p), -1)), m),
        Instruction::Push(p) => {
            let (r2, m2) = pushed(s, m, r.reg16(p));
            plain(s, r2, m2)
        },
        Instruction::Pop(p) => plain(
            s,
            Registers { sp: wrap16(r.sp, 2), ..r }.with16(p, m.read_word(r.sp as int)),
            m,
        ),
        Instruction::AddSp8(d) => {
            let (v, f) = add_sp_spec(r.sp, d);
            plain(s, Registers { sp: v, f, ..r }, m)
        },
        Instruction::LdHlSp8(d) => {
            let (v, f) = add_sp_spec(r.sp, d);
            plain(s, Registers { f, ..r }.with16(Register16::HL, v), m)
        },
        Instruction::LdSpHl => plain(s, Registers { sp: hl, ..r }, m),
        Instruction::StoreImm16AddrSp(nn) => plain(s, r, m.word_written(nn as int, r.sp)),
        Instruction::StoreHA(n) => plain(s, r, m.written(0xFF00 + n, r.a)),
        Instruction::LoadHA(n) => plain(s, Registers { a: m.read(0xFF00 + n), ..r }, m),
        Instruction::StoreCA => plain(s, r, m.written(0xFF00 + r.c, r.a)),
        Instruction::LoadCA => plain(s, Registers { a: m.read(0xFF00 + r.c), ..r }, m),
        Instruction::StoreAAtAddress(nn) => plain(s, r, m.written(nn as int, r.a)),
        Instruction::LoadAFromAddress(nn) => plain(s, Registers { a: m.read(nn as int), ..r }, m),
        _ => plain(s, r, m),
    }
}

/// Executing the jumps, calls, returns and the CPU control instructions. The program counter
/// already points past the instruction.
pub open spec fn control_group_spec(s: CpuView, m: MemoryView, i: Instruction) -> Outcome {
    let r = s.regs;
    match i {
        Instruction::Jr(c, d) => if taken(r.f, c) {
            Outcome {
                cpu: CpuView { regs: Registers { pc: wrap16(r.pc, d as int), ..r }, ..s },
                mem: m,
                extra: if c is Some {
                    4
                } else {
                    0
                },
            }
        } else {
            plain(s, r, m)
        },
        Instruction::Jp(c, nn) => if taken(r.f, c) {
            Outcome {
                cpu: CpuView { regs: Registers { pc: nn, ..r }, ..s },
                mem: m,
                extra: if c is Some {
                    4
                } else {
                    0
                },
            }
        } else {
            plain(s, r, m)
        },
        Instruction::JpHl => plain(s, Registers { pc: r.reg16(Register16::HL), ..r }, m),
        Instruction::Call(c, nn) => if taken(r.f, c) {
            let (r2, m2) = pushed(s, m, r.pc);
            Outcome {
                cpu: CpuView { regs: Registers { pc: nn, ..r2 }, ..s },
                mem: m2,
                extra: if c is Some {
                    12
                } else {
                    0
                },
            }
        } else {
            plain(s, r, m)
        },
        Instruction::Ret(c) => if taken(r.f, c) {
            Outcome {
                cpu: CpuView {
                    regs: Registers { pc: m.read_word(r.sp as int), sp: wrap16(r.sp, 2), ..r },
                    ..s
                },
                mem: m,
                extra: if c is Some {
                    12
                } else {
                    0
                },
            }
        } else {
            plain(s, r, m)
        },
        Instruction::Reti => Outcome {
            cpu: CpuView {
                regs: Registers { pc: m.read_word(r.sp as int), sp: wrap16(r.sp, 2), ..r },
                ime: false,
                ..s
            },
            mem: m,
            extra: 0,
        },
        Instruction::Rst(t) => {
            let (r2, m2) = pushed(s, m, r.pc);
            plain(s, Registers { pc: t as u16, ..r2 }, m2)
        },
        Instruction::Di => Outcome { cpu: CpuView { ime: false, ..s }, mem: m, extra: 0 },
        Instruction::Ei => Outcome { cpu: CpuView { ime: true, ..s }, mem: m, extra: 0 },
        Instruction::Halt | Instruction::Stop => Outcome {
            cpu: CpuView { halted: true, ..s },
            mem: m,
            extra: 0,
        },
        _ => plain(s, r, m),
    }
}

/// Which group executes an instruction: 0 arithmetic and bits, 1 loads and stack, 2 control.
pub open spec fn group(i: Instruction) -> u8 {
    match i {
        Instruction::Jr(..) | Instruction::Jp(..) | Instruction::JpHl | Instruction::Call(..)
        | Instruction::Ret(..) | Instruction::Reti | Instruction::Rst(..) | Instruction::Di
        | Instruction::Ei | Instruction::Halt | Instruction::Stop | Instruction::Nop => 2,
        Instruction::StoreImm16(..) | Instruction::StoreImm8(..)
        | Instruction::StoreAToHlAddr(..) | Instruction::LoadAFromHlAddr(..)
        | Instruction::StoreATo16(..) | Instruction::LoadAFromReg16Addr(..)
        | Instruction::Mov8(..) | Instruction::Inc16(..) | Instruction::Dec16(..)
        | Instruction::Push(..) | Instruction::Pop(..) | Instruction::AddSp8(..)
        | Instruction::LdHlSp8(..) | Instruction::LdSpHl | Instruction::StoreImm16AddrSp(..)
        | Instruction::StoreHA(..) | Instruction::LoadHA(..) | Instruction::StoreCA
        | Instruction::LoadCA | Instruction::StoreAAtAddress(..)
        | Instruction::LoadAFromAddress(..) => 1,
        _ => 0,
    }
}

/// The effect of executing `i` on the CPU and the bus, the program counter already past it.
#[verifier::opaque]
pub open spec fn exec_spec(s: CpuView, m: MemoryView, i: Instruction) -> Outcome {
    let g = group(i);
    if g == 0 {
        alu_group_spec(s, m, i)
    } else if g == 1 {
        load_group_spec(s, m, i)
    } else {
        control_group_spec(s, m, i)
    }
}

/// The instruction that the bytes at `addr` encode.
pub open spec fn decode_at(m: MemoryView, addr: u16) -> Result<Instruction, CpuError> {
    decode_spec(
        m.read(addr as int),
        m.read(wrap16(addr, 1) as int),
        m.read(wrap16(addr, 2) as int),
    )
}

/// Clock ticks charged for a step of a halted CPU.
pub const HALT_CYCLES: u32 = 4;

/// Clock ticks charged for entering an interrupt service routine.
pub const INTERRUPT_CYCLES: u32 = 20;

/// The first half of a step: a halted CPU stays as it is; otherwise the instruction at PC
/// is decoded, PC moved past it, and the instruction executed. Also the ticks it costs.
pub open spec fn fetch_exec_spec(s: CpuView, m: MemoryView) -> Result<(Outcome, u32), CpuError> {
    if s.halted {
        Ok((Outcome { cpu: s, mem: m, extra: 0 }, HALT_CYCLES))
    } else {
        match decode_at(m, s.regs.pc) {
            Err(e) => Err(e),
            Ok(i) => {
                let s1 = CpuView {
                    regs: Registers { pc: wrap16(s.regs.pc, i.byte_len() as int), ..s.regs },
                    ..s
                };
                let o = exec_spec(s1, m, i);
                Ok((o, (i.base_cycles() + o.extra) as u32))
            },
        }
    }
}

/// The lowest set bit among the five interrupt bits of `p` (4 when only bit 4 or none is set).
pub open spec fn lowest_bit(p: u8) -> u8 {
    if p & 1 != 0 {
        0
    } else if p & 2 != 0 {
        1
    } else if p & 4 != 0 {
        2
    } else if p & 8 != 0 {
        3
    } else {
        4
    }
}

/// The interrupt stage of a step. With IME set and a source both requested (IF) and enabled
/// (IE), the lowest-numbered such source is serviced: its IF bit cleared, IME cleared, the
/// CPU woken, PC pushed and set to the source's vector 0x40 + 8 * bit. A halted CPU with a
/// pending source and IME clear only wakes. Also the ticks it costs.
pub open spec fn dispatch_spec(s: CpuView, m: MemoryView) -> (CpuView, MemoryView, u32) {
    let pending = m.int_flag & m.int_enable;
    if s.ime && pending != 0 {
        let k = lowest_bit(pending);
        let m1 = MemoryView { int_flag: m.int_flag & !(1u8 << k), ..m };
        let (r2, m2) = pushed(s, m1, s.regs.pc);
        (
            CpuView { regs: Registers { pc: (0x40 + 8 * k) as u16, ..r2 }, ime: false, halted: false },
            m2,
            INTERRUPT_CYCLES,
        )
    } else if pending != 0 {
        (CpuView { halted: false, ..s }, m, 0)
    } else {
        (s, m, 0)
    }
}

/// Splitting a word into bytes and joining them again gives the word back, and the other way
/// round.
proof fn lemma_join_split(v: u16, h: u8, l: u8)
    ensures
        super::register::join((v / 256) as u8, (v % 256) as u8) == v,
        super::register::join(h, l) / 256 == h,
        super::register::join(h, l) % 256 == l,
{
    assert(((v / 256) as u8) as int * 256 + ((v % 256) as u8) as int == v) by (nonlinear_arith);
    assert((h as int * 256 + l as int) / 256 == h && (h as int * 256 + l as int) % 256 == l)
        by (nonlinear_arith);
}

/// The flag register survives a trip through its byte.
proof fn lemma_flags_byte(f: Flag)
    ensures
        super::register::flags_of(f.byte()) == f,
{
}

/// Two below SP, then one up, is one below SP; two below, then two up, is SP.
proof fn lemma_wrap_steps(sp: u16)
    ensures
        (wrap16(sp, -2) + 1) % 0x10000 == wrap16(sp, -1),
        wrap16(wrap16(sp, -2), 2) == sp,
{
}

/// A word written in RAM reads back unchanged.
proof fn lemma_word_round_trip(m: MemoryView, a: u16, v: u16)
    requires
        m.wf(),
        is_ram(a as int),
        is_ram((a + 1) % 0x10000),
    ensures
        m.word_written(a as int, v).read_word(a as int) == v,
        m.word_written(a as int, v).wf(),
{
    let lo = (v % 256) as u8;
    let hi = (v / 256) as u8;
    let a1 = a as int;
    let a2 = (a + 1) % 0x10000;
    let m1 = m.written(a1, lo);
    crate::memory::lemma_ram_write_read(m, a1, lo, a1);
    crate::memory::lemma_ram_write_read(m, a1, lo, a2);
    crate::memory::lemma_ram_write_read(m1, a2, hi, a1);
    crate::memory::lemma_ram_write_read(m1, a2, hi, a2);
    lemma_join_split(v, hi, lo);
}

/// Giving a register pair the value it holds changes nothing.
proof fn lemma_pair_rewrite(r: Registers, p: Register16)
    requires
        p != Register16::SP,
    ensures
        r.with16(p, r.reg16(p)) == r,
{
    lemma_flags_byte(r.f);
    lemma_join_split(0, r.a, r.f.byte());
    lemma_join_split(0, r.b, r.c);
    lemma_join_split(0, r.d, r.e);
    lemma_join_split(0, r.h, r.l);
}

/// PUSH then POP of the same register pair restores every register, SP included, when the
/// two stack bytes lie in RAM.
pub proof fn lemma_push_pop(s: CpuView, m: MemoryView, p: Register16)
    requires
        m.wf(),
        p != Register16::SP,
        is_ram(wrap16(s.regs.sp, -2) as int),
        is_ram(wrap16(s.regs.sp, -1) as int),
    ensures
        ({
            let o1 = exec_spec(s, m, Instruction::Push(p));
            let o2 = exec_spec(o1.cpu, o1.mem, Instruction::Pop(p));
            &&& o2.cpu.regs == s.regs
            &&& o2.cpu.regs.reg16(p) == s.regs.reg16(p)
            &&& o2.cpu.regs.sp == s.regs.sp
        }),
{
    reveal(exec_spec);
    let r = s.regs;
    let sp2 = wrap16(r.sp, -2);
    lemma_wrap_steps(r.sp);
    lemma_word_round_trip(m, sp2, r.reg16(p));
    let m2 = m.word_written(sp2 as int, r.reg16(p));
    let r1 = Registers { sp: sp2, ..r };
    let o1 = exec_spec(s, m, Instruction::Push(p));
    assert(o1 == plain(s, r1, m2));
    let s1 = CpuView { regs: r1, ..s };
    let o2 = exec_spec(s1, m2, Instruction::Pop(p));
    assert(o2 == plain(s1, Registers { sp: r.sp, ..r1 }.with16(p, r.reg16(p)), m2));
    assert(Registers { sp: r.sp, ..r1 } == r);
    lemma_pair_rewrite(r, p);
}

/// Decoded instructions use bit indices 0 to 7.
pub proof fn lemma_decoded_well_formed(op: u8, n: u8, n2: u8)
    ensures
        decode_spec(op, n, n2) matches Ok(i) ==> well_formed(i),
{
    reveal(decode_spec);
}

/// Giving an operand a value leaves PC and SP alone.
proof fn lemma_put_keeps_pc(r: Registers, m: MemoryView, o: Register8, v: u8)
    ensures
        put(r, m, o, v).0.pc == r.pc,
        put(r, m, o, v).0.sp == r.sp,
{
}

/// Arithmetic and bit instructions leave PC alone and cost nothing extra.
#[verifier::rlimit(50)]
proof fn lemma_alu_keeps_pc(s: CpuView, m: MemoryView, i: Instruction)
    requires
        group(i) == 0,
    ensures
        alu_group_spec(s, m, i).cpu.regs.pc == s.regs.pc,
        alu_group_spec(s, m, i).extra == 0,
{
    let r = s.regs;
    if let Some((k, o)) = cb_shift(i) {
        let (v, out) = shift_spec(k, operand(r, m, o), r.f.carry);
        lemma_put_keeps_pc(Registers { f: shift_flags(v, out, true), ..r }, m, o, v);
    }
    match i {
        Instruction::Inc8(o) => {
            let (v, f) = inc_spec(operand(r, m, o), r.f);
            lemma_put_keeps_pc(Registers { f, ..r }, m, o, v);
        },
        Instruction::Dec8(o) => {
            let (v, f) = dec_spec(operand(r, m, o), r.f);
            lemma_put_keeps_pc(Registers { f, ..r }, m, o, v);
        },
        Instruction::Res(b, o) => lemma_put_keeps_pc(r, m, o, operand(r, m, o) & !(1u8 << b)),
        Instruction::SetBit(b, o) => lemma_put_keeps_pc(r, m, o, operand(r, m, o) | (1u8 << b)),
        _ => {},
    }
}

/// Loads, stores and stack transfers leave PC alone and cost nothing extra.
#[verifier::rlimit(50)]
proof fn lemma_load_keeps_pc(s: CpuView, m: MemoryView, i: Instruction)
    requires
        group(i) == 1,
    ensures
        load_group_spec(s, m, i).cpu.regs.pc == s.regs.pc,
        load_group_spec(s, m, i).extra == 0,
{
    let r = s.regs;
    match i {
        Instruction::StoreImm8(o, v) => lemma_put_keeps_pc(r, m, o, v),
        Instruction::Mov8(d, o) => lemma_put_keeps_pc(r, m, d, operand(r, m, o)),
        _ => {},
    }
}

/// An instruction that is not a jump, call, return or restart moves PC by exactly its size,
/// and costs exactly its base ticks.
pub proof fn lemma_pc_advances_by_size(s: CpuView, m: MemoryView)
    requires
        !s.halted,
        decode_at(m, s.regs.pc) is Ok,
        !decode_at(m, s.regs.pc).unwrap().is_jump(),
    ensures
        ({
            let i = decode_at(m, s.regs.pc).unwrap();
            fetch_exec_spec(s, m) matches Ok((o, c)) && o.cpu.regs.pc == wrap16(
                s.regs.pc,
                i.byte_len() as int,
            ) && c == i.base_cycles()
        }),
{
    reveal(exec_spec);
    let i = decode_at(m, s.regs.pc).unwrap();
    let s1 = CpuView {
        regs: Registers { pc: wrap16(s.regs.pc, i.byte_len() as int), ..s.regs },
        ..s
    };
    if group(i) == 0 {
        lemma_alu_keeps_pc(s1, m, i);
    } else if group(i) == 1 {
        lemma_load_keeps_pc(s1, m, i);
    }
}

/// With IME set and the vertical-blank source requested and enabled, the interrupt stage
/// services it: IF bit 0 cleared and every other IF bit kept (a second pending source waits
/// for a later step), IME cleared, the CPU awake, PC at 0x40, the old PC on the stack. The
/// stack bytes are taken to lie in RAM.
pub proof fn lemma_vblank_dispatch(s: CpuView, m: MemoryView)
    requires
        m.wf(),
        s.ime,
        m.int_flag & 1 != 0,
        m.int_enable & 1 != 0,
        is_ram(wrap16(s.regs.sp, -2) as int),
        is_ram(wrap16(s.regs.sp, -1) as int),
    ensures
        ({
            let (s2, m2, c) = dispatch_spec(s, m);
            &&& m2.int_flag == m.int_flag & 0xFE
            &&& !s2.ime
            &&& !s2.halted
            &&& s2.regs.pc == 0x40
            &&& s2.regs.sp == wrap16(s.regs.sp, -2)
            &&& m2.read_word(s2.regs.sp as int) == s.regs.pc
            &&& c == INTERRUPT_CYCLES
        }),
{
    let f = m.int_flag;
    let e = m.int_enable;
    assert(f & 1 != 0 && e & 1 != 0 ==> (f & e) & 1 != 0 && (f & e) != 0) by (bit_vector);
    assert(f & !(1u8 << 0u8) == f & 0xFE) by (bit_vector);
    let m1 = MemoryView { int_flag: f & 0xFE, ..m };
    assert(f < 32 ==> f & 0xFE < 32) by (bit_vector);
    let sp2 = wrap16(s.regs.sp, -2);
    let v = s.regs.pc;
    let a1 = sp2 as int;
    let a2 = (sp2 + 1) % 0x10000;
    let lo = (v % 256) as u8;
    let hi = (v / 256) as u8;
    let w1 = m1.written(a1, lo);
    crate::memory::lemma_ram_write_read(m1, a1, lo, a1);
    crate::memory::lemma_ram_write_read(m1, a1, lo, a2);
    crate::memory::lemma_ram_write_read(w1, a2, hi, a1);
    crate::memory::lemma_ram_write_read(w1, a2, hi, a2);
}

/// With IME set and some source both requested and enabled, the interrupt stage services
/// the lowest-numbered such source: no lower-numbered source is pending, only its IF bit is
/// cleared (the others wait for a later step), and PC goes to its vector. The stack bytes are
/// taken to lie in RAM.
pub proof fn lemma_dispatch_lowest_first(s: CpuView, m: MemoryView)
    requires
        m.wf(),
        s.ime,
        m.int_flag & m.int_enable != 0,
        is_ram(wrap16(s.regs.sp, -2) as int),
        is_ram(wrap16(s.regs.sp, -1) as int),
    ensures
        ({
            let p = m.int_flag & m.int_enable;
            let k = lowest_bit(p);
            let (s2, m2, c) = dispatch_spec(s, m);
            &&& k < 5
            &&& p & (1u8 << k) != 0
            &&& k > 0 ==> p & 1 == 0
            &&& k > 1 ==> p & 2 == 0
            &&& k > 2 ==> p & 4 == 0
            &&& k > 3 ==> p & 8 == 0
            &&& m2.int_flag == m.int_flag & !(1u8 << k)
            &&& s2.regs.pc == 0x40 + 8 * k
            &&& !s2.ime
            &&& !s2.halted
            &&& c == INTERRUPT_CYCLES
        }),
{
    let f = m.int_flag;
    let e = m.int_enable;
    let p = f & e;
    let k = lowest_bit(p);
    assert(f < 32 && e < 32 ==> (f & e) < 32) by (bit_vector);
    assert(p < 32 && p != 0 && p & 1 == 0 && p & 2 == 0 && p & 4 == 0 && p & 8 == 0 ==> p & 16
        != 0) by (bit_vector);
    assert(1u8 << 0u8 == 1 && 1u8 << 1u8 == 2 && 1u8 << 2u8 == 4 && 1u8 << 3u8 == 8 && 1u8 << 4u8
        == 16) by (bit_vector);
    assert(f < 32 && k < 5 ==> f & !(1u8 << k) < 32) by (bit_vector);
    let m1 = MemoryView { int_flag: f & !(1u8 << k), ..m };
    let sp2 = wrap16(s.regs.sp, -2);
    let v = s.regs.pc;
    let a1 = sp2 as int;
    let a2 = (sp2 + 1) % 0x10000;
    let lo = (v % 256) as u8;
    let hi = (v / 256) as u8;
    let w1 = m1.written(a1, lo);
    lemma_wrap_steps(s.regs.sp);
    crate::memory::lemma_ram_write_read(m1, a1, lo, a1);
    crate::memory::lemma_ram_write_read(w1, a2, hi, a2);
}

/// Executing `i` on an 8-bit operand and then `j` on the same operand: the operand's value
/// after both, and the flags after each.
pub open spec fn twice(s: CpuView, m: MemoryView, i: Instruction, j: Instruction) -> (Outcome, Outcome) {
    let o1 = exec_spec(s, m, i);
    (o1, exec_spec(o1.cpu, o1.mem, j))
}

/// What INC and DEC of an operand do, read off `exec_spec`.
proof fn lemma_inc_dec_outcome(s: CpuView, m: MemoryView, o: Register8)
    ensures
        ({
            let r = s.regs;
            let (v, f) = inc_spec(operand(r, m, o), r.f);
            let (r2, m2) = put(Registers { f, ..r }, m, o, v);
            exec_spec(s, m, Instruction::Inc8(o)) == plain(s, r2, m2)
        }),
        ({
            let r = s.regs;
            let (v, f) = dec_spec(operand(r, m, o), r.f);
            let (r2, m2) = put(Registers { f, ..r }, m, o, v);
            exec_spec(s, m, Instruction::Dec8(o)) == plain(s, r2, m2)
        }),
{
    reveal(exec_spec);
}

/// Giving an operand (not F) a value: it reads back as that value, F is kept, and so is HL
/// when the operand is (HL).
proof fn lemma_put_operand(r: Registers, m: MemoryView, o: Register8, v: u8)
    requires
        m.wf(),
        o != Register8::F,
        o == Register8::DerefHL ==> is_ram(r.reg16(Register16::HL) as int),
    ensures
        operand(put(r, m, o, v).0, put(r, m, o, v).1, o) == v,
        put(r, m, o, v).0.f == r.f,
        o == Register8::DerefHL ==> put(r, m, o, v).0 == r && put(r, m, o, v).1.wf(),
        o != Register8::DerefHL ==> put(r, m, o, v).1 == m,
{
    if o == Register8::DerefHL {
        let hl = r.reg16(Register16::HL) as int;
        crate::memory::lemma_ram_write_read(m, hl, v, hl);
    }
}

/// INC then DEC of an 8-bit operand (a register, or the byte at HL when HL is in RAM) gives
/// the operand back: INC's flags follow its formulas, DEC's zero and half-carry match the
/// value it returns to, and the carry flag is never touched.
#[verifier::rlimit(80)]
pub proof fn lemma_inc_then_dec(s: CpuView, m: MemoryView, o: Register8)
    requires
        m.wf(),
        o != Register8::F,
        o == Register8::DerefHL ==> is_ram(s.regs.reg16(Register16::HL) as int),
    ensures
        ({
            let v = operand(s.regs, m, o);
            let (o1, o2) = twice(s, m, Instruction::Inc8(o), Instruction::Dec8(o));
            &&& operand(o2.cpu.regs, o2.mem, o) == v
            &&& o1.cpu.regs.f == inc_spec(v, s.regs.f).1
            &&& o2.cpu.regs.f.zero == (v == 0)
            &&& o2.cpu.regs.f.half_carry == (v % 16 == 15)
            &&& o2.cpu.regs.f.subtract
            &&& o2.cpu.regs.f.carry == s.regs.f.carry
        }),
{
    let r = s.regs;
    let v = operand(r, m, o);
    super::alu::lemma_inc_dec_inverse(v, r.f);
    lemma_inc_dec_outcome(s, m, o);
    let (a, fa) = inc_spec(v, r.f);
    let ra = Registers { f: fa, ..r };
    lemma_put_operand(ra, m, o, a);
    let (r1, m1) = put(ra, m, o, a);
    let s1 = CpuView { regs: r1, ..s };
    assert(exec_spec(s, m, Instruction::Inc8(o)) == plain(s, r1, m1));
    lemma_inc_dec_outcome(s1, m1, o);
    let (a2, fa2) = dec_spec(a, fa);
    let rb = Registers { f: fa2, ..r1 };
    lemma_put_operand(rb, m1, o, a2);
    assert(a2 == v);
    assert(twice(s, m, Instruction::Inc8(o), Instruction::Dec8(o)).1 == plain(s1, put(rb, m1, o, a2).0, put(rb, m1, o, a2).1));
}

/// DEC then INC of an 8-bit operand (a register, or the byte at HL when HL is in RAM) gives
/// the operand back: DEC's flags follow its formulas, INC's zero and half-carry match the
/// value it returns to, and the carry flag is never touched.
#[verifier::rlimit(80)]
pub proof fn lemma_dec_then_inc(s: CpuView, m: MemoryView, o: Register8)
    requires
        m.wf(),
        o != Register8::F,
        o == Register8::DerefHL ==> is_ram(s.regs.reg16(Register16::HL) as int),
    ensures
        ({
            let v = operand(s.regs, m, o);
            let (o1, o2) = twice(s, m, Instruction::Dec8(o), Instruction::Inc8(o));
            &&& operand(o2.cpu.regs, o2.mem, o) == v
            &&& o1.cpu.regs.f == dec_spec(v, s.regs.f).1
            &&& o2.cpu.regs.f.zero == (v == 0)
            &&& o2.cpu.regs.f.half_carry == (v % 16 == 0)
            &&& !o2.cpu.regs.f.subtract
            &&& o2.cpu.regs.f.carry == s.regs.f.carry
        }),
{
    let r = s.regs;
    let v = operand(r, m, o);
    super::alu::lemma_inc_dec_inverse(v, r.f);
    lemma_inc_dec_outcome(s, m, o);
    let (b, fb) = dec_spec(v, r.f);
    let rc = Registers { f: fb, ..r };
    lemma_put_operand(rc, m, o, b);
    let (r3, m3) = put(rc, m, o, b);
    let s3 = CpuView { regs: r3, ..s };
    assert(exec_spec(s, m, Instruction::Dec8(o)) == plain(s, r3, m3));
    lemma_inc_dec_outcome(s3, m3, o);
    let (b2, fb2) = inc_spec(b, fb);
    let rd = Registers { f: fb2, ..r3 };
    lemma_put_operand(rd, m3, o, b2);
    assert(b2 == v);
    assert(twice(s, m, Instruction::Dec8(o), Instruction::Inc8(o)).1 == plain(s3, put(rd, m3, o, b2).0, put(rd, m3, o, b2).1));
}

} // verus!
