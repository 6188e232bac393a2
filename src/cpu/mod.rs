use vstd::prelude::*;

pub mod alu;
pub mod decode;
pub mod instruction;
pub mod register;
pub mod semantics;

pub use self::register::Flag;

use self::alu::{add16, add8, add_signed, daa8, dec8, inc8, shift8, sub8};
use self::decode::{decode_bytes, CpuError};
use self::instruction::{Instruction, Register16, Register8};
use self::register::Registers;
use self::semantics::{
    alu_group_spec, control_group_spec, decode_at, dispatch_spec, exec_spec, fetch_exec_spec,
    group, load_group_spec, lowest_bit, operand, pushed, put, taken, well_formed, wrap16, CpuView,
    Outcome, HALT_CYCLES, INTERRUPT_CYCLES,
};
use crate::memory::DMA_CYCLES;
use crate::memory::{Memory, MemoryView};
use crate::util::{is_set, set_bit, unset_bit};

verus! {

/// `v` plus one (`up`) or minus one, wrapped to 16 bits.
fn step16(v: u16, up: bool) -> (r: u16)
    ensures
        r == semantics::wrap16(
            v,
            if up {
                1
            } else {
                -1
            },
        ),
{
    if up {
        if v == 0xFFFF {
            0
        } else {
            v + 1
        }
    } else {
        if v == 0 {
            0xFFFF
        } else {
            v - 1
        }
    }
}

/// `a + k` wrapped to 16 bits.
fn add_wrap(a: u16, k: u16) -> (r: u16)
    ensures
        r == wrap16(a, k as int),
{
    ((a as u32 + k as u32) % 0x10000) as u16
}

/// The lowest requested and enabled interrupt source.
fn lowest_pending(p: u8) -> (k: u8)
    ensures
        k == lowest_bit(p),
        k < 5,
{
    if p & 1 != 0 {
        0
    } else if p & 2 != 0 {
        1
    } else if p & 4 != 0 {
        2
    } else if p & 8 != 0 {
        3
    } else {
        4
    }
}

/// The end of a step after the instruction: the DMA charge collected, the peripherals run to
/// `mt`, then the interrupt stage, and the charge of a DMA transfer that its push started;
/// `r` is the step's total cost.
pub open spec fn step_tail(
    o: Outcome,
    c: u32,
    mt: MemoryView,
    s2: CpuView,
    m2: MemoryView,
    r: Result<u32, CpuError>,
) -> bool {
    let dma = if o.mem.dma_pending {
        DMA_CYCLES
    } else {
        0
    };
    let mc = MemoryView { dma_pending: false, ..o.mem };
    let (s3, m3, ic) = dispatch_spec(o.cpu, mt);
    let dma2 = if m3.dma_pending {
        DMA_CYCLES
    } else {
        0
    };
    &&& mc.ticked(mt, (c + dma) as int)
    &&& s2 == s3
    &&& m2 == MemoryView { dma_pending: false, ..m3 }
    &&& r == Ok::<u32, CpuError>((c + dma + ic + dma2) as u32)
}

/// One step from CPU `s` and bus `m` to `s2` and `m2`, returning `r`: fetch and execute (or
/// idle while halted), charge a pending DMA transfer, run the peripherals, then dispatch an
/// interrupt. A failed decode changes nothing.
pub open spec fn step_spec(
    s: CpuView,
    m: MemoryView,
    r: Result<u32, CpuError>,
    s2: CpuView,
    m2: MemoryView,
) -> bool {
    match fetch_exec_spec(s, m) {
        Err(e) => r == Err::<u32, CpuError>(e) && s2 == s && m2 == m,
        Ok((o, c)) => exists|mt: MemoryView| #[trigger] step_tail(o, c, mt, s2, m2, r),
    }
}

/// A whole step of a halted CPU with IME set and the vertical blank requested and enabled
/// (and no DMA charge pending) services it, whatever the peripherals do meanwhile: PC at 0x40,
/// IME cleared, the CPU awake, the request cleared. The stack bytes are taken to lie in RAM.
pub proof fn lemma_halted_step_services_vblank(
    s: CpuView,
    m: MemoryView,
    r: Result<u32, CpuError>,
    s2: CpuView,
    m2: MemoryView,
)
    requires
        m.wf(),
        !m.dma_pending,
        s.halted,
        s.ime,
        m.int_flag & 1 != 0,
        m.int_enable & 1 != 0,
        crate::memory::is_ram(wrap16(s.regs.sp, -2) as int),
        crate::memory::is_ram(wrap16(s.regs.sp, -1) as int),
        step_spec(s, m, r, s2, m2),
    ensures
        s2.regs.pc == 0x40,
        !s2.ime,
        !s2.halted,
        m2.int_flag & 1 == 0,
{
    let o = Outcome { cpu: s, mem: m, extra: 0 };
    assert(fetch_exec_spec(s, m) == Ok::<(Outcome, u32), CpuError>((o, HALT_CYCLES)));
    let mt = choose|mt: MemoryView| step_tail(o, HALT_CYCLES, mt, s2, m2, r);
    assert(step_tail(o, HALT_CYCLES, mt, s2, m2, r));
    assert(MemoryView { dma_pending: false, ..m } == m);
    let f = m.int_flag;
    let ft = mt.int_flag;
    let e = mt.int_enable;
    assert(ft & f == f && f & 1 != 0 ==> ft & 1 != 0) by (bit_vector);
    assert(ft & 1 != 0 && e & 1 != 0 ==> (ft & e) & 1 != 0 && (ft & e) != 0) by (bit_vector);
    semantics::lemma_dispatch_lowest_first(s, mt);
    assert(ft & !(1u8 << 0u8) & 1 == 0) by (bit_vector);
}

/// The CPU: its register file, whether it is halted, and the interrupt master enable.
pub struct Cpu {
    registers: Registers,
    halted: bool,
    interrupt_enabled: bool,
    is_cgb: bool,
}

impl View for Cpu {
    type V = CpuView;

    closed spec fn view(&self) -> CpuView {
        CpuView { regs: self.registers, halted: self.halted, ime: self.interrupt_enabled }
    }
}

impl Cpu {
    /// The value of an 8-bit operand; (HL) reads the bus.
    fn read_reg(&self, reg: Register8, memory: &Memory) -> (r: u8)
        requires
            memory@.wf(),
        ensures
            r == operand(self@.regs, memory@, reg),
    {
        match reg {
            Register8::DerefHL => memory.read_byte(self.registers.get_hl()),
            _ => self.registers.read8(reg),
        }
    }

    /// Give an 8-bit operand the value `val`; (HL) writes the bus.
    fn write_reg(&mut self, reg: Register8, val: u8, memory: &mut Memory)
        requires
            old(memory)@.wf(),
        ensures
            (final(self)@.regs, final(memory)@) == put(old(self)@.regs, old(memory)@, reg, val),
            final(self)@.halted == old(self)@.halted,
            final(self)@.ime == old(self)@.ime,
            final(memory)@.wf(),
    {
        match reg {
            Register8::DerefHL => memory.write_byte(self.registers.get_hl(), val),
            _ => self.registers.write8(reg, val),
        }
    }

    /// Lower SP by two and store `nn` there.
    fn push(&mut self, nn: u16, memory: &mut Memory)
        requires
            old(memory)@.wf(),
        ensures
            (final(self)@.regs, final(memory)@) == pushed(old(self)@, old(memory)@, nn),
            final(self)@.halted == old(self)@.halted,
            final(self)@.ime == old(self)@.ime,
            final(memory)@.wf(),
    {
        self.registers.sp = self.registers.sp.wrapping_sub(2);
        memory.write_word(self.registers.sp, nn)
    }

    /// The word at SP, and SP raised by two.
    fn pop(&mut self, memory: &Memory) -> (r: u16)
        requires
            memory@.wf(),
        ensures
            r == memory@.read_word(old(self)@.regs.sp as int),
            *final(self) == (Cpu {
                registers: Registers { sp: semantics::wrap16(old(self)@.regs.sp, 2), ..old(self).registers },
                ..*old(self)
            }),
    {
        let word = memory.read_word(self.registers.sp);
        self.registers.sp = self.registers.sp.wrapping_add(2);
        word
    }

    fn add(&mut self, n: u8)
        ensures
            final(self)@ == (CpuView {
                regs: Registers {
                    a: alu::add_spec(old(self)@.regs.a, n, false).0,
                    f: alu::add_spec(old(self)@.regs.a, n, false).1,
                    ..old(self)@.regs
                },
                ..old(self)@
            }),
    {
        let (a, f) = add8(self.registers.a, n, false);
        self.registers.a = a;
        self.registers.f = f;
    }

    fn adc(&mut self, n: u8)
        ensures
            final(self)@ == (CpuView {
                regs: Registers {
                    a: alu::add_spec(old(self)@.regs.a, n, old(self)@.regs.f.carry).0,
                    f: alu::add_spec(old(self)@.regs.a, n, old(self)@.regs.f.carry).1,
                    ..old(self)@.regs
                },
                ..old(self)@
            }),
    {
        let (a, f) = add8(self.registers.a, n, self.registers.f.carry);
        self.registers.a = a;
        self.registers.f = f;
    }

    fn sub(&mut self, n: u8)
        ensures
            final(self)@ == (CpuView {
                regs: Registers {
                    a: alu::sub_spec(old(self)@.regs.a, n, false).0,
                    f: alu::sub_spec(old(self)@.regs.a, n, false).1,
                    ..old(self)@.regs
                },
                ..old(self)@
            }),
    {
        let (a, f) = sub8(self.registers.a, n, false);
        self.registers.a = a;
        self.registers.f = f;
    }

    fn sbc(&mut self, n: u8)
        ensures
            final(self)@ == (CpuView {
                regs: Registers {
                    a: alu::sub_spec(old(self)@.regs.a, n, old(self)@.regs.f.carry).0,
                    f: alu::sub_spec(old(self)@.regs.a, n, old(self)@.regs.f.carry).1,
                    ..old(self)@.regs
                },
                ..old(self)@
            }),
    {
        let (a, f) = sub8(self.registers.a, n, self.registers.f.carry);
        self.registers.a = a;
        self.registers.f = f;
    }

    fn and(&mut self, n: u8)
        ensures
            final(self)@ == (CpuView {
                regs: Registers {
                    a: old(self)@.regs.a & n,
                    f: alu::logic_flags(old(self)@.regs.a & n, true),
                    ..old(self)@.regs
                },
                ..old(self)@
            }),
    {
        self.registers.a = self.registers.a & n;
        self.registers.f = register::Flag {
            zero: self.registers.a == 0,
            subtract: false,
            half_carry: true,
            carry: false,
        };
    }

    fn or(&mut self, n: u8)
        ensures
            final(self)@ == (CpuView {
                regs: Registers {
                    a: old(self)@.regs.a | n,
                    f: alu::logic_flags(old(self)@.regs.a | n, false),
                    ..old(self)@.regs
                },
                ..old(self)@
            }),
    {
        self.registers.a = self.registers.a | n;
        self.registers.f = register::Flag {
            zero: self.registers.a == 0,
            subtract: false,
            half_carry: false,
            carry: false,
        };
    }

    fn xor(&mut self, n: u8)
        ensures
            final(self)@ == (CpuView {
                regs: Registers {
                    a: old(self)@.regs.a ^ n,
                    f: alu::logic_flags(old(self)@.regs.a ^ n, false),
                    ..old(self)@.regs
                },
                ..old(self)@
            }),
    {
        self.registers.a = self.registers.a ^ n;
        self.registers.f = register::Flag {
            zero: self.registers.a == 0,
            subtract: false,
            half_carry: false,
            carry: false,
        };
    }

    /// Compare: the flags of A - n, A kept.
    fn cp(&mut self, n: u8)
        ensures
            final(self)@ == (CpuView {
                regs: Registers { f: alu::sub_spec(old(self)@.regs.a, n, false).1, ..old(self)@.regs },
                ..old(self)@
            }),
    {
        let (_, f) = sub8(self.registers.a, n, false);
        self.registers.f = f;
    }

    fn inc_r8(&mut self, reg: Register8, memory: &mut Memory)
        requires
            old(memory)@.wf(),
        ensures
            (Outcome { cpu: final(self)@, mem: final(memory)@, extra: 0 }) == alu_group_spec(
                old(self)@,
                old(memory)@,
                Instruction::Inc8(reg),
            ),
            final(memory)@.wf(),
    {
        let val = self.read_reg(reg, memory);
        let (v, f) = inc8(val, self.registers.f);
        self.registers.f = f;
        self.write_reg(reg, v, memory);
    }

    fn dec_r8(&mut self, reg: Register8, memory: &mut Memory)
        requires
            old(memory)@.wf(),
        ensures
            (Outcome { cpu: final(self)@, mem: final(memory)@, extra: 0 }) == alu_group_spec(
                old(self)@,
                old(memory)@,
                Instruction::Dec8(reg),
            ),
            final(memory)@.wf(),
    {
        let val = self.read_reg(reg, memory);
        let (v, f) = dec8(val, self.registers.f);
        self.registers.f = f;
        self.write_reg(reg, v, memory);
    }

    /// A prefixed rotate or shift of kind `kind` on an operand.
    fn shift_r8(&mut self, kind: u8, reg: Register8, memory: &mut Memory)
        requires
            old(memory)@.wf(),
            kind < 8,
        ensures
            ({
                let r = old(self)@.regs;
                let (v, out) = alu::shift_spec(kind, operand(r, old(memory)@, reg), r.f.carry);
                (final(self)@.regs, final(memory)@) == put(
                    Registers { f: alu::shift_flags(v, out, true), ..r },
                    old(memory)@,
                    reg,
                    v,
                )
            }),
            final(self)@.halted == old(self)@.halted,
            final(self)@.ime == old(self)@.ime,
            final(memory)@.wf(),
    {
        let val = self.read_reg(reg, memory);
        let (v, f) = shift8(kind, val, self.registers.f.carry, true);
        self.registers.f = f;
        self.write_reg(reg, v, memory);
    }

    /// An accumulator rotate of kind `kind` (0 to 3); Z is always cleared.
    fn rotate_a(&mut self, kind: u8)
        requires
            kind < 4,
        ensures
            ({
                let r = old(self)@.regs;
                let (v, out) = alu::shift_spec(kind, r.a, r.f.carry);
                final(self)@ == (CpuView {
                    regs: Registers { a: v, f: alu::shift_flags(v, out, false), ..r },
                    ..old(self)@
                })
            }),
    {
        let (v, f) = shift8(kind, self.registers.a, self.registers.f.carry, false);
        self.registers.a = v;
        self.registers.f = f;
    }

    /// BIT: Z is the complement of the bit, H set, N cleared, C kept.
    fn bit(&mut self, bit: u8, reg_val: u8)
        requires
            bit < 8,
        ensures
            final(self)@ == (CpuView {
                regs: Registers {
                    f: register::Flag {
                        zero: reg_val & (1u8 << bit) == 0,
                        subtract: false,
                        half_carry: true,
                        carry: old(self)@.regs.f.carry,
                    },
                    ..old(self)@.regs
                },
                ..old(self)@
            }),
    {
        self.registers.f = register::Flag {
            zero: !is_set(reg_val, bit),
            subtract: false,
            half_carry: true,
            carry: self.registers.f.carry,
        };
    }

    /// Execute an arithmetic or logic instruction on A.
    fn execute_arith(&mut self, i: Instruction, memory: &mut Memory)
        requires
            old(memory)@.wf(),
            semantics::alu_kind(i) is Some,
        ensures
            (Outcome { cpu: final(self)@, mem: final(memory)@, extra: 0 }) == alu_group_spec(
                old(self)@,
                old(memory)@,
                i,
            ),
            final(memory)@.wf(),
    {
        match i {
            Instruction::Add(o) => {
                let v = self.read_reg(o, memory);
                self.add(v)
            },
            Instruction::Adc(o) => {
                let v = self.read_reg(o, memory);
                self.adc(v)
            },
            Instruction::Sub(o) => {
                let v = self.read_reg(o, memory);
                self.sub(v)
            },
            Instruction::Sbc(o) => {
                let v = self.read_reg(o, memory);
                self.sbc(v)
            },
            Instruction::And(o) => {
                let v = self.read_reg(o, memory);
                self.and(v)
            },
            Instruction::Xor(o) => {
                let v = self.read_reg(o, memory);
                self.xor(v)
            },
            Instruction::Or(o) => {
                let v = self.read_reg(o, memory);
                self.or(v)
            },
            Instruction::Cp(o) => {
                let v = self.read_reg(o, memory);
                self.cp(v)
            },
            Instruction::Add8(n) => self.add(n),
            Instruction::Adc8(n) => self.adc(n),
            Instruction::Sub8(n) => self.sub(n),
            Instruction::Sbc8(n) => self.sbc(n),
            Instruction::And8(n) => self.and(n),
            Instruction::Xor8(n) => self.xor(n),
            Instruction::Or8(n) => self.or(n),
            Instruction::Cp8(n) => self.cp(n),
            _ => {},
        }
    }

    /// Execute a prefixed rotate, shift, swap, or bit test, clear or set.
    fn execute_cb(&mut self, i: Instruction, memory: &mut Memory)
        requires
            old(memory)@.wf(),
            semantics::alu_kind(i) is None,
            semantics::cb_shift(i) is Some || i is Bit || i is Res || i is SetBit,
            well_formed(i),
        ensures
            (Outcome { cpu: final(self)@, mem: final(memory)@, extra: 0 }) == alu_group_spec(
                old(self)@,
                old(memory)@,
                i,
            ),
            final(memory)@.wf(),
    {
        match i {
            Instruction::Rlc(o) => self.shift_r8(0, o, memory),
            Instruction::Rrc(o) => self.shift_r8(1, o, memory),
            Instruction::Rl(o) => self.shift_r8(2, o, memory),
            Instruction::Rr(o) => self.shift_r8(3, o, memory),
            Instruction::Sla(o) => self.shift_r8(4, o, memory),
            Instruction::Sra(o) => self.shift_r8(5, o, memory),
            Instruction::Swap(o) => self.shift_r8(6, o, memory),
            Instruction::Srl(o) => self.shift_r8(7, o, memory),
            Instruction::Bit(b, o) => {
                let v = self.read_reg(o, memory);
                self.bit(b, v);
            },
            Instruction::Res(b, o) => {
                let v = self.read_reg(o, memory);
                self.write_reg(o, unset_bit(v, b), memory);
            },
            Instruction::SetBit(b, o) => {
                let v = self.read_reg(o, memory);
                self.write_reg(o, set_bit(v, b), memory);
            },
            _ => {},
        }
    }

    /// Execute the remaining arithmetic: accumulator rotates, INC, DEC, DAA, CPL, SCF, CCF
    /// and ADD HL.
    fn execute_misc(&mut self, i: Instruction, memory: &mut Memory)
        requires
            old(memory)@.wf(),
            group(i) == 0,
            semantics::alu_kind(i) is None,
            semantics::cb_shift(i) is None,
            !(i is Bit || i is Res || i is SetBit),
        ensures
            (Outcome { cpu: final(self)@, mem: final(memory)@, extra: 0 }) == alu_group_spec(
                old(self)@,
                old(memory)@,
                i,
            ),
            final(memory)@.wf(),
    {
        match i {
            Instruction::Rlca => self.rotate_a(0),
            Instruction::Rrca => self.rotate_a(1),
            Instruction::Rla => self.rotate_a(2),
            Instruction::Rra => self.rotate_a(3),
            Instruction::Inc8(o) => self.inc_r8(o, memory),
            Instruction::Dec8(o) => self.dec_r8(o, memory),
            Instruction::Daa => {
                let (a, f) = daa8(self.registers.a, self.registers.f);
                self.registers.a = a;
                self.registers.f = f;
            },
            Instruction::Cpl => {
                self.registers.a = 255 - self.registers.a;
                self.registers.f.subtract = true;
                self.registers.f.half_carry = true;
            },
            Instruction::Scf => {
                self.registers.f.subtract = false;
                self.registers.f.half_carry = false;
                self.registers.f.carry = true;
            },
            Instruction::Ccf => {
                self.registers.f.subtract = false;
                self.registers.f.half_carry = false;
                self.registers.f.carry = !self.registers.f.carry;
            },
            Instruction::AddHl(p) => {
                let (v, f) = add16(self.registers.get_hl(), self.registers.read16(p), self.registers.f);
                self.registers.f = f;
                self.registers.set_hl(v);
            },
            _ => {},
        }
    }

    /// LD (HL+), A and LD (HL-), A.
    fn ld_hl_store(&mut self, inc: bool, memory: &mut Memory)
        requires
            old(memory)@.wf(),
        ensures
            (Outcome { cpu: final(self)@, mem: final(memory)@, extra: 0 }) == load_group_spec(
                old(self)@,
                old(memory)@,
                Instruction::StoreAToHlAddr(inc),
            ),
            final(memory)@.wf(),
    {
        let hl = self.registers.get_hl();
        memory.write_byte(hl, self.registers.a);
        let next = step16(hl, inc);
        self.registers.set_hl(next);
    }

    /// LD A, (HL+) and LD A, (HL-).
    fn ld_hl_load(&mut self, inc: bool, memory: &mut Memory)
        requires
            old(memory)@.wf(),
        ensures
            (Outcome { cpu: final(self)@, mem: final(memory)@, extra: 0 }) == load_group_spec(
                old(self)@,
                old(memory)@,
                Instruction::LoadAFromHlAddr(inc),
            ),
            final(memory)@.wf(),
    {
        let hl = self.registers.get_hl();
        self.registers.a = memory.read_byte(hl);
        let next = step16(hl, inc);
        self.registers.set_hl(next);
    }

    /// INC on a 16-bit register; no flag changes.
    fn inc_r16(&mut self, p: Register16, memory: &mut Memory)
        requires
            old(memory)@.wf(),
        ensures
            (Outcome { cpu: final(self)@, mem: final(memory)@, extra: 0 }) == load_group_spec(
                old(self)@,
                old(memory)@,
                Instruction::Inc16(p),
            ),
            final(memory)@.wf(),
    {
        let v = step16(self.registers.read16(p), true);
        self.registers.write16(p, v);
    }

    /// DEC on a 16-bit register; no flag changes.
    fn dec_r16(&mut self, p: Register16, memory: &mut Memory)
        requires
            old(memory)@.wf(),
        ensures
            (Outcome { cpu: final(self)@, mem: final(memory)@, extra: 0 }) == load_group_spec(
                old(self)@,
                old(memory)@,
                Instruction::Dec16(p),
            ),
            final(memory)@.wf(),
    {
        let v = step16(self.registers.read16(p), false);
        self.registers.write16(p, v);
    }

    /// PUSH a register pair.
    fn push_r16(&mut self, p: Register16, memory: &mut Memory)
        requires
            old(memory)@.wf(),
        ensures
            (Outcome { cpu: final(self)@, mem: final(memory)@, extra: 0 }) == load_group_spec(
                old(self)@,
                old(memory)@,
                Instruction::Push(p),
            ),
            final(memory)@.wf(),
    {
        let v = self.registers.read16(p);
        self.push(v, memory);
    }

    /// POP a register pair.
    fn pop_r16(&mut self, p: Register16, memory: &mut Memory)
        requires
            old(memory)@.wf(),
        ensures
            (Outcome { cpu: final(self)@, mem: final(memory)@, extra: 0 }) == load_group_spec(
                old(self)@,
                old(memory)@,
                Instruction::Pop(p),
            ),
            final(memory)@.wf(),
    {
        let v = self.pop(memory);
        self.registers.write16(p, v);
    }

    /// ADD SP, d.
    fn add_sp_d(&mut self, d: i8, memory: &mut Memory)
        requires
            old(memory)@.wf(),
        ensures
            (Outcome { cpu: final(self)@, mem: final(memory)@, extra: 0 }) == load_group_spec(
                old(self)@,
                old(memory)@,
                Instruction::AddSp8(d),
            ),
            final(memory)@.wf(),
    {
        let (v, f) = add_signed(self.registers.sp, d);
        self.registers.sp = v;
        self.registers.f = f;
    }

    /// LD HL, SP + d.
    fn ld_hl_sp_d(&mut self, d: i8, memory: &mut Memory)
        requires
            old(memory)@.wf(),
        ensures
            (Outcome { cpu: final(self)@, mem: final(memory)@, extra: 0 }) == load_group_spec(
                old(self)@,
                old(memory)@,
                Instruction::LdHlSp8(d),
            ),
            final(memory)@.wf(),
    {
        let (v, f) = add_signed(self.registers.sp, d);
        self.registers.f = f;
        self.registers.set_hl(v);
    }

    /// LD (nn), SP.
    fn ld_nn_sp(&mut self, nn: u16, memory: &mut Memory)
        requires
            old(memory)@.wf(),
        ensures
            (Outcome { cpu: final(self)@, mem: final(memory)@, extra: 0 }) == load_group_spec(
                old(self)@,
                old(memory)@,
                Instruction::StoreImm16AddrSp(nn),
            ),
            final(memory)@.wf(),
    {
        memory.write_word(nn, self.registers.sp);
    }

    /// Execute a load, store or stack transfer.
    #[verifier::rlimit(40)]
    fn execute_load(&mut self, i: Instruction, memory: &mut Memory)
        requires
            old(memory)@.wf(),
            group(i) == 1,
        ensures
            (Outcome { cpu: final(self)@, mem: final(memory)@, extra: 0 }) == load_group_spec(
                old(self)@,
                old(memory)@,
                i,
            ),
            final(memory)@.wf(),
    {
        match i {
            Instruction::StoreImm16(p, v) => self.registers.write16(p, v),
            Instruction::StoreImm8(o, v) => self.write_reg(o, v, memory),
            Instruction::StoreAToHlAddr(inc) => self.ld_hl_store(inc, memory),
            Instruction::LoadAFromHlAddr(inc) => self.ld_hl_load(inc, memory),
            Instruction::StoreATo16(p) => memory.write_byte(self.registers.read16(p), self.registers.a),
            Instruction::LoadAFromReg16Addr(p) => {
                self.registers.a = memory.read_byte(self.registers.read16(p));
            },
            Instruction::Mov8(d, o) => {
                let v = self.read_reg(o, memory);
                self.write_reg(d, v, memory);
            },
            Instruction::Inc16(p) => self.inc_r16(p, memory),
            Instruction::Dec16(p) => self.dec_r16(p, memory),
            Instruction::Push(p) => self.push_r16(p, memory),
            Instruction::Pop(p) => self.pop_r16(p, memory),
            Instruction::AddSp8(d) => self.add_sp_d(d, memory),
            Instruction::LdHlSp8(d) => self.ld_hl_sp_d(d, memory),
            Instruction::LdSpHl => self.registers.sp = self.registers.get_hl(),
            Instruction::StoreImm16AddrSp(nn) => self.ld_nn_sp(nn, memory),
            Instruction::StoreHA(n) => memory.write_byte(0xFF00 + n as u16, self.registers.a),
            Instruction::LoadHA(n) => self.registers.a = memory.read_byte(0xFF00 + n as u16),
            Instruction::StoreCA => memory.write_byte(0xFF00 + self.registers.c as u16, self.registers.a),
            Instruction::LoadCA => self.registers.a = memory.read_byte(0xFF00 + self.registers.c as u16),
            Instruction::StoreAAtAddress(nn) => memory.write_byte(nn, self.registers.a),
            Instruction::LoadAFromAddress(nn) => self.registers.a = memory.read_byte(nn),
            _ => {},
        }
    }

    /// Execute a jump, call, return, restart, or CPU control instruction; returns the extra
    /// cost of a taken conditional branch.
    #[verifier::rlimit(40)]
    fn execute_control(&mut self, i: Instruction, memory: &mut Memory) -> (extra: u32)
        requires
            old(memory)@.wf(),
            group(i) == 2,
        ensures
            (Outcome { cpu: final(self)@, mem: final(memory)@, extra }) == control_group_spec(
                old(self)@,
                old(memory)@,
                i,
            ),
            final(memory)@.wf(),
            extra <= 12,
    {
        match i {
            Instruction::Jr(c, d) => {
                if self.condition(c) {
                    self.registers.pc = ((self.registers.pc as i32 + d as i32 + 0x10000) % 0x10000) as u16;
                    if c.is_some() { 4 } else { 0 }
                } else {
                    0
                }
            },
            Instruction::Jp(c, nn) => {
                if self.condition(c) {
                    self.registers.pc = nn;
                    if c.is_some() { 4 } else { 0 }
                } else {
                    0
                }
            },
            Instruction::JpHl => {
                self.registers.pc = self.registers.get_hl();
                0
            },
            Instruction::Call(c, nn) => {
                if self.condition(c) {
                    self.push(self.registers.pc, memory);
                    self.registers.pc = nn;
                    if c.is_some() { 12 } else { 0 }
                } else {
                    0
                }
            },
            Instruction::Ret(c) => {
                if self.condition(c) {
                    self.registers.pc = self.pop(memory);
                    if c.is_some() { 12 } else { 0 }
                } else {
                    0
                }
            },
            Instruction::Reti => {
                self.registers.pc = self.pop(memory);
                self.interrupt_enabled = false;
                0
            },
            Instruction::Rst(t) => {
                self.push(self.registers.pc, memory);
                self.registers.pc = t as u16;
                0
            },
            Instruction::Di => {
                self.interrupt_enabled = false;
                0
            },
            Instruction::Ei => {
                self.interrupt_enabled = true;
                0
            },
            Instruction::Halt | Instruction::Stop => {
                self.halted = true;
                0
            },
            _ => 0,
        }
    }

    /// Whether a branch with condition `c` is taken.
    fn condition(&self, c: Option<instruction::Flag>) -> (r: bool)
        ensures
            r == taken(self@.regs.f, c),
    {
        match c {
            None => true,
            Some(c) => self.registers.f.contains(c),
        }
    }

    /// Execute one instruction, the program counter already past it; returns the clock
    /// ticks charged beyond its base cost.
    pub fn execute(&mut self, i: Instruction, memory: &mut Memory) -> (extra: u32)
        requires
            old(memory)@.wf(),
            well_formed(i),
        ensures
            (Outcome { cpu: final(self)@, mem: final(memory)@, extra }) == exec_spec(
                old(self)@,
                old(memory)@,
                i,
            ),
            final(memory)@.wf(),
            extra <= 12,
    {
        reveal(exec_spec);
        match i {
            Instruction::Jr(..) | Instruction::Jp(..) | Instruction::JpHl | Instruction::Call(..)
            | Instruction::Ret(..) | Instruction::Reti | Instruction::Rst(..) | Instruction::Di
            | Instruction::Ei | Instruction::Halt | Instruction::Stop | Instruction::Nop => {
                self.execute_control(i, memory)
            },
            Instruction::StoreImm16(..) | Instruction::StoreImm8(..)
            | Instruction::StoreAToHlAddr(..) | Instruction::LoadAFromHlAddr(..)
            | Instruction::StoreATo16(..) | Instruction::LoadAFromReg16Addr(..)
            | Instruction::Mov8(..) | Instruction::Inc16(..) | Instruction::Dec16(..)
            | Instruction::Push(..) | Instruction::Pop(..) | Instruction::AddSp8(..)
            | Instruction::LdHlSp8(..) | Instruction::LdSpHl
            | Instruction::StoreImm16AddrSp(..) | Instruction::StoreHA(..)
            | Instruction::LoadHA(..) | Instruction::StoreCA | Instruction::LoadCA
            | Instruction::StoreAAtAddress(..) | Instruction::LoadAFromAddress(..) => {
                self.execute_load(i, memory);
                0
            },
            Instruction::Add(..) | Instruction::Adc(..) | Instruction::Sub(..)
            | Instruction::Sbc(..) | Instruction::And(..) | Instruction::Xor(..)
            | Instruction::Or(..) | Instruction::Cp(..) | Instruction::Add8(..)
            | Instruction::Adc8(..) | Instruction::Sub8(..) | Instruction::Sbc8(..)
            | Instruction::And8(..) | Instruction::Xor8(..) | Instruction::Or8(..)
            | Instruction::Cp8(..) => {
                self.execute_arith(i, memory);
                0
            },
            Instruction::Rlc(..) | Instruction::Rrc(..) | Instruction::Rl(..)
            | Instruction::Rr(..) | Instruction::Sla(..) | Instruction::Sra(..)
            | Instruction::Swap(..) | Instruction::Srl(..) | Instruction::Bit(..)
            | Instruction::Res(..) | Instruction::SetBit(..) => {
                self.execute_cb(i, memory);
                0
            },
            _ => {
                self.execute_misc(i, memory);
                0
            },
        }
    }

    /// The CPU as it is after the boot ROM: AF = 0x01B0, BC = 0x0013, DE = 0x00D8,
    /// HL = 0x014D, SP = 0xFFFE, PC = 0x0100, running, interrupts disabled.
    pub fn new(is_cgb: bool) -> (r: Cpu)
        ensures
            r@.regs.reg16(Register16::AF) == 0x01B0,
            r@.regs.reg16(Register16::BC) == 0x0013,
            r@.regs.reg16(Register16::DE) == 0x00D8,
            r@.regs.reg16(Register16::HL) == 0x014D,
            r@.regs.sp == 0xFFFE,
            r@.regs.pc == 0x0100,
            !r@.halted,
            !r@.ime,
            r.cgb() == is_cgb,
    {
        let mut registers = Registers {
            a: 0,
            f: Flag::empty(),
            b: 0,
            c: 0,
            d: 0,
            e: 0,
            h: 0,
            l: 0,
            pc: 0x0100,
            sp: 0xFFFE,
        };
        registers.set_af(0x01B0);
        registers.set_bc(0x0013);
        registers.set_de(0x00D8);
        registers.set_hl(0x014D);
        Cpu { registers, halted: false, interrupt_enabled: false, is_cgb }
    }

    /// The program counter.
    pub fn pc(&self) -> (r: &u16)
        ensures
            *r == self@.regs.pc,
    {
        &self.registers.pc
    }

    /// The register file.
    pub fn regs(&self) -> (r: &Registers)
        ensures
            *r == self@.regs,
    {
        &self.registers
    }

    /// Whether the CPU is halted.
    pub fn is_halted(&self) -> (r: bool)
        ensures
            r == self@.halted,
    {
        self.halted
    }

    /// The interrupt master enable.
    pub fn interrupts_enabled(&self) -> (r: bool)
        ensures
            r == self@.ime,
    {
        self.interrupt_enabled
    }

    /// Whether the CPU was made for a colour console.
    pub closed spec fn cgb(&self) -> bool {
        self.is_cgb
    }

    /// Whether the CPU was made for a colour console.
    pub fn is_cgb(&self) -> (r: bool)
        ensures
            r == self.cgb(),
    {
        self.is_cgb
    }

    /// Decode the instruction at `addr`, without changing anything.
    pub fn decode(&self, addr: u16, memory: &Memory) -> (r: Result<Instruction, CpuError>)
        requires
            memory@.wf(),
        ensures
            r == decode_at(memory@, addr),
    {
        let op = memory.read_byte(addr);
        let n = memory.read_byte(add_wrap(addr, 1));
        let n2 = memory.read_byte(add_wrap(addr, 2));
        decode_bytes(op, n, n2)
    }

    /// The interrupt stage of a step (see `dispatch_spec`); returns the ticks it costs.
    pub fn handle_interrupts(&mut self, memory: &mut Memory) -> (r: u32)
        requires
            old(memory)@.wf(),
        ensures
            (final(self)@, final(memory)@, r) == dispatch_spec(old(self)@, old(memory)@),
            final(memory)@.wf(),
            r <= INTERRUPT_CYCLES,
    {
        let pending = memory.interrupt_flags() & memory.interrupt_enable();
        if self.interrupt_enabled && pending != 0 {
            let k = lowest_pending(pending);
            memory.clear_interrupt(k);
            self.push(self.registers.pc, memory);
            self.registers.pc = 0x40 + 8 * k as u16;
            self.interrupt_enabled = false;
            self.halted = false;
            INTERRUPT_CYCLES
        } else if pending != 0 {
            self.halted = false;
            0
        } else {
            0
        }
    }

    /// The first half of a step (see `fetch_exec_spec`): idle while halted, else decode the
    /// instruction at PC, move PC past it and execute it. Returns the ticks it costs.
    pub fn fetch_execute(&mut self, memory: &mut Memory) -> (r: Result<u32, CpuError>)
        requires
            old(memory)@.wf(),
        ensures
            final(memory)@.wf(),
            r matches Ok(c) ==> 4 <= c <= 36,
            match fetch_exec_spec(old(self)@, old(memory)@) {
                Err(e) => r == Err::<u32, CpuError>(e) && final(self)@ == old(self)@
                    && final(memory)@ == old(memory)@,
                Ok((o, c)) => r == Ok::<u32, CpuError>(c) && final(self)@ == o.cpu
                    && final(memory)@ == o.mem,
            },
    {
        if self.halted {
            return Ok(HALT_CYCLES);
        }
        match self.decode(self.registers.pc, memory) {
            Err(e) => Err(e),
            Ok(i) => {
                proof {
                    semantics::lemma_decoded_well_formed(
                        memory@.read(self@.regs.pc as int),
                        memory@.read(wrap16(self@.regs.pc, 1) as int),
                        memory@.read(wrap16(self@.regs.pc, 2) as int),
                    );
                }
                self.registers.pc = add_wrap(self.registers.pc, i.size());
                let extra = self.execute(i, memory);
                Ok(i.cycles() + extra)
            },
        }
    }

    /// One step: fetch, decode and execute the instruction at PC (or idle four ticks while
    /// halted), run the peripherals for the ticks charged, then service at most one
    /// interrupt. Returns the ticks of the step, or the decode failure, which changes nothing.
    pub fn step(&mut self, memory: &mut Memory) -> (r: Result<u32, CpuError>)
        requires
            old(memory)@.wf(),
            !old(memory)@.dma_pending,
        ensures
            step_spec(old(self)@, old(memory)@, r, final(self)@, final(memory)@),
            final(memory)@.wf(),
            !final(memory)@.dma_pending,
            r matches Ok(c) ==> 4 <= c <= 36 + 2 * DMA_CYCLES + INTERRUPT_CYCLES,
            old(self)@.halted ==> r is Ok,
            old(self)@.halted ==> (r == Ok::<u32, CpuError>(HALT_CYCLES) <==> (final(self)@.regs
                == old(self)@.regs)),
    {
        let ghost res = fetch_exec_spec(self@, memory@);
        let cycles = match self.fetch_execute(memory) {
            Err(e) => {
                return Err(e);
            },
            Ok(c) => c,
        };
        let dma = memory.take_dma_cycles();
        memory.update(cycles + dma);
        let ghost mt = memory@;
        let ic = self.handle_interrupts(memory);
        let ghost m3 = memory@;
        let dma2 = memory.take_dma_cycles();
        let r = Ok(cycles + dma + ic + dma2);
        proof {
            assert(step_tail(res.unwrap().0, cycles, mt, self@, memory@, r));
            if old(self)@.halted && ic == 0 {
                assert(m3 == mt);
            }
        }
        r
    }
}

} // verus!
