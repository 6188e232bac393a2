use vstd::prelude::*;

pub mod cartridge;
pub mod mbc;

use self::cartridge::Cartridge;
use self::mbc::{cart_addr, Mbc, Mbc1View, MbcType, MbcView};
use crate::audio::{audio_addr, audio_read, audio_written, Audio};
use crate::cpu::register::join;
use crate::util::{set_bit, unset_bit};
use crate::ppu::{ppu_addr, PpuView, FRAME_LINES, FRAME_TICKS, LINE_TICKS, PPU, VBLANK_START};

verus! {

/// The interrupt flag register.
pub const INTERRUPT_FLAGS_INDEX: u16 = 0xFF0F;

/// The DMA trigger register.
pub const DMA_INDEX: u16 = 0xFF46;

/// The interrupt enable register.
pub const INTERRUPT_ENABLE_INDEX: u16 = 0xFFFF;

/// The first byte of sprite memory.
pub const SPRITES_START_INDEX: u16 = 0xFE00;

/// Bytes copied by one DMA transfer.
pub const DMA_LENGTH: u16 = 0xA0;

/// Clock ticks that a DMA transfer takes.
pub const DMA_CYCLES: u32 = 640;

/// The five interrupt sources, highest priority first.
#[derive(Clone, Copy, Debug, PartialEq, Eq, Structural)]
pub enum Interrupt {
    Vblank,
    Lcd,
    Timer,
    Serial,
    Joypad,
}

impl Interrupt {
    /// The bit of IF and IE that belongs to the source.
    pub open spec fn bit(self) -> u8 {
        match self {
            Interrupt::Vblank => 0,
            Interrupt::Lcd => 1,
            Interrupt::Timer => 2,
            Interrupt::Serial => 3,
            Interrupt::Joypad => 4,
        }
    }

    /// The bit of IF and IE that belongs to the source.
    pub fn index(&self) -> (r: u8)
        ensures
            r == self.bit(),
    {
        match self {
            Interrupt::Vblank => 0,
            Interrupt::Lcd => 1,
            Interrupt::Timer => 2,
            Interrupt::Serial => 3,
            Interrupt::Joypad => 4,
        }
    }
}

/// `x` with bit `k` set.
pub open spec fn bit_set(x: u8, k: u8) -> u8 {
    x | (1u8 << k)
}

/// Setting one of the five interrupt bits keeps a register within its five bits.
pub proof fn lemma_bit_set_bound(x: u8, k: u8)
    requires
        x < 32,
        k < 5,
    ensures
        bit_set(x, k) < 32,
        bit_set(x, k) & x == x,
        bit_set(x, k) & (1u8 << k) != 0,
{
    assert(x < 32 && k < 5 ==> (x | (1u8 << k)) < 32 && (x | (1u8 << k)) & x == x && (x | (1u8
        << k)) & (1u8 << k) != 0) by (bit_vector);
}

/// The bus as the CPU sees it: every region's contents and the interrupt registers.
pub struct MemoryView {
    pub mbc: MbcView,
    pub wram: Seq<u8>,
    pub hram: Seq<u8>,
    pub int_flag: u8,
    pub int_enable: u8,
    pub ppu: PpuView,
    pub audio: Seq<u8>,
    pub dma_pending: bool,
    pub is_cgb: bool,
}

/// Whether `addr` is plain RAM: work RAM, its echo, or high RAM.
pub open spec fn is_ram(addr: int) -> bool {
    (0xC000 <= addr < 0xFE00) || (0xFF80 <= addr < 0xFFFF)
}

/// Where in `ram()` a plain RAM address lands; the echo lands on work RAM.
pub open spec fn ram_slot(addr: int) -> int {
    if addr < 0xE000 {
        addr - 0xC000
    } else if addr < 0xFE00 {
        addr - 0xE000
    } else {
        0x2000 + addr - 0xFF80
    }
}

impl MemoryView {
    pub open spec fn wf(self) -> bool {
        &&& self.mbc.wf()
        &&& self.wram.len() == 0x2000
        &&& self.hram.len() == 0x7F
        &&& self.int_flag < 32
        &&& self.int_enable < 32
        &&& self.ppu.wf()
        &&& self.ppu.counter < LINE_TICKS
        &&& self.ppu.ly < FRAME_LINES
        &&& !self.ppu.irq_vblank
        &&& !self.ppu.irq_lcdc
        &&& self.audio.len() == 0x30
    }

    /// Work RAM followed by high RAM.
    pub open spec fn ram(self) -> Seq<u8> {
        self.wram + self.hram
    }

    /// What a read of `addr` returns.
    #[verifier::opaque]
    pub open spec fn read(self, addr: int) -> u8 {
        if cart_addr(addr) {
            self.mbc.read(addr)
        } else if ppu_addr(addr) {
            self.ppu.read(addr)
        } else if 0xC000 <= addr < 0xE000 {
            self.wram[addr - 0xC000]
        } else if 0xE000 <= addr < 0xFE00 {
            self.wram[addr - 0xE000]
        } else if addr == INTERRUPT_FLAGS_INDEX {
            self.int_flag | 0xE0
        } else if audio_addr(addr) {
            audio_read(self.audio, addr)
        } else if 0xFF80 <= addr < 0xFFFF {
            self.hram[addr - 0xFF80]
        } else if addr == INTERRUPT_ENABLE_INDEX {
            self.int_enable
        } else {
            0
        }
    }

    /// IF after the display's pending requests are handed over.
    pub open spec fn raised(int_flag: u8, vblank: bool, lcd: bool) -> u8 {
        let f1 = if vblank {
            bit_set(int_flag, 0)
        } else {
            int_flag
        };
        if lcd {
            bit_set(f1, 1)
        } else {
            f1
        }
    }

    /// The display state after a write, its requests handed over to IF.
    pub open spec fn ppu_written(self, addr: int, val: u8) -> MemoryView {
        let p = self.ppu.written(addr, val);
        MemoryView {
            ppu: PpuView { irq_vblank: false, irq_lcdc: false, ..p },
            int_flag: Self::raised(self.int_flag, p.irq_vblank, p.irq_lcdc),
            ..self
        }
    }

    /// Sprite memory after a DMA transfer from `val * 0x100`.
    pub open spec fn dma_oam(self, val: u8) -> Seq<u8> {
        Seq::new(DMA_LENGTH as nat, |i: int| self.read(val * 0x100 + i))
    }

    /// The bus after a write of `val` at `addr`.
    #[verifier::opaque]
    pub open spec fn written(self, addr: int, val: u8) -> MemoryView {
        if cart_addr(addr) {
            MemoryView { mbc: self.mbc.written(addr, val), ..self }
        } else if addr == DMA_INDEX {
            let m = self.ppu_written(addr, val);
            MemoryView { ppu: PpuView { oam: m.dma_oam(val), ..m.ppu }, dma_pending: true, ..m }
        } else if ppu_addr(addr) {
            self.ppu_written(addr, val)
        } else if 0xC000 <= addr < 0xE000 {
            MemoryView { wram: self.wram.update(addr - 0xC000, val), ..self }
        } else if 0xE000 <= addr < 0xFE00 {
            MemoryView { wram: self.wram.update(addr - 0xE000, val), ..self }
        } else if addr == INTERRUPT_FLAGS_INDEX {
            MemoryView { int_flag: val & 0x1F, ..self }
        } else if audio_addr(addr) {
            MemoryView { audio: audio_written(self.audio, addr, val), ..self }
        } else if 0xFF80 <= addr < 0xFFFF {
            MemoryView { hram: self.hram.update(addr - 0xFF80, val), ..self }
        } else if addr == INTERRUPT_ENABLE_INDEX {
            MemoryView { int_enable: val & 0x1F, ..self }
        } else {
            self
        }
    }

    /// What a run of the peripherals for `ticks` clock ticks does: while the display is on,
    /// its position in the frame moves on by `ticks`, and passing the start of the vertical
    /// blank requests its interrupt in IF; requests already in IF stay. RAM, the cartridge,
    /// sound, IE, the pending DMA charge, video and sprite memory stay.
    pub open spec fn ticked(self, m: MemoryView, ticks: int) -> bool {
        &&& m.wf()
        &&& m.mbc == self.mbc
        &&& m.wram == self.wram
        &&& m.hram == self.hram
        &&& m.audio == self.audio
        &&& m.int_enable == self.int_enable
        &&& m.dma_pending == self.dma_pending
        &&& m.is_cgb == self.is_cgb
        &&& m.ppu.vram == self.ppu.vram
        &&& m.ppu.oam == self.ppu.oam
        &&& m.int_flag & self.int_flag == self.int_flag
        &&& self.ppu.lcdc < 128 ==> m.ppu == self.ppu
        &&& self.ppu.lcdc >= 128 ==> m.ppu.position() == (self.ppu.position() + ticks) % (
        FRAME_TICKS as int)
        &&& self.ppu.lcdc >= 128 && self.ppu.position() < VBLANK_START <= self.ppu.position()
            + ticks ==> m.int_flag & 1 != 0
    }

    /// The little-endian word at `addr` (the second byte wraps to 0x0000 past 0xFFFF).
    pub open spec fn read_word(self, addr: int) -> u16 {
        join(self.read((addr + 1) % 0x10000), self.read(addr))
    }

    /// The bus after a little-endian word is written at `addr`, low byte first.
    pub open spec fn word_written(self, addr: int, val: u16) -> MemoryView {
        self.written(addr, (val % 256) as u8).written((addr + 1) % 0x10000, (val / 256) as u8)
    }
}

/// Writing plain RAM and reading any plain RAM address back: the written byte where the two
/// addresses share a location (an address and its echo), the old byte elsewhere.
pub proof fn lemma_ram_write_read(m: MemoryView, a: int, v: u8, b: int)
    requires
        m.wf(),
        is_ram(a),
        is_ram(b),
    ensures
        m.written(a, v).read(b) == if ram_slot(a) == ram_slot(b) {
            v
        } else {
            m.read(b)
        },
        m.written(a, v).wf(),
        m.written(a, v).int_flag == m.int_flag,
        m.written(a, v).int_enable == m.int_enable,
{
    reveal(MemoryView::read);
    reveal(MemoryView::written);
}

/// The memory bus: routes each of the 65536 addresses to the cartridge, video RAM, work RAM,
/// sprite memory, the sound and display registers, the interrupt registers or high RAM.
pub struct Memory {
    mbc: Mbc,
    wram: Vec<u8>,
    hram: Vec<u8>,
    int_flag: u8,
    int_enable: u8,
    ppu: PPU,
    audio: Audio,
    dma_pending: bool,
    is_cgb: bool,
}

impl View for Memory {
    type V = MemoryView;

    closed spec fn view(&self) -> MemoryView {
        MemoryView {
            mbc: self.mbc@,
            wram: self.wram@,
            hram: self.hram@,
            int_flag: self.int_flag,
            int_enable: self.int_enable,
            ppu: self.ppu@,
            audio: self.audio@,
            dma_pending: self.dma_pending,
            is_cgb: self.is_cgb,
        }
    }
}

impl Memory {
    /// A bus with `cartridge` inserted behind its controller, RAM cleared, no interrupt
    /// requested or enabled.
    pub fn from_cartridge(cartridge: Cartridge, is_cgb: bool) -> (r: Memory)
        requires
            cartridge@.wf(),
            cartridge@.mbc_type == MbcType::RomOnly || cartridge@.mbc_type == MbcType::Mbc1,
        ensures
            r@.wf(),
            r@.int_flag == 0 && r@.int_enable == 0,
            !r@.dma_pending,
            r@.is_cgb == is_cgb,
            cartridge@.mbc_type == MbcType::RomOnly ==> r@.mbc == MbcView::RomOnly(cartridge@),
            cartridge@.mbc_type == MbcType::Mbc1 ==> r@.mbc == MbcView::Mbc1(
                Mbc1View {
                    cart: cartridge@,
                    ram_enable: false,
                    bank_lower: 0,
                    bank_upper: 0,
                    ram_banking: false,
                },
            ),
            forall|a: int| is_ram(a) ==> #[trigger] r@.read(a) == 0,
    {
        reveal(MemoryView::read);
        let mbc = Mbc::new(cartridge);
        Memory {
            mbc,
            wram: vec![0u8; 0x2000],
            hram: vec![0u8; 0x7F],
            int_flag: 0,
            int_enable: 0,
            ppu: PPU::new(),
            audio: Audio::new(),
            dma_pending: false,
            is_cgb,
        }
    }

    /// The byte at `index`.
    pub fn read_byte(&self, index: u16) -> (r: u8)
        requires
            self@.wf(),
        ensures
            r == self@.read(index as int),
    {
        reveal(MemoryView::read);
        if index < 0x8000 || (0xA000 <= index && index < 0xC000) {
            self.mbc.read_byte(index)
        } else if (0x8000 <= index && index < 0xA000) || (0xFE00 <= index && index < 0xFEA0) || (
        0xFF40 <= index && index < 0xFF4C) {
            self.ppu.read(index as usize)
        } else if 0xC000 <= index && index < 0xE000 {
            self.wram[index as usize - 0xC000]
        } else if 0xE000 <= index && index < 0xFE00 {
            self.wram[index as usize - 0xE000]
        } else if index == INTERRUPT_FLAGS_INDEX {
            self.int_flag | 0xE0
        } else if 0xFF10 <= index && index < 0xFF40 {
            self.audio.read(index as usize)
        } else if 0xFF80 <= index && index < 0xFFFF {
            self.hram[index as usize - 0xFF80]
        } else if index == INTERRUPT_ENABLE_INDEX {
            self.int_enable
        } else {
            0
        }
    }

    /// Move the display's pending interrupt requests into IF.
    fn collect_ppu_interrupts(&mut self)
        requires
            old(self)@.int_flag < 32,
        ensures
            final(self)@ == (MemoryView {
                ppu: PpuView { irq_vblank: false, irq_lcdc: false, ..old(self)@.ppu },
                int_flag: MemoryView::raised(
                    old(self)@.int_flag,
                    old(self)@.ppu.irq_vblank,
                    old(self)@.ppu.irq_lcdc,
                ),
                ..old(self)@
            }),
            final(self)@.int_flag < 32,
            final(self)@.int_flag & old(self)@.int_flag == old(self)@.int_flag,
            old(self)@.ppu.irq_vblank ==> final(self)@.int_flag & 1 != 0,
    {
        let (vblank, lcd) = self.ppu.take_interrupts();
        let f0 = self.int_flag;
        if vblank {
            proof {
                lemma_bit_set_bound(self.int_flag, 0);
            }
            self.int_flag = set_bit(self.int_flag, 0);
        }
        let f1 = self.int_flag;
        if lcd {
            proof {
                lemma_bit_set_bound(self.int_flag, 1);
            }
            self.int_flag = set_bit(self.int_flag, 1);
        }
        proof {
            let f2 = self.int_flag;
            assert(f0 & f0 == f0 && f1 & f1 == f1) by (bit_vector);
            assert((f0 | (1u8 << 0u8)) & 1 != 0) by (bit_vector);
            assert(f1 & 1 != 0 ==> (f1 | (1u8 << 1u8)) & 1 != 0) by (bit_vector);
            assert(f1 & f0 == f0 && f2 & f1 == f1 ==> f2 & f0 == f0) by (bit_vector);
        }
    }

    /// Copy 0xA0 bytes from `val * 0x100` into sprite memory.
    fn do_dma_transfer(&mut self, val: u8)
        requires
            old(self)@.wf(),
        ensures
            final(self)@ == (MemoryView {
                ppu: PpuView { oam: old(self)@.dma_oam(val), ..old(self)@.ppu },
                ..old(self)@
            }),
    {
        reveal(MemoryView::read);
        let src: u16 = val as u16 * 0x100;
        let mut i: u16 = 0;
        while i < DMA_LENGTH
            invariant
                self@.wf(),
                src == val * 0x100,
                i <= DMA_LENGTH,
                self@ == (MemoryView {
                    ppu: PpuView { oam: self@.ppu.oam, ..old(self)@.ppu },
                    ..old(self)@
                }),
                forall|j: int| i <= j < DMA_LENGTH ==> #[trigger] self@.ppu.oam[j] == old(self)@.ppu.oam[j],
                forall|j: int| 0 <= j < i ==> #[trigger] self@.ppu.oam[j] == old(self)@.read(val * 0x100 + j),
            decreases DMA_LENGTH - i,
        {
            reveal(MemoryView::read);
            let b = self.read_byte(src + i);
            assert(b == old(self)@.read(val * 0x100 + i));
            self.ppu.dma_write(i as usize, b);
            i = i + 1;
        }
        assert(self@.ppu.oam =~= old(self)@.dma_oam(val));
    }

    /// Write `val` at `index`: to the controller's registers or RAM, to a peripheral
    /// register (with its side effects: a DMA transfer, interrupt requests), or to RAM.
    pub fn write_byte(&mut self, index: u16, val: u8)
        requires
            old(self)@.wf(),
        ensures
            final(self)@ == old(self)@.written(index as int, val),
            final(self)@.wf(),
    {
        reveal(MemoryView::written);
        reveal(MemoryView::read);
        proof {
            assert(val & 0x1F < 32) by (bit_vector);
        }
        if index < 0x8000 || (0xA000 <= index && index < 0xC000) {
            self.mbc.write_byte(index, val);
        } else if index == DMA_INDEX {
            self.ppu.write(index as usize, val);
            self.collect_ppu_interrupts();
            self.do_dma_transfer(val);
            self.dma_pending = true;
        } else if (0x8000 <= index && index < 0xA000) || (0xFE00 <= index && index < 0xFEA0) || (
        0xFF40 <= index && index < 0xFF4C) {
            self.ppu.write(index as usize, val);
            self.collect_ppu_interrupts();
        } else if 0xC000 <= index && index < 0xE000 {
            self.wram.set(index as usize - 0xC000, val);
        } else if 0xE000 <= index && index < 0xFE00 {
            self.wram.set(index as usize - 0xE000, val);
        } else if index == INTERRUPT_FLAGS_INDEX {
            self.int_flag = val & 0x1F;
        } else if 0xFF10 <= index && index < 0xFF40 {
            self.audio.write(index as usize, val);
        } else if 0xFF80 <= index && index < 0xFFFF {
            self.hram.set(index as usize - 0xFF80, val);
        } else if index == INTERRUPT_ENABLE_INDEX {
            self.int_enable = val & 0x1F;
        }
    }

    /// The little-endian word at `index`.
    pub fn read_word(&self, index: u16) -> (r: u16)
        requires
            self@.wf(),
        ensures
            r == self@.read_word(index as int),
    {
        let low = self.read_byte(index) as u16;
        let high = self.read_byte(index.wrapping_add(1)) as u16;
        high * 256 + low
    }

    /// Write a little-endian word at `index`, low byte first.
    pub fn write_word(&mut self, index: u16, value: u16)
        requires
            old(self)@.wf(),
        ensures
            final(self)@ == old(self)@.word_written(index as int, value),
            final(self)@.wf(),
    {
        let high = (value / 256) as u8;
        let low = (value % 256) as u8;
        self.write_byte(index, low);
        self.write_byte(index.wrapping_add(1), high);
    }

    /// Set the request bit of `interrupt` in IF.
    pub fn request_interrupt(&mut self, interrupt: Interrupt)
        requires
            old(self)@.wf(),
        ensures
            final(self)@ == (MemoryView { int_flag: bit_set(old(self)@.int_flag, interrupt.bit()), ..old(self)@ }),
            final(self)@.wf(),
    {
        let k = interrupt.index();
        proof {
            lemma_bit_set_bound(self.int_flag, k);
        }
        self.int_flag = set_bit(self.int_flag, k);
    }

    /// Clear request bit `k` (0 to 4) of IF.
    pub fn clear_interrupt(&mut self, k: u8)
        requires
            old(self)@.wf(),
            k < 5,
        ensures
            final(self)@ == (MemoryView { int_flag: old(self)@.int_flag & !(1u8 << k), ..old(self)@ }),
            final(self)@.wf(),
    {
        let f = self.int_flag;
        proof {
            assert(f < 32 ==> f & !(1u8 << k) < 32) by (bit_vector);
        }
        self.int_flag = unset_bit(self.int_flag, k);
    }

    /// IF: the pending interrupt requests.
    pub fn interrupt_flags(&self) -> (r: u8)
        ensures
            r == self@.int_flag,
    {
        self.int_flag
    }

    /// IE: the enabled interrupt sources.
    pub fn interrupt_enable(&self) -> (r: u8)
        ensures
            r == self@.int_enable,
    {
        self.int_enable
    }

    /// The clock ticks owed for a DMA transfer started since the last call, and forget it.
    pub fn take_dma_cycles(&mut self) -> (r: u32)
        ensures
            r == if old(self)@.dma_pending {
                DMA_CYCLES
            } else {
                0
            },
            final(self)@ == (MemoryView { dma_pending: false, ..old(self)@ }),
    {
        let r = if self.dma_pending {
            DMA_CYCLES
        } else {
            0
        };
        self.dma_pending = false;
        r
    }

    /// Advance the peripherals by `ticks` clock ticks; the display's interrupt requests
    /// are moved into IF. RAM, the cartridge, IE and the requests already in IF stay.
    pub fn update(&mut self, ticks: u32)
        requires
            old(self)@.wf(),
        ensures
            old(self)@.ticked(final(self)@, ticks as int),
            forall|a: int| is_ram(a) ==> #[trigger] final(self)@.read(a) == old(self)@.read(a),
    {
        reveal(MemoryView::read);
        self.ppu.update(ticks);
        self.audio.update(ticks);
        self.collect_ppu_interrupts();
    }

    /// The `len` bytes from `start` on, wrapping past 0xFFFF; nothing changes.
    pub fn dump(&self, start: u16, len: u16) -> (r: Vec<u8>)
        requires
            self@.wf(),
        ensures
            r@.len() == len,
            forall|i: int| 0 <= i < len ==> #[trigger] r@[i] == self@.read((start + i) % 0x10000),
    {
        let mut out: Vec<u8> = Vec::new();
        let mut i: u16 = 0;
        while i < len
            invariant
                self@.wf(),
                i <= len,
                out@.len() == i,
                forall|j: int| 0 <= j < i ==> #[trigger] out@[j] == self@.read((start + j) % 0x10000),
            decreases len - i,
        {
            let addr = ((start as u32 + i as u32) % 0x10000) as u16;
            out.push(self.read_byte(addr));
            i = i + 1;
        }
        out
    }
}

} // verus!
