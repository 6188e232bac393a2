use vstd::prelude::*;

verus! {

/// Clock ticks in one scanline.
pub const LINE_TICKS: u16 = 456;

/// Scanlines in one frame, the vertical blank included.
pub const FRAME_LINES: u8 = 154;

/// The first scanline of the vertical blank.
pub const VBLANK_LINE: u8 = 144;

/// Clock ticks in one frame: 154 scanlines of 456 ticks.
pub const FRAME_TICKS: u32 = 70224;

/// Ticks from the start of a frame to the start of the vertical blank.
pub const VBLANK_START: u32 = 65664;

/// Moving to the next scanline keeps the position in the frame equal to the ticks passed,
/// wrapped at the frame's end; a position below the vertical blank that reaches it lands on
/// line 144.
proof fn lemma_line_advance(pos: int, start: int, passed: int, room: int, ly: int, ly2: int)
    requires
        0 <= ly < 154,
        pos == ly * 456 + (456 - room),
        0 < room <= 456,
        0 <= start,
        0 <= passed,
        pos == (start + passed) % 70224,
        ly2 == (ly + 1) % 154,
    ensures
        ly2 * 456 == (start + passed + room) % 70224,
        start + passed < 65664 <= start + passed + room ==> ly2 == 144,
{
    vstd::arithmetic::div_mod::lemma_add_mod_noop(start + passed, room, 70224);
    vstd::arithmetic::div_mod::lemma_small_mod(room as nat, 70224);
    if start + passed < 65664 {
        vstd::arithmetic::div_mod::lemma_small_mod((start + passed) as nat, 70224);
    }
    if ly + 1 == 154 {
        assert(pos + room == 70224);
    } else {
        vstd::arithmetic::div_mod::lemma_small_mod(((ly + 1) * 456) as nat, 70224);
    }
}

/// Moving within a scanline keeps the position in the frame equal to the ticks passed,
/// wrapped at the frame's end; such a move never reaches the vertical blank from below.
proof fn lemma_counter_advance(ly: int, c: int, start: int, passed: int, add: int)
    requires
        0 <= ly < 154,
        0 <= c,
        0 <= add,
        c + add < 456,
        0 <= start,
        0 <= passed,
        ly * 456 + c == (start + passed) % 70224,
    ensures
        ly * 456 + c + add == (start + passed + add) % 70224,
        !(start + passed < 65664 <= start + passed + add),
{
    vstd::arithmetic::div_mod::lemma_add_mod_noop(start + passed, add, 70224);
    vstd::arithmetic::div_mod::lemma_small_mod(add as nat, 70224);
    vstd::arithmetic::div_mod::lemma_small_mod((ly * 456 + c + add) as nat, 70224);
    if start + passed < 65664 {
        vstd::arithmetic::div_mod::lemma_small_mod((start + passed) as nat, 70224);
    }
}

/// What the CPU sees of the display: video RAM, sprite attribute memory, the control and
/// status registers, and the two interrupt requests it has raised and not yet handed over.
pub struct PpuView {
    pub vram: Seq<u8>,
    pub oam: Seq<u8>,
    pub lcdc: u8,
    pub stat: u8,
    pub scy: u8,
    pub scx: u8,
    pub ly: u8,
    pub lyc: u8,
    pub dma: u8,
    pub bgp: u8,
    pub obp0: u8,
    pub obp1: u8,
    pub wy: u8,
    pub wx: u8,
    pub irq_vblank: bool,
    pub irq_lcdc: bool,
    pub counter: u16,
}

/// Whether `addr` belongs to the display: video RAM, sprite memory or its registers.
pub open spec fn ppu_addr(addr: int) -> bool {
    (0x8000 <= addr < 0xA000) || (0xFE00 <= addr < 0xFEA0) || (0xFF40 <= addr < 0xFF4C)
}

impl PpuView {
    /// Both memories have their sizes.
    pub open spec fn wf(self) -> bool {
        self.vram.len() == 0x2000 && self.oam.len() == 0xA0
    }

    /// Ticks since the start of the frame: the scanline and the ticks into it.
    pub open spec fn position(self) -> int {
        self.ly * 456 + self.counter
    }

    /// Whether the status interrupt line is high: the current mode's source is enabled, or
    /// the coincidence bit is set and its source enabled.
    pub open spec fn stat_line(self) -> bool {
        self.mode_irq() || (self.stat / 4 % 2 == 1 && self.stat / 64 % 2 == 1)
    }

    /// The coincidence bit (bit 2) set to LY == LYC, no interrupt raised.
    pub open spec fn coincidence_set(self) -> PpuView {
        if self.ly == self.lyc {
            if self.stat / 4 % 2 == 1 {
                self
            } else {
                PpuView { stat: (self.stat + 4) as u8, ..self }
            }
        } else {
            if self.stat / 4 % 2 == 1 {
                PpuView { stat: (self.stat - 4) as u8, ..self }
            } else {
                self
            }
        }
    }

    /// The status register after a write of `val`: bits 3-6 from `val`, the mode and
    /// coincidence bits (0-2) kept, bit 7 one.
    pub open spec fn stat_written(self, val: u8) -> u8 {
        (128 + (val % 128 - val % 8) + self.stat % 8) as u8
    }

    /// The current mode: 0 horizontal blank, 1 vertical blank, 2 sprite search, 3 pixel transfer.
    pub open spec fn mode(self) -> u8 {
        self.stat % 4
    }

    /// Video RAM is closed to the CPU during pixel transfer.
    pub open spec fn vram_open(self) -> bool {
        self.mode() != 3
    }

    /// Sprite memory is open to the CPU during the blanks only.
    pub open spec fn oam_open(self) -> bool {
        self.mode() == 0 || self.mode() == 1
    }

    /// What a read of `addr` returns; closed memory reads as 0xFF.
    pub open spec fn read(self, addr: int) -> u8 {
        if 0x8000 <= addr < 0xA000 {
            if self.vram_open() {
                self.vram[addr - 0x8000]
            } else {
                0xFF
            }
        } else if 0xFE00 <= addr < 0xFEA0 {
            if self.oam_open() {
                self.oam[addr - 0xFE00]
            } else {
                0xFF
            }
        } else if addr == 0xFF40 {
            self.lcdc
        } else if addr == 0xFF41 {
            self.stat
        } else if addr == 0xFF42 {
            self.scy
        } else if addr == 0xFF43 {
            self.scx
        } else if addr == 0xFF44 {
            self.ly
        } else if addr == 0xFF45 {
            self.lyc
        } else if addr == 0xFF46 {
            self.dma
        } else if addr == 0xFF47 {
            self.bgp
        } else if addr == 0xFF48 {
            self.obp0
        } else if addr == 0xFF49 {
            self.obp1
        } else if addr == 0xFF4A {
            self.wy
        } else {
            self.wx
        }
    }

    /// Whether the status register asks for an interrupt on entering the current mode.
    pub open spec fn mode_irq(self) -> bool {
        (self.mode() == 0 && self.stat / 8 % 2 == 1) || (self.mode() == 1 && self.stat / 16 % 2
            == 1) || (self.mode() == 2 && self.stat / 32 % 2 == 1)
    }

    /// After LY or LYC changed: the coincidence bit follows LY == LYC, and a coincidence
    /// raises the LCD interrupt when enabled.
    pub open spec fn lyc_checked(self) -> PpuView {
        if self.ly == self.lyc {
            let stat = if self.stat / 4 % 2 == 1 {
                self.stat
            } else {
                (self.stat + 4) as u8
            };
            PpuView { stat, irq_lcdc: self.irq_lcdc || stat / 64 % 2 == 1, ..self }
        } else {
            let stat = if self.stat / 4 % 2 == 1 {
                (self.stat - 4) as u8
            } else {
                self.stat
            };
            PpuView { stat, ..self }
        }
    }

    /// The state after the CPU writes `val` at `addr`.
    pub open spec fn written(self, addr: int, val: u8) -> PpuView {
        if 0x8000 <= addr < 0xA000 {
            if self.vram_open() {
                PpuView { vram: self.vram.update(addr - 0x8000, val), ..self }
            } else {
                self
            }
        } else if 0xFE00 <= addr < 0xFEA0 {
            if self.oam_open() {
                PpuView { oam: self.oam.update(addr - 0xFE00, val), ..self }
            } else {
                self
            }
        } else if addr == 0xFF40 {
            if (self.lcdc >= 128) != (val >= 128) {
                let mode: u8 = if val >= 128 {
                    2
                } else {
                    0
                };
                let s = PpuView {
                    ly: 0,
                    counter: 0,
                    stat: (self.stat - self.stat % 8 + mode) as u8,
                    lcdc: val,
                    ..self
                };
                PpuView { irq_lcdc: s.irq_lcdc || s.mode_irq(), ..s }
            } else {
                PpuView { lcdc: val, ..self }
            }
        } else if addr == 0xFF41 {
            let s1 = PpuView { stat: self.stat_written(val), ..self };
            if self.lcdc >= 128 {
                let s2 = s1.coincidence_set();
                PpuView { irq_lcdc: self.irq_lcdc || (!self.stat_line() && s2.stat_line()), ..s2 }
            } else {
                s1
            }
        } else if addr == 0xFF42 {
            PpuView { scy: val, ..self }
        } else if addr == 0xFF43 {
            PpuView { scx: val, ..self }
        } else if addr == 0xFF44 {
            PpuView { ly: 0, counter: 0, ..self }
        } else if addr == 0xFF45 {
            if self.lyc != val {
                PpuView { lyc: val, ..self }.lyc_checked()
            } else {
                self
            }
        } else if addr == 0xFF46 {
            PpuView { dma: val, ..self }
        } else if addr == 0xFF47 {
            PpuView { bgp: val, ..self }
        } else if addr == 0xFF48 {
            PpuView { obp0: val, ..self }
        } else if addr == 0xFF49 {
            PpuView { obp1: val, ..self }
        } else if addr == 0xFF4A {
            PpuView { wy: val, ..self }
        } else {
            PpuView { wx: val, ..self }
        }
    }
}

/// Pixel processing unit: owns video RAM, sprite memory and the display registers, and
/// keeps the scanline timing that the CPU observes through them.
pub struct PPU {
    vram: Vec<u8>,
    oam: Vec<u8>,
    lcdc: u8,
    stat: u8,
    scy: u8,
    scx: u8,
    ly: u8,
    lyc: u8,
    dma: u8,
    bgp: u8,
    obp0: u8,
    obp1: u8,
    wy: u8,
    wx: u8,
    irq_vblank: bool,
    irq_lcdc: bool,
    counter: u16,
}

impl View for PPU {
    type V = PpuView;

    closed spec fn view(&self) -> PpuView {
        PpuView {
            vram: self.vram@,
            oam: self.oam@,
            lcdc: self.lcdc,
            stat: self.stat,
            scy: self.scy,
            scx: self.scx,
            ly: self.ly,
            lyc: self.lyc,
            dma: self.dma,
            bgp: self.bgp,
            obp0: self.obp0,
            obp1: self.obp1,
            wy: self.wy,
            wx: self.wx,
            irq_vblank: self.irq_vblank,
            irq_lcdc: self.irq_lcdc,
            counter: self.counter,
        }
    }
}

impl PPU {
    /// Display on, in sprite search on line 0 (status 0x02), every other register and both
    /// memories cleared, nothing requested.
    pub fn new() -> (r: PPU)
        ensures
            r@.wf(),
            r@.lcdc == 0x80 && r@.stat == 0x02 && r@.ly == 0 && r@.lyc == 0 && r@.counter == 0,
            r@.scy == 0 && r@.scx == 0 && r@.dma == 0 && r@.bgp == 0,
            r@.obp0 == 0 && r@.obp1 == 0 && r@.wy == 0 && r@.wx == 0,
            !r@.irq_vblank && !r@.irq_lcdc,
            forall|i: int| 0 <= i < 0x2000 ==> #[trigger] r@.vram[i] == 0,
            forall|i: int| 0 <= i < 0xA0 ==> #[trigger] r@.oam[i] == 0,
    {
        PPU {
            vram: vec![0u8; 0x2000],
            oam: vec![0u8; 0xA0],
            lcdc: 0x80,
            stat: 0x02,
            scy: 0,
            scx: 0,
            ly: 0,
            lyc: 0,
            dma: 0,
            bgp: 0,
            obp0: 0,
            obp1: 0,
            wy: 0,
            wx: 0,
            irq_vblank: false,
            irq_lcdc: false,
            counter: 0,
        }
    }

    /// Raise the LCD interrupt when the status register asks for one in the current mode.
    fn update_mode_interrupt(&mut self)
        ensures
            final(self)@ == (PpuView { irq_lcdc: old(self)@.irq_lcdc || old(self)@.mode_irq(), ..old(self)@ }),
    {
        let mode = self.stat % 4;
        if (mode == 0 && self.stat / 8 % 2 == 1) || (mode == 1 && self.stat / 16 % 2 == 1) || (
        mode == 2 && self.stat / 32 % 2 == 1) {
            self.irq_lcdc = true;
        }
    }

    /// Follow LY == LYC in the coincidence bit, raising the LCD interrupt when enabled.
    fn update_lyc_interrupt(&mut self)
        ensures
            final(self)@ == old(self)@.lyc_checked(),
    {
        if self.ly == self.lyc {
            if self.stat / 4 % 2 == 0 {
                self.stat = self.stat + 4;
            }
            if self.stat / 64 % 2 == 1 {
                self.irq_lcdc = true;
            }
        } else {
            if self.stat / 4 % 2 == 1 {
                self.stat = self.stat - 4;
            }
        }
    }

    /// Whether the status interrupt line is high.
    fn stat_line(&self) -> (r: bool)
        ensures
            r == self@.stat_line(),
    {
        let mode = self.stat % 4;
        (mode == 0 && self.stat / 8 % 2 == 1) || (mode == 1 && self.stat / 16 % 2 == 1) || (mode
            == 2 && self.stat / 32 % 2 == 1) || (self.stat / 4 % 2 == 1 && self.stat / 64 % 2 == 1)
    }

    /// Set the coincidence bit to LY == LYC, raising nothing.
    fn set_coincidence(&mut self)
        requires
            old(self)@.wf(),
        ensures
            final(self)@ == old(self)@.coincidence_set(),
    {
        if self.ly == self.lyc {
            if self.stat / 4 % 2 == 0 {
                self.stat = self.stat + 4;
            }
        } else {
            if self.stat / 4 % 2 == 1 {
                self.stat = self.stat - 4;
            }
        }
    }

    /// A CPU write of the status register: bits 3-6 taken from `val`, the rest kept, bit 7
    /// one. While the display is on, the coincidence bit is brought up to date, and the LCD
    /// interrupt is requested when the write raises the status interrupt line.
    fn write_stat(&mut self, val: u8)
        requires
            old(self)@.wf(),
        ensures
            final(self)@ == old(self)@.written(0xFF41, val),
            final(self)@.wf(),
    {
        let line_before = self.stat_line();
        self.stat = 128 + (val % 128 - val % 8) + self.stat % 8;
        if self.lcdc >= 128 {
            self.set_coincidence();
            if !line_before && self.stat_line() {
                self.irq_lcdc = true;
            }
        }
    }

    /// A CPU write at `addr`.
    #[verifier::rlimit(40)]
    pub fn write(&mut self, addr: usize, val: u8)
        requires
            old(self)@.wf(),
            ppu_addr(addr as int),
        ensures
            final(self)@ == old(self)@.written(addr as int, val),
            final(self)@.wf(),
    {
        if 0x8000 <= addr && addr < 0xA000 {
            if self.stat % 4 != 3 {
                self.vram.set(addr - 0x8000, val);
            }
        } else if 0xFE00 <= addr && addr < 0xFEA0 {
            if self.stat % 4 == 0 || self.stat % 4 == 1 {
                self.oam.set(addr - 0xFE00, val);
            }
        } else if addr == 0xFF40 {
            if (self.lcdc >= 128) != (val >= 128) {
                self.ly = 0;
                self.counter = 0;
                let mode: u8 = if val >= 128 {
                    2
                } else {
                    0
                };
                self.stat = self.stat - self.stat % 8 + mode;
                self.lcdc = val;
                self.update_mode_interrupt();
            } else {
                self.lcdc = val;
            }
        } else if addr == 0xFF41 {
            self.write_stat(val);
        } else if addr == 0xFF42 {
            self.scy = val;
        } else if addr == 0xFF43 {
            self.scx = val;
        } else if addr == 0xFF44 {
            self.ly = 0;
            self.counter = 0;
        } else if addr == 0xFF45 {
            if self.lyc != val {
                self.lyc = val;
                self.update_lyc_interrupt();
            }
        } else if addr == 0xFF46 {
            self.dma = val;
        } else if addr == 0xFF47 {
            self.bgp = val;
        } else if addr == 0xFF48 {
            self.obp0 = val;
        } else if addr == 0xFF49 {
            self.obp1 = val;
        } else if addr == 0xFF4A {
            self.wy = val;
        } else {
            self.wx = val;
        }
    }

    /// A CPU read at `addr`.
    pub fn read(&self, addr: usize) -> (r: u8)
        requires
            self@.wf(),
            ppu_addr(addr as int),
        ensures
            r == self@.read(addr as int),
    {
        if 0x8000 <= addr && addr < 0xA000 {
            if self.stat % 4 != 3 {
                self.vram[addr - 0x8000]
            } else {
                0xFF
            }
        } else if 0xFE00 <= addr && addr < 0xFEA0 {
            if self.stat % 4 == 0 || self.stat % 4 == 1 {
                self.oam[addr - 0xFE00]
            } else {
                0xFF
            }
        } else if addr == 0xFF40 {
            self.lcdc
        } else if addr == 0xFF41 {
            self.stat
        } else if addr == 0xFF42 {
            self.scy
        } else if addr == 0xFF43 {
            self.scx
        } else if addr == 0xFF44 {
            self.ly
        } else if addr == 0xFF45 {
            self.lyc
        } else if addr == 0xFF46 {
            self.dma
        } else if addr == 0xFF47 {
            self.bgp
        } else if addr == 0xFF48 {
            self.obp0
        } else if addr == 0xFF49 {
            self.obp1
        } else if addr == 0xFF4A {
            self.wy
        } else {
            self.wx
        }
    }

    /// Write a byte of sprite memory for a DMA transfer, whatever the mode.
    pub fn dma_write(&mut self, index: usize, val: u8)
        requires
            old(self)@.wf(),
            index < 0xA0,
        ensures
            final(self)@ == (PpuView { oam: old(self)@.oam.update(index as int, val), ..old(self)@ }),
    {
        self.oam.set(index, val);
    }

    /// Hand over the pending interrupt requests (vertical blank, LCD status) and clear them.
    pub fn take_interrupts(&mut self) -> (r: (bool, bool))
        ensures
            r == (old(self)@.irq_vblank, old(self)@.irq_lcdc),
            final(self)@ == (PpuView { irq_vblank: false, irq_lcdc: false, ..old(self)@ }),
    {
        let r = (self.irq_vblank, self.irq_lcdc);
        self.irq_vblank = false;
        self.irq_lcdc = false;
        r
    }

    /// The mode that the line position gives: vertical blank from line 144, else sprite
    /// search for 80 ticks, pixel transfer for 172, horizontal blank for the rest.
    pub open spec fn mode_at(ly: u8, counter: u16) -> u8 {
        if ly >= VBLANK_LINE {
            1
        } else if counter < 80 {
            2
        } else if counter < 252 {
            3
        } else {
            0
        }
    }

    /// Enter the mode that the line position gives, raising the LCD interrupt that entering
    /// it asks for.
    fn enter_mode(&mut self)
        requires
            old(self)@.wf(),
        ensures
            final(self)@.wf(),
            final(self)@.stat % 4 == Self::mode_at(old(self)@.ly, old(self)@.counter),
            final(self)@.vram == old(self)@.vram && final(self)@.oam == old(self)@.oam,
            final(self)@.lcdc == old(self)@.lcdc && final(self)@.lyc == old(self)@.lyc,
            final(self)@.ly == old(self)@.ly && final(self)@.counter == old(self)@.counter,
            final(self)@.irq_vblank == old(self)@.irq_vblank,
    {
        let mode: u8 = if self.ly >= VBLANK_LINE {
            1
        } else if self.counter < 80 {
            2
        } else if self.counter < 252 {
            3
        } else {
            0
        };
        if self.stat % 4 != mode {
            self.stat = self.stat - self.stat % 4 + mode;
            self.update_mode_interrupt();
        }
    }

    /// Advance the display by `ticks` clock ticks while it is on: the position in the frame
    /// moves on by `ticks` (wrapping at the frame's end), modes follow it, and passing the
    /// start of line 144 requests the vertical-blank interrupt. Nothing moves while the
    /// display is off.
    pub fn update(&mut self, ticks: u32)
        requires
            old(self)@.wf(),
            old(self)@.counter < LINE_TICKS,
            old(self)@.ly < FRAME_LINES,
        ensures
            final(self)@.wf(),
            final(self)@.counter < LINE_TICKS,
            final(self)@.ly < FRAME_LINES,
            final(self)@.vram == old(self)@.vram && final(self)@.oam == old(self)@.oam,
            final(self)@.lcdc == old(self)@.lcdc && final(self)@.lyc == old(self)@.lyc,
            old(self)@.lcdc < 128 ==> final(self)@ == old(self)@,
            old(self)@.lcdc >= 128 ==> final(self)@.position() == (old(self)@.position() + ticks)
                % (FRAME_TICKS as int),
            old(self)@.lcdc >= 128 && old(self)@.position() < VBLANK_START <= old(self)@.position()
                + ticks ==> final(self)@.irq_vblank,
            old(self)@.irq_vblank ==> final(self)@.irq_vblank,
    {
        if self.lcdc < 128 {
            return;
        }
        let mut remaining: u32 = ticks;
        while remaining > 0
            invariant
                self@.wf(),
                remaining <= ticks,
                self@.counter < LINE_TICKS,
                self@.ly < FRAME_LINES,
                self@.vram == old(self)@.vram && self@.oam == old(self)@.oam,
                self@.lcdc == old(self)@.lcdc && self@.lyc == old(self)@.lyc,
                old(self)@.irq_vblank ==> self@.irq_vblank,
                self@.position() == (old(self)@.position() + (ticks - remaining)) % (
                FRAME_TICKS as int),
                old(self)@.position() < VBLANK_START <= old(self)@.position() + (ticks
                    - remaining) ==> self@.irq_vblank,
            decreases remaining,
        {
            let ghost before = self@;
            let ghost passed = ticks - remaining;
            let room = (LINE_TICKS - self.counter) as u32;
            if remaining >= room {
                remaining = remaining - room;
                self.counter = 0;
                self.ly = (self.ly + 1) % FRAME_LINES;
                if self.ly == VBLANK_LINE {
                    self.irq_vblank = true;
                }
                proof {
                    lemma_line_advance(before.position(), old(self)@.position(), passed, room as int, before.ly as int, self@.ly as int);
                }
                self.update_lyc_interrupt();
            } else {
                self.counter = self.counter + remaining as u16;
                proof {
                    lemma_counter_advance(before.ly as int, before.counter as int, old(self)@.position(), passed, remaining as int);
                }
                remaining = 0;
            }
            self.enter_mode();
        }
    }
}

} // verus!
