use vstd::prelude::*;

use super::cartridge::{Cartridge, CartridgeView};

verus! {

/// The bank controller that a cartridge type byte names.
#[derive(Clone, Copy, Debug, PartialEq, Eq, Structural)]
pub enum MbcType {
    RomOnly,
    Mbc1,
    Mbc2,
    Mbc3,
    Mbc5,
    Unknown,
}

/// Whether `addr` is served by the cartridge: ROM 0x0000-0x7FFF, external RAM 0xA000-0xBFFF.
pub open spec fn cart_addr(addr: int) -> bool {
    (0 <= addr < 0x8000) || (0xA000 <= addr < 0xC000)
}

/// A plain ROM: 32 KiB mapped whole, writes to ROM ignored, an optional 8 KiB of RAM.
pub struct RomOnly {
    cartridge: Cartridge,
}

impl View for RomOnly {
    type V = CartridgeView;

    closed spec fn view(&self) -> CartridgeView {
        self.cartridge@
    }
}

/// What a read of `addr` returns from a plain ROM cartridge.
pub open spec fn rom_only_read(c: CartridgeView, addr: int) -> u8 {
    if addr < 0x8000 {
        c.rom[addr]
    } else if c.ram_size > 0 {
        c.ram[addr - 0xA000]
    } else {
        0xFF
    }
}

/// A plain ROM cartridge after a write of `val` at `addr`.
pub open spec fn rom_only_written(c: CartridgeView, addr: int, val: u8) -> CartridgeView {
    if addr >= 0xA000 && c.ram_size > 0 {
        CartridgeView { ram: c.ram.update(addr - 0xA000, val), ..c }
    } else {
        c
    }
}

impl RomOnly {
    pub fn new(cartridge: Cartridge) -> (r: RomOnly)
        ensures
            r@ == cartridge@,
    {
        RomOnly { cartridge }
    }

    pub fn read_byte(&self, index: u16) -> (r: u8)
        requires
            self@.wf(),
            cart_addr(index as int),
        ensures
            r == rom_only_read(self@, index as int),
    {
        if index < 0x8000 {
            self.cartridge.read_rom(index as usize)
        } else if self.cartridge.get_ram_size() > 0 {
            self.cartridge.read_ram(index as usize - 0xA000)
        } else {
            0xFF
        }
    }

    pub fn write_byte(&mut self, index: u16, val: u8)
        requires
            old(self)@.wf(),
            cart_addr(index as int),
        ensures
            final(self)@ == rom_only_written(old(self)@, index as int, val),
    {
        if index >= 0xA000 && self.cartridge.get_ram_size() > 0 {
            self.cartridge.write_ram(index as usize - 0xA000, val);
        }
    }
}

/// The state of an MBC1 controller: the cartridge and the four banking registers.
pub struct Mbc1View {
    pub cart: CartridgeView,
    pub ram_enable: bool,
    /// Lower five bits of the ROM bank number.
    pub bank_lower: u8,
    /// Two more bits: RAM bank in RAM-banking mode, high ROM bank bits otherwise.
    pub bank_upper: u8,
    /// RAM-banking mode (true) or ROM-banking mode (false).
    pub ram_banking: bool,
}

/// Banks 0x00, 0x20, 0x40 and 0x60 cannot be selected: the next bank is mapped instead.
pub open spec fn bank_quirk(b: int) -> int {
    if b == 0x00 || b == 0x20 || b == 0x40 || b == 0x60 {
        b + 1
    } else {
        b
    }
}

impl Mbc1View {
    pub open spec fn wf(self) -> bool {
        self.cart.wf() && self.bank_lower < 32 && self.bank_upper < 4
    }

    /// The bank number the registers select, before the quirk and the mask.
    pub open spec fn raw_rom_bank(self) -> int {
        if self.ram_banking {
            self.bank_lower as int
        } else {
            self.bank_upper * 32 + self.bank_lower
        }
    }

    /// The ROM bank mapped at 0x4000-0x7FFF: the quirk applied, then masked to the bank
    /// count (a power of two).
    pub open spec fn rom_bank(self) -> int {
        bank_quirk(self.raw_rom_bank()) % (self.cart.rom_banks as int)
    }

    /// The RAM bank mapped at 0xA000-0xBFFF.
    pub open spec fn ram_bank(self) -> int {
        if self.ram_banking && self.cart.ram_banks > 0 {
            (self.bank_upper as int) % (self.cart.ram_banks as int)
        } else {
            0
        }
    }

    /// What a read of `addr` returns.
    pub open spec fn read(self, addr: int) -> u8 {
        if addr < 0x4000 {
            self.cart.rom[addr]
        } else if addr < 0x8000 {
            self.cart.rom[self.rom_bank() * 0x4000 + addr - 0x4000]
        } else if self.ram_enable {
            self.cart.ram[self.ram_bank() * 0x2000 + addr - 0xA000]
        } else {
            0xFF
        }
    }

    /// The state after a write of `val` at `addr`.
    pub open spec fn written(self, addr: int, val: u8) -> Mbc1View {
        if addr < 0x2000 {
            Mbc1View { ram_enable: val % 16 == 0x0A, ..self }
        } else if addr < 0x4000 {
            Mbc1View { bank_lower: val % 32, ..self }
        } else if addr < 0x6000 {
            Mbc1View { bank_upper: val % 4, ..self }
        } else if addr < 0x8000 {
            Mbc1View { ram_banking: val % 2 == 1, ..self }
        } else if self.ram_enable {
            Mbc1View {
                cart: CartridgeView {
                    ram: self.cart.ram.update(self.ram_bank() * 0x2000 + addr - 0xA000, val),
                    ..self.cart
                },
                ..self
            }
        } else {
            self
        }
    }
}

/// The MBC1 bank controller: up to 2 MiB of ROM and 32 KiB of RAM behind banking registers
/// that writes into the ROM address space set.
pub struct Mbc1 {
    cartridge: Cartridge,
    ram_enable: bool,
    bank_lower: u8,
    bank_upper: u8,
    ram_banking: bool,
}

impl View for Mbc1 {
    type V = Mbc1View;

    closed spec fn view(&self) -> Mbc1View {
        Mbc1View {
            cart: self.cartridge@,
            ram_enable: self.ram_enable,
            bank_lower: self.bank_lower,
            bank_upper: self.bank_upper,
            ram_banking: self.ram_banking,
        }
    }
}

impl Mbc1 {
    /// RAM disabled, ROM-banking mode, bank registers cleared (so bank 1 is mapped).
    pub fn new(cartridge: Cartridge) -> (r: Mbc1)
        ensures
            r@ == (Mbc1View {
                cart: cartridge@,
                ram_enable: false,
                bank_lower: 0,
                bank_upper: 0,
                ram_banking: false,
            }),
    {
        Mbc1 { cartridge, ram_enable: false, bank_lower: 0, bank_upper: 0, ram_banking: false }
    }

    /// The ROM bank mapped at 0x4000-0x7FFF.
    pub fn rom_bank(&self) -> (r: usize)
        requires
            self@.wf(),
        ensures
            r == self@.rom_bank(),
            r < self@.cart.rom_banks,
    {
        let raw: usize = if self.ram_banking {
            self.bank_lower as usize
        } else {
            self.bank_upper as usize * 32 + self.bank_lower as usize
        };
        let fixed: usize = if raw == 0x00 || raw == 0x20 || raw == 0x40 || raw == 0x60 {
            raw + 1
        } else {
            raw
        };
        fixed % self.cartridge.get_rom_banks()
    }

    /// The RAM bank mapped at 0xA000-0xBFFF.
    pub fn ram_bank(&self) -> (r: usize)
        requires
            self@.wf(),
        ensures
            r == self@.ram_bank(),
            r < 4,
    {
        let banks = self.cartridge.get_ram_banks();
        if self.ram_banking && banks > 0 {
            let u = self.bank_upper as usize;
            proof {
                assert(u % banks <= u) by (nonlinear_arith)
                    requires
                        banks > 0,
                ;
            }
            u % banks
        } else {
            0
        }
    }

    pub fn read_byte(&self, index: u16) -> (r: u8)
        requires
            self@.wf(),
            cart_addr(index as int),
        ensures
            r == self@.read(index as int),
    {
        if index < 0x4000 {
            self.cartridge.read_rom(index as usize)
        } else if index < 0x8000 {
            let bank = self.rom_bank();
            proof {
                assert(bank * 0x4000 + 0x4000 <= self@.cart.rom_banks * 0x4000) by (nonlinear_arith)
                    requires
                        bank < self@.cart.rom_banks,
                ;
            }
            self.cartridge.read_rom(bank * 0x4000 + index as usize - 0x4000)
        } else if self.ram_enable {
            let bank = self.ram_bank();
            self.cartridge.read_ram(bank * 0x2000 + index as usize - 0xA000)
        } else {
            0xFF
        }
    }

    pub fn write_byte(&mut self, index: u16, val: u8)
        requires
            old(self)@.wf(),
            cart_addr(index as int),
        ensures
            final(self)@ == old(self)@.written(index as int, val),
            final(self)@.wf(),
    {
        if index < 0x2000 {
            self.ram_enable = val % 16 == 0x0A;
        } else if index < 0x4000 {
            self.bank_lower = val % 32;
        } else if index < 0x6000 {
            self.bank_upper = val % 4;
        } else if index < 0x8000 {
            self.ram_banking = val % 2 == 1;
        } else if self.ram_enable {
            let bank = self.ram_bank();
            self.cartridge.write_ram(bank * 0x2000 + index as usize - 0xA000, val);
        }
    }
}

/// Selecting bank 0x00, 0x20, 0x40 or 0x60 (upper bits through 0x4000-0x5FFF, lower bits
/// through 0x2000-0x3FFF, in ROM-banking mode) maps bank 0x01, 0x21, 0x41 or 0x61, masked to
/// the bank count.
pub proof fn lemma_bank_quirk(m: Mbc1View, v: u8)
    requires
        m.wf(),
        !m.ram_banking,
        v == 0x00 || v == 0x20 || v == 0x40 || v == 0x60,
    ensures
        m.written(0x4000, v / 32).written(0x2000, v).rom_bank() == (v + 1) % (m.cart.rom_banks as int),
{
}

/// A write to external RAM while it is disabled changes nothing that any later read sees.
pub proof fn lemma_disabled_ram_write_invisible(m: Mbc1View, addr: int, val: u8)
    requires
        m.wf(),
        !m.ram_enable,
        0xA000 <= addr < 0xC000,
    ensures
        m.written(addr, val) == m,
        forall|a: int| cart_addr(a) ==> #[trigger] m.written(addr, val).read(a) == m.read(a),
{
}

/// The controller behind the cartridge slot.
pub enum Mbc {
    RomOnly(RomOnly),
    Mbc1(Mbc1),
}

/// The state of the controller behind the cartridge slot.
pub enum MbcView {
    RomOnly(CartridgeView),
    Mbc1(Mbc1View),
}

impl MbcView {
    pub open spec fn wf(self) -> bool {
        match self {
            MbcView::RomOnly(c) => c.wf(),
            MbcView::Mbc1(m) => m.wf(),
        }
    }

    pub open spec fn read(self, addr: int) -> u8 {
        match self {
            MbcView::RomOnly(c) => rom_only_read(c, addr),
            MbcView::Mbc1(m) => m.read(addr),
        }
    }

    pub open spec fn written(self, addr: int, val: u8) -> MbcView {
        match self {
            MbcView::RomOnly(c) => MbcView::RomOnly(rom_only_written(c, addr, val)),
            MbcView::Mbc1(m) => MbcView::Mbc1(m.written(addr, val)),
        }
    }
}

impl View for Mbc {
    type V = MbcView;

    closed spec fn view(&self) -> MbcView {
        match self {
            Mbc::RomOnly(c) => MbcView::RomOnly(c@),
            Mbc::Mbc1(m) => MbcView::Mbc1(m@),
        }
    }
}

impl Mbc {
    /// The controller that the cartridge's header names, in its power-on state.
    pub fn new(cartridge: Cartridge) -> (r: Mbc)
        requires
            cartridge@.wf(),
            cartridge@.mbc_type == MbcType::RomOnly || cartridge@.mbc_type == MbcType::Mbc1,
        ensures
            r@.wf(),
            cartridge@.mbc_type == MbcType::RomOnly ==> r@ == MbcView::RomOnly(cartridge@),
            cartridge@.mbc_type == MbcType::Mbc1 ==> r@ == MbcView::Mbc1(
                Mbc1View {
                    cart: cartridge@,
                    ram_enable: false,
                    bank_lower: 0,
                    bank_upper: 0,
                    ram_banking: false,
                },
            ),
    {
        match cartridge.get_mbc_type() {
            MbcType::RomOnly => Mbc::RomOnly(RomOnly::new(cartridge)),
            _ => Mbc::Mbc1(Mbc1::new(cartridge)),
        }
    }

    pub fn read_byte(&self, index: u16) -> (r: u8)
        requires
            self@.wf(),
            cart_addr(index as int),
        ensures
            r == self@.read(index as int),
    {
        match self {
            Mbc::RomOnly(c) => c.read_byte(index),
            Mbc::Mbc1(m) => m.read_byte(index),
        }
    }

    pub fn write_byte(&mut self, index: u16, val: u8)
        requires
            old(self)@.wf(),
            cart_addr(index as int),
        ensures
            final(self)@ == old(self)@.written(index as int, val),
            final(self)@.wf(),
    {
        match self {
            Mbc::RomOnly(c) => c.write_byte(index, val),
            Mbc::Mbc1(m) => m.write_byte(index, val),
        }
    }
}

} // verus!
