use vstd::prelude::*;

use super::mbc::MbcType;
use crate::util::{nonzero_chars, slice_to_string};

verus! {

/// Why a ROM image cannot be inserted.
#[derive(Clone, Copy, Debug, PartialEq, Eq, Structural)]
pub enum CartridgeError {
    /// The image ends before the header does (0x150 bytes).
    TooShort,
    /// The cartridge type byte (0x147) names no known controller.
    UnsupportedType(u8),
    /// The ROM size code (0x148) is above 8.
    UnknownRomSize(u8),
    /// The image's length is not 32 KiB shifted left by the ROM size code.
    LengthMismatch,
    /// The RAM size code (0x149) is above 5.
    UnknownRamSize(u8),
    /// The header checksum (0x14D) does not match the header bytes 0x134-0x14C.
    BadChecksum,
}

/// The first byte of the title, and of the bytes that the header checksum covers.
pub const TITLE_START: usize = 0x134;

/// One past the last title byte read.
pub const TITLE_END: usize = 0x143;

/// The colour flag: 0x80 or 0xC0 for a colour-capable cartridge.
pub const CGB_FLAG: usize = 0x143;

/// The cartridge type byte, which names the bank controller.
pub const CARTRIDGE_TYPE: usize = 0x147;

/// The ROM size code: the image holds 32 KiB shifted left by it.
pub const ROM_SIZE: usize = 0x148;

/// The RAM size code.
pub const RAM_SIZE: usize = 0x149;

/// The header checksum byte.
pub const HEADER_CHECKSUM: usize = 0x14D;

/// One past the end of the header.
pub const HEADER_END: usize = 0x150;

/// The controller that a cartridge type byte names.
pub open spec fn mbc_type_of(t: u8) -> Option<MbcType> {
    if t == 0x00 || t == 0x08 || t == 0x09 {
        Some(MbcType::RomOnly)
    } else if t == 0x01 || t == 0x02 || t == 0x03 || t == 0xEA || t == 0xFF {
        Some(MbcType::Mbc1)
    } else if t == 0x05 || t == 0x06 {
        Some(MbcType::Mbc2)
    } else if t == 0x0F || t == 0x10 || t == 0x11 || t == 0x12 || t == 0x13 || t == 0xFC {
        Some(MbcType::Mbc3)
    } else if 0x19 <= t <= 0x1E {
        Some(MbcType::Mbc5)
    } else {
        None
    }
}

/// 2 to the power `n`.
pub open spec fn pow2(n: nat) -> nat
    decreases n,
{
    if n == 0 {
        1
    } else {
        2 * pow2((n - 1) as nat)
    }
}

/// RAM banks of 8 KiB for each RAM size code: 0, 2, 8, 32, 128 and 64 KiB.
pub open spec fn ram_banks_of(code: u8) -> nat {
    if code == 0 {
        0
    } else if code == 1 || code == 2 {
        1
    } else if code == 3 {
        4
    } else if code == 4 {
        16
    } else {
        8
    }
}

/// The header checksum over the bytes from 0x134 up to `end`: each byte is subtracted,
/// together with one, from a running byte that starts at zero. Over the 25 header bytes
/// 0x134-0x14C this is `0 - Σ - 25` modulo 256.
pub open spec fn checksum_upto(rom: Seq<u8>, end: int) -> u8
    decreases end,
{
    if end <= TITLE_START {
        0
    } else {
        ((checksum_upto(rom, end - 1) - rom[end - 1] - 1) % 256) as u8
    }
}

/// Whether the header checksum byte matches the header.
pub open spec fn checksum_ok(rom: Seq<u8>) -> bool {
    rom[HEADER_CHECKSUM as int] == checksum_upto(rom, HEADER_CHECKSUM as int)
}

/// Why `rom` is refused, if it is: the first failing check in the order listed by
/// `CartridgeError`.
pub open spec fn rom_error(rom: Seq<u8>) -> Option<CartridgeError> {
    if rom.len() < HEADER_END {
        Some(CartridgeError::TooShort)
    } else if mbc_type_of(rom[CARTRIDGE_TYPE as int]) is None {
        Some(CartridgeError::UnsupportedType(rom[CARTRIDGE_TYPE as int]))
    } else if rom[ROM_SIZE as int] > 8 {
        Some(CartridgeError::UnknownRomSize(rom[ROM_SIZE as int]))
    } else if rom.len() != 0x8000 * pow2(rom[ROM_SIZE as int] as nat) {
        Some(CartridgeError::LengthMismatch)
    } else if rom[RAM_SIZE as int] > 5 {
        Some(CartridgeError::UnknownRamSize(rom[RAM_SIZE as int]))
    } else if !checksum_ok(rom) {
        Some(CartridgeError::BadChecksum)
    } else {
        None
    }
}

/// What the CPU's bus sees of a cartridge.
pub struct CartridgeView {
    pub rom: Seq<u8>,
    pub ram: Seq<u8>,
    pub rom_banks: nat,
    pub ram_banks: nat,
    pub ram_size: nat,
    pub mbc_type: MbcType,
    pub is_cgb: bool,
    pub has_rtc: bool,
    pub has_battery: bool,
    pub name: Seq<char>,
}

impl CartridgeView {
    /// The ROM holds `rom_banks` banks of 16 KiB, at least two; the external RAM spans
    /// the four 8 KiB banks that a banked read can reach. Both bank counts are powers of two
    /// (or no RAM bank at all), so that a bank number modulo the count is the number masked
    /// with the count minus one.
    pub open spec fn wf(self) -> bool {
        &&& 2 <= self.rom_banks <= 512
        &&& exists|k: nat| self.rom_banks == #[trigger] pow2(k)
        &&& self.ram_banks == 0 || exists|k: nat| self.ram_banks == #[trigger] pow2(k)
        &&& self.rom.len() == self.rom_banks * 0x4000
        &&& self.ram.len() == 0x8000
        &&& self.ram_banks <= 16
    }
}

/// A cartridge: the ROM image, its external RAM, and what its header declares.
pub struct Cartridge {
    rom_banks: usize,
    ram_banks: usize,
    ram_size: usize,
    has_rtc: bool,
    has_battery: bool,
    rom: Vec<u8>,
    ram: Vec<u8>,
    name: String,
    mbc_type: MbcType,
    is_cgb: bool,
}

impl View for Cartridge {
    type V = CartridgeView;

    closed spec fn view(&self) -> CartridgeView {
        CartridgeView {
            rom: self.rom@,
            ram: self.ram@,
            rom_banks: self.rom_banks as nat,
            ram_banks: self.ram_banks as nat,
            ram_size: self.ram_size as nat,
            mbc_type: self.mbc_type,
            is_cgb: self.is_cgb,
            has_rtc: self.has_rtc,
            has_battery: self.has_battery,
            name: self.name@,
        }
    }
}

/// The header checksum that `rom` should carry.
fn header_checksum(rom: &Vec<u8>) -> (r: u8)
    requires
        rom@.len() >= HEADER_END,
    ensures
        r == checksum_upto(rom@, HEADER_CHECKSUM as int),
{
    let mut x: u8 = 0;
    let mut i: usize = TITLE_START;
    while i < HEADER_CHECKSUM
        invariant
            TITLE_START <= i <= HEADER_CHECKSUM,
            rom@.len() >= HEADER_END,
            x == checksum_upto(rom@, i as int),
        decreases HEADER_CHECKSUM - i,
    {
        x = x.wrapping_sub(rom[i]).wrapping_sub(1);
        i = i + 1;
    }
    x
}

impl Cartridge {
    /// Read the header of a ROM image and check it: the controller type, the declared
    /// ROM size against the image's length, the RAM size, and the header checksum.
    pub fn from_rom(rom: Vec<u8>) -> (r: Result<Cartridge, CartridgeError>)
        ensures
            r is Err <==> rom_error(rom@) is Some,
            r matches Err(e) ==> rom_error(rom@) == Some(e),
            r matches Ok(c) ==> {
                &&& c@.wf()
                &&& c@.rom == rom@
                &&& Some(c@.mbc_type) == mbc_type_of(rom@[CARTRIDGE_TYPE as int])
                &&& c@.rom_banks == 2 * pow2(rom@[ROM_SIZE as int] as nat)
                &&& c@.ram_size == rom@[RAM_SIZE as int]
                &&& c@.ram_banks == ram_banks_of(rom@[RAM_SIZE as int])
                &&& c@.is_cgb == (rom@[CGB_FLAG as int] == 0x80 || rom@[CGB_FLAG as int] == 0xC0)
                &&& forall|i: int| 0 <= i < 0x8000 ==> #[trigger] c@.ram[i] == 0xFF
                &&& c@.name == nonzero_chars(rom@.subrange(TITLE_START as int, TITLE_END as int))
            },
    {
        if rom.len() < HEADER_END {
            return Err(CartridgeError::TooShort);
        }
        let cartridge_type = rom[CARTRIDGE_TYPE];
        let mbc_type = if cartridge_type == 0x00 || cartridge_type == 0x08 || cartridge_type
            == 0x09 {
            MbcType::RomOnly
        } else if cartridge_type == 0x01 || cartridge_type == 0x02 || cartridge_type == 0x03
            || cartridge_type == 0xEA || cartridge_type == 0xFF {
            MbcType::Mbc1
        } else if cartridge_type == 0x05 || cartridge_type == 0x06 {
            MbcType::Mbc2
        } else if cartridge_type == 0x0F || cartridge_type == 0x10 || cartridge_type == 0x11
            || cartridge_type == 0x12 || cartridge_type == 0x13 || cartridge_type == 0xFC {
            MbcType::Mbc3
        } else if 0x19 <= cartridge_type && cartridge_type <= 0x1E {
            MbcType::Mbc5
        } else {
            return Err(CartridgeError::UnsupportedType(cartridge_type));
        };

        let rom_code = rom[ROM_SIZE];
        if rom_code > 8 {
            return Err(CartridgeError::UnknownRomSize(rom_code));
        }
        let mut rom_banks: usize = 2;
        let mut k: u8 = 0;
        while k < rom_code
            invariant
                k <= rom_code <= 8,
                rom_banks == 2 * pow2(k as nat),
                rom_banks <= 512,
            decreases rom_code - k,
        {
            proof {
                assert(pow2((k + 1) as nat) == 2 * pow2(k as nat));
                if k < 8 {
                    lemma_pow2_bound(k as nat);
                }
            }
            rom_banks = rom_banks * 2;
            k = k + 1;
        }
        if rom.len() != rom_banks * 0x4000 {
            return Err(CartridgeError::LengthMismatch);
        }
        let ram_size = rom[RAM_SIZE];
        let ram_banks: usize = if ram_size == 0 {
            0
        } else if ram_size == 1 || ram_size == 2 {
            1
        } else if ram_size == 3 {
            4
        } else if ram_size == 4 {
            16
        } else if ram_size == 5 {
            8
        } else {
            return Err(CartridgeError::UnknownRamSize(ram_size));
        };
        if rom[HEADER_CHECKSUM] != header_checksum(&rom) {
            return Err(CartridgeError::BadChecksum);
        }
        let has_rtc = cartridge_type == 0x0F || cartridge_type == 0x10;
        let has_battery = cartridge_type == 0x03 || cartridge_type == 0x06 || cartridge_type
            == 0x09 || cartridge_type == 0x0D || cartridge_type == 0x0F || cartridge_type == 0x10
            || cartridge_type == 0x13 || cartridge_type == 0x17 || cartridge_type == 0x1E
            || cartridge_type == 0x1B || cartridge_type == 0x22 || cartridge_type == 0xFD
            || cartridge_type == 0xFF;
        let mut title: Vec<u8> = Vec::new();
        let mut i: usize = TITLE_START;
        while i < TITLE_END
            invariant
                TITLE_START <= i <= TITLE_END,
                rom@.len() >= HEADER_END,
                title@ == rom@.subrange(TITLE_START as int, i as int),
            decreases TITLE_END - i,
        {
            title.push(rom[i]);
            i = i + 1;
        }
        let name = slice_to_string(title.as_slice());
        proof {
            assert(rom_banks == pow2((rom_code + 1) as nat));
            reveal_with_fuel(pow2, 5);
            assert(pow2(0) == 1 && pow2(2) == 4 && pow2(3) == 8 && pow2(4) == 16);
        }
        let is_cgb = rom[CGB_FLAG] == 0xC0 || rom[CGB_FLAG] == 0x80;
        let ram = vec![0xFFu8; 0x8000];
        Ok(
            Cartridge {
                rom_banks,
                ram_banks,
                ram_size: ram_size as usize,
                has_rtc,
                has_battery,
                rom,
                ram,
                name,
                mbc_type,
                is_cgb,
            },
        )
    }

    pub fn get_rom_banks(&self) -> (r: usize)
        ensures
            r == self@.rom_banks,
    {
        self.rom_banks
    }

    pub fn get_ram_banks(&self) -> (r: usize)
        ensures
            r == self@.ram_banks,
    {
        self.ram_banks
    }

    /// The RAM size code of the header.
    pub fn get_ram_size(&self) -> (r: usize)
        ensures
            r == self@.ram_size,
    {
        self.ram_size
    }

    pub fn get_rom(&self) -> (r: &[u8])
        ensures
            r@ == self@.rom,
    {
        self.rom.as_slice()
    }

    /// The external RAM, to be changed in place; the cartridge afterwards holds what the
    /// borrow was left with.
    pub fn get_ram_mut(&mut self) -> (r: &mut [u8])
        ensures
            r@ == old(self)@.ram,
            final(self)@ == (CartridgeView { ram: final(r)@, ..old(self)@ }),
    {
        self.ram.as_mut_slice()
    }

    pub fn get_ram(&self) -> (r: &[u8])
        ensures
            r@ == self@.ram,
    {
        self.ram.as_slice()
    }

    pub fn get_mbc_type(&self) -> (r: MbcType)
        ensures
            r == self@.mbc_type,
    {
        self.mbc_type
    }

    /// The title of the header, zero bytes left out.
    pub fn get_name(&self) -> (r: &String)
        ensures
            r@ == self@.name,
    {
        &self.name
    }

    /// Whether the header declares colour support.
    pub fn is_cgb(&self) -> (r: bool)
        ensures
            r == self@.is_cgb,
    {
        self.is_cgb
    }

    /// The ROM byte at `index`.
    pub fn read_rom(&self, index: usize) -> (r: u8)
        requires
            index < self@.rom.len(),
        ensures
            r == self@.rom[index as int],
    {
        self.rom[index]
    }

    /// The external RAM byte at `index`.
    pub fn read_ram(&self, index: usize) -> (r: u8)
        requires
            index < self@.ram.len(),
        ensures
            r == self@.ram[index as int],
    {
        self.ram[index]
    }

    /// Store `val` in external RAM at `index`.
    pub fn write_ram(&mut self, index: usize, val: u8)
        requires
            index < old(self)@.ram.len(),
        ensures
            final(self)@ == (CartridgeView { ram: old(self)@.ram.update(index as int, val), ..old(self)@ }),
    {
        self.ram.set(index, val);
    }
}

proof fn lemma_pow2_bound(k: nat)
    requires
        k < 8,
    ensures
        pow2(k) <= 128,
{
    reveal_with_fuel(pow2, 8);
    if k == 0 {
    } else if k == 1 {
    } else if k == 2 {
    } else if k == 3 {
    } else if k == 4 {
    } else if k == 5 {
    } else if k == 6 {
    } else {
    }
}

/// Changing a byte past `end` leaves the checksum up to `end` as it was.
proof fn lemma_checksum_frame(rom: Seq<u8>, j: int, b: u8, end: int)
    requires
        end <= j < rom.len(),
    ensures
        checksum_upto(rom.update(j, b), end) == checksum_upto(rom, end),
    decreases end,
{
    if end > TITLE_START {
        lemma_checksum_frame(rom, j, b, end - 1);
    }
}

/// A valid image whose header checksum byte is changed to any other value is refused
/// for its checksum.
pub proof fn lemma_corrupt_checksum_rejected(rom: Seq<u8>, b: u8)
    requires
        rom_error(rom) is None,
        b != rom[HEADER_CHECKSUM as int],
    ensures
        rom_error(rom.update(HEADER_CHECKSUM as int, b)) == Some(CartridgeError::BadChecksum),
{
    lemma_checksum_frame(rom, HEADER_CHECKSUM as int, b, HEADER_CHECKSUM as int);
}

/// A valid image whose last checksummed header byte (0x14C) is changed to any other
/// value is refused for its checksum.
pub proof fn lemma_corrupt_header_rejected(rom: Seq<u8>, b: u8)
    requires
        rom_error(rom) is None,
        b != rom[HEADER_CHECKSUM as int - 1],
    ensures
        rom_error(rom.update(HEADER_CHECKSUM as int - 1, b)) == Some(CartridgeError::BadChecksum),
{
    let j = HEADER_CHECKSUM as int - 1;
    let r2 = rom.update(j, b);
    lemma_checksum_frame(rom, j, b, j);
    assert(checksum_upto(r2, j + 1) == ((checksum_upto(rom, j) - b - 1) % 256) as u8);
    assert(checksum_upto(rom, j + 1) == ((checksum_upto(rom, j) - rom[j] - 1) % 256) as u8);
}

} // verus!
