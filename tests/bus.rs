use kunzite::audio::Audio;
use kunzite::memory::cartridge::Cartridge;
use kunzite::memory::{Interrupt, Memory};
use kunzite::ppu::PPU;

fn image(cart_type: u8) -> Vec<u8> {
    let mut rom = vec![0u8; 0x8000];
    rom[0x147] = cart_type;
    rom[0x0200] = 0x5A;
    for i in 0..0xA0usize {
        rom[0x1000 + i] = i as u8;
    }
    let mut x: u8 = 0;
    for b in &rom[0x134..0x14D] {
        x = x.wrapping_sub(*b).wrapping_sub(1);
    }
    rom[0x14D] = x;
    rom
}

fn bus() -> Memory {
    Memory::from_cartridge(Cartridge::from_rom(image(0x00)).ok().unwrap(), false)
}

#[test]
fn work_ram_and_its_echo() {
    let mut m = bus();
    m.write_byte(0xC123, 0x77);
    assert_eq!(m.read_byte(0xC123), 0x77);
    assert_eq!(m.read_byte(0xE123), 0x77);
    m.write_byte(0xFDFF, 0x11);
    assert_eq!(m.read_byte(0xDDFF), 0x11);
}

#[test]
fn high_ram_and_words() {
    let mut m = bus();
    m.write_word(0xFF80, 0xBEEF);
    assert_eq!(m.read_byte(0xFF80), 0xEF);
    assert_eq!(m.read_byte(0xFF81), 0xBE);
    assert_eq!(m.read_word(0xFF80), 0xBEEF);
}

#[test]
fn rom_reads_and_ignores_writes() {
    let mut m = bus();
    assert_eq!(m.read_byte(0x0200), 0x5A);
    m.write_byte(0x0200, 0x00);
    assert_eq!(m.read_byte(0x0200), 0x5A);
}

#[test]
fn unmapped_addresses_read_zero() {
    let mut m = bus();
    m.write_byte(0xFEA0, 0x12);
    assert_eq!(m.read_byte(0xFEA0), 0);
    m.write_byte(0xFF00, 0x12);
    assert_eq!(m.read_byte(0xFF00), 0);
    m.write_byte(0xFF50, 0x12);
    assert_eq!(m.read_byte(0xFF50), 0);
    assert_eq!(m.read_byte(0xFF27), 0);
}

#[test]
fn interrupt_registers_keep_five_bits() {
    let mut m = bus();
    m.write_byte(0xFF0F, 0xFF);
    assert_eq!(m.interrupt_flags(), 0x1F);
    assert_eq!(m.read_byte(0xFF0F), 0xFF);
    m.write_byte(0xFF0F, 0x00);
    assert_eq!(m.read_byte(0xFF0F), 0xE0);
    m.write_byte(0xFFFF, 0xE5);
    assert_eq!(m.interrupt_enable(), 0x05);
    m.request_interrupt(Interrupt::Timer);
    assert_eq!(m.interrupt_flags(), 0x04);
    m.request_interrupt(Interrupt::Joypad);
    assert_eq!(m.interrupt_flags(), 0x14);
    m.clear_interrupt(2);
    assert_eq!(m.interrupt_flags(), 0x10);
}

#[test]
fn dma_copies_into_sprite_memory() {
    let mut m = bus();
    // Display off: sprite memory is open in mode 0.
    m.write_byte(0xFF40, 0x00);
    m.write_byte(0xFF46, 0x10);
    for i in 0..0xA0u16 {
        assert_eq!(m.read_byte(0xFE00 + i), i as u8);
    }
    assert_eq!(m.read_byte(0xFF46), 0x10);
    assert_eq!(m.take_dma_cycles(), 640);
    assert_eq!(m.take_dma_cycles(), 0);
}

#[test]
fn sound_registers_through_bus() {
    let mut m = bus();
    m.write_byte(0xFF12, 0xF3);
    assert_eq!(m.read_byte(0xFF12), 0xF3);
    m.write_byte(0xFF30, 0x9C);
    assert_eq!(m.read_byte(0xFF30), 0x9C);
}

#[test]
fn lcd_status_merges_read_only_bits() {
    let mut m = bus();
    // Power-on status: mode 2. Writes keep the low three bits; bit 7 always reads one.
    m.write_byte(0xFF40, 0x00);
    m.write_byte(0xFF41, 0x7F);
    assert_eq!(m.read_byte(0xFF41), 0xF8);
    m.write_byte(0xFF41, 0x00);
    assert_eq!(m.read_byte(0xFF41), 0x80);
}

#[test]
fn lcd_status_write_updates_coincidence_while_on() {
    let mut m = bus();
    // LY == LYC == 0 with the display on: the write sets the coincidence bit.
    m.write_byte(0xFF41, 0x00);
    assert_eq!(m.read_byte(0xFF41), 0x86);
    assert_eq!(m.interrupt_flags(), 0x00);
}

#[test]
fn lcd_status_write_raising_the_line_requests_interrupt() {
    let mut m = bus();
    // Enabling the sprite-search source while in mode 2 raises the line.
    m.write_byte(0xFF41, 0x20);
    assert_eq!(m.interrupt_flags(), 0x02);
    m.write_byte(0xFF0F, 0x00);
    // The line is already high: no new request.
    m.write_byte(0xFF41, 0x20);
    assert_eq!(m.interrupt_flags(), 0x00);
}

#[test]
fn lyc_match_requests_lcd_interrupt() {
    let mut m = bus();
    m.write_byte(0xFF41, 0x40);
    // LY == LYC already: enabling the coincidence source raises the line.
    assert_eq!(m.interrupt_flags(), 0x02);
    m.write_byte(0xFF0F, 0x00);
    m.write_byte(0xFF45, 0x05);
    assert_eq!(m.interrupt_flags(), 0x00);
    m.write_byte(0xFF45, 0x00);
    assert_eq!(m.interrupt_flags(), 0x02);
    assert_eq!(m.read_byte(0xFF41) & 0x04, 0x04);
}

#[test]
fn vblank_requested_after_144_lines() {
    let mut m = bus();
    m.update(456 * 143);
    assert_eq!(m.interrupt_flags() & 1, 0);
    m.update(456);
    assert_eq!(m.interrupt_flags() & 1, 1);
    assert_eq!(m.read_byte(0xFF44), 144);
}

#[test]
fn vram_closed_during_pixel_transfer() {
    let mut p = PPU::new();
    p.write(0x8000, 0x12);
    assert_eq!(p.read(0x8000), 0x12);
    // 100 ticks into line 0: pixel transfer.
    p.update(100);
    assert_eq!(p.read(0xFF41) & 0x03, 3);
    assert_eq!(p.read(0x8000), 0xFF);
    p.write(0x8000, 0x34);
    // Horizontal blank.
    p.update(200);
    assert_eq!(p.read(0xFF41) & 0x03, 0);
    assert_eq!(p.read(0x8000), 0x12);
}

#[test]
fn oam_closed_during_sprite_search() {
    let mut p = PPU::new();
    assert_eq!(p.read(0xFE00), 0xFF);
    p.write(0xFE00, 0x12);
    p.write(0xFF40, 0x00);
    assert_eq!(p.read(0xFE00), 0x00);
    p.write(0xFE00, 0x12);
    assert_eq!(p.read(0xFE00), 0x12);
    p.dma_write(1, 0x34);
    assert_eq!(p.read(0xFE01), 0x34);
}

#[test]
fn display_registers_store() {
    let mut p = PPU::new();
    p.write(0xFF42, 0x10);
    p.write(0xFF43, 0x20);
    p.write(0xFF47, 0xE4);
    p.write(0xFF4A, 0x30);
    p.write(0xFF4B, 0x07);
    assert_eq!(p.read(0xFF42), 0x10);
    assert_eq!(p.read(0xFF43), 0x20);
    assert_eq!(p.read(0xFF47), 0xE4);
    assert_eq!(p.read(0xFF4A), 0x30);
    assert_eq!(p.read(0xFF4B), 0x07);
    assert_eq!(p.read(0xFF40), 0x80);
}

#[test]
fn audio_registers() {
    let mut a = Audio::new();
    assert_eq!(a.read(0xFF10), 0);
    a.write(0xFF10, 0x80);
    a.write(0xFF15, 0x33);
    a.write(0xFF3F, 0x44);
    a.update(4);
    assert_eq!(a.read(0xFF10), 0x80);
    assert_eq!(a.read(0xFF15), 0);
    assert_eq!(a.read(0xFF3F), 0x44);
}

#[test]
fn dump_reads_a_range() {
    let mut m = bus();
    m.write_byte(0xFFFE, 0xAA);
    m.write_byte(0xFFFF, 0x03);
    m.write_byte(0xC000, 0xBB);
    let d = m.dump(0xFFFE, 3);
    assert_eq!(d, vec![0xAA, 0x03, 0x00]);
    assert_eq!(m.dump(0x0200, 1), vec![0x5A]);
}

#[test]
fn cartridge_ram_changed_in_place() {
    let mut c = Cartridge::from_rom(image(0x08)).ok().unwrap();
    c.get_ram_mut()[3] = 0x44;
    assert_eq!(c.get_ram()[3], 0x44);
    c.write_ram(4, 0x55);
    assert_eq!(c.read_ram(4), 0x55);
    assert_eq!(c.read_rom(0x200), 0x5A);
}

#[test]
fn display_position_wraps_at_frame_end() {
    let mut p = PPU::new();
    p.update(456 * 154 + 10);
    assert_eq!(p.read(0xFF44), 0);
    p.update(456 * 3);
    assert_eq!(p.read(0xFF44), 3);
}

#[test]
fn display_off_does_not_move() {
    let mut p = PPU::new();
    p.write(0xFF40, 0x00);
    p.update(10000);
    assert_eq!(p.read(0xFF44), 0);
    assert_eq!(p.read(0xFF41) & 0x03, 0);
}

#[test]
fn fresh_display_registers_are_cleared() {
    let p = PPU::new();
    assert_eq!(p.read(0xFF41), 0x02);
    for a in [0xFF42usize, 0xFF43, 0xFF44, 0xFF45, 0xFF46, 0xFF47, 0xFF48, 0xFF49, 0xFF4A, 0xFF4B].iter() {
        assert_eq!(p.read(*a), 0);
    }
}
