use kunzite::cpu::decode::CpuError;
use kunzite::cpu::instruction::Instruction;
use kunzite::gb::{Gb, GbError, Step, FRAME_CYCLES};
use kunzite::memory::cartridge::CartridgeError;
use kunzite::memory::mbc::MbcType;

/// A 32 KiB plain ROM that jumps from 0x100 to `code` at 0x150, with `extra` bytes placed
/// at their addresses.
fn program(code: &[u8], extra: &[(usize, u8)]) -> Vec<u8> {
    let mut rom = vec![0u8; 0x8000];
    rom[0x100..0x104].copy_from_slice(&[0x00, 0xC3, 0x50, 0x01]);
    rom[0x150..0x150 + code.len()].copy_from_slice(code);
    for (addr, b) in extra {
        rom[*addr] = *b;
    }
    let mut x: u8 = 0;
    for b in &rom[0x134..0x14D] {
        x = x.wrapping_sub(*b).wrapping_sub(1);
    }
    rom[0x14D] = x;
    rom
}

/// The console with `code` loaded, past the jump to it.
fn boot(code: &[u8], extra: &[(usize, u8)]) -> Gb {
    let mut gb = Gb::from_rom(program(code, extra)).ok().unwrap();
    assert_eq!(gb.step(), Ok(4));
    assert_eq!(gb.step(), Ok(16));
    assert_eq!(*gb.cpu.pc(), 0x150);
    gb
}

#[test]
fn boot_state() {
    let gb = Gb::from_rom(program(&[], &[])).ok().unwrap();
    let r = gb.cpu.regs();
    assert_eq!(r.get_af(), 0x01B0);
    assert_eq!(r.get_bc(), 0x0013);
    assert_eq!(r.get_de(), 0x00D8);
    assert_eq!(r.get_hl(), 0x014D);
    assert_eq!(r.sp, 0xFFFE);
    assert_eq!(*gb.cpu.pc(), 0x0100);
    assert!(!gb.cpu.interrupts_enabled());
}

#[test]
fn inc16_carries_into_high_byte_without_flags() {
    // LD BC, 0x00FF; INC BC
    let mut gb = boot(&[0x01, 0xFF, 0x00, 0x03], &[]);
    assert_eq!(gb.step(), Ok(12));
    let flags_before = gb.cpu.regs().f;
    assert_eq!(gb.step(), Ok(8));
    assert_eq!(gb.cpu.regs().get_bc(), 0x0100);
    assert_eq!(gb.cpu.regs().f, flags_before);
}

#[test]
fn add_a_b_through_cpu() {
    // LD A, 0xFC; LD B, 0x09; ADD A, B
    let mut gb = boot(&[0x3E, 0xFC, 0x06, 0x09, 0x80], &[]);
    for _ in 0..3 {
        gb.step().unwrap();
    }
    let r = gb.cpu.regs();
    assert_eq!(r.a, 0x05);
    assert!(!r.f.zero && !r.f.subtract && r.f.half_carry && r.f.carry);
}

#[test]
fn dec_a_through_cpu() {
    // LD A, 0x00; DEC A
    let mut gb = boot(&[0x3E, 0x00, 0x3D], &[]);
    gb.step().unwrap();
    gb.step().unwrap();
    let r = gb.cpu.regs();
    assert_eq!(r.a, 0xFF);
    assert!(!r.f.zero && r.f.subtract && r.f.half_carry);
}

#[test]
fn cp_immediate_with_equal_value() {
    // LD A, 0x42; CP 0x42
    let mut gb = boot(&[0x3E, 0x42, 0xFE, 0x42], &[]);
    gb.step().unwrap();
    gb.step().unwrap();
    let r = gb.cpu.regs();
    assert_eq!(r.a, 0x42);
    assert!(r.f.zero && r.f.subtract && !r.f.half_carry && !r.f.carry);
}

#[test]
fn push_then_pop_restores_pair_and_sp() {
    // LD BC, 0x1234; PUSH BC; POP DE; PUSH AF; POP AF
    let mut gb = boot(&[0x01, 0x34, 0x12, 0xC5, 0xD1, 0xF5, 0xF1], &[]);
    gb.step().unwrap();
    let sp = gb.cpu.regs().sp;
    assert_eq!(gb.step(), Ok(16));
    assert_eq!(gb.cpu.regs().sp, sp.wrapping_sub(2));
    assert_eq!(gb.memory().read_word(sp.wrapping_sub(2)), 0x1234);
    assert_eq!(gb.step(), Ok(12));
    assert_eq!(gb.cpu.regs().get_de(), 0x1234);
    assert_eq!(gb.cpu.regs().sp, sp);
    let af = gb.cpu.regs().get_af();
    gb.step().unwrap();
    gb.step().unwrap();
    assert_eq!(gb.cpu.regs().get_af(), af);
    assert_eq!(gb.cpu.regs().sp, sp);
}

#[test]
fn pc_moves_by_instruction_size() {
    // LD BC, nn; LD A, n; NOP; LD (HL+), A; CB SWAP A; LD (0xC000), A
    let code = [0x01, 0x00, 0x00, 0x3E, 0x12, 0x00, 0x22, 0xCB, 0x37, 0xEA, 0x00, 0xC0];
    let mut gb = boot(&code, &[]);
    for _ in 0..6 {
        let pc = *gb.cpu.pc();
        let i = gb.cpu.decode(pc, gb.memory()).unwrap();
        let c = gb.step().unwrap();
        assert_eq!(*gb.cpu.pc(), pc.wrapping_add(i.size()));
        assert_eq!(c, i.cycles());
    }
    assert_eq!(gb.memory().read_byte(0xC000), 0x21);
}

#[test]
fn relative_jump_uses_address_after_instruction() {
    // JR -2 loops on itself.
    let mut gb = boot(&[0x18, 0xFE], &[]);
    assert_eq!(gb.step(), Ok(12));
    assert_eq!(*gb.cpu.pc(), 0x150);
}

#[test]
fn conditional_jumps_cost_more_when_taken() {
    // Z is set at boot. JR NZ, +2 (not taken); JR Z, +0 (taken)
    let mut gb = boot(&[0x20, 0x02, 0x28, 0x00], &[]);
    assert_eq!(gb.step(), Ok(8));
    assert_eq!(*gb.cpu.pc(), 0x152);
    assert_eq!(gb.step(), Ok(12));
    assert_eq!(*gb.cpu.pc(), 0x154);
}

#[test]
fn call_and_return() {
    // CALL 0x0200; at 0x0200: RET
    let mut gb = boot(&[0xCD, 0x00, 0x02], &[(0x200, 0xC9)]);
    let sp = gb.cpu.regs().sp;
    assert_eq!(gb.step(), Ok(24));
    assert_eq!(*gb.cpu.pc(), 0x0200);
    assert_eq!(gb.memory().read_word(sp.wrapping_sub(2)), 0x0153);
    assert_eq!(gb.step(), Ok(16));
    assert_eq!(*gb.cpu.pc(), 0x0153);
    assert_eq!(gb.cpu.regs().sp, sp);
}

#[test]
fn restart_pushes_return_address() {
    // RST 0x08
    let mut gb = boot(&[0xCF], &[]);
    assert_eq!(gb.step(), Ok(16));
    assert_eq!(*gb.cpu.pc(), 0x0008);
    let sp = gb.cpu.regs().sp;
    assert_eq!(gb.memory().read_word(sp), 0x0151);
}

#[test]
fn vblank_interrupt_serviced_first() {
    // LD A, 3; LDH (IE), A; LDH (IF), A; EI
    let mut gb = boot(&[0x3E, 0x03, 0xE0, 0xFF, 0xE0, 0x0F, 0xFB], &[]);
    for _ in 0..3 {
        gb.step().unwrap();
    }
    assert_eq!(gb.memory().interrupt_flags(), 0x03);
    // EI, then the vertical blank (bit 0) is serviced; the LCD request (bit 1) waits.
    assert_eq!(gb.step(), Ok(4 + 20));
    assert_eq!(*gb.cpu.pc(), 0x0040);
    assert!(!gb.cpu.interrupts_enabled());
    assert_eq!(gb.memory().interrupt_flags(), 0x02);
    let sp = gb.cpu.regs().sp;
    assert_eq!(gb.memory().read_word(sp), 0x0157);
    // With IME cleared, nothing more is serviced.
    gb.step().unwrap();
    assert_eq!(*gb.cpu.pc(), 0x0041);
    assert_eq!(gb.memory().interrupt_flags(), 0x02);
}

#[test]
fn reti_returns_and_clears_ime() {
    // LD SP, 0xFFF0; CALL 0x0200; at 0x0200: EI; RETI
    let mut gb = boot(&[0x31, 0xF0, 0xFF, 0xCD, 0x00, 0x02], &[(0x200, 0xFB), (0x201, 0xD9)]);
    gb.step().unwrap();
    gb.step().unwrap();
    gb.step().unwrap();
    assert!(gb.cpu.interrupts_enabled());
    assert_eq!(gb.step(), Ok(16));
    assert_eq!(*gb.cpu.pc(), 0x0156);
    assert!(!gb.cpu.interrupts_enabled());
}

#[test]
fn halted_cpu_idles_four_ticks() {
    // HALT
    let mut gb = boot(&[0x76], &[]);
    assert_eq!(gb.step(), Ok(4));
    assert!(gb.cpu.is_halted());
    assert_eq!(gb.step(), Ok(4));
    assert_eq!(*gb.cpu.pc(), 0x151);
}

#[test]
fn interrupt_wakes_halted_cpu() {
    // LD A, 1; LDH (IE), A; EI; HALT; the display then requests the vertical blank.
    let mut gb = boot(&[0x3E, 0x01, 0xE0, 0xFF, 0xFB, 0x76], &[]);
    for _ in 0..4 {
        gb.step().unwrap();
    }
    assert!(gb.cpu.is_halted());
    let mut steps = 0;
    while gb.cpu.is_halted() {
        assert_eq!(*gb.cpu.pc(), 0x0156);
        gb.step().unwrap();
        steps += 1;
    }
    // The display reaches line 144 after 144 * 456 ticks, four ticks a step.
    assert!(steps > 16000);
    assert_eq!(*gb.cpu.pc(), 0x0040);
    assert!(!gb.cpu.interrupts_enabled());
    assert_eq!(gb.memory().interrupt_flags() & 1, 0);
    assert_eq!(gb.memory().read_word(gb.cpu.regs().sp), 0x0156);
}

#[test]
fn undefined_opcode_stops_without_change() {
    let mut gb = boot(&[0xD3], &[]);
    assert_eq!(gb.step(), Err(CpuError::UndefinedOpcode(0xD3)));
    assert_eq!(*gb.cpu.pc(), 0x150);
    assert_eq!(gb.cpu.decode(0x150, gb.memory()), Err(CpuError::UndefinedOpcode(0xD3)));
}

#[test]
fn dma_ticks_are_charged_to_the_step() {
    // LD A, 0xC0; LDH (0x46), A
    let mut gb = boot(&[0x3E, 0xC0, 0xE0, 0x46], &[]);
    gb.step().unwrap();
    assert_eq!(gb.step(), Ok(12 + 640));
}

#[test]
fn decode_at_pc_reads_without_change() {
    let gb = boot(&[0x3E, 0x42], &[]);
    assert_eq!(gb.cpu.decode(0x150, gb.memory()), Ok(Instruction::StoreImm8(kunzite::cpu::instruction::Register8::A, 0x42)));
    assert_eq!(*gb.cpu.pc(), 0x150);
}

#[test]
fn run_counts_steps_and_frames() {
    let mut gb = boot(&[0x18, 0xFE], &[]);
    assert_eq!(gb.run(Step::InstCount(10), 0), Ok((120, 0)));
    assert_eq!(gb.run(Step::InstCount(1), FRAME_CYCLES - 1), Ok((0, 1)));
    assert_eq!(gb.run(Step::Frame, 0), Ok((0, 1)));
}

#[test]
fn unsupported_controller_is_refused() {
    let mut rom = program(&[], &[]);
    rom[0x147] = 0x05;
    let mut x: u8 = 0;
    for b in &rom[0x134..0x14D] {
        x = x.wrapping_sub(*b).wrapping_sub(1);
    }
    rom[0x14D] = x;
    assert_eq!(Gb::from_rom(rom).err(), Some(GbError::UnsupportedController(MbcType::Mbc2)));
    assert_eq!(Gb::from_rom(vec![0u8; 16]).err(), Some(GbError::Cartridge(CartridgeError::TooShort)));
}

#[test]
fn run_stops_at_failing_step() {
    // NOP; NOP; undefined
    let mut gb = boot(&[0x00, 0x00, 0xD3], &[]);
    assert_eq!(gb.run(Step::InstCount(5), 0), Err(CpuError::UndefinedOpcode(0xD3)));
    assert_eq!(*gb.cpu.pc(), 0x152);
    assert_eq!(gb.run(Step::InstCount(0), 100), Ok((100, 0)));
}
