use nemu::bus::Bus;
use nemu::cpu::InterruptMode;
use nemu::joypad::JoypadButton;
use nemu::{Nemu, NemuError};

fn rom_with_program(program: &[u8]) -> Vec<u8> {
    let mut rom = vec![0u8; 0x8000];
    rom[0x100..0x100 + program.len()].copy_from_slice(program);
    rom
}

/// A machine with the cartridge loaded and the start-up program run to 0x0100.
fn booted(program: &[u8]) -> Nemu {
    let mut nemu = Nemu::new();
    nemu.load_cartridge(&rom_with_program(program)).unwrap();
    let mut guard = 0;
    while nemu.cpu.regs.pc != 0x0100 {
        nemu.step().unwrap();
        guard += 1;
        assert!(guard < 10_000, "start-up program did not reach 0x0100");
    }
    nemu
}

#[test]
fn boot_program_sets_post_boot_registers() {
    let nemu = booted(&[0x00]);
    let r = nemu.cpu.regs;
    assert_eq!((r.a, r.f, r.b, r.c, r.d, r.e, r.h, r.l), (0x01, 0xB0, 0x00, 0x13, 0x00, 0xD8, 0x01, 0x4D));
    assert_eq!(r.sp, 0xFFFE);
    assert!(!nemu.bus.boot_rom_enabled);
    assert_eq!(nemu.read_debug(0xFF40), 0x91);
}

#[test]
fn scenario_program_of_fourteen_instructions() {
    let program = [
        0x3E, 0x42, 0x06, 0x10, 0x01, 0x50, 0xC0, 0x02, 0x03, 0x04, 0x05, 0x05, 0x3E, 0x80, 0x07,
        0x3E, 0x0F, 0x06, 0x01, 0x80, 0x00,
    ];
    let mut nemu = booted(&program);
    for _ in 0..8 {
        nemu.step().unwrap();
    }
    assert_eq!(nemu.cpu.regs.b, 0xBF);
    assert_eq!(nemu.read_debug(0xC050), 0x42);
    for _ in 0..6 {
        nemu.step().unwrap();
    }
    let r = nemu.cpu.regs;
    assert_eq!(r.a, 0x10);
    assert_eq!(r.b, 0x01);
    assert_eq!(r.pc, 0x0115);
    assert!(r.half_carry_flag());
}

#[test]
fn ld_b_b_only_fetches() {
    let mut nemu = booted(&[0x40]);
    let before = nemu.cpu.regs;
    let cycles = nemu.step().unwrap();
    let after = nemu.cpu.regs;
    assert_eq!(cycles, 4);
    assert_eq!(after.pc, before.pc + 1);
    assert_eq!((after.a, after.f, after.b, after.c, after.d, after.e, after.h, after.l, after.sp),
        (before.a, before.f, before.b, before.c, before.d, before.e, before.h, before.l, before.sp));
}

#[test]
fn unknown_opcode_is_reported() {
    let mut nemu = booted(&[0xD3]);
    match nemu.step() {
        Err(NemuError::UnknownOpcode { opcode, pc }) => {
            assert_eq!(opcode, 0xD3);
            assert_eq!(pc, 0x0100);
        }
        other => panic!("expected an unknown opcode, got {:?}", other),
    }
}

#[test]
fn invalid_cartridge_type_is_rejected() {
    let mut rom = rom_with_program(&[]);
    rom[0x147] = 0x05;
    let mut nemu = Nemu::new();
    match nemu.load_cartridge(&rom) {
        Err(NemuError::InvalidRom(msg)) => assert_eq!(msg, "Unsupported MBC type: 0x05"),
        other => panic!("expected InvalidRom, got {:?}", other),
    }
    assert!(matches!(nemu.load_cartridge(&[0u8; 0x100]), Err(NemuError::InvalidRom(_))));
}

#[test]
fn serial_port_publishes_bytes() {
    // LD A,'O'; LDH (01),A; LD A,0x81; LDH (02),A; LD A,'K'; LDH (01),A; LD A,0x81; LDH (02),A
    let program = [0x3E, b'O', 0xE0, 0x01, 0x3E, 0x81, 0xE0, 0x02, 0x3E, b'K', 0xE0, 0x01, 0x3E, 0x81, 0xE0, 0x02];
    let mut nemu = booted(&program);
    for _ in 0..8 {
        nemu.step().unwrap();
    }
    assert_eq!(nemu.serial_output(), b"OK");
    assert_eq!(nemu.read_debug(0xFF02), 0);
}

#[test]
fn push_then_pop_restores_pair() {
    // LD BC,0x1234; PUSH BC; LD BC,0; POP BC
    let program = [0x01, 0x34, 0x12, 0xC5, 0x01, 0x00, 0x00, 0xC1];
    let mut nemu = booted(&program);
    for _ in 0..4 {
        nemu.step().unwrap();
    }
    assert_eq!(nemu.cpu.regs.bc(), 0x1234);
    assert_eq!(nemu.cpu.regs.sp, 0xFFFE);
}

#[test]
fn pop_af_masks_low_nibble() {
    // LD BC,0x12FF; PUSH BC; POP AF
    let program = [0x01, 0xFF, 0x12, 0xC5, 0xF1];
    let mut nemu = booted(&program);
    for _ in 0..3 {
        nemu.step().unwrap();
    }
    assert_eq!(nemu.cpu.regs.a, 0x12);
    assert_eq!(nemu.cpu.regs.f, 0xF0);
}

#[test]
fn store_and_load_back_through_hl() {
    // LD A,0x5A; LD HL,0xC123; LD (HL),A; LD B,(HL)
    let program = [0x3E, 0x5A, 0x21, 0x23, 0xC1, 0x77, 0x46];
    let mut nemu = booted(&program);
    for _ in 0..4 {
        nemu.step().unwrap();
    }
    assert_eq!(nemu.cpu.regs.b, 0x5A);
}

#[test]
fn instruction_cycle_counts() {
    // NOP; LD A,n; LD (HL),n; CALL nn; (at 0x0200) RET
    let mut program = vec![0x00, 0x3E, 0x01, 0x21, 0x00, 0xC0, 0x36, 0x07, 0xCD, 0x00, 0x02];
    program.resize(0x100, 0x00);
    program.push(0xC9);
    let mut nemu = booted(&program);
    assert_eq!(nemu.step().unwrap(), 4);
    assert_eq!(nemu.step().unwrap(), 8);
    assert_eq!(nemu.step().unwrap(), 12);
    assert_eq!(nemu.step().unwrap(), 12);
    assert_eq!(nemu.step().unwrap(), 24);
    assert_eq!(nemu.cpu.regs.pc, 0x0200);
    assert_eq!(nemu.step().unwrap(), 16);
    assert_eq!(nemu.cpu.regs.pc, 0x010B);
}

#[test]
fn interrupt_is_serviced_at_its_vector() {
    let mut nemu = booted(&[0x00, 0x00]);
    nemu.bus.ie = 0x04;
    nemu.bus.io[0x0F] = 0x05;
    nemu.cpu.ime = InterruptMode::Enabled;
    let cycles = nemu.step().unwrap();
    assert_eq!(cycles, 20);
    assert_eq!(nemu.cpu.regs.pc, 0x0050);
    assert_eq!(nemu.cpu.ime, InterruptMode::Disabled);
    // Only the serviced request is cleared; the disabled VBlank request stays.
    assert_eq!(nemu.read_debug(0xFF0F) & 0x05, 0x01);
    assert_eq!(nemu.read_debug(0xFFFC), 0x00);
    assert_eq!(nemu.read_debug(0xFFFD), 0x01);
}

#[test]
fn ei_takes_effect_after_one_instruction() {
    // EI; NOP; NOP
    let mut nemu = booted(&[0xFB, 0x00, 0x00]);
    nemu.bus.ie = 0x01;
    nemu.bus.io[0x0F] = 0x01;
    nemu.step().unwrap();
    assert_eq!(nemu.cpu.ime, InterruptMode::Pending);
    nemu.step().unwrap();
    assert_eq!(nemu.cpu.regs.pc, 0x0102);
    nemu.step().unwrap();
    assert_eq!(nemu.cpu.regs.pc, 0x0040);
}

#[test]
fn halt_waits_for_a_pending_interrupt() {
    let mut nemu = booted(&[0x76, 0x00]);
    nemu.bus.ie = 0x10;
    nemu.step().unwrap();
    assert!(nemu.cpu.halted);
    assert_eq!(nemu.step().unwrap(), 4);
    assert!(nemu.cpu.halted);
    nemu.bus.io[0x0F] |= 0x10;
    nemu.step().unwrap();
    assert!(!nemu.cpu.halted);
}

#[test]
fn reset_twice_equals_reset_once() {
    let mut nemu = booted(&[0x3E, 0x99, 0xEA, 0x00, 0xC0]);
    nemu.step().unwrap();
    nemu.step().unwrap();
    nemu.reset();
    let once: Vec<u8> = (0..=0xFFFFu32).map(|a| nemu.read_debug(a as u16)).collect();
    let regs_once = nemu.cpu.regs;
    nemu.reset();
    let twice: Vec<u8> = (0..=0xFFFFu32).map(|a| nemu.read_debug(a as u16)).collect();
    assert_eq!(once, twice);
    assert_eq!(regs_once.pc, nemu.cpu.regs.pc);
    assert_eq!(nemu.cpu.regs.pc, 0);
    assert_eq!(nemu.read_debug(0xC000), 0);
    assert!(nemu.bus.boot_rom_enabled);
    // The cartridge is kept.
    assert_eq!(nemu.bus.mbc.read(0x0102), 0xEA);
}

#[test]
fn joypad_press_raises_interrupt_on_selected_side() {
    let mut nemu = booted(&[0x00, 0x00, 0x00]);
    // Select the buttons (P15 low).
    nemu.bus.write(0xFF00, 0x10);
    nemu.set_joypad(JoypadButton::RightOrA, true, false);
    nemu.step().unwrap();
    assert_ne!(nemu.read_debug(0xFF0F) & 0x10, 0);
    assert_eq!(nemu.read_debug(0xFF00) & 0x0F, 0x0E);
    // A direction press is not seen while only the buttons are selected.
    nemu.bus.io[0x0F] = 0;
    nemu.set_joypad(JoypadButton::LeftOrB, true, true);
    nemu.step().unwrap();
    assert_eq!(nemu.read_debug(0xFF0F) & 0x10, 0);
}

#[test]
fn has_frame_reports_once_per_frame() {
    let mut nemu = booted(&[0x18, 0xFE]); // JR -2
    assert!(!nemu.has_frame());
    let mut frames = 0;
    for _ in 0..40_000 {
        nemu.step().unwrap();
        if nemu.has_frame() {
            frames += 1;
        }
    }
    // 40 000 steps of 3 m-cycles are about 120 000 m-cycles, a frame being 17 556.
    assert!(frames >= 6 && frames <= 7, "frames = {}", frames);
    assert_eq!(nemu.get_framebuffer().len(), 160 * 144);
}

#[test]
fn bus_ticks_once_per_byte() {
    let mut bus = Bus::new();
    let c0 = bus.clock;
    bus.read(0xC000);
    assert_eq!(bus.clock, c0.wrapping_add(1));
    bus.write(0xC000, 1);
    assert_eq!(bus.clock, c0.wrapping_add(2));
    bus.read_u16(0xC000);
    assert_eq!(bus.clock, c0.wrapping_add(4));
    bus.write_u16(0xC000, 0xBEEF);
    assert_eq!(bus.clock, c0.wrapping_add(6));
    assert_eq!(bus.read_u16(0xC000), 0xBEEF);
    let _ = bus.peek(0xC000);
    assert_eq!(bus.clock, c0.wrapping_add(8));
}

#[test]
fn boot_rom_disable_is_permanent() {
    let mut nemu = Nemu::new();
    let mut rom = rom_with_program(&[]);
    rom[0x0000] = 0xAB;
    nemu.load_cartridge(&rom).unwrap();
    assert_eq!(nemu.read_debug(0x0000), 0x31);
    nemu.bus.write(0xFF50, 0x01);
    assert_eq!(nemu.read_debug(0x0000), 0xAB);
    nemu.bus.write(0xFF50, 0x00);
    assert_eq!(nemu.read_debug(0x0000), 0xAB);
    assert!(!nemu.bus.boot_rom_enabled);
}

#[test]
fn dma_copies_a_page_into_oam() {
    let mut bus = Bus::new();
    for i in 0..0xA0u16 {
        bus.write(0xC100 + i, (i as u8).wrapping_mul(3).wrapping_add(1));
    }
    let before = bus.clock;
    bus.write(0xFF46, 0xC1);
    assert_eq!(bus.clock, before.wrapping_add(1));
    for i in 0..0xA0u16 {
        assert_eq!(bus.read(0xFE00 + i), bus.peek(0xC100 + i));
    }
}

#[test]
fn memory_map_edges() {
    let mut bus = Bus::new();
    bus.write(0xC010, 0x77);
    assert_eq!(bus.peek(0xE010), 0x77);
    bus.write(0xE020, 0x66);
    assert_eq!(bus.peek(0xC020), 0x66);
    bus.write(0xFEA5, 0x12);
    assert_eq!(bus.peek(0xFEA5), 0);
    bus.write(0xFF90, 0x34);
    assert_eq!(bus.peek(0xFF90), 0x34);
    bus.write(0xFFFF, 0x1F);
    assert_eq!(bus.peek(0xFFFF), 0x1F);
    // Writes to ROM of a cartridge without a controller are ignored; no external RAM.
    bus.write(0xFF50, 1);
    bus.write(0x1234, 0x55);
    assert_eq!(bus.peek(0x1234), 0);
    assert_eq!(bus.peek(0xA000), 0xFF);
    // Unused I/O reads 0 and ignores writes.
    bus.write(0xFF03, 0x99);
    assert_eq!(bus.peek(0xFF03), 0);
    bus.write(0xFF7F, 0x99);
    assert_eq!(bus.peek(0xFF7F), 0);
    bus.write(0xFF0F, 0x1F);
    assert_eq!(bus.peek(0xFF0F), 0x1F);
    // LY is read-only.
    bus.write(0xFF44, 0x20);
    assert_eq!(bus.peek(0xFF44), 0);
    // STAT keeps its low three bits.
    bus.write(0xFF41, 0xFF);
    assert_eq!(bus.peek(0xFF41), 0xF8);
}

#[test]
fn lcd_off_resets_ly() {
    let mut bus = Bus::new();
    bus.write(0xFF40, 0x80);
    for _ in 0..2000 {
        bus.tick(1);
    }
    assert!(bus.peek(0xFF44) > 0);
    bus.write(0xFF40, 0x00);
    assert_eq!(bus.read(0xFF44), 0);
    assert_eq!(bus.peek(0xFF41) & 0x03, 0);
}

#[test]
fn register_snapshot_text() {
    let nemu = booted(&[0x00]);
    assert_eq!(nemu.get_regs_snapshot(), "A: 01 F: B0\nB: 00 C: 13\nD: 00 E: D8\nH: 01 L: 4D");
    assert_eq!(Nemu::new().cpu.regs.get_snapshot(), "A: 00 F: 00\nB: 00 C: 00\nD: 00 E: 00\nH: 00 L: 00");
}
