use nemu::alu::{adc_r8, add_hl_r16, add_r8, daa, dec_r8, inc_r8, sbc_r8, sub_r8};
use nemu::bits::{bit_imm3_r8, rlc_r8, rra, sra_r8, swap_r8};
use nemu::bus::Bus;
use nemu::cpu::Cpu;
use nemu::debugger::{Breakpoints, MemoryViewer};
use nemu::mbc::MbcType;
use nemu::ppu::Ppu;
use nemu::registers::{Reg16, Reg8, Registers};
use nemu::timer::Timer;

fn flags(r: &Registers) -> (bool, bool, bool, bool) {
    (r.zero_flag(), r.subtract_flag(), r.half_carry_flag(), r.carry_flag())
}

#[test]
fn timer_overflow_interrupt_is_one_cycle_late() {
    let mut t = Timer::new();
    t.write(0xFF05, 0x04);
    t.write(0xFF06, 0x00);
    t.write(0xFF07, 0xFD);
    assert_eq!(t.read(0xFF07), 0xFD);
    let mut guard = 0;
    loop {
        let irq = t.update(1);
        assert_eq!(irq & 0x04, 0);
        if t.overflow_cycles == 1 {
            break;
        }
        guard += 1;
        assert!(guard < 2000);
    }
    assert_eq!(t.read(0xFF05), 0x00);
    let irq = t.update(1);
    assert_ne!(irq & 0x04, 0);
    assert_eq!(t.read(0xFF05), 0x00);
}

#[test]
fn timer_write_during_delay_cancels_reload() {
    let mut t = Timer::new();
    t.write(0xFF05, 0xFF);
    t.write(0xFF06, 0x80);
    t.write(0xFF07, 0x05);
    let mut guard = 0;
    while t.overflow_cycles == 0 {
        t.update(1);
        guard += 1;
        assert!(guard < 100);
    }
    t.write(0xFF05, 0x33);
    let irq = t.update(1);
    assert_eq!(irq & 0x04, 0);
    assert_eq!(t.read(0xFF05), 0x33);
}

#[test]
fn timer_div_and_clock_select() {
    let mut t = Timer::new();
    for _ in 0..64 {
        t.update(1);
    }
    assert_eq!(t.read(0xFF04), 1);
    t.write(0xFF04, 0x77);
    assert_eq!(t.read(0xFF04), 0);
    assert_eq!(t.div, 0);
    // TAC = 0b100: bit 9 of the counter, one increment per 256 m-cycles.
    t.write(0xFF07, 0x04);
    for _ in 0..256 {
        t.update(1);
    }
    assert_eq!(t.read(0xFF05), 1);
    // Disabled: no increments.
    t.write(0xFF07, 0x00);
    for _ in 0..1024 {
        t.update(1);
    }
    assert_eq!(t.read(0xFF05), 1);
}

#[test]
fn lyc_coincidence_raises_stat_interrupt() {
    let mut ppu = Ppu::new();
    ppu.write(0xFF45, 0x90);
    ppu.write(0xFF41, 0x40);
    ppu.write(0xFF40, 0x80);
    let mut last = 0;
    let mut guard = 0;
    while ppu.read(0xFF44) != 0x90 {
        last = ppu.update(1);
        guard += 1;
        assert!(guard < 20_000);
    }
    assert_ne!(ppu.read(0xFF41) & 0x04, 0);
    assert_ne!(last & 0x02, 0);
    assert_eq!(ppu.read(0xFF41) & 0x03, 1);
}

#[test]
fn ppu_mode_sequence_and_vblank() {
    let mut ppu = Ppu::new();
    assert_eq!(ppu.read(0xFF41) & 0x03, 0);
    ppu.write(0xFF40, 0x80);
    assert_eq!(ppu.read(0xFF41) & 0x03, 2);
    for _ in 0..20 {
        ppu.update(1);
    }
    assert_eq!(ppu.read(0xFF41) & 0x03, 3);
    for _ in 0..43 {
        ppu.update(1);
    }
    assert_eq!(ppu.read(0xFF41) & 0x03, 0);
    for _ in 0..51 {
        ppu.update(1);
    }
    assert_eq!(ppu.read(0xFF44), 1);
    assert_eq!(ppu.read(0xFF41) & 0x03, 2);
    let mut vblank = 0;
    let mut cycles = 114;
    while ppu.read(0xFF44) != 144 {
        vblank |= ppu.update(1);
        cycles += 1;
    }
    assert_ne!(vblank & 0x01, 0);
    assert_eq!(cycles, 144 * 114);
    assert!(ppu.frame_ready);
    assert_eq!(ppu.read(0xFF41) & 0x03, 1);
    // A whole frame is 154 lines.
    while ppu.read(0xFF44) != 0 {
        ppu.update(1);
        cycles += 1;
    }
    assert_eq!(cycles, 154 * 114);
}

fn draw_first_line(ppu: &mut Ppu) {
    for _ in 0..63 {
        ppu.update(1);
    }
}

#[test]
fn rasterizer_fills_exactly_one_row() {
    let mut ppu = Ppu::new();
    for i in 0..ppu.framebuffer.len() {
        ppu.framebuffer[i] = 2;
    }
    // Tile 0, row 0: colour index 1 everywhere; the map is all tile 0.
    ppu.write(0x8000, 0xFF);
    ppu.write(0x8001, 0x00);
    ppu.write(0xFF47, 0xE4);
    ppu.write(0xFF40, 0x91);
    draw_first_line(&mut ppu);
    assert!(ppu.framebuffer[0..160].iter().all(|&p| p == 1));
    assert!(ppu.framebuffer[160..].iter().all(|&p| p == 2));
}

#[test]
fn rasterizer_sprites_and_priority() {
    let mut ppu = Ppu::new();
    // Tile 1, row 0: colour index 3; tile 2, row 0: colour index 2.
    ppu.write(0x8010, 0xFF);
    ppu.write(0x8011, 0xFF);
    ppu.write(0x8020, 0x00);
    ppu.write(0x8021, 0xFF);
    ppu.write(0xFF47, 0xE4);
    ppu.write(0xFF48, 0xE4);
    ppu.write(0xFF49, 0x1B);
    // Sprite 0 at column 4 with tile 1; sprite 1 at column 0 with tile 2 (lower X wins);
    // sprite 2 at column 20 with palette OBP1.
    for (i, entry) in [[16u8, 12, 1, 0], [16, 8, 2, 0], [16, 28, 1, 0x10]].iter().enumerate() {
        for k in 0..4 {
            ppu.write(0xFE00 + (4 * i + k) as u16, entry[k]);
        }
    }
    ppu.write(0xFF40, 0x93);
    draw_first_line(&mut ppu);
    let row = &ppu.framebuffer[0..160];
    assert_eq!(&row[0..8], &[2, 2, 2, 2, 2, 2, 2, 2]);
    assert_eq!(&row[8..12], &[3, 3, 3, 3]);
    assert_eq!(row[12], 0);
    assert_eq!(&row[20..28], &[0, 0, 0, 0, 0, 0, 0, 0]);
    assert_eq!(row[28], 0);
}

#[test]
fn rasterizer_window_overrides_background() {
    let mut ppu = Ppu::new();
    // Tile 1 row 0 is colour 3; the window map (0x9C00) uses tile 1.
    ppu.write(0x8010, 0xFF);
    ppu.write(0x8011, 0xFF);
    for i in 0..32u16 {
        ppu.write(0x9C00 + i, 1);
    }
    ppu.write(0xFF47, 0xE4);
    ppu.write(0xFF4A, 0);
    ppu.write(0xFF4B, 87);
    ppu.write(0xFF40, 0xF1);
    draw_first_line(&mut ppu);
    assert!(ppu.framebuffer[0..80].iter().all(|&p| p == 0));
    assert!(ppu.framebuffer[80..160].iter().all(|&p| p == 3));
    assert_eq!(ppu.wline_counter, 1);
}

fn banked_rom(banks: usize, kind: u8) -> Vec<u8> {
    let mut rom = vec![0u8; banks * 0x4000];
    for b in 0..banks {
        rom[b * 0x4000] = b as u8;
        rom[b * 0x4000 + 1] = 0xB0 | b as u8;
    }
    rom[0x147] = kind;
    rom
}

#[test]
fn mbc1_rom_banking() {
    let mut mbc = MbcType::new(banked_rom(4, 0x01)).unwrap();
    assert_eq!(mbc.read(0x4000), 1);
    mbc.write(0x2000, 2);
    assert_eq!(mbc.read(0x4000), 2);
    mbc.write(0x2000, 0);
    assert_eq!(mbc.read(0x4000), 1);
    mbc.write(0x2000, 7);
    assert_eq!(mbc.read(0x4001), 0xB3);
    assert_eq!(mbc.read(0x0001), 0xB0);
}

#[test]
fn mbc1_rom_mask_rounds_bank_count_up() {
    match MbcType::new(banked_rom(3, 0x02)).unwrap() {
        MbcType::Mbc1(m) => assert_eq!(m.rom_mask, 3),
        _ => panic!("expected MBC1"),
    }
    match MbcType::new(banked_rom(8, 0x01)).unwrap() {
        MbcType::Mbc1(m) => assert_eq!(m.rom_mask, 7),
        _ => panic!("expected MBC1"),
    }
}

#[test]
fn mbc1_external_ram() {
    let mut mbc = MbcType::new(banked_rom(4, 0x01)).unwrap();
    assert_eq!(mbc.read(0xA000), 0xFF);
    mbc.write(0xA000, 0x42);
    mbc.write(0x0000, 0x0A);
    assert_eq!(mbc.read(0xA000), 0x00);
    mbc.write(0xA000, 0x42);
    assert_eq!(mbc.read(0xA000), 0x42);
    mbc.write(0x4000, 1);
    mbc.write(0x6000, 1);
    assert_eq!(mbc.read(0xA000), 0x00);
    mbc.write(0x6000, 0);
    assert_eq!(mbc.read(0xA000), 0x42);
    mbc.write(0x0000, 0x00);
    assert_eq!(mbc.read(0xA000), 0xFF);
}

#[test]
fn mbc1_advanced_mode_low_bank() {
    let mut mbc = MbcType::new(banked_rom(64, 0x01)).unwrap();
    assert_eq!(mbc.read(0x0000), 0);
    mbc.write(0x4000, 1);
    assert_eq!(mbc.read(0x0000), 0);
    assert_eq!(mbc.read(0x4000), 33);
    mbc.write(0x6000, 1);
    assert_eq!(mbc.read(0x0000), 32);
}

fn cpu_with(a: u8, other: u8) -> Cpu {
    let mut cpu = Cpu::new();
    cpu.regs.set_a(a);
    cpu.regs.set_b(other);
    cpu
}

#[test]
fn add_sets_zero_half_and_carry() {
    let mut cpu = cpu_with(0x3A, 0xC6);
    add_r8(&mut cpu, Reg8::B);
    assert_eq!(cpu.regs.a, 0x00);
    assert_eq!(flags(&cpu.regs), (true, false, true, true));
}

#[test]
fn adc_and_sbc_use_the_carry() {
    let mut cpu = cpu_with(0xE1, 0x0F);
    cpu.regs.set_carry_flag(true);
    adc_r8(&mut cpu, Reg8::B);
    assert_eq!(cpu.regs.a, 0xF1);
    assert_eq!(flags(&cpu.regs), (false, false, true, false));

    let mut cpu = cpu_with(0x3B, 0x2A);
    cpu.regs.set_carry_flag(true);
    sbc_r8(&mut cpu, Reg8::B);
    assert_eq!(cpu.regs.a, 0x10);
    assert_eq!(flags(&cpu.regs), (false, true, false, false));

    let mut cpu = cpu_with(0x00, 0x01);
    sub_r8(&mut cpu, Reg8::B);
    assert_eq!(cpu.regs.a, 0xFF);
    assert_eq!(flags(&cpu.regs), (false, true, true, true));
}

#[test]
fn daa_after_addition_and_subtraction() {
    let mut cpu = cpu_with(0x45, 0x38);
    add_r8(&mut cpu, Reg8::B);
    assert_eq!(cpu.regs.a, 0x7D);
    daa(&mut cpu);
    assert_eq!(cpu.regs.a, 0x83);
    assert!(!cpu.regs.carry_flag());

    cpu.regs.set_b(0x38);
    sub_r8(&mut cpu, Reg8::B);
    assert_eq!(cpu.regs.a, 0x4B);
    daa(&mut cpu);
    assert_eq!(cpu.regs.a, 0x45);

    let mut cpu = cpu_with(0x99, 0x01);
    add_r8(&mut cpu, Reg8::B);
    daa(&mut cpu);
    assert_eq!(cpu.regs.a, 0x00);
    assert_eq!(flags(&cpu.regs), (true, false, false, true));
}

#[test]
fn inc_dec_half_carry_keep_carry() {
    let mut cpu = cpu_with(0x0F, 0);
    cpu.regs.set_carry_flag(true);
    inc_r8(&mut cpu, Reg8::A);
    assert_eq!(cpu.regs.a, 0x10);
    assert_eq!(flags(&cpu.regs), (false, false, true, true));
    dec_r8(&mut cpu, Reg8::A);
    assert_eq!(cpu.regs.a, 0x0F);
    assert_eq!(flags(&cpu.regs), (false, true, true, true));
    dec_r8(&mut cpu, Reg8::B);
    assert_eq!(cpu.regs.b, 0xFF);
}

#[test]
fn add_hl_uses_bit_11_and_15() {
    let mut cpu = Cpu::new();
    let mut bus = Bus::new();
    cpu.regs.set_hl(0x8A23);
    cpu.regs.set_bc(0x0605);
    cpu.regs.set_zero_flag(true);
    add_hl_r16(&mut cpu, &mut bus, Reg16::BC);
    assert_eq!(cpu.regs.hl(), 0x9028);
    assert_eq!(flags(&cpu.regs), (true, false, true, false));
    cpu.regs.set_bc(0x7000);
    add_hl_r16(&mut cpu, &mut bus, Reg16::BC);
    assert_eq!(cpu.regs.hl(), 0x0028);
    assert!(cpu.regs.carry_flag());
}

#[test]
fn cb_rotates_shifts_and_bits() {
    let mut cpu = cpu_with(0x01, 0x85);
    rlc_r8(&mut cpu, Reg8::B);
    assert_eq!(cpu.regs.b, 0x0B);
    assert!(cpu.regs.carry_flag());
    cpu.regs.set_c(0xF0);
    swap_r8(&mut cpu, Reg8::C);
    assert_eq!(cpu.regs.c, 0x0F);
    assert_eq!(flags(&cpu.regs), (false, false, false, false));
    cpu.regs.set_d(0x8A);
    sra_r8(&mut cpu, Reg8::D);
    assert_eq!(cpu.regs.d, 0xC5);
    assert!(!cpu.regs.carry_flag());
    cpu.regs.set_h(0x80);
    bit_imm3_r8(&mut cpu, 7, Reg8::H);
    assert!(!cpu.regs.zero_flag());
    bit_imm3_r8(&mut cpu, 6, Reg8::H);
    assert!(cpu.regs.zero_flag());
    assert!(cpu.regs.half_carry_flag());
    // RRA: old bit 0 to carry, carry into bit 7, Z cleared.
    cpu.regs.set_a(0x01);
    cpu.regs.set_carry_flag(false);
    rra(&mut cpu);
    assert_eq!(cpu.regs.a, 0x00);
    assert_eq!(flags(&cpu.regs), (false, false, false, true));
}

#[test]
fn register_pairs_and_f_mask() {
    let mut r = Registers::new();
    r.set_af(0x12FF);
    assert_eq!((r.a, r.f), (0x12, 0xF0));
    r.set_f(0x0F);
    assert_eq!(r.f, 0x00);
    r.write_reg16(Reg16::DE, 0xBEEF);
    assert_eq!((r.d, r.e), (0xBE, 0xEF));
    assert_eq!(r.read_reg16(Reg16::DE), 0xBEEF);
    r.write_reg8(Reg8::L, 0x34);
    r.write_reg8(Reg8::H, 0x12);
    assert_eq!(r.hl(), 0x1234);
    r.set_sp(0x0001);
    r.dec_sp(2);
    assert_eq!(r.sp(), 0xFFFF);
    r.set_pc(0xFFFF);
    r.inc_pc(1);
    assert_eq!(r.pc(), 0);
    r.dec_pc(1);
    assert_eq!(r.pc(), 0xFFFF);
}

#[test]
fn breakpoints_add_remove() {
    let mut bp = Breakpoints::new();
    assert!(!bp.is_breakpoint(0x0150));
    bp.add_breakpoint(0x0150);
    bp.add_breakpoint(0x0150);
    bp.add_breakpoint(0xC000);
    assert!(bp.is_breakpoint(0x0150));
    assert!(bp.is_breakpoint(0xC000));
    bp.remove_breakpoint(0x0150);
    assert!(!bp.is_breakpoint(0x0150));
    assert!(bp.is_breakpoint(0xC000));
}

#[test]
fn memory_viewer_reads_a_wrapping_window() {
    let mut bus = Bus::new();
    bus.write(0xFFFF, 0x1F);
    bus.write(0xFF80, 0x55);
    let mut mv = MemoryViewer::new();
    assert_eq!(mv.memory_viewer_data, vec![0u8; 256]);
    mv.jump_to(0xFF80, &bus);
    assert_eq!(mv.memory_viewer_data.len(), 256);
    assert_eq!(mv.memory_viewer_data[0], 0x55);
    assert_eq!(mv.memory_viewer_data[0x7F], 0x1F);
    // Wraps to the start-up program at 0x0000.
    assert_eq!(mv.memory_viewer_data[0x80], 0x31);
}
