use vstd::prelude::*;
use crate::alu::{
    adc_imm8, adc_imm8_spec, adc_mem_hl, adc_mem_hl_spec, adc_r8, adc_r8_spec, add_hl_r16,
    add_hl_r16_spec, add_hl_sp, add_hl_sp_spec, add_imm8, add_imm8_spec, add_mem_hl,
    add_mem_hl_spec, add_r8, add_r8_spec, add_sp_imm8, add_sp_imm8_spec, and_imm8,
    and_imm8_spec, and_mem_hl, and_mem_hl_spec, and_r8, and_r8_spec, ccf, ccf_spec, cp_imm8,
    cp_imm8_spec, cp_mem_hl, cp_mem_hl_spec, cp_r8, cp_r8_spec, cpl, cpl_spec, daa,
    daa_cpu_spec, dec_mem_hl, dec_mem_hl_spec, dec_r16, dec_r8, dec_r8_spec, dec_sp, inc_mem_hl,
    inc_mem_hl_spec, inc_r16, inc_r8, inc_r8_spec, inc_sp, or_imm8, or_imm8_spec, or_mem_hl,
    or_mem_hl_spec, or_r8, or_r8_spec, sbc_imm8, sbc_imm8_spec, sbc_mem_hl, sbc_mem_hl_spec,
    sbc_r8, sbc_r8_spec, scf, scf_spec, step_r16_spec, step_sp_spec, sub_imm8, sub_imm8_spec,
    sub_mem_hl, sub_mem_hl_spec, sub_r8, sub_r8_spec, xor_imm8, xor_imm8_spec, xor_mem_hl,
    xor_mem_hl_spec, xor_r8, xor_r8_spec,
};
use crate::bits::{
    ShiftOp, bit_imm3_mem_hl, bit_imm3_mem_hl_spec, bit_imm3_r8, bit_imm3_r8_spec,
    change_bit_mem_hl_spec, change_bit_r8_spec, res_imm3_mem_hl, res_imm3_r8, rl_mem_hl, rl_r8,
    rla, rlc_mem_hl, rlc_r8, rlca, rotate_a_spec, rr_mem_hl, rr_r8, rra, rrc_mem_hl, rrc_r8,
    rrca, set_imm3_mem_hl, set_imm3_r8, shift_mem_hl_spec, shift_r8_spec, sla_mem_hl,
    sla_r8, sra_mem_hl, sra_r8, srl_mem_hl, srl_r8, swap_mem_hl, swap_r8,
};
use crate::control::{
    JumpCond, call_cond_imm16, call_imm16, call_spec, call_to_spec, cond_spec, jp_cond_imm16,
    jp_hl, jp_imm16, jp_spec, jr_cond_imm8, jr_imm8, jr_spec, jump_to, ret, ret_cond,
    ret_cond_spec, ret_spec, reti, reti_spec, rst,
};
use crate::load::{
    ld_a_mem_hl_spec, ld_a_mem_hld, ld_a_mem_hli, ld_a_mem_imm16, ld_a_mem_imm16_spec,
    ld_hl_sp_imm8, ld_hl_sp_imm8_spec, ld_mem_hl_a_spec, ld_mem_hld_a, ld_mem_hli_a,
    ld_mem_imm16_a, ld_mem_imm16_a_spec, ld_mem_imm16_sp, ld_mem_imm16_sp_spec, ld_mem_r16_imm8,
    ld_mem_r16_imm8_spec, ld_mem_r16_r8, ld_mem_r16_r8_spec, ld_r16_imm16, ld_r16_imm16_spec,
    ld_r8_imm8, ld_r8_imm8_spec, ld_r8_mem_r16, ld_r8_mem_r16_spec, ld_r8_r8, ld_r8_r8_spec,
    ld_sp_hl, ld_sp_hl_spec, ld_sp_imm16, ld_sp_imm16_spec, ldh_a_mem_c, ldh_a_mem_c_spec,
    ldh_a_mem_imm8, ldh_a_mem_imm8_spec, ldh_mem_c_a, ldh_mem_c_a_spec, ldh_mem_imm8_a,
    ldh_mem_imm8_a_spec,
};
use crate::misc::{di, ei, halt, stop};
use crate::stack::{pop_r16, pop_r16_spec, push_r16, push_r16_spec};
use crate::bus::{Bus, BusModel, acknowledge_spec, bus_read_spec, bus_write_u16_spec, tick_spec};
use crate::registers::{Reg16, Reg8, Registers, wrap16};

verus! {

/// Interrupt master enable; `Pending` is EI's one-instruction delay.
#[derive(Clone, Copy, Debug, PartialEq, Eq, Structural)]
pub enum InterruptMode {
    Enabled,
    Disabled,
    Pending,
}

/// The LR35902 core: registers, interrupt master enable and the halted flag.
#[derive(Clone, Copy, Debug)]
pub struct Cpu {
    pub regs: Registers,
    pub ime: InterruptMode,
    pub halted: bool,
}

/// The CPU with its registers replaced.
pub open spec fn with_regs(c: Cpu, r: Registers) -> Cpu {
    Cpu { regs: r, ..c }
}

/// The CPU with PC advanced by `n`.
pub open spec fn pc_plus(c: Cpu, n: int) -> Cpu {
    with_regs(c, Registers { pc: wrap16(c.regs.pc + n), ..c.regs })
}

impl Cpu {
    pub open spec fn wf(self) -> bool {
        self.regs.wf()
    }

    pub open spec fn initial() -> Cpu {
        Cpu { regs: Registers::zeroed(), ime: InterruptMode::Disabled, halted: false }
    }

    pub fn new() -> (r: Self)
        ensures
            r == Cpu::initial(),
            r.wf(),
    {
        Cpu { regs: Registers::new(), ime: InterruptMode::Disabled, halted: false }
    }

    pub fn reset(&mut self)
        ensures
            *final(self) == Cpu::initial(),
            final(self).wf(),
    {
        self.regs = Registers::new();
        self.ime = InterruptMode::Disabled;
        self.halted = false;
    }

    pub fn set_pc(&mut self, value: u16)
        ensures
            *final(self) == with_regs(*old(self), Registers { pc: value, ..old(self).regs }),
    {
        self.regs.set_pc(value);
    }

    pub fn inc_pc(&mut self, value: u16)
        ensures
            *final(self) == pc_plus(*old(self), value as int),
    {
        self.regs.inc_pc(value);
    }

    pub fn set_sp(&mut self, value: u16)
        ensures
            *final(self) == with_regs(*old(self), Registers { sp: value, ..old(self).regs }),
    {
        self.regs.set_sp(value);
    }

    pub fn inc_sp(&mut self, value: u16)
        ensures
            *final(self) == with_regs(
                *old(self),
                Registers { sp: wrap16(old(self).regs.sp + value), ..old(self).regs },
            ),
    {
        self.regs.inc_sp(value);
    }
}


/// The opcodes that the instruction set leaves unused.
pub open spec fn is_illegal(opcode: u8) -> bool {
    opcode == 0xD3 || opcode == 0xDB || opcode == 0xDD || opcode == 0xE3 || opcode == 0xE4
        || opcode == 0xEB || opcode == 0xEC || opcode == 0xED || opcode == 0xF4 || opcode == 0xFC
        || opcode == 0xFD
}

/// One opcode of the base table, executed after its fetch (PC already past it).
pub open spec fn execute_spec(c: Cpu, b: BusModel, opcode: u8) -> (Cpu, BusModel) {
    match opcode {
        0x00 => (c, b),
        0x01 => ld_r16_imm16_spec(c, b, Reg16::BC),
        0x02 => ld_mem_r16_r8_spec(c, b, Reg16::BC, Reg8::A),
        0x03 => step_r16_spec(c, b, Reg16::BC, 1),
        0x04 => (inc_r8_spec(c, Reg8::B), b),
        0x05 => (dec_r8_spec(c, Reg8::B), b),
        0x06 => ld_r8_imm8_spec(c, b, Reg8::B),
        0x07 => (rotate_a_spec(c, ShiftOp::Rlc), b),
        0x08 => ld_mem_imm16_sp_spec(c, b),
        0x09 => add_hl_r16_spec(c, b, Reg16::BC),
        0x0A => ld_r8_mem_r16_spec(c, b, Reg8::A, Reg16::BC),
        0x0B => step_r16_spec(c, b, Reg16::BC, -1),
        0x0C => (inc_r8_spec(c, Reg8::C), b),
        0x0D => (dec_r8_spec(c, Reg8::C), b),
        0x0E => ld_r8_imm8_spec(c, b, Reg8::C),
        0x0F => (rotate_a_spec(c, ShiftOp::Rrc), b),
        0x10 => (pc_plus(c, 1), b),
        0x11 => ld_r16_imm16_spec(c, b, Reg16::DE),
        0x12 => ld_mem_r16_r8_spec(c, b, Reg16::DE, Reg8::A),
        0x13 => step_r16_spec(c, b, Reg16::DE, 1),
        0x14 => (inc_r8_spec(c, Reg8::D), b),
        0x15 => (dec_r8_spec(c, Reg8::D), b),
        0x16 => ld_r8_imm8_spec(c, b, Reg8::D),
        0x17 => (rotate_a_spec(c, ShiftOp::Rl), b),
        0x18 => jr_spec(c, b, true),
        0x19 => add_hl_r16_spec(c, b, Reg16::DE),
        0x1A => ld_r8_mem_r16_spec(c, b, Reg8::A, Reg16::DE),
        0x1B => step_r16_spec(c, b, Reg16::DE, -1),
        0x1C => (inc_r8_spec(c, Reg8::E), b),
        0x1D => (dec_r8_spec(c, Reg8::E), b),
        0x1E => ld_r8_imm8_spec(c, b, Reg8::E),
        0x1F => (rotate_a_spec(c, ShiftOp::Rr), b),
        0x20 => jr_spec(c, b, cond_spec(JumpCond::NZ, c.regs)),
        0x21 => ld_r16_imm16_spec(c, b, Reg16::HL),
        0x22 => ld_mem_hl_a_spec(c, b, 1),
        0x23 => step_r16_spec(c, b, Reg16::HL, 1),
        0x24 => (inc_r8_spec(c, Reg8::H), b),
        0x25 => (dec_r8_spec(c, Reg8::H), b),
        0x26 => ld_r8_imm8_spec(c, b, Reg8::H),
        0x27 => (daa_cpu_spec(c), b),
        0x28 => jr_spec(c, b, cond_spec(JumpCond::Z, c.regs)),
        0x29 => add_hl_r16_spec(c, b, Reg16::HL),
        0x2A => ld_a_mem_hl_spec(c, b, 1),
        0x2B => step_r16_spec(c, b, Reg16::HL, -1),
        0x2C => (inc_r8_spec(c, Reg8::L), b),
        0x2D => (dec_r8_spec(c, Reg8::L), b),
        0x2E => ld_r8_imm8_spec(c, b, Reg8::L),
        0x2F => (cpl_spec(c), b),
        0x30 => jr_spec(c, b, cond_spec(JumpCond::NC, c.regs)),
        0x31 => ld_sp_imm16_spec(c, b),
        0x32 => ld_mem_hl_a_spec(c, b, -1),
        0x33 => step_sp_spec(c, b, 1),
        0x34 => inc_mem_hl_spec(c, b),
        0x35 => dec_mem_hl_spec(c, b),
        0x36 => ld_mem_r16_imm8_spec(c, b, Reg16::HL),
        0x37 => (scf_spec(c), b),
        0x38 => jr_spec(c, b, cond_spec(JumpCond::C, c.regs)),
        0x39 => add_hl_sp_spec(c, b),
        0x3A => ld_a_mem_hl_spec(c, b, -1),
        0x3B => step_sp_spec(c, b, -1),
        0x3C => (inc_r8_spec(c, Reg8::A), b),
        0x3D => (dec_r8_spec(c, Reg8::A), b),
        0x3E => ld_r8_imm8_spec(c, b, Reg8::A),
        0x3F => (ccf_spec(c), b),
        0x40 => (c, b),
        0x41 => (ld_r8_r8_spec(c, Reg8::B, Reg8::C), b),
        0x42 => (ld_r8_r8_spec(c, Reg8::B, Reg8::D), b),
        0x43 => (ld_r8_r8_spec(c, Reg8::B, Reg8::E), b),
        0x44 => (ld_r8_r8_spec(c, Reg8::B, Reg8::H), b),
        0x45 => (ld_r8_r8_spec(c, Reg8::B, Reg8::L), b),
        0x46 => ld_r8_mem_r16_spec(c, b, Reg8::B, Reg16::HL),
        0x47 => (ld_r8_r8_spec(c, Reg8::B, Reg8::A), b),
        0x48 => (ld_r8_r8_spec(c, Reg8::C, Reg8::B), b),
        0x49 => (c, b),
        0x4A => (ld_r8_r8_spec(c, Reg8::C, Reg8::D), b),
        0x4B => (ld_r8_r8_spec(c, Reg8::C, Reg8::E), b),
        0x4C => (ld_r8_r8_spec(c, Reg8::C, Reg8::H), b),
        0x4D => (ld_r8_r8_spec(c, Reg8::C, Reg8::L), b),
        0x4E => ld_r8_mem_r16_spec(c, b, Reg8::C, Reg16::HL),
        0x4F => (ld_r8_r8_spec(c, Reg8::C, Reg8::A), b),
        0x50 => (ld_r8_r8_spec(c, Reg8::D, Reg8::B), b),
        0x51 => (ld_r8_r8_spec(c, Reg8::D, Reg8::C), b),
        0x52 => (c, b),
        0x53 => (ld_r8_r8_spec(c, Reg8::D, Reg8::E), b),
        0x54 => (ld_r8_r8_spec(c, Reg8::D, Reg8::H), b),
        0x55 => (ld_r8_r8_spec(c, Reg8::D, Reg8::L), b),
        0x56 => ld_r8_mem_r16_spec(c, b, Reg8::D, Reg16::HL),
        0x57 => (ld_r8_r8_spec(c, Reg8::D, Reg8::A), b),
        0x58 => (ld_r8_r8_spec(c, Reg8::E, Reg8::B), b),
        0x59 => (ld_r8_r8_spec(c, Reg8::E, Reg8::C), b),
        0x5A => (ld_r8_r8_spec(c, Reg8::E, Reg8::D), b),
        0x5B => (c, b),
        0x5C => (ld_r8_r8_spec(c, Reg8::E, Reg8::H), b),
        0x5D => (ld_r8_r8_spec(c, Reg8::E, Reg8::L), b),
        0x5E => ld_r8_mem_r16_spec(c, b, Reg8::E, Reg16::HL),
        0x5F => (ld_r8_r8_spec(c, Reg8::E, Reg8::A), b),
        0x60 => (ld_r8_r8_spec(c, Reg8::H, Reg8::B), b),
        0x61 => (ld_r8_r8_spec(c, Reg8::H, Reg8::C), b),
        0x62 => (ld_r8_r8_spec(c, Reg8::H, Reg8::D), b),
        0x63 => (ld_r8_r8_spec(c, Reg8::H, Reg8::E), b),
        0x64 => (c, b),
        0x65 => (ld_r8_r8_spec(c, Reg8::H, Reg8::L), b),
        0x66 => ld_r8_mem_r16_spec(c, b, Reg8::H, Reg16::HL),
        0x67 => (ld_r8_r8_spec(c, Reg8::H, Reg8::A), b),
        0x68 => (ld_r8_r8_spec(c, Reg8::L, Reg8::B), b),
        0x69 => (ld_r8_r8_spec(c, Reg8::L, Reg8::C), b),
        0x6A => (ld_r8_r8_spec(c, Reg8::L, Reg8::D), b),
        0x6B => (ld_r8_r8_spec(c, Reg8::L, Reg8::E), b),
        0x6C => (ld_r8_r8_spec(c, Reg8::L, Reg8::H), b),
        0x6D => (c, b),
        0x6E => ld_r8_mem_r16_spec(c, b, Reg8::L, Reg16::HL),
        0x6F => (ld_r8_r8_spec(c, Reg8::L, Reg8::A), b),
        0x70 => ld_mem_r16_r8_spec(c, b, Reg16::HL, Reg8::B),
        0x71 => ld_mem_r16_r8_spec(c, b, Reg16::HL, Reg8::C),
        0x72 => ld_mem_r16_r8_spec(c, b, Reg16::HL, Reg8::D),
        0x73 => ld_mem_r16_r8_spec(c, b, Reg16::HL, Reg8::E),
        0x74 => ld_mem_r16_r8_spec(c, b, Reg16::HL, Reg8::H),
        0x75 => ld_mem_r16_r8_spec(c, b, Reg16::HL, Reg8::L),
        0x76 => (Cpu { halted: true, ..c }, b),
        0x77 => ld_mem_r16_r8_spec(c, b, Reg16::HL, Reg8::A),
        0x78 => (ld_r8_r8_spec(c, Reg8::A, Reg8::B), b),
        0x79 => (ld_r8_r8_spec(c, Reg8::A, Reg8::C), b),
        0x7A => (ld_r8_r8_spec(c, Reg8::A, Reg8::D), b),
        0x7B => (ld_r8_r8_spec(c, Reg8::A, Reg8::E), b),
        0x7C => (ld_r8_r8_spec(c, Reg8::A, Reg8::H), b),
        0x7D => (ld_r8_r8_spec(c, Reg8::A, Reg8::L), b),
        0x7E => ld_r8_mem_r16_spec(c, b, Reg8::A, Reg16::HL),
        0x7F => (c, b),
        0x80 => (add_r8_spec(c, Reg8::B), b),
        0x81 => (add_r8_spec(c, Reg8::C), b),
        0x82 => (add_r8_spec(c, Reg8::D), b),
        0x83 => (add_r8_spec(c, Reg8::E), b),
        0x84 => (add_r8_spec(c, Reg8::H), b),
        0x85 => (add_r8_spec(c, Reg8::L), b),
        0x86 => add_mem_hl_spec(c, b),
        0x87 => (add_r8_spec(c, Reg8::A), b),
        0x88 => (adc_r8_spec(c, Reg8::B), b),
        0x89 => (adc_r8_spec(c, Reg8::C), b),
        0x8A => (adc_r8_spec(c, Reg8::D), b),
        0x8B => (adc_r8_spec(c, Reg8::E), b),
        0x8C => (adc_r8_spec(c, Reg8::H), b),
        0x8D => (adc_r8_spec(c, Reg8::L), b),
        0x8E => adc_mem_hl_spec(c, b),
        0x8F => (adc_r8_spec(c, Reg8::A), b),
        0x90 => (sub_r8_spec(c, Reg8::B), b),
        0x91 => (sub_r8_spec(c, Reg8::C), b),
        0x92 => (sub_r8_spec(c, Reg8::D), b),
        0x93 => (sub_r8_spec(c, Reg8::E), b),
        0x94 => (sub_r8_spec(c, Reg8::H), b),
        0x95 => (sub_r8_spec(c, Reg8::L), b),
        0x96 => sub_mem_hl_spec(c, b),
        0x97 => (sub_r8_spec(c, Reg8::A), b),
        0x98 => (sbc_r8_spec(c, Reg8::B), b),
        0x99 => (sbc_r8_spec(c, Reg8::C), b),
        0x9A => (sbc_r8_spec(c, Reg8::D), b),
        0x9B => (sbc_r8_spec(c, Reg8::E), b),
        0x9C => (sbc_r8_spec(c, Reg8::H), b),
        0x9D => (sbc_r8_spec(c, Reg8::L), b),
        0x9E => sbc_mem_hl_spec(c, b),
        0x9F => (sbc_r8_spec(c, Reg8::A), b),
        0xA0 => (and_r8_spec(c, Reg8::B), b),
        0xA1 => (and_r8_spec(c, Reg8::C), b),
        0xA2 => (and_r8_spec(c, Reg8::D), b),
        0xA3 => (and_r8_spec(c, Reg8::E), b),
        0xA4 => (and_r8_spec(c, Reg8::H), b),
        0xA5 => (and_r8_spec(c, Reg8::L), b),
        0xA6 => and_mem_hl_spec(c, b),
        0xA7 => (and_r8_spec(c, Reg8::A), b),
        0xA8 => (xor_r8_spec(c, Reg8::B), b),
        0xA9 => (xor_r8_spec(c, Reg8::C), b),
        0xAA => (xor_r8_spec(c, Reg8::D), b),
        0xAB => (xor_r8_spec(c, Reg8::E), b),
        0xAC => (xor_r8_spec(c, Reg8::H), b),
        0xAD => (xor_r8_spec(c, Reg8::L), b),
        0xAE => xor_mem_hl_spec(c, b),
        0xAF => (xor_r8_spec(c, Reg8::A), b),
        0xB0 => (or_r8_spec(c, Reg8::B), b),
        0xB1 => (or_r8_spec(c, Reg8::C), b),
        0xB2 => (or_r8_spec(c, Reg8::D), b),
        0xB3 => (or_r8_spec(c, Reg8::E), b),
        0xB4 => (or_r8_spec(c, Reg8::H), b),
        0xB5 => (or_r8_spec(c, Reg8::L), b),
        0xB6 => or_mem_hl_spec(c, b),
        0xB7 => (or_r8_spec(c, Reg8::A), b),
        0xB8 => (cp_r8_spec(c, Reg8::B), b),
        0xB9 => (cp_r8_spec(c, Reg8::C), b),
        0xBA => (cp_r8_spec(c, Reg8::D), b),
        0xBB => (cp_r8_spec(c, Reg8::E), b),
        0xBC => (cp_r8_spec(c, Reg8::H), b),
        0xBD => (cp_r8_spec(c, Reg8::L), b),
        0xBE => cp_mem_hl_spec(c, b),
        0xBF => (cp_r8_spec(c, Reg8::A), b),
        0xC0 => ret_cond_spec(c, b, JumpCond::NZ),
        0xC1 => pop_r16_spec(c, b, Reg16::BC),
        0xC2 => jp_spec(c, b, cond_spec(JumpCond::NZ, c.regs)),
        0xC3 => jp_spec(c, b, true),
        0xC4 => call_spec(c, b, cond_spec(JumpCond::NZ, c.regs)),
        0xC5 => push_r16_spec(c, b, Reg16::BC),
        0xC6 => add_imm8_spec(c, b),
        0xC7 => call_to_spec(c, b, c.regs.pc, 0x00u16),
        0xC8 => ret_cond_spec(c, b, JumpCond::Z),
        0xC9 => ret_spec(c, b),
        0xCA => jp_spec(c, b, cond_spec(JumpCond::Z, c.regs)),
        0xCC => call_spec(c, b, cond_spec(JumpCond::Z, c.regs)),
        0xCD => call_spec(c, b, true),
        0xCE => adc_imm8_spec(c, b),
        0xCF => call_to_spec(c, b, c.regs.pc, 0x08u16),
        0xD0 => ret_cond_spec(c, b, JumpCond::NC),
        0xD1 => pop_r16_spec(c, b, Reg16::DE),
        0xD2 => jp_spec(c, b, cond_spec(JumpCond::NC, c.regs)),
        0xD4 => call_spec(c, b, cond_spec(JumpCond::NC, c.regs)),
        0xD5 => push_r16_spec(c, b, Reg16::DE),
        0xD6 => sub_imm8_spec(c, b),
        0xD7 => call_to_spec(c, b, c.regs.pc, 0x10u16),
        0xD8 => ret_cond_spec(c, b, JumpCond::C),
        0xD9 => reti_spec(c, b),
        0xDA => jp_spec(c, b, cond_spec(JumpCond::C, c.regs)),
        0xDC => call_spec(c, b, cond_spec(JumpCond::C, c.regs)),
        0xDE => sbc_imm8_spec(c, b),
        0xDF => call_to_spec(c, b, c.regs.pc, 0x18u16),
        0xE0 => ldh_mem_imm8_a_spec(c, b),
        0xE1 => pop_r16_spec(c, b, Reg16::HL),
        0xE2 => ldh_mem_c_a_spec(c, b),
        0xE5 => push_r16_spec(c, b, Reg16::HL),
        0xE6 => and_imm8_spec(c, b),
        0xE7 => call_to_spec(c, b, c.regs.pc, 0x20u16),
        0xE8 => add_sp_imm8_spec(c, b),
        0xE9 => (jump_to(c, c.regs.hl_spec()), b),
        0xEA => ld_mem_imm16_a_spec(c, b),
        0xEE => xor_imm8_spec(c, b),
        0xEF => call_to_spec(c, b, c.regs.pc, 0x28u16),
        0xF0 => ldh_a_mem_imm8_spec(c, b),
        0xF1 => pop_r16_spec(c, b, Reg16::AF),
        0xF2 => ldh_a_mem_c_spec(c, b),
        0xF3 => (Cpu { ime: InterruptMode::Disabled, ..c }, b),
        0xF5 => push_r16_spec(c, b, Reg16::AF),
        0xF6 => or_imm8_spec(c, b),
        0xF7 => call_to_spec(c, b, c.regs.pc, 0x30u16),
        0xF8 => ld_hl_sp_imm8_spec(c, b),
        0xF9 => ld_sp_hl_spec(c, b),
        0xFA => ld_a_mem_imm16_spec(c, b),
        0xFB => (Cpu { ime: InterruptMode::Pending, ..c }, b),
        0xFE => cp_imm8_spec(c, b),
        0xFF => call_to_spec(c, b, c.regs.pc, 0x38u16),
        _ => (c, b),
    }
}

/// The register a CB opcode names in its low three bits; `None` is (HL).
pub open spec fn cb_reg_spec(opcode: u8) -> Option<Reg8> {
    let code = opcode % 8;
    if code == 0 {
        Some(Reg8::B)
    } else if code == 1 {
        Some(Reg8::C)
    } else if code == 2 {
        Some(Reg8::D)
    } else if code == 3 {
        Some(Reg8::E)
    } else if code == 4 {
        Some(Reg8::H)
    } else if code == 5 {
        Some(Reg8::L)
    } else if code == 6 {
        None
    } else {
        Some(Reg8::A)
    }
}

pub fn cb_reg(opcode: u8) -> (r: Option<Reg8>)
    ensures
        r == cb_reg_spec(opcode),
{
    match opcode % 8 {
        0 => Some(Reg8::B),
        1 => Some(Reg8::C),
        2 => Some(Reg8::D),
        3 => Some(Reg8::E),
        4 => Some(Reg8::H),
        5 => Some(Reg8::L),
        6 => None,
        _ => Some(Reg8::A),
    }
}

/// The rotate/shift of CB opcodes 0x00–0x3F, eight opcodes each.
pub open spec fn shift_op_of(opcode: u8) -> ShiftOp {
    let g = opcode / 8;
    if g == 0 {
        ShiftOp::Rlc
    } else if g == 1 {
        ShiftOp::Rrc
    } else if g == 2 {
        ShiftOp::Rl
    } else if g == 3 {
        ShiftOp::Rr
    } else if g == 4 {
        ShiftOp::Sla
    } else if g == 5 {
        ShiftOp::Sra
    } else if g == 6 {
        ShiftOp::Swap
    } else {
        ShiftOp::Srl
    }
}

/// One opcode of the CB table, executed after its two fetches.
pub open spec fn execute_cb_spec(c: Cpu, b: BusModel, opcode: u8) -> (Cpu, BusModel) {
    match cb_reg_spec(opcode) {
        Some(r) => if opcode < 0x40 {
            (shift_r8_spec(c, shift_op_of(opcode), r), b)
        } else if opcode < 0x80 {
            (bit_imm3_r8_spec(c, ((opcode - 0x40) / 8) as u8, r), b)
        } else if opcode < 0xC0 {
            (change_bit_r8_spec(c, ((opcode - 0x80) / 8) as u8, r, false), b)
        } else {
            (change_bit_r8_spec(c, ((opcode - 0xC0) / 8) as u8, r, true), b)
        },
        None => if opcode < 0x40 {
            shift_mem_hl_spec(c, b, shift_op_of(opcode))
        } else if opcode < 0x80 {
            bit_imm3_mem_hl_spec(c, b, ((opcode - 0x40) / 8) as u8)
        } else if opcode < 0xC0 {
            change_bit_mem_hl_spec(c, b, ((opcode - 0x80) / 8) as u8, false)
        } else {
            change_bit_mem_hl_spec(c, b, ((opcode - 0xC0) / 8) as u8, true)
        },
    }
}

/// The lowest pending interrupt (0 VBlank .. 4 Joypad).
pub open spec fn lowest_pending_spec(pending: u8) -> u8 {
    if pending & 0x01 != 0 {
        0
    } else if pending & 0x02 != 0 {
        1
    } else if pending & 0x04 != 0 {
        2
    } else if pending & 0x08 != 0 {
        3
    } else {
        4
    }
}

/// Interrupt service: one m-cycle in which the request bit is cleared in IF (the other IF
/// bits, including any raised during that m-cycle, are kept), IME is disabled, PC is pushed
/// and set to the vector 0x40 + 8 * bit, and two more m-cycles pass.
pub open spec fn service_spec(c: Cpu, b: BusModel, pending: u8) -> (Cpu, BusModel) {
    let bit = lowest_pending_spec(pending);
    let b1 = acknowledge_spec(b, bit);
    let sp = wrap16(c.regs.sp - 2);
    let b2 = bus_write_u16_spec(b1, sp, c.regs.pc);
    (
        Cpu {
            regs: Registers { sp, pc: (0x40 + 8 * bit) as u16, ..c.regs },
            ime: InterruptMode::Disabled,
            halted: false,
        },
        tick_spec(b2, 2),
    )
}

/// Interrupts both requested and enabled.
pub open spec fn pending_spec(b: BusModel) -> u8 {
    b.ie & b.io[0x0F] & 0x1F
}

/// What one `step` does, and the opcode that trapped, if any.
#[verifier::opaque]
pub open spec fn step_spec(c: Cpu, b: BusModel) -> (Cpu, BusModel, Option<u8>) {
    let pending = pending_spec(b);
    if c.halted {
        (Cpu { halted: pending == 0, ..c }, tick_spec(b, 1), None)
    } else if c.ime == InterruptMode::Enabled && pending != 0 {
        let (c1, b1) = service_spec(c, b, pending);
        (c1, b1, None)
    } else {
        let c1 = if c.ime == InterruptMode::Pending { Cpu { ime: InterruptMode::Enabled, ..c } } else { c };
        let (b1, opcode) = bus_read_spec(b, c1.regs.pc);
        let c2 = pc_plus(c1, 1);
        if opcode == 0xCB {
            let (b2, cb) = bus_read_spec(b1, c2.regs.pc);
            let (c3, b3) = execute_cb_spec(pc_plus(c2, 1), b2, cb);
            (c3, b3, None)
        } else {
            let (c3, b3) = execute_spec(c2, b1, opcode);
            (c3, b3, if is_illegal(opcode) { Some(opcode) } else { None })
        }
    }
}

impl Cpu {
    /// Runs one instruction, one interrupt service, or one halted m-cycle. Returns the
    /// opcode if it is one the instruction set leaves unused.
    #[verifier::rlimit(30)]
    pub fn step(&mut self, bus: &mut Bus) -> (trap: Option<u8>)
        requires
            old(self).wf(),
            old(bus).wf(),
        ensures
            final(self).wf(),
            final(bus).wf(),
            (*final(self), final(bus)@, trap) == step_spec(*old(self), old(bus)@),
    {
        reveal(step_spec);
        let (ie, int_flags) = bus.get_ie_if();
        let int_pending = (ie & int_flags) & 0x1F;

        if self.halted {
            bus.tick(1);
            if int_pending != 0 {
                self.halted = false;
            }
            return None;
        }

        assert((ie & int_flags) & 0x1F & 0x1F == (ie & int_flags) & 0x1F) by (bit_vector);
        if self.ime == InterruptMode::Enabled && int_pending != 0 {
            self.service_interrupt(int_pending, bus);
            return None;
        }

        if self.ime == InterruptMode::Pending {
            self.ime = InterruptMode::Enabled;
        }

        let opcode = bus.read(self.regs.pc());
        self.regs.inc_pc(1);

        if opcode == 0xCB {
            let cb_opcode = bus.read(self.regs.pc());
            self.regs.inc_pc(1);
            self.execute_cb(cb_opcode, bus);
            return None;
        }

        if self.execute(opcode, bus) {
            None
        } else {
            Some(opcode)
        }
    }

    #[verifier::rlimit(30)]
    fn service_interrupt(&mut self, int_pending: u8, bus: &mut Bus)
        requires
            old(self).wf(),
            old(bus).wf(),
            int_pending != 0,
            int_pending & 0x1F == int_pending,
        ensures
            final(self).wf(),
            final(bus).wf(),
            (*final(self), final(bus)@) == service_spec(*old(self), old(bus)@, int_pending),
    {
        let bit: u8 = if int_pending & 0x01 != 0 {
            0
        } else if int_pending & 0x02 != 0 {
            1
        } else if int_pending & 0x04 != 0 {
            2
        } else if int_pending & 0x08 != 0 {
            3
        } else {
            4
        };
        self.ime = InterruptMode::Disabled;
        bus.acknowledge_interrupt(bit);

        let sp = self.regs.sp().wrapping_sub(2);
        proof {
            crate::registers::lemma_wrap16(self.regs.sp - 2);
        }
        bus.write_u16(sp, self.regs.pc());

        self.regs.set_sp(sp);
        self.regs.set_pc(0x40 + 8 * bit as u16);

        bus.tick(2);
        self.halted = false;
    }

    /// Executes a base-table opcode; returns false for an unused one, which changes nothing.
    fn execute(&mut self, opcode: u8, bus: &mut Bus) -> (ok: bool)
        requires
            old(self).wf(),
            old(bus).wf(),
            opcode != 0xCB,
        ensures
            final(self).wf(),
            final(bus).wf(),
            ok == !is_illegal(opcode),
            (*final(self), final(bus)@) == execute_spec(*old(self), old(bus)@, opcode),
    {
        if opcode < 0x40 {
            self.execute_loads(opcode, bus);
            true
        } else if opcode < 0x80 {
            self.execute_moves(opcode, bus);
            true
        } else if opcode < 0xC0 {
            self.execute_alu(opcode, bus);
            true
        } else {
            self.execute_control(opcode, bus)
        }
    }

    /// Opcodes 0x00–0x3F: loads, 16-bit arithmetic, rotates of A and relative jumps.
    #[verifier::rlimit(40)]
    fn execute_loads(&mut self, opcode: u8, bus: &mut Bus)
        requires
            old(self).wf(),
            old(bus).wf(),
            0x00 <= opcode <= 0x3F,
            opcode != 0xCB,
        ensures
            final(self).wf(),
            final(bus).wf(),
            (*final(self), final(bus)@) == execute_spec(*old(self), old(bus)@, opcode),
    {
        match opcode {
            0x00 => {}, // NOP
            0x01 => ld_r16_imm16(self, bus, Reg16::BC),
            0x02 => ld_mem_r16_r8(self, bus, Reg16::BC, Reg8::A),
            0x03 => inc_r16(self, bus, Reg16::BC),
            0x04 => inc_r8(self, Reg8::B),
            0x05 => dec_r8(self, Reg8::B),
            0x06 => ld_r8_imm8(self, bus, Reg8::B),
            0x07 => rlca(self),
            0x08 => ld_mem_imm16_sp(self, bus),
            0x09 => add_hl_r16(self, bus, Reg16::BC),
            0x0A => ld_r8_mem_r16(self, bus, Reg8::A, Reg16::BC),
            0x0B => dec_r16(self, bus, Reg16::BC),
            0x0C => inc_r8(self, Reg8::C),
            0x0D => dec_r8(self, Reg8::C),
            0x0E => ld_r8_imm8(self, bus, Reg8::C),
            0x0F => rrca(self),
            0x10 => stop(self),
            0x11 => ld_r16_imm16(self, bus, Reg16::DE),
            0x12 => ld_mem_r16_r8(self, bus, Reg16::DE, Reg8::A),
            0x13 => inc_r16(self, bus, Reg16::DE),
            0x14 => inc_r8(self, Reg8::D),
            0x15 => dec_r8(self, Reg8::D),
            0x16 => ld_r8_imm8(self, bus, Reg8::D),
            0x17 => rla(self),
            0x18 => jr_imm8(self, bus),
            0x19 => add_hl_r16(self, bus, Reg16::DE),
            0x1A => ld_r8_mem_r16(self, bus, Reg8::A, Reg16::DE),
            0x1B => dec_r16(self, bus, Reg16::DE),
            0x1C => inc_r8(self, Reg8::E),
            0x1D => dec_r8(self, Reg8::E),
            0x1E => ld_r8_imm8(self, bus, Reg8::E),
            0x1F => rra(self),
            0x20 => jr_cond_imm8(self, bus, JumpCond::NZ),
            0x21 => ld_r16_imm16(self, bus, Reg16::HL),
            0x22 => ld_mem_hli_a(self, bus),
            0x23 => inc_r16(self, bus, Reg16::HL),
            0x24 => inc_r8(self, Reg8::H),
            0x25 => dec_r8(self, Reg8::H),
            0x26 => ld_r8_imm8(self, bus, Reg8::H),
            0x27 => daa(self),
            0x28 => jr_cond_imm8(self, bus, JumpCond::Z),
            0x29 => add_hl_r16(self, bus, Reg16::HL),
            0x2A => ld_a_mem_hli(self, bus),
            0x2B => dec_r16(self, bus, Reg16::HL),
            0x2C => inc_r8(self, Reg8::L),
            0x2D => dec_r8(self, Reg8::L),
            0x2E => ld_r8_imm8(self, bus, Reg8::L),
            0x2F => cpl(self),
            0x30 => jr_cond_imm8(self, bus, JumpCond::NC),
            0x31 => ld_sp_imm16(self, bus),
            0x32 => ld_mem_hld_a(self, bus),
            0x33 => inc_sp(self, bus),
            0x34 => inc_mem_hl(self, bus),
            0x35 => dec_mem_hl(self, bus),
            0x36 => ld_mem_r16_imm8(self, bus, Reg16::HL),
            0x37 => scf(self),
            0x38 => jr_cond_imm8(self, bus, JumpCond::C),
            0x39 => add_hl_sp(self, bus),
            0x3A => ld_a_mem_hld(self, bus),
            0x3B => dec_sp(self, bus),
            0x3C => inc_r8(self, Reg8::A),
            0x3D => dec_r8(self, Reg8::A),
            0x3E => ld_r8_imm8(self, bus, Reg8::A),
            0x3F => ccf(self),
            _ => {},
        }
    }

    /// Opcodes 0x40–0x7F: register-to-register loads and HALT.
    #[verifier::rlimit(40)]
    fn execute_moves(&mut self, opcode: u8, bus: &mut Bus)
        requires
            old(self).wf(),
            old(bus).wf(),
            0x40 <= opcode <= 0x7F,
            opcode != 0xCB,
        ensures
            final(self).wf(),
            final(bus).wf(),
            (*final(self), final(bus)@) == execute_spec(*old(self), old(bus)@, opcode),
    {
        match opcode {
            0x40 => {}, // LD B, B
            0x41 => ld_r8_r8(self, Reg8::B, Reg8::C),
            0x42 => ld_r8_r8(self, Reg8::B, Reg8::D),
            0x43 => ld_r8_r8(self, Reg8::B, Reg8::E),
            0x44 => ld_r8_r8(self, Reg8::B, Reg8::H),
            0x45 => ld_r8_r8(self, Reg8::B, Reg8::L),
            0x46 => ld_r8_mem_r16(self, bus, Reg8::B, Reg16::HL),
            0x47 => ld_r8_r8(self, Reg8::B, Reg8::A),
            0x48 => ld_r8_r8(self, Reg8::C, Reg8::B),
            0x49 => {}, // LD C, C
            0x4A => ld_r8_r8(self, Reg8::C, Reg8::D),
            0x4B => ld_r8_r8(self, Reg8::C, Reg8::E),
            0x4C => ld_r8_r8(self, Reg8::C, Reg8::H),
            0x4D => ld_r8_r8(self, Reg8::C, Reg8::L),
            0x4E => ld_r8_mem_r16(self, bus, Reg8::C, Reg16::HL),
            0x4F => ld_r8_r8(self, Reg8::C, Reg8::A),
            0x50 => ld_r8_r8(self, Reg8::D, Reg8::B),
            0x51 => ld_r8_r8(self, Reg8::D, Reg8::C),
            0x52 => {}, // LD D, D
            0x53 => ld_r8_r8(self, Reg8::D, Reg8::E),
            0x54 => ld_r8_r8(self, Reg8::D, Reg8::H),
            0x55 => ld_r8_r8(self, Reg8::D, Reg8::L),
            0x56 => ld_r8_mem_r16(self, bus, Reg8::D, Reg16::HL),
            0x57 => ld_r8_r8(self, Reg8::D, Reg8::A),
            0x58 => ld_r8_r8(self, Reg8::E, Reg8::B),
            0x59 => ld_r8_r8(self, Reg8::E, Reg8::C),
            0x5A => ld_r8_r8(self, Reg8::E, Reg8::D),
            0x5B => {}, // LD E, E
            0x5C => ld_r8_r8(self, Reg8::E, Reg8::H),
            0x5D => ld_r8_r8(self, Reg8::E, Reg8::L),
            0x5E => ld_r8_mem_r16(self, bus, Reg8::E, Reg16::HL),
            0x5F => ld_r8_r8(self, Reg8::E, Reg8::A),
            0x60 => ld_r8_r8(self, Reg8::H, Reg8::B),
            0x61 => ld_r8_r8(self, Reg8::H, Reg8::C),
            0x62 => ld_r8_r8(self, Reg8::H, Reg8::D),
            0x63 => ld_r8_r8(self, Reg8::H, Reg8::E),
            0x64 => {}, // LD H, H
            0x65 => ld_r8_r8(self, Reg8::H, Reg8::L),
            0x66 => ld_r8_mem_r16(self, bus, Reg8::H, Reg16::HL),
            0x67 => ld_r8_r8(self, Reg8::H, Reg8::A),
            0x68 => ld_r8_r8(self, Reg8::L, Reg8::B),
            0x69 => ld_r8_r8(self, Reg8::L, Reg8::C),
            0x6A => ld_r8_r8(self, Reg8::L, Reg8::D),
            0x6B => ld_r8_r8(self, Reg8::L, Reg8::E),
            0x6C => ld_r8_r8(self, Reg8::L, Reg8::H),
            0x6D => {}, // LD L, L
            0x6E => ld_r8_mem_r16(self, bus, Reg8::L, Reg16::HL),
            0x6F => ld_r8_r8(self, Reg8::L, Reg8::A),
            0x70 => ld_mem_r16_r8(self, bus, Reg16::HL, Reg8::B),
            0x71 => ld_mem_r16_r8(self, bus, Reg16::HL, Reg8::C),
            0x72 => ld_mem_r16_r8(self, bus, Reg16::HL, Reg8::D),
            0x73 => ld_mem_r16_r8(self, bus, Reg16::HL, Reg8::E),
            0x74 => ld_mem_r16_r8(self, bus, Reg16::HL, Reg8::H),
            0x75 => ld_mem_r16_r8(self, bus, Reg16::HL, Reg8::L),
            0x76 => halt(self),
            0x77 => ld_mem_r16_r8(self, bus, Reg16::HL, Reg8::A),
            0x78 => ld_r8_r8(self, Reg8::A, Reg8::B),
            0x79 => ld_r8_r8(self, Reg8::A, Reg8::C),
            0x7A => ld_r8_r8(self, Reg8::A, Reg8::D),
            0x7B => ld_r8_r8(self, Reg8::A, Reg8::E),
            0x7C => ld_r8_r8(self, Reg8::A, Reg8::H),
            0x7D => ld_r8_r8(self, Reg8::A, Reg8::L),
            0x7E => ld_r8_mem_r16(self, bus, Reg8::A, Reg16::HL),
            0x7F => {}, // LD A, A
            _ => {},
        }
    }

    /// Opcodes 0x80–0xBF: 8-bit arithmetic and logic on A.
    #[verifier::rlimit(40)]
    fn execute_alu(&mut self, opcode: u8, bus: &mut Bus)
        requires
            old(self).wf(),
            old(bus).wf(),
            0x80 <= opcode <= 0xBF,
            opcode != 0xCB,
        ensures
            final(self).wf(),
            final(bus).wf(),
            (*final(self), final(bus)@) == execute_spec(*old(self), old(bus)@, opcode),
    {
        match opcode {
            0x80 => add_r8(self, Reg8::B),
            0x81 => add_r8(self, Reg8::C),
            0x82 => add_r8(self, Reg8::D),
            0x83 => add_r8(self, Reg8::E),
            0x84 => add_r8(self, Reg8::H),
            0x85 => add_r8(self, Reg8::L),
            0x86 => add_mem_hl(self, bus),
            0x87 => add_r8(self, Reg8::A),
            0x88 => adc_r8(self, Reg8::B),
            0x89 => adc_r8(self, Reg8::C),
            0x8A => adc_r8(self, Reg8::D),
            0x8B => adc_r8(self, Reg8::E),
            0x8C => adc_r8(self, Reg8::H),
            0x8D => adc_r8(self, Reg8::L),
            0x8E => adc_mem_hl(self, bus),
            0x8F => adc_r8(self, Reg8::A),
            0x90 => sub_r8(self, Reg8::B),
            0x91 => sub_r8(self, Reg8::C),
            0x92 => sub_r8(self, Reg8::D),
            0x93 => sub_r8(self, Reg8::E),
            0x94 => sub_r8(self, Reg8::H),
            0x95 => sub_r8(self, Reg8::L),
            0x96 => sub_mem_hl(self, bus),
            0x97 => sub_r8(self, Reg8::A),
            0x98 => sbc_r8(self, Reg8::B),
            0x99 => sbc_r8(self, Reg8::C),
            0x9A => sbc_r8(self, Reg8::D),
            0x9B => sbc_r8(self, Reg8::E),
            0x9C => sbc_r8(self, Reg8::H),
            0x9D => sbc_r8(self, Reg8::L),
            0x9E => sbc_mem_hl(self, bus),
            0x9F => sbc_r8(self, Reg8::A),
            0xA0 => and_r8(self, Reg8::B),
            0xA1 => and_r8(self, Reg8::C),
            0xA2 => and_r8(self, Reg8::D),
            0xA3 => and_r8(self, Reg8::E),
            0xA4 => and_r8(self, Reg8::H),
            0xA5 => and_r8(self, Reg8::L),
            0xA6 => and_mem_hl(self, bus),
            0xA7 => and_r8(self, Reg8::A),
            0xA8 => xor_r8(self, Reg8::B),
            0xA9 => xor_r8(self, Reg8::C),
            0xAA => xor_r8(self, Reg8::D),
            0xAB => xor_r8(self, Reg8::E),
            0xAC => xor_r8(self, Reg8::H),
            0xAD => xor_r8(self, Reg8::L),
            0xAE => xor_mem_hl(self, bus),
            0xAF => xor_r8(self, Reg8::A),
            0xB0 => or_r8(self, Reg8::B),
            0xB1 => or_r8(self, Reg8::C),
            0xB2 => or_r8(self, Reg8::D),
            0xB3 => or_r8(self, Reg8::E),
            0xB4 => or_r8(self, Reg8::H),
            0xB5 => or_r8(self, Reg8::L),
            0xB6 => or_mem_hl(self, bus),
            0xB7 => or_r8(self, Reg8::A),
            0xB8 => cp_r8(self, Reg8::B),
            0xB9 => cp_r8(self, Reg8::C),
            0xBA => cp_r8(self, Reg8::D),
            0xBB => cp_r8(self, Reg8::E),
            0xBC => cp_r8(self, Reg8::H),
            0xBD => cp_r8(self, Reg8::L),
            0xBE => cp_mem_hl(self, bus),
            0xBF => cp_r8(self, Reg8::A),
            _ => {},
        }
    }

    /// Opcodes 0xC0–0xFF: jumps, calls, returns, stack, I/O loads and the remaining immediates.
    #[verifier::rlimit(40)]
    fn execute_control(&mut self, opcode: u8, bus: &mut Bus) -> (ok: bool)
        requires
            old(self).wf(),
            old(bus).wf(),
            0xC0 <= opcode <= 0xFF,
            opcode != 0xCB,
        ensures
            final(self).wf(),
            final(bus).wf(),
            ok == !is_illegal(opcode),
            (*final(self), final(bus)@) == execute_spec(*old(self), old(bus)@, opcode),
    {
        match opcode {
            0xC0 => ret_cond(self, bus, JumpCond::NZ),
            0xC1 => pop_r16(self, bus, Reg16::BC),
            0xC2 => jp_cond_imm16(self, bus, JumpCond::NZ),
            0xC3 => jp_imm16(self, bus),
            0xC4 => call_cond_imm16(self, bus, JumpCond::NZ),
            0xC5 => push_r16(self, bus, Reg16::BC),
            0xC6 => add_imm8(self, bus),
            0xC7 => rst(self, bus, 0x00),
            0xC8 => ret_cond(self, bus, JumpCond::Z),
            0xC9 => ret(self, bus),
            0xCA => jp_cond_imm16(self, bus, JumpCond::Z),
            0xCC => call_cond_imm16(self, bus, JumpCond::Z),
            0xCD => call_imm16(self, bus),
            0xCE => adc_imm8(self, bus),
            0xCF => rst(self, bus, 0x08),
            0xD0 => ret_cond(self, bus, JumpCond::NC),
            0xD1 => pop_r16(self, bus, Reg16::DE),
            0xD2 => jp_cond_imm16(self, bus, JumpCond::NC),
            0xD4 => call_cond_imm16(self, bus, JumpCond::NC),
            0xD5 => push_r16(self, bus, Reg16::DE),
            0xD6 => sub_imm8(self, bus),
            0xD7 => rst(self, bus, 0x10),
            0xD8 => ret_cond(self, bus, JumpCond::C),
            0xD9 => reti(self, bus),
            0xDA => jp_cond_imm16(self, bus, JumpCond::C),
            0xDC => call_cond_imm16(self, bus, JumpCond::C),
            0xDE => sbc_imm8(self, bus),
            0xDF => rst(self, bus, 0x18),
            0xE0 => ldh_mem_imm8_a(self, bus),
            0xE1 => pop_r16(self, bus, Reg16::HL),
            0xE2 => ldh_mem_c_a(self, bus),
            0xE5 => push_r16(self, bus, Reg16::HL),
            0xE6 => and_imm8(self, bus),
            0xE7 => rst(self, bus, 0x20),
            0xE8 => add_sp_imm8(self, bus),
            0xE9 => jp_hl(self),
            0xEA => ld_mem_imm16_a(self, bus),
            0xEE => xor_imm8(self, bus),
            0xEF => rst(self, bus, 0x28),
            0xF0 => ldh_a_mem_imm8(self, bus),
            0xF1 => pop_r16(self, bus, Reg16::AF),
            0xF2 => ldh_a_mem_c(self, bus),
            0xF3 => di(self),
            0xF5 => push_r16(self, bus, Reg16::AF),
            0xF6 => or_imm8(self, bus),
            0xF7 => rst(self, bus, 0x30),
            0xF8 => ld_hl_sp_imm8(self, bus),
            0xF9 => ld_sp_hl(self, bus),
            0xFA => ld_a_mem_imm16(self, bus),
            0xFB => ei(self),
            0xFE => cp_imm8(self, bus),
            0xFF => rst(self, bus, 0x38),
            _ => {
                return false;
            },
        }
        true
    }

    #[verifier::rlimit(30)]
    fn execute_cb(&mut self, opcode: u8, bus: &mut Bus)
        requires
            old(self).wf(),
            old(bus).wf(),
        ensures
            final(self).wf(),
            final(bus).wf(),
            (*final(self), final(bus)@) == execute_cb_spec(*old(self), old(bus)@, opcode),
    {
        let reg = cb_reg(opcode);
        if opcode < 0x40 {
            match (opcode / 8, reg) {
                (0, Some(r)) => rlc_r8(self, r),
                (0, None) => rlc_mem_hl(self, bus),
                (1, Some(r)) => rrc_r8(self, r),
                (1, None) => rrc_mem_hl(self, bus),
                (2, Some(r)) => rl_r8(self, r),
                (2, None) => rl_mem_hl(self, bus),
                (3, Some(r)) => rr_r8(self, r),
                (3, None) => rr_mem_hl(self, bus),
                (4, Some(r)) => sla_r8(self, r),
                (4, None) => sla_mem_hl(self, bus),
                (5, Some(r)) => sra_r8(self, r),
                (5, None) => sra_mem_hl(self, bus),
                (6, Some(r)) => swap_r8(self, r),
                (6, None) => swap_mem_hl(self, bus),
                (_, Some(r)) => srl_r8(self, r),
                (_, None) => srl_mem_hl(self, bus),
            }
        } else if opcode < 0x80 {
            let bit = (opcode - 0x40) / 8;
            match reg {
                Some(r) => bit_imm3_r8(self, bit, r),
                None => bit_imm3_mem_hl(self, bus, bit),
            }
        } else if opcode < 0xC0 {
            let bit = (opcode - 0x80) / 8;
            match reg {
                Some(r) => res_imm3_r8(self, bit, r),
                None => res_imm3_mem_hl(self, bus, bit),
            }
        } else {
            let bit = (opcode - 0xC0) / 8;
            match reg {
                Some(r) => set_imm3_r8(self, bit, r),
                None => set_imm3_mem_hl(self, bus, bit),
            }
        }
    }
}


/// LD B, B (opcode 0x40) does nothing beyond its fetch: PC moves past it, the bus sees one
/// read m-cycle, and no register or memory changes (EI's pending enable still takes effect,
/// as before any fetch).
pub proof fn lemma_ld_b_b_is_nop(c: Cpu, b: BusModel)
    requires
        !c.halted,
        !(c.ime == InterruptMode::Enabled && pending_spec(b) != 0),
        bus_read_spec(b, c.regs.pc).1 == 0x40,
    ensures
        ({
            let c1 = if c.ime == InterruptMode::Pending { Cpu { ime: InterruptMode::Enabled, ..c } } else { c };
            step_spec(c, b) == (pc_plus(c1, 1), bus_read_spec(b, c.regs.pc).0, None::<u8>)
        }),
{
    reveal(step_spec);
}

} // verus!
