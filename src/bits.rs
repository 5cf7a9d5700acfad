use vstd::prelude::*;
use crate::bus::{Bus, BusModel, bus_read_spec, bus_write_spec};
use crate::cpu::{Cpu, with_regs};
use crate::registers::{Reg8, Registers};

verus! {

broadcast use crate::registers::lemma_flag_byte_fields;

/// The rotate and shift family of the CB table.
#[derive(Clone, Copy, Debug, PartialEq, Eq, Structural)]
pub enum ShiftOp {
    Rlc,
    Rrc,
    Rl,
    Rr,
    Sla,
    Sra,
    Srl,
    Swap,
}

/// Result and carry-out of a rotate or shift of `v` with carry-in `cin`.
pub open spec fn shift_spec(op: ShiftOp, v: u8, cin: bool) -> (u8, bool) {
    let cbit: u8 = if cin { 1 } else { 0 };
    match op {
        ShiftOp::Rlc => (((v << 1u8) | (v >> 7u8)) as u8, v & 0x80 != 0),
        ShiftOp::Rrc => (((v >> 1u8) | (v << 7u8)) as u8, v & 0x01 != 0),
        ShiftOp::Rl => (((v << 1u8) | cbit) as u8, v & 0x80 != 0),
        ShiftOp::Rr => (((v >> 1u8) | (cbit << 7u8)) as u8, v & 0x01 != 0),
        ShiftOp::Sla => ((v << 1u8) as u8, v & 0x80 != 0),
        ShiftOp::Sra => (((v >> 1u8) | (v & 0x80)) as u8, v & 0x01 != 0),
        ShiftOp::Srl => ((v >> 1u8) as u8, v & 0x01 != 0),
        ShiftOp::Swap => (((v << 4u8) | (v >> 4u8)) as u8, false),
    }
}

pub fn shift(op: ShiftOp, value: u8, carry: bool) -> (r: (u8, bool))
    ensures
        r == shift_spec(op, value, carry),
{
    let cbit: u8 = if carry { 1 } else { 0 };
    match op {
        ShiftOp::Rlc => ((value << 1) | (value >> 7), (value & 0x80) != 0),
        ShiftOp::Rrc => ((value >> 1) | (value << 7), (value & 0x01) != 0),
        ShiftOp::Rl => ((value << 1) | cbit, (value & 0x80) != 0),
        ShiftOp::Rr => ((value >> 1) | (cbit << 7), (value & 0x01) != 0),
        ShiftOp::Sla => (value << 1, (value & 0x80) != 0),
        ShiftOp::Sra => ((value >> 1) | (value & 0x80), (value & 0x01) != 0),
        ShiftOp::Srl => (value >> 1, (value & 0x01) != 0),
        ShiftOp::Swap => ((value << 4) | (value >> 4), false),
    }
}

/// RLCA/RRCA/RLA/RRA: the accumulator rotates with Z always clear.
pub open spec fn rotate_a_spec(c: Cpu, op: ShiftOp) -> Cpu {
    let (res, carry) = shift_spec(op, c.regs.a, c.regs.cf());
    with_regs(c, Registers { a: res, ..c.regs }.with_flags(false, false, false, carry))
}

fn rotate_a(cpu: &mut Cpu, op: ShiftOp)
    requires
        old(cpu).wf(),
    ensures
        final(cpu).wf(),
        *final(cpu) == rotate_a_spec(*old(cpu), op),
{
    let carry_in = cpu.regs.carry_flag();
    let (result, carry) = shift(op, cpu.regs.a(), carry_in);
    cpu.regs.set_a(result);
    cpu.regs.set_zero_flag(false);
    cpu.regs.set_subtract_flag(false);
    cpu.regs.set_half_carry_flag(false);
    cpu.regs.set_carry_flag(carry);
}

/// CB rotate/shift on a register: Z from the result, N and H clear.
pub open spec fn shift_r8_spec(c: Cpu, op: ShiftOp, reg: Reg8) -> Cpu {
    let (res, carry) = shift_spec(op, c.regs.reg8_spec(reg), c.regs.cf());
    with_regs(c, c.regs.with_reg8(reg, res).with_flags(res == 0, false, false, carry))
}

fn shift_r8(cpu: &mut Cpu, op: ShiftOp, reg: Reg8)
    requires
        old(cpu).wf(),
    ensures
        final(cpu).wf(),
        *final(cpu) == shift_r8_spec(*old(cpu), op, reg),
{
    let carry_in = cpu.regs.carry_flag();
    let (result, carry) = shift(op, cpu.regs.read_reg8(reg), carry_in);
    cpu.regs.write_reg8(reg, result);
    cpu.regs.set_zero_flag(result == 0);
    cpu.regs.set_subtract_flag(false);
    cpu.regs.set_half_carry_flag(false);
    cpu.regs.set_carry_flag(carry);
}

/// CB rotate/shift on (HL): read, modify, write back.
pub open spec fn shift_mem_hl_spec(c: Cpu, b: BusModel, op: ShiftOp) -> (Cpu, BusModel) {
    let hl = c.regs.hl_spec();
    let (b1, v) = bus_read_spec(b, hl);
    let (res, carry) = shift_spec(op, v, c.regs.cf());
    (with_regs(c, c.regs.with_flags(res == 0, false, false, carry)), bus_write_spec(b1, hl, res))
}

fn shift_mem_hl(cpu: &mut Cpu, bus: &mut Bus, op: ShiftOp)
    requires
        old(cpu).wf(),
        old(bus).wf(),
    ensures
        final(cpu).wf(),
        final(bus).wf(),
        (*final(cpu), final(bus)@) == shift_mem_hl_spec(*old(cpu), old(bus)@, op),
{
    let hl = cpu.regs.hl();
    let value = bus.read(hl);
    let carry_in = cpu.regs.carry_flag();
    let (result, carry) = shift(op, value, carry_in);
    bus.write(hl, result);
    cpu.regs.set_zero_flag(result == 0);
    cpu.regs.set_subtract_flag(false);
    cpu.regs.set_half_carry_flag(false);
    cpu.regs.set_carry_flag(carry);
}

/// RLCA - rotate A left, bit 7 to carry
pub fn rlca(cpu: &mut Cpu)
    requires
        old(cpu).wf(),
    ensures
        final(cpu).wf(),
        *final(cpu) == rotate_a_spec(*old(cpu), ShiftOp::Rlc),
{
    rotate_a(cpu, ShiftOp::Rlc);
}

/// RRCA - rotate A right, bit 0 to carry
pub fn rrca(cpu: &mut Cpu)
    requires
        old(cpu).wf(),
    ensures
        final(cpu).wf(),
        *final(cpu) == rotate_a_spec(*old(cpu), ShiftOp::Rrc),
{
    rotate_a(cpu, ShiftOp::Rrc);
}

/// RLA - rotate A left through carry
pub fn rla(cpu: &mut Cpu)
    requires
        old(cpu).wf(),
    ensures
        final(cpu).wf(),
        *final(cpu) == rotate_a_spec(*old(cpu), ShiftOp::Rl),
{
    rotate_a(cpu, ShiftOp::Rl);
}

/// RRA - rotate A right through carry
pub fn rra(cpu: &mut Cpu)
    requires
        old(cpu).wf(),
    ensures
        final(cpu).wf(),
        *final(cpu) == rotate_a_spec(*old(cpu), ShiftOp::Rr),
{
    rotate_a(cpu, ShiftOp::Rr);
}

/// RLC - rotate left, bit 7 to carry, r8
pub fn rlc_r8(cpu: &mut Cpu, reg: Reg8)
    requires
        old(cpu).wf(),
    ensures
        final(cpu).wf(),
        *final(cpu) == shift_r8_spec(*old(cpu), ShiftOp::Rlc, reg),
{
    shift_r8(cpu, ShiftOp::Rlc, reg);
}

/// RLC - rotate left, bit 7 to carry, (HL)
pub fn rlc_mem_hl(cpu: &mut Cpu, bus: &mut Bus)
    requires
        old(cpu).wf(),
        old(bus).wf(),
    ensures
        final(cpu).wf(),
        final(bus).wf(),
        (*final(cpu), final(bus)@) == shift_mem_hl_spec(*old(cpu), old(bus)@, ShiftOp::Rlc),
{
    shift_mem_hl(cpu, bus, ShiftOp::Rlc);
}

/// RRC - rotate right, bit 0 to carry, r8
pub fn rrc_r8(cpu: &mut Cpu, reg: Reg8)
    requires
        old(cpu).wf(),
    ensures
        final(cpu).wf(),
        *final(cpu) == shift_r8_spec(*old(cpu), ShiftOp::Rrc, reg),
{
    shift_r8(cpu, ShiftOp::Rrc, reg);
}

/// RRC - rotate right, bit 0 to carry, (HL)
pub fn rrc_mem_hl(cpu: &mut Cpu, bus: &mut Bus)
    requires
        old(cpu).wf(),
        old(bus).wf(),
    ensures
        final(cpu).wf(),
        final(bus).wf(),
        (*final(cpu), final(bus)@) == shift_mem_hl_spec(*old(cpu), old(bus)@, ShiftOp::Rrc),
{
    shift_mem_hl(cpu, bus, ShiftOp::Rrc);
}

/// RL - rotate left through carry, r8
pub fn rl_r8(cpu: &mut Cpu, reg: Reg8)
    requires
        old(cpu).wf(),
    ensures
        final(cpu).wf(),
        *final(cpu) == shift_r8_spec(*old(cpu), ShiftOp::Rl, reg),
{
    shift_r8(cpu, ShiftOp::Rl, reg);
}

/// RL - rotate left through carry, (HL)
pub fn rl_mem_hl(cpu: &mut Cpu, bus: &mut Bus)
    requires
        old(cpu).wf(),
        old(bus).wf(),
    ensures
        final(cpu).wf(),
        final(bus).wf(),
        (*final(cpu), final(bus)@) == shift_mem_hl_spec(*old(cpu), old(bus)@, ShiftOp::Rl),
{
    shift_mem_hl(cpu, bus, ShiftOp::Rl);
}

/// RR - rotate right through carry, r8
pub fn rr_r8(cpu: &mut Cpu, reg: Reg8)
    requires
        old(cpu).wf(),
    ensures
        final(cpu).wf(),
        *final(cpu) == shift_r8_spec(*old(cpu), ShiftOp::Rr, reg),
{
    shift_r8(cpu, ShiftOp::Rr, reg);
}

/// RR - rotate right through carry, (HL)
pub fn rr_mem_hl(cpu: &mut Cpu, bus: &mut Bus)
    requires
        old(cpu).wf(),
        old(bus).wf(),
    ensures
        final(cpu).wf(),
        final(bus).wf(),
        (*final(cpu), final(bus)@) == shift_mem_hl_spec(*old(cpu), old(bus)@, ShiftOp::Rr),
{
    shift_mem_hl(cpu, bus, ShiftOp::Rr);
}

/// SLA - shift left into carry, r8
pub fn sla_r8(cpu: &mut Cpu, reg: Reg8)
    requires
        old(cpu).wf(),
    ensures
        final(cpu).wf(),
        *final(cpu) == shift_r8_spec(*old(cpu), ShiftOp::Sla, reg),
{
    shift_r8(cpu, ShiftOp::Sla, reg);
}

/// SLA - shift left into carry, (HL)
pub fn sla_mem_hl(cpu: &mut Cpu, bus: &mut Bus)
    requires
        old(cpu).wf(),
        old(bus).wf(),
    ensures
        final(cpu).wf(),
        final(bus).wf(),
        (*final(cpu), final(bus)@) == shift_mem_hl_spec(*old(cpu), old(bus)@, ShiftOp::Sla),
{
    shift_mem_hl(cpu, bus, ShiftOp::Sla);
}

/// SRA - shift right into carry, bit 7 kept, r8
pub fn sra_r8(cpu: &mut Cpu, reg: Reg8)
    requires
        old(cpu).wf(),
    ensures
        final(cpu).wf(),
        *final(cpu) == shift_r8_spec(*old(cpu), ShiftOp::Sra, reg),
{
    shift_r8(cpu, ShiftOp::Sra, reg);
}

/// SRA - shift right into carry, bit 7 kept, (HL)
pub fn sra_mem_hl(cpu: &mut Cpu, bus: &mut Bus)
    requires
        old(cpu).wf(),
        old(bus).wf(),
    ensures
        final(cpu).wf(),
        final(bus).wf(),
        (*final(cpu), final(bus)@) == shift_mem_hl_spec(*old(cpu), old(bus)@, ShiftOp::Sra),
{
    shift_mem_hl(cpu, bus, ShiftOp::Sra);
}

/// SRL - shift right into carry, bit 7 cleared, r8
pub fn srl_r8(cpu: &mut Cpu, reg: Reg8)
    requires
        old(cpu).wf(),
    ensures
        final(cpu).wf(),
        *final(cpu) == shift_r8_spec(*old(cpu), ShiftOp::Srl, reg),
{
    shift_r8(cpu, ShiftOp::Srl, reg);
}

/// SRL - shift right into carry, bit 7 cleared, (HL)
pub fn srl_mem_hl(cpu: &mut Cpu, bus: &mut Bus)
    requires
        old(cpu).wf(),
        old(bus).wf(),
    ensures
        final(cpu).wf(),
        final(bus).wf(),
        (*final(cpu), final(bus)@) == shift_mem_hl_spec(*old(cpu), old(bus)@, ShiftOp::Srl),
{
    shift_mem_hl(cpu, bus, ShiftOp::Srl);
}

/// SWAP - exchange the nibbles, r8
pub fn swap_r8(cpu: &mut Cpu, reg: Reg8)
    requires
        old(cpu).wf(),
    ensures
        final(cpu).wf(),
        *final(cpu) == shift_r8_spec(*old(cpu), ShiftOp::Swap, reg),
{
    shift_r8(cpu, ShiftOp::Swap, reg);
}

/// SWAP - exchange the nibbles, (HL)
pub fn swap_mem_hl(cpu: &mut Cpu, bus: &mut Bus)
    requires
        old(cpu).wf(),
        old(bus).wf(),
    ensures
        final(cpu).wf(),
        final(bus).wf(),
        (*final(cpu), final(bus)@) == shift_mem_hl_spec(*old(cpu), old(bus)@, ShiftOp::Swap),
{
    shift_mem_hl(cpu, bus, ShiftOp::Swap);
}

/// BIT: Z set when the bit is clear, N clear, H set, C kept.
pub open spec fn bit_flags(r: Registers, bit: u8, v: u8) -> Registers {
    r.with_flags(v & (1u8 << bit) == 0, false, true, r.cf())
}

pub open spec fn bit_imm3_r8_spec(c: Cpu, bit: u8, reg: Reg8) -> Cpu {
    with_regs(c, bit_flags(c.regs, bit, c.regs.reg8_spec(reg)))
}

/// BIT b, r8
pub fn bit_imm3_r8(cpu: &mut Cpu, bit: u8, reg: Reg8)
    requires
        old(cpu).wf(),
        bit < 8,
    ensures
        final(cpu).wf(),
        *final(cpu) == bit_imm3_r8_spec(*old(cpu), bit, reg),
{
    let value = cpu.regs.read_reg8(reg);
    let mask: u8 = 1 << bit;
    cpu.regs.set_zero_flag((value & mask) == 0);
    cpu.regs.set_subtract_flag(false);
    cpu.regs.set_half_carry_flag(true);
}

pub open spec fn bit_imm3_mem_hl_spec(c: Cpu, b: BusModel, bit: u8) -> (Cpu, BusModel) {
    let (b1, v) = bus_read_spec(b, c.regs.hl_spec());
    (with_regs(c, bit_flags(c.regs, bit, v)), b1)
}

/// BIT b, (HL)
pub fn bit_imm3_mem_hl(cpu: &mut Cpu, bus: &mut Bus, bit: u8)
    requires
        old(cpu).wf(),
        old(bus).wf(),
        bit < 8,
    ensures
        final(cpu).wf(),
        final(bus).wf(),
        (*final(cpu), final(bus)@) == bit_imm3_mem_hl_spec(*old(cpu), old(bus)@, bit),
{
    let value = bus.read(cpu.regs.hl());
    let mask: u8 = 1 << bit;
    cpu.regs.set_zero_flag((value & mask) == 0);
    cpu.regs.set_subtract_flag(false);
    cpu.regs.set_half_carry_flag(true);
}

/// The byte with one bit set (`set`) or cleared.
pub open spec fn with_bit(v: u8, bit: u8, set: bool) -> u8 {
    if set {
        v | (1u8 << bit)
    } else {
        v & !(1u8 << bit)
    }
}

pub open spec fn change_bit_r8_spec(c: Cpu, bit: u8, reg: Reg8, set: bool) -> Cpu {
    with_regs(c, c.regs.with_reg8(reg, with_bit(c.regs.reg8_spec(reg), bit, set)))
}

pub open spec fn change_bit_mem_hl_spec(c: Cpu, b: BusModel, bit: u8, set: bool) -> (Cpu, BusModel) {
    let hl = c.regs.hl_spec();
    let (b1, v) = bus_read_spec(b, hl);
    (c, bus_write_spec(b1, hl, with_bit(v, bit, set)))
}

/// RES b, r8
pub fn res_imm3_r8(cpu: &mut Cpu, bit: u8, reg: Reg8)
    requires
        old(cpu).wf(),
        bit < 8,
    ensures
        final(cpu).wf(),
        *final(cpu) == change_bit_r8_spec(*old(cpu), bit, reg, false),
{
    let value = cpu.regs.read_reg8(reg);
    let mask: u8 = !(1u8 << bit);
    cpu.regs.write_reg8(reg, value & mask);
}

/// RES b, (HL)
pub fn res_imm3_mem_hl(cpu: &mut Cpu, bus: &mut Bus, bit: u8)
    requires
        old(cpu).wf(),
        old(bus).wf(),
        bit < 8,
    ensures
        final(cpu).wf(),
        final(bus).wf(),
        (*final(cpu), final(bus)@) == change_bit_mem_hl_spec(*old(cpu), old(bus)@, bit, false),
{
    let hl = cpu.regs.hl();
    let value = bus.read(hl);
    let mask: u8 = !(1u8 << bit);
    bus.write(hl, value & mask);
}

/// SET b, r8
pub fn set_imm3_r8(cpu: &mut Cpu, bit: u8, reg: Reg8)
    requires
        old(cpu).wf(),
        bit < 8,
    ensures
        final(cpu).wf(),
        *final(cpu) == change_bit_r8_spec(*old(cpu), bit, reg, true),
{
    let value = cpu.regs.read_reg8(reg);
    let mask: u8 = 1 << bit;
    cpu.regs.write_reg8(reg, value | mask);
}

/// SET b, (HL)
pub fn set_imm3_mem_hl(cpu: &mut Cpu, bus: &mut Bus, bit: u8)
    requires
        old(cpu).wf(),
        old(bus).wf(),
        bit < 8,
    ensures
        final(cpu).wf(),
        final(bus).wf(),
        (*final(cpu), final(bus)@) == change_bit_mem_hl_spec(*old(cpu), old(bus)@, bit, true),
{
    let hl = cpu.regs.hl();
    let value = bus.read(hl);
    let mask: u8 = 1 << bit;
    bus.write(hl, value | mask);
}

} // verus!
