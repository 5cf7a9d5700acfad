use vstd::prelude::*;
use crate::bus::{Bus, BusModel, bus_read_spec, bus_write_spec, tick_spec};
use crate::cpu::{Cpu, pc_plus, with_regs};
use crate::registers::{Reg16, Reg8, Registers, wrap16, wrap8};

verus! {

broadcast use crate::registers::lemma_flag_byte_fields;

pub open spec fn carry_bit(c: bool) -> int {
    if c {
        1
    } else {
        0
    }
}

/// A + v (+ carry): Z from the result, N clear, H from bit 3, C from bit 7.
pub open spec fn add_a_spec(r: Registers, v: u8, cin: bool) -> Registers {
    let sum = r.a + v + carry_bit(cin);
    let res = wrap8(sum);
    Registers { a: res, ..r }.with_flags(res == 0, false, r.a % 16 + v % 16 + carry_bit(cin) > 15, sum > 255)
}

/// A - v (- carry), stored in A unless it is a compare: N set, H and C are the borrows.
pub open spec fn sub_a_spec(r: Registers, v: u8, cin: bool, store: bool) -> Registers {
    let res = wrap8(r.a - v - carry_bit(cin));
    let r1 = if store { Registers { a: res, ..r } } else { r };
    r1.with_flags(res == 0, true, r.a % 16 < v % 16 + carry_bit(cin), r.a < v + carry_bit(cin))
}

pub open spec fn and_a_spec(r: Registers, v: u8) -> Registers {
    let res = r.a & v;
    Registers { a: res, ..r }.with_flags(res == 0, false, true, false)
}

pub open spec fn xor_a_spec(r: Registers, v: u8) -> Registers {
    let res = r.a ^ v;
    Registers { a: res, ..r }.with_flags(res == 0, false, false, false)
}

pub open spec fn or_a_spec(r: Registers, v: u8) -> Registers {
    let res = r.a | v;
    Registers { a: res, ..r }.with_flags(res == 0, false, false, false)
}

/// Flags after INC of `v`; C is kept.
pub open spec fn inc_flags(r: Registers, v: u8) -> Registers {
    r.with_flags(wrap8(v + 1) == 0, false, v % 16 == 15, r.cf())
}

/// Flags after DEC of `v`; C is kept.
pub open spec fn dec_flags(r: Registers, v: u8) -> Registers {
    r.with_flags(wrap8(v - 1) == 0, true, v % 16 == 0, r.cf())
}

/// HL + v: Z kept, N clear, H from bit 11, C from bit 15.
pub open spec fn add_hl_spec(r: Registers, v: u16) -> Registers {
    let hl = r.hl_spec();
    r.with_reg16(Reg16::HL, wrap16(hl + v)).with_flags(r.zf(), false, hl % 4096 + v % 4096 > 4095, hl + v > 65535)
}

/// The signed value of an 8-bit offset.
pub open spec fn signed8(v: u8) -> int {
    if v < 128 {
        v as int
    } else {
        v - 256
    }
}

/// Flags of SP + e8: Z and N clear, H and C from the unsigned low-byte addition.
pub open spec fn sp_offset_flags(r: Registers, sp: u16, off: u8) -> Registers {
    r.with_flags(false, false, sp % 16 + off % 16 > 15, sp % 256 + off > 255)
}

pub open spec fn daa_spec(r: Registers) -> Registers {
    let a = r.a;
    if !r.nf() {
        let low: int = if r.hf() || a % 16 > 9 { 6 } else { 0 };
        let carry = r.cf() || a > 0x99;
        let res = wrap8(a + low + (if carry { 0x60int } else { 0 }));
        Registers { a: res, ..r }.with_flags(res == 0, r.nf(), false, carry)
    } else {
        let low: int = if r.hf() { 6 } else { 0 };
        let res = wrap8(a - low - (if r.cf() { 0x60int } else { 0 }));
        Registers { a: res, ..r }.with_flags(res == 0, r.nf(), false, r.cf())
    }
}

fn add_a(regs: &mut Registers, value: u8, carry_in: bool)
    requires
        old(regs).wf(),
    ensures
        final(regs).wf(),
        *final(regs) == add_a_spec(*old(regs), value, carry_in),
{
    let a = regs.a();
    let c: u16 = if carry_in { 1 } else { 0 };
    let sum: u16 = a as u16 + value as u16 + c;
    let result = (sum % 256) as u8;
    regs.set_a(result);
    regs.set_zero_flag(result == 0);
    regs.set_subtract_flag(false);
    regs.set_half_carry_flag((a % 16) as u16 + (value % 16) as u16 + c > 15);
    regs.set_carry_flag(sum > 255);
}

#[verifier::rlimit(30)]
fn sub_a(regs: &mut Registers, value: u8, carry_in: bool, store: bool)
    requires
        old(regs).wf(),
    ensures
        final(regs).wf(),
        *final(regs) == sub_a_spec(*old(regs), value, carry_in, store),
{
    let a = regs.a();
    let c: u8 = if carry_in { 1 } else { 0 };
    let result = a.wrapping_sub(value).wrapping_sub(c);
    proof {
        crate::registers::lemma_wrap8(a - value - c);
        assert(result == wrap8(a - value - c));
    }
    if store {
        regs.set_a(result);
    }
    regs.set_zero_flag(result == 0);
    regs.set_subtract_flag(true);
    regs.set_half_carry_flag((a % 16) < (value % 16) + c);
    regs.set_carry_flag((a as u16) < (value as u16) + (c as u16));
}

fn and_a(regs: &mut Registers, value: u8)
    requires
        old(regs).wf(),
    ensures
        final(regs).wf(),
        *final(regs) == and_a_spec(*old(regs), value),
{
    let result = regs.a() & value;
    regs.set_a(result);
    regs.set_zero_flag(result == 0);
    regs.set_subtract_flag(false);
    regs.set_half_carry_flag(true);
    regs.set_carry_flag(false);
}

fn xor_a(regs: &mut Registers, value: u8)
    requires
        old(regs).wf(),
    ensures
        final(regs).wf(),
        *final(regs) == xor_a_spec(*old(regs), value),
{
    let result = regs.a() ^ value;
    regs.set_a(result);
    regs.set_zero_flag(result == 0);
    regs.set_subtract_flag(false);
    regs.set_half_carry_flag(false);
    regs.set_carry_flag(false);
}

fn or_a(regs: &mut Registers, value: u8)
    requires
        old(regs).wf(),
    ensures
        final(regs).wf(),
        *final(regs) == or_a_spec(*old(regs), value),
{
    let result = regs.a() | value;
    regs.set_a(result);
    regs.set_zero_flag(result == 0);
    regs.set_subtract_flag(false);
    regs.set_half_carry_flag(false);
    regs.set_carry_flag(false);
}

pub open spec fn add_r8_spec(c: Cpu, reg: Reg8) -> Cpu {
    with_regs(c, add_a_spec(c.regs, c.regs.reg8_spec(reg), false))
}

/// ADD A, r8
pub fn add_r8(cpu: &mut Cpu, reg: Reg8)
    requires
        old(cpu).wf(),
    ensures
        final(cpu).wf(),
        *final(cpu) == add_r8_spec(*old(cpu), reg),
{
    let value = cpu.regs.read_reg8(reg);
    add_a(&mut cpu.regs, value, false);
}

pub open spec fn add_imm8_spec(c: Cpu, b: BusModel) -> (Cpu, BusModel) {
    (with_regs(c, add_a_spec(pc_plus(c, 1).regs, bus_read_spec(b, c.regs.pc).1, false)), bus_read_spec(b, c.regs.pc).0)
}

/// ADD A, imm8
pub fn add_imm8(cpu: &mut Cpu, bus: &mut Bus)
    requires
        old(cpu).wf(),
        old(bus).wf(),
    ensures
        final(cpu).wf(),
        final(bus).wf(),
        (*final(cpu), final(bus)@) == add_imm8_spec(*old(cpu), old(bus)@),
{
    let value = bus.read(cpu.regs.pc());
    cpu.regs.inc_pc(1);
    add_a(&mut cpu.regs, value, false);
}

pub open spec fn add_mem_hl_spec(c: Cpu, b: BusModel) -> (Cpu, BusModel) {
    (with_regs(c, add_a_spec(c.regs, bus_read_spec(b, c.regs.hl_spec()).1, false)), bus_read_spec(b, c.regs.hl_spec()).0)
}

/// ADD A, (HL)
pub fn add_mem_hl(cpu: &mut Cpu, bus: &mut Bus)
    requires
        old(cpu).wf(),
        old(bus).wf(),
    ensures
        final(cpu).wf(),
        final(bus).wf(),
        (*final(cpu), final(bus)@) == add_mem_hl_spec(*old(cpu), old(bus)@),
{
    let value = bus.read(cpu.regs.hl());
    add_a(&mut cpu.regs, value, false);
}

pub open spec fn adc_r8_spec(c: Cpu, reg: Reg8) -> Cpu {
    with_regs(c, add_a_spec(c.regs, c.regs.reg8_spec(reg), c.regs.cf()))
}

/// ADC A, r8
pub fn adc_r8(cpu: &mut Cpu, reg: Reg8)
    requires
        old(cpu).wf(),
    ensures
        final(cpu).wf(),
        *final(cpu) == adc_r8_spec(*old(cpu), reg),
{
    let value = cpu.regs.read_reg8(reg);
    let carry = cpu.regs.carry_flag();
    add_a(&mut cpu.regs, value, carry);
}

pub open spec fn adc_imm8_spec(c: Cpu, b: BusModel) -> (Cpu, BusModel) {
    (with_regs(c, add_a_spec(pc_plus(c, 1).regs, bus_read_spec(b, c.regs.pc).1, pc_plus(c, 1).regs.cf())), bus_read_spec(b, c.regs.pc).0)
}

/// ADC A, imm8
pub fn adc_imm8(cpu: &mut Cpu, bus: &mut Bus)
    requires
        old(cpu).wf(),
        old(bus).wf(),
    ensures
        final(cpu).wf(),
        final(bus).wf(),
        (*final(cpu), final(bus)@) == adc_imm8_spec(*old(cpu), old(bus)@),
{
    let value = bus.read(cpu.regs.pc());
    cpu.regs.inc_pc(1);
    let carry = cpu.regs.carry_flag();
    add_a(&mut cpu.regs, value, carry);
}

pub open spec fn adc_mem_hl_spec(c: Cpu, b: BusModel) -> (Cpu, BusModel) {
    (with_regs(c, add_a_spec(c.regs, bus_read_spec(b, c.regs.hl_spec()).1, c.regs.cf())), bus_read_spec(b, c.regs.hl_spec()).0)
}

/// ADC A, (HL)
pub fn adc_mem_hl(cpu: &mut Cpu, bus: &mut Bus)
    requires
        old(cpu).wf(),
        old(bus).wf(),
    ensures
        final(cpu).wf(),
        final(bus).wf(),
        (*final(cpu), final(bus)@) == adc_mem_hl_spec(*old(cpu), old(bus)@),
{
    let value = bus.read(cpu.regs.hl());
    let carry = cpu.regs.carry_flag();
    add_a(&mut cpu.regs, value, carry);
}

pub open spec fn sub_r8_spec(c: Cpu, reg: Reg8) -> Cpu {
    with_regs(c, sub_a_spec(c.regs, c.regs.reg8_spec(reg), false, true))
}

/// SUB, r8
pub fn sub_r8(cpu: &mut Cpu, reg: Reg8)
    requires
        old(cpu).wf(),
    ensures
        final(cpu).wf(),
        *final(cpu) == sub_r8_spec(*old(cpu), reg),
{
    let value = cpu.regs.read_reg8(reg);
    sub_a(&mut cpu.regs, value, false, true);
}

pub open spec fn sub_imm8_spec(c: Cpu, b: BusModel) -> (Cpu, BusModel) {
    (with_regs(c, sub_a_spec(pc_plus(c, 1).regs, bus_read_spec(b, c.regs.pc).1, false, true)), bus_read_spec(b, c.regs.pc).0)
}

/// SUB, imm8
pub fn sub_imm8(cpu: &mut Cpu, bus: &mut Bus)
    requires
        old(cpu).wf(),
        old(bus).wf(),
    ensures
        final(cpu).wf(),
        final(bus).wf(),
        (*final(cpu), final(bus)@) == sub_imm8_spec(*old(cpu), old(bus)@),
{
    let value = bus.read(cpu.regs.pc());
    cpu.regs.inc_pc(1);
    sub_a(&mut cpu.regs, value, false, true);
}

pub open spec fn sub_mem_hl_spec(c: Cpu, b: BusModel) -> (Cpu, BusModel) {
    (with_regs(c, sub_a_spec(c.regs, bus_read_spec(b, c.regs.hl_spec()).1, false, true)), bus_read_spec(b, c.regs.hl_spec()).0)
}

/// SUB, (HL)
pub fn sub_mem_hl(cpu: &mut Cpu, bus: &mut Bus)
    requires
        old(cpu).wf(),
        old(bus).wf(),
    ensures
        final(cpu).wf(),
        final(bus).wf(),
        (*final(cpu), final(bus)@) == sub_mem_hl_spec(*old(cpu), old(bus)@),
{
    let value = bus.read(cpu.regs.hl());
    sub_a(&mut cpu.regs, value, false, true);
}

pub open spec fn sbc_r8_spec(c: Cpu, reg: Reg8) -> Cpu {
    with_regs(c, sub_a_spec(c.regs, c.regs.reg8_spec(reg), c.regs.cf(), true))
}

/// SBC A, r8
pub fn sbc_r8(cpu: &mut Cpu, reg: Reg8)
    requires
        old(cpu).wf(),
    ensures
        final(cpu).wf(),
        *final(cpu) == sbc_r8_spec(*old(cpu), reg),
{
    let value = cpu.regs.read_reg8(reg);
    let carry = cpu.regs.carry_flag();
    sub_a(&mut cpu.regs, value, carry, true);
}

pub open spec fn sbc_imm8_spec(c: Cpu, b: BusModel) -> (Cpu, BusModel) {
    (with_regs(c, sub_a_spec(pc_plus(c, 1).regs, bus_read_spec(b, c.regs.pc).1, pc_plus(c, 1).regs.cf(), true)), bus_read_spec(b, c.regs.pc).0)
}

/// SBC A, imm8
pub fn sbc_imm8(cpu: &mut Cpu, bus: &mut Bus)
    requires
        old(cpu).wf(),
        old(bus).wf(),
    ensures
        final(cpu).wf(),
        final(bus).wf(),
        (*final(cpu), final(bus)@) == sbc_imm8_spec(*old(cpu), old(bus)@),
{
    let value = bus.read(cpu.regs.pc());
    cpu.regs.inc_pc(1);
    let carry = cpu.regs.carry_flag();
    sub_a(&mut cpu.regs, value, carry, true);
}

pub open spec fn sbc_mem_hl_spec(c: Cpu, b: BusModel) -> (Cpu, BusModel) {
    (with_regs(c, sub_a_spec(c.regs, bus_read_spec(b, c.regs.hl_spec()).1, c.regs.cf(), true)), bus_read_spec(b, c.regs.hl_spec()).0)
}

/// SBC A, (HL)
pub fn sbc_mem_hl(cpu: &mut Cpu, bus: &mut Bus)
    requires
        old(cpu).wf(),
        old(bus).wf(),
    ensures
        final(cpu).wf(),
        final(bus).wf(),
        (*final(cpu), final(bus)@) == sbc_mem_hl_spec(*old(cpu), old(bus)@),
{
    let value = bus.read(cpu.regs.hl());
    let carry = cpu.regs.carry_flag();
    sub_a(&mut cpu.regs, value, carry, true);
}

pub open spec fn and_r8_spec(c: Cpu, reg: Reg8) -> Cpu {
    with_regs(c, and_a_spec(c.regs, c.regs.reg8_spec(reg)))
}

/// AND A, r8
pub fn and_r8(cpu: &mut Cpu, reg: Reg8)
    requires
        old(cpu).wf(),
    ensures
        final(cpu).wf(),
        *final(cpu) == and_r8_spec(*old(cpu), reg),
{
    let value = cpu.regs.read_reg8(reg);
    and_a(&mut cpu.regs, value);
}

pub open spec fn and_imm8_spec(c: Cpu, b: BusModel) -> (Cpu, BusModel) {
    (with_regs(c, and_a_spec(pc_plus(c, 1).regs, bus_read_spec(b, c.regs.pc).1)), bus_read_spec(b, c.regs.pc).0)
}

/// AND A, imm8
pub fn and_imm8(cpu: &mut Cpu, bus: &mut Bus)
    requires
        old(cpu).wf(),
        old(bus).wf(),
    ensures
        final(cpu).wf(),
        final(bus).wf(),
        (*final(cpu), final(bus)@) == and_imm8_spec(*old(cpu), old(bus)@),
{
    let value = bus.read(cpu.regs.pc());
    cpu.regs.inc_pc(1);
    and_a(&mut cpu.regs, value);
}

pub open spec fn and_mem_hl_spec(c: Cpu, b: BusModel) -> (Cpu, BusModel) {
    (with_regs(c, and_a_spec(c.regs, bus_read_spec(b, c.regs.hl_spec()).1)), bus_read_spec(b, c.regs.hl_spec()).0)
}

/// AND A, (HL)
pub fn and_mem_hl(cpu: &mut Cpu, bus: &mut Bus)
    requires
        old(cpu).wf(),
        old(bus).wf(),
    ensures
        final(cpu).wf(),
        final(bus).wf(),
        (*final(cpu), final(bus)@) == and_mem_hl_spec(*old(cpu), old(bus)@),
{
    let value = bus.read(cpu.regs.hl());
    and_a(&mut cpu.regs, value);
}

pub open spec fn xor_r8_spec(c: Cpu, reg: Reg8) -> Cpu {
    with_regs(c, xor_a_spec(c.regs, c.regs.reg8_spec(reg)))
}

/// XOR A, r8
pub fn xor_r8(cpu: &mut Cpu, reg: Reg8)
    requires
        old(cpu).wf(),
    ensures
        final(cpu).wf(),
        *final(cpu) == xor_r8_spec(*old(cpu), reg),
{
    let value = cpu.regs.read_reg8(reg);
    xor_a(&mut cpu.regs, value);
}

pub open spec fn xor_imm8_spec(c: Cpu, b: BusModel) -> (Cpu, BusModel) {
    (with_regs(c, xor_a_spec(pc_plus(c, 1).regs, bus_read_spec(b, c.regs.pc).1)), bus_read_spec(b, c.regs.pc).0)
}

/// XOR A, imm8
pub fn xor_imm8(cpu: &mut Cpu, bus: &mut Bus)
    requires
        old(cpu).wf(),
        old(bus).wf(),
    ensures
        final(cpu).wf(),
        final(bus).wf(),
        (*final(cpu), final(bus)@) == xor_imm8_spec(*old(cpu), old(bus)@),
{
    let value = bus.read(cpu.regs.pc());
    cpu.regs.inc_pc(1);
    xor_a(&mut cpu.regs, value);
}

pub open spec fn xor_mem_hl_spec(c: Cpu, b: BusModel) -> (Cpu, BusModel) {
    (with_regs(c, xor_a_spec(c.regs, bus_read_spec(b, c.regs.hl_spec()).1)), bus_read_spec(b, c.regs.hl_spec()).0)
}

/// XOR A, (HL)
pub fn xor_mem_hl(cpu: &mut Cpu, bus: &mut Bus)
    requires
        old(cpu).wf(),
        old(bus).wf(),
    ensures
        final(cpu).wf(),
        final(bus).wf(),
        (*final(cpu), final(bus)@) == xor_mem_hl_spec(*old(cpu), old(bus)@),
{
    let value = bus.read(cpu.regs.hl());
    xor_a(&mut cpu.regs, value);
}

pub open spec fn or_r8_spec(c: Cpu, reg: Reg8) -> Cpu {
    with_regs(c, or_a_spec(c.regs, c.regs.reg8_spec(reg)))
}

/// OR A, r8
pub fn or_r8(cpu: &mut Cpu, reg: Reg8)
    requires
        old(cpu).wf(),
    ensures
        final(cpu).wf(),
        *final(cpu) == or_r8_spec(*old(cpu), reg),
{
    let value = cpu.regs.read_reg8(reg);
    or_a(&mut cpu.regs, value);
}

pub open spec fn or_imm8_spec(c: Cpu, b: BusModel) -> (Cpu, BusModel) {
    (with_regs(c, or_a_spec(pc_plus(c, 1).regs, bus_read_spec(b, c.regs.pc).1)), bus_read_spec(b, c.regs.pc).0)
}

/// OR A, imm8
pub fn or_imm8(cpu: &mut Cpu, bus: &mut Bus)
    requires
        old(cpu).wf(),
        old(bus).wf(),
    ensures
        final(cpu).wf(),
        final(bus).wf(),
        (*final(cpu), final(bus)@) == or_imm8_spec(*old(cpu), old(bus)@),
{
    let value = bus.read(cpu.regs.pc());
    cpu.regs.inc_pc(1);
    or_a(&mut cpu.regs, value);
}

pub open spec fn or_mem_hl_spec(c: Cpu, b: BusModel) -> (Cpu, BusModel) {
    (with_regs(c, or_a_spec(c.regs, bus_read_spec(b, c.regs.hl_spec()).1)), bus_read_spec(b, c.regs.hl_spec()).0)
}

/// OR A, (HL)
pub fn or_mem_hl(cpu: &mut Cpu, bus: &mut Bus)
    requires
        old(cpu).wf(),
        old(bus).wf(),
    ensures
        final(cpu).wf(),
        final(bus).wf(),
        (*final(cpu), final(bus)@) == or_mem_hl_spec(*old(cpu), old(bus)@),
{
    let value = bus.read(cpu.regs.hl());
    or_a(&mut cpu.regs, value);
}

pub open spec fn cp_r8_spec(c: Cpu, reg: Reg8) -> Cpu {
    with_regs(c, sub_a_spec(c.regs, c.regs.reg8_spec(reg), false, false))
}

/// CP A, r8
pub fn cp_r8(cpu: &mut Cpu, reg: Reg8)
    requires
        old(cpu).wf(),
    ensures
        final(cpu).wf(),
        *final(cpu) == cp_r8_spec(*old(cpu), reg),
{
    let value = cpu.regs.read_reg8(reg);
    sub_a(&mut cpu.regs, value, false, false);
}

pub open spec fn cp_imm8_spec(c: Cpu, b: BusModel) -> (Cpu, BusModel) {
    (with_regs(c, sub_a_spec(pc_plus(c, 1).regs, bus_read_spec(b, c.regs.pc).1, false, false)), bus_read_spec(b, c.regs.pc).0)
}

/// CP A, imm8
pub fn cp_imm8(cpu: &mut Cpu, bus: &mut Bus)
    requires
        old(cpu).wf(),
        old(bus).wf(),
    ensures
        final(cpu).wf(),
        final(bus).wf(),
        (*final(cpu), final(bus)@) == cp_imm8_spec(*old(cpu), old(bus)@),
{
    let value = bus.read(cpu.regs.pc());
    cpu.regs.inc_pc(1);
    sub_a(&mut cpu.regs, value, false, false);
}

pub open spec fn cp_mem_hl_spec(c: Cpu, b: BusModel) -> (Cpu, BusModel) {
    (with_regs(c, sub_a_spec(c.regs, bus_read_spec(b, c.regs.hl_spec()).1, false, false)), bus_read_spec(b, c.regs.hl_spec()).0)
}

/// CP A, (HL)
pub fn cp_mem_hl(cpu: &mut Cpu, bus: &mut Bus)
    requires
        old(cpu).wf(),
        old(bus).wf(),
    ensures
        final(cpu).wf(),
        final(bus).wf(),
        (*final(cpu), final(bus)@) == cp_mem_hl_spec(*old(cpu), old(bus)@),
{
    let value = bus.read(cpu.regs.hl());
    sub_a(&mut cpu.regs, value, false, false);
}

pub open spec fn inc_r8_spec(c: Cpu, reg: Reg8) -> Cpu {
    let v = c.regs.reg8_spec(reg);
    with_regs(c, inc_flags(c.regs.with_reg8(reg, wrap8(v + 1)), v))
}

/// INC r8
pub fn inc_r8(cpu: &mut Cpu, reg: Reg8)
    requires
        old(cpu).wf(),
    ensures
        final(cpu).wf(),
        *final(cpu) == inc_r8_spec(*old(cpu), reg),
{
    let value = cpu.regs.read_reg8(reg);
    let result = value.wrapping_add(1);
    cpu.regs.write_reg8(reg, result);
    cpu.regs.set_zero_flag(result == 0);
    cpu.regs.set_subtract_flag(false);
    cpu.regs.set_half_carry_flag(value % 16 == 15);
}

pub open spec fn dec_r8_spec(c: Cpu, reg: Reg8) -> Cpu {
    let v = c.regs.reg8_spec(reg);
    with_regs(c, dec_flags(c.regs.with_reg8(reg, wrap8(v - 1)), v))
}

/// DEC r8
pub fn dec_r8(cpu: &mut Cpu, reg: Reg8)
    requires
        old(cpu).wf(),
    ensures
        final(cpu).wf(),
        *final(cpu) == dec_r8_spec(*old(cpu), reg),
{
    let value = cpu.regs.read_reg8(reg);
    let result = value.wrapping_sub(1);
    proof {
        crate::registers::lemma_wrap8(value - 1);
    }
    cpu.regs.write_reg8(reg, result);
    cpu.regs.set_zero_flag(result == 0);
    cpu.regs.set_subtract_flag(true);
    cpu.regs.set_half_carry_flag(value % 16 == 0);
}

pub open spec fn inc_mem_hl_spec(c: Cpu, b: BusModel) -> (Cpu, BusModel) {
    let hl = c.regs.hl_spec();
    let (b1, v) = bus_read_spec(b, hl);
    (with_regs(c, inc_flags(c.regs, v)), bus_write_spec(b1, hl, wrap8(v + 1)))
}

/// INC (HL)
#[verifier::rlimit(30)]
pub fn inc_mem_hl(cpu: &mut Cpu, bus: &mut Bus)
    requires
        old(cpu).wf(),
        old(bus).wf(),
    ensures
        final(cpu).wf(),
        final(bus).wf(),
        (*final(cpu), final(bus)@) == inc_mem_hl_spec(*old(cpu), old(bus)@),
{
    let addr = cpu.regs.hl();
    let value = bus.read(addr);
    let result = value.wrapping_add(1);
    bus.write(addr, result);
    cpu.regs.set_zero_flag(result == 0);
    cpu.regs.set_subtract_flag(false);
    cpu.regs.set_half_carry_flag(value % 16 == 15);
}

pub open spec fn dec_mem_hl_spec(c: Cpu, b: BusModel) -> (Cpu, BusModel) {
    let hl = c.regs.hl_spec();
    let (b1, v) = bus_read_spec(b, hl);
    (with_regs(c, dec_flags(c.regs, v)), bus_write_spec(b1, hl, wrap8(v - 1)))
}

/// DEC (HL)
#[verifier::rlimit(30)]
pub fn dec_mem_hl(cpu: &mut Cpu, bus: &mut Bus)
    requires
        old(cpu).wf(),
        old(bus).wf(),
    ensures
        final(cpu).wf(),
        final(bus).wf(),
        (*final(cpu), final(bus)@) == dec_mem_hl_spec(*old(cpu), old(bus)@),
{
    let addr = cpu.regs.hl();
    let value = bus.read(addr);
    let result = value.wrapping_sub(1);
    proof {
        crate::registers::lemma_wrap8(value - 1);
    }
    bus.write(addr, result);
    cpu.regs.set_zero_flag(result == 0);
    cpu.regs.set_subtract_flag(true);
    cpu.regs.set_half_carry_flag(value % 16 == 0);
}

/// INC r16 / DEC r16: no flags, one internal m-cycle.
pub open spec fn step_r16_spec(c: Cpu, b: BusModel, reg: Reg16, delta: int) -> (Cpu, BusModel) {
    (with_regs(c, c.regs.with_reg16(reg, wrap16(c.regs.reg16_spec(reg) + delta))), tick_spec(b, 1))
}

/// INC r16
pub fn inc_r16(cpu: &mut Cpu, bus: &mut Bus, reg: Reg16)
    requires
        old(cpu).wf(),
        old(bus).wf(),
    ensures
        final(cpu).wf(),
        final(bus).wf(),
        (*final(cpu), final(bus)@) == step_r16_spec(*old(cpu), old(bus)@, reg, 1),
{
    let value = cpu.regs.read_reg16(reg);
    bus.tick(1);
    cpu.regs.write_reg16(reg, value.wrapping_add(1));
}

/// DEC r16
pub fn dec_r16(cpu: &mut Cpu, bus: &mut Bus, reg: Reg16)
    requires
        old(cpu).wf(),
        old(bus).wf(),
    ensures
        final(cpu).wf(),
        final(bus).wf(),
        (*final(cpu), final(bus)@) == step_r16_spec(*old(cpu), old(bus)@, reg, -1),
{
    let value = cpu.regs.read_reg16(reg);
    bus.tick(1);
    cpu.regs.write_reg16(reg, value.wrapping_sub(1));
}

pub open spec fn step_sp_spec(c: Cpu, b: BusModel, delta: int) -> (Cpu, BusModel) {
    (with_regs(c, Registers { sp: wrap16(c.regs.sp + delta), ..c.regs }), tick_spec(b, 1))
}

/// INC SP
pub fn inc_sp(cpu: &mut Cpu, bus: &mut Bus)
    requires
        old(cpu).wf(),
        old(bus).wf(),
    ensures
        final(cpu).wf(),
        final(bus).wf(),
        (*final(cpu), final(bus)@) == step_sp_spec(*old(cpu), old(bus)@, 1),
{
    bus.tick(1);
    cpu.regs.inc_sp(1);
}

/// DEC SP
pub fn dec_sp(cpu: &mut Cpu, bus: &mut Bus)
    requires
        old(cpu).wf(),
        old(bus).wf(),
    ensures
        final(cpu).wf(),
        final(bus).wf(),
        (*final(cpu), final(bus)@) == step_sp_spec(*old(cpu), old(bus)@, -1),
{
    bus.tick(1);
    cpu.regs.dec_sp(1);
}

fn add_hl(regs: &mut Registers, value: u16)
    requires
        old(regs).wf(),
    ensures
        final(regs).wf(),
        *final(regs) == add_hl_spec(*old(regs), value),
{
    let hl = regs.hl();
    let sum: u32 = hl as u32 + value as u32;
    regs.set_hl((sum % 65536) as u16);
    regs.set_subtract_flag(false);
    regs.set_half_carry_flag((hl % 4096) + (value % 4096) > 4095);
    regs.set_carry_flag(sum > 65535);
}

pub open spec fn add_hl_r16_spec(c: Cpu, b: BusModel, reg: Reg16) -> (Cpu, BusModel) {
    (with_regs(c, add_hl_spec(c.regs, c.regs.reg16_spec(reg))), tick_spec(b, 1))
}

/// ADD HL, r16
pub fn add_hl_r16(cpu: &mut Cpu, bus: &mut Bus, reg: Reg16)
    requires
        old(cpu).wf(),
        old(bus).wf(),
    ensures
        final(cpu).wf(),
        final(bus).wf(),
        (*final(cpu), final(bus)@) == add_hl_r16_spec(*old(cpu), old(bus)@, reg),
{
    let value = cpu.regs.read_reg16(reg);
    bus.tick(1);
    add_hl(&mut cpu.regs, value);
}

pub open spec fn add_hl_sp_spec(c: Cpu, b: BusModel) -> (Cpu, BusModel) {
    (with_regs(c, add_hl_spec(c.regs, c.regs.sp)), tick_spec(b, 1))
}

/// ADD HL, SP
pub fn add_hl_sp(cpu: &mut Cpu, bus: &mut Bus)
    requires
        old(cpu).wf(),
        old(bus).wf(),
    ensures
        final(cpu).wf(),
        final(bus).wf(),
        (*final(cpu), final(bus)@) == add_hl_sp_spec(*old(cpu), old(bus)@),
{
    let value = cpu.regs.sp();
    bus.tick(1);
    add_hl(&mut cpu.regs, value);
}

/// SP + e8 with its flags, from the operand byte.
pub fn sp_plus_offset(regs: &mut Registers, offset: u8) -> (r: u16)
    requires
        old(regs).wf(),
    ensures
        final(regs).wf(),
        r == wrap16(old(regs).sp + signed8(offset)),
        *final(regs) == sp_offset_flags(*old(regs), old(regs).sp, offset),
{
    let sp = regs.sp();
    let ext: u16 = if offset < 128 { offset as u16 } else { offset as u16 + 0xFF00 };
    let result = sp.wrapping_add(ext);
    regs.set_zero_flag(false);
    regs.set_subtract_flag(false);
    regs.set_half_carry_flag((sp % 16) + (offset % 16) as u16 > 15);
    regs.set_carry_flag((sp % 256) + offset as u16 > 255);
    result
}

pub open spec fn add_sp_imm8_spec(c: Cpu, b: BusModel) -> (Cpu, BusModel) {
    let (b1, off) = bus_read_spec(b, c.regs.pc);
    let r = sp_offset_flags(pc_plus(c, 1).regs, c.regs.sp, off);
    (with_regs(c, Registers { sp: wrap16(c.regs.sp + signed8(off)), ..r }), tick_spec(b1, 2))
}

/// ADD SP, e8
pub fn add_sp_imm8(cpu: &mut Cpu, bus: &mut Bus)
    requires
        old(cpu).wf(),
        old(bus).wf(),
    ensures
        final(cpu).wf(),
        final(bus).wf(),
        (*final(cpu), final(bus)@) == add_sp_imm8_spec(*old(cpu), old(bus)@),
{
    let offset = bus.read(cpu.regs.pc());
    cpu.regs.inc_pc(1);
    let result = sp_plus_offset(&mut cpu.regs, offset);
    bus.tick(2);
    cpu.regs.set_sp(result);
}

pub open spec fn daa_cpu_spec(c: Cpu) -> Cpu {
    with_regs(c, daa_spec(c.regs))
}

/// DAA: BCD correction of A after an addition or subtraction.
pub fn daa(cpu: &mut Cpu)
    requires
        old(cpu).wf(),
    ensures
        final(cpu).wf(),
        *final(cpu) == daa_cpu_spec(*old(cpu)),
{
    let a = cpu.regs.a();
    let mut adjust: u8 = 0;
    let result: u8;

    if !cpu.regs.subtract_flag() {
        if cpu.regs.half_carry_flag() || (a % 16) > 9 {
            adjust = adjust + 0x06;
        }
        if cpu.regs.carry_flag() || a > 0x99 {
            adjust = adjust + 0x60;
            cpu.regs.set_carry_flag(true);
        }
        result = a.wrapping_add(adjust);
    } else {
        if cpu.regs.half_carry_flag() {
            adjust = adjust + 0x06;
        }
        if cpu.regs.carry_flag() {
            adjust = adjust + 0x60;
        }
        result = a.wrapping_sub(adjust);
    }

    cpu.regs.set_a(result);
    cpu.regs.set_zero_flag(result == 0);
    cpu.regs.set_half_carry_flag(false);
}

pub open spec fn cpl_spec(c: Cpu) -> Cpu {
    with_regs(c, Registers { a: !c.regs.a, ..c.regs }.with_flags(c.regs.zf(), true, true, c.regs.cf()))
}

/// CPL: A inverted, N and H set.
pub fn cpl(cpu: &mut Cpu)
    requires
        old(cpu).wf(),
    ensures
        final(cpu).wf(),
        *final(cpu) == cpl_spec(*old(cpu)),
{
    let a = cpu.regs.a();
    cpu.regs.set_a(!a);
    cpu.regs.set_subtract_flag(true);
    cpu.regs.set_half_carry_flag(true);
}

pub open spec fn scf_spec(c: Cpu) -> Cpu {
    with_regs(c, c.regs.with_flags(c.regs.zf(), false, false, true))
}

/// SCF: C set, N and H clear.
pub fn scf(cpu: &mut Cpu)
    requires
        old(cpu).wf(),
    ensures
        final(cpu).wf(),
        *final(cpu) == scf_spec(*old(cpu)),
{
    cpu.regs.set_subtract_flag(false);
    cpu.regs.set_half_carry_flag(false);
    cpu.regs.set_carry_flag(true);
}

pub open spec fn ccf_spec(c: Cpu) -> Cpu {
    with_regs(c, c.regs.with_flags(c.regs.zf(), false, false, !c.regs.cf()))
}

/// CCF: C flipped, N and H clear.
pub fn ccf(cpu: &mut Cpu)
    requires
        old(cpu).wf(),
    ensures
        final(cpu).wf(),
        *final(cpu) == ccf_spec(*old(cpu)),
{
    let carry = cpu.regs.carry_flag();
    cpu.regs.set_carry_flag(!carry);
    cpu.regs.set_subtract_flag(false);
    cpu.regs.set_half_carry_flag(false);
}

} // verus!
