use vstd::prelude::*;
use crate::alu::{signed8, sp_offset_flags, sp_plus_offset};
use crate::bus::{
    Bus, BusModel, bus_read_spec, bus_read_u16_spec, bus_write_spec, bus_write_u16_spec, tick_spec,
};
use crate::cpu::{Cpu, pc_plus, with_regs};
use crate::registers::{Reg16, Reg8, Registers, wrap16};

verus! {

pub open spec fn ld_r8_r8_spec(c: Cpu, dest: Reg8, src: Reg8) -> Cpu {
    with_regs(c, c.regs.with_reg8(dest, c.regs.reg8_spec(src)))
}

/// LD r8, r8
pub fn ld_r8_r8(cpu: &mut Cpu, dest: Reg8, src: Reg8)
    requires
        old(cpu).wf(),
    ensures
        final(cpu).wf(),
        *final(cpu) == ld_r8_r8_spec(*old(cpu), dest, src),
{
    let value = cpu.regs.read_reg8(src);
    cpu.regs.write_reg8(dest, value);
}

pub open spec fn ld_r8_imm8_spec(c: Cpu, b: BusModel, reg: Reg8) -> (Cpu, BusModel) {
    let (b1, v) = bus_read_spec(b, c.regs.pc);
    (with_regs(c, pc_plus(c, 1).regs.with_reg8(reg, v)), b1)
}

/// LD r8, imm8
pub fn ld_r8_imm8(cpu: &mut Cpu, bus: &mut Bus, reg: Reg8)
    requires
        old(cpu).wf(),
        old(bus).wf(),
    ensures
        final(cpu).wf(),
        final(bus).wf(),
        (*final(cpu), final(bus)@) == ld_r8_imm8_spec(*old(cpu), old(bus)@, reg),
{
    let value = bus.read(cpu.regs.pc());
    cpu.regs.inc_pc(1);
    cpu.regs.write_reg8(reg, value);
}

pub open spec fn ld_r8_mem_r16_spec(c: Cpu, b: BusModel, dest: Reg8, addr_reg: Reg16) -> (Cpu, BusModel) {
    let (b1, v) = bus_read_spec(b, c.regs.reg16_spec(addr_reg));
    (with_regs(c, c.regs.with_reg8(dest, v)), b1)
}

/// LD r8, (r16)
pub fn ld_r8_mem_r16(cpu: &mut Cpu, bus: &mut Bus, dest: Reg8, addr_reg: Reg16)
    requires
        old(cpu).wf(),
        old(bus).wf(),
    ensures
        final(cpu).wf(),
        final(bus).wf(),
        (*final(cpu), final(bus)@) == ld_r8_mem_r16_spec(*old(cpu), old(bus)@, dest, addr_reg),
{
    let addr = cpu.regs.read_reg16(addr_reg);
    let value = bus.read(addr);
    cpu.regs.write_reg8(dest, value);
}

pub open spec fn ld_r16_imm16_spec(c: Cpu, b: BusModel, reg: Reg16) -> (Cpu, BusModel) {
    let (b1, v) = bus_read_u16_spec(b, c.regs.pc);
    (with_regs(c, pc_plus(c, 2).regs.with_reg16(reg, v)), b1)
}

/// LD r16, imm16
pub fn ld_r16_imm16(cpu: &mut Cpu, bus: &mut Bus, reg: Reg16)
    requires
        old(cpu).wf(),
        old(bus).wf(),
    ensures
        final(cpu).wf(),
        final(bus).wf(),
        (*final(cpu), final(bus)@) == ld_r16_imm16_spec(*old(cpu), old(bus)@, reg),
{
    let value = bus.read_u16(cpu.regs.pc());
    cpu.regs.inc_pc(2);
    cpu.regs.write_reg16(reg, value);
}

pub open spec fn ld_mem_r16_r8_spec(c: Cpu, b: BusModel, addr_reg: Reg16, src: Reg8) -> (Cpu, BusModel) {
    (c, bus_write_spec(b, c.regs.reg16_spec(addr_reg), c.regs.reg8_spec(src)))
}

/// LD (r16), r8
pub fn ld_mem_r16_r8(cpu: &mut Cpu, bus: &mut Bus, addr_reg: Reg16, src: Reg8)
    requires
        old(cpu).wf(),
        old(bus).wf(),
    ensures
        final(cpu).wf(),
        final(bus).wf(),
        (*final(cpu), final(bus)@) == ld_mem_r16_r8_spec(*old(cpu), old(bus)@, addr_reg, src),
{
    let addr = cpu.regs.read_reg16(addr_reg);
    let value = cpu.regs.read_reg8(src);
    bus.write(addr, value);
}

pub open spec fn ld_mem_r16_imm8_spec(c: Cpu, b: BusModel, addr_reg: Reg16) -> (Cpu, BusModel) {
    let (b1, v) = bus_read_spec(b, c.regs.pc);
    (pc_plus(c, 1), bus_write_spec(b1, c.regs.reg16_spec(addr_reg), v))
}

/// LD (r16), imm8
pub fn ld_mem_r16_imm8(cpu: &mut Cpu, bus: &mut Bus, addr_reg: Reg16)
    requires
        old(cpu).wf(),
        old(bus).wf(),
    ensures
        final(cpu).wf(),
        final(bus).wf(),
        (*final(cpu), final(bus)@) == ld_mem_r16_imm8_spec(*old(cpu), old(bus)@, addr_reg),
{
    let addr = cpu.regs.read_reg16(addr_reg);
    let value = bus.read(cpu.regs.pc());
    cpu.regs.inc_pc(1);
    bus.write(addr, value);
}

/// LD (HL±), A
pub open spec fn ld_mem_hl_a_spec(c: Cpu, b: BusModel, delta: int) -> (Cpu, BusModel) {
    let hl = c.regs.hl_spec();
    (with_regs(c, c.regs.with_reg16(Reg16::HL, wrap16(hl + delta))), bus_write_spec(b, hl, c.regs.a))
}

/// LD (HL+), A
pub fn ld_mem_hli_a(cpu: &mut Cpu, bus: &mut Bus)
    requires
        old(cpu).wf(),
        old(bus).wf(),
    ensures
        final(cpu).wf(),
        final(bus).wf(),
        (*final(cpu), final(bus)@) == ld_mem_hl_a_spec(*old(cpu), old(bus)@, 1),
{
    let addr = cpu.regs.hl();
    let a = cpu.regs.a();
    bus.write(addr, a);
    cpu.regs.set_hl(addr.wrapping_add(1));
}

/// LD (HL-), A
pub fn ld_mem_hld_a(cpu: &mut Cpu, bus: &mut Bus)
    requires
        old(cpu).wf(),
        old(bus).wf(),
    ensures
        final(cpu).wf(),
        final(bus).wf(),
        (*final(cpu), final(bus)@) == ld_mem_hl_a_spec(*old(cpu), old(bus)@, -1),
{
    let addr = cpu.regs.hl();
    let a = cpu.regs.a();
    bus.write(addr, a);
    cpu.regs.set_hl(addr.wrapping_sub(1));
}

/// LD A, (HL±)
pub open spec fn ld_a_mem_hl_spec(c: Cpu, b: BusModel, delta: int) -> (Cpu, BusModel) {
    let hl = c.regs.hl_spec();
    let (b1, v) = bus_read_spec(b, hl);
    (with_regs(c, Registers { a: v, ..c.regs }.with_reg16(Reg16::HL, wrap16(hl + delta))), b1)
}

/// LD A, (HL+)
pub fn ld_a_mem_hli(cpu: &mut Cpu, bus: &mut Bus)
    requires
        old(cpu).wf(),
        old(bus).wf(),
    ensures
        final(cpu).wf(),
        final(bus).wf(),
        (*final(cpu), final(bus)@) == ld_a_mem_hl_spec(*old(cpu), old(bus)@, 1),
{
    let addr = cpu.regs.hl();
    let value = bus.read(addr);
    cpu.regs.set_a(value);
    cpu.regs.set_hl(addr.wrapping_add(1));
}

/// LD A, (HL-)
pub fn ld_a_mem_hld(cpu: &mut Cpu, bus: &mut Bus)
    requires
        old(cpu).wf(),
        old(bus).wf(),
    ensures
        final(cpu).wf(),
        final(bus).wf(),
        (*final(cpu), final(bus)@) == ld_a_mem_hl_spec(*old(cpu), old(bus)@, -1),
{
    let addr = cpu.regs.hl();
    let value = bus.read(addr);
    cpu.regs.set_a(value);
    cpu.regs.set_hl(addr.wrapping_sub(1));
}

pub open spec fn ld_mem_imm16_sp_spec(c: Cpu, b: BusModel) -> (Cpu, BusModel) {
    let (b1, addr) = bus_read_u16_spec(b, c.regs.pc);
    (pc_plus(c, 2), bus_write_u16_spec(b1, addr, c.regs.sp))
}

/// LD (imm16), SP
pub fn ld_mem_imm16_sp(cpu: &mut Cpu, bus: &mut Bus)
    requires
        old(cpu).wf(),
        old(bus).wf(),
    ensures
        final(cpu).wf(),
        final(bus).wf(),
        (*final(cpu), final(bus)@) == ld_mem_imm16_sp_spec(*old(cpu), old(bus)@),
{
    let addr = bus.read_u16(cpu.regs.pc());
    cpu.regs.inc_pc(2);
    bus.write_u16(addr, cpu.regs.sp());
}

pub open spec fn ld_sp_imm16_spec(c: Cpu, b: BusModel) -> (Cpu, BusModel) {
    let (b1, v) = bus_read_u16_spec(b, c.regs.pc);
    (with_regs(c, Registers { sp: v, ..pc_plus(c, 2).regs }), b1)
}

/// LD SP, imm16
pub fn ld_sp_imm16(cpu: &mut Cpu, bus: &mut Bus)
    requires
        old(cpu).wf(),
        old(bus).wf(),
    ensures
        final(cpu).wf(),
        final(bus).wf(),
        (*final(cpu), final(bus)@) == ld_sp_imm16_spec(*old(cpu), old(bus)@),
{
    let value = bus.read_u16(cpu.regs.pc());
    cpu.regs.inc_pc(2);
    cpu.regs.set_sp(value);
}

pub open spec fn ld_hl_sp_imm8_spec(c: Cpu, b: BusModel) -> (Cpu, BusModel) {
    let (b1, off) = bus_read_spec(b, c.regs.pc);
    let r = sp_offset_flags(pc_plus(c, 1).regs, c.regs.sp, off);
    (with_regs(c, r.with_reg16(Reg16::HL, wrap16(c.regs.sp + signed8(off)))), tick_spec(b1, 1))
}

/// LD HL, SP+e8
pub fn ld_hl_sp_imm8(cpu: &mut Cpu, bus: &mut Bus)
    requires
        old(cpu).wf(),
        old(bus).wf(),
    ensures
        final(cpu).wf(),
        final(bus).wf(),
        (*final(cpu), final(bus)@) == ld_hl_sp_imm8_spec(*old(cpu), old(bus)@),
{
    let offset = bus.read(cpu.regs.pc());
    cpu.regs.inc_pc(1);
    bus.tick(1);
    let result = sp_plus_offset(&mut cpu.regs, offset);
    cpu.regs.set_hl(result);
}

pub open spec fn ld_sp_hl_spec(c: Cpu, b: BusModel) -> (Cpu, BusModel) {
    (with_regs(c, Registers { sp: c.regs.hl_spec(), ..c.regs }), tick_spec(b, 1))
}

/// LD SP, HL
pub fn ld_sp_hl(cpu: &mut Cpu, bus: &mut Bus)
    requires
        old(cpu).wf(),
        old(bus).wf(),
    ensures
        final(cpu).wf(),
        final(bus).wf(),
        (*final(cpu), final(bus)@) == ld_sp_hl_spec(*old(cpu), old(bus)@),
{
    bus.tick(1);
    let hl = cpu.regs.hl();
    cpu.regs.set_sp(hl);
}

/// The I/O address 0xFF00 + offset.
pub open spec fn high_addr(offset: u8) -> u16 {
    (0xFF00 + offset) as u16
}

pub open spec fn ldh_mem_imm8_a_spec(c: Cpu, b: BusModel) -> (Cpu, BusModel) {
    let (b1, off) = bus_read_spec(b, c.regs.pc);
    (pc_plus(c, 1), bus_write_spec(b1, high_addr(off), c.regs.a))
}

/// LDH (imm8), A
pub fn ldh_mem_imm8_a(cpu: &mut Cpu, bus: &mut Bus)
    requires
        old(cpu).wf(),
        old(bus).wf(),
    ensures
        final(cpu).wf(),
        final(bus).wf(),
        (*final(cpu), final(bus)@) == ldh_mem_imm8_a_spec(*old(cpu), old(bus)@),
{
    let offset = bus.read(cpu.regs.pc());
    cpu.regs.inc_pc(1);
    let addr = 0xFF00u16 + offset as u16;
    let a = cpu.regs.a();
    bus.write(addr, a);
}

pub open spec fn ldh_a_mem_imm8_spec(c: Cpu, b: BusModel) -> (Cpu, BusModel) {
    let (b1, off) = bus_read_spec(b, c.regs.pc);
    let (b2, v) = bus_read_spec(b1, high_addr(off));
    (with_regs(c, Registers { a: v, ..pc_plus(c, 1).regs }), b2)
}

/// LDH A, (imm8)
pub fn ldh_a_mem_imm8(cpu: &mut Cpu, bus: &mut Bus)
    requires
        old(cpu).wf(),
        old(bus).wf(),
    ensures
        final(cpu).wf(),
        final(bus).wf(),
        (*final(cpu), final(bus)@) == ldh_a_mem_imm8_spec(*old(cpu), old(bus)@),
{
    let offset = bus.read(cpu.regs.pc());
    cpu.regs.inc_pc(1);
    let addr = 0xFF00u16 + offset as u16;
    let value = bus.read(addr);
    cpu.regs.set_a(value);
}

pub open spec fn ldh_mem_c_a_spec(c: Cpu, b: BusModel) -> (Cpu, BusModel) {
    (c, bus_write_spec(b, high_addr(c.regs.c), c.regs.a))
}

/// LDH (C), A
pub fn ldh_mem_c_a(cpu: &mut Cpu, bus: &mut Bus)
    requires
        old(cpu).wf(),
        old(bus).wf(),
    ensures
        final(cpu).wf(),
        final(bus).wf(),
        (*final(cpu), final(bus)@) == ldh_mem_c_a_spec(*old(cpu), old(bus)@),
{
    let addr = 0xFF00u16 + cpu.regs.c() as u16;
    let a = cpu.regs.a();
    bus.write(addr, a);
}

pub open spec fn ldh_a_mem_c_spec(c: Cpu, b: BusModel) -> (Cpu, BusModel) {
    let (b1, v) = bus_read_spec(b, high_addr(c.regs.c));
    (with_regs(c, Registers { a: v, ..c.regs }), b1)
}

/// LDH A, (C)
pub fn ldh_a_mem_c(cpu: &mut Cpu, bus: &mut Bus)
    requires
        old(cpu).wf(),
        old(bus).wf(),
    ensures
        final(cpu).wf(),
        final(bus).wf(),
        (*final(cpu), final(bus)@) == ldh_a_mem_c_spec(*old(cpu), old(bus)@),
{
    let addr = 0xFF00u16 + cpu.regs.c() as u16;
    let value = bus.read(addr);
    cpu.regs.set_a(value);
}

pub open spec fn ld_mem_imm16_a_spec(c: Cpu, b: BusModel) -> (Cpu, BusModel) {
    let (b1, addr) = bus_read_u16_spec(b, c.regs.pc);
    (pc_plus(c, 2), bus_write_spec(b1, addr, c.regs.a))
}

/// LD (imm16), A
pub fn ld_mem_imm16_a(cpu: &mut Cpu, bus: &mut Bus)
    requires
        old(cpu).wf(),
        old(bus).wf(),
    ensures
        final(cpu).wf(),
        final(bus).wf(),
        (*final(cpu), final(bus)@) == ld_mem_imm16_a_spec(*old(cpu), old(bus)@),
{
    let addr = bus.read_u16(cpu.regs.pc());
    cpu.regs.inc_pc(2);
    let a = cpu.regs.a();
    bus.write(addr, a);
}

pub open spec fn ld_a_mem_imm16_spec(c: Cpu, b: BusModel) -> (Cpu, BusModel) {
    let (b1, addr) = bus_read_u16_spec(b, c.regs.pc);
    let (b2, v) = bus_read_spec(b1, addr);
    (with_regs(c, Registers { a: v, ..pc_plus(c, 2).regs }), b2)
}

/// LD A, (imm16)
pub fn ld_a_mem_imm16(cpu: &mut Cpu, bus: &mut Bus)
    requires
        old(cpu).wf(),
        old(bus).wf(),
    ensures
        final(cpu).wf(),
        final(bus).wf(),
        (*final(cpu), final(bus)@) == ld_a_mem_imm16_spec(*old(cpu), old(bus)@),
{
    let addr = bus.read_u16(cpu.regs.pc());
    cpu.regs.inc_pc(2);
    let value = bus.read(addr);
    cpu.regs.set_a(value);
}


/// LD r, imm8, then LD (HL), r, then LD r', (HL) with HL in work RAM or high RAM gives r'
/// the immediate byte (r must not be H or L, which would move HL).
pub proof fn lemma_load_store_load(c: Cpu, b: BusModel, r: Reg8, dest: Reg8)
    requires
        crate::bus::ram_sized(b),
        crate::bus::is_ram(c.regs.hl_spec()),
        r != Reg8::H,
        r != Reg8::L,
    ensures
        ({
            let (c1, b1) = ld_r8_imm8_spec(c, b, r);
            let (c2, b2) = ld_mem_r16_r8_spec(c1, b1, Reg16::HL, r);
            let (c3, b3) = ld_r8_mem_r16_spec(c2, b2, dest, Reg16::HL);
            c3.regs.reg8_spec(dest) == bus_read_spec(b, c.regs.pc).1
        }),
{
    let (c1, b1) = ld_r8_imm8_spec(c, b, r);
    assert(c1.regs.hl_spec() == c.regs.hl_spec());
    crate::bus::lemma_ram_round_trip(b1, c.regs.hl_spec(), c1.regs.reg8_spec(r));
}

} // verus!
