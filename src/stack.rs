use vstd::prelude::*;
use crate::bus::{
    Bus, BusModel, bus_read_u16_spec, bus_write_u16_spec, is_ram, lemma_ram_store, lemma_tick_keeps_ram,
    peek_spec, store_spec, tick_spec,
};
use crate::cpu::{Cpu, with_regs};
use crate::registers::{Reg16, Registers, wrap16};

verus! {

pub open spec fn pop_r16_spec(c: Cpu, b: BusModel, reg: Reg16) -> (Cpu, BusModel) {
    let (b1, v) = bus_read_u16_spec(b, c.regs.sp);
    (with_regs(c, Registers { sp: wrap16(c.regs.sp + 2), ..c.regs.with_reg16(reg, v) }), b1)
}

/// POP r16
pub fn pop_r16(cpu: &mut Cpu, bus: &mut Bus, reg: Reg16)
    requires
        old(cpu).wf(),
        old(bus).wf(),
    ensures
        final(cpu).wf(),
        final(bus).wf(),
        (*final(cpu), final(bus)@) == pop_r16_spec(*old(cpu), old(bus)@, reg),
{
    let value = bus.read_u16(cpu.regs.sp());
    cpu.regs.write_reg16(reg, value);
    cpu.regs.inc_sp(2);
}

pub open spec fn push_r16_spec(c: Cpu, b: BusModel, reg: Reg16) -> (Cpu, BusModel) {
    let sp = wrap16(c.regs.sp - 2);
    (
        with_regs(c, Registers { sp, ..c.regs }),
        bus_write_u16_spec(tick_spec(b, 1), sp, c.regs.reg16_spec(reg)),
    )
}

/// PUSH r16: one internal m-cycle, then the high and low bytes below SP.
#[verifier::rlimit(30)]
pub fn push_r16(cpu: &mut Cpu, bus: &mut Bus, reg: Reg16)
    requires
        old(cpu).wf(),
        old(bus).wf(),
    ensures
        final(cpu).wf(),
        final(bus).wf(),
        (*final(cpu), final(bus)@) == push_r16_spec(*old(cpu), old(bus)@, reg),
{
    let sp = cpu.regs.sp().wrapping_sub(2);
    proof {
        crate::registers::lemma_wrap16(cpu.regs.sp - 2);
    }
    let ghost b0 = bus@;
    bus.tick(1);
    let ghost b1 = bus@;
    let value = cpu.regs.read_reg16(reg);
    bus.write_u16(sp, value);
    assert(bus@ == bus_write_u16_spec(b1, sp, value));
    cpu.regs.set_sp(sp);
}


/// PUSH r16 then POP r16 with the stack in work RAM or high RAM restores the CPU exactly
/// (for AF the low nibble of F, which POP masks, is clear already).
#[verifier::rlimit(50)]
pub proof fn lemma_push_pop(c: Cpu, b: BusModel, reg: Reg16)
    requires
        c.wf(),
        crate::bus::ram_sized(b),
        (0xC002 <= c.regs.sp <= 0xE000) || (0xFF82 <= c.regs.sp <= 0xFFFF),
    ensures
        pop_r16_spec(push_r16_spec(c, b, reg).0, push_r16_spec(c, b, reg).1, reg).0 == c,
{
    let v = c.regs.reg16_spec(reg);
    let sp = wrap16(c.regs.sp - 2);
    let sp1 = wrap16(sp + 1);
    assert(sp == c.regs.sp - 2 && sp1 == c.regs.sp - 1);
    assert(is_ram(sp) && is_ram(sp1));
    let lo = (v % 256) as u8;
    let hi = (v / 256) as u8;
    let t0 = tick_spec(b, 1);
    let t1 = tick_spec(t0, 1);
    let w1 = store_spec(t1, sp, lo);
    let t2 = tick_spec(w1, 1);
    let w2 = store_spec(t2, sp1, hi);
    assert(push_r16_spec(c, b, reg).1 == w2);
    lemma_tick_keeps_ram(b, 1, sp);
    lemma_tick_keeps_ram(t0, 1, sp);
    lemma_ram_store(t1, sp, lo, sp1);
    lemma_tick_keeps_ram(w1, 1, sp);
    lemma_ram_store(t2, sp1, hi, sp);
    let r1 = tick_spec(w2, 1);
    lemma_tick_keeps_ram(w2, 1, sp);
    lemma_tick_keeps_ram(w2, 1, sp1);
    let x = peek_spec(r1, sp);
    assert(x == lo);
    let r2 = tick_spec(r1, 1);
    lemma_tick_keeps_ram(r1, 1, sp1);
    let y = peek_spec(r2, sp1);
    assert(y == hi);
    assert(bus_read_u16_spec(w2, sp).1 == crate::registers::pair(y, x));
    assert(crate::registers::pair(y, x) == v);
    if reg == Reg16::AF {
        let f = c.regs.f;
        assert(f & 0xF0 == f) by (bit_vector)
            requires
                f & 0x0F == 0,
        ;
    }
    assert(c.regs.with_reg16(reg, v) == c.regs);
}

} // verus!
