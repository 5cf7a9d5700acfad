use vstd::prelude::*;
use crate::alu::signed8;
use crate::bus::{
    Bus, BusModel, bus_read_spec, bus_read_u16_spec, bus_write_u16_spec, tick_spec,
};
use crate::cpu::{Cpu, InterruptMode, pc_plus, with_regs};
use crate::registers::{Registers, wrap16};

verus! {

/// Branch conditions on Z and C.
#[derive(Clone, Copy, Debug, PartialEq, Eq, Structural)]
pub enum JumpCond {
    Z,
    NZ,
    C,
    NC,
}

pub open spec fn cond_spec(cond: JumpCond, r: Registers) -> bool {
    match cond {
        JumpCond::Z => r.zf(),
        JumpCond::NZ => !r.zf(),
        JumpCond::C => r.cf(),
        JumpCond::NC => !r.cf(),
    }
}

impl JumpCond {
    pub fn check(&self, regs: &Registers) -> (r: bool)
        ensures
            r == cond_spec(*self, *regs),
    {
        match self {
            JumpCond::Z => regs.zero_flag(),
            JumpCond::NZ => !regs.zero_flag(),
            JumpCond::C => regs.carry_flag(),
            JumpCond::NC => !regs.carry_flag(),
        }
    }
}

/// The CPU with PC set to `pc`.
pub open spec fn jump_to(c: Cpu, pc: u16) -> Cpu {
    with_regs(c, Registers { pc, ..c.regs })
}

/// JR [cc,] e8: when taken, PC moves by the signed offset after the operand, with one
/// internal m-cycle.
pub open spec fn jr_spec(c: Cpu, b: BusModel, taken: bool) -> (Cpu, BusModel) {
    let (b1, off) = bus_read_spec(b, c.regs.pc);
    let next = wrap16(c.regs.pc + 1);
    if taken {
        (jump_to(c, wrap16(next + signed8(off))), tick_spec(b1, 1))
    } else {
        (jump_to(c, next), b1)
    }
}

fn relative_target(pc: u16, offset: u8) -> (r: u16)
    ensures
        r == wrap16(pc + signed8(offset)),
{
    let ext: u16 = if offset < 128 { offset as u16 } else { offset as u16 + 0xFF00 };
    pc.wrapping_add(ext)
}

/// JR e8
pub fn jr_imm8(cpu: &mut Cpu, bus: &mut Bus)
    requires
        old(cpu).wf(),
        old(bus).wf(),
    ensures
        final(cpu).wf(),
        final(bus).wf(),
        (*final(cpu), final(bus)@) == jr_spec(*old(cpu), old(bus)@, true),
{
    let offset = bus.read(cpu.regs.pc());
    cpu.regs.inc_pc(1);
    let pc = relative_target(cpu.regs.pc(), offset);
    cpu.regs.set_pc(pc);
    bus.tick(1);
}

/// JR cc, e8
pub fn jr_cond_imm8(cpu: &mut Cpu, bus: &mut Bus, cond: JumpCond)
    requires
        old(cpu).wf(),
        old(bus).wf(),
    ensures
        final(cpu).wf(),
        final(bus).wf(),
        (*final(cpu), final(bus)@) == jr_spec(*old(cpu), old(bus)@, cond_spec(cond, old(cpu).regs)),
{
    let offset = bus.read(cpu.regs.pc());
    cpu.regs.inc_pc(1);

    if cond.check(&cpu.regs) {
        let pc = relative_target(cpu.regs.pc(), offset);
        cpu.regs.set_pc(pc);
        bus.tick(1);
    }
}

/// JP [cc,] imm16: when taken, PC becomes the operand, with one internal m-cycle.
pub open spec fn jp_spec(c: Cpu, b: BusModel, taken: bool) -> (Cpu, BusModel) {
    let (b1, addr) = bus_read_u16_spec(b, c.regs.pc);
    if taken {
        (jump_to(c, addr), tick_spec(b1, 1))
    } else {
        (pc_plus(c, 2), b1)
    }
}

/// JP imm16
pub fn jp_imm16(cpu: &mut Cpu, bus: &mut Bus)
    requires
        old(cpu).wf(),
        old(bus).wf(),
    ensures
        final(cpu).wf(),
        final(bus).wf(),
        (*final(cpu), final(bus)@) == jp_spec(*old(cpu), old(bus)@, true),
{
    let addr = bus.read_u16(cpu.regs.pc());
    cpu.regs.set_pc(addr);
    bus.tick(1);
}

/// JP HL
pub fn jp_hl(cpu: &mut Cpu)
    requires
        old(cpu).wf(),
    ensures
        final(cpu).wf(),
        *final(cpu) == jump_to(*old(cpu), old(cpu).regs.hl_spec()),
{
    let addr = cpu.regs.hl();
    cpu.regs.set_pc(addr);
}

/// JP cc, imm16
pub fn jp_cond_imm16(cpu: &mut Cpu, bus: &mut Bus, cond: JumpCond)
    requires
        old(cpu).wf(),
        old(bus).wf(),
    ensures
        final(cpu).wf(),
        final(bus).wf(),
        (*final(cpu), final(bus)@) == jp_spec(*old(cpu), old(bus)@, cond_spec(cond, old(cpu).regs)),
{
    let addr = bus.read_u16(cpu.regs.pc());
    cpu.regs.inc_pc(2);

    if cond.check(&cpu.regs) {
        cpu.regs.set_pc(addr);
        bus.tick(1);
    }
}

/// Pushes `ret` below SP after one internal m-cycle and jumps to `target`.
pub open spec fn call_to_spec(c: Cpu, b: BusModel, ret: u16, target: u16) -> (Cpu, BusModel) {
    let sp = wrap16(c.regs.sp - 2);
    (
        with_regs(c, Registers { sp, pc: target, ..c.regs }),
        bus_write_u16_spec(tick_spec(b, 1), sp, ret),
    )
}

/// CALL [cc,] imm16
pub open spec fn call_spec(c: Cpu, b: BusModel, taken: bool) -> (Cpu, BusModel) {
    let (b1, addr) = bus_read_u16_spec(b, c.regs.pc);
    if taken {
        call_to_spec(c, b1, wrap16(c.regs.pc + 2), addr)
    } else {
        (pc_plus(c, 2), b1)
    }
}

#[verifier::rlimit(30)]
fn call_to(cpu: &mut Cpu, bus: &mut Bus, ret_addr: u16, target: u16)
    requires
        old(cpu).wf(),
        old(bus).wf(),
    ensures
        final(cpu).wf(),
        final(bus).wf(),
        (*final(cpu), final(bus)@) == call_to_spec(*old(cpu), old(bus)@, ret_addr, target),
{
    bus.tick(1);
    let sp = cpu.regs.sp().wrapping_sub(2);
    proof {
        crate::registers::lemma_wrap16(cpu.regs.sp - 2);
    }
    bus.write_u16(sp, ret_addr);
    cpu.regs.set_sp(sp);
    cpu.regs.set_pc(target);
}

/// CALL imm16
pub fn call_imm16(cpu: &mut Cpu, bus: &mut Bus)
    requires
        old(cpu).wf(),
        old(bus).wf(),
    ensures
        final(cpu).wf(),
        final(bus).wf(),
        (*final(cpu), final(bus)@) == call_spec(*old(cpu), old(bus)@, true),
{
    let addr = bus.read_u16(cpu.regs.pc());
    cpu.regs.inc_pc(2);
    let ret_addr = cpu.regs.pc();
    call_to(cpu, bus, ret_addr, addr);
}

/// CALL cc, imm16
pub fn call_cond_imm16(cpu: &mut Cpu, bus: &mut Bus, cond: JumpCond)
    requires
        old(cpu).wf(),
        old(bus).wf(),
    ensures
        final(cpu).wf(),
        final(bus).wf(),
        (*final(cpu), final(bus)@) == call_spec(*old(cpu), old(bus)@, cond_spec(cond, old(cpu).regs)),
{
    let addr = bus.read_u16(cpu.regs.pc());
    cpu.regs.inc_pc(2);

    if cond.check(&cpu.regs) {
        let ret_addr = cpu.regs.pc();
        call_to(cpu, bus, ret_addr, addr);
    }
}

/// RET: pops PC, then one internal m-cycle.
pub open spec fn ret_spec(c: Cpu, b: BusModel) -> (Cpu, BusModel) {
    let (b1, addr) = bus_read_u16_spec(b, c.regs.sp);
    (with_regs(c, Registers { sp: wrap16(c.regs.sp + 2), pc: addr, ..c.regs }), tick_spec(b1, 1))
}

/// RET
pub fn ret(cpu: &mut Cpu, bus: &mut Bus)
    requires
        old(cpu).wf(),
        old(bus).wf(),
    ensures
        final(cpu).wf(),
        final(bus).wf(),
        (*final(cpu), final(bus)@) == ret_spec(*old(cpu), old(bus)@),
{
    let ret_addr = bus.read_u16(cpu.regs.sp());
    cpu.regs.inc_sp(2);
    cpu.regs.set_pc(ret_addr);
    bus.tick(1);
}

/// RET cc: one internal m-cycle to test the condition, then a RET when it holds.
pub open spec fn ret_cond_spec(c: Cpu, b: BusModel, cond: JumpCond) -> (Cpu, BusModel) {
    let b1 = tick_spec(b, 1);
    if cond_spec(cond, c.regs) {
        ret_spec(c, b1)
    } else {
        (c, b1)
    }
}

/// RET cc
pub fn ret_cond(cpu: &mut Cpu, bus: &mut Bus, cond: JumpCond)
    requires
        old(cpu).wf(),
        old(bus).wf(),
    ensures
        final(cpu).wf(),
        final(bus).wf(),
        (*final(cpu), final(bus)@) == ret_cond_spec(*old(cpu), old(bus)@, cond),
{
    bus.tick(1);
    if cond.check(&cpu.regs) {
        ret(cpu, bus);
    }
}

pub open spec fn reti_spec(c: Cpu, b: BusModel) -> (Cpu, BusModel) {
    let (c1, b1) = ret_spec(c, b);
    (Cpu { ime: InterruptMode::Enabled, ..c1 }, b1)
}

/// RETI: RET with interrupts enabled at once.
pub fn reti(cpu: &mut Cpu, bus: &mut Bus)
    requires
        old(cpu).wf(),
        old(bus).wf(),
    ensures
        final(cpu).wf(),
        final(bus).wf(),
        (*final(cpu), final(bus)@) == reti_spec(*old(cpu), old(bus)@),
{
    ret(cpu, bus);
    cpu.ime = InterruptMode::Enabled;
}

/// RST vec
pub fn rst(cpu: &mut Cpu, bus: &mut Bus, vec: u8)
    requires
        old(cpu).wf(),
        old(bus).wf(),
    ensures
        final(cpu).wf(),
        final(bus).wf(),
        (*final(cpu), final(bus)@) == call_to_spec(*old(cpu), old(bus)@, old(cpu).regs.pc, vec as u16),
{
    let ret_addr = cpu.regs.pc();
    call_to(cpu, bus, ret_addr, vec as u16);
}

} // verus!
