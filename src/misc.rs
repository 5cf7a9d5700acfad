use vstd::prelude::*;
use crate::cpu::{Cpu, InterruptMode, pc_plus};

verus! {

/// STOP: skips its operand byte; low-power mode is not modelled.
pub fn stop(cpu: &mut Cpu)
    ensures
        *final(cpu) == pc_plus(*old(cpu), 1),
{
    cpu.regs.inc_pc(1);
}

/// HALT: the CPU idles until an interrupt is pending.
pub fn halt(cpu: &mut Cpu)
    ensures
        *final(cpu) == (Cpu { halted: true, ..*old(cpu) }),
{
    cpu.halted = true;
}

/// DI
pub fn di(cpu: &mut Cpu)
    ensures
        *final(cpu) == (Cpu { ime: InterruptMode::Disabled, ..*old(cpu) }),
{
    cpu.ime = InterruptMode::Disabled;
}

/// EI: takes effect after the next instruction.
pub fn ei(cpu: &mut Cpu)
    ensures
        *final(cpu) == (Cpu { ime: InterruptMode::Pending, ..*old(cpu) }),
{
    cpu.ime = InterruptMode::Pending;
}

} // verus!
