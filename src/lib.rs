use vstd::prelude::*;

pub mod registers;
pub mod timer;
pub mod joypad;
pub mod mbc;
pub mod ppu;
pub mod bus;
pub mod cpu;
pub mod alu;
pub mod bits;
pub mod load;
pub mod stack;
pub mod misc;
pub mod control;
pub mod debugger;

use crate::bus::{Bus, BusModel, bus_initial, peek_spec};
use crate::cpu::{Cpu, step_spec};
use crate::joypad::{JoypadButton, joypad_set_spec};
use crate::mbc::{
    CARTRIDGE_TYPE_ADDR, MbcType, loaded_model, supported_type, unsupported_message_spec,
};
use crate::registers::wrap16;

verus! {

/// The library's errors: a cartridge this core cannot run, and an opcode that the
/// instruction set leaves unused (with the address it was fetched from).
#[derive(Debug)]
pub enum NemuError {
    InvalidRom(String),
    UnknownOpcode { opcode: u8, pc: u16 },
}

/// The emulated machine: a CPU and the bus it drives.
pub struct Nemu {
    pub cpu: Cpu,
    pub bus: Bus,
}

/// The machine after `reset`: volatile state cleared, cartridge and clock kept.
pub open spec fn reset_spec(c: Cpu, b: BusModel) -> (Cpu, BusModel) {
    (Cpu::initial(), bus_initial(b.mbc, b.cycles))
}

/// Resetting twice leaves the machine as resetting once does.
pub proof fn lemma_reset_idempotent(c: Cpu, b: BusModel)
    ensures
        reset_spec(reset_spec(c, b).0, reset_spec(c, b).1) == reset_spec(c, b),
{
}

impl Nemu {
    pub open spec fn wf(&self) -> bool {
        self.cpu.wf() && self.bus.wf()
    }

    /// Power-on: zeroed volatile state, an empty 32 KiB cartridge, start-up program mapped.
    pub fn new() -> (r: Self)
        ensures
            r.wf(),
            r.cpu == Cpu::initial(),
            r.bus@ == bus_initial(loaded_model(Seq::new(0x8000, |i: int| 0u8)), 0),
    {
        Nemu { cpu: Cpu::new(), bus: Bus::new() }
    }

    pub fn reset(&mut self)
        requires
            old(self).wf(),
        ensures
            final(self).wf(),
            (final(self).cpu, final(self).bus@) == reset_spec(old(self).cpu, old(self).bus@),
    {
        self.cpu.reset();
        self.bus.reset();
    }

    /// Runs one instruction, interrupt service or halted m-cycle and returns the clock
    /// cycles it took (4 per m-cycle, for pacing at 4,194,304 per second); an unused opcode
    /// is reported with the address it was fetched from.
    #[verifier::rlimit(30)]
    pub fn step(&mut self) -> (r: Result<u8, NemuError>)
        requires
            old(self).wf(),
        ensures
            final(self).wf(),
            ({
                let (c, b, trap) = step_spec(old(self).cpu, old(self).bus@);
                &&& final(self).cpu == c
                &&& final(self).bus@ == b
                &&& match trap {
                    None => r == Ok::<u8, NemuError>(((4 * (b.cycles - old(self).bus@.cycles)) % 256) as u8),
                    Some(op) => r matches Err(NemuError::UnknownOpcode { opcode, pc }) && opcode
                        == op && pc == wrap16(c.regs.pc - 1),
                }
            }),
    {
        let start = self.bus.clock;
        match self.cpu.step(&mut self.bus) {
            None => {
                let m = self.bus.clock.wrapping_sub(start);
                let r = m.wrapping_mul(4);
                proof {
                    let x = self.bus@.cycles as int;
                    let y = old(self).bus@.cycles as int;
                    vstd::arithmetic::div_mod::lemma_sub_mod_noop(x, y, 256);
                    assert(m == ((x % 256) - (y % 256)) % 256);
                    vstd::arithmetic::div_mod::lemma_mul_mod_noop_right(4, x - y, 256);
                    assert(r == (4 * m) % 256);
                }
                Ok(r)
            },
            Some(opcode) => Err(NemuError::UnknownOpcode { opcode, pc: self.cpu.regs.pc.wrapping_sub(1) }),
        }
    }

    /// Installs the cartridge; the type byte at 0x0147 picks the controller.
    pub fn load_cartridge(&mut self, bytes: &[u8]) -> (r: Result<(), NemuError>)
        requires
            old(self).wf(),
        ensures
            final(self).wf(),
            r.is_ok() <==> bytes@.len() > CARTRIDGE_TYPE_ADDR && supported_type(
                bytes@[CARTRIDGE_TYPE_ADDR as int],
            ),
            r.is_ok() ==> final(self).bus@ == (BusModel { mbc: loaded_model(bytes@), ..old(self).bus@ }),
            r.is_err() ==> final(self).bus@ == old(self).bus@,
            r.is_err() ==> (r matches Err(NemuError::InvalidRom(_))),
            bytes@.len() > CARTRIDGE_TYPE_ADDR && !supported_type(bytes@[CARTRIDGE_TYPE_ADDR as int])
                ==> (r matches Err(NemuError::InvalidRom(msg)) && msg@ == unsupported_message_spec(
                bytes@[CARTRIDGE_TYPE_ADDR as int],
            )),
            final(self).cpu == old(self).cpu,
    {
        let data = vstd::slice::slice_to_vec(bytes);
        match MbcType::new(data) {
            Ok(mbc) => {
                self.bus.load_cartridge(mbc);
                Ok(())
            },
            Err(e) => Err(e),
        }
    }

    /// Presses or releases a key line; a press on the selected side raises the joypad
    /// interrupt at the next m-cycle.
    pub fn set_joypad(&mut self, input: JoypadButton, pressed: bool, is_direction: bool)
        requires
            old(self).wf(),
        ensures
            final(self).wf(),
            final(self).cpu == old(self).cpu,
            final(self).bus@ == (BusModel {
                joypad: joypad_set_spec(old(self).bus@.joypad, input, pressed, is_direction),
                ..old(self).bus@
            }),
    {
        self.bus.joypad.set_joypad(input, pressed, is_direction);
    }

    /// Whether a frame was completed since the last call; clears the flag.
    pub fn has_frame(&mut self) -> (r: bool)
        requires
            old(self).wf(),
        ensures
            final(self).wf(),
            r == old(self).bus@.ppu.frame_ready,
            final(self).cpu == old(self).cpu,
            final(self).bus@ == (BusModel {
                ppu: crate::ppu::PpuModel { frame_ready: false, ..old(self).bus@.ppu },
                ..old(self).bus@
            }),
    {
        if self.bus.ppu.frame_ready {
            self.bus.ppu.frame_ready = false;
            true
        } else {
            false
        }
    }

    /// The 160x144 palette indices, row-major.
    pub fn get_framebuffer(&self) -> (r: &[u8])
        ensures
            r@ == self.bus@.ppu.framebuffer,
    {
        self.bus.ppu.framebuffer.as_slice()
    }

    /// The byte at `addr`, without advancing the clock.
    pub fn read_debug(&self, addr: u16) -> (r: u8)
        requires
            self.wf(),
        ensures
            r == peek_spec(self.bus@, addr),
    {
        self.bus.peek(addr)
    }

    /// The 8-bit registers as text.
    pub fn get_regs_snapshot(&self) -> (r: String)
        ensures
            r@ == self.cpu.regs.snapshot_spec(),
    {
        self.cpu.regs.get_snapshot()
    }

    /// The bytes published through the serial port so far.
    pub fn serial_output(&self) -> (r: &[u8])
        ensures
            r@ == self.bus@.serial,
    {
        self.bus.serial_output.as_slice()
    }
}

impl Default for Nemu {
    fn default() -> (r: Self)
        ensures
            r.wf(),
            r.cpu == Cpu::initial(),
            r.bus@ == bus_initial(loaded_model(Seq::new(0x8000, |i: int| 0u8)), 0),
    {
        Nemu::new()
    }
}

} // verus!
