use vstd::prelude::*;
use crate::registers::wrap16;

verus! {

/// Interrupt-flag bit raised by the timer.
pub const INT_TIMER: u8 = 0x04;

/// DIV/TIMA/TMA/TAC with the 16-bit internal counter behind DIV.
#[derive(Clone, Copy, Debug)]
pub struct Timer {
    pub tima: u8,
    pub tma: u8,
    pub tac: u8,
    /// The free-running counter; DIV shows its high byte.
    pub div: u16,
    /// M-cycles left before a pending overflow reloads TIMA.
    pub overflow_cycles: u8,
}

/// The counter bit that TAC's clock select observes.
pub open spec fn bit_position_spec(tac: u8) -> u16 {
    if tac & 0x03 == 0 {
        9
    } else if tac & 0x03 == 1 {
        3
    } else if tac & 0x03 == 2 {
        5
    } else {
        7
    }
}

/// TIMA advanced by one; wrapping from 0xFF arms the one-m-cycle reload delay.
pub open spec fn increment_tima_spec(t: Timer) -> Timer {
    if t.tima == 0xFF {
        Timer { tima: 0, overflow_cycles: 1, ..t }
    } else {
        Timer { tima: (t.tima + 1) as u8, ..t }
    }
}

/// The pending overflow counted down by `cycles`, with the reload and the interrupt
/// mask it produces when it runs out.
pub open spec fn overflow_step(t: Timer, cycles: u8) -> (Timer, u8) {
    if t.overflow_cycles > 0 {
        let left: u8 = if t.overflow_cycles > cycles { (t.overflow_cycles - cycles) as u8 } else { 0 };
        if left == 0 {
            (Timer { overflow_cycles: 0, tima: t.tma, ..t }, INT_TIMER)
        } else {
            (Timer { overflow_cycles: left, ..t }, 0)
        }
    } else {
        (t, 0)
    }
}

/// True when the observed counter bit falls from 1 to 0 between the two counter values.
pub open spec fn falling_edge(tac: u8, old_div: u16, new_div: u16) -> bool {
    let pos = bit_position_spec(tac);
    (tac & 0x04) != 0 && (old_div >> pos) & 1 == 1 && (new_div >> pos) & 1 == 0
}

/// The timer after `cycles` m-cycles, with the interrupt mask it raises.
pub open spec fn update_spec(t: Timer, cycles: u8) -> (Timer, u8) {
    let (t1, irq) = overflow_step(t, cycles);
    let new_div = wrap16(t1.div + 4 * cycles);
    let t2 = Timer { div: new_div, ..t1 };
    if falling_edge(t1.tac, t1.div, new_div) {
        (increment_tima_spec(t2), irq)
    } else {
        (t2, irq)
    }
}

pub open spec fn timer_read_spec(t: Timer, addr: u16) -> u8 {
    if addr == 0xFF04 {
        (t.div / 256) as u8
    } else if addr == 0xFF05 {
        t.tima
    } else if addr == 0xFF06 {
        t.tma
    } else if addr == 0xFF07 {
        t.tac | 0xF8
    } else {
        0xFF
    }
}

pub open spec fn timer_write_spec(t: Timer, addr: u16, data: u8) -> Timer {
    if addr == 0xFF04 {
        Timer { div: 0, ..t }
    } else if addr == 0xFF05 {
        Timer { tima: data, overflow_cycles: 0, ..t }
    } else if addr == 0xFF06 {
        Timer { tma: data, ..t }
    } else if addr == 0xFF07 {
        Timer { tac: data & 0x07, ..t }
    } else {
        t
    }
}

impl Timer {
    pub open spec fn zeroed() -> Timer {
        Timer { tima: 0, tma: 0, tac: 0, div: 0, overflow_cycles: 0 }
    }

    pub fn new() -> (r: Self)
        ensures
            r == Timer::zeroed(),
    {
        Timer { tima: 0, tma: 0, tac: 0, div: 0, overflow_cycles: 0 }
    }

    pub fn reset(&mut self)
        ensures
            *final(self) == Timer::zeroed(),
    {
        self.tima = 0;
        self.tma = 0;
        self.tac = 0;
        self.div = 0;
        self.overflow_cycles = 0;
    }

    /// Advances the timer by `cycles` m-cycles and returns the interrupt mask raised.
    pub fn update(&mut self, cycles: u8) -> (irq_mask: u8)
        ensures
            (*final(self), irq_mask) == update_spec(*old(self), cycles),
    {
        let mut irq_mask: u8 = 0;

        if self.overflow_cycles > 0 {
            self.overflow_cycles = self.overflow_cycles.saturating_sub(cycles);
            if self.overflow_cycles == 0 {
                self.tima = self.tma;
                irq_mask = INT_TIMER;
            }
        }

        let old_div = self.div;
        self.div = self.div.wrapping_add((cycles as u16) * 4);

        if (self.tac & 0x04) != 0 {
            let div_bit = self.get_bit_position();
            let old_bit = (old_div >> div_bit) & 1;
            let new_bit = (self.div >> div_bit) & 1;

            if old_bit == 1 && new_bit == 0 {
                self.increment_tima();
            }
        }

        irq_mask
    }

    fn increment_tima(&mut self)
        ensures
            *final(self) == increment_tima_spec(*old(self)),
    {
        if self.tima == 0xFF {
            self.tima = 0;
            self.overflow_cycles = 1;
        } else {
            self.tima = self.tima + 1;
        }
    }

    fn get_bit_position(&self) -> (r: u16)
        ensures
            r == bit_position_spec(self.tac),
    {
        let sel = self.tac & 0x03;
        if sel == 0 {
            9
        } else if sel == 1 {
            3
        } else if sel == 2 {
            5
        } else {
            7
        }
    }

    pub fn read(&self, addr: u16) -> (r: u8)
        ensures
            r == timer_read_spec(*self, addr),
    {
        proof {
            crate::registers::lemma_unpack(self.div);
        }
        match addr {
            0xFF04 => (self.div >> 8) as u8,
            0xFF05 => self.tima,
            0xFF06 => self.tma,
            0xFF07 => self.tac | 0xF8,
            _ => 0xFF,
        }
    }

    pub fn write(&mut self, addr: u16, data: u8)
        ensures
            *final(self) == timer_write_spec(*old(self), addr, data),
    {
        match addr {
            0xFF04 => self.div = 0,
            0xFF05 => {
                self.tima = data;
                self.overflow_cycles = 0;
            },
            0xFF06 => self.tma = data,
            0xFF07 => self.tac = data & 0x07,
            _ => {},
        }
    }
}

/// A TIMA overflow leaves TIMA at zero and raises no interrupt on the m-cycle where it
/// happens; the next m-cycle reloads TMA and raises the timer interrupt, unless TIMA was
/// written in between, which cancels both.
pub proof fn lemma_overflow_delay(t: Timer, written: u8)
    requires
        t.tima == 0xFF,
        t.overflow_cycles == 0,
        falling_edge(t.tac, t.div, wrap16(t.div + 4)),
    ensures
        update_spec(t, 1).0.tima == 0,
        update_spec(t, 1).1 & INT_TIMER == 0,
        update_spec(update_spec(t, 1).0, 1).1 & INT_TIMER != 0,
        update_spec(update_spec(t, 1).0, 1).0.tima == t.tma || falling_edge(
            t.tac,
            wrap16(t.div + 4),
            wrap16(wrap16(t.div + 4) + 4),
        ),
        update_spec(timer_write_spec(update_spec(t, 1).0, 0xFF05, written), 1).1 & INT_TIMER == 0,
{
    let t1 = update_spec(t, 1).0;
    assert(t1.overflow_cycles == 1);
    assert(INT_TIMER & INT_TIMER != 0) by (bit_vector);
    assert(0u8 & INT_TIMER == 0) by (bit_vector);
}

} // verus!
