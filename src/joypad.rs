use vstd::prelude::*;

verus! {

/// Interrupt-flag bit raised by the joypad.
pub const INT_JOYPAD: u8 = 0x10;

/// One line of the key matrix; each line carries a button and a direction.
#[derive(Clone, Copy, Debug, PartialEq, Eq, Structural)]
pub enum JoypadButton {
    RightOrA,
    LeftOrB,
    UpOrSelect,
    DownOrStart,
}

/// The matrix bit of a line.
pub open spec fn button_mask_spec(b: JoypadButton) -> u8 {
    match b {
        JoypadButton::RightOrA => 0x01,
        JoypadButton::LeftOrB => 0x02,
        JoypadButton::UpOrSelect => 0x04,
        JoypadButton::DownOrStart => 0x08,
    }
}

pub fn button_mask(b: JoypadButton) -> (r: u8)
    ensures
        r == button_mask_spec(b),
{
    match b {
        JoypadButton::RightOrA => 0x01,
        JoypadButton::LeftOrB => 0x02,
        JoypadButton::UpOrSelect => 0x04,
        JoypadButton::DownOrStart => 0x08,
    }
}

/// Button and direction nibbles (a 0 bit is a pressed key), the select lines, and the
/// nibbles seen at the last poll for edge detection.
#[derive(Clone, Copy, Debug)]
pub struct Joypad {
    pub buttons: u8,
    pub directions: u8,
    pub select: u8,
    pub prev_buttons: u8,
    pub prev_directions: u8,
}

pub open spec fn set_line(v: u8, mask: u8, pressed: bool) -> u8 {
    if pressed {
        v & !mask
    } else {
        v | mask
    }
}

pub open spec fn joypad_set_spec(j: Joypad, b: JoypadButton, pressed: bool, is_direction: bool) -> Joypad {
    if is_direction {
        Joypad { directions: set_line(j.directions, button_mask_spec(b), pressed), ..j }
    } else {
        Joypad { buttons: set_line(j.buttons, button_mask_spec(b), pressed), ..j }
    }
}

/// The joypad register at 0xFF00: select lines in bits 5..4, the selected nibbles AND-ed into bits 3..0.
pub open spec fn joypad_read_spec(j: Joypad) -> u8 {
    let r0 = 0xC0u8 | j.select | 0x0F;
    let r1 = if j.select & 0x20 == 0 { r0 & (0xF0 | j.buttons) } else { r0 };
    if j.select & 0x10 == 0 { r1 & (0xF0 | j.directions) } else { r1 }
}

/// A key that went from released to pressed on a selected side since the last poll.
pub open spec fn joypad_irq_spec(j: Joypad) -> u8 {
    if ((j.select & 0x20) == 0 && (j.prev_buttons & !j.buttons) != 0) || ((j.select & 0x10) == 0
        && (j.prev_directions & !j.directions) != 0) {
        INT_JOYPAD
    } else {
        0
    }
}

pub open spec fn joypad_poll_spec(j: Joypad) -> (Joypad, u8) {
    (Joypad { prev_buttons: j.buttons, prev_directions: j.directions, ..j }, joypad_irq_spec(j))
}

/// The matrix bits of `v` are within its low nibble.
pub open spec fn nibble(v: u8) -> bool {
    v & 0xF0 == 0
}

proof fn lemma_nibbles(v: u8, m: u8, s: u8)
    ensures
        nibble(v) && nibble(m) ==> nibble(v & !m) && nibble(v | m),
        (s & 0x30) & 0xCF == 0,
{
    assert((v & 0xF0 == 0 && m & 0xF0 == 0 ==> (v & !m) & 0xF0 == 0 && (v | m) & 0xF0 == 0)
        && (s & 0x30) & 0xCF == 0) by (bit_vector);
}

impl Joypad {
    /// Both key nibbles and their snapshots are 4-bit, and only the two select lines
    /// (bits 5..4) can be set in `select`.
    pub open spec fn wf(self) -> bool {
        &&& nibble(self.buttons)
        &&& nibble(self.directions)
        &&& nibble(self.prev_buttons)
        &&& nibble(self.prev_directions)
        &&& self.select & 0xCF == 0
    }

    pub open spec fn released() -> Joypad {
        Joypad {
            buttons: 0x0F,
            directions: 0x0F,
            select: 0x30,
            prev_buttons: 0x0F,
            prev_directions: 0x0F,
        }
    }

    pub fn new() -> (r: Self)
        ensures
            r == Joypad::released(),
            r.wf(),
    {
        assert(nibble(0x0F) && 0x30u8 & 0xCF == 0) by (bit_vector);
        Joypad {
            buttons: 0x0F,
            directions: 0x0F,
            select: 0x30,
            prev_buttons: 0x0F,
            prev_directions: 0x0F,
        }
    }

    pub fn set_joypad(&mut self, input: JoypadButton, pressed: bool, is_direction: bool)
        requires
            old(self).wf(),
        ensures
            final(self).wf(),
            *final(self) == joypad_set_spec(*old(self), input, pressed, is_direction),
    {
        let mask = button_mask(input);
        assert(nibble(0x01) && nibble(0x02) && nibble(0x04) && nibble(0x08)) by (bit_vector);
        proof {
            lemma_nibbles(self.directions, mask, 0);
            lemma_nibbles(self.buttons, mask, 0);
        }
        if is_direction {
            if pressed {
                self.directions = self.directions & !mask;
            } else {
                self.directions = self.directions | mask;
            }
        } else {
            if pressed {
                self.buttons = self.buttons & !mask;
            } else {
                self.buttons = self.buttons | mask;
            }
        }
    }

    pub fn read(&self) -> (r: u8)
        ensures
            r == joypad_read_spec(*self),
    {
        let mut result: u8 = 0xC0 | self.select | 0x0F;

        if self.select & 0x20 == 0 {
            result = result & (0xF0 | self.buttons);
        }

        if self.select & 0x10 == 0 {
            result = result & (0xF0 | self.directions);
        }

        result
    }

    pub fn write(&mut self, value: u8)
        requires
            old(self).wf(),
        ensures
            final(self).wf(),
            *final(self) == (Joypad { select: value & 0x30, ..*old(self) }),
    {
        proof {
            lemma_nibbles(0, 0, value);
        }
        self.select = value & 0x30;
    }

    /// Returns the joypad interrupt mask for a new press and remembers the current nibbles.
    pub fn poll_interrupt(&mut self) -> (irq: u8)
        requires
            old(self).wf(),
        ensures
            final(self).wf(),
            (*final(self), irq) == joypad_poll_spec(*old(self)),
    {
        let mut irq: u8 = 0;

        if (self.select & 0x20) == 0 && (self.prev_buttons & !self.buttons) != 0 {
            irq = irq | INT_JOYPAD;
        }

        if (self.select & 0x10) == 0 && (self.prev_directions & !self.directions) != 0 {
            irq = irq | INT_JOYPAD;
        }

        assert(0u8 | INT_JOYPAD == INT_JOYPAD && INT_JOYPAD | INT_JOYPAD == INT_JOYPAD) by (bit_vector);

        self.prev_buttons = self.buttons;
        self.prev_directions = self.directions;

        irq
    }
}

} // verus!
