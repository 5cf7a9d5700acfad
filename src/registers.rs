use vstd::prelude::*;
use vstd::string::StringExecFns;

verus! {

/// The 8-bit registers that instructions name directly (F is reached through the flags).
#[derive(Clone, Copy, Debug, PartialEq, Eq, Structural)]
pub enum Reg8 {
    A,
    B,
    C,
    D,
    E,
    H,
    L,
}

/// The 16-bit register pairs; SP and PC have their own accessors.
#[derive(Clone, Copy, Debug, PartialEq, Eq, Structural)]
pub enum Reg16 {
    AF,
    BC,
    DE,
    HL,
}

/// The LR35902 register file.
#[derive(Clone, Copy, Debug)]
pub struct Registers {
    pub a: u8,
    pub f: u8,
    pub b: u8,
    pub c: u8,
    pub d: u8,
    pub e: u8,
    pub h: u8,
    pub l: u8,
    pub sp: u16,
    pub pc: u16,
}

pub open spec fn z_of(f: u8) -> bool {
    f & 0x80 != 0
}

pub open spec fn n_of(f: u8) -> bool {
    f & 0x40 != 0
}

pub open spec fn h_of(f: u8) -> bool {
    f & 0x20 != 0
}

pub open spec fn c_of(f: u8) -> bool {
    f & 0x10 != 0
}

/// The F byte holding the four flags Z, N, H, C in bits 7..4.
pub open spec fn flag_byte(z: bool, n: bool, h: bool, c: bool) -> u8 {
    ((if z { 0x80u8 } else { 0u8 }) | (if n { 0x40u8 } else { 0u8 }) | (if h { 0x20u8 } else {
        0u8
    }) | (if c { 0x10u8 } else { 0u8 })) as u8
}

/// Upper-case hex digit of a value below 16.
pub open spec fn hex_char(n: u8) -> char {
    if n == 0 { '0' } else if n == 1 { '1' } else if n == 2 { '2' } else if n == 3 { '3' }
    else if n == 4 { '4' } else if n == 5 { '5' } else if n == 6 { '6' } else if n == 7 { '7' }
    else if n == 8 { '8' } else if n == 9 { '9' } else if n == 10 { 'A' } else if n == 11 { 'B' }
    else if n == 12 { 'C' } else if n == 13 { 'D' } else if n == 14 { 'E' } else { 'F' }
}

pub fn hex_digit(n: u8) -> (r: &'static str)
    requires
        n < 16,
    ensures
        r@ == seq![hex_char(n)],
{
    match n {
        0 => { proof { reveal_strlit("0"); } "0" },
        1 => { proof { reveal_strlit("1"); } "1" },
        2 => { proof { reveal_strlit("2"); } "2" },
        3 => { proof { reveal_strlit("3"); } "3" },
        4 => { proof { reveal_strlit("4"); } "4" },
        5 => { proof { reveal_strlit("5"); } "5" },
        6 => { proof { reveal_strlit("6"); } "6" },
        7 => { proof { reveal_strlit("7"); } "7" },
        8 => { proof { reveal_strlit("8"); } "8" },
        9 => { proof { reveal_strlit("9"); } "9" },
        10 => { proof { reveal_strlit("A"); } "A" },
        11 => { proof { reveal_strlit("B"); } "B" },
        12 => { proof { reveal_strlit("C"); } "C" },
        13 => { proof { reveal_strlit("D"); } "D" },
        14 => { proof { reveal_strlit("E"); } "E" },
        _ => { proof { reveal_strlit("F"); } "F" },
    }
}

fn push_hex(s: &mut String, v: u8)
    ensures
        final(s)@ == old(s)@ + Registers::hex_byte(v),
{
    s.append(hex_digit(v / 16));
    s.append(hex_digit(v % 16));
    assert(s@ =~= old(s)@ + Registers::hex_byte(v));
}

/// An integer taken modulo 2^8.
pub open spec fn wrap8(x: int) -> u8 {
    (x % 256) as u8
}

/// An integer taken modulo 2^16.
pub open spec fn wrap16(x: int) -> u16 {
    (x % 65536) as u16
}

pub proof fn lemma_wrap8(x: int)
    ensures
        0 <= x < 256 ==> wrap8(x) == x,
        -256 <= x < 0 ==> wrap8(x) == x + 256,
        256 <= x < 512 ==> wrap8(x) == x - 256,
{
}

pub proof fn lemma_wrap16(x: int)
    ensures
        0 <= x < 65536 ==> wrap16(x) == x,
        -65536 <= x < 0 ==> wrap16(x) == x + 65536,
        65536 <= x < 131072 ==> wrap16(x) == x - 65536,
{
}

/// The 16-bit value formed by a high and a low byte.
pub open spec fn pair(hi: u8, lo: u8) -> u16 {
    (hi as int * 256 + lo as int) as u16
}

pub broadcast proof fn lemma_flag_byte_fields(z: bool, n: bool, h: bool, c: bool)
    ensures
        z_of(#[trigger] flag_byte(z, n, h, c)) == z,
        n_of(flag_byte(z, n, h, c)) == n,
        h_of(flag_byte(z, n, h, c)) == h,
        c_of(flag_byte(z, n, h, c)) == c,
        flag_byte(z, n, h, c) & 0x0F == 0,
{
    let f = flag_byte(z, n, h, c);
    assert(f == ((if z { 0x80u8 } else { 0u8 }) | (if n { 0x40u8 } else { 0u8 }) | (if h {
        0x20u8
    } else {
        0u8
    }) | (if c { 0x10u8 } else { 0u8 })) as u8);
    assert(f & 0x80 != 0 <==> z) by (bit_vector)
        requires
            f == ((if z { 0x80u8 } else { 0u8 }) | (if n { 0x40u8 } else { 0u8 }) | (if h {
                0x20u8
            } else {
                0u8
            }) | (if c { 0x10u8 } else { 0u8 })) as u8,
    ;
    assert((f & 0x40 != 0 <==> n) && (f & 0x20 != 0 <==> h) && (f & 0x10 != 0 <==> c) && f & 0x0F
        == 0) by (bit_vector)
        requires
            f == ((if z { 0x80u8 } else { 0u8 }) | (if n { 0x40u8 } else { 0u8 }) | (if h {
                0x20u8
            } else {
                0u8
            }) | (if c { 0x10u8 } else { 0u8 })) as u8,
    ;
}

proof fn lemma_masked_flags(f: u8)
    ensures
        (f | 0x80) & 0xF0 == flag_byte(true, n_of(f), h_of(f), c_of(f)),
        (f & !0x80u8) & 0xF0 == flag_byte(false, n_of(f), h_of(f), c_of(f)),
        (f | 0x40) & 0xF0 == flag_byte(z_of(f), true, h_of(f), c_of(f)),
        (f & !0x40u8) & 0xF0 == flag_byte(z_of(f), false, h_of(f), c_of(f)),
        (f | 0x20) & 0xF0 == flag_byte(z_of(f), n_of(f), true, c_of(f)),
        (f & !0x20u8) & 0xF0 == flag_byte(z_of(f), n_of(f), false, c_of(f)),
        (f | 0x10) & 0xF0 == flag_byte(z_of(f), n_of(f), h_of(f), true),
        (f & !0x10u8) & 0xF0 == flag_byte(z_of(f), n_of(f), h_of(f), false),
        f & 0xF0 == flag_byte(z_of(f), n_of(f), h_of(f), c_of(f)),
{
    assert(
        ((f | 0x80) & 0xF0 == (0x80u8 | (if f & 0x40 != 0 { 0x40u8 } else { 0u8 }) | (if f & 0x20 != 0 { 0x20u8 } else { 0u8 }) | (if f & 0x10 != 0 { 0x10u8 } else { 0u8 })) as u8)
        && ((f & !0x80u8) & 0xF0 == (0u8 | (if f & 0x40 != 0 { 0x40u8 } else { 0u8 }) | (if f & 0x20 != 0 { 0x20u8 } else { 0u8 }) | (if f & 0x10 != 0 { 0x10u8 } else { 0u8 })) as u8)
        && ((f | 0x40) & 0xF0 == ((if f & 0x80 != 0 { 0x80u8 } else { 0u8 }) | 0x40u8 | (if f & 0x20 != 0 { 0x20u8 } else { 0u8 }) | (if f & 0x10 != 0 { 0x10u8 } else { 0u8 })) as u8)
        && ((f & !0x40u8) & 0xF0 == ((if f & 0x80 != 0 { 0x80u8 } else { 0u8 }) | 0u8 | (if f & 0x20 != 0 { 0x20u8 } else { 0u8 }) | (if f & 0x10 != 0 { 0x10u8 } else { 0u8 })) as u8)
        && ((f | 0x20) & 0xF0 == ((if f & 0x80 != 0 { 0x80u8 } else { 0u8 }) | (if f & 0x40 != 0 { 0x40u8 } else { 0u8 }) | 0x20u8 | (if f & 0x10 != 0 { 0x10u8 } else { 0u8 })) as u8)
        && ((f & !0x20u8) & 0xF0 == ((if f & 0x80 != 0 { 0x80u8 } else { 0u8 }) | (if f & 0x40 != 0 { 0x40u8 } else { 0u8 }) | 0u8 | (if f & 0x10 != 0 { 0x10u8 } else { 0u8 })) as u8)
        && ((f | 0x10) & 0xF0 == ((if f & 0x80 != 0 { 0x80u8 } else { 0u8 }) | (if f & 0x40 != 0 { 0x40u8 } else { 0u8 }) | (if f & 0x20 != 0 { 0x20u8 } else { 0u8 }) | 0x10u8) as u8)
        && ((f & !0x10u8) & 0xF0 == ((if f & 0x80 != 0 { 0x80u8 } else { 0u8 }) | (if f & 0x40 != 0 { 0x40u8 } else { 0u8 }) | (if f & 0x20 != 0 { 0x20u8 } else { 0u8 }) | 0u8) as u8)
        && (f & 0xF0 == ((if f & 0x80 != 0 { 0x80u8 } else { 0u8 }) | (if f & 0x40 != 0 { 0x40u8 } else { 0u8 }) | (if f & 0x20 != 0 { 0x20u8 } else { 0u8 }) | (if f & 0x10 != 0 { 0x10u8 } else { 0u8 })) as u8)
    ) by (bit_vector);
}

pub proof fn lemma_pack(hi: u8, lo: u8)
    ensures
        ((hi as u16) << 8u16) | (lo as u16) == pair(hi, lo),
{
    assert(((hi as u16) << 8u16) | (lo as u16) == (hi as u16) * 256 + (lo as u16)) by (bit_vector);
}

pub proof fn lemma_unpack(v: u16)
    ensures
        (v >> 8u16) as u8 == v / 256,
        (v & 0x00FF) as u8 == v % 256,
        pair((v >> 8u16) as u8, (v & 0x00FF) as u8) == v,
{
    assert((v >> 8u16) as u8 == v / 256 && (v & 0x00FF) as u8 == v % 256) by (bit_vector);
}

impl Registers {
    /// The flags hold only bits 7..4 of F.
    pub open spec fn wf(self) -> bool {
        self.f & 0x0F == 0
    }

    pub open spec fn zf(self) -> bool {
        z_of(self.f)
    }

    pub open spec fn nf(self) -> bool {
        n_of(self.f)
    }

    pub open spec fn hf(self) -> bool {
        h_of(self.f)
    }

    pub open spec fn cf(self) -> bool {
        c_of(self.f)
    }

    /// The same registers with F set to the given flags.
    pub open spec fn with_flags(self, z: bool, n: bool, h: bool, c: bool) -> Registers {
        Registers { f: flag_byte(z, n, h, c), ..self }
    }

    pub open spec fn reg8_spec(self, r: Reg8) -> u8 {
        match r {
            Reg8::A => self.a,
            Reg8::B => self.b,
            Reg8::C => self.c,
            Reg8::D => self.d,
            Reg8::E => self.e,
            Reg8::H => self.h,
            Reg8::L => self.l,
        }
    }

    pub open spec fn with_reg8(self, r: Reg8, v: u8) -> Registers {
        match r {
            Reg8::A => Registers { a: v, ..self },
            Reg8::B => Registers { b: v, ..self },
            Reg8::C => Registers { c: v, ..self },
            Reg8::D => Registers { d: v, ..self },
            Reg8::E => Registers { e: v, ..self },
            Reg8::H => Registers { h: v, ..self },
            Reg8::L => Registers { l: v, ..self },
        }
    }

    pub open spec fn af_spec(self) -> u16 {
        pair(self.a, self.f)
    }

    pub open spec fn bc_spec(self) -> u16 {
        pair(self.b, self.c)
    }

    pub open spec fn de_spec(self) -> u16 {
        pair(self.d, self.e)
    }

    pub open spec fn hl_spec(self) -> u16 {
        pair(self.h, self.l)
    }

    pub open spec fn reg16_spec(self, r: Reg16) -> u16 {
        match r {
            Reg16::AF => self.af_spec(),
            Reg16::BC => self.bc_spec(),
            Reg16::DE => self.de_spec(),
            Reg16::HL => self.hl_spec(),
        }
    }

    /// The high byte goes to the first register of the pair, the low byte to the second;
    /// for AF the low nibble of F stays clear.
    pub open spec fn with_reg16(self, r: Reg16, v: u16) -> Registers {
        let hi = (v / 256) as u8;
        let lo = (v % 256) as u8;
        match r {
            Reg16::AF => Registers { a: hi, f: lo & 0xF0, ..self },
            Reg16::BC => Registers { b: hi, c: lo, ..self },
            Reg16::DE => Registers { d: hi, e: lo, ..self },
            Reg16::HL => Registers { h: hi, l: lo, ..self },
        }
    }

    /// The two upper-case hex digits of a byte.
    pub open spec fn hex_byte(v: u8) -> Seq<char> {
        seq![hex_char(v / 16), hex_char(v % 16)]
    }

    /// "A: xx F: xx\nB: xx C: xx\nD: xx E: xx\nH: xx L: xx" in upper-case hex.
    pub open spec fn snapshot_spec(self) -> Seq<char> {
        "A: "@ + Registers::hex_byte(self.a) + " F: "@ + Registers::hex_byte(self.f) + "\nB: "@
            + Registers::hex_byte(self.b) + " C: "@ + Registers::hex_byte(self.c) + "\nD: "@
            + Registers::hex_byte(self.d) + " E: "@ + Registers::hex_byte(self.e) + "\nH: "@
            + Registers::hex_byte(self.h) + " L: "@ + Registers::hex_byte(self.l)
    }

    /// All registers zero: the boot program establishes the start-up values.
    pub open spec fn zeroed() -> Registers {
        Registers { a: 0, f: 0, b: 0, c: 0, d: 0, e: 0, h: 0, l: 0, sp: 0, pc: 0 }
    }

    pub fn new() -> (r: Self)
        ensures
            r == Registers::zeroed(),
            r.wf(),
    {
        assert(0u8 & 0x0F == 0) by (bit_vector);
        Registers { a: 0, f: 0, b: 0, c: 0, d: 0, e: 0, h: 0, l: 0, sp: 0, pc: 0 }
    }

    pub fn reset(&mut self)
        ensures
            *final(self) == Registers::zeroed(),
    {
        *self = Registers::new();
    }

    pub fn af(&self) -> (r: u16)
        ensures
            r == self.af_spec(),
    {
        proof {
            lemma_pack(self.a, self.f);
        }
        ((self.a as u16) << 8) | (self.f as u16)
    }

    pub fn set_af(&mut self, value: u16)
        ensures
            *final(self) == old(self).with_reg16(Reg16::AF, value),
            final(self).wf(),
    {
        proof {
            lemma_unpack(value);
        }
        let f = (value & 0x00FF) as u8 & 0xF0;
        assert(f & 0x0F == 0) by (bit_vector)
            requires
                f == (value & 0x00FF) as u8 & 0xF0,
        ;
        self.a = (value >> 8) as u8;
        self.f = f;
    }

    pub fn bc(&self) -> (r: u16)
        ensures
            r == self.bc_spec(),
    {
        proof {
            lemma_pack(self.b, self.c);
        }
        ((self.b as u16) << 8) | (self.c as u16)
    }

    pub fn set_bc(&mut self, value: u16)
        ensures
            *final(self) == old(self).with_reg16(Reg16::BC, value),
    {
        proof {
            lemma_unpack(value);
        }
        self.b = (value >> 8) as u8;
        self.c = (value & 0x00FF) as u8;
    }

    pub fn de(&self) -> (r: u16)
        ensures
            r == self.de_spec(),
    {
        proof {
            lemma_pack(self.d, self.e);
        }
        ((self.d as u16) << 8) | (self.e as u16)
    }

    pub fn set_de(&mut self, value: u16)
        ensures
            *final(self) == old(self).with_reg16(Reg16::DE, value),
    {
        proof {
            lemma_unpack(value);
        }
        self.d = (value >> 8) as u8;
        self.e = (value & 0x00FF) as u8;
    }

    pub fn hl(&self) -> (r: u16)
        ensures
            r == self.hl_spec(),
    {
        proof {
            lemma_pack(self.h, self.l);
        }
        ((self.h as u16) << 8) | (self.l as u16)
    }

    pub fn set_hl(&mut self, value: u16)
        ensures
            *final(self) == old(self).with_reg16(Reg16::HL, value),
    {
        proof {
            lemma_unpack(value);
        }
        self.h = (value >> 8) as u8;
        self.l = (value & 0x00FF) as u8;
    }

    pub fn a(&self) -> (r: u8)
        ensures
            r == self.a,
    {
        self.a
    }

    pub fn set_a(&mut self, value: u8)
        ensures
            *final(self) == (Registers { a: value, ..*old(self) }),
    {
        self.a = value;
    }

    pub fn f(&self) -> (r: u8)
        ensures
            r == self.f,
    {
        self.f
    }

    /// Writes F; its low nibble is always cleared.
    pub fn set_f(&mut self, value: u8)
        ensures
            *final(self) == (Registers { f: value & 0xF0, ..*old(self) }),
            final(self).wf(),
    {
        let f = value & 0xF0;
        assert(f & 0x0F == 0) by (bit_vector)
            requires
                f == value & 0xF0,
        ;
        self.f = f;
    }

    pub fn b(&self) -> (r: u8)
        ensures
            r == self.b,
    {
        self.b
    }

    pub fn set_b(&mut self, value: u8)
        ensures
            *final(self) == (Registers { b: value, ..*old(self) }),
    {
        self.b = value;
    }

    pub fn c(&self) -> (r: u8)
        ensures
            r == self.c,
    {
        self.c
    }

    pub fn set_c(&mut self, value: u8)
        ensures
            *final(self) == (Registers { c: value, ..*old(self) }),
    {
        self.c = value;
    }

    pub fn d(&self) -> (r: u8)
        ensures
            r == self.d,
    {
        self.d
    }

    pub fn set_d(&mut self, value: u8)
        ensures
            *final(self) == (Registers { d: value, ..*old(self) }),
    {
        self.d = value;
    }

    pub fn e(&self) -> (r: u8)
        ensures
            r == self.e,
    {
        self.e
    }

    pub fn set_e(&mut self, value: u8)
        ensures
            *final(self) == (Registers { e: value, ..*old(self) }),
    {
        self.e = value;
    }

    pub fn h(&self) -> (r: u8)
        ensures
            r == self.h,
    {
        self.h
    }

    pub fn set_h(&mut self, value: u8)
        ensures
            *final(self) == (Registers { h: value, ..*old(self) }),
    {
        self.h = value;
    }

    pub fn l(&self) -> (r: u8)
        ensures
            r == self.l,
    {
        self.l
    }

    pub fn set_l(&mut self, value: u8)
        ensures
            *final(self) == (Registers { l: value, ..*old(self) }),
    {
        self.l = value;
    }

    pub fn zero_flag(&self) -> (r: bool)
        ensures
            r == self.zf(),
    {
        (self.f() & 0x80) != 0
    }

    pub fn set_zero_flag(&mut self, value: bool)
        ensures
            *final(self) == (Registers { f: flag_byte(value, n_of(old(self).f), h_of(old(self).f), c_of(old(self).f)), ..*old(self) }),
            final(self).wf(),
    {
        proof {
            lemma_masked_flags(self.f);
        }
        if value {
            self.set_f(self.f() | 0x80);
        } else {
            self.set_f(self.f() & !0x80u8);
        }
    }

    pub fn subtract_flag(&self) -> (r: bool)
        ensures
            r == self.nf(),
    {
        (self.f() & 0x40) != 0
    }

    pub fn set_subtract_flag(&mut self, value: bool)
        ensures
            *final(self) == (Registers { f: flag_byte(z_of(old(self).f), value, h_of(old(self).f), c_of(old(self).f)), ..*old(self) }),
            final(self).wf(),
    {
        proof {
            lemma_masked_flags(self.f);
        }
        if value {
            self.set_f(self.f() | 0x40);
        } else {
            self.set_f(self.f() & !0x40u8);
        }
    }

    pub fn half_carry_flag(&self) -> (r: bool)
        ensures
            r == self.hf(),
    {
        (self.f() & 0x20) != 0
    }

    pub fn set_half_carry_flag(&mut self, value: bool)
        ensures
            *final(self) == (Registers { f: flag_byte(z_of(old(self).f), n_of(old(self).f), value, c_of(old(self).f)), ..*old(self) }),
            final(self).wf(),
    {
        proof {
            lemma_masked_flags(self.f);
        }
        if value {
            self.set_f(self.f() | 0x20);
        } else {
            self.set_f(self.f() & !0x20u8);
        }
    }

    pub fn carry_flag(&self) -> (r: bool)
        ensures
            r == self.cf(),
    {
        (self.f() & 0x10) != 0
    }

    pub fn set_carry_flag(&mut self, value: bool)
        ensures
            *final(self) == (Registers { f: flag_byte(z_of(old(self).f), n_of(old(self).f), h_of(old(self).f), value), ..*old(self) }),
            final(self).wf(),
    {
        proof {
            lemma_masked_flags(self.f);
        }
        if value {
            self.set_f(self.f() | 0x10);
        } else {
            self.set_f(self.f() & !0x10u8);
        }
    }

    pub fn read_reg8(&self, reg: Reg8) -> (r: u8)
        ensures
            r == self.reg8_spec(reg),
    {
        match reg {
            Reg8::A => self.a(),
            Reg8::B => self.b(),
            Reg8::C => self.c(),
            Reg8::D => self.d(),
            Reg8::E => self.e(),
            Reg8::H => self.h(),
            Reg8::L => self.l(),
        }
    }

    pub fn write_reg8(&mut self, reg: Reg8, value: u8)
        ensures
            *final(self) == old(self).with_reg8(reg, value),
    {
        match reg {
            Reg8::A => self.set_a(value),
            Reg8::B => self.set_b(value),
            Reg8::C => self.set_c(value),
            Reg8::D => self.set_d(value),
            Reg8::E => self.set_e(value),
            Reg8::H => self.set_h(value),
            Reg8::L => self.set_l(value),
        }
    }

    pub fn read_reg16(&self, reg: Reg16) -> (r: u16)
        ensures
            r == self.reg16_spec(reg),
    {
        match reg {
            Reg16::AF => self.af(),
            Reg16::BC => self.bc(),
            Reg16::DE => self.de(),
            Reg16::HL => self.hl(),
        }
    }

    pub fn write_reg16(&mut self, reg: Reg16, value: u16)
        ensures
            *final(self) == old(self).with_reg16(reg, value),
            old(self).wf() ==> final(self).wf(),
    {
        match reg {
            Reg16::AF => self.set_af(value),
            Reg16::BC => self.set_bc(value),
            Reg16::DE => self.set_de(value),
            Reg16::HL => self.set_hl(value),
        }
    }

    /// The 8-bit registers as text, for a debugger.
    pub fn get_snapshot(&self) -> (r: String)
        ensures
            r@ == self.snapshot_spec(),
    {
        let mut s = String::from_str("A: ");
        push_hex(&mut s, self.a);
        s.append(" F: ");
        push_hex(&mut s, self.f);
        s.append("\nB: ");
        push_hex(&mut s, self.b);
        s.append(" C: ");
        push_hex(&mut s, self.c);
        s.append("\nD: ");
        push_hex(&mut s, self.d);
        s.append(" E: ");
        push_hex(&mut s, self.e);
        s.append("\nH: ");
        push_hex(&mut s, self.h);
        s.append(" L: ");
        push_hex(&mut s, self.l);
        s
    }

    pub fn sp(&self) -> (r: u16)
        ensures
            r == self.sp,
    {
        self.sp
    }

    pub fn set_sp(&mut self, value: u16)
        ensures
            *final(self) == (Registers { sp: value, ..*old(self) }),
    {
        self.sp = value;
    }

    pub fn inc_sp(&mut self, value: u16)
        ensures
            *final(self) == (Registers { sp: wrap16(old(self).sp + value), ..*old(self) }),
    {
        self.sp = self.sp.wrapping_add(value);
    }

    pub fn dec_sp(&mut self, value: u16)
        ensures
            *final(self) == (Registers { sp: wrap16(old(self).sp - value), ..*old(self) }),
    {
        self.sp = self.sp.wrapping_sub(value);
    }

    pub fn pc(&self) -> (r: u16)
        ensures
            r == self.pc,
    {
        self.pc
    }

    pub fn set_pc(&mut self, value: u16)
        ensures
            *final(self) == (Registers { pc: value, ..*old(self) }),
    {
        self.pc = value;
    }

    pub fn dec_pc(&mut self, value: u16)
        ensures
            *final(self) == (Registers { pc: wrap16(old(self).pc - value), ..*old(self) }),
    {
        self.pc = self.pc.wrapping_sub(value);
    }

    pub fn inc_pc(&mut self, value: u16)
        ensures
            *final(self) == (Registers { pc: wrap16(old(self).pc + value), ..*old(self) }),
    {
        self.pc = self.pc.wrapping_add(value);
    }
}


/// F's low nibble is clear after every kind of write to it: through AF, through the flag
/// bits, and directly.
pub proof fn lemma_f_low_nibble_clear(r: Registers, v: u16, f: u8, z: bool, n: bool, h: bool, c: bool)
    ensures
        r.with_reg16(Reg16::AF, v).f & 0x0F == 0,
        r.with_flags(z, n, h, c).f & 0x0F == 0,
        (f & 0xF0) & 0x0F == 0,
{
    let lo = (v % 256) as u8;
    assert((lo & 0xF0) & 0x0F == 0 && (f & 0xF0) & 0x0F == 0) by (bit_vector);
    lemma_flag_byte_fields(z, n, h, c);
}

} // verus!
