use vstd::prelude::*;
use vstd::string::StringExecFns;
use crate::NemuError;
use crate::registers::{Registers, hex_digit};

verus! {

/// What the bus sees of a cartridge controller.
pub struct MbcModel {
    pub is_mbc1: bool,
    pub rom: Seq<u8>,
    pub ram: Seq<u8>,
    pub rom_bank: u8,
    pub ram_bank: u8,
    pub ram_enabled: bool,
    pub banking_mode: bool,
    pub rom_mask: usize,
}

/// Size of a ROM bank.
pub const ROM_BANK_SIZE: usize = 0x4000;

/// Size of the MBC1 external RAM (four 8 KiB banks).
pub const MBC1_RAM_SIZE: usize = 0x8000;

/// The cartridge header byte that names the controller.
pub const CARTRIDGE_TYPE_ADDR: usize = 0x147;

/// The smallest power of two that is at least `n`, searched upwards from `p`.
pub open spec fn pow2_from(n: nat, p: nat) -> nat
    decreases (if p >= n { 0 } else { n - p }),
{
    if p == 0 || p >= n {
        p
    } else {
        pow2_from(n, 2 * p)
    }
}

/// `next_power_of_two(number of 16 KiB banks) - 1`.
pub open spec fn rom_mask_spec(rom_len: nat) -> int {
    pow2_from(rom_len / (ROM_BANK_SIZE as nat), 1) - 1
}

/// A ROM byte, or 0xFF past the end of the image.
pub open spec fn rom_at(rom: Seq<u8>, i: int) -> u8 {
    if 0 <= i < rom.len() {
        rom[i]
    } else {
        0xFF
    }
}

/// Bank mapped at 0x0000–0x3FFF.
pub open spec fn low_bank(m: MbcModel) -> usize {
    if m.banking_mode {
        ((m.ram_bank as usize) << 5usize) & m.rom_mask
    } else {
        0
    }
}

/// Bank mapped at 0x4000–0x7FFF.
pub open spec fn high_bank(m: MbcModel) -> usize {
    (((m.ram_bank as usize) << 5usize) | (m.rom_bank as usize)) & m.rom_mask
}

/// Offset into external RAM of 0xA000.
pub open spec fn ram_base(m: MbcModel) -> int {
    if m.banking_mode {
        m.ram_bank as int * 0x2000
    } else {
        0
    }
}

pub open spec fn mbc_read_spec(m: MbcModel, addr: u16) -> u8 {
    if !m.is_mbc1 {
        if addr <= 0x7FFF {
            rom_at(m.rom, addr as int)
        } else {
            0xFF
        }
    } else if addr <= 0x3FFF {
        rom_at(m.rom, low_bank(m) as int * 0x4000 + addr as int)
    } else if addr <= 0x7FFF {
        rom_at(m.rom, high_bank(m) as int * 0x4000 + (addr as int - 0x4000))
    } else if 0xA000 <= addr <= 0xBFFF {
        if !m.ram_enabled {
            0xFF
        } else {
            m.ram[ram_base(m) + (addr as int - 0xA000)]
        }
    } else {
        0xFF
    }
}

pub open spec fn mbc_write_spec(m: MbcModel, addr: u16, value: u8) -> MbcModel {
    if !m.is_mbc1 {
        m
    } else if addr <= 0x1FFF {
        MbcModel { ram_enabled: (value & 0x0F) == 0x0A, ..m }
    } else if addr <= 0x3FFF {
        MbcModel { rom_bank: if value & 0x1F == 0 { 1 } else { value & 0x1F }, ..m }
    } else if addr <= 0x5FFF {
        MbcModel { ram_bank: value & 0x03, ..m }
    } else if addr <= 0x7FFF {
        MbcModel { banking_mode: (value & 0x01) != 0, ..m }
    } else if 0xA000 <= addr <= 0xBFFF && m.ram_enabled {
        MbcModel { ram: m.ram.update(ram_base(m) + (addr as int - 0xA000), value), ..m }
    } else {
        m
    }
}

/// A cartridge without a controller: 32 KiB of ROM and no external RAM.
pub struct NoMbc {
    pub rom: Vec<u8>,
}

/// The MBC1 controller with its banking registers.
pub struct Mbc1 {
    pub rom: Vec<u8>,
    pub ram: Vec<u8>,
    pub rom_bank: u8,
    pub ram_bank: u8,
    pub ram_enabled: bool,
    pub banking_mode: bool,
    pub rom_mask: usize,
}

pub enum MbcType {
    NoMbc(NoMbc),
    Mbc1(Mbc1),
}

/// The controller that a cartridge type byte selects, if supported.
pub open spec fn supported_type(t: u8) -> bool {
    t == 0x00 || t == 0x01 || t == 0x02
}

/// The controller model that loading `data` gives.
pub open spec fn loaded_model(data: Seq<u8>) -> MbcModel {
    let t = data[CARTRIDGE_TYPE_ADDR as int];
    if t == 0x00 {
        MbcModel {
            is_mbc1: false,
            rom: data,
            ram: Seq::empty(),
            rom_bank: 0,
            ram_bank: 0,
            ram_enabled: false,
            banking_mode: false,
            rom_mask: 0,
        }
    } else {
        MbcModel {
            is_mbc1: true,
            rom: data,
            ram: Seq::new(MBC1_RAM_SIZE as nat, |i: int| 0u8),
            rom_bank: 1,
            ram_bank: 0,
            ram_enabled: false,
            banking_mode: false,
            rom_mask: rom_mask_spec(data.len()) as usize,
        }
    }
}

/// "Unsupported MBC type: 0x" and the type byte in upper-case hex.
pub open spec fn unsupported_message_spec(t: u8) -> Seq<char> {
    "Unsupported MBC type: 0x"@ + Registers::hex_byte(t)
}

/// The rejection message for an unsupported cartridge type.
fn unsupported_message(t: u8) -> (r: String)
    ensures
        r@ == unsupported_message_spec(t),
{
    let mut msg = String::from_str("Unsupported MBC type: 0x");
    msg.append(hex_digit(t / 16));
    msg.append(hex_digit(t % 16));
    assert(msg@ =~= unsupported_message_spec(t));
    msg
}

/// `next_power_of_two(rom_len / 0x4000) - 1`.
fn compute_rom_mask(rom_len: usize) -> (r: usize)
    ensures
        r == rom_mask_spec(rom_len as nat),
{
    let n: usize = rom_len / ROM_BANK_SIZE;
    let mut p: usize = 1;
    while p < n
        invariant
            1 <= p <= 2 * n || p == 1,
            n == rom_len / ROM_BANK_SIZE,
            n <= usize::MAX / 0x4000,
            pow2_from(n as nat, p as nat) == pow2_from(n as nat, 1),
        decreases (if p >= n { 0 } else { n - p }),
    {
        p = p * 2;
    }
    p - 1
}

impl MbcType {
    pub open spec fn model(&self) -> MbcModel {
        match self {
            MbcType::NoMbc(m) => MbcModel {
                is_mbc1: false,
                rom: m.rom@,
                ram: Seq::empty(),
                rom_bank: 0,
                ram_bank: 0,
                ram_enabled: false,
                banking_mode: false,
                rom_mask: 0,
            },
            MbcType::Mbc1(m) => MbcModel {
                is_mbc1: true,
                rom: m.rom@,
                ram: m.ram@,
                rom_bank: m.rom_bank,
                ram_bank: m.ram_bank,
                ram_enabled: m.ram_enabled,
                banking_mode: m.banking_mode,
                rom_mask: m.rom_mask,
            },
        }
    }

    pub open spec fn wf(&self) -> bool {
        match self {
            MbcType::NoMbc(_) => true,
            MbcType::Mbc1(m) => m.ram@.len() == MBC1_RAM_SIZE && 1 <= m.rom_bank <= 31
                && m.ram_bank <= 3,
        }
    }

    /// An empty 32 KiB cartridge without a controller.
    pub fn empty() -> (r: Self)
        ensures
            r.wf(),
            r.model() == loaded_model(Seq::new(0x8000, |i: int| 0u8)),
    {
        let rom: Vec<u8> = vec![0u8; 0x8000];
        assert(rom@ =~= Seq::new(0x8000, |i: int| 0u8));
        MbcType::NoMbc(NoMbc { rom })
    }

    /// Picks the controller from the cartridge type byte at 0x0147.
    pub fn new(data: Vec<u8>) -> (r: Result<Self, NemuError>)
        ensures
            r.is_ok() <==> data@.len() > CARTRIDGE_TYPE_ADDR && supported_type(
                data@[CARTRIDGE_TYPE_ADDR as int],
            ),
            (r matches Ok(m) ==> m.wf() && m.model() == loaded_model(data@)),
            r.is_err() ==> (r matches Err(NemuError::InvalidRom(_))),
            data@.len() > CARTRIDGE_TYPE_ADDR && !supported_type(data@[CARTRIDGE_TYPE_ADDR as int])
                ==> (r matches Err(NemuError::InvalidRom(msg)) && msg@ == unsupported_message_spec(
                data@[CARTRIDGE_TYPE_ADDR as int],
            )),
    {
        if data.len() <= CARTRIDGE_TYPE_ADDR {
            return Err(NemuError::InvalidRom(String::from_str("ROM too small for a cartridge header")));
        }
        let mbc_type = data[CARTRIDGE_TYPE_ADDR];

        if mbc_type == 0x00 {
            Ok(MbcType::NoMbc(NoMbc { rom: data }))
        } else if mbc_type == 0x01 || mbc_type == 0x02 {
            let rom_mask = compute_rom_mask(data.len());
            let ram: Vec<u8> = vec![0u8; MBC1_RAM_SIZE];
            let m = Mbc1 {
                rom: data,
                ram,
                rom_bank: 1,
                ram_bank: 0,
                ram_enabled: false,
                banking_mode: false,
                rom_mask,
            };
            let r = MbcType::Mbc1(m);
            assert(r.model().ram =~= loaded_model(r.model().rom).ram);
            Ok(r)
        } else {
            Err(NemuError::InvalidRom(unsupported_message(mbc_type)))
        }
    }

    pub fn read(&self, addr: u16) -> (r: u8)
        requires
            self.wf(),
        ensures
            r == mbc_read_spec(self.model(), addr),
    {
        match self {
            MbcType::NoMbc(m) => {
                if addr <= 0x7FFF && (addr as usize) < m.rom.len() {
                    m.rom[addr as usize]
                } else {
                    0xFF
                }
            },
            MbcType::Mbc1(m) => m.read(addr),
        }
    }

    pub fn write(&mut self, addr: u16, value: u8)
        requires
            old(self).wf(),
        ensures
            final(self).wf(),
            final(self).model() == mbc_write_spec(old(self).model(), addr, value),
    {
        match self {
            MbcType::NoMbc(_) => {},
            MbcType::Mbc1(m) => m.write(addr, value),
        }
    }
}

impl Mbc1 {
    pub open spec fn model(&self) -> MbcModel {
        MbcType::Mbc1(*self).model()
    }

    fn rom_byte(&self, index: usize) -> (r: u8)
        ensures
            r == rom_at(self.rom@, index as int),
    {
        if index < self.rom.len() {
            self.rom[index]
        } else {
            0xFF
        }
    }

    pub fn read(&self, addr: u16) -> (r: u8)
        requires
            MbcType::Mbc1(*self).wf(),
        ensures
            r == mbc_read_spec(self.model(), addr),
    {
        let rb = self.ram_bank;
        let b = self.rom_bank;
        let mask = self.rom_mask;
        assert(((rb as usize) << 5usize) & mask <= 127 && (((rb as usize) << 5usize) | (b as usize))
            & mask <= 127) by (bit_vector)
            requires
                rb <= 3,
                b <= 31,
        ;
        if addr <= 0x3FFF {
            let bank: usize = if self.banking_mode {
                ((self.ram_bank as usize) << 5) & self.rom_mask
            } else {
                0
            };
            self.rom_byte(bank * ROM_BANK_SIZE + addr as usize)
        } else if addr <= 0x7FFF {
            let bank: usize = (((self.ram_bank as usize) << 5) | (self.rom_bank as usize))
                & self.rom_mask;
            self.rom_byte(bank * ROM_BANK_SIZE + (addr as usize - 0x4000))
        } else if 0xA000 <= addr && addr <= 0xBFFF {
            if !self.ram_enabled {
                return 0xFF;
            }
            let base: usize = if self.banking_mode {
                self.ram_bank as usize * 0x2000
            } else {
                0
            };
            self.ram[base + (addr as usize - 0xA000)]
        } else {
            0xFF
        }
    }

    pub fn write(&mut self, addr: u16, value: u8)
        requires
            MbcType::Mbc1(*old(self)).wf(),
        ensures
            MbcType::Mbc1(*final(self)).wf(),
            final(self).model() == mbc_write_spec(
                old(self).model(),
                addr,
                value,
            ),
    {
        if addr <= 0x1FFF {
            self.ram_enabled = (value & 0x0F) == 0x0A;
        } else if addr <= 0x3FFF {
            let mut bank = value & 0x1F;
            if bank == 0 {
                bank = 1;
            }
            assert(value & 0x1F <= 31) by (bit_vector);
            self.rom_bank = bank;
        } else if addr <= 0x5FFF {
            assert(value & 0x03 <= 3) by (bit_vector);
            self.ram_bank = value & 0x03;
        } else if addr <= 0x7FFF {
            self.banking_mode = (value & 0x01) != 0;
        } else if 0xA000 <= addr && addr <= 0xBFFF && self.ram_enabled {
            let base: usize = if self.banking_mode {
                self.ram_bank as usize * 0x2000
            } else {
                0
            };
            self.ram.set(base + (addr as usize - 0xA000), value);
        }
    }
}

} // verus!
