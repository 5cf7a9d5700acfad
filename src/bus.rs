use vstd::prelude::*;
use crate::joypad::{Joypad, joypad_poll_spec, joypad_read_spec};
use crate::mbc::{MbcModel, MbcType, mbc_read_spec, mbc_write_spec, loaded_model};
use crate::ppu::{
    OAM_SIZE, Ppu, PpuModel, ppu_initial, ppu_inv, ppu_owns, ppu_read_spec, ppu_update_spec,
    ppu_write_spec,
};
use crate::registers::{pair, wrap16};
use crate::timer::{Timer, timer_read_spec, timer_write_spec, update_spec};

verus! {

pub const BOOT_ROM_SIZE: usize = 0x100;
pub const WRAM_SIZE: usize = 0x2000;
pub const IO_SIZE: usize = 0x80;
pub const HRAM_SIZE: usize = 0x7F;

/// The bus and everything behind it, as the CPU sees it.
pub struct BusModel {
    pub mbc: MbcModel,
    pub boot_rom: Seq<u8>,
    pub boot_rom_enabled: bool,
    pub wram: Seq<u8>,
    pub io: Seq<u8>,
    pub hram: Seq<u8>,
    pub ie: u8,
    pub timer: Timer,
    pub ppu: PpuModel,
    pub joypad: Joypad,
    /// Bytes published through the serial port.
    pub serial: Seq<u8>,
    /// M-cycles elapsed since power-on.
    pub cycles: nat,
}

/// The start-up program mapped over 0x0000–0x00FF: it sets SP, turns the LCD on with the
/// usual palette, loads the post-boot register values, and unmaps itself by writing 0xFF50
/// with its last instruction, so that execution continues at 0x0100.
pub open spec fn boot_byte(i: int) -> u8 {
    if i == 0x00 { 0x31 }       // LD SP, 0xFFFE
    else if i == 0x01 { 0xFE }
    else if i == 0x02 { 0xFF }
    else if i == 0x03 { 0x3E }  // LD A, 0x91
    else if i == 0x04 { 0x91 }
    else if i == 0x05 { 0xE0 }  // LDH (0x40), A
    else if i == 0x06 { 0x40 }
    else if i == 0x07 { 0x3E }  // LD A, 0xFC
    else if i == 0x08 { 0xFC }
    else if i == 0x09 { 0xE0 }  // LDH (0x47), A
    else if i == 0x0A { 0x47 }
    else if i == 0x0B { 0x01 }  // LD BC, 0x01B0
    else if i == 0x0C { 0xB0 }
    else if i == 0x0D { 0x01 }
    else if i == 0x0E { 0xC5 }  // PUSH BC
    else if i == 0x0F { 0xF1 }  // POP AF
    else if i == 0x10 { 0x01 }  // LD BC, 0x0013
    else if i == 0x11 { 0x13 }
    else if i == 0x12 { 0x00 }
    else if i == 0x13 { 0x11 }  // LD DE, 0x00D8
    else if i == 0x14 { 0xD8 }
    else if i == 0x15 { 0x00 }
    else if i == 0x16 { 0x21 }  // LD HL, 0x014D
    else if i == 0x17 { 0x4D }
    else if i == 0x18 { 0x01 }
    else if i == 0x19 { 0xC3 }  // JP 0x00FE
    else if i == 0x1A { 0xFE }
    else if i == 0x1B { 0x00 }
    else if i == 0xFE { 0xE0 }  // LDH (0x50), A
    else if i == 0xFF { 0x50 }
    else { 0x00 }
}

pub open spec fn boot_rom_spec() -> Seq<u8> {
    Seq::new(BOOT_ROM_SIZE as nat, |i: int| boot_byte(i))
}

/// Volatile state at power-on or after a reset, with the given cartridge.
pub open spec fn bus_initial(mbc: MbcModel, cycles: nat) -> BusModel {
    BusModel {
        mbc,
        boot_rom: boot_rom_spec(),
        boot_rom_enabled: true,
        wram: Seq::new(WRAM_SIZE as nat, |i: int| 0u8),
        io: Seq::new(IO_SIZE as nat, |i: int| 0u8),
        hram: Seq::new(HRAM_SIZE as nat, |i: int| 0u8),
        ie: 0,
        timer: Timer::zeroed(),
        ppu: ppu_initial(),
        joypad: Joypad::released(),
        serial: Seq::empty(),
        cycles,
    }
}

/// One fan-out of `cycles` m-cycles: PPU, timer and joypad advance and their interrupt
/// masks are OR-ed into IF.
pub open spec fn tick_spec(b: BusModel, cycles: u8) -> BusModel {
    let (ppu, m1) = ppu_update_spec(b.ppu, cycles);
    let (timer, m2) = update_spec(b.timer, cycles);
    let (joypad, m3) = joypad_poll_spec(b.joypad);
    BusModel {
        ppu,
        timer,
        joypad,
        io: b.io.update(0x0F, b.io[0x0F] | m1 | m2 | m3),
        cycles: (b.cycles + cycles) as nat,
        ..b
    }
}

/// The I/O registers kept in the I/O page: serial data and control, IF, DMA and the
/// start-up program latch. The other unused I/O addresses read 0 and ignore writes.
pub open spec fn io_backed(addr: u16) -> bool {
    addr == 0xFF01 || addr == 0xFF02 || addr == 0xFF0F || addr == 0xFF46 || addr == 0xFF50
}

/// The byte at `addr`, without advancing the clock.
pub open spec fn peek_spec(b: BusModel, addr: u16) -> u8 {
    if b.boot_rom_enabled && addr <= 0x00FF {
        b.boot_rom[addr as int]
    } else if addr <= 0x7FFF {
        mbc_read_spec(b.mbc, addr)
    } else if addr <= 0x9FFF {
        ppu_read_spec(b.ppu, addr)
    } else if addr <= 0xBFFF {
        mbc_read_spec(b.mbc, addr)
    } else if addr <= 0xDFFF {
        b.wram[addr - 0xC000]
    } else if addr <= 0xFDFF {
        b.wram[addr - 0xE000]
    } else if addr <= 0xFE9F {
        ppu_read_spec(b.ppu, addr)
    } else if addr <= 0xFEFF {
        0
    } else if addr == 0xFF00 {
        joypad_read_spec(b.joypad)
    } else if 0xFF04 <= addr <= 0xFF07 {
        timer_read_spec(b.timer, addr)
    } else if ppu_owns(addr) {
        ppu_read_spec(b.ppu, addr)
    } else if addr <= 0xFF7F {
        if io_backed(addr) {
            b.io[addr - 0xFF00]
        } else {
            0
        }
    } else if addr <= 0xFFFE {
        b.hram[addr - 0xFF80]
    } else {
        b.ie
    }
}

/// OAM filled from the 160 bytes at `page << 8`.
pub open spec fn dma_spec(b: BusModel, page: u8) -> BusModel {
    BusModel {
        ppu: PpuModel {
            oam: Seq::new(OAM_SIZE as nat, |i: int| peek_spec(b, (page as int * 256 + i) as u16)),
            ..b.ppu
        },
        ..b
    }
}

/// The effect of storing `v` at `addr`, without advancing the clock.
pub open spec fn store_spec(b: BusModel, addr: u16, v: u8) -> BusModel {
    if b.boot_rom_enabled && addr <= 0x00FF {
        b
    } else if addr <= 0x7FFF {
        BusModel { mbc: mbc_write_spec(b.mbc, addr, v), ..b }
    } else if addr <= 0x9FFF {
        BusModel { ppu: ppu_write_spec(b.ppu, addr, v), ..b }
    } else if addr <= 0xBFFF {
        BusModel { mbc: mbc_write_spec(b.mbc, addr, v), ..b }
    } else if addr <= 0xDFFF {
        BusModel { wram: b.wram.update(addr - 0xC000, v), ..b }
    } else if addr <= 0xFDFF {
        BusModel { wram: b.wram.update(addr - 0xE000, v), ..b }
    } else if addr <= 0xFE9F {
        BusModel { ppu: ppu_write_spec(b.ppu, addr, v), ..b }
    } else if addr <= 0xFEFF {
        b
    } else if addr == 0xFF00 {
        BusModel { joypad: Joypad { select: v & 0x30, ..b.joypad }, ..b }
    } else if addr == 0xFF02 {
        if v == 0x81 {
            BusModel { io: b.io.update(0x02, 0), serial: b.serial.push(b.io[0x01]), ..b }
        } else {
            BusModel { io: b.io.update(0x02, v), ..b }
        }
    } else if 0xFF04 <= addr <= 0xFF07 {
        BusModel { timer: timer_write_spec(b.timer, addr, v), ..b }
    } else if ppu_owns(addr) {
        BusModel { ppu: ppu_write_spec(b.ppu, addr, v), ..b }
    } else if addr == 0xFF46 {
        dma_spec(BusModel { io: b.io.update(0x46, v), ..b }, v)
    } else if addr == 0xFF50 {
        BusModel { io: b.io.update(0x50, v), boot_rom_enabled: false, ..b }
    } else if addr <= 0xFF7F {
        if io_backed(addr) {
            BusModel { io: b.io.update(addr - 0xFF00, v), ..b }
        } else {
            b
        }
    } else if addr <= 0xFFFE {
        BusModel { hram: b.hram.update(addr - 0xFF80, v), ..b }
    } else {
        BusModel { ie: v, ..b }
    }
}

/// A CPU read: one m-cycle, then the byte at `addr`.
pub open spec fn bus_read_spec(b: BusModel, addr: u16) -> (BusModel, u8) {
    let t = tick_spec(b, 1);
    (t, peek_spec(t, addr))
}

/// A CPU write: one m-cycle, then the store.
pub open spec fn bus_write_spec(b: BusModel, addr: u16, v: u8) -> BusModel {
    store_spec(tick_spec(b, 1), addr, v)
}

/// One m-cycle, then interrupt request `bit` cleared in IF as it stands after that m-cycle.
pub open spec fn acknowledge_spec(b: BusModel, bit: u8) -> BusModel {
    let t = tick_spec(b, 1);
    BusModel { io: t.io.update(0x0F, t.io[0x0F] & !(1u8 << bit)), ..t }
}

/// Two reads, low byte first.
pub open spec fn bus_read_u16_spec(b: BusModel, addr: u16) -> (BusModel, u16) {
    let (b1, lo) = bus_read_spec(b, addr);
    let (b2, hi) = bus_read_spec(b1, wrap16(addr + 1));
    (b2, pair(hi, lo))
}

/// Two writes, low byte first.
pub open spec fn bus_write_u16_spec(b: BusModel, addr: u16, v: u16) -> BusModel {
    let b1 = bus_write_spec(b, addr, (v % 256) as u8);
    bus_write_spec(b1, wrap16(addr + 1), (v / 256) as u8)
}

fn boot_image() -> (r: Vec<u8>)
    ensures
        r@ == boot_rom_spec(),
{
    let mut r: Vec<u8> = vec![0u8; BOOT_ROM_SIZE];
    let program: [u8; 28] = [
        0x31, 0xFE, 0xFF, 0x3E, 0x91, 0xE0, 0x40, 0x3E, 0xFC, 0xE0, 0x47, 0x01, 0xB0, 0x01,
        0xC5, 0xF1, 0x01, 0x13, 0x00, 0x11, 0xD8, 0x00, 0x21, 0x4D, 0x01, 0xC3, 0xFE, 0x00,
    ];
    let mut i: usize = 0;
    while i < 28
        invariant
            i <= 28,
            r@.len() == BOOT_ROM_SIZE,
            program@.len() == 28,
            forall|j: int| 0 <= j < 28 ==> program@[j] == boot_byte(j),
            forall|j: int| 0 <= j < i ==> r@[j] == boot_byte(j),
            forall|j: int| i <= j < BOOT_ROM_SIZE ==> r@[j] == 0,
        decreases 28 - i,
    {
        r.set(i, program[i]);
        i = i + 1;
    }
    r.set(0xFE, 0xE0);
    r.set(0xFF, 0x50);
    assert(r@ =~= boot_rom_spec());
    r
}


/// Address decoder and clock fan-out between the CPU and the rest of the machine.
pub struct Bus {
    pub mbc: MbcType,
    pub boot_rom: Vec<u8>,
    pub boot_rom_enabled: bool,
    pub wram: Vec<u8>,
    pub io: Vec<u8>,
    pub hram: Vec<u8>,
    pub ie: u8,
    pub timer: Timer,
    pub ppu: Ppu,
    pub joypad: Joypad,
    pub serial_output: Vec<u8>,
    /// The m-cycle count modulo 256, for pacing the host.
    pub clock: u8,
    pub cycles: Ghost<nat>,
}

impl View for Bus {
    type V = BusModel;

    open spec fn view(&self) -> BusModel {
        BusModel {
            mbc: self.mbc.model(),
            boot_rom: self.boot_rom@,
            boot_rom_enabled: self.boot_rom_enabled,
            wram: self.wram@,
            io: self.io@,
            hram: self.hram@,
            ie: self.ie,
            timer: self.timer,
            ppu: self.ppu@,
            joypad: self.joypad,
            serial: self.serial_output@,
            cycles: self.cycles@,
        }
    }
}

/// Sizes of the memories behind the bus and the PPU's invariants.
pub open spec fn bus_inv(b: BusModel) -> bool {
    &&& b.boot_rom.len() == BOOT_ROM_SIZE
    &&& b.wram.len() == WRAM_SIZE
    &&& b.io.len() == IO_SIZE
    &&& b.hram.len() == HRAM_SIZE
    &&& ppu_inv(b.ppu)
    &&& b.joypad.wf()
}

impl Bus {
    pub open spec fn wf(&self) -> bool {
        self.mbc.wf() && bus_inv(self@) && self.clock == self.cycles@ % 256
    }

    pub fn new() -> (r: Self)
        ensures
            r.wf(),
            r@ == bus_initial(loaded_model(Seq::new(0x8000, |i: int| 0u8)), 0),
    {
        let wram: Vec<u8> = vec![0u8; WRAM_SIZE];
        let io: Vec<u8> = vec![0u8; IO_SIZE];
        let hram: Vec<u8> = vec![0u8; HRAM_SIZE];
        let r = Bus {
            mbc: MbcType::empty(),
            boot_rom: boot_image(),
            boot_rom_enabled: true,
            wram,
            io,
            hram,
            ie: 0,
            timer: Timer::new(),
            ppu: Ppu::new(),
            joypad: Joypad::new(),
            serial_output: Vec::new(),
            clock: 0,
            cycles: Ghost(0),
        };
        assert(r@.wram =~= bus_initial(r@.mbc, 0).wram);
        assert(r@.io =~= bus_initial(r@.mbc, 0).io);
        assert(r@.hram =~= bus_initial(r@.mbc, 0).hram);
        assert(r@.serial =~= Seq::<u8>::empty());
        r
    }

    /// Clears the volatile state and maps the start-up program again; the cartridge stays.
    pub fn reset(&mut self)
        requires
            old(self).wf(),
        ensures
            final(self).wf(),
            final(self)@ == bus_initial(old(self)@.mbc, old(self)@.cycles),
    {
        self.boot_rom = boot_image();
        self.boot_rom_enabled = true;
        self.wram = vec![0u8; WRAM_SIZE];
        self.io = vec![0u8; IO_SIZE];
        self.hram = vec![0u8; HRAM_SIZE];
        self.ie = 0;
        self.timer.reset();
        self.ppu.reset();
        self.joypad = Joypad::new();
        self.serial_output = Vec::new();
        assert(self@.wram =~= bus_initial(self@.mbc, 0).wram);
        assert(self@.io =~= bus_initial(self@.mbc, 0).io);
        assert(self@.hram =~= bus_initial(self@.mbc, 0).hram);
        assert(self@.serial =~= Seq::<u8>::empty());
    }

    /// Installs a cartridge controller.
    pub fn load_cartridge(&mut self, mbc: MbcType)
        requires
            old(self).wf(),
            mbc.wf(),
        ensures
            final(self).wf(),
            final(self)@ == (BusModel { mbc: mbc.model(), ..old(self)@ }),
    {
        self.mbc = mbc;
    }

    /// Advances PPU, timer and joypad by `cycles` m-cycles and latches their interrupts in IF.
    pub fn tick(&mut self, cycles: u8)
        requires
            old(self).wf(),
        ensures
            final(self).wf(),
            final(self)@ == tick_spec(old(self)@, cycles),
    {
        let ppu_irq_mask = self.ppu.update(cycles);
        let timer_irq_mask = self.timer.update(cycles);
        let joypad_irq_mask = self.joypad.poll_interrupt();
        let flags = self.io[0x0F] | ppu_irq_mask | timer_irq_mask | joypad_irq_mask;
        self.io.set(0x0F, flags);
        self.clock = self.clock.wrapping_add(cycles);
        self.cycles = Ghost((self.cycles@ + cycles) as nat);
    }

    /// The interrupt enable and interrupt flag registers.
    pub fn get_ie_if(&self) -> (r: (u8, u8))
        requires
            self.wf(),
        ensures
            r == (self@.ie, self@.io[0x0F]),
    {
        (self.ie, self.io[0x0F])
    }

    /// The byte at `addr` without advancing the clock (debugger and DMA source).
    pub fn peek(&self, addr: u16) -> (r: u8)
        requires
            self.wf(),
        ensures
            r == peek_spec(self@, addr),
    {
        if self.boot_rom_enabled && addr <= 0x00FF {
            self.boot_rom[addr as usize]
        } else if addr <= 0x7FFF {
            self.mbc.read(addr)
        } else if addr <= 0x9FFF {
            self.ppu.read(addr)
        } else if addr <= 0xBFFF {
            self.mbc.read(addr)
        } else if addr <= 0xDFFF {
            self.wram[(addr - 0xC000) as usize]
        } else if addr <= 0xFDFF {
            self.wram[(addr - 0xE000) as usize]
        } else if addr <= 0xFE9F {
            self.ppu.read(addr)
        } else if addr <= 0xFEFF {
            0
        } else if addr == 0xFF00 {
            self.joypad.read()
        } else if 0xFF04 <= addr && addr <= 0xFF07 {
            self.timer.read(addr)
        } else if (0xFF40 <= addr && addr <= 0xFF45) || (0xFF47 <= addr && addr <= 0xFF4B) {
            self.ppu.read(addr)
        } else if addr <= 0xFF7F {
            if addr == 0xFF01 || addr == 0xFF02 || addr == 0xFF0F || addr == 0xFF46 || addr == 0xFF50 {
                self.io[(addr - 0xFF00) as usize]
            } else {
                0
            }
        } else if addr <= 0xFFFE {
            self.hram[(addr - 0xFF80) as usize]
        } else {
            self.ie
        }
    }

    /// A CPU read: one m-cycle, then the byte at `addr`.
    pub fn read(&mut self, addr: u16) -> (r: u8)
        requires
            old(self).wf(),
        ensures
            final(self).wf(),
            (final(self)@, r) == bus_read_spec(old(self)@, addr),
    {
        self.tick(1);
        self.peek(addr)
    }

    /// A CPU write: one m-cycle, then the store.
    pub fn write(&mut self, addr: u16, data: u8)
        requires
            old(self).wf(),
        ensures
            final(self).wf(),
            final(self)@ == bus_write_spec(old(self)@, addr, data),
    {
        self.tick(1);
        self.store(addr, data);
    }

    #[verifier::rlimit(30)]
    fn store(&mut self, addr: u16, data: u8)
        requires
            old(self).wf(),
        ensures
            final(self).wf(),
            final(self)@ == store_spec(old(self)@, addr, data),
    {
        if self.boot_rom_enabled && addr <= 0x00FF {
        } else if addr <= 0x7FFF {
            self.mbc.write(addr, data);
        } else if addr <= 0x9FFF {
            self.ppu.write(addr, data);
        } else if addr <= 0xBFFF {
            self.mbc.write(addr, data);
        } else if addr <= 0xDFFF {
            self.wram.set((addr - 0xC000) as usize, data);
        } else if addr <= 0xFDFF {
            self.wram.set((addr - 0xE000) as usize, data);
        } else if addr <= 0xFE9F {
            self.ppu.write(addr, data);
        } else if addr <= 0xFEFF {
        } else if addr == 0xFF00 {
            self.joypad.write(data);
        } else if addr == 0xFF02 {
            if data == 0x81 {
                let byte = self.io[0x01];
                self.serial_output.push(byte);
                self.io.set(0x02, 0);
            } else {
                self.io.set(0x02, data);
            }
        } else if 0xFF04 <= addr && addr <= 0xFF07 {
            self.timer.write(addr, data);
        } else if (0xFF40 <= addr && addr <= 0xFF45) || (0xFF47 <= addr && addr <= 0xFF4B) {
            self.ppu.write(addr, data);
        } else if addr == 0xFF46 {
            self.io.set(0x46, data);
            self.dma(data);
        } else if addr == 0xFF50 {
            self.io.set(0x50, data);
            self.boot_rom_enabled = false;
        } else if addr <= 0xFF7F {
            if addr == 0xFF01 || addr == 0xFF0F {
                self.io.set((addr - 0xFF00) as usize, data);
            }
        } else if addr <= 0xFFFE {
            self.hram.set((addr - 0xFF80) as usize, data);
        } else {
            self.ie = data;
        }
    }

    /// Copies the 160 bytes at `page << 8` into OAM, without ticks.
    #[verifier::rlimit(30)]
    fn dma(&mut self, page: u8)
        requires
            old(self).wf(),
        ensures
            final(self).wf(),
            final(self)@ == dma_spec(old(self)@, page),
    {
        let ghost b0 = self@;
        let base: u16 = (page as u16) * 256;
        let mut i: u16 = 0;
        while i < OAM_SIZE as u16
            invariant
                self.wf(),
                base == page as int * 256,
                i <= OAM_SIZE,
                self@ == (BusModel { ppu: PpuModel { oam: self@.ppu.oam, ..b0.ppu }, ..b0 }),
                forall|j: int| 0 <= j < i ==> self@.ppu.oam[j] == peek_spec(b0, (page as int * 256 + j) as u16),
                forall|j: int| i <= j < OAM_SIZE ==> self@.ppu.oam[j] == b0.ppu.oam[j],
            decreases OAM_SIZE - i,
        {
            let src = base + i;
            let v = self.peek(src);
            assert(v == peek_spec(b0, src));
            self.ppu.oam.set(i as usize, v);
            i = i + 1;
        }
        assert(self@.ppu.oam =~= dma_spec(b0, page).ppu.oam);
    }

    /// Interrupt acknowledge: one m-cycle, then request `bit` cleared in IF.
    pub fn acknowledge_interrupt(&mut self, bit: u8)
        requires
            old(self).wf(),
            bit < 8,
        ensures
            final(self).wf(),
            final(self)@ == acknowledge_spec(old(self)@, bit),
    {
        self.tick(1);
        let flags = self.io[0x0F] & !(1u8 << bit);
        self.io.set(0x0F, flags);
    }

    /// Two reads, low byte first.
    pub fn read_u16(&mut self, addr: u16) -> (r: u16)
        requires
            old(self).wf(),
        ensures
            final(self).wf(),
            (final(self)@, r) == bus_read_u16_spec(old(self)@, addr),
    {
        let low = self.read(addr);
        let high = self.read(addr.wrapping_add(1));
        proof {
            crate::registers::lemma_pack(high, low);
        }
        ((high as u16) << 8) | (low as u16)
    }

    /// Two writes, low byte first.
    pub fn write_u16(&mut self, addr: u16, data: u16)
        requires
            old(self).wf(),
        ensures
            final(self).wf(),
            final(self)@ == bus_write_u16_spec(old(self)@, addr, data),
    {
        proof {
            crate::registers::lemma_unpack(data);
        }
        let lo = (data & 0x00FF) as u8;
        let hi = (data >> 8) as u8;
        self.write(addr, lo);
        self.write(addr.wrapping_add(1), hi);
    }
}


/// Every byte read or written advances the clock by exactly one m-cycle; 16-bit accesses
/// by two.
pub proof fn lemma_one_tick_per_byte(b: BusModel, addr: u16, v: u8, w: u16)
    ensures
        bus_read_spec(b, addr).0.cycles == b.cycles + 1,
        bus_write_spec(b, addr, v).cycles == b.cycles + 1,
        bus_read_u16_spec(b, addr).0.cycles == b.cycles + 2,
        bus_write_u16_spec(b, addr, w).cycles == b.cycles + 2,
{
}

/// A write to 0xFF50 unmaps the start-up program for good: no later read or write maps it
/// again, and 0x0000–0x00FF then read from the cartridge.
pub proof fn lemma_boot_rom_disable(b: BusModel, v: u8, addr: u16, w: u8)
    ensures
        !bus_write_spec(b, 0xFF50, v).boot_rom_enabled,
        !b.boot_rom_enabled ==> !bus_write_spec(b, addr, w).boot_rom_enabled
            && !bus_read_spec(b, addr).0.boot_rom_enabled && !tick_spec(b, w).boot_rom_enabled,
        !b.boot_rom_enabled && addr <= 0x00FF ==> peek_spec(b, addr) == mbc_read_spec(b.mbc, addr),
{
}

/// Turning the LCD off through LCDC bit 7 puts LY at 0, and the next read of 0xFF44
/// returns 0.
pub proof fn lemma_lcd_off_resets_ly(b: BusModel, v: u8)
    requires
        bus_inv(b),
        crate::ppu::lcd_on(tick_spec(b, 1).ppu),
        v & 0x80 == 0,
    ensures
        bus_write_spec(b, 0xFF40, v).ppu.ly == 0,
        bus_read_spec(bus_write_spec(b, 0xFF40, v), 0xFF44).1 == 0,
{
    let t = tick_spec(b, 1);
    let w = bus_write_spec(b, 0xFF40, v);
    assert(w.ppu.lcdc == v);
    assert(!crate::ppu::lcd_on(w.ppu));
}


/// Work RAM and high RAM: plain memory that only stores change.
pub open spec fn is_ram(addr: u16) -> bool {
    (0xC000 <= addr <= 0xDFFF) || (0xFF80 <= addr <= 0xFFFE)
}

pub open spec fn ram_sized(b: BusModel) -> bool {
    b.wram.len() == WRAM_SIZE && b.hram.len() == HRAM_SIZE
}

/// The clock does not change RAM.
pub proof fn lemma_tick_keeps_ram(b: BusModel, cycles: u8, addr: u16)
    requires
        is_ram(addr),
    ensures
        peek_spec(tick_spec(b, cycles), addr) == peek_spec(b, addr),
        tick_spec(b, cycles).wram == b.wram,
        tick_spec(b, cycles).hram == b.hram,
        tick_spec(b, cycles).boot_rom_enabled == b.boot_rom_enabled,
{
}

/// A store to RAM is read back, and leaves the other RAM bytes alone.
pub proof fn lemma_ram_store(b: BusModel, addr: u16, v: u8, other: u16)
    requires
        ram_sized(b),
        is_ram(addr),
    ensures
        ram_sized(store_spec(b, addr, v)),
        store_spec(b, addr, v).boot_rom_enabled == b.boot_rom_enabled,
        peek_spec(store_spec(b, addr, v), addr) == v,
        is_ram(other) && other != addr ==> peek_spec(store_spec(b, addr, v), other) == peek_spec(b, other),
{
}

/// A byte written to RAM by the CPU is what the next CPU read of that address returns.
pub proof fn lemma_ram_round_trip(b: BusModel, addr: u16, v: u8)
    requires
        ram_sized(b),
        is_ram(addr),
    ensures
        bus_read_spec(bus_write_spec(b, addr, v), addr).1 == v,
{
    lemma_ram_store(tick_spec(b, 1), addr, v, addr);
    lemma_tick_keeps_ram(bus_write_spec(b, addr, v), 1, addr);
}

} // verus!
