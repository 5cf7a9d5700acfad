use vstd::prelude::*;

verus! {

pub const SCREEN_WIDTH: usize = 160;
pub const FRAMEBUFFER_SIZE: usize = 23040;
pub const VRAM_SIZE: usize = 0x2000;
pub const OAM_SIZE: usize = 0xA0;
pub const DOTS_PER_LINE: u16 = 456;

/// Interrupt-flag bits raised by the PPU.
pub const INT_VBLANK: u8 = 0x01;
pub const INT_LCDSTAT: u8 = 0x02;

/// STAT bits.
pub const STAT_LYC_EQ_LY: u8 = 0x04;
pub const STAT_HBLANK_IRQ: u8 = 0x08;
pub const STAT_VBLANK_IRQ: u8 = 0x10;
pub const STAT_OAM_IRQ: u8 = 0x20;
pub const STAT_LYC_IRQ: u8 = 0x40;

#[derive(Clone, Copy, Debug, PartialEq, Eq, Structural)]
pub enum Mode {
    HBlank,
    VBlank,
    OAMSearch,
    PixelTransfer,
}

/// The value STAT bits 1..0 take in a mode.
pub open spec fn mode_bits_spec(m: Mode) -> u8 {
    match m {
        Mode::HBlank => 0,
        Mode::VBlank => 1,
        Mode::OAMSearch => 2,
        Mode::PixelTransfer => 3,
    }
}

pub fn mode_bits(m: Mode) -> (r: u8)
    ensures
        r == mode_bits_spec(m),
{
    match m {
        Mode::HBlank => 0,
        Mode::VBlank => 1,
        Mode::OAMSearch => 2,
        Mode::PixelTransfer => 3,
    }
}

/// Cumulative dot count at which the mode ends.
pub open spec fn threshold_spec(m: Mode) -> u16 {
    match m {
        Mode::OAMSearch => 80,
        Mode::PixelTransfer => 252,
        Mode::HBlank => 456,
        Mode::VBlank => 456,
    }
}

/// What the rest of the machine sees of the PPU.
pub struct PpuModel {
    pub lcdc: u8,
    pub stat: u8,
    pub scy: u8,
    pub scx: u8,
    pub ly: u8,
    pub lyc: u8,
    pub bgp: u8,
    pub obp0: u8,
    pub obp1: u8,
    pub wy: u8,
    pub wx: u8,
    pub dots: u16,
    pub mode: Mode,
    pub wline_counter: u8,
    pub vram: Seq<u8>,
    pub oam: Seq<u8>,
    pub framebuffer: Seq<u8>,
    pub frame_ready: bool,
}

pub open spec fn lcd_on(p: PpuModel) -> bool {
    p.lcdc & 0x80 != 0
}

/// Invariants of the PPU: buffer sizes, the dot and line ranges, STAT mirroring the mode,
/// and the rest state of a disabled LCD.
pub open spec fn ppu_inv(p: PpuModel) -> bool {
    &&& ppu_inv_except_dots(p)
    &&& p.dots < DOTS_PER_LINE
}

/// `ppu_inv` without the bound on the dot counter, which holds between updates only.
pub open spec fn ppu_inv_except_dots(p: PpuModel) -> bool {
    &&& p.vram.len() == VRAM_SIZE
    &&& p.oam.len() == OAM_SIZE
    &&& p.framebuffer.len() == FRAMEBUFFER_SIZE
    &&& p.ly <= 153
    &&& p.stat & 0x03 == mode_bits_spec(p.mode)
    &&& (p.mode == Mode::VBlank <==> p.ly >= 144)
    &&& (!lcd_on(p) ==> p.ly == 0 && p.dots == 0 && p.mode == Mode::HBlank)
}

// ---- scanline rasterizer ----

/// 2-bit colour index of a tile-data byte pair at a pixel column (bit 7 is the leftmost).
pub open spec fn raw_color(b1: u8, b2: u8, bit: u8) -> u8 {
    (((b2 >> bit) % 2) * 2 + (b1 >> bit) % 2) as u8
}

/// A colour index resolved through a palette register.
pub open spec fn palette_color(pal: u8, raw: u8) -> u8 {
    (pal >> (2 * raw) as u8) % 4
}

/// VRAM offset of a background/window tile's data.
pub open spec fn tile_data_addr(lcdc: u8, tile_num: u8) -> int {
    if lcdc & 0x10 != 0 {
        tile_num as int * 16
    } else if tile_num < 128 {
        0x1000 + tile_num as int * 16
    } else {
        0x1000 + (tile_num as int - 256) * 16
    }
}

/// Raw colour of the pixel at (tx, ty) of the 256x256 map at `map_base`.
pub open spec fn map_pixel_raw(p: PpuModel, map_base: int, tx: u8, ty: u8) -> u8 {
    let tile_num = p.vram[map_base + (ty / 8) as int * 32 + (tx / 8) as int];
    let line_addr = tile_data_addr(p.lcdc, tile_num) + (ty % 8) as int * 2;
    raw_color(p.vram[line_addr], p.vram[line_addr + 1], (7 - tx % 8) as u8)
}

pub open spec fn bg_raw(p: PpuModel, x: int) -> u8 {
    map_pixel_raw(
        p,
        if p.lcdc & 0x08 != 0 { 0x1C00 } else { 0x1800 },
        ((x + p.scx) % 256) as u8,
        ((p.ly + p.scy) % 256) as u8,
    )
}

/// The window is drawn on this line.
pub open spec fn window_active(p: PpuModel) -> bool {
    p.lcdc & 0x20 != 0 && p.wy <= p.ly && p.wx < 167
}

pub open spec fn in_window(p: PpuModel, x: int) -> bool {
    window_active(p) && x + 7 >= p.wx
}

pub open spec fn window_raw(p: PpuModel, x: int) -> u8 {
    map_pixel_raw(
        p,
        if p.lcdc & 0x40 != 0 { 0x1C00 } else { 0x1800 },
        (x + 7 - p.wx) as u8,
        p.wline_counter,
    )
}

/// Raw colour under the sprites: window, else background if enabled, else 0.
pub open spec fn base_raw(p: PpuModel, x: int) -> u8 {
    if in_window(p, x) {
        window_raw(p, x)
    } else if p.lcdc & 0x01 != 0 {
        bg_raw(p, x)
    } else {
        0
    }
}

pub open spec fn base_opaque(p: PpuModel, x: int) -> bool {
    (in_window(p, x) || p.lcdc & 0x01 != 0) && base_raw(p, x) != 0
}

pub open spec fn base_color(p: PpuModel, x: int) -> u8 {
    if in_window(p, x) || p.lcdc & 0x01 != 0 {
        palette_color(p.bgp, base_raw(p, x))
    } else {
        0
    }
}

pub open spec fn sprite_height(p: PpuModel) -> int {
    if p.lcdc & 0x04 != 0 {
        16
    } else {
        8
    }
}

/// OAM entry `i` covers the current line (its Y byte is the top row plus 16).
pub open spec fn sprite_on_line(p: PpuModel, i: int) -> bool {
    let y = p.oam[4 * i] as int;
    y <= p.ly + 16 < y + sprite_height(p)
}

/// The OAM indices (in OAM order) of at most ten of the first `n` entries on the line.
pub open spec fn selected_sprites(p: PpuModel, n: int) -> Seq<int>
    decreases n,
{
    if n <= 0 {
        Seq::empty()
    } else {
        let s = selected_sprites(p, n - 1);
        if s.len() < 10 && sprite_on_line(p, n - 1) {
            s.push(n - 1)
        } else {
            s
        }
    }
}

/// Sprite `i` spans column `px` (its X byte is the left column plus 8).
pub open spec fn sprite_covers(p: PpuModel, i: int, px: int) -> bool {
    let x = p.oam[4 * i + 1] as int;
    x <= px + 8 < x + 8
}

pub open spec fn sprite_raw(p: PpuModel, i: int, px: int) -> u8 {
    let tile = p.oam[4 * i + 2];
    let attr = p.oam[4 * i + 3];
    let y_offset = p.ly + 16 - p.oam[4 * i] as int;
    let tile_line = if attr & 0x40 != 0 { sprite_height(p) - 1 - y_offset } else { y_offset };
    let tile_addr = if sprite_height(p) == 16 { (tile & 0xFE) as int * 16 } else { tile as int * 16 };
    let line_addr = tile_addr + tile_line * 2;
    let col = px + 8 - p.oam[4 * i + 1] as int;
    let bit = if attr & 0x20 != 0 { col } else { 7 - col };
    raw_color(p.vram[line_addr], p.vram[line_addr + 1], bit as u8)
}

/// Sprite `i` puts a pixel at `px`: it covers the column, the pixel is not transparent,
/// and it is not behind an opaque background pixel.
pub open spec fn sprite_draws(p: PpuModel, i: int, px: int) -> bool {
    sprite_covers(p, i, px) && sprite_raw(p, i, px) != 0 && !(p.oam[4 * i + 3] & 0x80 != 0
        && base_opaque(p, px))
}

/// Among the first `k` selected sprites, the one shown at `px`: the lowest X wins, and
/// on equal X the earlier OAM entry.
pub open spec fn winning_sprite(p: PpuModel, sel: Seq<int>, k: int, px: int) -> Option<int>
    decreases k,
{
    if k <= 0 {
        None
    } else {
        let b = winning_sprite(p, sel, k - 1, px);
        let i = sel[k - 1];
        if sprite_draws(p, i, px) && (b is None || p.oam[4 * i + 1] < p.oam[4 * b->0 + 1]) {
            Some(i)
        } else {
            b
        }
    }
}

pub open spec fn pixel_spec(p: PpuModel, x: int) -> u8 {
    let sel = selected_sprites(p, 40);
    if p.lcdc & 0x02 != 0 && winning_sprite(p, sel, sel.len() as int, x) is Some {
        let i = winning_sprite(p, sel, sel.len() as int, x)->0;
        let pal = if p.oam[4 * i + 3] & 0x10 != 0 { p.obp1 } else { p.obp0 };
        palette_color(pal, sprite_raw(p, i, x))
    } else {
        base_color(p, x)
    }
}

/// The 160 pixels of the current line.
pub open spec fn scanline_spec(p: PpuModel) -> Seq<u8> {
    Seq::new(SCREEN_WIDTH as nat, |x: int| pixel_spec(p, x))
}

/// The framebuffer with row `ly` replaced by `row`.
pub open spec fn with_row(fb: Seq<u8>, ly: int, row: Seq<u8>) -> Seq<u8> {
    Seq::new(
        fb.len(),
        |i: int|
            if ly * 160 <= i < ly * 160 + 160 {
                row[i - ly * 160]
            } else {
                fb[i]
            },
    )
}

pub open spec fn draw_scanline_spec(p: PpuModel) -> PpuModel {
    PpuModel {
        framebuffer: with_row(p.framebuffer, p.ly as int, scanline_spec(p)),
        wline_counter: if window_active(p) { ((p.wline_counter + 1) % 256) as u8 } else { p.wline_counter },
        ..p
    }
}

// ---- mode machine ----

pub open spec fn compare_lyc_spec(p: PpuModel) -> (PpuModel, bool) {
    if p.ly == p.lyc {
        let s = p.stat | STAT_LYC_EQ_LY;
        (PpuModel { stat: s, ..p }, s & STAT_LYC_IRQ != 0)
    } else {
        (PpuModel { stat: p.stat & !STAT_LYC_EQ_LY, ..p }, false)
    }
}

pub open spec fn stat_irq(cond: bool) -> u8 {
    if cond {
        INT_LCDSTAT
    } else {
        0
    }
}

/// The transition out of the current mode, before STAT's mode bits are refreshed.
pub open spec fn transition_spec(p: PpuModel) -> (PpuModel, u8) {
    match p.mode {
        Mode::OAMSearch => (PpuModel { mode: Mode::PixelTransfer, ..p }, 0),
        Mode::PixelTransfer => (
            PpuModel { mode: Mode::HBlank, ..draw_scanline_spec(p) },
            stat_irq(p.stat & STAT_HBLANK_IRQ != 0),
        ),
        Mode::HBlank => {
            let (p1, eq) = compare_lyc_spec(PpuModel { ly: (p.ly + 1) as u8, ..p });
            if p1.ly < 144 {
                (
                    PpuModel { mode: Mode::OAMSearch, ..p1 },
                    stat_irq(eq) | stat_irq(p1.stat & STAT_OAM_IRQ != 0),
                )
            } else {
                (
                    PpuModel { mode: Mode::VBlank, frame_ready: true, ..p1 },
                    stat_irq(eq) | INT_VBLANK | stat_irq(p1.stat & STAT_VBLANK_IRQ != 0),
                )
            }
        },
        Mode::VBlank => {
            let (p1, eq) = compare_lyc_spec(PpuModel { ly: (p.ly + 1) as u8, ..p });
            if p1.ly > 153 {
                (
                    PpuModel { ly: 0, mode: Mode::OAMSearch, wline_counter: 0, ..p1 },
                    stat_irq(eq) | stat_irq(p1.stat & STAT_OAM_IRQ != 0),
                )
            } else {
                (p1, stat_irq(eq))
            }
        },
    }
}

pub open spec fn switch_modes_spec(p: PpuModel) -> (PpuModel, u8) {
    let (q, irq) = transition_spec(p);
    (PpuModel { stat: (q.stat & 0xFC) | mode_bits_spec(q.mode), ..q }, irq)
}

pub open spec fn mode_rank(m: Mode) -> int {
    match m {
        Mode::OAMSearch => 2,
        Mode::PixelTransfer => 1,
        _ => 0,
    }
}

/// Mode switches while the dot counter has reached the current mode's threshold, the
/// counter wrapping at 456 after each; the interrupt masks are OR-ed.
#[verifier::opaque]
pub open spec fn advance_spec(p: PpuModel) -> (PpuModel, u8)
    decreases p.dots * 3 + mode_rank(p.mode),
{
    if p.dots < threshold_spec(p.mode) {
        (p, 0)
    } else {
        let (q, irq) = switch_modes_spec(p);
        let q2 = PpuModel { dots: (q.dots % DOTS_PER_LINE) as u16, ..q };
        if q2.dots * 3 + mode_rank(q2.mode) < p.dots * 3 + mode_rank(p.mode) {
            let (r, irq2) = advance_spec(q2);
            (r, irq | irq2)
        } else {
            (q2, irq)
        }
    }
}

/// The PPU after `cycles` m-cycles (4 dots each), with the interrupt mask raised.
pub open spec fn ppu_update_spec(p: PpuModel, cycles: u8) -> (PpuModel, u8) {
    if !lcd_on(p) {
        (p, 0)
    } else {
        advance_spec(PpuModel { dots: (p.dots + 4 * cycles) as u16, ..p })
    }
}

pub open spec fn lcdc_write_spec(p: PpuModel, value: u8) -> PpuModel {
    let p1 = if value & 0x80 == 0 && lcd_on(p) {
        PpuModel { ly: 0, dots: 0, mode: Mode::HBlank, wline_counter: 0, stat: p.stat & 0xFC, ..p }
    } else if value & 0x80 != 0 && !lcd_on(p) {
        compare_lyc_spec(
            PpuModel { ly: 0, dots: 0, mode: Mode::OAMSearch, stat: (p.stat & 0xFC) | 2, ..p },
        ).0
    } else {
        p
    };
    PpuModel { lcdc: value, ..p1 }
}

/// Addresses the PPU answers on the bus.
pub open spec fn ppu_owns(addr: u16) -> bool {
    (0x8000 <= addr <= 0x9FFF) || (0xFE00 <= addr <= 0xFE9F) || (0xFF40 <= addr <= 0xFF45) || (
    0xFF47 <= addr <= 0xFF4B)
}

pub open spec fn ppu_read_spec(p: PpuModel, addr: u16) -> u8 {
    if 0x8000 <= addr <= 0x9FFF {
        p.vram[addr - 0x8000]
    } else if 0xFE00 <= addr <= 0xFE9F {
        p.oam[addr - 0xFE00]
    } else if addr == 0xFF40 {
        p.lcdc
    } else if addr == 0xFF41 {
        p.stat
    } else if addr == 0xFF42 {
        p.scy
    } else if addr == 0xFF43 {
        p.scx
    } else if addr == 0xFF44 {
        p.ly
    } else if addr == 0xFF45 {
        p.lyc
    } else if addr == 0xFF47 {
        p.bgp
    } else if addr == 0xFF48 {
        p.obp0
    } else if addr == 0xFF49 {
        p.obp1
    } else if addr == 0xFF4A {
        p.wy
    } else {
        p.wx
    }
}

pub open spec fn ppu_write_spec(p: PpuModel, addr: u16, v: u8) -> PpuModel {
    if 0x8000 <= addr <= 0x9FFF {
        PpuModel { vram: p.vram.update(addr - 0x8000, v), ..p }
    } else if 0xFE00 <= addr <= 0xFE9F {
        PpuModel { oam: p.oam.update(addr - 0xFE00, v), ..p }
    } else if addr == 0xFF40 {
        lcdc_write_spec(p, v)
    } else if addr == 0xFF41 {
        PpuModel { stat: (v & 0xF8) | (p.stat & 0x07), ..p }
    } else if addr == 0xFF42 {
        PpuModel { scy: v, ..p }
    } else if addr == 0xFF43 {
        PpuModel { scx: v, ..p }
    } else if addr == 0xFF44 {
        p
    } else if addr == 0xFF45 {
        PpuModel { lyc: v, ..p }
    } else if addr == 0xFF47 {
        PpuModel { bgp: v, ..p }
    } else if addr == 0xFF48 {
        PpuModel { obp0: v, ..p }
    } else if addr == 0xFF49 {
        PpuModel { obp1: v, ..p }
    } else if addr == 0xFF4A {
        PpuModel { wy: v, ..p }
    } else {
        PpuModel { wx: v, ..p }
    }
}


/// The power-on state: every register and memory zero, LCD off.
pub open spec fn ppu_initial() -> PpuModel {
    PpuModel {
        lcdc: 0,
        stat: 0,
        scy: 0,
        scx: 0,
        ly: 0,
        lyc: 0,
        bgp: 0,
        obp0: 0,
        obp1: 0,
        wy: 0,
        wx: 0,
        dots: 0,
        mode: Mode::HBlank,
        wline_counter: 0,
        vram: Seq::new(VRAM_SIZE as nat, |i: int| 0u8),
        oam: Seq::new(OAM_SIZE as nat, |i: int| 0u8),
        framebuffer: Seq::new(FRAMEBUFFER_SIZE as nat, |i: int| 0u8),
        frame_ready: false,
    }
}

proof fn lemma_stat_bits(s: u8, b: u8)
    requires
        b <= 3,
    ensures
        ((s & 0xFC) | b) & 0x03 == b,
        (s | STAT_LYC_EQ_LY) & 0x03 == s & 0x03,
        (s & !STAT_LYC_EQ_LY) & 0x03 == s & 0x03,
        (s & 0xFC) & 0x03 == 0,
{
    assert(((s & 0xFC) | b) & 0x03 == b && (s | 0x04) & 0x03 == s & 0x03 && (s & !0x04u8) & 0x03
        == s & 0x03 && (s & 0xFC) & 0x03 == 0) by (bit_vector)
        requires
            b <= 3,
    ;
}

proof fn lemma_or_facts(a: u8, b: u8, c: u8)
    ensures
        (a | b) | c == a | (b | c),
        a | 0 == a,
        0 | a == a,
{
    assert((a | b) | c == a | (b | c) && a | 0 == a && 0 | a == a) by (bit_vector);
}

pub fn palette(pal: u8, raw: u8) -> (r: u8)
    requires
        raw <= 3,
    ensures
        r == palette_color(pal, raw),
        r <= 3,
{
    (pal >> (2 * raw)) % 4
}

pub fn raw_pixel(b1: u8, b2: u8, bit: u8) -> (r: u8)
    requires
        bit < 8,
    ensures
        r == raw_color(b1, b2, bit),
        r <= 3,
{
    ((b2 >> bit) % 2) * 2 + (b1 >> bit) % 2
}

/// The PPU: registers, VRAM, OAM and the framebuffer of palette-resolved pixels.
pub struct Ppu {
    pub lcdc: u8,
    pub stat: u8,
    pub scy: u8,
    pub scx: u8,
    pub ly: u8,
    pub lyc: u8,
    pub bgp: u8,
    pub obp0: u8,
    pub obp1: u8,
    pub wy: u8,
    pub wx: u8,
    pub dots: u16,
    pub mode: Mode,
    pub wline_counter: u8,
    pub vram: Vec<u8>,
    pub oam: Vec<u8>,
    pub framebuffer: Vec<u8>,
    pub frame_ready: bool,
}

impl View for Ppu {
    type V = PpuModel;

    open spec fn view(&self) -> PpuModel {
        PpuModel {
            lcdc: self.lcdc,
            stat: self.stat,
            scy: self.scy,
            scx: self.scx,
            ly: self.ly,
            lyc: self.lyc,
            bgp: self.bgp,
            obp0: self.obp0,
            obp1: self.obp1,
            wy: self.wy,
            wx: self.wx,
            dots: self.dots,
            mode: self.mode,
            wline_counter: self.wline_counter,
            vram: self.vram@,
            oam: self.oam@,
            framebuffer: self.framebuffer@,
            frame_ready: self.frame_ready,
        }
    }
}

impl Ppu {
    pub fn new() -> (r: Self)
        ensures
            r@ == ppu_initial(),
            ppu_inv(r@),
    {
        let vram: Vec<u8> = vec![0u8; VRAM_SIZE];
        let oam: Vec<u8> = vec![0u8; OAM_SIZE];
        let framebuffer: Vec<u8> = vec![0u8; FRAMEBUFFER_SIZE];
        let r = Ppu {
            lcdc: 0,
            stat: 0,
            scy: 0,
            scx: 0,
            ly: 0,
            lyc: 0,
            bgp: 0,
            obp0: 0,
            obp1: 0,
            wy: 0,
            wx: 0,
            dots: 0,
            mode: Mode::HBlank,
            wline_counter: 0,
            vram,
            oam,
            framebuffer,
            frame_ready: false,
        };
        assert(r@.vram =~= ppu_initial().vram);
        assert(r@.oam =~= ppu_initial().oam);
        assert(r@.framebuffer =~= ppu_initial().framebuffer);
        assert(0u8 & 0x03 == 0 && 0u8 & 0x80 == 0) by (bit_vector);
        r
    }

    pub fn reset(&mut self)
        ensures
            final(self)@ == ppu_initial(),
            ppu_inv(final(self)@),
    {
        *self = Ppu::new();
    }

    /// Advances the PPU by `cycles` m-cycles and returns the interrupt mask raised.
    #[verifier::rlimit(30)]
    pub fn update(&mut self, cycles: u8) -> (irq_mask: u8)
        requires
            ppu_inv(old(self)@),
        ensures
            ppu_inv(final(self)@),
            (final(self)@, irq_mask) == ppu_update_spec(old(self)@, cycles),
    {
        if (self.lcdc & 0x80) == 0 {
            return 0;
        }

        reveal(advance_spec);
        let mut irq_mask: u8 = 0;
        self.dots = self.dots + (cycles as u16) * 4;
        let ghost start = self@;
        assert(start == (PpuModel { dots: (old(self)@.dots + 4 * cycles) as u16, ..old(self)@ }));
        proof {
            lemma_or_facts(advance_spec(start).1, 0, 0);
        }

        loop
            invariant
                ppu_inv_except_dots(self@),
                lcd_on(self@),
                self.dots < 2000,
                advance_spec(self@).0 == advance_spec(start).0,
                irq_mask | advance_spec(self@).1 == advance_spec(start).1,
            ensures
                ppu_inv(self@),
                self@ == advance_spec(start).0,
                irq_mask == advance_spec(start).1,
            decreases self.dots * 3 + mode_rank(self.mode),
        {
            proof {
                reveal(advance_spec);
            }
            let threshold: u16 = match self.mode {
                Mode::OAMSearch => 80,
                Mode::PixelTransfer => 252,
                Mode::HBlank => 456,
                Mode::VBlank => 456,
            };

            if self.dots < threshold {
                proof {
                    lemma_or_facts(irq_mask, 0, 0);
                }
                break;
            }
            let ghost before = self@;
            let m = self.switch_modes();
            self.dots = self.dots % DOTS_PER_LINE;
            proof {
                lemma_or_facts(irq_mask, m, advance_spec(self@).1);
                assert(self@ == (PpuModel { dots: (switch_modes_spec(before).0.dots % DOTS_PER_LINE) as u16, ..switch_modes_spec(before).0 }));
            }
            irq_mask = irq_mask | m;
        }

        irq_mask
    }

    /// Leaves the current mode; returns the interrupt mask of the transition.
    #[verifier::rlimit(30)]
    fn switch_modes(&mut self) -> (irq_mask: u8)
        requires
            ppu_inv_except_dots(old(self)@),
            lcd_on(old(self)@),
            old(self).dots >= threshold_spec(old(self).mode),
        ensures
            ppu_inv_except_dots(final(self)@),
            (final(self)@, irq_mask) == switch_modes_spec(old(self)@),
    {
        let mut irq_mask: u8 = 0;
        proof {
            lemma_or_facts(0, 0, 0);
        }

        match self.mode {
            Mode::OAMSearch => {
                self.mode = Mode::PixelTransfer;
            },
            Mode::PixelTransfer => {
                self.draw_scanline();
                self.mode = Mode::HBlank;

                if (self.stat & STAT_HBLANK_IRQ) != 0 {
                    irq_mask = INT_LCDSTAT;
                }
            },
            Mode::HBlank => {
                self.ly = self.ly + 1;
                let eq = self.compare_lyc();
                let a: u8 = if eq { INT_LCDSTAT } else { 0 };

                if self.ly < 144 {
                    self.mode = Mode::OAMSearch;
                    let b: u8 = if (self.stat & STAT_OAM_IRQ) != 0 { INT_LCDSTAT } else { 0 };
                    irq_mask = a | b;
                } else {
                    self.mode = Mode::VBlank;
                    let b: u8 = if (self.stat & STAT_VBLANK_IRQ) != 0 { INT_LCDSTAT } else { 0 };
                    irq_mask = a | INT_VBLANK | b;
                    self.frame_ready = true;
                }
            },
            Mode::VBlank => {
                self.ly = self.ly + 1;
                let eq = self.compare_lyc();
                let a: u8 = if eq { INT_LCDSTAT } else { 0 };
                irq_mask = a;

                if self.ly > 153 {
                    self.ly = 0;
                    self.mode = Mode::OAMSearch;
                    self.wline_counter = 0;
                    let b: u8 = if (self.stat & STAT_OAM_IRQ) != 0 { INT_LCDSTAT } else { 0 };
                    irq_mask = a | b;
                }
            },
        }

        let bits = mode_bits(self.mode);
        proof {
            lemma_stat_bits(self.stat, bits);
        }
        self.stat = (self.stat & 0xFC) | bits;

        irq_mask
    }

    /// Sets the LYC=LY coincidence bit; returns whether its STAT interrupt is enabled.
    fn compare_lyc(&mut self) -> (r: bool)
        ensures
            (final(self)@, r) == compare_lyc_spec(old(self)@),
            final(self).stat & 0x03 == old(self).stat & 0x03,
    {
        proof {
            lemma_stat_bits(self.stat, 0);
        }
        if self.ly == self.lyc {
            self.stat = self.stat | STAT_LYC_EQ_LY;
            (self.stat & STAT_LYC_IRQ) != 0
        } else {
            self.stat = self.stat & !STAT_LYC_EQ_LY;
            false
        }
    }

    /// Writes LCDC: turning the LCD off parks it at LY 0, dot 0, HBlank; turning it on
    /// restarts at OAM search with the LYC comparison redone.
    pub fn set_lcdc(&mut self, value: u8)
        requires
            ppu_inv(old(self)@),
        ensures
            ppu_inv(final(self)@),
            final(self)@ == lcdc_write_spec(old(self)@, value),
    {
        let new_lcd_enabled = (value & 0x80) != 0;
        let old_lcd_enabled = (self.lcdc & 0x80) != 0;
        proof {
            lemma_stat_bits(self.stat, 0);
            lemma_stat_bits(self.stat, 2);
        }

        if !new_lcd_enabled && old_lcd_enabled {
            self.ly = 0;
            self.dots = 0;
            self.mode = Mode::HBlank;
            self.wline_counter = 0;
            let st = self.stat;
            assert((st & 0xFC) | 0 == st & 0xFC) by (bit_vector);
            self.stat = (st & 0xFC) | 0;
        }

        if new_lcd_enabled && !old_lcd_enabled {
            self.ly = 0;
            self.dots = 0;
            self.mode = Mode::OAMSearch;
            self.stat = (self.stat & 0xFC) | 2;
            self.compare_lyc();
        }

        self.lcdc = value;
    }

    pub fn read(&self, addr: u16) -> (r: u8)
        requires
            ppu_inv(self@),
            ppu_owns(addr),
        ensures
            r == ppu_read_spec(self@, addr),
    {
        if 0x8000 <= addr && addr <= 0x9FFF {
            self.vram[(addr - 0x8000) as usize]
        } else if 0xFE00 <= addr && addr <= 0xFE9F {
            self.oam[(addr - 0xFE00) as usize]
        } else {
            match addr {
                0xFF40 => self.lcdc,
                0xFF41 => self.stat,
                0xFF42 => self.scy,
                0xFF43 => self.scx,
                0xFF44 => self.ly,
                0xFF45 => self.lyc,
                0xFF47 => self.bgp,
                0xFF48 => self.obp0,
                0xFF49 => self.obp1,
                0xFF4A => self.wy,
                _ => self.wx,
            }
        }
    }

    pub fn write(&mut self, addr: u16, value: u8)
        requires
            ppu_inv(old(self)@),
            ppu_owns(addr),
        ensures
            ppu_inv(final(self)@),
            final(self)@ == ppu_write_spec(old(self)@, addr, value),
    {
        if 0x8000 <= addr && addr <= 0x9FFF {
            self.vram.set((addr - 0x8000) as usize, value);
        } else if 0xFE00 <= addr && addr <= 0xFE9F {
            self.oam.set((addr - 0xFE00) as usize, value);
        } else {
            match addr {
                0xFF40 => self.set_lcdc(value),
                0xFF41 => {
                    proof {
                        lemma_stat_bits(self.stat, 0);
                    }
                    let st = self.stat;
                    assert(((value & 0xF8) | (st & 0x07)) & 0x03 == st & 0x03) by (bit_vector);
                    self.stat = (value & 0xF8) | (st & 0x07);
                },
                0xFF42 => self.scy = value,
                0xFF43 => self.scx = value,
                0xFF44 => {},
                0xFF45 => self.lyc = value,
                0xFF47 => self.bgp = value,
                0xFF48 => self.obp0 = value,
                0xFF49 => self.obp1 = value,
                0xFF4A => self.wy = value,
                _ => self.wx = value,
            }
        }
    }

    /// Renders line LY into its framebuffer row.
    #[verifier::rlimit(40)]
    pub fn draw_scanline(&mut self)
        requires
            ppu_inv_except_dots(old(self)@),
            old(self).ly < 144,
        ensures
            final(self)@ == draw_scanline_spec(old(self)@),
    {
        let ghost p = self@;
        let win = (self.lcdc & 0x20) != 0 && self.wy <= self.ly && self.wx < 167;
        let bg_on = (self.lcdc & 0x01) != 0;
        let bg_map: usize = if (self.lcdc & 0x08) != 0 { 0x1C00 } else { 0x1800 };
        let win_map: usize = if (self.lcdc & 0x40) != 0 { 0x1C00 } else { 0x1800 };

        // Background and window.
        let mut row: Vec<u8> = Vec::new();
        let mut bg_priority: Vec<bool> = Vec::new();
        let mut x: usize = 0;
        while x < SCREEN_WIDTH
            invariant
                self@ == p,
                ppu_inv_except_dots(p),
                win == window_active(p),
                bg_on == (p.lcdc & 0x01 != 0),
                bg_map == (if p.lcdc & 0x08 != 0 { 0x1C00usize } else { 0x1800usize }),
                win_map == (if p.lcdc & 0x40 != 0 { 0x1C00usize } else { 0x1800usize }),
                x <= SCREEN_WIDTH,
                row@.len() == x,
                bg_priority@.len() == x,
                forall|j: int| 0 <= j < x ==> row@[j] == base_color(p, j) && bg_priority@[j] == base_opaque(p, j),
            decreases SCREEN_WIDTH - x,
        {
            if win && x + 7 >= self.wx as usize {
                let raw = self.map_pixel(win_map, (x + 7 - self.wx as usize) as u8, self.wline_counter);
                row.push(palette(self.bgp, raw));
                bg_priority.push(raw != 0);
            } else if bg_on {
                let raw = self.map_pixel(
                    bg_map,
                    (x as u8).wrapping_add(self.scx),
                    self.ly.wrapping_add(self.scy),
                );
                row.push(palette(self.bgp, raw));
                bg_priority.push(raw != 0);
            } else {
                row.push(0);
                bg_priority.push(false);
            }
            x = x + 1;
        }

        // Sprites.
        if (self.lcdc & 0x02) != 0 {
            let sprites = self.select_sprites();
            let mut x: usize = 0;
            while x < SCREEN_WIDTH
                invariant
                    self@ == p,
                    ppu_inv_except_dots(p),
                    p.lcdc & 0x02 != 0,
                    p.ly < 144,
                    sprites@.len() == selected_sprites(p, 40).len(),
                    forall|j: int| 0 <= j < sprites@.len() ==> sprites@[j] as int == selected_sprites(p, 40)[j],
                    x <= SCREEN_WIDTH,
                    row@.len() == SCREEN_WIDTH,
                    bg_priority@.len() == SCREEN_WIDTH,
                    forall|j: int| 0 <= j < SCREEN_WIDTH ==> bg_priority@[j] == base_opaque(p, j),
                    forall|j: int| 0 <= j < x ==> row@[j] == pixel_spec(p, j),
                    forall|j: int| x <= j < SCREEN_WIDTH ==> row@[j] == base_color(p, j),
                decreases SCREEN_WIDTH - x,
            {
                proof {
                    lemma_selected_sprites(p, 40);
                }
                let mut found = false;
                let mut best: usize = 0;
                let mut k: usize = 0;
                while k < sprites.len()
                    invariant
                        self@ == p,
                        ppu_inv_except_dots(p),
                        p.ly < 144,
                        x < SCREEN_WIDTH,
                        bg_priority@.len() == SCREEN_WIDTH,
                        forall|j: int| 0 <= j < SCREEN_WIDTH ==> bg_priority@[j] == base_opaque(p, j),
                        sprites@.len() == selected_sprites(p, 40).len(),
                        forall|j: int| 0 <= j < sprites@.len() ==> sprites@[j] as int == selected_sprites(p, 40)[j],
                        forall|j: int| 0 <= j < sprites@.len() ==> 0 <= #[trigger] selected_sprites(p, 40)[j] < 40 && sprite_on_line(p, selected_sprites(p, 40)[j]),
                        k <= sprites@.len(),
                        found ==> best < 40 && winning_sprite(p, selected_sprites(p, 40), k as int, x as int) == Some(best as int),
                        !found ==> winning_sprite(p, selected_sprites(p, 40), k as int, x as int) is None,
                    decreases sprites@.len() - k,
                {
                    let i = sprites[k];
                    if self.sprite_draws(i, x, bg_priority[x]) && (!found || self.oam[4 * i + 1] < self.oam[4 * best + 1]) {
                        found = true;
                        best = i;
                    }
                    k = k + 1;
                }
                proof {
                    lemma_winner_draws(p, selected_sprites(p, 40), sprites@.len() as int, x as int);
                }
                if found {
                    let attr = self.oam[4 * best + 3];
                    let pal = if (attr & 0x10) != 0 { self.obp1 } else { self.obp0 };
                    proof {
                        assert(sprite_covers(p, best as int, x as int));
                    }
                    let raw = self.sprite_pixel(best, x);
                    row.set(x, palette(pal, raw));
                }
                x = x + 1;
            }
        }
        assert(row@ =~= scanline_spec(p));

        // Copy the line into the framebuffer.
        let start: usize = self.ly as usize * SCREEN_WIDTH;
        let mut j: usize = 0;
        while j < SCREEN_WIDTH
            invariant
                p.ly < 144,
                start == p.ly as int * 160,
                row@ == scanline_spec(p),
                j <= SCREEN_WIDTH,
                self@ == (PpuModel { framebuffer: self.framebuffer@, ..p }),
                self.framebuffer@.len() == FRAMEBUFFER_SIZE,
                forall|i: int| 0 <= i < FRAMEBUFFER_SIZE ==> self.framebuffer@[i] == (if start <= i < start + j { row@[i - start] } else { p.framebuffer[i] }),
            decreases SCREEN_WIDTH - j,
        {
            self.framebuffer.set(start + j, row[j]);
            j = j + 1;
        }
        assert(self.framebuffer@ =~= with_row(p.framebuffer, p.ly as int, scanline_spec(p)));

        if win {
            self.wline_counter = self.wline_counter.wrapping_add(1);
        }
    }

    /// Raw colour of pixel (tx, ty) of the tile map at `map_base`.
    fn map_pixel(&self, map_base: usize, tx: u8, ty: u8) -> (r: u8)
        requires
            map_base == 0x1800 || map_base == 0x1C00,
            self.vram@.len() == VRAM_SIZE,
        ensures
            r == map_pixel_raw(self@, map_base as int, tx, ty),
            r <= 3,
    {
        let tile_num = self.vram[map_base + (ty / 8) as usize * 32 + (tx / 8) as usize];
        let tile_addr: usize = if (self.lcdc & 0x10) != 0 {
            tile_num as usize * 16
        } else if tile_num < 128 {
            0x1000 + tile_num as usize * 16
        } else {
            0x1000 - (256 - tile_num as usize) * 16
        };
        let line_addr = tile_addr + (ty % 8) as usize * 2;
        raw_pixel(self.vram[line_addr], self.vram[line_addr + 1], 7 - tx % 8)
    }

    /// Up to ten OAM entries on the current line, in OAM order.
    fn select_sprites(&self) -> (r: Vec<usize>)
        requires
            ppu_inv_except_dots(self@),
        ensures
            r@.len() == selected_sprites(self@, 40).len(),
            forall|j: int| 0 <= j < r@.len() ==> r@[j] as int == selected_sprites(self@, 40)[j],
    {
        let height: usize = if (self.lcdc & 0x04) != 0 { 16 } else { 8 };
        let ly = self.ly as usize;
        let mut sprites: Vec<usize> = Vec::new();
        let mut i: usize = 0;
        while i < 40
            invariant
                ppu_inv_except_dots(self@),
                height == sprite_height(self@),
                ly == self.ly,
                i <= 40,
                sprites@.len() == selected_sprites(self@, i as int).len(),
                forall|j: int| 0 <= j < sprites@.len() ==> sprites@[j] as int == selected_sprites(self@, i as int)[j],
            decreases 40 - i,
        {
            let y = self.oam[4 * i] as usize;
            if sprites.len() < 10 && y <= ly + 16 && ly + 16 < y + height {
                sprites.push(i);
            }
            i = i + 1;
        }
        sprites
    }

    /// Whether sprite `i` puts a pixel at column `px`, given the background's opacity there.
    fn sprite_draws(&self, i: usize, px: usize, bg_opaque: bool) -> (r: bool)
        requires
            ppu_inv_except_dots(self@),
            self.ly < 144,
            i < 40,
            px < SCREEN_WIDTH,
            sprite_on_line(self@, i as int),
            bg_opaque == base_opaque(self@, px as int),
        ensures
            r == sprite_draws(self@, i as int, px as int),
    {
        let x = self.oam[4 * i + 1] as usize;
        if !(x <= px + 8 && px + 8 < x + 8) {
            return false;
        }
        let raw = self.sprite_pixel(i, px);
        raw != 0 && !((self.oam[4 * i + 3] & 0x80) != 0 && bg_opaque)
    }

    /// Raw colour of sprite `i` at column `px`, honouring both flips.
    fn sprite_pixel(&self, i: usize, px: usize) -> (r: u8)
        requires
            ppu_inv_except_dots(self@),
            i < 40,
            px < SCREEN_WIDTH,
            sprite_on_line(self@, i as int),
            sprite_covers(self@, i as int, px as int),
        ensures
            r == sprite_raw(self@, i as int, px as int),
            r <= 3,
    {
        let height: usize = if (self.lcdc & 0x04) != 0 { 16 } else { 8 };
        let tile = self.oam[4 * i + 2];
        let attr = self.oam[4 * i + 3];
        let y_offset: usize = self.ly as usize + 16 - self.oam[4 * i] as usize;
        let tile_line: usize = if (attr & 0x40) != 0 { height - 1 - y_offset } else { y_offset };
        let tile_addr: usize = if height == 16 { (tile & 0xFE) as usize * 16 } else { tile as usize * 16 };
        let line_addr = tile_addr + tile_line * 2;
        let col: usize = px + 8 - self.oam[4 * i + 1] as usize;
        let bit: usize = if (attr & 0x20) != 0 { col } else { 7 - col };
        raw_pixel(self.vram[line_addr], self.vram[line_addr + 1], bit as u8)
    }
}

proof fn lemma_winner_draws(p: PpuModel, sel: Seq<int>, k: int, px: int)
    requires
        0 <= k <= sel.len(),
        forall|j: int| 0 <= j < sel.len() ==> 0 <= #[trigger] sel[j] < 40 && sprite_on_line(p, sel[j]),
    ensures
        winning_sprite(p, sel, k, px) matches Some(i) ==> 0 <= i < 40 && sprite_on_line(p, i)
            && sprite_draws(p, i, px),
    decreases k,
{
    if k > 0 {
        lemma_winner_draws(p, sel, k - 1, px);
    }
}

/// The selected sprites are distinct on-line OAM indices below `n`, at most ten.
proof fn lemma_selected_sprites(p: PpuModel, n: int)
    requires
        0 <= n <= 40,
    ensures
        selected_sprites(p, n).len() <= 10,
        forall|j: int| 0 <= j < selected_sprites(p, n).len() ==> 0 <= #[trigger] selected_sprites(p, n)[j] < n && sprite_on_line(p, selected_sprites(p, n)[j]),
    decreases n,
{
    if n > 0 {
        lemma_selected_sprites(p, n - 1);
    }
}


/// Rasterizing a line writes exactly the 160 pixels of row LY, each a 2-bit colour, and
/// leaves the rest of the framebuffer as it was.
pub proof fn lemma_scanline_writes_one_row(p: PpuModel)
    requires
        ppu_inv_except_dots(p),
        p.ly < 144,
    ensures
        scanline_spec(p).len() == SCREEN_WIDTH,
        draw_scanline_spec(p).framebuffer.len() == FRAMEBUFFER_SIZE,
        forall|x: int| 0 <= x < SCREEN_WIDTH ==> draw_scanline_spec(p).framebuffer[p.ly * 160 + x]
            == scanline_spec(p)[x] && scanline_spec(p)[x] <= 3,
        forall|i: int|
            0 <= i < FRAMEBUFFER_SIZE && !(p.ly * 160 <= i < p.ly * 160 + 160)
                ==> draw_scanline_spec(p).framebuffer[i] == p.framebuffer[i],
{
    assert forall|x: int| 0 <= x < SCREEN_WIDTH implies draw_scanline_spec(p).framebuffer[p.ly * 160 + x]
        == scanline_spec(p)[x] && scanline_spec(p)[x] <= 3 by {
        assert(p.ly * 160 + x < FRAMEBUFFER_SIZE);
    }
}

} // verus!
