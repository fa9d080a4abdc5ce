use vstd::prelude::*;
use crate::interrupts::{IntFlag, IntReq};
use crate::mmu::{spec_rb, spec_wb, MmuView, MMU};

verus! {

pub const SCREEN_W: usize = 160;

pub const SCREEN_H: usize = 144;

/// The four canonical shades, darkest to lightest, as ARGB pixels.
pub const DARKEST: u32 = 0xFF0F380F;

pub const DARK: u32 = 0xFF306230;

pub const LIGHT: u32 = 0xFF8BAC0F;

pub const LIGHTEST: u32 = 0xFF9BBC0F;

/// The scanline state machine's mode, as reported in STAT bits 0..1
/// (HBlank = 0, VBlank = 1, OAMSearch = 2, PixelTransfer = 3).
#[derive(Debug, Copy, Clone, PartialEq, Eq, Structural)]
pub enum Mode {
    OAMSearch,
    PixelTransfer,
    HBlank,
    VBlank,
}

impl Mode {
    /// The two STAT mode bits for this mode.
    pub open spec fn spec_bits(self) -> u8 {
        match self {
            Mode::OAMSearch => 0b10,
            Mode::PixelTransfer => 0b11,
            Mode::HBlank => 0b00,
            Mode::VBlank => 0b01,
        }
    }

    pub fn bits(self) -> (r: u8)
        ensures
            r == self.spec_bits(),
    {
        match self {
            Mode::OAMSearch => 0b10,
            Mode::PixelTransfer => 0b11,
            Mode::HBlank => 0b00,
            Mode::VBlank => 0b01,
        }
    }

    /// The mode encoded by the low two bits of a STAT byte.
    pub open spec fn spec_from_bits(bits: u8) -> Mode {
        if bits & 0b11 == 0 {
            Mode::HBlank
        } else if bits & 0b11 == 1 {
            Mode::VBlank
        } else if bits & 0b11 == 2 {
            Mode::OAMSearch
        } else {
            Mode::PixelTransfer
        }
    }

    pub fn from_bits(bits: u8) -> (r: Mode)
        ensures
            r == Mode::spec_from_bits(bits),
    {
        if bits & 0b11 == 0 {
            Mode::HBlank
        } else if bits & 0b11 == 1 {
            Mode::VBlank
        } else if bits & 0b11 == 2 {
            Mode::OAMSearch
        } else {
            Mode::PixelTransfer
        }
    }
}

/// The STAT register, unpacked: the four interrupt-source enables, the
/// LY = LYC coincidence bit, and the current mode.
#[derive(Debug, Copy, Clone, PartialEq, Eq, Structural)]
pub struct Stat {
    pub enable_coincidence: bool,
    pub enable_oam_seach: bool,
    pub enable_vblank: bool,
    pub enable_hblank: bool,
    pub coincidence: bool,
    pub mode: Mode,
}

/// The STAT fields encoded by a byte: enables in bits 6..3, coincidence in
/// bit 2, mode in bits 1..0.
pub open spec fn spec_stat_from(b: u8) -> Stat {
    Stat {
        enable_coincidence: b & 0b0100_0000 != 0,
        enable_oam_seach: b & 0b0010_0000 != 0,
        enable_vblank: b & 0b0001_0000 != 0,
        enable_hblank: b & 0b0000_1000 != 0,
        coincidence: b & 0b100 != 0,
        mode: Mode::spec_from_bits((b & 0b11) as u8),
    }
}

/// The byte encoding of the STAT fields; the unused bit 7 reads one.
pub open spec fn spec_stat_byte(s: Stat) -> u8 {
    (0x80u8 + (if s.enable_coincidence { 0x40u8 } else { 0u8 }) + (if s.enable_oam_seach {
        0x20u8
    } else { 0u8 }) + (if s.enable_vblank { 0x10u8 } else { 0u8 }) + (if s.enable_hblank {
        0x08u8
    } else { 0u8 }) + (if s.coincidence { 0x04u8 } else { 0u8 }) + s.mode.spec_bits()) as u8
}

impl Stat {
    pub fn new() -> (r: Stat)
        ensures
            r == (Stat {
                enable_coincidence: false,
                enable_oam_seach: false,
                enable_vblank: false,
                enable_hblank: false,
                coincidence: false,
                mode: Mode::OAMSearch,
            }),
    {
        Stat {
            enable_coincidence: false,
            enable_oam_seach: false,
            enable_vblank: false,
            enable_hblank: false,
            coincidence: false,
            mode: Mode::OAMSearch,
        }
    }

    pub fn from_byte(b: u8) -> (r: Stat)
        ensures
            r == spec_stat_from(b),
    {
        Stat {
            enable_coincidence: b & 0b0100_0000 != 0,
            enable_oam_seach: b & 0b0010_0000 != 0,
            enable_vblank: b & 0b0001_0000 != 0,
            enable_hblank: b & 0b0000_1000 != 0,
            coincidence: b & 0b100 != 0,
            mode: Mode::from_bits(b & 0b11),
        }
    }

    pub fn to_byte(self) -> (r: u8)
        ensures
            r == spec_stat_byte(self),
    {
        0x80 + (if self.enable_coincidence { 0x40u8 } else { 0u8 }) + (if self.enable_oam_seach {
            0x20u8
        } else { 0u8 }) + (if self.enable_vblank { 0x10u8 } else { 0u8 }) + (if self.enable_hblank {
            0x08u8
        } else { 0u8 }) + (if self.coincidence { 0x04u8 } else { 0u8 }) + self.mode.bits()
    }
}

/// One of the four shades selected by a 2-bit palette index
/// (0 lightest .. 3 darkest).
pub open spec fn spec_shade(i: u8) -> u32 {
    if i & 0b11 == 0 {
        LIGHTEST
    } else if i & 0b11 == 1 {
        LIGHT
    } else if i & 0b11 == 2 {
        DARK
    } else {
        DARKEST
    }
}

fn shade(i: u8) -> (r: u32)
    ensures
        r == spec_shade(i),
{
    if i & 0b11 == 0 {
        LIGHTEST
    } else if i & 0b11 == 1 {
        LIGHT
    } else if i & 0b11 == 2 {
        DARK
    } else {
        DARKEST
    }
}

/// The 4-entry lookup a palette register unpacks to: entry `k` is the shade
/// selected by bits `2k+1..2k`.
pub open spec fn spec_palette(reg: u8) -> Seq<u32> {
    seq![
        spec_shade((reg & 0x03) as u8),
        spec_shade(((reg & 0x0C) >> 2) as u8),
        spec_shade(((reg & 0x30) >> 4) as u8),
        spec_shade(((reg & 0xC0) >> 6) as u8),
    ]
}

/// Builds the 4-entry lookup for a palette register.
fn palette_lookup(reg: u8) -> (r: Vec<u32>)
    ensures
        r@ == spec_palette(reg),
{
    let mut r: Vec<u32> = Vec::new();
    r.push(shade(reg & 0x03));
    r.push(shade((reg & 0x0C) >> 2));
    r.push(shade((reg & 0x30) >> 4));
    r.push(shade((reg & 0xC0) >> 6));
    proof {
        assert(r@ =~= spec_palette(reg));
    }
    r
}

/// The in-tile coordinates of scanline `ly`, screen column `i`: the source
/// row and column (window-relative when the pixel is inside the window) and
/// whether the window supplies the pixel.
#[verifier::opaque]
pub open spec fn spec_bg_xy(m: MmuView, ly: u8, i: int) -> (u8, u8, bool) {
    let scx = spec_rb(m, 0xFF43);
    let scy = spec_rb(m, 0xFF42);
    let wy = spec_rb(m, 0xFF4A);
    let wx = ((spec_rb(m, 0xFF4B) + 249) % 256) as u8;
    let lcdc = spec_rb(m, 0xFF40);
    let y_in_win = ly >= wy && lcdc & 0x20 != 0;
    let y = if y_in_win {
        (ly - wy) as u8
    } else {
        ((ly + scy) % 256) as u8
    };
    let x0 = ((i + scx) % 256) as u8;
    let writing_win = i >= wx && y_in_win;
    let x = if writing_win && x0 >= wx {
        (x0 - wx) as u8
    } else {
        x0
    };
    (y, x, writing_win)
}

/// The address of the first byte of the tile row that covers scanline `ly`,
/// screen column `i`: the tile-map cell at `(y / 8, x / 8)` names the tile,
/// and the map, tile-data base and index signedness come from LCDC.
#[verifier::opaque]
pub open spec fn spec_bg_data_index(m: MmuView, ly: u8, i: int) -> u16 {
    let lcdc = spec_rb(m, 0xFF40);
    let (y, x, writing_win) = spec_bg_xy(m, ly, i);
    let map_start: u16 = if writing_win {
        if lcdc & 0x40 == 0 {
            0x9800u16
        } else {
            0x9C00u16
        }
    } else {
        if lcdc & 0x08 == 0 {
            0x9800u16
        } else {
            0x9C00u16
        }
    };
    let tile_map_address = (map_start + (y / 8) * 32 + (x / 8)) as u16;
    let tile_map_index = spec_rb(m, tile_map_address);
    let tile_set0 = lcdc & 0x10 == 0;
    let tile_start: u16 = if tile_set0 {
        0x9000u16
    } else {
        0x8000u16
    };
    let off: u16 = if tile_set0 && tile_map_index >= 0x80 {
        (tile_map_index + 0xFF00) as u16
    } else {
        tile_map_index as u16
    };
    let tile_idx = ((off * 16) % 0x10000) as u16;
    let tile_row = ((y % 8) * 2) as u16;
    ((((tile_start + tile_idx) % 0x10000) + tile_row) % 0x10000) as u16
}

/// The 2-bit palette index of scanline `ly`, screen column `i`: bit
/// `7 - (x % 8)` of the tile row's two bytes, the second byte giving the
/// high bit.
#[verifier::opaque]
pub open spec fn spec_bg_pair(m: MmuView, ly: u8, i: int) -> u8 {
    let (y, x, writing_win) = spec_bg_xy(m, ly, i);
    let index = spec_bg_data_index(m, ly, i);
    let byte1 = spec_rb(m, index);
    let byte2 = spec_rb(m, ((index + 1) % 0x10000) as u16);
    let mask = (1u8 << ((7 - (x % 8)) as u8)) as u8;
    ((if byte2 & mask != 0 {
        2u8
    } else {
        0u8
    }) + (if byte1 & mask != 0 {
        1u8
    } else {
        0u8
    })) as u8
}

/// The background or window pixel of scanline `ly` at screen column `i`:
/// its 2-bit index looked up through the BGP palette.
pub open spec fn spec_bg_pixel(m: MmuView, ly: u8, i: int) -> u32 {
    spec_palette(spec_rb(m, 0xFF47))[spec_bg_pair(m, ly, i) as int]
}

/// The PPU after rasterizing the current scanline's background and window:
/// the BGP lookup is refreshed and framebuffer row LY is recomputed.
pub open spec fn spec_draw_bg(p: PpuView, m: MmuView) -> PpuView {
    let ly = spec_rb(m, 0xFF44);
    PpuView {
        bg_palette: spec_palette(spec_rb(m, 0xFF47)),
        data: p.data.update(ly as int, Seq::new(160, |i: int| spec_bg_pixel(m, ly, i))),
        ..p
    }
}

/// The Y coordinate of OAM sprite `i` (stored Y minus 16).
pub open spec fn spec_sprite_y(m: MmuView, i: int) -> u8 {
    ((spec_rb(m, (0xFE00 + i * 4) as u16) + 240) % 256) as u8
}

/// The X coordinate of OAM sprite `i` (stored X minus 8).
pub open spec fn spec_sprite_x(m: MmuView, i: int) -> u8 {
    ((spec_rb(m, (0xFE00 + i * 4 + 1) as u16) + 248) % 256) as u8
}

/// The tile number of OAM sprite `i`.
pub open spec fn spec_sprite_n(m: MmuView, i: int) -> u8 {
    spec_rb(m, (0xFE00 + i * 4 + 2) as u16)
}

/// The attribute byte of OAM sprite `i`: priority, Y-flip, X-flip, palette.
pub open spec fn spec_sprite_o(m: MmuView, i: int) -> u8 {
    spec_rb(m, (0xFE00 + i * 4 + 3) as u16)
}

/// The sprite height selected by LCDC bit 2: 8 or 16 pixels.
pub open spec fn spec_sprite_size(m: MmuView) -> u8 {
    if spec_rb(m, 0xFF40) & 0x04 == 0 {
        8u8
    } else {
        16u8
    }
}

/// Whether OAM sprite `i` covers scanline `ly`.
pub open spec fn spec_sprite_covers(m: MmuView, ly: u8, i: int) -> bool {
    spec_sprite_y(m, i) <= ly && spec_sprite_y(m, i) + spec_sprite_size(m) > ly
}

/// The scanline row after drawing column `x` of sprite `i` over it: the
/// column's 2-bit index comes from the sprite's tile row (X- and Y-flipped
/// by the attribute bits, tile-index low bit forced to zero for 16-pixel
/// sprites); index 0 is transparent, and a sprite with the priority
/// attribute set only covers background shade 0.
#[verifier::opaque]
pub open spec fn spec_obj_apply_col(m: MmuView, row: Seq<u32>, ly: u8, i: int, x: int) -> Seq<
    u32,
> {
    let sy = spec_sprite_y(m, i);
    let sx = spec_sprite_x(m, i);
    let sn = spec_sprite_n(m, i);
    let so = spec_sprite_o(m, i);
    let size = spec_sprite_size(m);
    let y_flip = so & 0x40 != 0;
    let x_flip = so & 0x20 != 0;
    let tile_y = if y_flip {
        (size - (ly - sy) - 1) as u8
    } else {
        (ly - sy) as u8
    };
    let tn = if size == 16 {
        (sn & 0xFE) as u8
    } else {
        sn
    };
    let index = (0x8000 + tn * 16 + tile_y * 2) as u16;
    let byte1 = spec_rb(m, index);
    let byte2 = spec_rb(m, (index + 1) as u16);
    let bit_idx = if x_flip {
        x
    } else {
        7 - x
    };
    let mask = (1u8 << (bit_idx as u8)) as u8;
    let pair = ((if byte2 & mask != 0 {
        2u8
    } else {
        0u8
    }) + (if byte1 & mask != 0 {
        1u8
    } else {
        0u8
    })) as u8;
    let col = ((sx + x) % 256) as int;
    let palette = if so & 0x10 == 0 {
        spec_palette(spec_rb(m, 0xFF48))
    } else {
        spec_palette(spec_rb(m, 0xFF49))
    };
    if col < 160 && pair != 0 {
        if so & 0x80 == 0 || row[col] == LIGHTEST {
            row.update(col, palette[pair as int])
        } else {
            row
        }
    } else {
        row
    }
}

/// The scanline row after drawing the first `x` columns of sprite `i`.
pub open spec fn spec_obj_cols(m: MmuView, row: Seq<u32>, ly: u8, i: int, x: int) -> Seq<u32>
    decreases x,
{
    if x <= 0 {
        row
    } else {
        spec_obj_apply_col(m, spec_obj_cols(m, row, ly, i, x - 1), ly, i, x - 1)
    }
}

/// The scanline row after overlaying the first `i` OAM sprites, in OAM
/// order: a sprite that covers the line contributes its eight columns, a
/// later sprite drawing over an earlier one where their tests allow.
pub open spec fn spec_obj_sprites(m: MmuView, row: Seq<u32>, ly: u8, i: int) -> Seq<u32>
    decreases i,
{
    if i <= 0 {
        row
    } else {
        let r = spec_obj_sprites(m, row, ly, i - 1);
        if spec_sprite_covers(m, ly, i - 1) {
            spec_obj_cols(m, r, ly, i - 1, 8)
        } else {
            r
        }
    }
}

/// The PPU after the sprite overlay of the current scanline: the OBP
/// lookups are refreshed and the 40 OAM sprites are drawn over row LY.
pub open spec fn spec_draw_obj(p: PpuView, m: MmuView) -> PpuView {
    let ly = spec_rb(m, 0xFF44);
    PpuView {
        obp0: spec_palette(spec_rb(m, 0xFF48)),
        obp1: spec_palette(spec_rb(m, 0xFF49)),
        data: p.data.update(ly as int, spec_obj_sprites(m, p.data[ly as int], ly, 40)),
        ..p
    }
}

/// The mathematical state of the PPU: the dot counter within the scanline,
/// the framebuffer rows, the frame-ready flag, the cached STAT fields, and
/// the three palette lookups.
#[verifier::ext_equal]
pub ghost struct PpuView {
    pub mode_clock: u16,
    pub data: Seq<Seq<u32>>,
    pub update_screen: bool,
    pub stat: Stat,
    pub bg_palette: Seq<u32>,
    pub obp0: Seq<u32>,
    pub obp1: Seq<u32>,
}

/// The pixel-processing unit: scanline state machine, background and window
/// rasterizer, and sprite overlay.
pub struct PPU {
    pub mode_clock: u16,
    pub data: Vec<Vec<u32>>,
    pub update_screen: bool,
    pub stat: Stat,
    pub bg_palette: Vec<u32>,
    pub obp0: Vec<u32>,
    pub obp1: Vec<u32>,
}

impl View for PPU {
    type V = PpuView;

    open spec fn view(&self) -> PpuView {
        PpuView {
            mode_clock: self.mode_clock,
            data: Seq::new(self.data@.len(), |i: int| self.data@[i]@),
            update_screen: self.update_screen,
            stat: self.stat,
            bg_palette: self.bg_palette@,
            obp0: self.obp0@,
            obp1: self.obp1@,
        }
    }
}

/// Well-formedness of the PPU: the dot counter stays within one scanline
/// and the framebuffer is 144 rows of 160 pixels; the palette lookups hold
/// four entries.
pub open spec fn spec_ppu_wf(p: PpuView) -> bool {
    &&& p.mode_clock < 456
    &&& p.data.len() == 144
    &&& (forall|i: int| 0 <= i < 144 ==> (#[trigger] p.data[i]).len() == 160)
    &&& p.bg_palette.len() == 4
    &&& p.obp0.len() == 4
    &&& p.obp1.len() == 4
}

impl PPU {
    pub open spec fn wf(self) -> bool {
        spec_ppu_wf(self@)
    }

    /// A fresh PPU: dot counter zero, a black framebuffer, STAT at reset.
    pub fn new() -> (r: PPU)
        ensures
            r.wf(),
            r@.mode_clock == 0,
            r@.update_screen == false,
            r@.stat == (Stat {
                enable_coincidence: false,
                enable_oam_seach: false,
                enable_vblank: false,
                enable_hblank: false,
                coincidence: false,
                mode: Mode::OAMSearch,
            }),
            forall|i: int, j: int| 0 <= i < 144 && 0 <= j < 160 ==> #[trigger] r@.data[i][j] == 0,
    {
        let mut data: Vec<Vec<u32>> = Vec::new();
        let mut i: usize = 0;
        while i < SCREEN_H
            invariant
                i <= 144,
                data@.len() == i,
                forall|k: int| 0 <= k < i ==> (#[trigger] data@[k])@.len() == 160,
                forall|k: int, j: int|
                    0 <= k < i && 0 <= j < 160 ==> #[trigger] data@[k]@[j] == 0,
            decreases 144 - i,
        {
            let mut row: Vec<u32> = Vec::new();
            let mut j: usize = 0;
            while j < SCREEN_W
                invariant
                    j <= 160,
                    row@.len() == j,
                    forall|k: int| 0 <= k < j ==> row@[k] == 0,
                decreases 160 - j,
            {
                row.push(0);
                j = j + 1;
            }
            data.push(row);
            i = i + 1;
        }
        let mut pal: Vec<u32> = Vec::new();
        pal.push(0);
        pal.push(0);
        pal.push(0);
        pal.push(0);
        let pal0 = pal.clone();
        let pal1 = pal.clone();
        PPU {
            mode_clock: 0,
            data,
            update_screen: false,
            stat: Stat::new(),
            bg_palette: pal,
            obp0: pal0,
            obp1: pal1,
        }
    }

    /// The current scanline index LY, read from 0xFF44.
    pub fn get_ly(&self, mmu: &MMU) -> (r: u8)
        requires
            mmu.wf(),
        ensures
            r == spec_rb(mmu@, 0xFF44),
    {
        mmu.rb(0xFF44)
    }

    /// Advances LY by one scanline, wrapping from 153 to 0.
    pub fn inc_ly(&self, mmu: &mut MMU)
        requires
            old(mmu).wf(),
        ensures
            final(mmu)@ == spec_wb(
                old(mmu)@,
                0xFF44,
                (((spec_rb(old(mmu)@, 0xFF44) + 1) % 154) as u8),
            ),
            final(mmu).wf(),
    {
        let ly = self.get_ly(mmu);
        mmu.wb(0xFF44, (((ly as u16) + 1) % 154) as u8);
    }

    /// Rasterizes the background (and window) pixels of the current
    /// scanline into the framebuffer row LY, refreshing the BGP lookup.
    pub fn draw_bg(&mut self, mmu: &mut MMU)
        requires
            old(self).wf(),
            old(mmu).wf(),
            spec_rb(old(mmu)@, 0xFF44) < 144,
        ensures
            *final(mmu) == *old(mmu),
            final(self)@ == spec_draw_bg(old(self)@, old(mmu)@),
            final(self).wf(),
    {
        let bgp = mmu.rb(0xFF47);
        let pal = palette_lookup(bgp);
        let ly = self.get_ly(mmu);

        let mut row: Vec<u32> = Vec::new();
        let mut i: usize = 0;
        while i < SCREEN_W
            invariant
                i <= 160,
                old(self).wf(),
                mmu.wf(),
                *mmu == *old(mmu),
                pal@ == spec_palette(spec_rb(mmu@, 0xFF47)),
                ly == spec_rb(mmu@, 0xFF44),
                row@ == Seq::new(i as nat, |k: int| spec_bg_pixel(mmu@, ly, k)),
            decreases 160 - i,
        {
            let color = bg_pixel(mmu, &pal, i);
            row.push(color);
            i = i + 1;
            proof {
                assert(row@ =~= Seq::new(i as nat, |k: int| spec_bg_pixel(mmu@, ly, k)));
            }
        }

        self.bg_palette = pal;
        self.data.set(ly as usize, row);
        proof {
            assert(final(self)@.data =~~= old(self)@.data.update(
                spec_rb(old(mmu)@, 0xFF44) as int,
                Seq::new(160, |k: int| spec_bg_pixel(old(mmu)@, spec_rb(old(mmu)@, 0xFF44), k)),
            ));
            assert(final(self)@ =~~= (PpuView {
                bg_palette: spec_palette(spec_rb(old(mmu)@, 0xFF47)),
                data: old(self)@.data.update(
                    spec_rb(old(mmu)@, 0xFF44) as int,
                    Seq::new(
                        160,
                        |k: int| spec_bg_pixel(old(mmu)@, spec_rb(old(mmu)@, 0xFF44), k),
                    ),
                ),
                ..old(self)@
            }));
        }
    }

    /// Overlays the 40 OAM sprites onto the current scanline's framebuffer
    /// row, in OAM order, refreshing the OBP0 and OBP1 lookups.
    pub fn draw_obj(&mut self, mmu: &mut MMU)
        requires
            old(self).wf(),
            old(mmu).wf(),
            spec_rb(old(mmu)@, 0xFF44) < 144,
        ensures
            *final(mmu) == *old(mmu),
            final(self)@ == spec_draw_obj(old(self)@, old(mmu)@),
            final(self).wf(),
    {
        let obp0 = mmu.rb(0xFF48);
        let p0 = palette_lookup(obp0);
        let obp1 = mmu.rb(0xFF49);
        let p1 = palette_lookup(obp1);

        let lcdc = mmu.rb(0xFF40);
        let ly = mmu.rb(0xFF44);

        let sprite_size: u8 = if lcdc & 0x04 == 0 {
            8
        } else {
            16
        };

        let mut row: Vec<u32> = Vec::new();
        let mut c: usize = 0;
        while c < SCREEN_W
            invariant
                c <= 160,
                old(self).wf(),
                mmu.wf(),
                *mmu == *old(mmu),
                *self == *old(self),
                ly == spec_rb(mmu@, 0xFF44),
                ly < 144,
                row@ == old(self)@.data[ly as int].take(c as int),
            decreases 160 - c,
        {
            let rowref = &self.data[ly as usize];
            row.push(rowref[c]);
            c = c + 1;
            proof {
                assert(row@ =~= old(self)@.data[ly as int].take(c as int));
            }
        }
        proof {
            assert(row@ =~= old(self)@.data[ly as int]);
        }

        let ghost row0 = row@;
        let mut i: usize = 0;
        while i < 40
            invariant
                i <= 40,
                old(self).wf(),
                mmu.wf(),
                *mmu == *old(mmu),
                *self == *old(self),
                ly == spec_rb(mmu@, 0xFF44),
                ly < 144,
                sprite_size == spec_sprite_size(mmu@),
                row0.len() == 160,
                row@ == spec_obj_sprites(mmu@, row0, ly, i as int),
            decreases 40 - i,
        {
            proof {
                lemma_obj_sprites_len(mmu@, row0, ly, i as int);
            }
            let base: u16 = 0xFE00 + (i as u16) * 4;
            let sprite_y = mmu.rb(base).wrapping_sub(16);

            if sprite_y <= ly && (sprite_y + sprite_size) > ly {
                let ghost ri = row@;
                let mut x: u8 = 0;
                while x < 8
                    invariant
                        x <= 8,
                        mmu.wf(),
                        *mmu == *old(mmu),
                        i < 40,
                        ly == spec_rb(mmu@, 0xFF44),
                        ly < 144,
                        spec_sprite_covers(mmu@, ly, i as int),
                        ri.len() == 160,
                        row@ == spec_obj_cols(mmu@, ri, ly, i as int, x as int),
                    decreases 8 - x,
                {
                    proof {
                        lemma_obj_cols_len(mmu@, ri, ly, i as int, x as int);
                    }
                    obj_apply_col(mmu, &mut row, ly, i, x);
                    x = x + 1;
                }
            }
            i = i + 1;
        }

        proof {
            lemma_obj_sprites_len(mmu@, row0, ly, 40);
        }
        self.obp0 = p0;
        self.obp1 = p1;
        self.data.set(ly as usize, row);
        proof {
            assert(final(self)@.data =~~= old(self)@.data.update(
                ly as int,
                spec_obj_sprites(old(mmu)@, old(self)@.data[ly as int], ly, 40),
            ));
            assert(final(self)@ =~~= spec_draw_obj(old(self)@, old(mmu)@));
        }
    }

    /// Advances the scanline state machine by one m-cycle (four dots).
    #[verifier::rlimit(100)]
    #[verifier::spinoff_prover]
    pub fn tick(&mut self, mmu: &mut MMU)
        requires
            old(self).wf(),
            old(mmu).wf(),
        ensures
            (final(self)@, final(mmu)@) == spec_ppu_tick(old(self)@, old(mmu)@),
            final(self).wf(),
            final(mmu).wf(),
    {
        let lcdc = mmu.rb(0xFF40);
        if (lcdc & 0x80) == 0 {
            return ;
        }

        let stat = mmu.rb(0xFF41);
        self.stat = Stat::from_byte(stat);

        self.mode_clock = self.mode_clock + 4;
        if self.mode_clock >= 456 {
            self.mode_clock = self.mode_clock % 456;
            self.inc_ly(mmu);
            if self.stat.enable_coincidence {
                let lyc = mmu.rb(0xFF45);
                if self.get_ly(mmu) == lyc {
                    self.stat.coincidence = true;
                    mmu.intr.set_flag(IntFlag::Stat);
                } else {
                    self.stat.coincidence = false;
                }
            }
        }

        let ly = self.get_ly(mmu);
        if ly >= 144 {
            if self.stat.mode != Mode::VBlank {
                self.update_screen = true;
                self.stat.mode = Mode::VBlank;
                mmu.intr.set_flag(IntFlag::VBlank);
                if self.stat.enable_vblank {
                    mmu.intr.set_flag(IntFlag::Stat);
                }
            }
        } else if self.mode_clock <= 80 {
            if self.stat.mode != Mode::OAMSearch {
                self.stat.mode = Mode::OAMSearch;
                if self.stat.enable_oam_seach {
                    mmu.intr.set_flag(IntFlag::Stat);
                }
            }
        } else if self.mode_clock <= 252 {
            if self.stat.mode != Mode::PixelTransfer {
                self.stat.mode = Mode::PixelTransfer;

                self.draw_bg(mmu);
                if lcdc & 0b10 != 0 {
                    self.draw_obj(mmu);
                }
            }
        } else {
            if self.stat.mode != Mode::HBlank {
                self.stat.mode = Mode::HBlank;
                if self.stat.enable_hblank {
                    mmu.intr.set_flag(IntFlag::Stat);
                }
            }
        }

        let new_stat = self.stat;
        mmu.wb(0xFF41, new_stat.to_byte());
        proof {
            assert((final(self)@, final(mmu)@) =~~= spec_ppu_tick(old(self)@, old(mmu)@));
        }
    }

    /// Advances the scanline state machine by `m_clocks` m-cycles, exactly
    /// as if `tick` were called that many times in sequence.
    pub fn tick_n(&mut self, mmu: &mut MMU, m_clocks: u8)
        requires
            old(self).wf(),
            old(mmu).wf(),
        ensures
            (final(self)@, final(mmu)@) == spec_ppu_tick_n(old(self)@, old(mmu)@, m_clocks as nat),
            final(self).wf(),
            final(mmu).wf(),
    {
        let lcdc = mmu.rb(0xFF40);
        if (lcdc & 0x80) == 0 || m_clocks == 0 {
            proof {
                if (lcdc & 0x80) == 0 {
                    lemma_ppu_tick_n_off(old(self)@, old(mmu)@, m_clocks as nat);
                }
            }
            return ;
        }

        let mut i: u8 = 0;
        while i < m_clocks
            invariant
                i <= m_clocks,
                self.wf(),
                mmu.wf(),
                (self@, mmu@) == spec_ppu_tick_n(old(self)@, old(mmu)@, i as nat),
            decreases m_clocks - i,
        {
            proof {
                lemma_ppu_tick_n_snoc(old(self)@, old(mmu)@, i as nat);
            }
            self.tick(mmu);
            i = i + 1;
        }
    }
}

/// The PPU and bus after one m-cycle (four dots) of the scanline state
/// machine. With the LCD enable bit clear nothing moves. Otherwise the dot
/// counter advances by 4; at dot 456 it wraps and LY advances modulo 154,
/// re-evaluating the LY = LYC coincidence when its STAT enable is set. The
/// mode is then OAMSearch up to dot 80, PixelTransfer up to dot 252 and
/// HBlank for the rest of a visible line, and VBlank on lines 144..153; on
/// a transition into a mode its enabled STAT interrupt fires, entering
/// VBlank also raises the VBlank interrupt and marks the frame ready, and
/// entering PixelTransfer rasterizes the new scanline. The STAT byte is
/// written back with the new mode and coincidence bits.
pub open spec fn spec_ppu_tick(p: PpuView, m: MmuView) -> (PpuView, MmuView) {
    let lcdc = spec_rb(m, 0xFF40);
    if lcdc & 0x80 == 0 {
        (p, m)
    } else {
        let stat0 = spec_stat_from(spec_rb(m, 0xFF41));
        let wrapped = p.mode_clock + 4 >= 456;
        let clock2: u16 = if wrapped {
            (((p.mode_clock + 4) as u16) % 456) as u16
        } else {
            (p.mode_clock + 4) as u16
        };
        let ly1 = ((spec_rb(m, 0xFF44) + 1) % 154) as u8;
        let m1 = if wrapped {
            spec_wb(m, 0xFF44, ly1)
        } else {
            m
        };
        let ly = spec_rb(m1, 0xFF44);
        let lyc = spec_rb(m1, 0xFF45);
        let coinc_hit = wrapped && stat0.enable_coincidence && ly == lyc;
        let stat1 = if wrapped && stat0.enable_coincidence {
            Stat { coincidence: ly == lyc, ..stat0 }
        } else {
            stat0
        };
        let fl1: u8 = if coinc_hit {
            (m1.intr.flags | 0x02) as u8
        } else {
            m1.intr.flags
        };
        if ly >= 144 {
            let enter = stat1.mode != Mode::VBlank;
            let stat2 = if enter {
                Stat { mode: Mode::VBlank, ..stat1 }
            } else {
                stat1
            };
            let fl2: u8 = if enter {
                if stat1.enable_vblank {
                    (((fl1 | 0x01) as u8) | 0x02) as u8
                } else {
                    (fl1 | 0x01) as u8
                }
            } else {
                fl1
            };
            let us2 = if enter {
                true
            } else {
                p.update_screen
            };
            let p2 = PpuView { mode_clock: clock2, update_screen: us2, stat: stat2, ..p };
            let m2 = MmuView { intr: IntReq { flags: fl2 }, ..m1 };
            (p2, spec_wb(m2, 0xFF41, spec_stat_byte(stat2)))
        } else if clock2 <= 80 {
            let enter = stat1.mode != Mode::OAMSearch;
            let stat2 = if enter {
                Stat { mode: Mode::OAMSearch, ..stat1 }
            } else {
                stat1
            };
            let fl2: u8 = if enter && stat1.enable_oam_seach {
                (fl1 | 0x02) as u8
            } else {
                fl1
            };
            let p2 = PpuView { mode_clock: clock2, stat: stat2, ..p };
            let m2 = MmuView { intr: IntReq { flags: fl2 }, ..m1 };
            (p2, spec_wb(m2, 0xFF41, spec_stat_byte(stat2)))
        } else if clock2 <= 252 {
            let enter = stat1.mode != Mode::PixelTransfer;
            let stat2 = if enter {
                Stat { mode: Mode::PixelTransfer, ..stat1 }
            } else {
                stat1
            };
            let drawn = if enter {
                let p_bg = spec_draw_bg(p, m1);
                if lcdc & 0x02 != 0 {
                    spec_draw_obj(p_bg, m1)
                } else {
                    p_bg
                }
            } else {
                p
            };
            let p2 = PpuView { mode_clock: clock2, stat: stat2, ..drawn };
            let m2 = MmuView { intr: IntReq { flags: fl1 }, ..m1 };
            (p2, spec_wb(m2, 0xFF41, spec_stat_byte(stat2)))
        } else {
            let enter = stat1.mode != Mode::HBlank;
            let stat2 = if enter {
                Stat { mode: Mode::HBlank, ..stat1 }
            } else {
                stat1
            };
            let fl2: u8 = if enter && stat1.enable_hblank {
                (fl1 | 0x02) as u8
            } else {
                fl1
            };
            let p2 = PpuView { mode_clock: clock2, stat: stat2, ..p };
            let m2 = MmuView { intr: IntReq { flags: fl2 }, ..m1 };
            (p2, spec_wb(m2, 0xFF41, spec_stat_byte(stat2)))
        }
    }
}

/// The PPU and bus after `n` m-cycles of the scanline state machine.
pub open spec fn spec_ppu_tick_n(p: PpuView, m: MmuView, n: nat) -> (PpuView, MmuView)
    decreases n,
{
    if n == 0 {
        (p, m)
    } else {
        let (p1, m1) = spec_ppu_tick(p, m);
        spec_ppu_tick_n(p1, m1, (n - 1) as nat)
    }
}

/// A run of `n + 1` ticks is a run of `n` ticks followed by one more.
pub proof fn lemma_ppu_tick_n_snoc(p: PpuView, m: MmuView, n: nat)
    ensures
        spec_ppu_tick_n(p, m, n + 1) == spec_ppu_tick(
            spec_ppu_tick_n(p, m, n).0,
            spec_ppu_tick_n(p, m, n).1,
        ),
    decreases n,
{
    if n == 0 {
        assert(spec_ppu_tick_n(p, m, 1) == spec_ppu_tick(p, m)) by {
            reveal_with_fuel(spec_ppu_tick_n, 2);
        }
    } else {
        let (p1, m1) = spec_ppu_tick(p, m);
        lemma_ppu_tick_n_snoc(p1, m1, (n - 1) as nat);
    }
}

/// While the LCD enable bit is clear, any number of ticks leaves the PPU
/// and the bus untouched.
pub proof fn lemma_ppu_tick_n_off(p: PpuView, m: MmuView, n: nat)
    requires
        spec_rb(m, 0xFF40) & 0x80 == 0,
    ensures
        spec_ppu_tick_n(p, m, n) == (p, m),
    decreases n,
{
    if n > 0 {
        lemma_ppu_tick_n_off(p, m, (n - 1) as nat);
    }
}

/// Drawing one sprite column never changes the length of the row.
pub proof fn lemma_obj_apply_col_len(m: MmuView, row: Seq<u32>, ly: u8, i: int, x: int)
    requires
        row.len() == 160,
    ensures
        spec_obj_apply_col(m, row, ly, i, x).len() == row.len(),
{
    assert(spec_obj_apply_col(m, row, ly, i, x).len() == row.len()) by {
        reveal(spec_obj_apply_col);
    }
}

/// Drawing sprite columns never changes the length of the row.
pub proof fn lemma_obj_cols_len(m: MmuView, row: Seq<u32>, ly: u8, i: int, x: int)
    requires
        row.len() == 160,
    ensures
        spec_obj_cols(m, row, ly, i, x).len() == row.len(),
    decreases x,
{
    if x > 0 {
        lemma_obj_cols_len(m, row, ly, i, x - 1);
        lemma_obj_apply_col_len(m, spec_obj_cols(m, row, ly, i, x - 1), ly, i, x - 1);
    }
}

/// Overlaying sprites never changes the length of the row.
pub proof fn lemma_obj_sprites_len(m: MmuView, row: Seq<u32>, ly: u8, i: int)
    requires
        row.len() == 160,
    ensures
        spec_obj_sprites(m, row, ly, i).len() == row.len(),
    decreases i,
{
    if i > 0 {
        lemma_obj_sprites_len(m, row, ly, i - 1);
        lemma_obj_cols_len(m, spec_obj_sprites(m, row, ly, i - 1), ly, i - 1, 8);
    }
}

/// Draws one column of one sprite into the scanline row.
#[verifier::rlimit(100)]
#[verifier::spinoff_prover]
fn obj_apply_col(mmu: &MMU, row: &mut Vec<u32>, ly: u8, i: usize, x: u8)
    requires
        mmu.wf(),
        old(row)@.len() == 160,
        i < 40,
        x < 8,
        ly < 144,
        ly == spec_rb(mmu@, 0xFF44),
        spec_sprite_covers(mmu@, ly, i as int),
    ensures
        final(row)@ == spec_obj_apply_col(mmu@, old(row)@, ly, i as int, x as int),
{
    let base: u16 = 0xFE00 + (i as u16) * 4;
    let sy = mmu.rb(base).wrapping_sub(16);
    let sx = mmu.rb(base + 1).wrapping_sub(8);
    let sn = mmu.rb(base + 2);
    let so = mmu.rb(base + 3);
    let lcdc = mmu.rb(0xFF40);
    let size: u8 = if lcdc & 0x04 == 0 {
        8
    } else {
        16
    };
    proof {
        assert(sy == spec_sprite_y(mmu@, i as int));
        assert(sx == spec_sprite_x(mmu@, i as int));
        assert(sn == spec_sprite_n(mmu@, i as int));
        assert(so == spec_sprite_o(mmu@, i as int));
        assert(size == spec_sprite_size(mmu@));
    }

    let y_flip = so & 0x40 != 0;
    let x_flip = so & 0x20 != 0;

    let tile_y = if y_flip {
        size - ly.wrapping_sub(sy) - 1
    } else {
        ly.wrapping_sub(sy)
    };

    let tn = if size == 16 {
        sn & 0xFE
    } else {
        sn
    };
    let index = 0x8000 + (tn as u16) * 16 + (tile_y as u16) * 2;
    let byte1 = mmu.rb(index);
    let byte2 = mmu.rb(index + 1);

    let bit_idx = if x_flip {
        x
    } else {
        7 - x
    };
    let mask = 1u8 << bit_idx;
    let pair = (if byte2 & mask != 0 {
        2u8
    } else {
        0u8
    }) + (if byte1 & mask != 0 {
        1u8
    } else {
        0u8
    });

    let col = sx.wrapping_add(x);
    if (col as usize) < SCREEN_W && pair != 0 {
        let sprite_has_priority = so & 0x80 == 0;
        let bg_color0 = row[col as usize] == LIGHTEST;

        if sprite_has_priority || bg_color0 {
            let palette_reg = if so & 0x10 == 0 {
                mmu.rb(0xFF48)
            } else {
                mmu.rb(0xFF49)
            };
            let palette = palette_lookup(palette_reg);
            let color = palette[pair as usize];
            row.set(col as usize, color);
        }
    }
    proof {
        assert(final(row)@ =~= spec_obj_apply_col(mmu@, old(row)@, ly, i as int, x as int)) by {
            reveal(spec_obj_apply_col);
        }
    }
}

/// Computes the background or window pixel of the current scanline at
/// screen column `i`, through the supplied BGP lookup.
#[verifier::rlimit(100)]
#[verifier::spinoff_prover]
fn bg_pixel(mmu: &MMU, pal: &Vec<u32>, i: usize) -> (c: u32)
    requires
        mmu.wf(),
        pal@ == spec_palette(spec_rb(mmu@, 0xFF47)),
        i < 160,
    ensures
        c == spec_bg_pixel(mmu@, spec_rb(mmu@, 0xFF44), i as int),
{
    let scx = mmu.rb(0xFF43);
    let scy = mmu.rb(0xFF42);
    let wy = mmu.rb(0xFF4A);
    let wx = mmu.rb(0xFF4B).wrapping_sub(7);
    let lcdc = mmu.rb(0xFF40);
    let ly = mmu.rb(0xFF44);

    let bg_map0 = lcdc & 0x08 == 0;
    let win_map0 = lcdc & 0x40 == 0;
    let tile_set0 = lcdc & 0x10 == 0;
    let tile_start: u16 = if tile_set0 {
        0x9000
    } else {
        0x8000
    };

    let y_in_win = ly >= wy && lcdc & 0x20 != 0;
    let y = if y_in_win {
        ly - wy
    } else {
        ly.wrapping_add(scy)
    };

    let mut x = (i as u8).wrapping_add(scx);

    let writing_win = (i as u8) >= wx && y_in_win;
    if writing_win && x >= wx {
        x = x - wx;
    }
    proof {
        assert((y, x, writing_win) == spec_bg_xy(mmu@, ly, i as int)) by {
            reveal(spec_bg_xy);
        }
    }

    let map_start: u16 = if writing_win {
        if win_map0 {
            0x9800
        } else {
            0x9C00
        }
    } else {
        if bg_map0 {
            0x9800
        } else {
            0x9C00
        }
    };

    let map_y = (y / 8) as u16;
    let map_x = (x / 8) as u16;
    let tile_map_address = map_start + (map_y * 32 + map_x);
    let tile_map_index = mmu.rb(tile_map_address);

    let tile_map_offset: u16 = if tile_set0 && tile_map_index >= 0x80 {
        (tile_map_index as u16) + 0xFF00
    } else {
        tile_map_index as u16
    };

    let tile_idx = tile_map_offset.wrapping_mul(16);
    let tile_row = ((y % 8) as u16) * 2;
    let index = tile_start.wrapping_add(tile_idx).wrapping_add(tile_row);
    proof {
        assert(index == spec_bg_data_index(mmu@, ly, i as int)) by {
            reveal(spec_bg_data_index);
        }
    }
    let byte1 = mmu.rb(index);
    let byte2 = mmu.rb(index.wrapping_add(1));

    let mask = 1u8 << (7 - (x % 8));
    let pair = (if byte2 & mask != 0 {
        2u8
    } else {
        0u8
    }) + (if byte1 & mask != 0 {
        1u8
    } else {
        0u8
    });
    proof {
        assert(pair == spec_bg_pair(mmu@, ly, i as int)) by {
            reveal(spec_bg_pair);
        }
    }

    pal[pair as usize]
}

} // verus!
