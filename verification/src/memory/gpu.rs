//! The picture unit: video RAM, object memory, the LCD registers, the
//! scanline clock and the frame buffer.
//!
//! Contracts speak of a [`GpuView`]: the memories and registers alone. The
//! decoded tiles and object descriptors that the unit keeps beside them are
//! tied to those memories by [`Gpu::wf`] and never appear in a contract.

use vstd::prelude::*;
use crate::bits::{bit, bit_value, is_bit_set};
use crate::video::{
    byte_to_color, channel, color_of, color_to_byte, frame_paint, get_color, pixel_rect, rgba_of,
    tile_paint, tile_pixel_rect, tile_sheet_corner, tilemap_corner, ColorScheme, GBColor, Paint,
};

verus! {

pub const VRAM_SIZE: usize = 0x2000;

pub const OAM_SIZE: usize = 0xA0;

pub const TILE_COUNT: usize = 384;

pub const OBJECT_COUNT: usize = 40;

/// Pixels in a frame: 160 columns by 144 lines.
pub const FRAME_PIXELS: usize = 23040;

/// Decoded pixels kept for all tiles: 384 tiles of 8 rows of 8 pixels.
pub const TILE_PIXELS: usize = 24576;

/// Cycles in one frame: 154 scanlines.
pub const FRAME_CYCLES: u32 = 70224;

/// Bit of the interrupt flags that the unit raises on entering VBlank.
pub const VBLANK_REQUEST: u8 = 1;

/// Bit of the interrupt flags that the unit raises when LY meets LYC.
pub const STAT_REQUEST: u8 = 2;

/// What the unit is doing on the current scanline. The number of a mode
/// is what the two low bits of STAT show.
#[derive(Clone, Copy, PartialEq, Eq, Debug, Structural)]
#[allow(non_camel_case_types)]
pub enum TickMode {
    HBLANK,
    VBLANK,
    OAM,
    OAMVRAM,
}

impl TickMode {
    /// The mode's number, 0 to 3.
    pub open spec fn code(self) -> int {
        match self {
            TickMode::HBLANK => 0,
            TickMode::VBLANK => 1,
            TickMode::OAM => 2,
            TickMode::OAMVRAM => 3,
        }
    }

    /// How many cycles the unit stays in this mode before it moves on;
    /// for VBlank, per scanline.
    pub open spec fn duration(self) -> int {
        match self {
            TickMode::OAM => 80,
            TickMode::OAMVRAM => 172,
            TickMode::HBLANK => 204,
            TickMode::VBLANK => 456,
        }
    }

    /// The mode numbered by the two low bits of `val`.
    pub open spec fn of_code(val: int) -> TickMode {
        if val % 4 == 0 {
            TickMode::HBLANK
        } else if val % 4 == 1 {
            TickMode::VBLANK
        } else if val % 4 == 2 {
            TickMode::OAM
        } else {
            TickMode::OAMVRAM
        }
    }

    pub fn from_val(val: u8) -> (mode: TickMode)
        ensures
            mode == TickMode::of_code(val as int),
    {
        let low: u8 = val % 4;
        if low == 0 {
            TickMode::HBLANK
        } else if low == 1 {
            TickMode::VBLANK
        } else if low == 2 {
            TickMode::OAM
        } else {
            TickMode::OAMVRAM
        }
    }

    pub fn to_val(self) -> (val: u8)
        ensures
            val == self.code(),
            TickMode::of_code(val as int) == self,
    {
        match self {
            TickMode::HBLANK => 0,
            TickMode::VBLANK => 1,
            TickMode::OAM => 2,
            TickMode::OAMVRAM => 3,
        }
    }

    pub fn cycles(self) -> (n: u32)
        ensures
            n == self.duration(),
    {
        match self {
            TickMode::OAM => 80,
            TickMode::OAMVRAM => 172,
            TickMode::HBLANK => 204,
            TickMode::VBLANK => 456,
        }
    }
}

/// One decoded 8x8 tile.
pub type Tile16 = [[GBColor; 8]; 8];

pub fn make_tile16() -> (tile: Tile16)
    ensures
        forall|row: int, col: int|
            0 <= row < 8 && 0 <= col < 8 ==> (#[trigger] tile@[row]@[col]) == GBColor::White,
{
    [[GBColor::White; 8]; 8]
}

/// One entry of object memory, decoded.
#[derive(Clone, Copy, PartialEq, Eq, Debug, Structural)]
pub struct ObjData {
    pub x: u8,
    pub y: u8,
    pub pattern_num: u8,
    pub priority: bool,
    pub y_flip: bool,
    pub x_flip: bool,
    pub pal_num: bool,
    pub obj_index: usize,
}

impl ObjData {
    pub fn new() -> (obj: ObjData)
        ensures
            obj == (ObjData {
                x: 0,
                y: 0,
                pattern_num: 0,
                priority: false,
                y_flip: false,
                x_flip: false,
                pal_num: false,
                obj_index: 0,
            }),
    {
        ObjData {
            x: 0,
            y: 0,
            pattern_num: 0,
            priority: false,
            y_flip: false,
            x_flip: false,
            pal_num: false,
            obj_index: 0,
        }
    }
}

/// The colour number, 0 to 3, of column `col` of a tile row stored as the
/// two bytes `lo` and `hi`: column 0 is bit 7, and `hi` gives the high bit.
pub open spec fn pixel_code(lo: u8, hi: u8, col: int) -> int {
    bit_value(lo as int, 7 - col) + 2 * bit_value(hi as int, 7 - col)
}

/// The colour number at (`row`, `col`) of tile `tile`, decoded from video
/// RAM.
pub open spec fn tile_code(vram: Seq<u8>, tile: int, row: int, col: int) -> int {
    pixel_code(vram[tile * 16 + row * 2], vram[tile * 16 + row * 2 + 1], col)
}

/// What the decoded-tile store holds at index `i`, decoded from video
/// RAM: pixel `i % 8` of the tile row stored at bytes `2 * (i / 8)` and
/// the next.
pub open spec fn cached_pixel(vram: Seq<u8>, i: int) -> GBColor {
    color_of(pixel_code(vram[2 * (i / 8)], vram[2 * (i / 8) + 1], i % 8))
}

/// Entry `i` of object memory, decoded.
pub open spec fn decode_object(oam: Seq<u8>, i: int) -> ObjData {
    ObjData {
        y: oam[4 * i],
        x: oam[4 * i + 1],
        pattern_num: oam[4 * i + 2],
        priority: bit(oam[4 * i + 3] as int, 7),
        y_flip: bit(oam[4 * i + 3] as int, 6),
        x_flip: bit(oam[4 * i + 3] as int, 5),
        pal_num: bit(oam[4 * i + 3] as int, 4),
        obj_index: i as usize,
    }
}

/// The shade that palette register `palette` gives to colour number
/// `code`: two bits per colour, colour 0 lowest.
pub open spec fn palette_color(palette: u8, code: int) -> GBColor {
    color_of(
        if code == 0 {
            palette as int % 4
        } else if code == 1 {
            (palette as int / 4) % 4
        } else if code == 2 {
            (palette as int / 16) % 4
        } else {
            (palette as int / 64) % 4
        },
    )
}

pub fn apply_palette(palette: u8, code: u8) -> (color: GBColor)
    requires
        code <= 3,
    ensures
        color == palette_color(palette, code as int),
{
    let shade: u8 = if code == 0 {
        palette % 4
    } else if code == 1 {
        (palette / 4) % 4
    } else if code == 2 {
        (palette / 16) % 4
    } else {
        (palette / 64) % 4
    };
    byte_to_color(shade)
}

/// The registers and clocks of the unit.
#[derive(Clone, Copy, PartialEq, Eq, Debug, Structural)]
pub struct GpuRegs {
    pub lcdc: u8,
    /// Bits 3 to 6 of STAT: the interrupt selects. The other bits are not
    /// stored; a read composes them.
    pub lcdc_stat: u8,
    pub mode: TickMode,
    pub scroll_y: u8,
    pub scroll_x: u8,
    /// LY, the scanline being handled.
    pub vert_line: u8,
    /// LYC.
    pub vert_line_cp: u8,
    pub dma_write_addr: u8,
    pub bg_palette: u8,
    pub obj_palette0: u8,
    pub obj_palette1: u8,
    pub window_y: u8,
    pub window_x: u8,
    /// Cycles spent in the current mode.
    pub clock: u32,
    /// Set when a frame is complete, cleared when it is taken.
    pub can_draw: bool,
    /// Lines of the window drawn so far in this frame.
    pub current_window_line: u8,
    pub show_background: bool,
    pub show_window: bool,
    pub show_objects: bool,
}

impl GpuRegs {
    pub open spec fn wf(self) -> bool {
        &&& self.lcdc_stat % 8 == 0
        &&& self.lcdc_stat < 128
        &&& self.clock < self.mode.duration()
        &&& self.mode == TickMode::VBLANK ==> 144 <= self.vert_line <= 153
        &&& self.mode != TickMode::VBLANK ==> self.vert_line <= 143
    }

    pub open spec fn lcd_on(self) -> bool {
        bit(self.lcdc as int, 7)
    }

    /// What a read of STAT shows: the selects, bit 2 where LY is LYC, and
    /// the mode's number in the two low bits.
    pub open spec fn stat(self) -> u8 {
        (self.lcdc_stat + (if self.vert_line == self.vert_line_cp {
            4int
        } else {
            0int
        }) + self.mode.code()) as u8
    }

    /// The registers of a unit just switched on.
    pub open spec fn initial() -> GpuRegs {
        GpuRegs {
            lcdc: 0x91,
            lcdc_stat: 0,
            mode: TickMode::HBLANK,
            scroll_y: 0,
            scroll_x: 0,
            vert_line: 0,
            vert_line_cp: 0,
            dma_write_addr: 0,
            bg_palette: 0,
            obj_palette0: 0,
            obj_palette1: 0,
            window_y: 0,
            window_x: 0,
            clock: 0,
            can_draw: false,
            current_window_line: 0,
            show_background: true,
            show_window: true,
            show_objects: true,
        }
    }

    /// The registers after `val` is written at `addr` in 0xFF40..0xFF4C.
    /// Clearing bit 7 of LCDC stops the unit: LY and the clocks return to
    /// 0 and the mode to HBlank. Of STAT only bits 3 to 6 are kept. LY is
    /// read-only.
    pub open spec fn write(self, addr: u16, val: u8) -> GpuRegs {
        if addr == 0xFF40 {
            if bit(val as int, 7) {
                GpuRegs { lcdc: val, ..self }
            } else {
                GpuRegs {
                    lcdc: val,
                    vert_line: 0,
                    mode: TickMode::HBLANK,
                    clock: 0,
                    current_window_line: 0,
                    ..self
                }
            }
        } else if addr == 0xFF41 {
            GpuRegs { lcdc_stat: (val % 128 - val % 8) as u8, ..self }
        } else if addr == 0xFF42 {
            GpuRegs { scroll_y: val, ..self }
        } else if addr == 0xFF43 {
            GpuRegs { scroll_x: val, ..self }
        } else if addr == 0xFF45 {
            GpuRegs { vert_line_cp: val, ..self }
        } else if addr == 0xFF46 {
            GpuRegs { dma_write_addr: val, ..self }
        } else if addr == 0xFF47 {
            GpuRegs { bg_palette: val, ..self }
        } else if addr == 0xFF48 {
            GpuRegs { obj_palette0: val, ..self }
        } else if addr == 0xFF49 {
            GpuRegs { obj_palette1: val, ..self }
        } else if addr == 0xFF4A {
            GpuRegs { window_y: val, ..self }
        } else if addr == 0xFF4B {
            GpuRegs { window_x: val, ..self }
        } else {
            self
        }
    }

    /// What a read at `addr` in 0xFF40..0xFF4C shows.
    pub open spec fn read(self, addr: u16) -> u8 {
        if addr == 0xFF40 {
            self.lcdc
        } else if addr == 0xFF41 {
            self.stat()
        } else if addr == 0xFF42 {
            self.scroll_y
        } else if addr == 0xFF43 {
            self.scroll_x
        } else if addr == 0xFF44 {
            self.vert_line
        } else if addr == 0xFF45 {
            self.vert_line_cp
        } else if addr == 0xFF46 {
            self.dma_write_addr
        } else if addr == 0xFF47 {
            self.bg_palette
        } else if addr == 0xFF48 {
            self.obj_palette0
        } else if addr == 0xFF49 {
            self.obj_palette1
        } else if addr == 0xFF4A {
            self.window_y
        } else {
            self.window_x
        }
    }
}

/// The unit as its contracts see it.
pub struct GpuView {
    pub vram: Seq<u8>,
    pub oam: Seq<u8>,
    /// The frame buffer, line after line.
    pub pixels: Seq<GBColor>,
    /// The background colour number under each pixel of the line drawn
    /// last, before palettes and objects.
    pub line: Seq<u8>,
    pub regs: GpuRegs,
}

/// A frame buffer of one shade.
pub open spec fn blank_frame() -> Seq<GBColor> {
    Seq::new(23040, |k: int| GBColor::White)
}

impl GpuView {
    pub open spec fn wf(self) -> bool {
        &&& self.vram.len() == 0x2000
        &&& self.oam.len() == 0xA0
        &&& self.pixels.len() == 23040
        &&& self.line.len() == 160
        &&& self.regs.wf()
        &&& forall|x: int| 0 <= x < 160 ==> (#[trigger] self.line[x]) <= 3
    }

    pub open spec fn initial() -> GpuView {
        GpuView {
            vram: Seq::new(0x2000, |i: int| 0u8),
            oam: Seq::new(0xA0, |i: int| 0u8),
            pixels: blank_frame(),
            line: Seq::new(160, |i: int| 0u8),
            regs: GpuRegs::initial(),
        }
    }

    /// The byte read at `addr`, for `addr` in video RAM, object memory or
    /// the LCD registers.
    pub open spec fn read(self, addr: u16) -> u8 {
        if 0x8000 <= addr < 0xA000 {
            self.vram[addr - 0x8000]
        } else if 0xFE00 <= addr < 0xFEA0 {
            self.oam[addr - 0xFE00]
        } else {
            self.regs.read(addr)
        }
    }

    /// The unit after `val` is written at `addr`, for `addr` in video RAM,
    /// object memory or the LCD registers. Switching the LCD off blanks
    /// the frame buffer.
    pub open spec fn write(self, addr: u16, val: u8) -> GpuView {
        if 0x8000 <= addr < 0xA000 {
            GpuView { vram: self.vram.update(addr - 0x8000, val), ..self }
        } else if 0xFE00 <= addr < 0xFEA0 {
            GpuView { oam: self.oam.update(addr - 0xFE00, val), ..self }
        } else if addr == 0xFF40 && !bit(val as int, 7) {
            GpuView { pixels: blank_frame(), regs: self.regs.write(addr, val), ..self }
        } else {
            GpuView { regs: self.regs.write(addr, val), ..self }
        }
    }

    /// The unit after all of object memory is replaced by `bytes`.
    pub open spec fn with_oam(self, bytes: Seq<u8>) -> GpuView {
        GpuView { oam: bytes, ..self }
    }
}

/// What a table entry names: the tile's number among the 384 tiles.
/// With bit 4 of LCDC set entries count up from tile 0; otherwise entries
/// below 128 name tiles 256 to 383.
pub open spec fn tile_number(regs: GpuRegs, entry: u8) -> int {
    if bit(regs.lcdc as int, 4) || entry >= 128 {
        entry as int
    } else {
        entry + 256
    }
}

/// Where in video RAM a tile map starts.
pub open spec fn map_base(high: bool) -> int {
    if high {
        0x1C00
    } else {
        0x1800
    }
}

pub open spec fn bg_enabled(regs: GpuRegs) -> bool {
    regs.show_background && bit(regs.lcdc as int, 0)
}

/// The background's colour number at column `x` of scanline LY.
pub open spec fn bg_code(vram: Seq<u8>, regs: GpuRegs, x: int) -> int {
    let py = regs.vert_line + regs.scroll_y;
    let px = x + regs.scroll_x;
    let entry = vram[map_base(bit(regs.lcdc as int, 3)) + ((py / 8) % 32) * 32 + (px / 8) % 32];
    tile_code(vram, tile_number(regs, entry), py % 8, px % 8)
}

/// Whether the window is drawn on scanline LY.
pub open spec fn window_visible(regs: GpuRegs) -> bool {
    &&& regs.show_window
    &&& bit(regs.lcdc as int, 5)
    &&& regs.window_y <= regs.vert_line
    &&& 7 <= regs.window_x <= 166
}

/// The window's colour number at column `x`, for `x` at or right of the
/// window's left edge.
pub open spec fn window_code(vram: Seq<u8>, regs: GpuRegs, x: int) -> int {
    let wx = x - (regs.window_x - 7);
    let row = regs.current_window_line as int;
    let entry = vram[map_base(bit(regs.lcdc as int, 6)) + (row / 8) * 32 + wx / 8];
    tile_code(vram, tile_number(regs, entry), row % 8, wx % 8)
}

pub open spec fn objects_enabled(regs: GpuRegs) -> bool {
    regs.show_objects && bit(regs.lcdc as int, 1)
}

/// Height of every object: 16 lines with bit 2 of LCDC set, else 8.
pub open spec fn obj_height(regs: GpuRegs) -> int {
    if bit(regs.lcdc as int, 2) {
        16
    } else {
        8
    }
}

/// Whether object `i` overlaps scanline LY.
pub open spec fn obj_on_line(oam: Seq<u8>, regs: GpuRegs, i: int) -> bool {
    oam[4 * i] <= regs.vert_line + 16 < oam[4 * i] + obj_height(regs)
}

/// How many of the first `n` objects overlap scanline LY.
pub open spec fn on_line_before(oam: Seq<u8>, regs: GpuRegs, n: int) -> nat
    decreases n,
{
    if n <= 0 {
        0
    } else {
        on_line_before(oam, regs, n - 1) + if obj_on_line(oam, regs, n - 1) {
            1nat
        } else {
            0nat
        }
    }
}

/// Whether object `i` is drawn on scanline LY: it overlaps the line and
/// fewer than 10 objects before it do.
pub open spec fn obj_selected(oam: Seq<u8>, regs: GpuRegs, i: int) -> bool {
    obj_on_line(oam, regs, i) && on_line_before(oam, regs, i) < 10
}

/// How many of the first `n` objects are drawn on scanline LY.
pub open spec fn selected_before(oam: Seq<u8>, regs: GpuRegs, n: int) -> nat
    decreases n,
{
    if n <= 0 {
        0
    } else {
        selected_before(oam, regs, n - 1) + if obj_selected(oam, regs, n - 1) {
            1nat
        } else {
            0nat
        }
    }
}

/// The colour number of object `i` at column `x` of scanline LY, for a
/// column and a line that the object covers. Flips mirror the column and
/// the row; a 16-line object takes its lower half from the next tile.
pub open spec fn obj_code(vram: Seq<u8>, oam: Seq<u8>, regs: GpuRegs, i: int, x: int) -> int {
    let attrs = oam[4 * i + 3] as int;
    let pattern = oam[4 * i + 2] as int;
    let height = obj_height(regs);
    let across = x + 8 - oam[4 * i + 1];
    let down = regs.vert_line + 16 - oam[4 * i];
    let col = if bit(attrs, 5) {
        7 - across
    } else {
        across
    };
    let row = if bit(attrs, 6) {
        height - 1 - down
    } else {
        down
    };
    let tile = if height == 16 {
        pattern - pattern % 2 + row / 8
    } else {
        pattern
    };
    tile_code(vram, tile, row % 8, col)
}

/// Whether object `i` has a pixel to show at column `x` of scanline LY:
/// it is drawn on the line, covers the column, and its colour number
/// there is not 0, which is transparent under every palette.
pub open spec fn obj_shows(vram: Seq<u8>, oam: Seq<u8>, regs: GpuRegs, i: int, x: int) -> bool {
    &&& obj_selected(oam, regs, i)
    &&& oam[4 * i + 1] <= x + 8 < oam[4 * i + 1] + 8
    &&& obj_code(vram, oam, regs, i, x) != 0
}

/// Among the first `n` objects, the one in front at column `x`: of those
/// with a pixel to show, the one with the least X, and of equals the one
/// first in object memory. -1 where none shows.
pub open spec fn obj_winner(vram: Seq<u8>, oam: Seq<u8>, regs: GpuRegs, x: int, n: int) -> int
    decreases n,
{
    if n <= 0 {
        -1
    } else {
        let best = obj_winner(vram, oam, regs, x, n - 1);
        if obj_shows(vram, oam, regs, n - 1, x) && (best < 0 || oam[4 * (n - 1) + 1] < oam[4
            * best + 1]) {
            n - 1
        } else {
            best
        }
    }
}

/// The pixel at column `x` once objects are laid over `under`: the
/// object in front shows through its palette, unless it stands behind
/// the background and the background's colour number there is not 0.
pub open spec fn object_pixel(
    vram: Seq<u8>,
    oam: Seq<u8>,
    regs: GpuRegs,
    line: Seq<u8>,
    under: GBColor,
    x: int,
) -> GBColor {
    let front = obj_winner(vram, oam, regs, x, 40);
    if front >= 0 && (!bit(oam[4 * front + 3] as int, 7) || line[x] == 0) {
        palette_color(
            if bit(oam[4 * front + 3] as int, 4) {
                regs.obj_palette1
            } else {
                regs.obj_palette0
            },
            obj_code(vram, oam, regs, front, x),
        )
    } else {
        under
    }
}

/// What a run of the clock did: the unit afterwards, and how often it
/// asked for each interrupt on the way.
pub struct TickResult {
    pub gpu: GpuView,
    pub vblanks: nat,
    pub stats: nat,
}

/// The interrupt flag bits for these counts of requests.
pub open spec fn request_mask(vblanks: nat, stats: nat) -> u8 {
    ((if vblanks > 0 {
        1int
    } else {
        0int
    }) + (if stats > 0 {
        2int
    } else {
        0int
    })) as u8
}

impl GpuView {
    /// Square `k` (0 to 63) of tile `tile` drawn with its corner at
    /// (`left`, `top`): pixel (`k / 8`, `k % 8`) in the tile's shade there.
    pub open spec fn tile_square(self, tile: int, left: int, top: int, k: int) -> Paint {
        tile_paint(color_of(tile_code(self.vram, tile, k % 8, k / 8)), left, top, k / 8, k % 8)
    }

    /// Square `k` of entry `i` of the background's tile map in the
    /// debugger's view, 32 tiles to the row.
    pub open spec fn map_square(self, i: int, k: int) -> Paint {
        self.tile_square(
            tile_number(self.regs, self.vram[map_base(bit(self.regs.lcdc as int, 3)) + i]),
            (i % 32) * 32,
            (i / 32) * 32,
            k,
        )
    }

    /// Square `k` of tile `t` on the debugger's sheet of all tiles, 25
    /// tiles to the row.
    pub open spec fn sheet_square(self, t: int, k: int) -> Paint {
        self.tile_square(t, (t % 25) * 32, (t / 25) * 32, k)
    }

    /// Scanline LY with the background drawn: where the background is
    /// on, each pixel of the line is the background's colour number
    /// through the background palette. The line of colour numbers is
    /// recorded, all 0 where the background is off.
    pub open spec fn bg_pass(self) -> GpuView {
        if bg_enabled(self.regs) {
            GpuView {
                line: Seq::new(160, |x: int| bg_code(self.vram, self.regs, x) as u8),
                pixels: Seq::new(
                    23040,
                    |k: int|
                        if k / 160 == self.regs.vert_line {
                            palette_color(
                                self.regs.bg_palette,
                                bg_code(self.vram, self.regs, k % 160),
                            )
                        } else {
                            self.pixels[k]
                        },
                ),
                ..self
            }
        } else {
            GpuView { line: Seq::new(160, |x: int| 0u8), ..self }
        }
    }

    /// Scanline LY with the window drawn over it: from the window's left
    /// edge on, the window replaces what is there, and the window has
    /// one more line drawn.
    pub open spec fn window_pass(self) -> GpuView {
        if window_visible(self.regs) {
            GpuView {
                line: Seq::new(
                    160,
                    |x: int|
                        if x >= self.regs.window_x - 7 {
                            window_code(self.vram, self.regs, x) as u8
                        } else {
                            self.line[x]
                        },
                ),
                pixels: Seq::new(
                    23040,
                    |k: int|
                        if k / 160 == self.regs.vert_line && k % 160 >= self.regs.window_x - 7 {
                            palette_color(
                                self.regs.bg_palette,
                                window_code(self.vram, self.regs, k % 160),
                            )
                        } else {
                            self.pixels[k]
                        },
                ),
                regs: GpuRegs {
                    current_window_line: ((self.regs.current_window_line + 1) % 256) as u8,
                    ..self.regs
                },
                ..self
            }
        } else {
            self
        }
    }

    /// Scanline LY with the objects laid over it.
    pub open spec fn object_pass(self) -> GpuView {
        if objects_enabled(self.regs) {
            GpuView {
                pixels: Seq::new(
                    23040,
                    |k: int|
                        if k / 160 == self.regs.vert_line {
                            object_pixel(
                                self.vram,
                                self.oam,
                                self.regs,
                                self.line,
                                self.pixels[k],
                                k % 160,
                            )
                        } else {
                            self.pixels[k]
                        },
                ),
                ..self
            }
        } else {
            self
        }
    }

    /// Scanline LY drawn into the frame buffer: background, then window,
    /// then objects.
    pub open spec fn render_line(self) -> GpuView {
        self.bg_pass().window_pass().object_pass()
    }

    /// Whether LY is LYC while STAT selects that for an interrupt.
    pub open spec fn stat_request(self) -> bool {
        self.regs.vert_line == self.regs.vert_line_cp && bit(self.regs.lcdc_stat as int, 6)
    }

    /// The unit as it leaves its current mode. Drawing ends by rendering
    /// the scanline; HBlank and each line of VBlank end by moving LY on;
    /// the frame is ready when line 144 begins; after line 153 LY and the
    /// window's line count return to 0.
    pub open spec fn advance(self) -> GpuView {
        match self.regs.mode {
            TickMode::OAM => GpuView {
                regs: GpuRegs { mode: TickMode::OAMVRAM, clock: 0, ..self.regs },
                ..self
            },
            TickMode::OAMVRAM => {
                let drawn = self.render_line();
                GpuView {
                    regs: GpuRegs { mode: TickMode::HBLANK, clock: 0, ..drawn.regs },
                    ..drawn
                }
            },
            TickMode::HBLANK => if self.regs.vert_line == 143 {
                GpuView {
                    regs: GpuRegs {
                        mode: TickMode::VBLANK,
                        clock: 0,
                        vert_line: 144,
                        can_draw: true,
                        ..self.regs
                    },
                    ..self
                }
            } else {
                GpuView {
                    regs: GpuRegs {
                        mode: TickMode::OAM,
                        clock: 0,
                        vert_line: (self.regs.vert_line + 1) as u8,
                        ..self.regs
                    },
                    ..self
                }
            },
            TickMode::VBLANK => if self.regs.vert_line == 153 {
                GpuView {
                    regs: GpuRegs {
                        mode: TickMode::OAM,
                        clock: 0,
                        vert_line: 0,
                        current_window_line: 0,
                        ..self.regs
                    },
                    ..self
                }
            } else {
                GpuView {
                    regs: GpuRegs {
                        clock: 0,
                        vert_line: (self.regs.vert_line + 1) as u8,
                        ..self.regs
                    },
                    ..self
                }
            },
        }
    }

    /// Whether leaving the current mode begins VBlank.
    pub open spec fn enters_vblank(self) -> bool {
        self.regs.mode == TickMode::HBLANK && self.regs.vert_line == 143
    }

    /// Whether leaving the current mode moves LY.
    pub open spec fn moves_line(self) -> bool {
        self.regs.mode == TickMode::HBLANK || self.regs.mode == TickMode::VBLANK
    }

    /// The unit after `cycles` more cycles. With the LCD off nothing
    /// moves. Otherwise the mode clock runs; each time it reaches the
    /// mode's duration the unit leaves the mode, asking for the VBlank
    /// interrupt where VBlank begins and for the STAT interrupt where LY
    /// moved onto LYC with that selected.
    pub open spec fn tick(self, cycles: nat) -> TickResult
        decreases cycles,
    {
        if !self.regs.lcd_on() || !self.regs.wf() {
            TickResult { gpu: self, vblanks: 0, stats: 0 }
        } else if self.regs.clock + cycles < self.regs.mode.duration() {
            TickResult {
                gpu: GpuView {
                    regs: GpuRegs { clock: (self.regs.clock + cycles) as u32, ..self.regs },
                    ..self
                },
                vblanks: 0,
                stats: 0,
            }
        } else {
            let next = self.advance();
            let rest = next.tick((cycles - (self.regs.mode.duration() - self.regs.clock)) as nat);
            TickResult {
                gpu: rest.gpu,
                vblanks: rest.vblanks + if self.enters_vblank() {
                    1nat
                } else {
                    0nat
                },
                stats: rest.stats + if self.moves_line() && next.stat_request() {
                    1nat
                } else {
                    0nat
                },
            }
        }
    }
}

pub struct Gpu {
    pub vram: Vec<u8>,
    pub oam: Vec<u8>,
    /// Decoded tiles: pixel `col` of row `row` of tile `t` is at
    /// `t * 64 + row * 8 + col`.
    pub tiles: Vec<GBColor>,
    pub objects: Vec<ObjData>,
    pub pixels: Vec<GBColor>,
    pub line: Vec<u8>,
    pub regs: GpuRegs,
}

impl View for Gpu {
    type V = GpuView;

    open spec fn view(&self) -> GpuView {
        GpuView {
            vram: self.vram@,
            oam: self.oam@,
            pixels: self.pixels@,
            line: self.line@,
            regs: self.regs,
        }
    }
}

impl Gpu {
    /// The memories have their sizes, the registers are consistent, and
    /// every decoded tile pixel and object descriptor is what decoding
    /// the memories gives.
    pub open spec fn wf(&self) -> bool {
        &&& self.sized()
        &&& self.tiles_decoded_except(-1)
        &&& self.objects_decoded_except(-1)
    }

    /// The memories have their sizes and the registers are consistent.
    pub open spec fn sized(&self) -> bool {
        &&& self@.wf()
        &&& self.tiles@.len() == 24576
        &&& self.objects@.len() == 40
    }

    /// Every decoded tile row but row `k` is what video RAM holds.
    pub open spec fn tiles_decoded_except(&self, k: int) -> bool {
        forall|i: int|
            0 <= i < 24576 && i / 8 != k ==> (#[trigger] self.tiles@[i]) == cached_pixel(
                self.vram@,
                i,
            )
    }

    /// Every object descriptor but descriptor `j` is what object memory
    /// holds.
    pub open spec fn objects_decoded_except(&self, j: int) -> bool {
        forall|i: int|
            0 <= i < 40 && i != j ==> (#[trigger] self.objects@[i]) == decode_object(
                self.oam@,
                i,
            )
    }

    pub fn new() -> (gpu: Gpu)
        ensures
            gpu.wf(),
            gpu@ == GpuView::initial(),
    {
        let mut objects: Vec<ObjData> = Vec::new();
        let mut i: usize = 0;
        while i < OBJECT_COUNT
            invariant
                i <= 40,
                objects@.len() == i,
                forall|j: int|
                    0 <= j < i ==> (#[trigger] objects@[j]) == decode_object(
                        Seq::new(0xA0, |k: int| 0u8),
                        j,
                    ),
            decreases 40 - i,
        {
            let mut obj = ObjData::new();
            obj.obj_index = i;
            objects.push(obj);
            i = i + 1;
        }
        let gpu = Gpu {
            vram: vec![0u8; VRAM_SIZE],
            oam: vec![0u8; OAM_SIZE],
            tiles: vec![GBColor::White; TILE_PIXELS],
            objects,
            pixels: vec![GBColor::White; FRAME_PIXELS],
            line: vec![0u8; 160],
            regs: GpuRegs {
                lcdc: 0x91,
                lcdc_stat: 0,
                mode: TickMode::HBLANK,
                scroll_y: 0,
                scroll_x: 0,
                vert_line: 0,
                vert_line_cp: 0,
                dma_write_addr: 0,
                bg_palette: 0,
                obj_palette0: 0,
                obj_palette1: 0,
                window_y: 0,
                window_x: 0,
                clock: 0,
                can_draw: false,
                current_window_line: 0,
                show_background: true,
                show_window: true,
                show_objects: true,
            },
        };
        assert(gpu@.vram =~= GpuView::initial().vram);
        assert(gpu@.oam =~= GpuView::initial().oam);
        assert(gpu@.pixels =~= GpuView::initial().pixels);
        assert(gpu@.line =~= GpuView::initial().line);
        gpu
    }

    /// Whether the unit answers at `addr`.
    pub open spec fn owns(addr: u16) -> bool {
        ||| 0x8000 <= addr < 0xA000
        ||| 0xFE00 <= addr < 0xFEA0
        ||| 0xFF40 <= addr < 0xFF4C
    }

    pub fn read_byte(&self, addr: u16) -> (val: u8)
        requires
            self.wf(),
            Gpu::owns(addr),
        ensures
            val == self@.read(addr),
    {
        if addr < 0xA000 {
            self.vram[(addr - 0x8000) as usize]
        } else if addr < 0xFEA0 {
            self.oam[(addr - 0xFE00) as usize]
        } else if addr == 0xFF40 {
            self.regs.lcdc
        } else if addr == 0xFF41 {
            let coincidence: u8 = if self.regs.vert_line == self.regs.vert_line_cp {
                4
            } else {
                0
            };
            self.regs.lcdc_stat + coincidence + self.regs.mode.to_val()
        } else if addr == 0xFF42 {
            self.regs.scroll_y
        } else if addr == 0xFF43 {
            self.regs.scroll_x
        } else if addr == 0xFF44 {
            self.regs.vert_line
        } else if addr == 0xFF45 {
            self.regs.vert_line_cp
        } else if addr == 0xFF46 {
            self.regs.dma_write_addr
        } else if addr == 0xFF47 {
            self.regs.bg_palette
        } else if addr == 0xFF48 {
            self.regs.obj_palette0
        } else if addr == 0xFF49 {
            self.regs.obj_palette1
        } else if addr == 0xFF4A {
            self.regs.window_y
        } else {
            self.regs.window_x
        }
    }

    pub fn write_byte(&mut self, addr: u16, val: u8)
        requires
            old(self).wf(),
            Gpu::owns(addr),
        ensures
            final(self).wf(),
            final(self)@ == old(self)@.write(addr, val),
    {
        if addr < 0xA000 {
            self.write_vram(addr, val);
        } else if addr < 0xFEA0 {
            self.oam[(addr - 0xFE00) as usize] = val;
            self.update_object_data(addr);
        } else {
            self.write_register(addr, val);
        }
    }

    /// A write into video RAM.
    pub fn write_vram(&mut self, addr: u16, val: u8)
        requires
            old(self).wf(),
            0x8000 <= addr < 0xA000,
        ensures
            final(self).wf(),
            final(self)@ == old(self)@.write(addr, val),
    {
        self.vram[(addr - 0x8000) as usize] = val;
        if addr < 0x9800 {
            self.update_tile_data(addr);
        } else {
            assert forall|i: int| 0 <= i < 24576 implies (#[trigger] self.tiles@[i])
                == cached_pixel(self.vram@, i) by {
                assert(2 * (i / 8) + 1 < 0x1800);
            }
        }
    }

    /// A write to one of the LCD registers.
    pub fn write_register(&mut self, addr: u16, val: u8)
        requires
            old(self).wf(),
            0xFF40 <= addr < 0xFF4C,
        ensures
            final(self).wf(),
            final(self)@ == old(self)@.write(addr, val),
    {
        if addr == 0xFF40 {
            self.write_lcdc(val);
        } else {
            self.regs = Self::registers_after(self.regs, addr, val);
        }
    }

    /// A write to LCDC. Clearing bit 7 stops the unit and blanks the
    /// frame buffer.
    pub fn write_lcdc(&mut self, val: u8)
        requires
            old(self).wf(),
        ensures
            final(self).wf(),
            final(self)@ == old(self)@.write(0xFF40, val),
    {
        self.regs.lcdc = val;
        if !is_bit_set(val, 7) {
            self.regs.vert_line = 0;
            self.regs.mode = TickMode::HBLANK;
            self.regs.clock = 0;
            self.regs.current_window_line = 0;
            self.pixels = vec![GBColor::White; FRAME_PIXELS];
            assert(self.pixels@ =~= blank_frame());
        }
    }

    /// The registers after a write to one of them other than LCDC.
    pub fn registers_after(regs: GpuRegs, addr: u16, val: u8) -> (after: GpuRegs)
        requires
            regs.wf(),
            0xFF41 <= addr < 0xFF4C,
        ensures
            after == regs.write(addr, val),
            after.wf(),
    {
        let mut after: GpuRegs = regs;
        if addr == 0xFF41 {
            after.lcdc_stat = val % 128 - val % 8;
        } else if addr == 0xFF42 {
            after.scroll_y = val;
        } else if addr == 0xFF43 {
            after.scroll_x = val;
        } else if addr == 0xFF44 {
            // LY is read-only.
        } else if addr == 0xFF45 {
            after.vert_line_cp = val;
        } else if addr == 0xFF46 {
            after.dma_write_addr = val;
        } else if addr == 0xFF47 {
            after.bg_palette = val;
        } else if addr == 0xFF48 {
            after.obj_palette0 = val;
        } else if addr == 0xFF49 {
            after.obj_palette1 = val;
        } else if addr == 0xFF4A {
            after.window_y = val;
        } else {
            after.window_x = val;
        }
        after
    }

    /// Decodes again the tile row that holds the video RAM byte at `addr`.
    pub fn update_tile_data(&mut self, addr: u16)
        requires
            0x8000 <= addr < 0x9800,
            old(self).sized(),
            old(self).tiles_decoded_except((addr - 0x8000) / 2),
            old(self).objects_decoded_except(-1),
        ensures
            final(self).wf(),
            final(self)@ == old(self)@,
    {
        let row: usize = ((addr - 0x8000) / 2) as usize;
        let lo: u8 = self.vram[2 * row];
        let hi: u8 = self.vram[2 * row + 1];
        let mut x: u8 = 0;
        while x < 8
            invariant
                x <= 8,
                row == (addr - 0x8000) / 2,
                row < 0xC00,
                lo == self.vram@[2 * row as int],
                hi == self.vram@[2 * row as int + 1],
                self.sized(),
                self@ == old(self)@,
                self.objects == old(self).objects,
                self.tiles_decoded_except(row as int),
                forall|c: int|
                    0 <= c < x ==> (#[trigger] self.tiles@[row * 8 + c]) == cached_pixel(
                        self.vram@,
                        row * 8 + c,
                    ),
            decreases 8 - x,
        {
            let low_bit: u8 = if is_bit_set(lo, 7 - x) {
                1
            } else {
                0
            };
            let high_bit: u8 = if is_bit_set(hi, 7 - x) {
                2
            } else {
                0
            };
            let index: usize = row * 8 + x as usize;
            assert(index as int / 8 == row && index as int % 8 == x);
            self.tiles[index] = byte_to_color(low_bit + high_bit);
            x = x + 1;
        }
        assert forall|i: int| 0 <= i < 24576 implies (#[trigger] self.tiles@[i]) == cached_pixel(
            self.vram@,
            i,
        ) by {
            if i / 8 == row {
                let c = i - row * 8;
                assert(self.tiles@[row * 8 + c] == cached_pixel(self.vram@, row * 8 + c));
            }
        }
    }

    /// Decodes again the object descriptor that holds the object memory
    /// byte at `addr`.
    pub fn update_object_data(&mut self, addr: u16)
        requires
            0xFE00 <= addr < 0xFEA0,
            old(self).sized(),
            old(self).tiles_decoded_except(-1),
            old(self).objects_decoded_except((addr - 0xFE00) / 4),
        ensures
            final(self).wf(),
            final(self)@ == old(self)@,
    {
        let obj: usize = ((addr - 0xFE00) / 4) as usize;
        let attrs: u8 = self.oam[4 * obj + 3];
        let decoded = ObjData {
            y: self.oam[4 * obj],
            x: self.oam[4 * obj + 1],
            pattern_num: self.oam[4 * obj + 2],
            priority: is_bit_set(attrs, 7),
            y_flip: is_bit_set(attrs, 6),
            x_flip: is_bit_set(attrs, 5),
            pal_num: is_bit_set(attrs, 4),
            obj_index: obj,
        };
        self.objects[obj] = decoded;
    }

    /// Replaces all of object memory, as an OAM DMA transfer does.
    pub fn load_oam(&mut self, bytes: &Vec<u8>)
        requires
            old(self).wf(),
            bytes@.len() == 0xA0,
        ensures
            final(self).wf(),
            final(self)@ == old(self)@.with_oam(bytes@),
    {
        let mut i: usize = 0;
        while i < OAM_SIZE
            invariant
                i <= 0xA0,
                bytes@.len() == 0xA0,
                self.sized(),
                self.tiles_decoded_except(-1),
                self.tiles == old(self).tiles,
                self.vram == old(self).vram,
                self.pixels == old(self).pixels,
                self.line == old(self).line,
                self.regs == old(self).regs,
                self.oam@.len() == 0xA0,
                forall|j: int| 0 <= j < i ==> (#[trigger] self.oam@[j]) == bytes@[j],
            decreases 0xA0 - i,
        {
            self.oam[i] = bytes[i];
            i = i + 1;
        }
        assert(self.oam@ =~= bytes@);
        let mut obj: usize = 0;
        while obj < OBJECT_COUNT
            invariant
                obj <= 40,
                self.sized(),
                self.tiles_decoded_except(-1),
                self@ == old(self)@.with_oam(bytes@),
                forall|j: int|
                    0 <= j < obj ==> (#[trigger] self.objects@[j]) == decode_object(
                        self.oam@,
                        j,
                    ),
            decreases 40 - obj,
        {
            let attrs: u8 = self.oam[4 * obj + 3];
            let decoded = ObjData {
                y: self.oam[4 * obj],
                x: self.oam[4 * obj + 1],
                pattern_num: self.oam[4 * obj + 2],
                priority: is_bit_set(attrs, 7),
                y_flip: is_bit_set(attrs, 6),
                x_flip: is_bit_set(attrs, 5),
                pal_num: is_bit_set(attrs, 4),
                obj_index: obj,
            };
            self.objects[obj] = decoded;
            obj = obj + 1;
        }
    }

    pub fn debug_toggle_background(&mut self)
        ensures
            *final(self) == (Gpu {
                regs: GpuRegs {
                    show_background: !old(self).regs.show_background,
                    ..old(self).regs
                },
                ..*old(self)
            }),
    {
        self.regs.show_background = !self.regs.show_background;
    }

    pub fn debug_toggle_window(&mut self)
        ensures
            *final(self) == (Gpu {
                regs: GpuRegs { show_window: !old(self).regs.show_window, ..old(self).regs },
                ..*old(self)
            }),
    {
        self.regs.show_window = !self.regs.show_window;
    }

    pub fn debug_toggle_objects(&mut self)
        ensures
            *final(self) == (Gpu {
                regs: GpuRegs { show_objects: !old(self).regs.show_objects, ..old(self).regs },
                ..*old(self)
            }),
    {
        self.regs.show_objects = !self.regs.show_objects;
    }

    /// Turns on or off each layer whose argument is true.
    pub fn debug_toggle_layers(&mut self, background: bool, window: bool, objects: bool)
        ensures
            *final(self) == (Gpu {
                regs: GpuRegs {
                    show_background: old(self).regs.show_background != background,
                    show_window: old(self).regs.show_window != window,
                    show_objects: old(self).regs.show_objects != objects,
                    ..old(self).regs
                },
                ..*old(self)
            }),
    {
        if background {
            self.debug_toggle_background();
        }
        if window {
            self.debug_toggle_window();
        }
        if objects {
            self.debug_toggle_objects();
        }
    }

    pub fn is_bit_set(val: u8, n: u8) -> (set: bool)
        requires
            n < 8,
        ensures
            set == bit(val as int, n as int),
    {
        is_bit_set(val, n)
    }

    pub fn should_display_background(&self) -> (on: bool)
        ensures
            on == bit(self.regs.lcdc as int, 0),
    {
        is_bit_set(self.regs.lcdc, 0)
    }

    /// Whether objects are displayed (bit 1 of LCDC).
    pub fn use_zero_as_window_solid(&self) -> (on: bool)
        ensures
            on == bit(self.regs.lcdc as int, 1),
    {
        is_bit_set(self.regs.lcdc, 1)
    }

    pub fn use_8x16_sprites(&self) -> (on: bool)
        ensures
            on == bit(self.regs.lcdc as int, 2),
    {
        is_bit_set(self.regs.lcdc, 2)
    }

    /// Whether the background map is the one at 0x9C00 (else 0x9800).
    pub fn background_tile_table_address(&self) -> (on: bool)
        ensures
            on == bit(self.regs.lcdc as int, 3),
    {
        is_bit_set(self.regs.lcdc, 3)
    }

    /// Whether tile numbers count up from 0x8000 (else signed around
    /// 0x9000).
    pub fn tile_pattern_table_address(&self) -> (on: bool)
        ensures
            on == bit(self.regs.lcdc as int, 4),
    {
        is_bit_set(self.regs.lcdc, 4)
    }

    pub fn should_draw_window(&self) -> (on: bool)
        ensures
            on == bit(self.regs.lcdc as int, 5),
    {
        is_bit_set(self.regs.lcdc, 5)
    }

    /// Whether the window map is the one at 0x9C00 (else 0x9800).
    pub fn window_tile_table_address(&self) -> (on: bool)
        ensures
            on == bit(self.regs.lcdc as int, 6),
    {
        is_bit_set(self.regs.lcdc, 6)
    }

    pub fn lcd_operation(&self) -> (on: bool)
        ensures
            on == self.regs.lcd_on(),
    {
        is_bit_set(self.regs.lcdc, 7)
    }

    pub fn get_pixel(&self, x: usize, y: usize) -> (color: GBColor)
        requires
            self.wf(),
            x < 160,
            y < 144,
        ensures
            color == self@.pixels[x + y * 160],
    {
        self.pixels[x + y * 160]
    }

    pub fn mode(&self) -> (mode: TickMode)
        ensures
            mode == self.regs.mode,
    {
        self.regs.mode
    }

    /// Moves to mode `val` and restarts the mode clock, unless the unit
    /// is in that mode already.
    pub fn set_mode(&mut self, val: TickMode)
        ensures
            *final(self) == (Gpu {
                regs: if old(self).regs.mode == val {
                    old(self).regs
                } else {
                    GpuRegs { mode: val, clock: 0, ..old(self).regs }
                },
                ..*old(self)
            }),
    {
        if self.regs.mode.to_val() != val.to_val() {
            self.regs.clock = 0;
            self.regs.mode = val;
        }
    }

    /// The colour number at (`row`, `col`) of tile `tile`, taken from the
    /// decoded tiles.
    pub fn tile_pixel(&self, tile: usize, row: usize, col: usize) -> (code: u8)
        requires
            self.wf(),
            tile < 384,
            row < 8,
            col < 8,
        ensures
            code == tile_code(self.vram@, tile as int, row as int, col as int),
            code <= 3,
    {
        let index: usize = tile * 64 + row * 8 + col;
        assert(index as int / 8 == tile * 8 + row && index as int % 8 == col);
        color_to_byte(self.tiles[index])
    }

    /// The number of the tile that a tile map entry names.
    pub fn get_tile(&self, entry: u8) -> (tile: usize)
        ensures
            tile == tile_number(self.regs, entry),
            tile < 384,
    {
        if self.tile_pattern_table_address() || entry >= 128 {
            entry as usize
        } else {
            entry as usize + 256
        }
    }

    fn map_start(high: bool) -> (base: usize)
        ensures
            base == map_base(high),
    {
        if high {
            0x1C00
        } else {
            0x1800
        }
    }

    fn bg_code_at(&self, x: usize) -> (code: u8)
        requires
            self.wf(),
            x < 160,
        ensures
            code == bg_code(self.vram@, self.regs, x as int),
            code <= 3,
    {
        let py: usize = self.regs.vert_line as usize + self.regs.scroll_y as usize;
        let px: usize = x + self.regs.scroll_x as usize;
        let base: usize = Self::map_start(self.background_tile_table_address());
        let entry: u8 = self.vram[base + ((py / 8) % 32) * 32 + (px / 8) % 32];
        let tile: usize = self.get_tile(entry);
        self.tile_pixel(tile, py % 8, px % 8)
    }

    fn window_on_line(&self) -> (visible: bool)
        ensures
            visible == window_visible(self.regs),
    {
        self.regs.show_window && self.should_draw_window() && self.regs.window_y
            <= self.regs.vert_line && 7 <= self.regs.window_x && self.regs.window_x <= 166
    }

    fn window_code_at(&self, x: usize) -> (code: u8)
        requires
            self.wf(),
            x < 160,
            7 <= self.regs.window_x,
            x >= self.regs.window_x - 7,
        ensures
            code == window_code(self.vram@, self.regs, x as int),
            code <= 3,
    {
        let wx: usize = x - (self.regs.window_x as usize - 7);
        let row: usize = self.regs.current_window_line as usize;
        let base: usize = Self::map_start(self.window_tile_table_address());
        let entry: u8 = self.vram[base + (row / 8) * 32 + wx / 8];
        let tile: usize = self.get_tile(entry);
        self.tile_pixel(tile, row % 8, wx % 8)
    }

    fn object_height(&self) -> (height: usize)
        ensures
            height == obj_height(self.regs),
    {
        if self.use_8x16_sprites() {
            16
        } else {
            8
        }
    }

    fn object_on_line(&self, i: usize) -> (on: bool)
        requires
            self.wf(),
            i < 40,
        ensures
            on == obj_on_line(self.oam@, self.regs, i as int),
    {
        let y: usize = self.objects[i].y as usize;
        let line: usize = self.regs.vert_line as usize + 16;
        y <= line && line < y + self.object_height()
    }

    /// For each object, whether it is drawn on scanline LY: the first 10
    /// that overlap the line, in the order of object memory.
    pub fn select_objects(&self) -> (chosen: Vec<bool>)
        requires
            self.wf(),
        ensures
            chosen@.len() == 40,
            forall|i: int|
                0 <= i < 40 ==> (#[trigger] chosen@[i]) == obj_selected(self.oam@, self.regs, i),
            selected_before(self.oam@, self.regs, 40) <= 10,
    {
        let mut chosen: Vec<bool> = Vec::new();
        let mut seen: usize = 0;
        let mut taken: usize = 0;
        let mut i: usize = 0;
        while i < OBJECT_COUNT
            invariant
                i <= 40,
                self.wf(),
                chosen@.len() == i,
                seen == on_line_before(self.oam@, self.regs, i as int),
                taken == selected_before(self.oam@, self.regs, i as int),
                seen <= i,
                taken <= 10,
                taken <= seen,
                seen < 10 ==> taken == seen,
                forall|j: int|
                    0 <= j < i ==> (#[trigger] chosen@[j]) == obj_selected(
                        self.oam@,
                        self.regs,
                        j,
                    ),
            decreases 40 - i,
        {
            let on: bool = self.object_on_line(i);
            let take: bool = on && seen < 10;
            chosen.push(take);
            if on {
                seen = seen + 1;
            }
            if take {
                taken = taken + 1;
            }
            i = i + 1;
        }
        chosen
    }

    fn object_code_at(&self, i: usize, x: usize) -> (code: u8)
        requires
            self.wf(),
            i < 40,
            x < 160,
            obj_on_line(self.oam@, self.regs, i as int),
            self.oam@[4 * i + 1] <= x + 8 < self.oam@[4 * i + 1] + 8,
        ensures
            code == obj_code(self.vram@, self.oam@, self.regs, i as int, x as int),
            code <= 3,
    {
        let obj: ObjData = self.objects[i];
        let height: usize = self.object_height();
        let across: usize = x + 8 - obj.x as usize;
        let down: usize = self.regs.vert_line as usize + 16 - obj.y as usize;
        let col: usize = if obj.x_flip {
            7 - across
        } else {
            across
        };
        let row: usize = if obj.y_flip {
            height - 1 - down
        } else {
            down
        };
        let pattern: usize = obj.pattern_num as usize;
        let tile: usize = if height == 16 {
            pattern - pattern % 2 + row / 8
        } else {
            pattern
        };
        self.tile_pixel(tile, row % 8, col)
    }

    /// The object in front at column `x`, if any, given which objects
    /// are drawn on the line.
    fn front_object(&self, chosen: &Vec<bool>, x: usize) -> (front: Option<usize>)
        requires
            self.wf(),
            x < 160,
            chosen@.len() == 40,
            forall|i: int|
                0 <= i < 40 ==> (#[trigger] chosen@[i]) == obj_selected(self.oam@, self.regs, i),
        ensures
            front is None ==> obj_winner(self.vram@, self.oam@, self.regs, x as int, 40) == -1,
            front is Some ==> obj_winner(self.vram@, self.oam@, self.regs, x as int, 40)
                == front->0,
            front is Some ==> front->0 < 40 && obj_shows(
                self.vram@,
                self.oam@,
                self.regs,
                front->0 as int,
                x as int,
            ),
    {
        let mut found: bool = false;
        let mut best: usize = 0;
        let mut i: usize = 0;
        while i < OBJECT_COUNT
            invariant
                i <= 40,
                self.wf(),
                x < 160,
                chosen@.len() == 40,
                forall|j: int|
                    0 <= j < 40 ==> (#[trigger] chosen@[j]) == obj_selected(
                        self.oam@,
                        self.regs,
                        j,
                    ),
                !found ==> obj_winner(self.vram@, self.oam@, self.regs, x as int, i as int) == -1,
                found ==> obj_winner(self.vram@, self.oam@, self.regs, x as int, i as int)
                    == best,
                found ==> best < 40 && obj_shows(
                    self.vram@,
                    self.oam@,
                    self.regs,
                    best as int,
                    x as int,
                ),
            decreases 40 - i,
        {
            let left: usize = self.objects[i].x as usize;
            let mut shows: bool = false;
            if chosen[i] && left <= x + 8 && x + 8 < left + 8 {
                shows = self.object_code_at(i, x) != 0;
            }
            if shows && (!found || self.objects[i].x < self.objects[best].x) {
                found = true;
                best = i;
            }
            i = i + 1;
        }
        if found {
            Some(best)
        } else {
            None
        }
    }

    #[verifier::rlimit(50)]
    pub fn render_bg(&mut self)
        requires
            old(self).wf(),
            old(self).regs.vert_line <= 143,
        ensures
            final(self).wf(),
            final(self)@ == old(self)@.bg_pass(),
    {
        if !(self.regs.show_background && self.should_display_background()) {
            self.line = vec![0u8; 160];
            assert(self@.line =~= old(self)@.bg_pass().line);
            return ;
        }
        let ly: usize = self.regs.vert_line as usize;
        let mut x: usize = 0;
        while x < 160
            invariant
                x <= 160,
                ly == self.regs.vert_line,
                ly <= 143,
                self.wf(),
                self.vram == old(self).vram,
                self.oam == old(self).oam,
                self.regs == old(self).regs,
                forall|j: int|
                    0 <= j < x ==> (#[trigger] self.line@[j]) == bg_code(
                        self.vram@,
                        self.regs,
                        j,
                    ),
                forall|k: int|
                    0 <= k < 23040 ==> (#[trigger] self.pixels@[k]) == (if k / 160 == ly && k % 160
                        < x {
                        palette_color(
                            self.regs.bg_palette,
                            bg_code(self.vram@, self.regs, k % 160),
                        )
                    } else {
                        old(self).pixels@[k]
                    }),
            decreases 160 - x,
        {
            let code: u8 = self.bg_code_at(x);
            self.line[x] = code;
            let at: usize = ly * 160 + x;
            assert(at as int / 160 == ly && at as int % 160 == x);
            self.pixels[at] = apply_palette(self.regs.bg_palette, code);
            x = x + 1;
        }
        assert(self@.line =~= old(self)@.bg_pass().line);
        assert(self@.pixels =~= old(self)@.bg_pass().pixels);
    }

    #[verifier::rlimit(50)]
    pub fn render_window(&mut self)
        requires
            old(self).wf(),
            old(self).regs.vert_line <= 143,
        ensures
            final(self).wf(),
            final(self)@ == old(self)@.window_pass(),
    {
        if !self.window_on_line() {
            return ;
        }
        let ly: usize = self.regs.vert_line as usize;
        let start: usize = self.regs.window_x as usize - 7;
        let mut x: usize = start;
        while x < 160
            invariant
                start <= x <= 160,
                start == self.regs.window_x - 7,
                7 <= self.regs.window_x,
                ly == self.regs.vert_line,
                ly <= 143,
                self.wf(),
                self.vram == old(self).vram,
                self.oam == old(self).oam,
                self.regs == old(self).regs,
                forall|j: int|
                    0 <= j < 160 ==> (#[trigger] self.line@[j]) == (if start <= j < x {
                        window_code(self.vram@, self.regs, j) as u8
                    } else {
                        old(self).line@[j]
                    }),
                forall|k: int|
                    0 <= k < 23040 ==> (#[trigger] self.pixels@[k]) == (if k / 160 == ly && start
                        <= k % 160 < x {
                        palette_color(
                            self.regs.bg_palette,
                            window_code(self.vram@, self.regs, k % 160),
                        )
                    } else {
                        old(self).pixels@[k]
                    }),
            decreases 160 - x,
        {
            let code: u8 = self.window_code_at(x);
            self.line[x] = code;
            let at: usize = ly * 160 + x;
            assert(at as int / 160 == ly && at as int % 160 == x);
            self.pixels[at] = apply_palette(self.regs.bg_palette, code);
            x = x + 1;
        }
        self.regs.current_window_line = self.regs.current_window_line.wrapping_add(1);
        assert(self@.line =~= old(self)@.window_pass().line);
        assert(self@.pixels =~= old(self)@.window_pass().pixels);
    }

    #[verifier::rlimit(50)]
    pub fn render_objects(&mut self)
        requires
            old(self).wf(),
            old(self).regs.vert_line <= 143,
        ensures
            final(self).wf(),
            final(self)@ == old(self)@.object_pass(),
    {
        if !(self.regs.show_objects && self.use_zero_as_window_solid()) {
            return ;
        }
        let chosen: Vec<bool> = self.select_objects();
        let ly: usize = self.regs.vert_line as usize;
        let mut x: usize = 0;
        while x < 160
            invariant
                x <= 160,
                ly == self.regs.vert_line,
                ly <= 143,
                self.wf(),
                self.vram == old(self).vram,
                self.oam == old(self).oam,
                self.regs == old(self).regs,
                self.line == old(self).line,
                chosen@.len() == 40,
                forall|i: int|
                    0 <= i < 40 ==> (#[trigger] chosen@[i]) == obj_selected(
                        self.oam@,
                        self.regs,
                        i,
                    ),
                forall|k: int|
                    0 <= k < 23040 ==> (#[trigger] self.pixels@[k]) == (if k / 160 == ly && k % 160
                        < x {
                        object_pixel(
                            self.vram@,
                            self.oam@,
                            self.regs,
                            self.line@,
                            old(self).pixels@[k],
                            k % 160,
                        )
                    } else {
                        old(self).pixels@[k]
                    }),
            decreases 160 - x,
        {
            let at: usize = ly * 160 + x;
            assert(at as int / 160 == ly && at as int % 160 == x);
            match self.front_object(&chosen, x) {
                Some(front) => {
                    let obj: ObjData = self.objects[front];
                    if !obj.priority || self.line[x] == 0 {
                        let palette: u8 = if obj.pal_num {
                            self.regs.obj_palette1
                        } else {
                            self.regs.obj_palette0
                        };
                        let code: u8 = self.object_code_at(front, x);
                        self.pixels[at] = apply_palette(palette, code);
                    }
                },
                None => {},
            }
            x = x + 1;
        }
        assert(self@.pixels =~= old(self)@.object_pass().pixels);
    }

    /// Draws scanline LY into the frame buffer.
    pub fn render_screen(&mut self)
        requires
            old(self).wf(),
            old(self).regs.vert_line <= 143,
        ensures
            final(self).wf(),
            final(self)@ == old(self)@.render_line(),
    {
        self.render_bg();
        self.render_window();
        self.render_objects();
    }

    /// Moves LY to the next scanline, from 153 back to 0, and says
    /// whether that asks for the STAT interrupt.
    pub fn inc_vert_line(&mut self) -> (request: bool)
        requires
            old(self).regs.vert_line <= 153,
        ensures
            *final(self) == (Gpu {
                regs: GpuRegs {
                    vert_line: if old(self).regs.vert_line == 153 {
                        0u8
                    } else {
                        (old(self).regs.vert_line + 1) as u8
                    },
                    ..old(self).regs
                },
                ..*old(self)
            }),
            request == final(self)@.stat_request(),
    {
        if self.regs.vert_line == 153 {
            self.regs.vert_line = 0;
        } else {
            self.regs.vert_line = self.regs.vert_line + 1;
        }
        self.regs.vert_line == self.regs.vert_line_cp && is_bit_set(self.regs.lcdc_stat, 6)
    }

    /// Leaves the current mode. Says whether VBlank began and whether
    /// the STAT interrupt is asked for.
    #[verifier::rlimit(50)]
    pub fn leave_mode(&mut self) -> (requests: (bool, bool))
        requires
            old(self).wf(),
        ensures
            final(self).wf(),
            final(self)@ == old(self)@.advance(),
            requests.0 == old(self)@.enters_vblank(),
            requests.1 == (old(self)@.moves_line() && final(self)@.stat_request()),
    {
        match self.regs.mode {
            TickMode::OAM => {
                self.regs.mode = TickMode::OAMVRAM;
                self.regs.clock = 0;
                (false, false)
            },
            TickMode::OAMVRAM => {
                self.render_screen();
                self.regs.mode = TickMode::HBLANK;
                self.regs.clock = 0;
                (false, false)
            },
            TickMode::HBLANK => {
                let request: bool = self.inc_vert_line();
                self.regs.clock = 0;
                if self.regs.vert_line == 144 {
                    self.regs.mode = TickMode::VBLANK;
                    self.regs.can_draw = true;
                    (true, request)
                } else {
                    self.regs.mode = TickMode::OAM;
                    (false, request)
                }
            },
            TickMode::VBLANK => {
                let request: bool = self.inc_vert_line();
                self.regs.clock = 0;
                if self.regs.vert_line == 0 {
                    self.regs.mode = TickMode::OAM;
                    self.regs.current_window_line = 0;
                }
                (false, request)
            },
        }
    }

    /// Runs the unit for `clock_t` cycles and returns the interrupt flag
    /// bits it asks for: bit 0 for VBlank, bit 1 for STAT.
    pub fn tick(&mut self, clock_t: u32) -> (interrupts: u8)
        requires
            old(self).wf(),
        ensures
            final(self).wf(),
            final(self)@ == old(self)@.tick(clock_t as nat).gpu,
            interrupts == request_mask(
                old(self)@.tick(clock_t as nat).vblanks,
                old(self)@.tick(clock_t as nat).stats,
            ),
    {
        if !self.lcd_operation() {
            return 0;
        }
        let mut remaining: u32 = clock_t;
        let mut vblank: bool = false;
        let mut stat: bool = false;
        let ghost mut vblanks: nat = 0;
        let ghost mut stats: nat = 0;
        loop
            invariant_except_break
                old(self)@.tick(clock_t as nat).gpu == self@.tick(remaining as nat).gpu,
                old(self)@.tick(clock_t as nat).vblanks == self@.tick(remaining as nat).vblanks
                    + vblanks,
                old(self)@.tick(clock_t as nat).stats == self@.tick(remaining as nat).stats
                    + stats,
            invariant
                self.wf(),
                self.regs.lcd_on(),
                vblank == (vblanks > 0),
                stat == (stats > 0),
            ensures
                self.wf(),
                self@ == old(self)@.tick(clock_t as nat).gpu,
                vblank == (old(self)@.tick(clock_t as nat).vblanks > 0),
                stat == (old(self)@.tick(clock_t as nat).stats > 0),
            decreases remaining,
        {
            let need: u32 = self.regs.mode.cycles() - self.regs.clock;
            if remaining < need {
                self.regs.clock = self.regs.clock + remaining;
                break ;
            }
            remaining = remaining - need;
            let requests = self.leave_mode();
            if requests.0 {
                vblank = true;
                proof {
                    vblanks = vblanks + 1;
                }
            }
            if requests.1 {
                stat = true;
                proof {
                    stats = stats + 1;
                }
            }
        }
        let vblank_bit: u8 = if vblank {
            VBLANK_REQUEST
        } else {
            0
        };
        let stat_bit: u8 = if stat {
            STAT_REQUEST
        } else {
            0
        };
        vblank_bit + stat_bit
    }

    /// Takes the finished frame, if there is one to show: true once per
    /// frame, and only while the LCD is on.
    pub fn take_frame(&mut self) -> (ready: bool)
        ensures
            ready == (old(self).regs.can_draw && old(self).regs.lcd_on()),
            *final(self) == (Gpu {
                regs: GpuRegs {
                    can_draw: old(self).regs.can_draw && !ready,
                    ..old(self).regs
                },
                ..*old(self)
            }),
    {
        if !self.regs.can_draw || !self.lcd_operation() {
            return false;
        }
        self.regs.can_draw = false;
        true
    }

    /// Every tile decoded: entry `t` holds the shades of tile `t` by row
    /// and column.
    pub fn get_tiles(&self) -> (tiles: Vec<Tile16>)
        requires
            self.wf(),
        ensures
            tiles@.len() == 384,
            forall|t: int, row: int, col: int|
                0 <= t < 384 && 0 <= row < 8 && 0 <= col < 8 ==> (#[trigger] tiles@[t]@[row]@[col])
                    == color_of(tile_code(self.vram@, t, row, col)),
    {
        let mut tiles: Vec<Tile16> = Vec::new();
        let mut t: usize = 0;
        while t < TILE_COUNT
            invariant
                t <= 384,
                self.wf(),
                tiles@.len() == t,
                forall|u: int, row: int, col: int|
                    0 <= u < t && 0 <= row < 8 && 0 <= col < 8 ==> (
                    #[trigger] tiles@[u]@[row]@[col]) == color_of(
                        tile_code(self.vram@, u, row, col),
                    ),
            decreases 384 - t,
        {
            let mut tile: Tile16 = make_tile16();
            let mut row: usize = 0;
            while row < 8
                invariant
                    row <= 8,
                    t < 384,
                    self.wf(),
                    forall|r: int, col: int|
                        0 <= r < row && 0 <= col < 8 ==> (#[trigger] tile@[r]@[col]) == color_of(
                            tile_code(self.vram@, t as int, r, col),
                        ),
                decreases 8 - row,
            {
                let mut cells: [GBColor; 8] = [GBColor::White;8];
                let mut col: usize = 0;
                while col < 8
                    invariant
                        col <= 8,
                        row < 8,
                        t < 384,
                        self.wf(),
                        forall|c: int|
                            0 <= c < col ==> (#[trigger] cells@[c]) == color_of(
                                tile_code(self.vram@, t as int, row as int, c),
                            ),
                    decreases 8 - col,
                {
                    cells[col] = byte_to_color(self.tile_pixel(t, row, col));
                    col = col + 1;
                }
                tile[row] = cells;
                row = row + 1;
            }
            tiles.push(tile);
            t = t + 1;
        }
        tiles
    }

    /// The 32x32 entries of the background's tile map.
    pub fn debug_get_background_tilemap(&self) -> (map: Vec<u8>)
        requires
            self.wf(),
        ensures
            map@ == self.vram@.subrange(
                map_base(bit(self.regs.lcdc as int, 3)),
                map_base(bit(self.regs.lcdc as int, 3)) + 1024,
            ),
    {
        let base: usize = Self::map_start(self.background_tile_table_address());
        let mut map: Vec<u8> = Vec::new();
        let mut i: usize = 0;
        while i < 1024
            invariant
                i <= 1024,
                self.wf(),
                base == map_base(bit(self.regs.lcdc as int, 3)),
                map@.len() == i,
                forall|j: int| 0 <= j < i ==> (#[trigger] map@[j]) == self.vram@[base + j],
            decreases 1024 - i,
        {
            map.push(self.vram[base + i]);
            i = i + 1;
        }
        assert(map@ =~= self.vram@.subrange(base as int, base + 1024));
        map
    }

    /// The frame as host colours, three bytes to the pixel: red, green,
    /// blue.
    pub fn frame_bytes(&self, scheme: &ColorScheme) -> (bytes: Vec<u8>)
        requires
            self.wf(),
        ensures
            bytes@.len() == 3 * 23040,
            forall|i: int|
                0 <= i < 3 * 23040 ==> (#[trigger] bytes@[i]) == channel(
                    rgba_of(self@.pixels[i / 3], *scheme),
                    i % 3,
                ),
    {
        let mut bytes: Vec<u8> = Vec::new();
        let mut k: usize = 0;
        while k < FRAME_PIXELS
            invariant
                k <= 23040,
                self.wf(),
                bytes@.len() == 3 * k,
                forall|i: int|
                    0 <= i < 3 * k ==> (#[trigger] bytes@[i]) == channel(
                        rgba_of(self@.pixels[i / 3], *scheme),
                        i % 3,
                    ),
            decreases 23040 - k,
        {
            let shade = get_color(&self.pixels[k], scheme);
            bytes.push(shade.r);
            bytes.push(shade.g);
            bytes.push(shade.b);
            k = k + 1;
        }
        bytes
    }

    /// The squares to paint for the finished frame, if there is one to
    /// show: one for each pixel, line after line. The frame is then
    /// taken.
    pub fn draw(&mut self) -> (painted: Option<Vec<Paint>>)
        requires
            old(self).wf(),
        ensures
            final(self).wf(),
            painted is Some == (old(self).regs.can_draw && old(self).regs.lcd_on()),
            *final(self) == (Gpu {
                regs: GpuRegs {
                    can_draw: old(self).regs.can_draw && painted is None,
                    ..old(self).regs
                },
                ..*old(self)
            }),
            painted is Some ==> painted->0@.len() == 23040 && forall|i: int|
                0 <= i < 23040 ==> (#[trigger] painted->0@[i]) == frame_paint(
                    old(self)@.pixels[i],
                    i,
                ),
    {
        if !self.take_frame() {
            return None;
        }
        let mut squares: Vec<Paint> = Vec::new();
        let mut i: usize = 0;
        while i < FRAME_PIXELS
            invariant
                i <= 23040,
                self.wf(),
                squares@.len() == i,
                forall|j: int|
                    0 <= j < i ==> (#[trigger] squares@[j]) == frame_paint(self@.pixels[j], j),
            decreases 23040 - i,
        {
            let color = get_color(&self.pixels[i], &ColorScheme::BlackWhite);
            squares.push(Paint { rect: pixel_rect(i), color });
            i = i + 1;
        }
        Some(squares)
    }

    /// The finished frame as host colours, three bytes to the pixel, if
    /// there is a frame to show. The frame is then taken.
    pub fn draw_texture(&mut self) -> (bytes: Option<Vec<u8>>)
        requires
            old(self).wf(),
        ensures
            final(self).wf(),
            bytes is Some == (old(self).regs.can_draw && old(self).regs.lcd_on()),
            *final(self) == (Gpu {
                regs: GpuRegs {
                    can_draw: old(self).regs.can_draw && bytes is None,
                    ..old(self).regs
                },
                ..*old(self)
            }),
            bytes is Some ==> bytes->0@.len() == 3 * 23040 && forall|i: int|
                0 <= i < 3 * 23040 ==> (#[trigger] bytes->0@[i]) == channel(
                    rgba_of(old(self)@.pixels[i / 3], ColorScheme::BlackWhite),
                    i % 3,
                ),
    {
        if !self.take_frame() {
            return None;
        }
        Some(self.frame_bytes(&ColorScheme::BlackWhite))
    }

    /// The squares that show tile `tile` with its corner at `corner`,
    /// added to `squares`: column after column, each from the top down.
    pub fn paint_tile(&self, squares: &mut Vec<Paint>, tile: usize, corner: (i32, i32))
        requires
            self.wf(),
            tile < 384,
            0 <= corner.0 <= 1024,
            0 <= corner.1 <= 1024,
        ensures
            final(squares)@.len() == old(squares)@.len() + 64,
            forall|j: int|
                0 <= j < old(squares)@.len() ==> (#[trigger] final(squares)@[j]) == old(
                    squares,
                )@[j],
            forall|k: int|
                0 <= k < 64 ==> (#[trigger] final(squares)@[old(squares)@.len() + k])
                    == self@.tile_square(tile as int, corner.0 as int, corner.1 as int, k),
    {
        let ghost before = squares@;
        let mut k: usize = 0;
        while k < 64
            invariant
                k <= 64,
                self.wf(),
                tile < 384,
                0 <= corner.0 <= 1024,
                0 <= corner.1 <= 1024,
                squares@.len() == before.len() + k,
                forall|j: int| 0 <= j < before.len() ==> (#[trigger] squares@[j]) == before[j],
                forall|j: int|
                    0 <= j < k ==> (#[trigger] squares@[before.len() + j]) == self@.tile_square(
                        tile as int,
                        corner.0 as int,
                        corner.1 as int,
                        j,
                    ),
            decreases 64 - k,
        {
            let x: usize = k / 8;
            let y: usize = k % 8;
            let shade: GBColor = byte_to_color(self.tile_pixel(tile, y, x));
            let color = get_color(&shade, &ColorScheme::BlackWhite);
            squares.push(Paint { rect: tile_pixel_rect(corner.0, corner.1, x, y), color });
            k = k + 1;
        }
    }

    /// The squares that show the tiles for the debugger: first the
    /// 32 by 32 tiles that the background's map names, then all 384
    /// tiles on a sheet of 25 to the row.
    pub fn draw_debug(&self) -> (squares: Vec<Paint>)
        requires
            self.wf(),
        ensures
            squares@.len() == (1024 + 384) * 64,
            forall|j: int|
                0 <= j < 1024 * 64 ==> (#[trigger] squares@[j]) == self@.map_square(j / 64, j % 64),
            forall|j: int|
                0 <= j < 384 * 64 ==> (#[trigger] squares@[1024 * 64 + j]) == self@.sheet_square(
                    j / 64,
                    j % 64,
                ),
    {
        let base: usize = Self::map_start(self.background_tile_table_address());
        let mut squares: Vec<Paint> = Vec::new();
        let mut i: usize = 0;
        while i < 1024
            invariant
                i <= 1024,
                self.wf(),
                base == map_base(bit(self.regs.lcdc as int, 3)),
                squares@.len() == i * 64,
                forall|j: int|
                    0 <= j < i * 64 ==> (#[trigger] squares@[j]) == self@.map_square(
                        j / 64,
                        j % 64,
                    ),
            decreases 1024 - i,
        {
            let tile: usize = self.get_tile(self.vram[base + i]);
            let ghost before = squares@;
            self.paint_tile(&mut squares, tile, tilemap_corner(i));
            assert forall|j: int| 0 <= j < (i + 1) * 64 implies (#[trigger] squares@[j])
                == self@.map_square(j / 64, j % 64) by {
                if j >= i * 64 {
                    let k = j - i * 64;
                    assert(squares@[before.len() + k] == self@.tile_square(
                        tile as int,
                        (i as int % 32) * 32,
                        (i as int / 32) * 32,
                        k,
                    ));
                    assert(j / 64 == i && j % 64 == k);
                } else {
                    assert(squares@[j] == before[j]);
                }
            }
            i = i + 1;
        }
        let mut t: usize = 0;
        while t < TILE_COUNT
            invariant
                t <= 384,
                self.wf(),
                squares@.len() == 1024 * 64 + t * 64,
                forall|j: int|
                    0 <= j < 1024 * 64 ==> (#[trigger] squares@[j]) == self@.map_square(
                        j / 64,
                        j % 64,
                    ),
                forall|j: int|
                    0 <= j < t * 64 ==> (#[trigger] squares@[1024 * 64 + j])
                        == self@.sheet_square(j / 64, j % 64),
            decreases 384 - t,
        {
            let ghost before = squares@;
            self.paint_tile(&mut squares, t, tile_sheet_corner(t));
            assert forall|j: int| 0 <= j < (t + 1) * 64 implies (#[trigger] squares@[1024 * 64
                + j]) == self@.sheet_square(j / 64, j % 64) by {
                if j >= t * 64 {
                    let k = j - t * 64;
                    assert(squares@[before.len() + k] == self@.tile_square(
                        t as int,
                        (t as int % 25) * 32,
                        (t as int / 25) * 32,
                        k,
                    ));
                    assert(j / 64 == t && j % 64 == k);
                } else {
                    assert(squares@[1024 * 64 + j] == before[1024 * 64 + j]);
                }
            }
            t = t + 1;
        }
        squares
    }
}

} // verus!
