//! Colours of the 160x144 display and the host palettes they map to.

use vstd::prelude::*;

verus! {

pub const SCREEN_WIDTH: usize = 160;

pub const SCREEN_HEIGHT: usize = 144;

pub const PIXEL_SIZE: usize = 4;

/// Host palette used when a frame is presented.
#[derive(Clone, Copy, PartialEq, Eq, Debug, Structural)]
pub enum ColorScheme {
    Green,
    BlackWhite,
}

/// One of the four shades a pixel can take; its number is its 2-bit code.
#[derive(Clone, Copy, PartialEq, Eq, Debug, Structural)]
pub enum GBColor {
    White,
    LightGray,
    DarkGray,
    Black,
}

/// A host colour as plain red, green, blue and alpha channels.
#[derive(Clone, Copy, PartialEq, Eq, Debug, Structural)]
pub struct Rgba {
    pub r: u8,
    pub g: u8,
    pub b: u8,
    pub a: u8,
}

/// The shade whose 2-bit code is `val`.
pub open spec fn color_of(val: int) -> GBColor {
    if val == 0 {
        GBColor::White
    } else if val == 1 {
        GBColor::LightGray
    } else if val == 2 {
        GBColor::DarkGray
    } else {
        GBColor::Black
    }
}

/// The 2-bit code of a shade.
pub open spec fn code_of(color: GBColor) -> int {
    match color {
        GBColor::White => 0,
        GBColor::LightGray => 1,
        GBColor::DarkGray => 2,
        GBColor::Black => 3,
    }
}

pub fn byte_to_color(val: u8) -> (color: GBColor)
    requires
        val <= 3,
    ensures
        color == color_of(val as int),
        code_of(color) == val,
{
    if val == 0 {
        GBColor::White
    } else if val == 1 {
        GBColor::LightGray
    } else if val == 2 {
        GBColor::DarkGray
    } else {
        GBColor::Black
    }
}

pub fn color_to_byte(color: GBColor) -> (val: u8)
    ensures
        val == code_of(color),
        val <= 3,
        color_of(val as int) == color,
{
    match color {
        GBColor::White => 0,
        GBColor::LightGray => 1,
        GBColor::DarkGray => 2,
        GBColor::Black => 3,
    }
}

/// The host colour of a shade under a palette, as a table.
pub open spec fn rgba_of(color: GBColor, scheme: ColorScheme) -> Rgba {
    match scheme {
        ColorScheme::Green => match color {
            GBColor::White => (Rgba { r: 0x9C, g: 0xBD, b: 0x0F, a: 0xFF }),
            GBColor::LightGray => (Rgba { r: 0x8C, g: 0xAD, b: 0x0F, a: 0xFF }),
            GBColor::DarkGray => (Rgba { r: 0x30, g: 0x62, b: 0x30, a: 0xFF }),
            GBColor::Black => (Rgba { r: 0x0F, g: 0x38, b: 0x0F, a: 0xFF }),
        },
        ColorScheme::BlackWhite => match color {
            GBColor::White => (Rgba { r: 0xFF, g: 0xFF, b: 0xFF, a: 0xFF }),
            GBColor::LightGray => (Rgba { r: 0x8C, g: 0x8C, b: 0x8C, a: 0xFF }),
            GBColor::DarkGray => (Rgba { r: 0x30, g: 0x30, b: 0x30, a: 0xFF }),
            GBColor::Black => (Rgba { r: 0, g: 0, b: 0, a: 0xFF }),
        },
    }
}

/// Channel `c` of a host colour: 0 is red, 1 green, 2 blue.
pub open spec fn channel(shade: Rgba, c: int) -> u8 {
    if c == 0 {
        shade.r
    } else if c == 1 {
        shade.g
    } else {
        shade.b
    }
}

pub fn get_color(color: &GBColor, scheme: &ColorScheme) -> (rgba: Rgba)
    ensures
        rgba == rgba_of(*color, *scheme),
{
    let shade: u8 = color_to_byte(*color);
    let green: bool = match scheme {
        ColorScheme::Green => true,
        ColorScheme::BlackWhite => false,
    };
    if green {
        if shade == 0 {
            Rgba { r: 0x9C, g: 0xBD, b: 0x0F, a: 0xFF }
        } else if shade == 1 {
            Rgba { r: 0x8C, g: 0xAD, b: 0x0F, a: 0xFF }
        } else if shade == 2 {
            Rgba { r: 0x30, g: 0x62, b: 0x30, a: 0xFF }
        } else {
            Rgba { r: 0x0F, g: 0x38, b: 0x0F, a: 0xFF }
        }
    } else {
        if shade == 0 {
            Rgba { r: 0xFF, g: 0xFF, b: 0xFF, a: 0xFF }
        } else if shade == 1 {
            Rgba { r: 0x8C, g: 0x8C, b: 0x8C, a: 0xFF }
        } else if shade == 2 {
            Rgba { r: 0x30, g: 0x30, b: 0x30, a: 0xFF }
        } else {
            Rgba { r: 0, g: 0, b: 0, a: 0xFF }
        }
    }
}

/// A rectangle on the host's canvas, in host pixels.
#[derive(Clone, Copy, PartialEq, Eq, Debug, Structural)]
pub struct ScreenRect {
    pub x: i32,
    pub y: i32,
    pub width: u32,
    pub height: u32,
}

/// Tiles in one row of the sheet that shows every tile.
pub const SHEET_COLUMNS: usize = 25;

/// Entries in one row of a tile map.
pub const MAP_COLUMNS: usize = 32;

/// The square of host pixels that shows emulated pixel (`x`, `y`),
/// counted from a corner at (`left`, `top`).
pub open spec fn square_at(left: int, top: int, x: int, y: int) -> ScreenRect {
    ScreenRect { x: (left + x * 4) as i32, y: (top + y * 4) as i32, width: 4, height: 4 }
}

/// Where pixel `i` of the frame buffer goes on the host's canvas: each
/// emulated pixel is a square of 4 by 4 host pixels, 160 to the line.
pub fn pixel_rect(i: usize) -> (rect: ScreenRect)
    requires
        i < 160 * 144,
    ensures
        rect == square_at(0, 0, i as int % 160, i as int / 160),
{
    ScreenRect {
        x: ((i % SCREEN_WIDTH) * PIXEL_SIZE) as i32,
        y: ((i / SCREEN_WIDTH) * PIXEL_SIZE) as i32,
        width: PIXEL_SIZE as u32,
        height: PIXEL_SIZE as u32,
    }
}

/// Where pixel (`x`, `y`) of a tile goes when the tile's corner is at
/// (`left`, `top`).
pub fn tile_pixel_rect(left: i32, top: i32, x: usize, y: usize) -> (rect: ScreenRect)
    requires
        0 <= left <= 1024,
        0 <= top <= 1024,
        x < 8,
        y < 8,
    ensures
        rect == square_at(left as int, top as int, x as int, y as int),
{
    ScreenRect {
        x: left + (x * PIXEL_SIZE) as i32,
        y: top + (y * PIXEL_SIZE) as i32,
        width: PIXEL_SIZE as u32,
        height: PIXEL_SIZE as u32,
    }
}

/// The corner of entry `i` of a tile map drawn as 32 tiles to the row,
/// each tile 32 host pixels wide and high.
pub fn tilemap_corner(i: usize) -> (corner: (i32, i32))
    requires
        i < 32 * 32,
    ensures
        corner.0 == (i as int % 32) * 32,
        corner.1 == (i as int / 32) * 32,
{
    (((i % MAP_COLUMNS) * 8 * PIXEL_SIZE) as i32, ((i / MAP_COLUMNS) * 8 * PIXEL_SIZE) as i32)
}

/// The corner of tile `i` on the sheet of all tiles, 25 tiles to the
/// row.
pub fn tile_sheet_corner(i: usize) -> (corner: (i32, i32))
    requires
        i < 384,
    ensures
        corner.0 == (i as int % 25) * 32,
        corner.1 == (i as int / 25) * 32,
{
    (((i % SHEET_COLUMNS) * 8 * PIXEL_SIZE) as i32, ((i / SHEET_COLUMNS) * 8 * PIXEL_SIZE) as i32)
}

/// One square to fill on the host's canvas.
#[derive(Clone, Copy, PartialEq, Eq, Debug, Structural)]
pub struct Paint {
    pub rect: ScreenRect,
    pub color: Rgba,
}

/// The square that shows pixel `i` of a frame in shade `shade`, in
/// black and white.
pub open spec fn frame_paint(shade: GBColor, i: int) -> Paint {
    Paint {
        rect: square_at(0, 0, i % 160, i / 160),
        color: rgba_of(shade, ColorScheme::BlackWhite),
    }
}

/// The square that shows pixel (`x`, `y`) of a tile whose corner is at
/// (`left`, `top`), in shade `shade`, in black and white.
pub open spec fn tile_paint(shade: GBColor, left: int, top: int, x: int, y: int) -> Paint {
    Paint { rect: square_at(left, top, x, y), color: rgba_of(shade, ColorScheme::BlackWhite) }
}

} // verus!
