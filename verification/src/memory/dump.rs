//! The text dump of the picture unit for the debugger: every tile, the
//! tile maps, and the frame, one letter to the pixel.

use vstd::prelude::*;
use vstd::string::StringExecFns;
use crate::cpu::trace::{hex_digit, hex_digit_str, lower_hex_digit, lower_hex_digit_str};
use crate::video::{color_of, GBColor};
use super::gpu::{tile_code, Gpu, GpuView};
use super::Memory;

verus! {

/// Tiles shown side by side in the dump.
pub const DUMP_TILES_ACROSS: usize = 4;

/// Bytes of the tile maps on one line of the dump.
pub const DUMP_MAP_STEP: usize = 10;

/// Lines of tile map bytes in the dump: from 0x9800 in steps of 10 up
/// to 0x9FF5.
pub const DUMP_MAP_LINES: usize = 204;

/// The letter that stands for a shade.
pub open spec fn letter(color: GBColor) -> &'static str {
    match color {
        GBColor::White => "W",
        GBColor::LightGray => "L",
        GBColor::DarkGray => "D",
        GBColor::Black => "B",
    }
}

/// A number in decimal, without leading zeros.
pub open spec fn decimal(n: int) -> Seq<char>
    decreases n,
{
    if n < 10 {
        hex_digit(n)@
    } else {
        decimal(n / 10) + hex_digit(n % 10)@
    }
}

/// A 16-bit address as `0x` and four lower-case hexadecimal digits.
pub open spec fn address(a: int) -> Seq<char> {
    "0x"@ + lower_hex_digit(a / 4096)@ + lower_hex_digit((a / 256) % 16)@ + lower_hex_digit(
        (a / 16) % 16,
    )@ + lower_hex_digit(a % 16)@
}

impl GpuView {
    /// The first `n` letters of row `y` of tile `tile`.
    pub open spec fn tile_letters(self, tile: int, y: int, n: int) -> Seq<char>
        decreases n,
    {
        if n <= 0 {
            Seq::empty()
        } else {
            self.tile_letters(tile, y, n - 1) + letter(
                color_of(tile_code(self.vram, tile, y, n - 1)),
            )@
        }
    }

    /// Row `y` of the first `m` of the tiles from `first` on, each
    /// followed by a tab.
    pub open spec fn tiles_row(self, first: int, y: int, m: int) -> Seq<char>
        decreases m,
    {
        if m <= 0 {
            Seq::empty()
        } else {
            self.tiles_row(first, y, m - 1) + self.tile_letters(first + m - 1, y, 8) + "\t"@
        }
    }

    /// The first `rows` rows of the four tiles from `first` on, a line
    /// each.
    pub open spec fn tiles_rows(self, first: int, rows: int) -> Seq<char>
        decreases rows,
    {
        if rows <= 0 {
            Seq::empty()
        } else {
            self.tiles_rows(first, rows - 1) + self.tiles_row(first, rows - 1, 4) + "\n"@
        }
    }

    /// The four tiles from `first` on: a line that names them, their
    /// eight rows, and an empty line.
    pub open spec fn tiles_block(self, first: int) -> Seq<char> {
        "Tile "@ + decimal(first) + " \t Tile "@ + decimal(first + 1) + " \t Tile "@ + decimal(
            first + 2,
        ) + " \t Tile "@ + decimal(first + 3) + "\n"@ + self.tiles_rows(first, 8) + "\n"@
    }

    /// The first `blocks` blocks of four tiles.
    pub open spec fn tiles_blocks(self, blocks: int) -> Seq<char>
        decreases blocks,
    {
        if blocks <= 0 {
            Seq::empty()
        } else {
            self.tiles_blocks(blocks - 1) + self.tiles_block(4 * (blocks - 1))
        }
    }

    /// The first `n` bytes of video RAM from offset `from` on, in
    /// decimal, each followed by a comma.
    pub open spec fn map_bytes(self, from: int, n: int) -> Seq<char>
        decreases n,
    {
        if n <= 0 {
            Seq::empty()
        } else {
            self.map_bytes(from, n - 1) + decimal(self.vram[from + n - 1] as int) + ","@
        }
    }

    /// The first `lines` lines of the tile maps: ten bytes each, and
    /// after each the address of the next.
    pub open spec fn map_lines(self, lines: int) -> Seq<char>
        decreases lines,
    {
        if lines <= 0 {
            Seq::empty()
        } else {
            self.map_lines(lines - 1) + self.map_bytes(0x1800 + 10 * (lines - 1), 10)
                + "\ntilemap "@ + address(0x9800 + 10 * lines) + "\n"@
        }
    }

    /// The first `n` letters of line `y` of the frame.
    pub open spec fn frame_letters(self, y: int, n: int) -> Seq<char>
        decreases n,
    {
        if n <= 0 {
            Seq::empty()
        } else {
            self.frame_letters(y, n - 1) + letter(self.pixels[y * 160 + n - 1])@
        }
    }

    /// The first `lines` lines of the frame.
    pub open spec fn frame_lines(self, lines: int) -> Seq<char>
        decreases lines,
    {
        if lines <= 0 {
            Seq::empty()
        } else {
            self.frame_lines(lines - 1) + self.frame_letters(lines - 1, 160) + "\n"@
        }
    }

    /// The whole dump: the 384 tiles four by four, the tile maps from
    /// 0x9800 on, and the 144 lines of the frame.
    pub open spec fn dump_text(self) -> Seq<char> {
        self.tiles_blocks(96) + "tilemap 0x9800\n"@ + self.map_lines(204) + "\n"@
            + self.frame_lines(144)
    }
}

pub fn decimal_string(n: usize) -> (s: String)
    ensures
        s@ == decimal(n as int),
    decreases n,
{
    if n < 10 {
        let mut s = String::new();
        s.append(hex_digit_str(n as u8));
        assert(s@ =~= hex_digit(n as int)@);
        s
    } else {
        let mut s = decimal_string(n / 10);
        s.append(hex_digit_str((n % 10) as u8));
        s
    }
}

pub fn address_string(a: u16) -> (s: String)
    ensures
        s@ == address(a as int),
{
    let mut s = String::new();
    s.append("0x");
    assert(s@ =~= "0x"@);
    s.append(lower_hex_digit_str((a / 4096) as u8));
    s.append(lower_hex_digit_str(((a / 256) % 16) as u8));
    s.append(lower_hex_digit_str(((a / 16) % 16) as u8));
    s.append(lower_hex_digit_str((a % 16) as u8));
    s
}

impl Gpu {
    fn tile_letters_string(&self, tile: usize, y: usize) -> (s: String)
        requires
            self.wf(),
            tile < 384,
            y < 8,
        ensures
            s@ == self@.tile_letters(tile as int, y as int, 8),
    {
        let mut s = String::new();
        let mut x: usize = 0;
        assert(s@ =~= self@.tile_letters(tile as int, y as int, 0));
        while x < 8
            invariant
                x <= 8,
                self.wf(),
                tile < 384,
                y < 8,
                s@ == self@.tile_letters(tile as int, y as int, x as int),
            decreases 8 - x,
        {
            let shade: GBColor = crate::video::byte_to_color(self.tile_pixel(tile, y, x));
            s.append(Memory::color_to_char(&shade));
            x = x + 1;
        }
        s
    }

    fn tiles_row_string(&self, first: usize, y: usize) -> (s: String)
        requires
            self.wf(),
            first + 4 <= 384,
            y < 8,
        ensures
            s@ == self@.tiles_row(first as int, y as int, 4),
    {
        let mut s = String::new();
        let mut m: usize = 0;
        assert(s@ =~= self@.tiles_row(first as int, y as int, 0));
        while m < DUMP_TILES_ACROSS
            invariant
                m <= 4,
                self.wf(),
                first + 4 <= 384,
                y < 8,
                s@ == self@.tiles_row(first as int, y as int, m as int),
            decreases 4 - m,
        {
            let letters = self.tile_letters_string(first + m, y);
            s.append(letters.as_str());
            s.append("\t");
            m = m + 1;
        }
        s
    }

    fn tiles_rows_string(&self, first: usize) -> (s: String)
        requires
            self.wf(),
            first + 4 <= 384,
        ensures
            s@ == self@.tiles_rows(first as int, 8),
    {
        let mut s = String::new();
        let mut y: usize = 0;
        assert(s@ =~= self@.tiles_rows(first as int, 0));
        while y < 8
            invariant
                y <= 8,
                self.wf(),
                first + 4 <= 384,
                s@ == self@.tiles_rows(first as int, y as int),
            decreases 8 - y,
        {
            let row = self.tiles_row_string(first, y);
            s.append(row.as_str());
            s.append("\n");
            y = y + 1;
        }
        s
    }

    fn tiles_block_string(&self, first: usize) -> (s: String)
        requires
            self.wf(),
            first + 4 <= 384,
        ensures
            s@ == self@.tiles_block(first as int),
    {
        let mut s = String::new();
        s.append("Tile ");
        assert(s@ =~= "Tile "@);
        s.append(decimal_string(first).as_str());
        s.append(" \t Tile ");
        s.append(decimal_string(first + 1).as_str());
        s.append(" \t Tile ");
        s.append(decimal_string(first + 2).as_str());
        s.append(" \t Tile ");
        s.append(decimal_string(first + 3).as_str());
        s.append("\n");
        s.append(self.tiles_rows_string(first).as_str());
        s.append("\n");
        s
    }

    fn map_bytes_string(&self, from: usize) -> (s: String)
        requires
            self.wf(),
            from + 10 <= 0x2000,
        ensures
            s@ == self@.map_bytes(from as int, 10),
    {
        let mut s = String::new();
        let mut n: usize = 0;
        assert(s@ =~= self@.map_bytes(from as int, 0));
        while n < DUMP_MAP_STEP
            invariant
                n <= 10,
                self.wf(),
                from + 10 <= 0x2000,
                s@ == self@.map_bytes(from as int, n as int),
            decreases 10 - n,
        {
            s.append(decimal_string(self.vram[from + n] as usize).as_str());
            s.append(",");
            n = n + 1;
        }
        s
    }

    fn frame_letters_string(&self, y: usize) -> (s: String)
        requires
            self.wf(),
            y < 144,
        ensures
            s@ == self@.frame_letters(y as int, 160),
    {
        let mut s = String::new();
        let mut x: usize = 0;
        assert(s@ =~= self@.frame_letters(y as int, 0));
        while x < 160
            invariant
                x <= 160,
                self.wf(),
                y < 144,
                s@ == self@.frame_letters(y as int, x as int),
            decreases 160 - x,
        {
            s.append(Memory::color_to_char(&self.pixels[y * 160 + x]));
            x = x + 1;
        }
        s
    }

    /// The text dump of the unit for the debugger: every tile as
    /// letters, four tiles side by side; then the bytes of the tile
    /// maps, ten to the line; then the frame as letters.
    pub fn dump_text(&self) -> (text: String)
        requires
            self.wf(),
        ensures
            text@ == self@.dump_text(),
    {
        let mut text = String::new();
        let mut block: usize = 0;
        assert(text@ =~= self@.tiles_blocks(0));
        while block < 96
            invariant
                block <= 96,
                self.wf(),
                text@ == self@.tiles_blocks(block as int),
            decreases 96 - block,
        {
            text.append(self.tiles_block_string(4 * block).as_str());
            block = block + 1;
        }
        text.append("tilemap 0x9800\n");
        let ghost head = text@;
        let mut maps = String::new();
        let mut line: usize = 0;
        assert(maps@ =~= self@.map_lines(0));
        while line < DUMP_MAP_LINES
            invariant
                line <= 204,
                self.wf(),
                maps@ == self@.map_lines(line as int),
            decreases 204 - line,
        {
            maps.append(self.map_bytes_string(0x1800 + 10 * line).as_str());
            maps.append("\ntilemap ");
            maps.append(address_string((0x9800 + 10 * (line + 1)) as u16).as_str());
            maps.append("\n");
            line = line + 1;
        }
        text.append(maps.as_str());
        text.append("\n");
        let mut frame = String::new();
        let mut y: usize = 0;
        assert(frame@ =~= self@.frame_lines(0));
        while y < 144
            invariant
                y <= 144,
                self.wf(),
                frame@ == self@.frame_lines(y as int),
            decreases 144 - y,
        {
            frame.append(self.frame_letters_string(y).as_str());
            frame.append("\n");
            y = y + 1;
        }
        text.append(frame.as_str());
        text
    }
}

impl Memory {
    /// The text dump of the picture unit for the debugger.
    pub fn dump_text(&self) -> (text: String)
        requires
            self.wf(),
        ensures
            text@ == self@.gpu.dump_text(),
    {
        self.gpu.dump_text()
    }
}

} // verus!
