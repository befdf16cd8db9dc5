use gameboy::memory::dump::{address_string, decimal_string};
use gameboy::memory::gpu::{apply_palette, make_tile16, Gpu, ObjData, TickMode};
use gameboy::memory::Memory;
use gameboy::video::{
    byte_to_color, color_to_byte, get_color, pixel_rect, tile_pixel_rect, tile_sheet_corner,
    tilemap_corner, ColorScheme, GBColor, Rgba, ScreenRect,
};

const IDENTITY: u8 = 0xE4;

/// Fills tile `tile` with one colour number.
fn solid_tile(gpu: &mut Gpu, tile: u16, code: u8) {
    for row in 0..8u16 {
        let lo = if code & 1 != 0 { 0xFF } else { 0x00 };
        let hi = if code & 2 != 0 { 0xFF } else { 0x00 };
        gpu.write_byte(0x8000 + tile * 16 + row * 2, lo);
        gpu.write_byte(0x8000 + tile * 16 + row * 2 + 1, hi);
    }
}

/// A tile whose pixel at (row, col) has colour number (row + col) % 4.
fn pattern_tile(gpu: &mut Gpu, tile: u16) {
    for row in 0..8u16 {
        let mut lo = 0u8;
        let mut hi = 0u8;
        for col in 0..8u16 {
            let code = (row + col) % 4;
            if code & 1 != 0 {
                lo |= 0x80 >> col;
            }
            if code & 2 != 0 {
                hi |= 0x80 >> col;
            }
        }
        gpu.write_byte(0x8000 + tile * 16 + row * 2, lo);
        gpu.write_byte(0x8000 + tile * 16 + row * 2 + 1, hi);
    }
}

fn object(gpu: &mut Gpu, index: u16, y: u8, x: u8, tile: u8, attrs: u8) {
    gpu.write_byte(0xFE00 + index * 4, y);
    gpu.write_byte(0xFE00 + index * 4 + 1, x);
    gpu.write_byte(0xFE00 + index * 4 + 2, tile);
    gpu.write_byte(0xFE00 + index * 4 + 3, attrs);
}

fn unit() -> Gpu {
    let mut gpu = Gpu::new();
    gpu.write_byte(0xFF47, IDENTITY);
    gpu.write_byte(0xFF48, IDENTITY);
    gpu.write_byte(0xFF49, IDENTITY);
    gpu
}

fn line(gpu: &Gpu, y: usize) -> Vec<u8> {
    (0..160).map(|x| color_to_byte(gpu.get_pixel(x, y))).collect()
}

#[test]
fn colours_and_palettes() {
    assert_eq!(byte_to_color(0), GBColor::White);
    assert_eq!(byte_to_color(1), GBColor::LightGray);
    assert_eq!(byte_to_color(2), GBColor::DarkGray);
    assert_eq!(byte_to_color(3), GBColor::Black);
    for code in 0..4u8 {
        assert_eq!(color_to_byte(byte_to_color(code)), code);
        assert_eq!(apply_palette(IDENTITY, code), byte_to_color(code));
        assert_eq!(apply_palette(0x1B, code), byte_to_color(3 - code));
    }
    assert_eq!(apply_palette(0xFC, 0), GBColor::White);
    assert_eq!(apply_palette(0xFC, 1), GBColor::Black);
    assert_eq!(
        get_color(&GBColor::White, &ColorScheme::Green),
        Rgba { r: 0x9C, g: 0xBD, b: 0x0F, a: 0xFF }
    );
    assert_eq!(
        get_color(&GBColor::Black, &ColorScheme::Green),
        Rgba { r: 0x0F, g: 0x38, b: 0x0F, a: 0xFF }
    );
    assert_eq!(
        get_color(&GBColor::LightGray, &ColorScheme::BlackWhite),
        Rgba { r: 0x8C, g: 0x8C, b: 0x8C, a: 0xFF }
    );
    assert_eq!(
        get_color(&GBColor::DarkGray, &ColorScheme::BlackWhite),
        Rgba { r: 0x30, g: 0x30, b: 0x30, a: 0xFF }
    );
    assert_eq!(make_tile16()[7][7], GBColor::White);
    assert_eq!(ObjData::new().obj_index, 0);
    assert_eq!(TickMode::from_val(0x43), TickMode::OAMVRAM);
    assert_eq!(TickMode::OAM.to_val(), 2);
}

#[test]
fn mode_durations() {
    let mut gpu = Gpu::new();
    assert_eq!(gpu.mode(), TickMode::HBLANK);
    assert_eq!(gpu.tick(203), 0);
    assert_eq!(gpu.mode(), TickMode::HBLANK);
    assert_eq!(gpu.read_byte(0xFF44), 0);
    assert_eq!(gpu.tick(1), 0);
    assert_eq!(gpu.mode(), TickMode::OAM);
    assert_eq!(gpu.read_byte(0xFF44), 1);
    gpu.tick(79);
    assert_eq!(gpu.mode(), TickMode::OAM);
    gpu.tick(1);
    assert_eq!(gpu.mode(), TickMode::OAMVRAM);
    gpu.tick(171);
    assert_eq!(gpu.mode(), TickMode::OAMVRAM);
    gpu.tick(1);
    assert_eq!(gpu.mode(), TickMode::HBLANK);
    gpu.tick(204);
    assert_eq!(gpu.mode(), TickMode::OAM);
    assert_eq!(gpu.read_byte(0xFF44), 2);
    assert_eq!(TickMode::OAM.cycles(), 80);
    assert_eq!(TickMode::OAMVRAM.cycles(), 172);
    assert_eq!(TickMode::HBLANK.cycles(), 204);
    assert_eq!(TickMode::VBLANK.cycles(), 456);
}

#[test]
fn stat_shows_the_mode() {
    let mut gpu = Gpu::new();
    gpu.write_byte(0xFF45, 0x10);
    gpu.write_byte(0xFF41, 0xFF);
    // Only bits 3 to 6 are kept; mode 0, no match.
    assert_eq!(gpu.read_byte(0xFF41), 0x78);
    gpu.tick(204);
    assert_eq!(gpu.read_byte(0xFF41), 0x78 | 2);
    gpu.tick(80);
    assert_eq!(gpu.read_byte(0xFF41), 0x78 | 3);
    gpu.write_byte(0xFF45, 1);
    assert_eq!(gpu.read_byte(0xFF41), 0x78 | 4 | 3);
    gpu.write_byte(0xFF41, 0x00);
    assert_eq!(gpu.read_byte(0xFF41), 4 | 3);
}

#[test]
fn a_frame_is_70224_cycles() {
    let mut gpu = Gpu::new();
    gpu.tick(1234);
    let mode = gpu.mode();
    let ly = gpu.read_byte(0xFF44);
    let clock = gpu.regs.clock;
    let mut vblanks = 0;
    let mut lines = 0;
    let mut last = ly;
    for _ in 0..(70224 / 4) {
        if gpu.tick(4) & 1 != 0 {
            vblanks += 1;
            assert_eq!(gpu.mode(), TickMode::VBLANK);
            assert_eq!(gpu.read_byte(0xFF44), 144);
        }
        if gpu.read_byte(0xFF44) != last {
            lines += 1;
            last = gpu.read_byte(0xFF44);
        }
    }
    assert_eq!(vblanks, 1);
    assert_eq!(lines, 154);
    assert_eq!(gpu.mode(), mode);
    assert_eq!(gpu.read_byte(0xFF44), ly);
    assert_eq!(gpu.regs.clock, clock);

    // In one go the frame gives the same place and one request.
    assert_eq!(gpu.tick(70224), 1);
    assert_eq!(gpu.mode(), mode);
    assert_eq!(gpu.read_byte(0xFF44), ly);
    assert_eq!(gpu.regs.clock, clock);
    assert!(gpu.regs.can_draw);
}

#[test]
fn vblank_lasts_ten_lines() {
    let mut gpu = Gpu::new();
    // To the end of line 143.
    gpu.tick(204 + 143 * 456 - 1);
    assert_eq!(gpu.read_byte(0xFF44), 143);
    assert_eq!(gpu.mode(), TickMode::HBLANK);
    assert!(!gpu.regs.can_draw);
    assert_eq!(gpu.tick(1), 1);
    assert_eq!(gpu.read_byte(0xFF44), 144);
    assert_eq!(gpu.mode(), TickMode::VBLANK);
    assert!(gpu.regs.can_draw);
    for ly in 145..=153u8 {
        assert_eq!(gpu.tick(456), 0);
        assert_eq!(gpu.read_byte(0xFF44), ly);
        assert_eq!(gpu.mode(), TickMode::VBLANK);
    }
    gpu.tick(455);
    assert_eq!(gpu.read_byte(0xFF44), 153);
    gpu.tick(1);
    assert_eq!(gpu.read_byte(0xFF44), 0);
    assert_eq!(gpu.mode(), TickMode::OAM);
    assert!(gpu.take_frame());
    assert!(!gpu.take_frame());
}

#[test]
fn lyc_interrupt() {
    let mut gpu = Gpu::new();
    gpu.write_byte(0xFF45, 2);
    gpu.write_byte(0xFF41, 0x40);
    assert_eq!(gpu.tick(204), 0);
    assert_eq!(gpu.tick(456), 2);
    assert_eq!(gpu.read_byte(0xFF44), 2);
    assert_eq!(gpu.read_byte(0xFF41) & 0x04, 0x04);
    assert_eq!(gpu.tick(456), 0);
    // Without the select bit the match is shown but not requested.
    let mut gpu = Gpu::new();
    gpu.write_byte(0xFF45, 1);
    assert_eq!(gpu.tick(204), 0);
    assert_eq!(gpu.read_byte(0xFF41) & 0x04, 0x04);
    // At line 144 both requests come together.
    let mut gpu = Gpu::new();
    gpu.write_byte(0xFF45, 144);
    gpu.write_byte(0xFF41, 0x40);
    assert_eq!(gpu.tick(204 + 143 * 456), 3);
}

#[test]
fn interrupts_reach_the_flags() {
    let mut mem = Memory::new();
    mem.write_byte(0xFF0F, 0);
    mem.tick(204 + 143 * 456 - 4);
    assert_eq!(mem.read_byte(0xFF0F), 0xE0);
    mem.tick(4);
    assert_eq!(mem.read_byte(0xFF0F), 0xE1);
    assert!(mem.take_frame());
    assert!(!mem.take_frame());
}

#[test]
fn lcd_off_stops_the_unit() {
    let mut gpu = unit();
    solid_tile(&mut gpu, 0, 3);
    gpu.tick(204 + 456 * 5 + 100);
    assert_eq!(gpu.read_byte(0xFF44), 6);
    assert_eq!(line(&gpu, 3), vec![3u8; 160]);
    gpu.write_byte(0xFF40, 0x11);
    assert_eq!(gpu.read_byte(0xFF44), 0);
    assert_eq!(gpu.mode(), TickMode::HBLANK);
    assert_eq!(line(&gpu, 3), vec![0u8; 160]);
    assert_eq!(gpu.tick(70224), 0);
    assert_eq!(gpu.read_byte(0xFF44), 0);
    assert_eq!(gpu.mode(), TickMode::HBLANK);
    assert!(!gpu.take_frame());
    gpu.write_byte(0xFF40, 0x91);
    gpu.tick(204);
    assert_eq!(gpu.read_byte(0xFF44), 1);
}

#[test]
fn background_scrolls() {
    let mut gpu = unit();
    pattern_tile(&mut gpu, 1);
    solid_tile(&mut gpu, 2, 2);
    // Map row 0: tile 1 then tile 2, then tile 0.
    gpu.write_byte(0x9800, 1);
    gpu.write_byte(0x9801, 2);
    gpu.regs.vert_line = 0;
    gpu.render_screen();
    let drawn = line(&gpu, 0);
    for x in 0..8 {
        assert_eq!(drawn[x], (x % 4) as u8);
    }
    assert_eq!(&drawn[8..16], &[2u8; 8]);
    assert_eq!(&drawn[16..160], &[0u8; 144][..]);

    // Scrolled by 3 columns and 2 lines.
    gpu.write_byte(0xFF43, 3);
    gpu.write_byte(0xFF42, 2);
    gpu.render_screen();
    let drawn = line(&gpu, 0);
    for x in 0..5 {
        assert_eq!(drawn[x], ((x + 3 + 2) % 4) as u8);
    }
    assert_eq!(&drawn[5..13], &[2u8; 8]);

    // The map wraps around after 32 tiles and 32 rows.
    gpu.write_byte(0xFF43, 0xFC);
    gpu.write_byte(0xFF42, 0);
    gpu.render_screen();
    let drawn = line(&gpu, 0);
    assert_eq!(&drawn[0..4], &[0u8; 4]);
    assert_eq!(drawn[4], 0);
    assert_eq!(drawn[5], 1);
    gpu.write_byte(0xFF43, 0);
    gpu.write_byte(0xFF42, 0xFF);
    gpu.regs.vert_line = 1;
    gpu.render_screen();
    let drawn = line(&gpu, 1);
    assert_eq!(drawn[3], 3);
}

#[test]
fn background_palette_and_tables() {
    let mut gpu = unit();
    solid_tile(&mut gpu, 1, 1);
    solid_tile(&mut gpu, 257, 2);
    gpu.write_byte(0x9800, 1);
    gpu.write_byte(0x9C00, 0);
    solid_tile(&mut gpu, 0, 3);
    gpu.write_byte(0xFF47, 0x1B);
    gpu.regs.vert_line = 5;
    gpu.render_screen();
    assert_eq!(color_to_byte(gpu.get_pixel(0, 5)), 2);
    assert_eq!(color_to_byte(gpu.get_pixel(8, 5)), 0);
    // The other map.
    gpu.write_byte(0xFF40, 0x99);
    gpu.render_screen();
    assert_eq!(color_to_byte(gpu.get_pixel(0, 5)), 0);
    // Signed tile numbers: entry 1 names tile 257.
    gpu.write_byte(0xFF40, 0x81);
    gpu.write_byte(0xFF47, IDENTITY);
    gpu.render_screen();
    assert_eq!(color_to_byte(gpu.get_pixel(0, 5)), 2);
    assert_eq!(gpu.get_tile(1), 257);
    assert_eq!(gpu.get_tile(0x80), 0x80);
    gpu.write_byte(0xFF40, 0x91);
    assert_eq!(gpu.get_tile(1), 1);
    // Background off: the line keeps what it shows.
    gpu.write_byte(0xFF40, 0x90);
    solid_tile(&mut gpu, 257, 0);
    gpu.render_screen();
    assert_eq!(color_to_byte(gpu.get_pixel(0, 5)), 2);
}

#[test]
fn window_covers_the_background() {
    let mut gpu = unit();
    solid_tile(&mut gpu, 1, 1);
    solid_tile(&mut gpu, 2, 2);
    for i in 0..1024u16 {
        gpu.write_byte(0x9800 + i, 1);
        gpu.write_byte(0x9C00 + i, 2);
    }
    // Window on, its map at 0x9C00, from column 80 and line 10.
    gpu.write_byte(0xFF40, 0xF1);
    gpu.write_byte(0xFF4B, 87);
    gpu.write_byte(0xFF4A, 10);
    gpu.regs.vert_line = 9;
    gpu.render_screen();
    assert_eq!(line(&gpu, 9), vec![1u8; 160]);
    assert_eq!(gpu.regs.current_window_line, 0);
    gpu.regs.vert_line = 10;
    gpu.render_screen();
    let drawn = line(&gpu, 10);
    assert_eq!(&drawn[0..80], &[1u8; 80][..]);
    assert_eq!(&drawn[80..160], &[2u8; 80][..]);
    assert_eq!(gpu.regs.current_window_line, 1);
    // Off the right edge, or left of the screen: not drawn.
    gpu.write_byte(0xFF4B, 167);
    gpu.render_screen();
    assert_eq!(line(&gpu, 10), vec![1u8; 160]);
    gpu.write_byte(0xFF4B, 6);
    gpu.render_screen();
    assert_eq!(line(&gpu, 10), vec![1u8; 160]);
    assert_eq!(gpu.regs.current_window_line, 1);
    gpu.write_byte(0xFF4B, 7);
    gpu.render_screen();
    assert_eq!(line(&gpu, 10), vec![2u8; 160]);
    assert_eq!(gpu.regs.current_window_line, 2);
}

#[test]
fn window_counts_its_own_lines() {
    let mut gpu = unit();
    pattern_tile(&mut gpu, 1);
    for i in 0..1024u16 {
        gpu.write_byte(0x9C00 + i, 1);
    }
    gpu.write_byte(0xFF40, 0xF1);
    gpu.write_byte(0xFF4B, 7);
    gpu.write_byte(0xFF4A, 100);
    gpu.regs.vert_line = 100;
    gpu.render_screen();
    // The window's first line is row 0 of its tile.
    assert_eq!(&line(&gpu, 100)[0..4], &[0u8, 1, 2, 3]);
    gpu.regs.vert_line = 101;
    gpu.render_screen();
    assert_eq!(&line(&gpu, 101)[0..4], &[1u8, 2, 3, 0]);
    // A new frame starts the count again.
    let mut gpu = unit();
    gpu.write_byte(0xFF40, 0xF1);
    gpu.write_byte(0xFF4B, 7);
    gpu.tick(204 + 143 * 456);
    assert_eq!(gpu.regs.current_window_line, 143);
    gpu.tick(4560);
    assert_eq!(gpu.regs.current_window_line, 0);
}

#[test]
fn objects_over_the_background() {
    let mut gpu = unit();
    solid_tile(&mut gpu, 1, 3);
    solid_tile(&mut gpu, 2, 1);
    gpu.write_byte(0xFF40, 0x93);
    object(&mut gpu, 0, 16, 8, 1, 0x00);
    gpu.regs.vert_line = 0;
    gpu.render_screen();
    let drawn = line(&gpu, 0);
    assert_eq!(&drawn[0..8], &[3u8; 8]);
    assert_eq!(drawn[8], 0);
    // Partly off the left edge, and off the line.
    object(&mut gpu, 0, 16, 4, 1, 0x00);
    gpu.render_screen();
    let drawn = line(&gpu, 0);
    assert_eq!(&drawn[0..4], &[3u8; 4]);
    assert_eq!(drawn[4], 0);
    gpu.regs.vert_line = 8;
    gpu.render_screen();
    assert_eq!(line(&gpu, 8), vec![0u8; 160]);
    // Objects off.
    gpu.regs.vert_line = 0;
    gpu.write_byte(0xFF40, 0x91);
    gpu.render_screen();
    assert_eq!(line(&gpu, 0), vec![0u8; 160]);
}

#[test]
fn object_priority_and_palettes() {
    let mut gpu = unit();
    solid_tile(&mut gpu, 1, 3);
    solid_tile(&mut gpu, 2, 1);
    gpu.write_byte(0xFF40, 0x93);
    // Background: tile 2 in the first map column, tile 0 elsewhere.
    gpu.write_byte(0x9800, 2);
    // Behind the background, over columns 4 to 11.
    object(&mut gpu, 0, 16, 12, 1, 0x80);
    gpu.regs.vert_line = 0;
    gpu.render_screen();
    let drawn = line(&gpu, 0);
    assert_eq!(&drawn[0..8], &[1u8; 8]);
    assert_eq!(&drawn[8..12], &[3u8; 4]);
    // In front of it, through the second palette.
    gpu.write_byte(0xFF49, 0x1B);
    object(&mut gpu, 0, 16, 12, 1, 0x10);
    gpu.render_screen();
    let drawn = line(&gpu, 0);
    assert_eq!(&drawn[0..4], &[1u8; 4]);
    assert_eq!(&drawn[4..12], &[0u8; 8]);
    // Colour number 0 is transparent even where the palette maps it
    // to a shade.
    gpu.write_byte(0xFF48, 0xFF);
    object(&mut gpu, 0, 16, 12, 0, 0x00);
    gpu.render_screen();
    let drawn = line(&gpu, 0);
    assert_eq!(&drawn[0..8], &[1u8; 8]);
    assert_eq!(&drawn[8..12], &[0u8; 4]);
}

#[test]
fn objects_in_front_by_x_then_by_index() {
    let mut gpu = unit();
    solid_tile(&mut gpu, 1, 1);
    solid_tile(&mut gpu, 2, 2);
    solid_tile(&mut gpu, 3, 3);
    gpu.write_byte(0xFF40, 0x93);
    // The lower X wins although it comes later.
    object(&mut gpu, 0, 16, 12, 1, 0);
    object(&mut gpu, 1, 16, 10, 2, 0);
    gpu.regs.vert_line = 0;
    gpu.render_screen();
    let drawn = line(&gpu, 0);
    assert_eq!(&drawn[2..10], &[2u8; 8]);
    assert_eq!(&drawn[10..12], &[1u8; 2]);
    // Equal X: the earlier one wins.
    object(&mut gpu, 1, 16, 12, 2, 0);
    object(&mut gpu, 2, 16, 12, 3, 0);
    gpu.render_screen();
    assert_eq!(&line(&gpu, 0)[4..12], &[1u8; 8]);
    // A transparent pixel lets the next object through.
    pattern_tile(&mut gpu, 1);
    gpu.render_screen();
    let drawn = line(&gpu, 0);
    assert_eq!(&drawn[4..8], &[2u8, 1, 2, 3]);
}

#[test]
fn at_most_ten_objects_on_a_line() {
    let mut gpu = unit();
    solid_tile(&mut gpu, 1, 3);
    gpu.write_byte(0xFF40, 0x93);
    for i in 0..12u16 {
        object(&mut gpu, i, 16, 8 + 8 * i as u8, 1, 0);
    }
    gpu.regs.vert_line = 0;
    let chosen = gpu.select_objects();
    assert_eq!(chosen.iter().filter(|c| **c).count(), 10);
    assert!(chosen[9] && !chosen[10] && !chosen[11]);
    gpu.render_screen();
    let drawn = line(&gpu, 0);
    assert_eq!(&drawn[0..80], &[3u8; 80][..]);
    assert_eq!(&drawn[80..160], &[0u8; 80][..]);
    // Objects that miss the line do not count.
    for i in 0..5u16 {
        object(&mut gpu, i, 100, 8, 1, 0);
    }
    gpu.render_screen();
    let drawn = line(&gpu, 0);
    assert_eq!(&drawn[0..40], &[0u8; 40][..]);
    assert_eq!(&drawn[40..96], &[3u8; 56][..]);
}

#[test]
fn object_flips_and_tall_objects() {
    let mut gpu = unit();
    pattern_tile(&mut gpu, 2);
    solid_tile(&mut gpu, 3, 3);
    gpu.write_byte(0xFF40, 0x93);
    object(&mut gpu, 0, 16, 8, 2, 0x00);
    gpu.regs.vert_line = 1;
    gpu.render_screen();
    assert_eq!(&line(&gpu, 1)[0..8], &[1u8, 2, 3, 0, 1, 2, 3, 0]);
    object(&mut gpu, 0, 16, 8, 2, 0x20);
    gpu.render_screen();
    assert_eq!(&line(&gpu, 1)[0..8], &[0u8, 3, 2, 1, 0, 3, 2, 1]);
    object(&mut gpu, 0, 16, 8, 2, 0x40);
    gpu.render_screen();
    // Row 6 of the tile.
    assert_eq!(&line(&gpu, 1)[0..8], &[2u8, 3, 0, 1, 2, 3, 0, 1]);
    // 16 lines tall: the odd tile number is rounded down and the lower
    // half comes from the next tile.
    gpu.write_byte(0xFF40, 0x97);
    object(&mut gpu, 0, 16, 8, 3, 0x00);
    gpu.regs.vert_line = 1;
    gpu.render_screen();
    assert_eq!(&line(&gpu, 1)[0..8], &[1u8, 2, 3, 0, 1, 2, 3, 0]);
    gpu.regs.vert_line = 9;
    gpu.render_screen();
    assert_eq!(&line(&gpu, 9)[0..8], &[3u8; 8]);
    // Flipped top to bottom, line 1 shows row 14: row 6 of the second
    // tile.
    object(&mut gpu, 0, 16, 8, 3, 0x40);
    gpu.regs.vert_line = 1;
    gpu.render_screen();
    assert_eq!(&line(&gpu, 1)[0..8], &[3u8; 8]);
}

#[test]
fn decoded_tiles_follow_video_ram() {
    let mut gpu = unit();
    // A sequence of writes, some of them overwritten.
    for i in 0..0x1800u16 {
        gpu.write_byte(0x8000 + i, (i as u8).wrapping_mul(37));
    }
    for i in (0..0x1800u16).step_by(3) {
        gpu.write_byte(0x8000 + i, (i as u8) ^ 0x5A);
    }
    let tiles = gpu.get_tiles();
    for t in [0usize, 1, 127, 128, 255, 256, 383] {
        for row in 0..8usize {
            let lo = gpu.read_byte((0x8000 + t * 16 + row * 2) as u16);
            let hi = gpu.read_byte((0x8000 + t * 16 + row * 2 + 1) as u16);
            for col in 0..8usize {
                let code = ((lo >> (7 - col)) & 1) | (((hi >> (7 - col)) & 1) << 1);
                assert_eq!(tiles[t][row][col], byte_to_color(code));
                assert_eq!(gpu.tile_pixel(t, row, col), code);
            }
        }
    }
    // A unit that got the same memory by other writes draws the same.
    let mut other = unit();
    for i in (0..0x2000u16).rev() {
        other.write_byte(0x8000 + i, gpu.read_byte(0x8000 + i));
    }
    for i in 0..1024u16 {
        gpu.write_byte(0x9800 + i, i as u8);
        other.write_byte(0x9800 + i, i as u8);
    }
    gpu.regs.vert_line = 77;
    other.regs.vert_line = 77;
    gpu.render_screen();
    other.render_screen();
    assert_eq!(line(&gpu, 77), line(&other, 77));
}

#[test]
fn tile_map_dump() {
    let mut mem = Memory::new();
    mem.write_byte(0x9800, 7);
    mem.write_byte(0x9BFF, 9);
    mem.write_byte(0x9C00, 11);
    let map = mem.debug_get_background_tilemap();
    assert_eq!(map.len(), 1024);
    assert_eq!(map[0], 7);
    assert_eq!(map[1023], 9);
    mem.write_byte(0xFF40, 0x99);
    assert_eq!(mem.debug_get_background_tilemap()[0], 11);
    assert_eq!(Memory::color_to_char(&GBColor::White), "W");
    assert_eq!(Memory::color_to_char(&GBColor::LightGray), "L");
    assert_eq!(Memory::color_to_char(&GBColor::DarkGray), "D");
    assert_eq!(Memory::color_to_char(&GBColor::Black), "B");
}

#[test]
fn layers_can_be_hidden() {
    let mut gpu = unit();
    solid_tile(&mut gpu, 0, 2);
    solid_tile(&mut gpu, 1, 3);
    gpu.write_byte(0xFF40, 0x93);
    object(&mut gpu, 0, 16, 8, 1, 0);
    gpu.regs.vert_line = 0;
    gpu.debug_toggle_objects();
    gpu.render_screen();
    assert_eq!(line(&gpu, 0), vec![2u8; 160]);
    gpu.debug_toggle_objects();
    gpu.render_screen();
    assert_eq!(&line(&gpu, 0)[0..8], &[3u8; 8]);
    gpu.debug_toggle_background();
    solid_tile(&mut gpu, 0, 1);
    gpu.render_screen();
    assert_eq!(&line(&gpu, 0)[8..160], &[2u8; 152][..]);
    gpu.debug_toggle_layers(true, false, false);
    gpu.render_screen();
    assert_eq!(&line(&gpu, 0)[8..160], &[1u8; 152][..]);
    assert!(gpu.should_display_background());
    assert!(gpu.use_zero_as_window_solid());
    assert!(!gpu.use_8x16_sprites());
    assert!(!gpu.background_tile_table_address());
    assert!(gpu.tile_pattern_table_address());
    assert!(!gpu.should_draw_window());
    assert!(!gpu.window_tile_table_address());
    assert!(gpu.lcd_operation());
    assert!(Gpu::is_bit_set(0x80, 7));
    gpu.set_mode(TickMode::OAM);
    assert_eq!(gpu.mode(), TickMode::OAM);
}

#[test]
fn host_layout() {
    assert_eq!(pixel_rect(0), ScreenRect { x: 0, y: 0, width: 4, height: 4 });
    assert_eq!(pixel_rect(159), ScreenRect { x: 636, y: 0, width: 4, height: 4 });
    assert_eq!(pixel_rect(160), ScreenRect { x: 0, y: 4, width: 4, height: 4 });
    assert_eq!(pixel_rect(23039), ScreenRect { x: 636, y: 572, width: 4, height: 4 });
    assert_eq!(
        tile_pixel_rect(32, 64, 7, 1),
        ScreenRect { x: 60, y: 68, width: 4, height: 4 }
    );
    assert_eq!(tilemap_corner(0), (0, 0));
    assert_eq!(tilemap_corner(31), (992, 0));
    assert_eq!(tilemap_corner(32), (0, 32));
    assert_eq!(tilemap_corner(1023), (992, 992));
    assert_eq!(tile_sheet_corner(24), (768, 0));
    assert_eq!(tile_sheet_corner(25), (0, 32));
    assert_eq!(tile_sheet_corner(383), (256, 480));
}

#[test]
fn frame_as_bytes() {
    let mut gpu = unit();
    solid_tile(&mut gpu, 0, 3);
    gpu.regs.vert_line = 2;
    gpu.render_screen();
    let bytes = gpu.frame_bytes(&ColorScheme::Green);
    assert_eq!(bytes.len(), 160 * 144 * 3);
    assert_eq!(&bytes[0..3], &[0x9C, 0xBD, 0x0F]);
    let at = 2 * 160 * 3;
    assert_eq!(&bytes[at..at + 3], &[0x0F, 0x38, 0x0F]);
    assert_eq!(&bytes[at + 159 * 3..at + 160 * 3], &[0x0F, 0x38, 0x0F]);
    assert_eq!(&bytes[at + 160 * 3..at + 161 * 3], &[0x9C, 0xBD, 0x0F]);
}

#[test]
fn drawing_twice_changes_nothing() {
    let mut gpu = unit();
    pattern_tile(&mut gpu, 0);
    solid_tile(&mut gpu, 1, 2);
    gpu.write_byte(0xFF40, 0x93);
    gpu.write_byte(0xFF47, 0x1B);
    gpu.write_byte(0xFF48, 0x93);
    object(&mut gpu, 0, 16, 20, 1, 0x80);
    object(&mut gpu, 1, 16, 40, 1, 0x00);
    gpu.regs.vert_line = 3;
    gpu.render_bg();
    let background = line(&gpu, 3);
    gpu.render_bg();
    assert_eq!(line(&gpu, 3), background);
    gpu.render_objects();
    let with_objects = line(&gpu, 3);
    assert_ne!(with_objects, background);
    gpu.render_objects();
    assert_eq!(line(&gpu, 3), with_objects);
}

#[test]
fn frames_are_painted_once() {
    let mut gpu = unit();
    solid_tile(&mut gpu, 0, 3);
    assert!(gpu.draw().is_none());
    assert!(gpu.draw_texture().is_none());
    gpu.tick(70224);
    let squares = gpu.draw().unwrap();
    assert_eq!(squares.len(), 160 * 144);
    assert_eq!(squares[0].rect, ScreenRect { x: 0, y: 0, width: 4, height: 4 });
    assert_eq!(squares[0].color, Rgba { r: 0, g: 0, b: 0, a: 0xFF });
    assert_eq!(squares[160].rect, ScreenRect { x: 0, y: 4, width: 4, height: 4 });
    assert_eq!(squares[160].color, Rgba { r: 0, g: 0, b: 0, a: 0xFF });
    assert_eq!(squares[23039].rect, ScreenRect { x: 636, y: 572, width: 4, height: 4 });
    assert!(gpu.draw().is_none());
    gpu.tick(70224);
    let bytes = gpu.draw_texture().unwrap();
    assert_eq!(bytes.len(), 160 * 144 * 3);
    assert_eq!(&bytes[0..3], &[0, 0, 0]);
    assert!(gpu.draw_texture().is_none());
    // With the LCD off there is nothing to show.
    gpu.tick(70224);
    gpu.write_byte(0xFF40, 0x11);
    assert!(gpu.draw().is_none());
}

#[test]
fn the_debugger_paints_the_tiles() {
    let mut gpu = unit();
    pattern_tile(&mut gpu, 5);
    solid_tile(&mut gpu, 383, 2);
    gpu.write_byte(0x9800 + 33, 5);
    let squares = gpu.draw_debug();
    assert_eq!(squares.len(), (1024 + 384) * 64);
    // Map entry 33 stands in row 1, column 1, and names tile 5; its
    // squares go down the first column of the tile first.
    let at = 33 * 64;
    assert_eq!(squares[at].rect, ScreenRect { x: 32, y: 32, width: 4, height: 4 });
    assert_eq!(squares[at].color, get_color(&GBColor::White, &ColorScheme::BlackWhite));
    assert_eq!(squares[at + 1].rect, ScreenRect { x: 32, y: 36, width: 4, height: 4 });
    assert_eq!(squares[at + 1].color, get_color(&GBColor::LightGray, &ColorScheme::BlackWhite));
    assert_eq!(squares[at + 8].rect, ScreenRect { x: 36, y: 32, width: 4, height: 4 });
    assert_eq!(squares[at + 63].rect, ScreenRect { x: 60, y: 60, width: 4, height: 4 });
    assert_eq!(squares[at + 63].color, get_color(&GBColor::DarkGray, &ColorScheme::BlackWhite));
    // The sheet: tile 5 in the first row, tile 383 in the last.
    let at = 1024 * 64 + 5 * 64;
    assert_eq!(squares[at + 9].rect, ScreenRect { x: 164, y: 4, width: 4, height: 4 });
    assert_eq!(squares[at + 9].color, get_color(&GBColor::DarkGray, &ColorScheme::BlackWhite));
    let at = 1024 * 64 + 383 * 64;
    assert_eq!(squares[at].rect, ScreenRect { x: 256, y: 480, width: 4, height: 4 });
    assert_eq!(squares[at].color, get_color(&GBColor::DarkGray, &ColorScheme::BlackWhite));
}

#[test]
fn text_dump() {
    assert_eq!(decimal_string(0), "0");
    assert_eq!(decimal_string(9), "9");
    assert_eq!(decimal_string(10), "10");
    assert_eq!(decimal_string(255), "255");
    assert_eq!(decimal_string(380), "380");
    assert_eq!(address_string(0x980A), "0x980a");
    assert_eq!(address_string(0x9FF8), "0x9ff8");

    let mut mem = Memory::new();
    mem.write_byte(0xFF47, IDENTITY);
    pattern_tile(&mut mem.gpu, 1);
    mem.write_byte(0x9800, 1);
    mem.write_byte(0x9801, 200);
    mem.write_byte(0x9FF7, 7);
    mem.gpu.regs.vert_line = 0;
    mem.gpu.render_screen();
    let text = mem.dump_text();
    let lines: Vec<&str> = text.split('\n').collect();
    assert_eq!(lines[0], "Tile 0 \t Tile 1 \t Tile 2 \t Tile 3");
    assert_eq!(lines[1], "WWWWWWWW\tWLDBWLDB\tWWWWWWWW\tWWWWWWWW\t");
    assert_eq!(lines[2], "WWWWWWWW\tLDBWLDBW\tWWWWWWWW\tWWWWWWWW\t");
    assert_eq!(lines[9], "");
    assert_eq!(lines[10], "Tile 4 \t Tile 5 \t Tile 6 \t Tile 7");
    assert_eq!(lines[95 * 10], "Tile 380 \t Tile 381 \t Tile 382 \t Tile 383");
    let maps = 96 * 10;
    assert_eq!(lines[maps], "tilemap 0x9800");
    assert_eq!(lines[maps + 1], "1,200,0,0,0,0,0,0,0,0,");
    assert_eq!(lines[maps + 2], "tilemap 0x980a");
    assert_eq!(lines[maps + 3], "0,0,0,0,0,0,0,0,0,0,");
    // The last line of bytes starts at 0x9FEE and ends at 0x9FF7.
    assert_eq!(lines[maps + 2 * 203], "tilemap 0x9fee");
    assert_eq!(lines[maps + 2 * 203 + 1], "0,0,0,0,0,0,0,0,0,7,");
    assert_eq!(lines[maps + 2 * 204], "tilemap 0x9ff8");
    assert_eq!(lines[maps + 2 * 204 + 1], "");
    let frame = maps + 2 * 204 + 2;
    assert_eq!(&lines[frame][0..12], "WLDBWLDBWWWW");
    assert_eq!(lines[frame].len(), 160);
    assert_eq!(lines[frame + 143], "W".repeat(160));
    assert_eq!(lines[frame + 144], "");
    assert_eq!(lines.len(), frame + 145);
}
