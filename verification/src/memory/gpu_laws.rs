//! What holds of the picture unit in every state: the shape of a frame
//! of 70224 cycles, the objects of a scanline, and the decoded tiles.

use vstd::prelude::*;
use crate::video::color_of;
use super::gpu::{
    cached_pixel, obj_selected, obj_shows, obj_winner, on_line_before, selected_before, tile_code,
    Gpu, GpuRegs, GpuView, TickMode,
};

verus! {

/// Cycles from the start of a line to the start of a mode on it.
pub open spec fn mode_start(mode: TickMode) -> int {
    match mode {
        TickMode::OAM => 0,
        TickMode::OAMVRAM => 80,
        TickMode::HBLANK => 252,
        TickMode::VBLANK => 0,
    }
}

/// Cycles since line 0 began: 456 for each line before LY, then the
/// modes before the current one, then the mode clock.
pub open spec fn frame_position(regs: GpuRegs) -> int {
    regs.vert_line * 456 + mode_start(regs.mode) + regs.clock
}

/// The position in the frame at which VBlank begins: the end of line
/// 143.
pub open spec fn vblank_position() -> int {
    65664
}

/// How often a clock that stands at `position` in the frame passes the
/// start of VBlank in its next `cycles` cycles.
pub open spec fn vblank_passes(position: int, cycles: int) -> int {
    (position + cycles + (70224 - vblank_position())) / 70224 - (position + (70224
        - vblank_position())) / 70224
}

/// The three modes of a visible line take 456 cycles together, and 144
/// visible lines with 10 lines of VBlank take 70224.
pub proof fn lemma_mode_durations()
    ensures
        TickMode::OAM.duration() + TickMode::OAMVRAM.duration() + TickMode::HBLANK.duration()
            == 456,
        144 * (TickMode::OAM.duration() + TickMode::OAMVRAM.duration()
            + TickMode::HBLANK.duration()) + 10 * TickMode::VBLANK.duration() == 70224,
{
}

/// Drawing a line leaves the clock, the mode, LY and the registers
/// that are written from the bus as they are.
pub proof fn lemma_render_keeps_clock(gpu: GpuView)
    ensures
        gpu.render_line().regs == (GpuRegs {
            current_window_line: gpu.render_line().regs.current_window_line,
            ..gpu.regs
        }),
{
}

/// Leaving a mode moves the position in the frame on by what was left
/// of the mode, around the end of the frame.
pub proof fn lemma_advance_position(gpu: GpuView)
    requires
        gpu.regs.wf(),
    ensures
        gpu.advance().regs.wf(),
        gpu.advance().regs.lcdc == gpu.regs.lcdc,
        frame_position(gpu.advance().regs) == (frame_position(gpu.regs) + (
        gpu.regs.mode.duration() - gpu.regs.clock)) % 70224,
        gpu.enters_vblank() <==> frame_position(gpu.regs) + (gpu.regs.mode.duration()
            - gpu.regs.clock) == vblank_position(),
        0 <= frame_position(gpu.regs) < 70224,
{
    lemma_render_keeps_clock(gpu);
}

/// A clock that first runs `left` cycles to a point `next` of the frame
/// and then `rest` more passes the start of VBlank once more than from
/// `next` on, where that point is the start of VBlank, and as often
/// otherwise.
proof fn lemma_passes_add(position: int, left: int, next: int, rest: int)
    requires
        0 <= position < 70224,
        0 < left,
        position + left <= 70224,
        next == (position + left) % 70224,
        0 <= rest,
        // No start of VBlank strictly inside the run to `next`.
        position < vblank_position() ==> position + left <= vblank_position(),
    ensures
        vblank_passes(position, left + rest) == vblank_passes(next, rest) + if position + left
            == vblank_position() {
            1int
        } else {
            0int
        },
        (next + rest) % 70224 == (position + left + rest) % 70224,
{
}

/// A clock that stays within its mode passes no start of VBlank.
proof fn lemma_no_pass_within_mode(regs: GpuRegs, cycles: int)
    requires
        regs.wf(),
        0 <= cycles,
        regs.clock + cycles < regs.mode.duration(),
    ensures
        vblank_passes(frame_position(regs), cycles) == 0,
        0 <= frame_position(regs) + cycles < 70224,
{
}

/// After any number of cycles the unit stands where the clock of the
/// frame says, and it has asked for the VBlank interrupt once for each
/// time that clock passed the start of VBlank.
pub proof fn lemma_tick_position(gpu: GpuView, cycles: nat)
    requires
        gpu.regs.wf(),
        gpu.regs.lcd_on(),
    ensures
        gpu.tick(cycles).gpu.regs.wf(),
        gpu.tick(cycles).gpu.regs.lcd_on(),
        frame_position(gpu.tick(cycles).gpu.regs) == (frame_position(gpu.regs) + cycles) % 70224,
        gpu.tick(cycles).vblanks == vblank_passes(frame_position(gpu.regs), cycles as int),
    decreases cycles,
{
    lemma_advance_position(gpu);
    let left = gpu.regs.mode.duration() - gpu.regs.clock;
    let position = frame_position(gpu.regs);
    if gpu.regs.clock + cycles < gpu.regs.mode.duration() {
        lemma_no_pass_within_mode(gpu.regs, cycles as int);
    } else {
        let next = gpu.advance();
        let rest = (cycles - left) as nat;
        lemma_tick_position(next, rest);
        lemma_mode_ends_before_vblank(gpu.regs);
        lemma_passes_add(position, left, frame_position(next.regs), rest as int);
    }
}

/// A mode that begins before the start of VBlank ends at or before it,
/// and every mode ends within the frame.
proof fn lemma_mode_ends_before_vblank(regs: GpuRegs)
    requires
        regs.wf(),
    ensures
        frame_position(regs) + (regs.mode.duration() - regs.clock) <= 70224,
        frame_position(regs) < vblank_position() ==> frame_position(regs) + (
        regs.mode.duration() - regs.clock) <= vblank_position(),
{
}

/// Two units at one position in the frame are in the same mode, on the
/// same line, with the same mode clock.
pub proof fn lemma_position_fixes_clock(a: GpuRegs, b: GpuRegs)
    requires
        a.wf(),
        b.wf(),
        frame_position(a) == frame_position(b),
    ensures
        a.mode == b.mode,
        a.vert_line == b.vert_line,
        a.clock == b.clock,
{
}

/// A frame is exactly 70224 cycles: after that many cycles the unit is
/// in the same mode, on the same line, at the same point of the mode
/// clock, from whatever state it started.
pub proof fn lemma_frame_period(gpu: GpuView)
    requires
        gpu.regs.wf(),
    ensures
        gpu.tick(70224).gpu.regs.mode == gpu.regs.mode,
        gpu.tick(70224).gpu.regs.vert_line == gpu.regs.vert_line,
        gpu.tick(70224).gpu.regs.clock == gpu.regs.clock,
{
    if gpu.regs.lcd_on() {
        lemma_tick_position(gpu, 70224);
        lemma_advance_position(gpu);
        lemma_position_fixes_clock(gpu.tick(70224).gpu.regs, gpu.regs);
    }
}

/// Over any 70224 cycles with the LCD on, the unit asks for the VBlank
/// interrupt exactly once.
pub proof fn lemma_one_vblank_per_frame(gpu: GpuView)
    requires
        gpu.regs.wf(),
        gpu.regs.lcd_on(),
    ensures
        gpu.tick(70224).vblanks == 1,
{
    lemma_tick_position(gpu, 70224);
    lemma_advance_position(gpu);
}

/// At most 10 objects are drawn on a scanline: of the first `n` objects
/// no more than 10 are selected, whatever object memory holds.
pub proof fn lemma_at_most_ten_objects(oam: Seq<u8>, regs: GpuRegs, n: int)
    requires
        0 <= n <= 40,
    ensures
        selected_before(oam, regs, n) <= 10,
        selected_before(oam, regs, n) <= on_line_before(oam, regs, n),
        on_line_before(oam, regs, n) <= 10 ==> selected_before(oam, regs, n) == on_line_before(
            oam,
            regs,
            n,
        ),
    decreases n,
{
    if n > 0 {
        lemma_at_most_ten_objects(oam, regs, n - 1);
    }
}

/// An object that shows a pixel on a scanline is one of those selected
/// for the line, and the object in front at a column shows a pixel
/// there.
pub proof fn lemma_front_object_is_selected(
    vram: Seq<u8>,
    oam: Seq<u8>,
    regs: GpuRegs,
    x: int,
    n: int,
)
    requires
        0 <= n <= 40,
    ensures
        -1 <= obj_winner(vram, oam, regs, x, n) < n,
        obj_winner(vram, oam, regs, x, n) >= 0 ==> obj_selected(
            oam,
            regs,
            obj_winner(vram, oam, regs, x, n),
        ) && obj_shows(vram, oam, regs, obj_winner(vram, oam, regs, x, n), x),
    decreases n,
{
    if n > 0 {
        lemma_front_object_is_selected(vram, oam, regs, x, n - 1);
    }
}

/// The object in front at a column is the least, by X and then by place
/// in object memory, of the objects that show a pixel there.
pub proof fn lemma_front_object_is_least(
    vram: Seq<u8>,
    oam: Seq<u8>,
    regs: GpuRegs,
    x: int,
    n: int,
    other: int,
)
    requires
        0 <= other < n <= 40,
        obj_shows(vram, oam, regs, other, x),
    ensures
        ({
            let front = obj_winner(vram, oam, regs, x, n);
            &&& front >= 0
            &&& oam[4 * front + 1] < oam[4 * other + 1] || (oam[4 * front + 1] == oam[4 * other
                + 1] && front <= other)
        }),
    decreases n,
{
    lemma_front_object_is_selected(vram, oam, regs, x, n - 1);
    if other < n - 1 {
        lemma_front_object_is_least(vram, oam, regs, x, n - 1, other);
    }
}

/// The decoded tiles are video RAM decoded: in every state that the
/// unit can reach, each decoded pixel is the shade of the colour number
/// that the two bytes of its row give.
pub proof fn lemma_tiles_are_decoded(gpu: Gpu, tile: int, row: int, col: int)
    requires
        gpu.wf(),
        0 <= tile < 384,
        0 <= row < 8,
        0 <= col < 8,
    ensures
        gpu.tiles@[tile * 64 + row * 8 + col] == color_of(tile_code(gpu.vram@, tile, row, col)),
{
    let i = tile * 64 + row * 8 + col;
    assert(i / 8 == tile * 8 + row && i % 8 == col);
    assert(gpu.tiles@[i] == cached_pixel(gpu.vram@, i));
}

/// Drawing the background twice leaves what drawing it once leaves: the
/// palette is applied to the colour numbers of the tiles, never to the
/// shades already in the frame.
pub proof fn lemma_background_drawn_twice(gpu: GpuView)
    ensures
        gpu.bg_pass().bg_pass() == gpu.bg_pass(),
{
    let once = gpu.bg_pass();
    let twice = once.bg_pass();
    assert(once.vram == gpu.vram && once.regs == gpu.regs);
    assert(twice.line =~= once.line);
    assert(twice.pixels =~= once.pixels);
}

/// Laying the objects over a line twice leaves what laying them once
/// leaves.
pub proof fn lemma_objects_drawn_twice(gpu: GpuView)
    requires
        gpu.pixels.len() == 23040,
    ensures
        gpu.object_pass().object_pass() == gpu.object_pass(),
{
    let once = gpu.object_pass();
    let twice = once.object_pass();
    assert(twice.pixels =~= once.pixels);
}

} // verus!
