//! What holds of the bus in every state.

use vstd::prelude::*;
use crate::bits::{bit, lemma_bit_update};
use super::gpu::{GpuRegs, GpuView};
use super::sound::{masked, read_mask, write_mask};
use super::{next_addr, tima_after, timer_period, IoRegs, MemoryView};

verus! {

/// Whether the register at `addr` in 0xFF40..0xFF4C shows `val` once
/// `val` is written to it. STAT keeps only its four select bits and shows
/// the mode and the LY-LYC match beside them, so it shows `val` only
/// where `val` has them already; LY is read-only; the others keep what
/// is written.
pub open spec fn lcd_register_keeps(regs: GpuRegs, addr: u16, val: u8) -> bool {
    if addr == 0xFF41 {
        regs.write(addr, val).stat() == val
    } else if addr == 0xFF44 {
        regs.write(addr, val).vert_line == val
    } else {
        true
    }
}

/// Whether the I/O register at `addr` in 0xFF00..0xFF10 or at 0xFFFF
/// shows `val` once `val` is written to it. The joypad shows its lines
/// in the low four bits. The serial control register clears itself on a
/// send. DIV resets to 0 on any write. IF shows its three high bits as
/// 1, IE keeps only its five low bits. Addresses with no register show
/// 0.
pub open spec fn io_register_keeps(mem: MemoryView, addr: u16, val: u8) -> bool {
    if addr == 0xFF00 {
        (IoRegs { joypad: val, ..mem.io }).joypad_read() == val
    } else if addr == 0xFF01 || addr == 0xFF05 || addr == 0xFF06 || addr == 0xFF07 {
        true
    } else if addr == 0xFF02 {
        val != 0x81
    } else if addr == 0xFF0F {
        val >= 0xE0
    } else if addr == 0xFFFF {
        val < 32
    } else {
        val == 0
    }
}

/// Whether a read at `addr` right after `val` is written there returns
/// `val`.
///
/// It does in video RAM, work RAM and its echo, object memory and high
/// RAM. In the cartridge's ROM ranges a write moves the bank registers
/// and the read shows the ROM. External RAM keeps the byte where it is
/// reachable, and shows 0xFF where it is not. Unused addresses show 0.
/// The registers are as [`io_register_keeps`], [`lcd_register_keeps`]
/// and the sound masks say.
pub open spec fn keeps_written(mem: MemoryView, addr: u16, val: u8) -> bool {
    if addr < 0x8000 {
        mem.rom.write(addr, val).read(addr) == val
    } else if addr < 0xA000 {
        true
    } else if addr < 0xC000 {
        mem.rom.ram_reachable(addr) || val == 0xFF
    } else if addr < 0xFEA0 {
        true
    } else if addr < 0xFF00 {
        val == 0
    } else if addr < 0xFF10 {
        io_register_keeps(mem, addr, val)
    } else if addr < 0xFF40 {
        masked(masked(val, write_mask(addr)), read_mask(addr)) == val
    } else if addr < 0xFF4C {
        lcd_register_keeps(mem.gpu.regs, addr, val)
    } else if addr < 0xFF80 {
        val == 0
    } else if addr < 0xFFFF {
        true
    } else {
        io_register_keeps(mem, addr, val)
    }
}

/// A byte written is the byte read back, exactly at the addresses and
/// values that [`keeps_written`] names.
pub proof fn lemma_write_then_read(mem: MemoryView, addr: u16, val: u8)
    requires
        mem.wf(),
    ensures
        (mem.write(addr, val).read(addr) == val) <==> keeps_written(mem, addr, val),
{
    reveal(MemoryView::read);
    reveal(MemoryView::write);
    let after = mem.write(addr, val);
    if 0xFF10 <= addr < 0xFF40 {
        assert(after.snd == mem.snd.write(addr, val));
    } else if 0xFF40 <= addr < 0xFF4C {
        assert(after.gpu.regs == mem.gpu.regs.write(addr, val));
    } else if addr == 0xFF0F {
        assert(after.io.interupt_flag == val % 32);
    }
}

/// Every byte of video RAM, work RAM, echo RAM, object memory and high
/// RAM reads back as written, whatever the byte.
pub proof fn lemma_memory_keeps_written(mem: MemoryView, addr: u16, val: u8)
    requires
        mem.wf(),
        0x8000 <= addr < 0xA000 || 0xC000 <= addr < 0xFEA0 || 0xFF80 <= addr < 0xFFFF,
    ensures
        mem.write(addr, val).read(addr) == val,
{
    lemma_write_then_read(mem, addr, val);
}

/// Echo RAM is work RAM: an address in 0xE000..0xFE00 reads what the
/// address 0x2000 below it reads, in every state.
pub proof fn lemma_echo_reads_work_ram(mem: MemoryView, addr: u16)
    requires
        0xE000 <= addr < 0xFE00,
    ensures
        mem.read(addr) == mem.read((addr - 0x2000) as u16),
{
    reveal(MemoryView::read);
}

/// A write to echo RAM is the write to work RAM 0x2000 below it.
pub proof fn lemma_echo_writes_work_ram(mem: MemoryView, addr: u16, val: u8)
    requires
        0xE000 <= addr < 0xFE00,
    ensures
        mem.write(addr, val) == mem.write((addr - 0x2000) as u16, val),
{
    reveal(MemoryView::write);
}

/// Writing a palette register twice with one value leaves what writing
/// it once leaves.
pub proof fn lemma_palette_write_idempotent(mem: MemoryView, addr: u16, val: u8)
    requires
        addr == 0xFF47 || addr == 0xFF48 || addr == 0xFF49,
    ensures
        mem.write(addr, val).write(addr, val) == mem.write(addr, val),
{
    reveal(MemoryView::write);
}

/// A write to LY changes nothing.
pub proof fn lemma_ly_is_read_only(mem: MemoryView, val: u8)
    ensures
        mem.write(0xFF44, val) == mem,
{
    reveal(MemoryView::write);
    assert(mem.gpu.write(0xFF44, val).regs == mem.gpu.regs);
    assert(mem.gpu.write(0xFF44, val) == mem.gpu);
}

/// The two low bits of STAT are the number of the mode, and bit 2 is
/// set exactly where LY is LYC.
pub proof fn lemma_stat_shows_mode(mem: MemoryView)
    requires
        mem.wf(),
    ensures
        mem.read(0xFF41) % 4 == mem.gpu.regs.mode.code(),
        bit(mem.read(0xFF41) as int, 2) == (mem.gpu.regs.vert_line == mem.gpu.regs.vert_line_cp),
{
    reveal(MemoryView::read);
}

/// IF reads with its three high bits set and IE with them clear; the
/// five low bits are the flags.
pub proof fn lemma_interrupt_registers(mem: MemoryView)
    requires
        mem.wf(),
    ensures
        mem.read(0xFF0F) >= 0xE0,
        mem.read(0xFF0F) % 32 == mem.io.interupt_flag,
        mem.read(0xFFFF) < 32,
        mem.read(0xFFFF) == mem.io.interupt_enable,
{
    reveal(MemoryView::read);
}

/// The picture unit stays well-formed under every write.
pub proof fn lemma_gpu_write_keeps_wf(gpu: GpuView, addr: u16, val: u8)
    requires
        gpu.wf(),
    ensures
        gpu.write(addr, val).wf(),
{
    if addr == 0xFF40 {
        assert(gpu.regs.write(addr, val).wf());
    } else {
        assert(gpu.regs.write(addr, val).wf());
    }
}

/// The I/O registers stay well-formed under every write.
pub proof fn lemma_io_write_keeps_wf(mem: MemoryView, addr: u16, val: u8)
    requires
        mem.io.wf(),
    ensures
        mem.write_io(addr, val).wf(),
{
}

/// The bus stays well-formed under every write.
pub proof fn lemma_write_keeps_wf(mem: MemoryView, addr: u16, val: u8)
    requires
        mem.wf(),
    ensures
        mem.write(addr, val).wf(),
{
    reveal(MemoryView::write);
    lemma_gpu_write_keeps_wf(mem.gpu, addr, val);
    lemma_io_write_keeps_wf(mem, addr, val);
    let after = mem.write(addr, val);
    if addr < 0x8000 || 0xA000 <= addr < 0xC000 {
        assert(after.rom.bank.wf());
        assert(after.gpu == mem.gpu && after.io == mem.io && after.snd == mem.snd);
    } else if addr == 0xFF46 {
        assert(after.gpu == mem.gpu.write(addr, val).with_oam(mem.dma_source(val)));
        assert(after.gpu.wf());
    } else if 0xFF10 <= addr < 0xFF40 {
        assert(after.snd.regs.len() == 0x30);
    }
}

/// What the registers hold after a reset, from any state: the values
/// that the boot program leaves. No button is selected away and the
/// joypad reads 0x0F while none is held; the timer stands at 0 and is
/// off; the LCD is on with the background shown from tile data at
/// 0x8000; the palettes are 0xFC, 0xFF and 0xFF; no interrupt is enabled
/// and the VBlank flag alone is set.
pub proof fn lemma_registers_after_reset(mem: MemoryView)
    requires
        mem.wf(),
    ensures
        mem.reset().wf(),
        mem.reset().io.joypad == 0x0F,
        mem.reset().io.timer_counter == 0,
        mem.reset().io.timer_modulo == 0,
        mem.reset().io.timer_control == 0,
        mem.reset().io.interupt_enable == 0,
        mem.reset().io.interupt_flag == 0x01,
        mem.reset().gpu.regs.lcdc == 0x91,
        mem.reset().gpu.regs.scroll_y == 0,
        mem.reset().gpu.regs.scroll_x == 0,
        mem.reset().gpu.regs.vert_line_cp == 0,
        mem.reset().gpu.regs.bg_palette == 0xFC,
        mem.reset().gpu.regs.obj_palette0 == 0xFF,
        mem.reset().gpu.regs.obj_palette1 == 0xFF,
        mem.reset().gpu.regs.window_y == 0,
        mem.reset().gpu.regs.window_x == 0,
        mem.reset().wram == mem.wram,
        mem.reset().hram == mem.hram,
        mem.reset().rom == mem.rom,
        mem.reset().gpu.vram == mem.gpu.vram,
        mem.reset().gpu.oam == mem.gpu.oam,
{
    let sound = mem.reset_sound();
    lemma_sound_reset(mem);
    let video = sound.reset_video();
    lemma_video_reset(sound);
    reveal(MemoryView::write);
}

/// The first part of a reset: the joypad, the timer and the sound
/// registers.
proof fn lemma_sound_reset(mem: MemoryView)
    requires
        mem.wf(),
    ensures
        mem.reset_sound().wf(),
        mem.reset_sound().io == (IoRegs {
            joypad: 0x0F,
            timer_counter: 0,
            timer_modulo: 0,
            timer_control: 0,
            timer_clock: 0,
            ..mem.io
        }),
        mem.reset_sound().gpu == mem.gpu,
        mem.reset_sound().wram == mem.wram,
        mem.reset_sound().hram == mem.hram,
        mem.reset_sound().rom == mem.rom,
        mem.reset_sound().serial_out == mem.serial_out,
{
    reveal(MemoryView::write);
    let a = mem.write(0xFF00, 0x0F).write(0xFF05, 0x00).write(0xFF06, 0x00).write(0xFF07, 0x00);
    assert(a.snd == mem.snd);
    let b = a.write(0xFF10, 0x80).write(0xFF11, 0xBF).write(0xFF12, 0xF3).write(0xFF14, 0xBF)
        .write(0xFF16, 0x3F).write(0xFF17, 0x00);
    assert(b.io == a.io && b.gpu == a.gpu && b.snd.regs.len() == 0x30);
    let c = b.write(0xFF19, 0xBF).write(0xFF1A, 0x7F).write(0xFF1B, 0xFF).write(0xFF1C, 0x9F)
        .write(0xFF1E, 0xBF).write(0xFF20, 0xFF);
    assert(c.io == a.io && c.gpu == a.gpu && c.snd.regs.len() == 0x30);
    let d = c.write(0xFF21, 0x00).write(0xFF22, 0x00).write(0xFF23, 0xBF).write(0xFF24, 0x77)
        .write(0xFF25, 0xF3).write(0xFF26, 0xF1);
    assert(d.io == a.io && d.gpu == a.gpu && d.snd.regs.len() == 0x30);
    assert(d == mem.reset_sound());
}

/// The second part of a reset: the LCD registers.
proof fn lemma_video_reset(mem: MemoryView)
    requires
        mem.wf(),
    ensures
        mem.reset_video().wf(),
        mem.reset_video().gpu == (GpuView {
            regs: GpuRegs {
                lcdc: 0x91,
                scroll_y: 0,
                scroll_x: 0,
                vert_line_cp: 0,
                bg_palette: 0xFC,
                obj_palette0: 0xFF,
                obj_palette1: 0xFF,
                window_y: 0,
                window_x: 0,
                ..mem.gpu.regs
            },
            ..mem.gpu
        }),
        mem.reset_video().io == mem.io,
        mem.reset_video().wram == mem.wram,
        mem.reset_video().hram == mem.hram,
        mem.reset_video().rom == mem.rom,
        mem.reset_video().snd == mem.snd,
        mem.reset_video().serial_out == mem.serial_out,
{
    reveal(MemoryView::write);
    assert(bit(0x91, 7));
}

/// Whether `addr` is plain memory of the bus: work RAM, its echo, or
/// high RAM.
pub open spec fn is_ram(addr: u16) -> bool {
    0xC000 <= addr < 0xFE00 || 0xFF80 <= addr < 0xFFFF
}

/// The address that stands for the same byte as `addr` once the echo of
/// work RAM is taken back to work RAM.
pub open spec fn ram_cell(addr: u16) -> int {
    if 0xE000 <= addr < 0xFE00 {
        addr - 0x2000
    } else {
        addr as int
    }
}

/// A write to plain memory is local: it changes what is read at its own
/// byte, and its echo, and nowhere else on the bus.
pub proof fn lemma_ram_write_is_local(mem: MemoryView, addr: u16, val: u8, other: u16)
    requires
        mem.wf(),
        is_ram(addr),
        !(is_ram(other) && ram_cell(other) == ram_cell(addr)),
    ensures
        mem.write(addr, val).read(other) == mem.read(other),
{
    reveal(MemoryView::read);
    reveal(MemoryView::write);
}

/// A word written to plain memory is the word read back.
pub proof fn lemma_word_round_trip(mem: MemoryView, addr: u16, val: u16)
    requires
        mem.wf(),
        is_ram(addr),
        is_ram(next_addr(addr)),
    ensures
        mem.write_word(addr, val).read_word(addr) == val,
{
    let low = (val % 256) as u8;
    let high = (val / 256) as u8;
    let first = mem.write(addr, low);
    lemma_write_keeps_wf(mem, addr, low);
    lemma_memory_keeps_written(mem, addr, low);
    lemma_ram_write_is_local(first, next_addr(addr), high, addr);
    lemma_memory_keeps_written(first, next_addr(addr), high);
}

/// An OAM DMA transfer copies: after the page number is written to
/// 0xFF46, byte `i` of object memory is what byte `i` of that page read
/// before.
pub proof fn lemma_dma_copies(mem: MemoryView, page: u8, i: int)
    requires
        mem.wf(),
        0 <= i < 0xA0,
    ensures
        mem.write(0xFF46, page).read((0xFE00 + i) as u16) == mem.read((page * 0x100 + i) as u16),
{
    reveal(MemoryView::read);
    reveal(MemoryView::write);
    let after = mem.write(0xFF46, page);
    assert(after.gpu.oam == mem.dma_source(page));
}

/// The cycle on which TIMA steps from 0xFF reloads it from TMA and
/// flags the timer interrupt.
pub proof fn lemma_timer_reloads(io: IoRegs)
    requires
        io.wf(),
        io.timer_enabled(),
        io.timer_counter == 0xFF,
    ensures
        ({
            let left = timer_period(io.timer_control) - io.timer_clock;
            &&& io.run_timer(left - 1).timer_counter == 0xFF
            &&& io.run_timer(left).timer_counter == io.timer_modulo
            &&& bit(io.run_timer(left).interupt_flag as int, 2)
            &&& io.run_timer(left).wf()
        }),
{
    lemma_bit_update(io.interupt_flag, 2);
    let period = timer_period(io.timer_control);
    let left = period - io.timer_clock;
    assert(period == 1024 || period == 16 || period == 64 || period == 256);
    assert(io.timer_steps(left) == 1);
    assert(io.timer_steps(left - 1) == 0);
    let span = 256 - io.timer_modulo;
    assert(0int % span == 0) by (nonlinear_arith)
        requires
            span > 0,
    ;
    assert(tima_after(0xFF, io.timer_modulo, 1) == io.timer_modulo);
}

/// DIV counts the cycles in units of 256, whatever else the timer does.
pub proof fn lemma_divider_counts(io: IoRegs, cycles: int)
    requires
        io.wf(),
        0 <= cycles,
    ensures
        io.run_timer(cycles).div_register as int * 256 + io.run_timer(cycles).div_clock == (
        io.div_register as int * 256 + io.div_clock + cycles) % 65536,
{
}

} // verus!
