//! The memory bus: the address decoder over the cartridge, the picture
//! unit, work RAM, the I/O registers and high RAM, with the timer and the
//! joypad lines.

pub mod dump;
pub mod gpu;
pub mod gpu_laws;
pub mod laws;
pub mod rom;
pub mod sound;

use vstd::prelude::*;
use crate::bits::{bit, is_bit_set, set_bit_of, weight, with_bit};
use crate::cartridge::{Cartridge, CartridgeError};
use crate::video::{channel, frame_paint, rgba_of, ColorScheme, GBColor, Paint};
use gpu::{Gpu, GpuView, Tile16};
use rom::{Rom, RomView};
use sound::{Sound, SoundView};

verus! {

pub const WRAM_SIZE: usize = 0x2000;

pub const HRAM_SIZE: usize = 0x7F;

/// Bit of the interrupt flags that the timer raises.
pub const TIMER_INTERRUPT_BIT: u8 = 2;

/// The bit of the held buttons that stands on line `k` of the joypad
/// when the directions are selected: Right, Left, Up, Down.
pub open spec fn direction_bit(k: int) -> int {
    if k == 0 {
        7
    } else if k == 1 {
        6
    } else if k == 2 {
        4
    } else {
        5
    }
}

/// Cycles between two steps of TIMA, chosen by the two low bits of
/// TAC: 4096 Hz, 262144 Hz, 65536 Hz or 16384 Hz.
pub open spec fn timer_period(tac: u8) -> int {
    if tac % 4 == 0 {
        1024
    } else if tac % 4 == 1 {
        16
    } else if tac % 4 == 2 {
        64
    } else {
        256
    }
}

/// TIMA after `steps` steps: it counts up, and each time it passes 0xFF
/// it starts again from `tma`.
pub open spec fn tima_after(tima: u8, tma: u8, steps: int) -> u8 {
    if tima + steps < 256 {
        (tima + steps) as u8
    } else {
        (tma + (tima + steps - 256) % (256 - tma)) as u8
    }
}

/// The I/O registers that the bus itself holds.
#[derive(Clone, Copy, PartialEq, Eq, Debug, Structural)]
pub struct IoRegs {
    /// IE, its five bits.
    pub interupt_enable: u8,
    /// IF, its five bits.
    pub interupt_flag: u8,
    /// What was last written to the joypad register; bits 4 and 5
    /// select the button groups.
    pub joypad: u8,
    /// The buttons held down: bits 0 to 7 are A, B, Select, Start, Up,
    /// Down, Left and Right.
    pub buttons: u8,
    pub serial_transfer_data: u8,
    pub serial_transfer_control: u8,
    /// DIV.
    pub div_register: u8,
    /// Cycles since DIV last stepped.
    pub div_clock: u32,
    /// TIMA.
    pub timer_counter: u8,
    /// TMA.
    pub timer_modulo: u8,
    /// TAC.
    pub timer_control: u8,
    /// Cycles since TIMA last stepped.
    pub timer_clock: u32,
}

impl IoRegs {
    pub open spec fn wf(self) -> bool {
        &&& self.interupt_enable < 32
        &&& self.interupt_flag < 32
        &&& self.div_clock < 256
        &&& self.timer_clock < timer_period(self.timer_control)
    }

    pub open spec fn power_on() -> IoRegs {
        IoRegs {
            interupt_enable: 0,
            interupt_flag: 0,
            joypad: 0,
            buttons: 0,
            serial_transfer_data: 0,
            serial_transfer_control: 0,
            div_register: 0,
            div_clock: 0,
            timer_counter: 0,
            timer_modulo: 0,
            timer_control: 0,
            timer_clock: 0,
        }
    }

    /// Whether line `k` (0 to 3) of the joypad reads 1: no selected
    /// group has its button on that line held down. Bit 4 clear selects
    /// the directions, bit 5 clear the actions. The lines are Right or
    /// A, Left or B, Up or Select, Down or Start.
    pub open spec fn joypad_line(self, k: int) -> bool {
        &&& bit(self.joypad as int, 4) || !bit(self.buttons as int, direction_bit(k))
        &&& bit(self.joypad as int, 5) || !bit(self.buttons as int, k)
    }

    /// What a read of the joypad register shows: the high bits as
    /// written, the four lines below.
    pub open spec fn joypad_read(self) -> u8 {
        ((self.joypad / 16) * 16 + (if self.joypad_line(0) {
            1int
        } else {
            0int
        }) + (if self.joypad_line(1) {
            2int
        } else {
            0int
        }) + (if self.joypad_line(2) {
            4int
        } else {
            0int
        }) + (if self.joypad_line(3) {
            8int
        } else {
            0int
        })) as u8
    }

    pub open spec fn timer_enabled(self) -> bool {
        bit(self.timer_control as int, 2)
    }

    /// How often TIMA steps in the next `cycles` cycles.
    pub open spec fn timer_steps(self, cycles: int) -> int {
        if self.timer_enabled() {
            (self.timer_clock + cycles) / timer_period(self.timer_control)
        } else {
            0
        }
    }

    /// Whether TIMA passes 0xFF in the next `cycles` cycles.
    pub open spec fn timer_overflows(self, cycles: int) -> bool {
        self.timer_counter + self.timer_steps(cycles) >= 256
    }

    /// The registers after `cycles` cycles of the divider and the timer.
    /// DIV steps every 256 cycles. TIMA steps at the rate TAC selects
    /// while TAC enables it; passing 0xFF it reloads from TMA and the
    /// timer interrupt is flagged.
    pub open spec fn run_timer(self, cycles: int) -> IoRegs {
        let divided = IoRegs {
            div_register: ((self.div_register + (self.div_clock + cycles) / 256) % 256) as u8,
            div_clock: ((self.div_clock + cycles) % 256) as u32,
            ..self
        };
        if self.timer_enabled() {
            IoRegs {
                timer_counter: tima_after(
                    self.timer_counter,
                    self.timer_modulo,
                    self.timer_steps(cycles),
                ),
                timer_clock: ((self.timer_clock + cycles) % timer_period(
                    self.timer_control,
                )) as u32,
                interupt_flag: if self.timer_overflows(cycles) {
                    with_bit(self.interupt_flag, 2)
                } else {
                    self.interupt_flag
                },
                ..divided
            }
        } else {
            divided
        }
    }

    /// The interrupt flags with the picture unit's requests added.
    pub open spec fn with_requests(self, vblanks: nat, stats: nat) -> IoRegs {
        let first = if vblanks > 0 {
            with_bit(self.interupt_flag, 0)
        } else {
            self.interupt_flag
        };
        IoRegs {
            interupt_flag: if stats > 0 {
                with_bit(first, 1)
            } else {
                first
            },
            ..self
        }
    }
}

/// Everything on the bus, as contracts see it.
pub struct MemoryView {
    pub rom: RomView,
    pub gpu: GpuView,
    pub snd: SoundView,
    pub wram: Seq<u8>,
    pub hram: Seq<u8>,
    pub io: IoRegs,
    /// The bytes sent through the serial port so far.
    pub serial_out: Seq<u8>,
}

impl MemoryView {
    pub open spec fn wf(self) -> bool {
        &&& self.gpu.wf()
        &&& self.snd.regs.len() == 0x30
        &&& self.wram.len() == 0x2000
        &&& self.hram.len() == 0x7F
        &&& self.io.wf()
        &&& self.rom.bank.wf()
    }

    /// The byte that a read at `addr` returns.
    #[verifier::opaque]
    pub open spec fn read(self, addr: u16) -> u8 {
        if addr < 0x8000 {
            self.rom.read(addr)
        } else if addr < 0xA000 {
            self.gpu.read(addr)
        } else if addr < 0xC000 {
            self.rom.read(addr)
        } else if addr < 0xE000 {
            self.wram[addr - 0xC000]
        } else if addr < 0xFE00 {
            self.wram[addr - 0xE000]
        } else if addr < 0xFEA0 {
            self.gpu.read(addr)
        } else if addr < 0xFF00 {
            0
        } else if addr == 0xFF00 {
            self.io.joypad_read()
        } else if addr == 0xFF01 {
            self.io.serial_transfer_data
        } else if addr == 0xFF02 {
            self.io.serial_transfer_control
        } else if addr == 0xFF04 {
            self.io.div_register
        } else if addr == 0xFF05 {
            self.io.timer_counter
        } else if addr == 0xFF06 {
            self.io.timer_modulo
        } else if addr == 0xFF07 {
            self.io.timer_control
        } else if addr == 0xFF0F {
            (self.io.interupt_flag + 0xE0) as u8
        } else if addr < 0xFF10 {
            0
        } else if addr < 0xFF40 {
            self.snd.read(addr)
        } else if addr < 0xFF4C {
            self.gpu.read(addr)
        } else if addr < 0xFF80 {
            0
        } else if addr < 0xFFFF {
            self.hram[addr - 0xFF80]
        } else {
            self.io.interupt_enable
        }
    }

    /// The 160 bytes that an OAM DMA transfer from page `page` copies.
    pub open spec fn dma_source(self, page: u8) -> Seq<u8> {
        Seq::new(0xA0, |i: int| self.read((page * 0x100 + i) as u16))
    }

    /// The I/O registers after `val` is written at `addr` in
    /// 0xFF00..0xFF10 or at 0xFFFF.
    pub open spec fn write_io(self, addr: u16, val: u8) -> IoRegs {
        if addr == 0xFF00 {
            IoRegs { joypad: val, ..self.io }
        } else if addr == 0xFF01 {
            IoRegs { serial_transfer_data: val, ..self.io }
        } else if addr == 0xFF02 {
            IoRegs { serial_transfer_control: if val == 0x81 { 0u8 } else { val }, ..self.io }
        } else if addr == 0xFF04 {
            IoRegs { div_register: 0, div_clock: 0, ..self.io }
        } else if addr == 0xFF05 {
            IoRegs { timer_counter: val, ..self.io }
        } else if addr == 0xFF06 {
            IoRegs { timer_modulo: val, ..self.io }
        } else if addr == 0xFF07 {
            IoRegs { timer_control: val, timer_clock: 0, ..self.io }
        } else if addr == 0xFF0F {
            IoRegs { interupt_flag: (val % 32) as u8, ..self.io }
        } else if addr == 0xFFFF {
            IoRegs { interupt_enable: (val % 32) as u8, ..self.io }
        } else {
            self.io
        }
    }

    /// The bus after `val` is written at `addr`.
    ///
    /// Writes in the cartridge's ranges go to the bank controller. Echo
    /// RAM is work RAM. A write to 0xFF46 copies 160 bytes from the page
    /// it names into object memory. Writing 0x81 to 0xFF02 sends the byte
    /// at 0xFF01 out of the serial port and clears the control register.
    /// Writes to DIV reset it. Writes to unused addresses are dropped.
    #[verifier::opaque]
    pub open spec fn write(self, addr: u16, val: u8) -> MemoryView {
        if addr < 0x8000 {
            MemoryView { rom: self.rom.write(addr, val), ..self }
        } else if addr < 0xA000 {
            MemoryView { gpu: self.gpu.write(addr, val), ..self }
        } else if addr < 0xC000 {
            MemoryView { rom: self.rom.write(addr, val), ..self }
        } else if addr < 0xE000 {
            MemoryView { wram: self.wram.update(addr - 0xC000, val), ..self }
        } else if addr < 0xFE00 {
            MemoryView { wram: self.wram.update(addr - 0xE000, val), ..self }
        } else if addr < 0xFEA0 {
            MemoryView { gpu: self.gpu.write(addr, val), ..self }
        } else if addr < 0xFF00 {
            self
        } else if addr == 0xFF02 && val == 0x81 {
            MemoryView {
                io: self.write_io(addr, val),
                serial_out: self.serial_out.push(self.io.serial_transfer_data),
                ..self
            }
        } else if addr < 0xFF10 {
            MemoryView { io: self.write_io(addr, val), ..self }
        } else if addr < 0xFF40 {
            MemoryView { snd: self.snd.write(addr, val), ..self }
        } else if addr == 0xFF46 {
            MemoryView {
                gpu: self.gpu.write(addr, val).with_oam(self.dma_source(val)),
                ..self
            }
        } else if addr < 0xFF4C {
            MemoryView { gpu: self.gpu.write(addr, val), ..self }
        } else if addr < 0xFF80 {
            self
        } else if addr < 0xFFFF {
            MemoryView { hram: self.hram.update(addr - 0xFF80, val), ..self }
        } else {
            MemoryView { io: self.write_io(addr, val), ..self }
        }
    }

    /// The 16-bit word at `addr`, low byte first; the address after
    /// 0xFFFF is 0.
    pub open spec fn read_word(self, addr: u16) -> u16 {
        (self.read(addr) + 256 * self.read(next_addr(addr))) as u16
    }

    /// The bus after the word `val` is written at `addr`, low byte first.
    pub open spec fn write_word(self, addr: u16, val: u16) -> MemoryView {
        self.write(addr, (val % 256) as u8).write(next_addr(addr), (val / 256) as u8)
    }

    /// The bus after `cycles` cycles of the timer and the picture unit.
    pub open spec fn tick(self, cycles: nat) -> MemoryView {
        let run = self.gpu.tick(cycles);
        MemoryView {
            gpu: run.gpu,
            io: self.io.run_timer(cycles as int).with_requests(run.vblanks, run.stats),
            ..self
        }
    }

    /// The bus with the buttons in `buttons` held down.
    pub open spec fn with_buttons(self, buttons: u8) -> MemoryView {
        MemoryView { io: IoRegs { buttons, ..self.io }, ..self }
    }

    /// A bus with no cartridge, before the registers get their values.
    pub open spec fn power_on() -> MemoryView {
        MemoryView {
            rom: RomView::empty(),
            gpu: GpuView::initial(),
            snd: SoundView::initial(),
            wram: Seq::new(0x2000, |i: int| 0u8),
            hram: Seq::new(0x7F, |i: int| 0u8),
            io: IoRegs::power_on(),
            serial_out: Seq::empty(),
        }
    }

    /// The bus after the registers are given the values that the boot
    /// program leaves in them.
    pub open spec fn reset(self) -> MemoryView {
        self.reset_sound().reset_video().write(0xFFFF, 0x00).write(0xFF0F, 0xE1)
    }

    pub open spec fn reset_sound(self) -> MemoryView {
        self.write(0xFF00, 0x0F).write(0xFF05, 0x00).write(0xFF06, 0x00).write(0xFF07, 0x00).write(
            0xFF10,
            0x80,
        ).write(0xFF11, 0xBF).write(0xFF12, 0xF3).write(0xFF14, 0xBF).write(0xFF16, 0x3F).write(
            0xFF17,
            0x00,
        ).write(0xFF19, 0xBF).write(0xFF1A, 0x7F).write(0xFF1B, 0xFF).write(0xFF1C, 0x9F).write(
            0xFF1E,
            0xBF,
        ).write(0xFF20, 0xFF).write(0xFF21, 0x00).write(0xFF22, 0x00).write(0xFF23, 0xBF).write(
            0xFF24,
            0x77,
        ).write(0xFF25, 0xF3).write(0xFF26, 0xF1)
    }

    pub open spec fn reset_video(self) -> MemoryView {
        self.write(0xFF40, 0x91).write(0xFF42, 0x00).write(0xFF43, 0x00).write(0xFF45, 0x00).write(
            0xFF47,
            0xFC,
        ).write(0xFF48, 0xFF).write(0xFF49, 0xFF).write(0xFF4A, 0x00).write(0xFF4B, 0x00)
    }
}

/// The address after `addr`, wrapping from 0xFFFF to 0.
pub open spec fn next_addr(addr: u16) -> u16 {
    if addr == 0xFFFF {
        0
    } else {
        (addr + 1) as u16
    }
}

pub struct Memory {
    pub rom: Rom,
    pub gpu: Gpu,
    pub snd: Sound,
    pub wram: Vec<u8>,
    pub hram: Vec<u8>,
    pub io: IoRegs,
    pub serial_out: Vec<u8>,
}

impl View for Memory {
    type V = MemoryView;

    open spec fn view(&self) -> MemoryView {
        MemoryView {
            rom: self.rom@,
            gpu: self.gpu@,
            snd: self.snd@,
            wram: self.wram@,
            hram: self.hram@,
            io: self.io,
            serial_out: self.serial_out@,
        }
    }
}

/// A part of the machine that answers reads and writes of bytes at
/// addresses of the bus. Words are two bytes, low byte first.
pub trait MemoryType {
    /// The part as contracts see it.
    type Model;

    spec fn model(&self) -> Self::Model;

    /// The part is in a state that its operations keep.
    spec fn part_wf(&self) -> bool;

    /// Whether the part answers at `addr`.
    spec fn answers(addr: u16) -> bool;

    /// The byte that a read at `addr` returns.
    spec fn model_read(m: Self::Model, addr: u16) -> u8;

    /// The part after `val` is written at `addr`.
    spec fn model_write(m: Self::Model, addr: u16, val: u8) -> Self::Model;

    fn read_byte(&self, addr: u16) -> (val: u8)
        requires
            self.part_wf(),
            Self::answers(addr),
        ensures
            val == Self::model_read(self.model(), addr),
    ;

    fn write_byte(&mut self, addr: u16, val: u8)
        requires
            old(self).part_wf(),
            Self::answers(addr),
        ensures
            final(self).part_wf(),
            final(self).model() == Self::model_write(old(self).model(), addr, val),
    ;

    fn read_word(&self, addr: u16) -> (val: u16)
        requires
            self.part_wf(),
            Self::answers(addr),
            Self::answers(next_addr(addr)),
        ensures
            val == Self::model_read(self.model(), addr) + 256 * Self::model_read(
                self.model(),
                next_addr(addr),
            ),
    {
        let lsn: u16 = self.read_byte(addr) as u16;
        let msn: u16 = self.read_byte(addr.wrapping_add(1)) as u16;
        msn * 256 + lsn
    }

    fn write_word(&mut self, addr: u16, val: u16)
        requires
            old(self).part_wf(),
            Self::answers(addr),
            Self::answers(next_addr(addr)),
        ensures
            final(self).part_wf(),
            final(self).model() == Self::model_write(
                Self::model_write(old(self).model(), addr, (val % 256) as u8),
                next_addr(addr),
                (val / 256) as u8,
            ),
    {
        self.write_byte(addr, (val % 256) as u8);
        self.write_byte(addr.wrapping_add(1), (val / 256) as u8);
    }
}

impl MemoryType for Memory {
    type Model = MemoryView;

    open spec fn model(&self) -> MemoryView {
        self@
    }

    open spec fn part_wf(&self) -> bool {
        self.wf()
    }

    /// The bus answers everywhere.
    open spec fn answers(addr: u16) -> bool {
        true
    }

    open spec fn model_read(m: MemoryView, addr: u16) -> u8 {
        m.read(addr)
    }

    open spec fn model_write(m: MemoryView, addr: u16, val: u8) -> MemoryView {
        m.write(addr, val)
    }

    fn read_byte(&self, addr: u16) -> (val: u8) {
        Memory::read_byte(self, addr)
    }

    fn write_byte(&mut self, addr: u16, val: u8) {
        Memory::write_byte(self, addr, val)
    }
}

impl MemoryType for Gpu {
    type Model = GpuView;

    open spec fn model(&self) -> GpuView {
        self@
    }

    open spec fn part_wf(&self) -> bool {
        self.wf()
    }

    open spec fn answers(addr: u16) -> bool {
        Gpu::owns(addr)
    }

    open spec fn model_read(m: GpuView, addr: u16) -> u8 {
        m.read(addr)
    }

    open spec fn model_write(m: GpuView, addr: u16, val: u8) -> GpuView {
        m.write(addr, val)
    }

    fn read_byte(&self, addr: u16) -> (val: u8) {
        Gpu::read_byte(self, addr)
    }

    fn write_byte(&mut self, addr: u16, val: u8) {
        Gpu::write_byte(self, addr, val)
    }
}

impl MemoryType for Rom {
    type Model = RomView;

    open spec fn model(&self) -> RomView {
        self@
    }

    open spec fn part_wf(&self) -> bool {
        self.wf()
    }

    open spec fn answers(addr: u16) -> bool {
        addr < 0x8000 || 0xA000 <= addr < 0xC000
    }

    open spec fn model_read(m: RomView, addr: u16) -> u8 {
        m.read(addr)
    }

    open spec fn model_write(m: RomView, addr: u16, val: u8) -> RomView {
        m.write(addr, val)
    }

    fn read_byte(&self, addr: u16) -> (val: u8) {
        Rom::read_byte(self, addr)
    }

    fn write_byte(&mut self, addr: u16, val: u8) {
        Rom::write_byte(self, addr, val)
    }
}

impl MemoryType for Sound {
    type Model = SoundView;

    open spec fn model(&self) -> SoundView {
        self@
    }

    open spec fn part_wf(&self) -> bool {
        self.wf()
    }

    open spec fn answers(addr: u16) -> bool {
        0xFF10 <= addr < 0xFF40
    }

    open spec fn model_read(m: SoundView, addr: u16) -> u8 {
        m.read(addr)
    }

    open spec fn model_write(m: SoundView, addr: u16, val: u8) -> SoundView {
        m.write(addr, val)
    }

    fn read_byte(&self, addr: u16) -> (val: u8) {
        Sound::read_byte(self, addr)
    }

    fn write_byte(&mut self, addr: u16, val: u8) {
        Sound::write_byte(self, addr, val)
    }
}

impl Memory {
    pub open spec fn wf(&self) -> bool {
        &&& self@.wf()
        &&& self.gpu.wf()
    }

    pub fn read_byte(&self, addr: u16) -> (val: u8)
        requires
            self.wf(),
        ensures
            val == self@.read(addr),
    {
        reveal(MemoryView::read);
        match addr {
            0x0000..=0x7fff => self.rom.read_byte(addr),
            0x8000..=0x9fff => self.gpu.read_byte(addr),
            0xa000..=0xbfff => self.rom.read_byte(addr),
            0xc000..=0xdfff => self.wram[(addr - 0xc000) as usize],
            0xe000..=0xfdff => self.wram[(addr - 0xe000) as usize],
            0xfe00..=0xfe9f => self.gpu.read_byte(addr),
            0xfea0..=0xfeff => 0,
            0xff00 => self.joypad_lines(),
            0xff01 => self.io.serial_transfer_data,
            0xff02 => self.io.serial_transfer_control,
            0xff04 => self.io.div_register,
            0xff05 => self.io.timer_counter,
            0xff06 => self.io.timer_modulo,
            0xff07 => self.io.timer_control,
            0xff0f => self.io.interupt_flag + 0xE0,
            0xff10..=0xff3f => self.snd.read_byte(addr),
            0xff40..=0xff4b => self.gpu.read_byte(addr),
            0xff80..=0xfffe => self.hram[(addr - 0xff80) as usize],
            0xffff => self.io.interupt_enable,
            _ => 0,
        }
    }

    fn direction_bit_of(k: u8) -> (n: u8)
        requires
            k < 4,
        ensures
            n == direction_bit(k as int),
            n < 8,
    {
        if k == 0 {
            7
        } else if k == 1 {
            6
        } else if k == 2 {
            4
        } else {
            5
        }
    }

    /// What the joypad register shows for the buttons held down.
    pub fn joypad_lines(&self) -> (val: u8)
        ensures
            val == self.io.joypad_read(),
    {
        let directions: bool = !is_bit_set(self.io.joypad, 4);
        let actions: bool = !is_bit_set(self.io.joypad, 5);
        let mut lines: u8 = (self.io.joypad / 16) * 16;
        let mut k: u8 = 0;
        let mut w: u8 = 1;
        while k < 4
            invariant
                k <= 4,
                w == weight(k as int),
                directions == !bit(self.io.joypad as int, 4),
                actions == !bit(self.io.joypad as int, 5),
                lines == (self.io.joypad / 16) * 16 + (if k > 0 && self.io.joypad_line(0) {
                    1int
                } else {
                    0int
                }) + (if k > 1 && self.io.joypad_line(1) {
                    2int
                } else {
                    0int
                }) + (if k > 2 && self.io.joypad_line(2) {
                    4int
                } else {
                    0int
                }) + (if k > 3 && self.io.joypad_line(3) {
                    8int
                } else {
                    0int
                }),
            decreases 4 - k,
        {
            let held: bool = (directions && is_bit_set(
                self.io.buttons,
                Self::direction_bit_of(k),
            )) || (actions && is_bit_set(self.io.buttons, k));
            if !held {
                lines = lines + w;
            }
            k = k + 1;
            w = w * 2;
        }
        lines
    }

    pub fn write_byte(&mut self, addr: u16, val: u8)
        requires
            old(self).wf(),
        ensures
            final(self).wf(),
            final(self)@ == old(self)@.write(addr, val),
    {
        reveal(MemoryView::write);
        match addr {
            0x0000..=0x7fff => self.rom.write_byte(addr, val),
            0x8000..=0x9fff => self.gpu.write_byte(addr, val),
            0xa000..=0xbfff => self.rom.write_byte(addr, val),
            0xc000..=0xdfff => {
                self.wram[(addr - 0xc000) as usize] = val;
            },
            0xe000..=0xfdff => {
                self.wram[(addr - 0xe000) as usize] = val;
            },
            0xfe00..=0xfe9f => self.gpu.write_byte(addr, val),
            0xfea0..=0xfeff => {},
            0xff00 => {
                self.io.joypad = val;
            },
            0xff01 => {
                self.io.serial_transfer_data = val;
            },
            0xff02 => {
                if val == 0x81 {
                    self.serial_out.push(self.io.serial_transfer_data);
                    self.io.serial_transfer_control = 0;
                } else {
                    self.io.serial_transfer_control = val;
                }
            },
            0xff04 => {
                self.io.div_register = 0;
                self.io.div_clock = 0;
            },
            0xff05 => {
                self.io.timer_counter = val;
            },
            0xff06 => {
                self.io.timer_modulo = val;
            },
            0xff07 => {
                self.io.timer_control = val;
                self.io.timer_clock = 0;
            },
            0xff0f => {
                self.io.interupt_flag = val % 32;
            },
            0xff10..=0xff3f => self.snd.write_byte(addr, val),
            0xff46 => self.dma_transfer(val),
            0xff40..=0xff4b => self.gpu.write_byte(addr, val),
            0xff80..=0xfffe => {
                self.hram[(addr - 0xff80) as usize] = val;
            },
            0xffff => {
                self.io.interupt_enable = val % 32;
            },
            _ => {},
        }
    }

    /// An OAM DMA transfer: the 160 bytes of page `page` are copied into
    /// object memory.
    pub fn dma_transfer(&mut self, page: u8)
        requires
            old(self).wf(),
        ensures
            final(self).wf(),
            final(self)@ == old(self)@.write(0xFF46, page),
    {
        reveal(MemoryView::write);
        let start: u16 = (page as u16) * 0x100;
        let mut bytes: Vec<u8> = Vec::new();
        let mut i: u16 = 0;
        while i < 0xA0
            invariant
                i <= 0xA0,
                start == page * 0x100,
                self.wf(),
                bytes@.len() == i,
                forall|j: int|
                    0 <= j < i ==> (#[trigger] bytes@[j]) == self@.read((page * 0x100 + j) as u16),
            decreases 0xA0 - i,
        {
            bytes.push(self.read_byte(start + i));
            i = i + 1;
        }
        assert(bytes@ =~= self@.dma_source(page));
        self.gpu.write_byte(0xFF46, page);
        self.gpu.load_oam(&bytes);
    }

    /// A bus with no cartridge and the registers as the boot program
    /// leaves them.
    pub fn new() -> (mem: Memory)
        ensures
            mem.wf(),
            mem@ == MemoryView::power_on().reset(),
    {
        let mut mem = Memory {
            rom: Rom::new(),
            gpu: Gpu::new(),
            snd: Sound::new(),
            wram: vec![0u8; WRAM_SIZE],
            hram: vec![0u8; HRAM_SIZE],
            io: IoRegs {
                interupt_enable: 0,
                interupt_flag: 0,
                joypad: 0,
                buttons: 0,
                serial_transfer_data: 0,
                serial_transfer_control: 0,
                div_register: 0,
                div_clock: 0,
                timer_counter: 0,
                timer_modulo: 0,
                timer_control: 0,
                timer_clock: 0,
            },
            serial_out: Vec::new(),
        };
        assert(mem@.wram =~= MemoryView::power_on().wram);
        assert(mem@.hram =~= MemoryView::power_on().hram);
        assert(mem@.serial_out =~= MemoryView::power_on().serial_out);
        mem.reset();
        mem
    }

    /// Puts a cartridge image on the bus. Refused images leave the bus
    /// as it was.
    pub fn load(&mut self, data: Vec<u8>, cartridge_info: &Cartridge) -> (r: Result<
        (),
        CartridgeError,
    >)
        requires
            old(self).wf(),
        ensures
            final(self).wf(),
            r == rom::load_outcome(data@, *cartridge_info),
            r.is_ok() ==> final(self)@ == (MemoryView {
                rom: RomView::loaded(data@, *cartridge_info),
                ..old(self)@
            }),
            r.is_err() ==> final(self)@ == old(self)@,
    {
        self.rom.load(data.as_slice(), cartridge_info)
    }

    /// Gives the registers the values that the boot program leaves in
    /// them. RAM keeps its contents.
    pub fn reset(&mut self)
        requires
            old(self).wf(),
        ensures
            final(self).wf(),
            final(self)@ == old(self)@.reset(),
    {
        self.reset_sound();
        self.reset_video();
        self.write_byte(0xFFFF, 0x00);
        self.write_byte(0xFF0F, 0xE1);
    }

    fn reset_sound(&mut self)
        requires
            old(self).wf(),
        ensures
            final(self).wf(),
            final(self)@ == old(self)@.reset_sound(),
    {
        self.write_byte(0xFF00, 0x0F);
        self.write_byte(0xFF05, 0x00);
        self.write_byte(0xFF06, 0x00);
        self.write_byte(0xFF07, 0x00);
        self.write_byte(0xFF10, 0x80);
        self.write_byte(0xFF11, 0xBF);
        self.write_byte(0xFF12, 0xF3);
        self.write_byte(0xFF14, 0xBF);
        self.write_byte(0xFF16, 0x3F);
        self.write_byte(0xFF17, 0x00);
        self.write_byte(0xFF19, 0xBF);
        self.write_byte(0xFF1A, 0x7F);
        self.write_byte(0xFF1B, 0xFF);
        self.write_byte(0xFF1C, 0x9F);
        self.write_byte(0xFF1E, 0xBF);
        self.write_byte(0xFF20, 0xFF);
        self.write_byte(0xFF21, 0x00);
        self.write_byte(0xFF22, 0x00);
        self.write_byte(0xFF23, 0xBF);
        self.write_byte(0xFF24, 0x77);
        self.write_byte(0xFF25, 0xF3);
        self.write_byte(0xFF26, 0xF1);
    }

    fn reset_video(&mut self)
        requires
            old(self).wf(),
        ensures
            final(self).wf(),
            final(self)@ == old(self)@.reset_video(),
    {
        self.write_byte(0xFF40, 0x91);
        self.write_byte(0xFF42, 0x00);
        self.write_byte(0xFF43, 0x00);
        self.write_byte(0xFF45, 0x00);
        self.write_byte(0xFF47, 0xFC);
        self.write_byte(0xFF48, 0xFF);
        self.write_byte(0xFF49, 0xFF);
        self.write_byte(0xFF4A, 0x00);
        self.write_byte(0xFF4B, 0x00);
    }

    /// Runs the timer and the picture unit for `clock_t` cycles and
    /// flags the interrupts they ask for.
    pub fn tick(&mut self, clock_t: u32)
        requires
            old(self).wf(),
        ensures
            final(self).wf(),
            final(self)@ == old(self)@.tick(clock_t as nat),
    {
        self.update_special_registers(clock_t);
        let interrupts: u8 = self.gpu.tick(clock_t);
        if interrupts % 2 == 1 {
            self.io.interupt_flag = set_bit_of(self.io.interupt_flag, 0);
        }
        if interrupts >= 2 {
            self.io.interupt_flag = set_bit_of(self.io.interupt_flag, 1);
        }
    }

    /// Runs the divider and the timer for `clock_t` cycles. Says
    /// whether TIMA passed 0xFF.
    pub fn update_special_registers(&mut self, clock_t: u32) -> (overflow: bool)
        requires
            old(self).wf(),
        ensures
            final(self).wf(),
            final(self)@ == (MemoryView {
                io: old(self).io.run_timer(clock_t as int),
                ..old(self)@
            }),
            overflow == (old(self).io.timer_enabled() && old(self).io.timer_overflows(
                clock_t as int,
            )),
    {
        let divided: u64 = self.io.div_clock as u64 + clock_t as u64;
        let enabled: bool = is_bit_set(self.io.timer_control, 2);
        let period: u64 = Self::period_of(self.io.timer_control);
        let timed: u64 = self.io.timer_clock as u64 + clock_t as u64;
        self.io.div_register = ((self.io.div_register as u64 + divided / 256) % 256) as u8;
        self.io.div_clock = (divided % 256) as u32;
        if !enabled {
            return false;
        }
        self.io.timer_clock = (timed % period) as u32;
        let count: u64 = self.io.timer_counter as u64 + timed / period;
        if count < 256 {
            self.io.timer_counter = count as u8;
            false
        } else {
            let span: u64 = 256 - self.io.timer_modulo as u64;
            self.io.timer_counter = (self.io.timer_modulo as u64 + (count - 256) % span) as u8;
            self.io.interupt_flag = set_bit_of(self.io.interupt_flag, TIMER_INTERRUPT_BIT);
            true
        }
    }

    fn period_of(tac: u8) -> (period: u64)
        ensures
            period == timer_period(tac),
    {
        let rate: u8 = tac % 4;
        if rate == 0 {
            1024
        } else if rate == 1 {
            16
        } else if rate == 2 {
            64
        } else {
            256
        }
    }

    /// Records which buttons are held down: bits 0 to 7 are A, B,
    /// Select, Start, Up, Down, Left and Right.
    pub fn set_buttons(&mut self, buttons: u8)
        requires
            old(self).wf(),
        ensures
            final(self).wf(),
            final(self)@ == old(self)@.with_buttons(buttons),
    {
        self.io.buttons = buttons;
    }

    /// Whether a finished frame waits to be taken.
    pub fn frame_ready(&self) -> (ready: bool)
        ensures
            ready == (self.gpu.regs.can_draw && self.gpu.regs.lcd_on()),
    {
        self.gpu.regs.can_draw && self.gpu.lcd_operation()
    }

    /// Takes the finished frame, if there is one to show.
    pub fn take_frame(&mut self) -> (ready: bool)
        requires
            old(self).wf(),
        ensures
            final(self).wf(),
            ready == (old(self).gpu.regs.can_draw && old(self).gpu.regs.lcd_on()),
            final(self)@ == (MemoryView {
                gpu: GpuView {
                    regs: gpu::GpuRegs {
                        can_draw: old(self).gpu.regs.can_draw && !ready,
                        ..old(self).gpu.regs
                    },
                    ..old(self).gpu@
                },
                ..old(self)@
            }),
    {
        self.gpu.take_frame()
    }

    /// The squares to paint for the finished frame, if there is one to
    /// show. The frame is then taken.
    pub fn draw(&mut self) -> (painted: Option<Vec<Paint>>)
        requires
            old(self).wf(),
        ensures
            final(self).wf(),
            painted is Some == (old(self).gpu.regs.can_draw && old(self).gpu.regs.lcd_on()),
            final(self)@ == (MemoryView {
                gpu: GpuView {
                    regs: gpu::GpuRegs {
                        can_draw: old(self).gpu.regs.can_draw && painted is None,
                        ..old(self).gpu.regs
                    },
                    ..old(self).gpu@
                },
                ..old(self)@
            }),
            painted is Some ==> painted->0@.len() == 23040 && forall|i: int|
                0 <= i < 23040 ==> (#[trigger] painted->0@[i]) == frame_paint(
                    old(self)@.gpu.pixels[i],
                    i,
                ),
    {
        self.gpu.draw()
    }

    /// The finished frame as host colours, three bytes to the pixel, if
    /// there is a frame to show. The frame is then taken.
    pub fn draw_texture(&mut self) -> (bytes: Option<Vec<u8>>)
        requires
            old(self).wf(),
        ensures
            final(self).wf(),
            bytes is Some == (old(self).gpu.regs.can_draw && old(self).gpu.regs.lcd_on()),
            final(self)@ == (MemoryView {
                gpu: GpuView {
                    regs: gpu::GpuRegs {
                        can_draw: old(self).gpu.regs.can_draw && bytes is None,
                        ..old(self).gpu.regs
                    },
                    ..old(self).gpu@
                },
                ..old(self)@
            }),
            bytes is Some ==> bytes->0@.len() == 3 * 23040 && forall|i: int|
                0 <= i < 3 * 23040 ==> (#[trigger] bytes->0@[i]) == channel(
                    rgba_of(old(self)@.gpu.pixels[i / 3], ColorScheme::BlackWhite),
                    i % 3,
                ),
    {
        self.gpu.draw_texture()
    }

    /// Hands out the bytes sent through the serial port since the last
    /// call.
    pub fn take_serial_output(&mut self) -> (bytes: Vec<u8>)
        requires
            old(self).wf(),
        ensures
            final(self).wf(),
            bytes@ == old(self)@.serial_out,
            final(self)@ == (MemoryView { serial_out: Seq::empty(), ..old(self)@ }),
    {
        let mut bytes: Vec<u8> = Vec::new();
        let mut i: usize = 0;
        while i < self.serial_out.len()
            invariant
                i <= self.serial_out@.len(),
                bytes@ == self.serial_out@.subrange(0, i as int),
                *self == *old(self),
            decreases self.serial_out@.len() - i,
        {
            bytes.push(self.serial_out[i]);
            assert(self.serial_out@.subrange(0, i as int).push(self.serial_out@[i as int])
                =~= self.serial_out@.subrange(0, i + 1));
            i = i + 1;
        }
        assert(bytes@ =~= self.serial_out@);
        self.serial_out.clear();
        assert(self@.serial_out =~= Seq::<u8>::empty());
        bytes
    }

    /// The letter that stands for a shade in a text dump.
    pub fn color_to_char(color: &GBColor) -> (s: &'static str)
        ensures
            s == dump::letter(*color),
    {
        match color {
            GBColor::White => "W",
            GBColor::LightGray => "L",
            GBColor::DarkGray => "D",
            GBColor::Black => "B",
        }
    }

    /// Every tile decoded, by tile, row and column.
    pub fn dump_tiles(&self) -> (tiles: Vec<Tile16>)
        requires
            self.wf(),
        ensures
            tiles@.len() == 384,
            forall|t: int, row: int, col: int|
                0 <= t < 384 && 0 <= row < 8 && 0 <= col < 8 ==> (#[trigger] tiles@[t]@[row]@[col])
                    == crate::video::color_of(gpu::tile_code(self@.gpu.vram, t, row, col)),
    {
        self.gpu.get_tiles()
    }

    pub fn debug_get_background_tilemap(&self) -> (map: Vec<u8>)
        requires
            self.wf(),
        ensures
            map@ == self@.gpu.vram.subrange(
                gpu::map_base(bit(self.gpu.regs.lcdc as int, 3)),
                gpu::map_base(bit(self.gpu.regs.lcdc as int, 3)) + 1024,
            ),
    {
        self.gpu.debug_get_background_tilemap()
    }

    pub fn debug_toggle_background(&mut self)
        requires
            old(self).wf(),
        ensures
            final(self).wf(),
            final(self)@ == (MemoryView {
                gpu: GpuView {
                    regs: gpu::GpuRegs {
                        show_background: !old(self).gpu.regs.show_background,
                        ..old(self).gpu.regs
                    },
                    ..old(self).gpu@
                },
                ..old(self)@
            }),
    {
        self.gpu.debug_toggle_background()
    }

    pub fn debug_toggle_window(&mut self)
        requires
            old(self).wf(),
        ensures
            final(self).wf(),
            final(self)@ == (MemoryView {
                gpu: GpuView {
                    regs: gpu::GpuRegs {
                        show_window: !old(self).gpu.regs.show_window,
                        ..old(self).gpu.regs
                    },
                    ..old(self).gpu@
                },
                ..old(self)@
            }),
    {
        self.gpu.debug_toggle_window()
    }

    pub fn debug_toggle_objects(&mut self)
        requires
            old(self).wf(),
        ensures
            final(self).wf(),
            final(self)@ == (MemoryView {
                gpu: GpuView {
                    regs: gpu::GpuRegs {
                        show_objects: !old(self).gpu.regs.show_objects,
                        ..old(self).gpu.regs
                    },
                    ..old(self).gpu@
                },
                ..old(self)@
            }),
    {
        self.gpu.debug_toggle_objects()
    }

    /// Turns on or off each layer of the picture whose argument is
    /// true.
    pub fn debug_toggle_layers(&mut self, background: bool, window: bool, objects: bool)
        requires
            old(self).wf(),
        ensures
            final(self).wf(),
            final(self)@ == (MemoryView {
                gpu: GpuView {
                    regs: gpu::GpuRegs {
                        show_background: old(self).gpu.regs.show_background != background,
                        show_window: old(self).gpu.regs.show_window != window,
                        show_objects: old(self).gpu.regs.show_objects != objects,
                        ..old(self).gpu.regs
                    },
                    ..old(self).gpu@
                },
                ..old(self)@
            }),
    {
        self.gpu.debug_toggle_layers(background, window, objects)
    }
}

} // verus!
