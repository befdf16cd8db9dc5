//! The sound registers at 0xFF10..0xFF40. No sound is produced: each
//! register keeps what was written to it and reads back through its mask.

use vstd::prelude::*;

verus! {

pub const SOUND_BASE: u16 = 0xFF10;

pub const SOUND_REGISTERS: usize = 0x30;

/// Whether a register answers at this address.
pub open spec fn is_sound_register(addr: u16) -> bool {
    &&& 0xFF10 <= addr < 0xFF40
    &&& addr != 0xFF15
    &&& addr != 0xFF1F
    &&& !(0xFF27 <= addr < 0xFF30)
}

/// The bits of a written byte that the register at `addr` keeps.
pub open spec fn write_mask(addr: u16) -> u8 {
    if !is_sound_register(addr) {
        0x00
    } else if addr == 0xFF1A {
        0x80
    } else if addr == 0xFF26 {
        0xF0
    } else {
        0xFF
    }
}

/// The bits of the register at `addr` that a read shows.
pub open spec fn read_mask(addr: u16) -> u8 {
    if !is_sound_register(addr) {
        0x00
    } else if addr == 0xFF11 || addr == 0xFF16 {
        0xC0
    } else if addr == 0xFF14 || addr == 0xFF19 || addr == 0xFF1E || addr == 0xFF23 {
        0x40
    } else if addr == 0xFF1A {
        0x80
    } else if addr == 0xFF1C {
        0x60
    } else if addr == 0xFF26 {
        0xF0
    } else {
        0xFF
    }
}

/// `val` seen through `mask`.
pub open spec fn masked(val: u8, mask: u8) -> u8 {
    if mask == 0xFF {
        val
    } else if mask == 0x00 {
        0
    } else {
        val & mask
    }
}

/// The registers as the bus sees them: one byte per address from 0xFF10.
pub struct SoundView {
    pub regs: Seq<u8>,
}

impl SoundView {
    pub open spec fn read(self, addr: u16) -> u8 {
        masked(self.regs[addr - 0xFF10], read_mask(addr))
    }

    pub open spec fn write(self, addr: u16, val: u8) -> SoundView {
        if is_sound_register(addr) {
            SoundView { regs: self.regs.update(addr - 0xFF10, masked(val, write_mask(addr))) }
        } else {
            self
        }
    }

    /// Every register 0 but the on/off register, which holds 0xF1.
    pub open spec fn initial() -> SoundView {
        SoundView { regs: Seq::new(0x30, |i: int| if i == 0x16 { 0xF1u8 } else { 0u8 }) }
    }
}

pub struct Sound {
    pub regs: Vec<u8>,
}

impl View for Sound {
    type V = SoundView;

    open spec fn view(&self) -> SoundView {
        SoundView { regs: self.regs@ }
    }
}

fn read_mask_exec(addr: u16) -> (mask: u8)
    ensures
        mask == read_mask(addr),
{
    match addr {
        0xFF15 | 0xFF1F | 0xFF27..=0xFF2F => 0x00,
        0xFF11 | 0xFF16 => 0xC0,
        0xFF14 | 0xFF19 | 0xFF1E | 0xFF23 => 0x40,
        0xFF1A => 0x80,
        0xFF1C => 0x60,
        0xFF26 => 0xF0,
        0xFF10..=0xFF3F => 0xFF,
        _ => 0x00,
    }
}

fn write_mask_exec(addr: u16) -> (mask: u8)
    ensures
        mask == write_mask(addr),
{
    match addr {
        0xFF15 | 0xFF1F | 0xFF27..=0xFF2F => 0x00,
        0xFF1A => 0x80,
        0xFF26 => 0xF0,
        0xFF10..=0xFF3F => 0xFF,
        _ => 0x00,
    }
}

fn masked_exec(val: u8, mask: u8) -> (r: u8)
    ensures
        r == masked(val, mask),
{
    if mask == 0xFF {
        val
    } else if mask == 0x00 {
        0
    } else {
        val & mask
    }
}

impl Sound {
    pub open spec fn wf(&self) -> bool {
        self.regs@.len() == 0x30
    }

    pub fn new() -> (snd: Sound)
        ensures
            snd.wf(),
            snd@ == SoundView::initial(),
    {
        let mut regs: Vec<u8> = vec![0u8; SOUND_REGISTERS];
        regs[0x16] = 0xF1;
        let snd = Sound { regs };
        assert(snd@.regs =~= SoundView::initial().regs);
        snd
    }

    pub fn read_byte(&self, addr: u16) -> (val: u8)
        requires
            self.wf(),
            0xFF10 <= addr < 0xFF40,
        ensures
            val == self@.read(addr),
    {
        masked_exec(self.regs[(addr - SOUND_BASE) as usize], read_mask_exec(addr))
    }

    pub fn write_byte(&mut self, addr: u16, val: u8)
        requires
            old(self).wf(),
            0xFF10 <= addr < 0xFF40,
        ensures
            final(self).wf(),
            final(self)@ == old(self)@.write(addr, val),
    {
        let keep: u8 = write_mask_exec(addr);
        if keep != 0x00 {
            let stored: u8 = masked_exec(val, keep);
            self.regs[(addr - SOUND_BASE) as usize] = stored;
        }
    }
}

} // verus!
