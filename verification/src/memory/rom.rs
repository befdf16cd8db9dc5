//! The cartridge bank controller: ROM bytes, external RAM and the bank
//! registers that map them into the bus.
//!
//! Plain ROM and MBC1 cartridges are emulated. MBC2, MBC3 and MBC5 are not:
//! loading one is refused.

use vstd::prelude::*;
use vstd::slice::slice_to_vec;
use crate::cartridge::{Cartridge, CartridgeError, CartridgeType};

verus! {

pub const ROM_BANK_SIZE: usize = 0x4000;

pub const RAM_BANK_SIZE: usize = 0x2000;

/// MBC1 banking mode: 16 Mbit of ROM with 8 KiB of RAM, or 4 Mbit of ROM
/// with 32 KiB of RAM.
#[derive(Clone, Copy, PartialEq, Eq, Debug, Structural)]
pub enum MbcMode {
    Rom16Ram8,
    Rom4Ram32,
}

/// The registers of the bank controller.
#[derive(Clone, Copy, PartialEq, Eq, Debug, Structural)]
pub struct BankState {
    pub kind: CartridgeType,
    /// Low five bits of the ROM bank number; never 0.
    pub rom_bank_low: u8,
    /// The two bits above them.
    pub rom_bank_high: u8,
    pub ram_bank: u8,
    pub ram_enabled: bool,
    pub mode: MbcMode,
}

impl BankState {
    pub open spec fn wf(self) -> bool {
        &&& 1 <= self.rom_bank_low <= 31
        &&& self.rom_bank_high <= 3
        &&& self.ram_bank <= 3
    }

    /// The number of the ROM bank mapped at 0x4000.
    pub open spec fn rom_bank(self) -> int {
        self.rom_bank_high * 32 + self.rom_bank_low
    }

    /// Registers of a controller of the given kind before any write; RAM
    /// starts open only where `ram_open` says so.
    pub open spec fn initial(kind: CartridgeType, ram_open: bool) -> BankState {
        BankState {
            kind,
            rom_bank_low: 1,
            rom_bank_high: 0,
            ram_bank: 0,
            ram_enabled: ram_open,
            mode: MbcMode::Rom16Ram8,
        }
    }

    /// The registers after the byte `val` is written at `addr` in
    /// 0x0000..0x8000. Only an MBC1 reacts.
    pub open spec fn write(self, addr: u16, val: u8) -> BankState {
        if self.kind != CartridgeType::Mbc1 {
            self
        } else if addr < 0x2000 {
            BankState { ram_enabled: val % 16 == 0x0A, ..self }
        } else if addr < 0x4000 {
            BankState { rom_bank_low: if val % 32 == 0 { 1u8 } else { (val % 32) as u8 }, ..self }
        } else if addr < 0x6000 {
            if self.mode == MbcMode::Rom16Ram8 {
                BankState { rom_bank_high: (val % 4) as u8, ..self }
            } else {
                BankState { ram_bank: (val % 4) as u8, ..self }
            }
        } else {
            BankState {
                mode: if val % 2 == 0 { MbcMode::Rom16Ram8 } else { MbcMode::Rom4Ram32 },
                ..self
            }
        }
    }
}

/// The cartridge as the bus sees it.
pub struct RomView {
    pub rom: Seq<u8>,
    pub ram: Seq<u8>,
    pub bank: BankState,
}

impl RomView {
    /// How many whole 16 KiB banks the ROM holds.
    pub open spec fn rom_banks(self) -> int {
        self.rom.len() as int / 0x4000
    }

    /// Index into the ROM of the byte mapped at `addr` in 0x4000..0x8000.
    pub open spec fn switchable_index(self, addr: u16) -> int {
        (self.bank.rom_bank() % self.rom_banks()) * 0x4000 + (addr - 0x4000)
    }

    /// Index into external RAM of the byte mapped at `addr` in
    /// 0xA000..0xC000.
    pub open spec fn ram_index(self, addr: u16) -> int {
        self.bank.ram_bank * 0x2000 + (addr - 0xA000)
    }

    /// Whether `addr` reaches a byte of external RAM.
    pub open spec fn ram_reachable(self, addr: u16) -> bool {
        &&& 0xA000 <= addr < 0xC000
        &&& self.bank.ram_enabled
        &&& self.ram_index(addr) < self.ram.len()
    }

    /// The byte read at `addr`, for `addr` in 0x0000..0x8000 or
    /// 0xA000..0xC000. What is not backed by memory reads 0xFF.
    pub open spec fn read(self, addr: u16) -> u8 {
        if addr < 0x4000 {
            if addr < self.rom.len() {
                self.rom[addr as int]
            } else {
                0xFF
            }
        } else if addr < 0x8000 {
            if self.rom_banks() > 0 {
                self.rom[self.switchable_index(addr)]
            } else {
                0xFF
            }
        } else if self.ram_reachable(addr) {
            self.ram[self.ram_index(addr)]
        } else {
            0xFF
        }
    }

    /// The cartridge after `val` is written at `addr`: a write below 0x8000
    /// reaches the bank registers and never the ROM bytes; a write to
    /// 0xA000..0xC000 reaches external RAM when it is open.
    pub open spec fn write(self, addr: u16, val: u8) -> RomView {
        if addr < 0x8000 {
            RomView { bank: self.bank.write(addr, val), ..self }
        } else if self.ram_reachable(addr) {
            RomView { ram: self.ram.update(self.ram_index(addr), val), ..self }
        } else {
            self
        }
    }

    /// A controller with no cartridge: no ROM, and 8 KiB of open RAM.
    pub open spec fn empty() -> RomView {
        RomView {
            rom: Seq::empty(),
            ram: Seq::new(0x2000, |i: int| 0u8),
            bank: BankState::initial(CartridgeType::Invalid, true),
        }
    }

    /// A freshly loaded cartridge: the image as ROM, zeroed RAM of the
    /// header's size, RAM closed.
    pub open spec fn loaded(data: Seq<u8>, info: Cartridge) -> RomView {
        RomView {
            rom: data,
            ram: Seq::new(info.ram_size as nat, |i: int| 0u8),
            bank: BankState::initial(info.cartidge_type, false),
        }
    }
}

/// Whether a cartridge of this kind is emulated.
pub open spec fn supported(kind: CartridgeType) -> bool {
    kind == CartridgeType::RomOnly || kind == CartridgeType::Mbc1
}

/// Whether an image with this header can be loaded, and why not.
pub open spec fn load_outcome(data: Seq<u8>, info: Cartridge) -> Result<(), CartridgeError> {
    if data.len() != info.rom_size {
        Err(CartridgeError::BadHeader)
    } else if !supported(info.cartidge_type) {
        Err(CartridgeError::UnsupportedMbc)
    } else {
        Ok(())
    }
}

pub struct Rom {
    pub rom: Vec<u8>,
    pub external_ram: Vec<u8>,
    pub bank: BankState,
}

impl View for Rom {
    type V = RomView;

    open spec fn view(&self) -> RomView {
        RomView { rom: self.rom@, ram: self.external_ram@, bank: self.bank }
    }
}

impl Rom {
    pub open spec fn wf(&self) -> bool {
        self.bank.wf()
    }

    /// A controller with no cartridge in it.
    pub fn new() -> (rom: Rom)
        ensures
            rom.wf(),
            rom@ == RomView::empty(),
    {
        let rom = Rom {
            rom: Vec::new(),
            external_ram: vec![0u8; RAM_BANK_SIZE],
            bank: BankState {
                kind: CartridgeType::Invalid,
                rom_bank_low: 1,
                rom_bank_high: 0,
                ram_bank: 0,
                ram_enabled: true,
                mode: MbcMode::Rom16Ram8,
            },
        };
        assert(rom@.ram =~= RomView::empty().ram);
        assert(rom@.rom =~= RomView::empty().rom);
        rom
    }

    /// Takes a cartridge image whose header was read as `cartridge_info`.
    /// The image must be as long as the header says and of an emulated
    /// kind; otherwise nothing changes.
    pub fn load(&mut self, data: &[u8], cartridge_info: &Cartridge) -> (r: Result<
        (),
        CartridgeError,
    >)
        requires
            old(self).wf(),
        ensures
            final(self).wf(),
            r == load_outcome(data@, *cartridge_info),
            r.is_ok() ==> final(self)@ == RomView::loaded(data@, *cartridge_info),
            r.is_err() ==> final(self)@ == old(self)@,
    {
        if data.len() != cartridge_info.rom_size {
            return Err(CartridgeError::BadHeader);
        }
        let kind = cartridge_info.cartidge_type;
        let emulated: bool = match kind {
            CartridgeType::RomOnly => true,
            CartridgeType::Mbc1 => true,
            _ => false,
        };
        if !emulated {
            return Err(CartridgeError::UnsupportedMbc);
        }
        self.rom = slice_to_vec(data);
        self.external_ram = vec![0u8; cartridge_info.ram_size];
        self.bank = BankState {
            kind,
            rom_bank_low: 1,
            rom_bank_high: 0,
            ram_bank: 0,
            ram_enabled: false,
            mode: MbcMode::Rom16Ram8,
        };
        assert(self@.ram =~= RomView::loaded(data@, *cartridge_info).ram);
        Ok(())
    }

    /// The number of the ROM bank mapped at 0x4000.
    pub fn rom_bank(&self) -> (bank: u8)
        requires
            self.wf(),
        ensures
            bank == self.bank.rom_bank(),
    {
        self.bank.rom_bank_high * 32 + self.bank.rom_bank_low
    }

    pub fn read_byte(&self, addr: u16) -> (val: u8)
        requires
            self.wf(),
            addr < 0x8000 || 0xA000 <= addr < 0xC000,
        ensures
            val == self@.read(addr),
    {
        let at: usize = addr as usize;
        if at < 0x4000 {
            if at < self.rom.len() {
                self.rom[at]
            } else {
                0xFF
            }
        } else if at < 0x8000 {
            let banks: usize = self.rom.len() / ROM_BANK_SIZE;
            if banks > 0 {
                let bank: usize = (self.rom_bank() as usize) % banks;
                assert(bank * 0x4000 + 0x4000 <= self.rom.len()) by (nonlinear_arith)
                    requires
                        bank < banks,
                        banks == self.rom.len() / 0x4000,
                ;
                self.rom[bank * ROM_BANK_SIZE + (at - 0x4000)]
            } else {
                0xFF
            }
        } else {
            let index: usize = (self.bank.ram_bank as usize) * RAM_BANK_SIZE + (at - 0xA000);
            if self.bank.ram_enabled && index < self.external_ram.len() {
                self.external_ram[index]
            } else {
                0xFF
            }
        }
    }

    pub fn write_byte(&mut self, addr: u16, val: u8)
        requires
            old(self).wf(),
            addr < 0x8000 || 0xA000 <= addr < 0xC000,
        ensures
            final(self).wf(),
            final(self)@ == old(self)@.write(addr, val),
    {
        if addr < 0x8000 {
            self.write_mbc1(addr, val);
        } else {
            let index: usize = (self.bank.ram_bank as usize) * RAM_BANK_SIZE + (addr as usize
                - 0xA000);
            if self.bank.ram_enabled && index < self.external_ram.len() {
                self.external_ram[index] = val;
            }
        }
    }

    /// A write into the bank registers.
    pub fn write_mbc1(&mut self, addr: u16, val: u8)
        requires
            old(self).wf(),
            addr < 0x8000,
        ensures
            final(self).wf(),
            final(self).bank == old(self).bank.write(addr, val),
            final(self).rom == old(self).rom,
            final(self).external_ram == old(self).external_ram,
    {
        let is_mbc1: bool = match self.bank.kind {
            CartridgeType::Mbc1 => true,
            _ => false,
        };
        if !is_mbc1 {
            return ;
        }
        if addr < 0x2000 {
            self.bank.ram_enabled = val % 16 == 0x0A;
        } else if addr < 0x4000 {
            let low: u8 = val % 32;
            self.bank.rom_bank_low = if low == 0 { 1 } else { low };
        } else if addr < 0x6000 {
            let rom_mode: bool = match self.bank.mode {
                MbcMode::Rom16Ram8 => true,
                MbcMode::Rom4Ram32 => false,
            };
            if rom_mode {
                self.bank.rom_bank_high = val % 4;
            } else {
                self.bank.ram_bank = val % 4;
            }
        } else {
            self.bank.mode = if val % 2 == 0 { MbcMode::Rom16Ram8 } else { MbcMode::Rom4Ram32 };
        }
    }
}

} // verus!
