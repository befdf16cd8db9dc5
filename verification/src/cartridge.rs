//! The cartridge header: controller kind and the sizes of ROM and RAM.

use vstd::prelude::*;

verus! {

pub const KB: usize = 1024;

/// Offset of the first byte past the header.
pub const HEADER_END: usize = 0x150;

#[derive(Clone, Copy, PartialEq, Eq, Debug, Structural)]
pub enum CartridgeType {
    RomOnly,
    Mbc1,
    Mbc2,
    Mbc3,
    Mbc5,
    Invalid,
}

#[derive(Clone, Copy, PartialEq, Eq, Debug, Structural)]
pub enum CartridgeError {
    /// The image is shorter than its header, or its length or size codes
    /// do not fit together.
    BadHeader,
    /// The header names a bank controller that is not emulated.
    UnsupportedMbc,
}

#[derive(Clone, Copy, PartialEq, Eq, Debug, Structural)]
pub struct Cartridge {
    pub cartidge_type: CartridgeType,
    pub rom_size: usize,
    pub ram_size: usize,
}

/// The controller kind named by the type byte at 0x147.
pub open spec fn kind_of_code(val: int) -> CartridgeType {
    if val == 0x0 || val == 0x8 || val == 0x9 {
        CartridgeType::RomOnly
    } else if 0x1 <= val <= 0x3 {
        CartridgeType::Mbc1
    } else if val == 0x5 || val == 0x6 {
        CartridgeType::Mbc2
    } else if 0xF <= val <= 0x13 {
        CartridgeType::Mbc3
    } else if 0x19 <= val <= 0x1E {
        CartridgeType::Mbc5
    } else {
        CartridgeType::Invalid
    }
}

/// ROM bytes named by the size code at 0x148: 32 KiB doubled `code` times.
pub open spec fn rom_size_of_code(code: int) -> int
    decreases code,
{
    if code <= 0 {
        32768
    } else {
        2 * rom_size_of_code(code - 1)
    }
}

/// RAM bytes named by the size code at 0x149.
pub open spec fn ram_size_of_code(code: int) -> int
    recommends
        0 <= code <= 5,
{
    if code == 0 {
        0
    } else if code == 1 {
        2048
    } else if code == 2 {
        8192
    } else if code == 3 {
        32768
    } else if code == 4 {
        131072
    } else {
        65536
    }
}

/// A header is readable when the image reaches past it, both size codes are
/// known and the image is exactly as long as its ROM size code says.
pub open spec fn header_ok(data: Seq<u8>) -> bool {
    &&& data.len() >= HEADER_END
    &&& data[0x148] <= 8
    &&& data[0x149] <= 5
    &&& data.len() == rom_size_of_code(data[0x148] as int)
}

/// What a readable header says.
pub open spec fn header_of(data: Seq<u8>) -> Cartridge {
    Cartridge {
        cartidge_type: kind_of_code(data[0x147] as int),
        rom_size: rom_size_of_code(data[0x148] as int) as usize,
        ram_size: ram_size_of_code(data[0x149] as int) as usize,
    }
}

proof fn lemma_rom_sizes()
    ensures
        rom_size_of_code(0) == 32768,
        rom_size_of_code(1) == 65536,
        rom_size_of_code(2) == 131072,
        rom_size_of_code(3) == 262144,
        rom_size_of_code(4) == 524288,
        rom_size_of_code(5) == 1048576,
        rom_size_of_code(6) == 2097152,
        rom_size_of_code(7) == 4194304,
        rom_size_of_code(8) == 8388608,
{
    reveal_with_fuel(rom_size_of_code, 10);
}

impl CartridgeType {
    pub fn from_u32(val: u32) -> (kind: CartridgeType)
        ensures
            kind == kind_of_code(val as int),
    {
        match val {
            0x0 | 0x8 | 0x9 => CartridgeType::RomOnly,
            0x1 | 0x2 | 0x3 => CartridgeType::Mbc1,
            0x5 | 0x6 => CartridgeType::Mbc2,
            0xF | 0x12 | 0x13 | 0x10 | 0x11 => CartridgeType::Mbc3,
            0x19 | 0x1A | 0x1B | 0x1C | 0x1D | 0x1E => CartridgeType::Mbc5,
            _ => CartridgeType::Invalid,
        }
    }
}

impl Cartridge {
    /// Reads the header of a cartridge image.
    pub fn new(data: &Vec<u8>) -> (r: Result<Cartridge, CartridgeError>)
        ensures
            header_ok(data@) ==> r == Ok::<Cartridge, CartridgeError>(header_of(data@)),
            !header_ok(data@) ==> r == Err::<Cartridge, CartridgeError>(CartridgeError::BadHeader),
    {
        if data.len() < HEADER_END {
            return Err(CartridgeError::BadHeader);
        }
        let rom_code: u8 = data[0x148];
        let ram_code: u8 = data[0x149];
        if rom_code > 8 || ram_code > 5 {
            return Err(CartridgeError::BadHeader);
        }
        proof {
            lemma_rom_sizes();
        }
        let rom_size: usize = if rom_code == 0 {
            32 * KB
        } else if rom_code == 1 {
            64 * KB
        } else if rom_code == 2 {
            128 * KB
        } else if rom_code == 3 {
            256 * KB
        } else if rom_code == 4 {
            512 * KB
        } else if rom_code == 5 {
            KB * KB
        } else if rom_code == 6 {
            2 * KB * KB
        } else if rom_code == 7 {
            4 * KB * KB
        } else {
            8 * KB * KB
        };
        if data.len() != rom_size {
            return Err(CartridgeError::BadHeader);
        }
        let ram_size: usize = if ram_code == 0 {
            0
        } else if ram_code == 1 {
            2 * KB
        } else if ram_code == 2 {
            8 * KB
        } else if ram_code == 3 {
            32 * KB
        } else if ram_code == 4 {
            128 * KB
        } else {
            64 * KB
        };
        Ok(
            Cartridge {
                cartidge_type: CartridgeType::from_u32(data[0x147] as u32),
                rom_size,
                ram_size,
            },
        )
    }
}

impl CartridgeError {
    /// What to tell the user.
    pub open spec fn message_spec(self) -> &'static str {
        match self {
            CartridgeError::BadHeader => "the cartridge image has no valid header",
            CartridgeError::UnsupportedMbc => "the cartridge's bank controller is not supported",
        }
    }

    pub fn message(&self) -> (text: &'static str)
        ensures
            text == self.message_spec(),
    {
        match self {
            CartridgeError::BadHeader => "the cartridge image has no valid header",
            CartridgeError::UnsupportedMbc => "the cartridge's bank controller is not supported",
        }
    }
}

} // verus!
