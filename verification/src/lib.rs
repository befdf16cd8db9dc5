//! A Game Boy (DMG) core: the LR35902 interpreter, the memory bus with its
//! bank controller, the scanline picture unit and the timer, each with a
//! machine-checked contract over a mathematical model of its state.

pub mod bits;
pub mod cartridge;
pub mod cpu;
pub mod emulator;
pub mod input;
pub mod memory;
pub mod video;
