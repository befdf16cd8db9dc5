//! The LR35902 processor: its registers and flags, the arithmetic behind
//! the instructions, the two opcode tables, interrupt dispatch and HALT.
//!
//! Every operation is stated as a function from the processor and the
//! bus before it to the processor and the bus after it.

pub mod execute;
pub mod execute_cb;
pub mod helpers;
pub mod helpers_cb;
pub mod laws;
pub mod step;
pub mod trace;

use vstd::prelude::*;
use crate::bits::{
    bit, clear_bit_of, is_bit_set, lemma_bit_update, set_bit_of, with_bit, without_bit,
};
use crate::memory::MemoryView;

verus! {

/// What became of one opcode.
#[derive(Clone, Copy, Debug)]
pub enum Instruction {
    /// Nothing was executed yet.
    Empty,
    /// The opcode ran. The fields are the opcode, the number to add to PC
    /// afterwards (0 where the instruction set PC itself), the cycles it
    /// took, and the operation's mnemonic.
    Valid(u8, u16, u32, &'static str),
    /// The opcode names no instruction.
    Invalid(u8),
}

#[derive(Clone, Copy, PartialEq, Eq, Debug, Structural)]
pub enum CpuError {
    /// The byte `opcode` fetched at `pc` names no instruction.
    IllegalOpcode { pc: u16, opcode: u8 },
}

#[derive(Clone, Copy, PartialEq, Eq, Debug, Structural)]
pub enum Register {
    A,
    B,
    C,
    D,
    E,
    H,
    L,
    F,
}

#[derive(Clone, Copy, PartialEq, Eq, Debug, Structural)]
pub enum Flag {
    Z,
    N,
    H,
    C,
}

impl Flag {
    /// The flag's bit in F.
    pub open spec fn index(self) -> int {
        match self {
            Flag::Z => 7,
            Flag::N => 6,
            Flag::H => 5,
            Flag::C => 4,
        }
    }

    pub fn bit_index(self) -> (n: u8)
        ensures
            n == self.index(),
    {
        match self {
            Flag::Z => 7,
            Flag::N => 6,
            Flag::H => 5,
            Flag::C => 4,
        }
    }
}

/// The high byte of a register pair.
pub open spec fn upper(reg: u16) -> u8 {
    (reg / 256) as u8
}

/// The low byte of a register pair.
pub open spec fn lower(reg: u16) -> u8 {
    (reg % 256) as u8
}

/// The register pair made of two bytes.
pub open spec fn pair(hi: u8, lo: u8) -> u16 {
    (hi * 256 + lo) as u16
}

/// The byte F that holds these four flags; its low four bits are 0.
pub open spec fn flags_byte(z: bool, n: bool, h: bool, c: bool) -> u8 {
    ((if z {
        0x80int
    } else {
        0int
    }) + (if n {
        0x40int
    } else {
        0int
    }) + (if h {
        0x20int
    } else {
        0int
    }) + (if c {
        0x10int
    } else {
        0int
    })) as u8
}

/// The byte `e` read as a signed number, -128 to 127.
pub open spec fn signed(e: u8) -> int {
    if e < 128 {
        e as int
    } else {
        e - 256
    }
}

/// `addr` moved by `delta`, wrapping around the 16-bit address space.
pub open spec fn offset(addr: u16, delta: int) -> u16 {
    ((addr + delta) % 0x10000) as u16
}

/// Cycles that dispatching an interrupt takes.
pub const DISPATCH_CYCLES: u32 = 20;

/// Cycles that pass in one step while the processor is halted.
pub const HALT_CYCLES: u32 = 4;

/// The address that interrupt `k` jumps to.
pub open spec fn interrupt_vector(k: int) -> u16 {
    (0x40 + 8 * k) as u16
}

#[allow(non_snake_case)]
pub struct Cpu {
    pub AF: u16,
    pub BC: u16,
    pub DE: u16,
    pub HL: u16,
    pub SP: u16,
    pub PC: u16,
    /// The interrupt master enable.
    pub IME: bool,
    pub HALT: bool,
    /// Set by EI: IME turns on once the next instruction has run.
    pub ime_pending: bool,
    /// Set when HALT was skipped with interrupts off and one pending:
    /// the next opcode is fetched without PC moving past it.
    pub halt_bug: bool,
    pub clock_m: u8,
    /// Cycles that the last step took.
    pub clock_t: u32,
    /// The interrupt that the last step dispatched, if it did.
    pub triggered_interruption: Option<u8>,
    pub last_instruction: Instruction,
    /// The trace line of the state before the last instruction.
    pub last_regs: String,
    /// Steps taken since the processor was made.
    pub operations: u128,
    /// Trace lines not yet handed out.
    pub doctor_buffer: Vec<String>,
}

/// The processor and the bus after one operation, and what the
/// operation was.
pub struct Step {
    pub cpu: Cpu,
    pub mem: MemoryView,
    pub instr: Instruction,
}

impl Cpu {
    /// F's low four bits are 0.
    pub open spec fn wf(self) -> bool {
        self.AF % 16 == 0
    }

    /// What is traced and counted is the same in both processors.
    pub open spec fn same_trace(self, other: Cpu) -> bool {
        &&& self.last_regs == other.last_regs
        &&& self.doctor_buffer == other.doctor_buffer
        &&& self.operations == other.operations
        &&& self.clock_m == other.clock_m
        &&& self.clock_t == other.clock_t
        &&& self.triggered_interruption == other.triggered_interruption
        &&& self.last_instruction == other.last_instruction
    }

    pub open spec fn a(self) -> u8 {
        upper(self.AF)
    }

    pub open spec fn f(self) -> u8 {
        lower(self.AF)
    }

    pub open spec fn flag(self, flag: Flag) -> bool {
        bit(lower(self.AF) as int, flag.index())
    }

    /// 1 where the carry flag is set, else 0.
    pub open spec fn carry(self) -> int {
        if self.flag(Flag::C) {
            1
        } else {
            0
        }
    }

    pub open spec fn reg(self, register: Register) -> u8 {
        match register {
            Register::A => upper(self.AF),
            Register::F => lower(self.AF),
            Register::B => upper(self.BC),
            Register::C => lower(self.BC),
            Register::D => upper(self.DE),
            Register::E => lower(self.DE),
            Register::H => upper(self.HL),
            Register::L => lower(self.HL),
        }
    }

    /// The processor with `val` in `register`. Of a value put in F only
    /// the high four bits are kept.
    pub open spec fn with_reg(self, register: Register, val: u8) -> Cpu {
        match register {
            Register::A => Cpu { AF: pair(val, lower(self.AF)), ..self },
            Register::F => Cpu { AF: pair(upper(self.AF), (val - val % 16) as u8), ..self },
            Register::B => Cpu { BC: pair(val, lower(self.BC)), ..self },
            Register::C => Cpu { BC: pair(upper(self.BC), val), ..self },
            Register::D => Cpu { DE: pair(val, lower(self.DE)), ..self },
            Register::E => Cpu { DE: pair(upper(self.DE), val), ..self },
            Register::H => Cpu { HL: pair(val, lower(self.HL)), ..self },
            Register::L => Cpu { HL: pair(upper(self.HL), val), ..self },
        }
    }

    /// The processor with `val` written to AF: F keeps its high four bits
    /// only.
    pub open spec fn with_af(self, val: u16) -> Cpu {
        Cpu { AF: (val - val % 16) as u16, ..self }
    }

    pub open spec fn with_flag(self, flag: Flag, val: bool) -> Cpu {
        Cpu {
            AF: pair(
                upper(self.AF),
                if val {
                    with_bit(lower(self.AF), flag.index())
                } else {
                    without_bit(lower(self.AF), flag.index())
                },
            ),
            ..self
        }
    }

    /// The processor with all four flags given.
    pub open spec fn with_flags(self, z: bool, n: bool, h: bool, c: bool) -> Cpu {
        Cpu { AF: pair(upper(self.AF), flags_byte(z, n, h, c)), ..self }
    }

    /// The processor with A and all four flags given.
    pub open spec fn with_a_flags(self, a: u8, z: bool, n: bool, h: bool, c: bool) -> Cpu {
        Cpu { AF: pair(a, flags_byte(z, n, h, c)), ..self }
    }

    /// The byte after the opcode at PC.
    pub open spec fn n(self, mem: MemoryView) -> u8 {
        mem.read(offset(self.PC, 1))
    }

    /// The word after the opcode at PC, low byte first.
    pub open spec fn nn(self, mem: MemoryView) -> u16 {
        mem.read_word(offset(self.PC, 1))
    }

    /// A processor just made: the registers as the boot program leaves
    /// them, interrupts off, nothing executed, nothing traced.
    pub open spec fn fresh(self) -> bool {
        &&& self.AF == 0x01B0
        &&& self.BC == 0x0013
        &&& self.DE == 0x00D8
        &&& self.HL == 0x014D
        &&& self.SP == 0xFFFE
        &&& self.PC == 0x0100
        &&& !self.IME
        &&& !self.HALT
        &&& !self.ime_pending
        &&& !self.halt_bug
        &&& self.clock_m == 0
        &&& self.clock_t == 1
        &&& self.triggered_interruption is None
        &&& self.last_instruction is Empty
        &&& self.last_regs@.len() == 0
        &&& self.operations == 0
        &&& self.doctor_buffer@.len() == 0
    }

    /// The registers as the boot program leaves them; what is traced and
    /// counted stays.
    pub open spec fn reset_spec(self) -> Cpu {
        Cpu {
            AF: 0x01B0,
            BC: 0x0013,
            DE: 0x00D8,
            HL: 0x014D,
            SP: 0xFFFE,
            PC: 0x0100,
            IME: false,
            HALT: false,
            ime_pending: false,
            halt_bug: false,
            clock_m: 0,
            clock_t: 1,
            triggered_interruption: None,
            last_instruction: Instruction::Empty,
            last_regs: self.last_regs,
            operations: self.operations,
            doctor_buffer: self.doctor_buffer,
        }
    }

    pub fn new() -> (cpu: Cpu)
        ensures
            cpu.wf(),
            cpu.fresh(),
    {
        let mut c = Cpu {
            AF: 0,
            BC: 0,
            DE: 0,
            HL: 0,
            SP: 0,
            PC: 0,
            IME: false,
            HALT: false,
            ime_pending: false,
            halt_bug: false,
            clock_m: 0,
            clock_t: 0,
            triggered_interruption: None,
            last_instruction: Instruction::Empty,
            last_regs: String::new(),
            operations: 0,
            doctor_buffer: Vec::new(),
        };
        c.reset();
        c
    }

    pub fn reset(&mut self)
        ensures
            *final(self) == old(self).reset_spec(),
            final(self).wf(),
    {
        self.AF = 0x01B0;
        self.BC = 0x0013;
        self.DE = 0x00D8;
        self.HL = 0x014D;
        self.SP = 0xFFFE;
        self.PC = 0x0100;
        self.clock_m = 0;
        self.clock_t = 1;
        self.IME = false;
        self.HALT = false;
        self.ime_pending = false;
        self.halt_bug = false;
        self.last_instruction = Instruction::Empty;
        self.triggered_interruption = None;
    }

    pub fn has_reached_operation_count(&self, count: u128) -> (reached: bool)
        ensures
            reached == (count != 0 && self.operations == count),
    {
        if count == 0 {
            return false;
        }
        self.operations == count
    }

    pub fn get_clock_t(&self) -> (t: u32)
        ensures
            t == self.clock_t,
    {
        self.clock_t
    }

    #[allow(non_snake_case)]
    pub fn PC(&self) -> (pc: u16)
        ensures
            pc == self.PC,
    {
        self.PC
    }

    pub fn get_upper(reg: u16) -> (r: u8)
        ensures
            r == upper(reg),
    {
        (reg / 256) as u8
    }

    pub fn get_lower(reg: u16) -> (r: u8)
        ensures
            r == lower(reg),
    {
        (reg % 256) as u8
    }

    pub fn set_upper(reg: u16, val: u8) -> (r: u16)
        ensures
            r == pair(val, lower(reg)),
    {
        (reg % 256) + (val as u16) * 256
    }

    pub fn set_lower(reg: u16, val: u8) -> (r: u16)
        ensures
            r == pair(upper(reg), val),
    {
        (reg / 256) * 256 + (val as u16)
    }

    pub fn get_a(&self) -> (r: u8)
        ensures
            r == self.reg(Register::A),
    {
        Self::get_upper(self.AF)
    }

    pub fn get_f(&self) -> (r: u8)
        ensures
            r == self.reg(Register::F),
    {
        Self::get_lower(self.AF)
    }

    pub fn get_b(&self) -> (r: u8)
        ensures
            r == self.reg(Register::B),
    {
        Self::get_upper(self.BC)
    }

    pub fn get_c(&self) -> (r: u8)
        ensures
            r == self.reg(Register::C),
    {
        Self::get_lower(self.BC)
    }

    pub fn get_d(&self) -> (r: u8)
        ensures
            r == self.reg(Register::D),
    {
        Self::get_upper(self.DE)
    }

    pub fn get_e(&self) -> (r: u8)
        ensures
            r == self.reg(Register::E),
    {
        Self::get_lower(self.DE)
    }

    pub fn get_h(&self) -> (r: u8)
        ensures
            r == self.reg(Register::H),
    {
        Self::get_upper(self.HL)
    }

    pub fn get_l(&self) -> (r: u8)
        ensures
            r == self.reg(Register::L),
    {
        Self::get_lower(self.HL)
    }

    pub fn set_reg(&mut self, register: Register, val: u8)
        ensures
            *final(self) == old(self).with_reg(register, val),
            old(self).wf() ==> final(self).wf(),
    {
        match register {
            Register::A => self.set_a(val),
            Register::F => self.set_f(val),
            Register::B => self.set_b(val),
            Register::C => self.set_c(val),
            Register::D => self.set_d(val),
            Register::E => self.set_e(val),
            Register::H => self.set_h(val),
            Register::L => self.set_l(val),
        }
    }

    pub fn get_reg(&self, register: Register) -> (r: u8)
        ensures
            r == self.reg(register),
    {
        match register {
            Register::A => self.get_a(),
            Register::F => self.get_f(),
            Register::B => self.get_b(),
            Register::C => self.get_c(),
            Register::D => self.get_d(),
            Register::E => self.get_e(),
            Register::H => self.get_h(),
            Register::L => self.get_l(),
        }
    }

    pub fn set_a(&mut self, val: u8)
        ensures
            *final(self) == old(self).with_reg(Register::A, val),
            old(self).wf() ==> final(self).wf(),
    {
        self.AF = Self::set_upper(self.AF, val);
    }

    pub fn set_f(&mut self, val: u8)
        ensures
            *final(self) == old(self).with_reg(Register::F, val),
            final(self).wf(),
    {
        self.AF = Self::set_lower(self.AF, val - val % 16);
    }

    /// Writes the pair AF; F keeps its high four bits only.
    pub fn set_af(&mut self, val: u16)
        ensures
            *final(self) == old(self).with_af(val),
            final(self).AF == val & 0xFFF0,
            final(self).wf(),
    {
        proof {
            lemma_af_mask(val);
        }
        self.AF = val - val % 16;
    }

    pub fn set_b(&mut self, val: u8)
        ensures
            *final(self) == old(self).with_reg(Register::B, val),
            old(self).wf() ==> final(self).wf(),
    {
        self.BC = Self::set_upper(self.BC, val);
    }

    pub fn set_c(&mut self, val: u8)
        ensures
            *final(self) == old(self).with_reg(Register::C, val),
            old(self).wf() ==> final(self).wf(),
    {
        self.BC = Self::set_lower(self.BC, val);
    }

    pub fn set_d(&mut self, val: u8)
        ensures
            *final(self) == old(self).with_reg(Register::D, val),
            old(self).wf() ==> final(self).wf(),
    {
        self.DE = Self::set_upper(self.DE, val);
    }

    pub fn set_e(&mut self, val: u8)
        ensures
            *final(self) == old(self).with_reg(Register::E, val),
            old(self).wf() ==> final(self).wf(),
    {
        self.DE = Self::set_lower(self.DE, val);
    }

    pub fn set_h(&mut self, val: u8)
        ensures
            *final(self) == old(self).with_reg(Register::H, val),
            old(self).wf() ==> final(self).wf(),
    {
        self.HL = Self::set_upper(self.HL, val);
    }

    pub fn set_l(&mut self, val: u8)
        ensures
            *final(self) == old(self).with_reg(Register::L, val),
            old(self).wf() ==> final(self).wf(),
    {
        self.HL = Self::set_lower(self.HL, val);
    }

    pub fn get_flag(&self, flag: Flag) -> (set: bool)
        ensures
            set == self.flag(flag),
    {
        is_bit_set(Self::get_lower(self.AF), flag.bit_index())
    }

    pub fn set_flag(&mut self, flag: Flag, val: bool)
        ensures
            *final(self) == old(self).with_flag(flag, val),
            old(self).wf() ==> final(self).wf(),
    {
        proof {
            lemma_bit_update(lower(self.AF), flag.index());
        }
        let low: u8 = Self::get_lower(self.AF);
        let changed: u8 = if val {
            set_bit_of(low, flag.bit_index())
        } else {
            clear_bit_of(low, flag.bit_index())
        };
        self.AF = Self::set_lower(self.AF, changed);
    }

    /// Sets all four flags at once.
    pub fn set_flags(&mut self, z: bool, n: bool, h: bool, c: bool)
        ensures
            *final(self) == old(self).with_flags(z, n, h, c),
            final(self).wf(),
    {
        let zero: u8 = if z {
            0x80
        } else {
            0
        };
        let subtract: u8 = if n {
            0x40
        } else {
            0
        };
        let half: u8 = if h {
            0x20
        } else {
            0
        };
        let carry: u8 = if c {
            0x10
        } else {
            0
        };
        self.AF = Self::set_lower(self.AF, zero + subtract + half + carry);
    }

    /// Sets A and all four flags at once.
    pub fn set_a_flags(&mut self, a: u8, z: bool, n: bool, h: bool, c: bool)
        ensures
            *final(self) == old(self).with_a_flags(a, z, n, h, c),
            final(self).wf(),
    {
        let zero: u16 = if z {
            0x80
        } else {
            0
        };
        let subtract: u16 = if n {
            0x40
        } else {
            0
        };
        let half: u16 = if h {
            0x20
        } else {
            0
        };
        let carry: u16 = if c {
            0x10
        } else {
            0
        };
        self.AF = (a as u16) * 256 + zero + subtract + half + carry;
    }

    pub fn reset_all_flags(&mut self)
        ensures
            *final(self) == old(self).with_flags(false, false, false, false),
            final(self).wf(),
    {
        self.AF = (self.AF / 256) * 256;
    }

    pub fn set_clocks(&mut self, m: u8, t: u32)
        ensures
            *final(self) == (Cpu { clock_m: m, clock_t: t, ..*old(self) }),
    {
        self.clock_m = m;
        self.clock_t = t;
    }
}

/// A word without its low four bits is the word under the mask 0xFFF0.
pub proof fn lemma_af_mask(val: u16)
    ensures
        val - val % 16 == val & 0xFFF0,
{
    assert(val - val % 16 == val & 0xFFF0) by (bit_vector);
}

/// Writing any word to AF and reading AF back gives the word under the
/// mask 0xFFF0: the low four bits of F are always 0.
pub proof fn lemma_af_round_trip(cpu: Cpu, val: u16)
    ensures
        cpu.with_af(val).AF == val & 0xFFF0,
        cpu.with_af(val).wf(),
        cpu.with_af(val).f() % 16 == 0,
{
    lemma_af_mask(val);
}

} // verus!
