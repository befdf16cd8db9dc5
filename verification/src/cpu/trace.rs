//! The register trace: one line per instruction, all numbers in
//! upper-case hexadecimal of fixed width.

use vstd::prelude::*;
use vstd::string::{StrSliceExecFns, StringExecFns};
use crate::memory::{Memory, MemoryView};
use super::{lower, offset, upper, Cpu, CpuError, Instruction, Register};

verus! {

/// Lines that the trace buffer holds before it asks to be written out.
pub const DOCTOR_BUFFER_LINES: usize = 1000;

/// The hexadecimal digit for `d`, 0 to 15.
pub open spec fn hex_digit(d: int) -> &'static str {
    if d == 0 {
        "0"
    } else if d == 1 {
        "1"
    } else if d == 2 {
        "2"
    } else if d == 3 {
        "3"
    } else if d == 4 {
        "4"
    } else if d == 5 {
        "5"
    } else if d == 6 {
        "6"
    } else if d == 7 {
        "7"
    } else if d == 8 {
        "8"
    } else if d == 9 {
        "9"
    } else if d == 10 {
        "A"
    } else if d == 11 {
        "B"
    } else if d == 12 {
        "C"
    } else if d == 13 {
        "D"
    } else if d == 14 {
        "E"
    } else {
        "F"
    }
}

/// A byte as two hexadecimal digits.
pub open spec fn hex8(v: u8) -> Seq<char> {
    hex_digit(v as int / 16)@ + hex_digit(v as int % 16)@
}

/// A word as four hexadecimal digits.
pub open spec fn hex16(v: u16) -> Seq<char> {
    hex8(upper(v)) + hex8(lower(v))
}

/// The binary digit for a bit.
pub open spec fn binary_digit(set: bool) -> &'static str {
    if set {
        "1"
    } else {
        "0"
    }
}

/// The high four bits of a byte as four binary digits.
pub open spec fn binary4(v: u8) -> Seq<char> {
    binary_digit(crate::bits::bit(v as int, 7))@ + binary_digit(crate::bits::bit(v as int, 6))@
        + binary_digit(crate::bits::bit(v as int, 5))@ + binary_digit(
        crate::bits::bit(v as int, 4),
    )@
}

/// The name of interrupt `k`.
pub open spec fn interrupt_name(k: int) -> &'static str {
    if k == 0 {
        "LCD vertical blanking impulse"
    } else if k == 1 {
        "LY=LYC"
    } else if k == 2 {
        "Timer overflow"
    } else if k == 3 {
        "End of serial I/O transfer"
    } else {
        "Transition High->Low on the joypad pins"
    }
}

pub fn hex_digit_str(d: u8) -> (s: &'static str)
    requires
        d < 16,
    ensures
        s == hex_digit(d as int),
{
    if d == 0 {
        "0"
    } else if d == 1 {
        "1"
    } else if d == 2 {
        "2"
    } else if d == 3 {
        "3"
    } else if d == 4 {
        "4"
    } else if d == 5 {
        "5"
    } else if d == 6 {
        "6"
    } else if d == 7 {
        "7"
    } else if d == 8 {
        "8"
    } else if d == 9 {
        "9"
    } else if d == 10 {
        "A"
    } else if d == 11 {
        "B"
    } else if d == 12 {
        "C"
    } else if d == 13 {
        "D"
    } else if d == 14 {
        "E"
    } else {
        "F"
    }
}

/// The name of the interrupt numbered `k`.
pub fn interrupt_name_of(k: u8) -> (s: &'static str)
    ensures
        s == interrupt_name(k as int),
{
    if k == 0 {
        "LCD vertical blanking impulse"
    } else if k == 1 {
        "LY=LYC"
    } else if k == 2 {
        "Timer overflow"
    } else if k == 3 {
        "End of serial I/O transfer"
    } else {
        "Transition High->Low on the joypad pins"
    }
}

fn push_hex8(s: &mut String, v: u8)
    ensures
        final(s)@ == old(s)@ + hex8(v),
{
    s.append(hex_digit_str(v / 16));
    s.append(hex_digit_str(v % 16));
    assert(s@ =~= old(s)@ + hex8(v));
}

fn push_hex16(s: &mut String, v: u16)
    ensures
        final(s)@ == old(s)@ + hex16(v),
{
    push_hex8(s, (v / 256) as u8);
    push_hex8(s, (v % 256) as u8);
    assert(s@ =~= old(s)@ + hex16(v));
}

fn push_field8(s: &mut String, label: &'static str, v: u8)
    ensures
        final(s)@ == old(s)@ + label@ + hex8(v),
{
    s.append(label);
    push_hex8(s, v);
}

fn push_field16(s: &mut String, label: &'static str, v: u16)
    ensures
        final(s)@ == old(s)@ + label@ + hex16(v),
{
    s.append(label);
    push_hex16(s, v);
}

impl Cpu {
    /// The eight registers of a trace line, A first.
    #[verifier::opaque]
    pub open spec fn doctor_registers(self) -> Seq<char> {
        "A:"@ + hex8(self.reg(Register::A)) + " F:"@ + hex8(self.reg(Register::F)) + " B:"@ + hex8(
            self.reg(Register::B),
        ) + " C:"@ + hex8(self.reg(Register::C)) + " D:"@ + hex8(self.reg(Register::D)) + " E:"@
            + hex8(self.reg(Register::E)) + " H:"@ + hex8(self.reg(Register::H)) + " L:"@ + hex8(
            self.reg(Register::L),
        )
    }

    /// The first part of a trace line: the registers, SP and PC.
    #[verifier::opaque]
    pub open spec fn doctor_head(self) -> Seq<char> {
        self.doctor_registers() + " SP:"@ + hex16(self.SP) + " PC:"@ + hex16(self.PC)
    }

    /// The trace line of the processor: the registers, SP, PC and the
    /// four bytes at PC.
    #[verifier::opaque]
    pub open spec fn doctor_line(self, mem: MemoryView) -> Seq<char> {
        self.doctor_head() + " PCMEM:"@ + hex8(mem.read(self.PC)) + ","@ + hex8(
            mem.read(offset(self.PC, 1)),
        ) + ","@ + hex8(mem.read(offset(self.PC, 2))) + ","@ + hex8(mem.read(offset(self.PC, 3)))
    }

    /// The line that shows the processor in the debugger: PC and SP
    /// first, F as its four flags, then the word after the opcode.
    #[verifier::opaque]
    pub open spec fn registers_line(self, mem: MemoryView) -> Seq<char> {
        "PC:"@ + hex16(self.PC) + " SP:"@ + hex16(self.SP) + " A:"@ + hex8(self.reg(Register::A))
            + " F:"@ + binary4(self.reg(Register::F)) + " B:"@ + hex8(self.reg(Register::B))
            + " C:"@ + hex8(self.reg(Register::C)) + " D:"@ + hex8(self.reg(Register::D)) + " E:"@
            + hex8(self.reg(Register::E)) + " H:"@ + hex8(self.reg(Register::H)) + " L:"@ + hex8(
            self.reg(Register::L),
        ) + " nn:"@ + hex16(self.nn(mem))
    }

    pub fn clean_hex_8(v: u8) -> (s: String)
        ensures
            s@ == hex8(v),
    {
        let mut s = String::new();
        push_hex8(&mut s, v);
        assert(s@ =~= hex8(v));
        s
    }

    pub fn clean_hex_16(v: u16) -> (s: String)
        ensures
            s@ == hex16(v),
    {
        let mut s = String::new();
        push_hex16(&mut s, v);
        assert(s@ =~= hex16(v));
        s
    }

    /// The high four bits of `v` in binary.
    pub fn clean_b_8(v: u8) -> (s: String)
        ensures
            s@ == binary4(v),
    {
        let mut s = String::new();
        let mut k: u8 = 0;
        s.append(if crate::bits::is_bit_set(v, 7) {
            "1"
        } else {
            "0"
        });
        s.append(if crate::bits::is_bit_set(v, 6) {
            "1"
        } else {
            "0"
        });
        s.append(if crate::bits::is_bit_set(v, 5) {
            "1"
        } else {
            "0"
        });
        s.append(if crate::bits::is_bit_set(v, 4) {
            "1"
        } else {
            "0"
        });
        assert(s@ =~= binary4(v));
        s
    }

    pub fn registers_str(&self, mem: &Memory) -> (s: String)
        requires
            mem.wf(),
        ensures
            s@ == self.registers_line(mem@),
    {
        reveal(Cpu::registers_line);
        let mut s = String::new();
        push_field16(&mut s, "PC:", self.PC);
        push_field16(&mut s, " SP:", self.SP);
        push_field8(&mut s, " A:", self.get_a());
        s.append(" F:");
        let flags = Self::clean_b_8(self.get_f());
        s.append(flags.as_str());
        push_field8(&mut s, " B:", self.get_b());
        push_field8(&mut s, " C:", self.get_c());
        push_field8(&mut s, " D:", self.get_d());
        push_field8(&mut s, " E:", self.get_e());
        push_field8(&mut s, " H:", self.get_h());
        push_field8(&mut s, " L:", self.get_l());
        push_field16(&mut s, " nn:", self.get_nn(mem));
        assert(s@ =~= self.registers_line(mem@));
        s
    }

    fn doctor_registers_str(&self) -> (s: String)
        ensures
            s@ == self.doctor_registers(),
    {
        reveal(Cpu::doctor_registers);
        let mut s = String::new();
        push_field8(&mut s, "A:", self.get_a());
        push_field8(&mut s, " F:", self.get_f());
        push_field8(&mut s, " B:", self.get_b());
        push_field8(&mut s, " C:", self.get_c());
        push_field8(&mut s, " D:", self.get_d());
        push_field8(&mut s, " E:", self.get_e());
        push_field8(&mut s, " H:", self.get_h());
        push_field8(&mut s, " L:", self.get_l());
        assert(s@ =~= self.doctor_registers());
        s
    }

    /// The byte `k` places after the one at PC.
    fn byte_after(&self, mem: &Memory, k: u16) -> (val: u8)
        requires
            mem.wf(),
            k < 4,
        ensures
            val == mem@.read(offset(self.PC, k as int)),
    {
        mem.read_byte(self.PC.wrapping_add(k))
    }

    fn doctor_head_str(&self) -> (s: String)
        ensures
            s@ == self.doctor_head(),
    {
        reveal(Cpu::doctor_head);
        let mut s = self.doctor_registers_str();
        push_field16(&mut s, " SP:", self.SP);
        push_field16(&mut s, " PC:", self.PC);
        s
    }

    pub fn registers_doctor_str(&self, mem: &Memory) -> (s: String)
        requires
            mem.wf(),
        ensures
            s@ == self.doctor_line(mem@),
    {
        reveal(Cpu::doctor_line);
        let first: u8 = mem.read_byte(self.PC);
        let second: u8 = self.byte_after(mem, 1);
        let third: u8 = self.byte_after(mem, 2);
        let fourth: u8 = self.byte_after(mem, 3);
        let mut s = self.doctor_head_str();
        push_field8(&mut s, " PCMEM:", first);
        push_field8(&mut s, ",", second);
        push_field8(&mut s, ",", third);
        push_field8(&mut s, ",", fourth);
        s
    }

    /// Whether the last step left a line for the trace: the processor
    /// is not halted and the last opcode ran.
    pub open spec fn traces(self) -> bool {
        !self.HALT && self.last_instruction is Valid
    }

    /// Adds the trace line of the last instruction to the buffer, and
    /// says whether the buffer is full and should be written out.
    pub fn write_doctor(&mut self) -> (full: bool)
        ensures
            old(self).traces() ==> *final(self) == (Cpu {
                doctor_buffer: final(self).doctor_buffer,
                ..*old(self)
            }) && final(self).doctor_buffer@ == old(self).doctor_buffer@.push(old(self).last_regs),
            !old(self).traces() ==> *final(self) == *old(self),
            full == (old(self).traces() && final(self).doctor_buffer@.len() == 1000),
    {
        if self.HALT {
            return false;
        }
        match self.last_instruction {
            Instruction::Valid(_, _, _, _) => {
                self.doctor_buffer.push(self.last_regs.clone());
                self.doctor_buffer.len() == DOCTOR_BUFFER_LINES
            },
            _ => false,
        }
    }

    /// Hands out the buffered trace lines and empties the buffer.
    pub fn take_doctor_lines(&mut self) -> (lines: Vec<String>)
        ensures
            lines == old(self).doctor_buffer,
            final(self).doctor_buffer@.len() == 0,
            *final(self) == (Cpu { doctor_buffer: final(self).doctor_buffer, ..*old(self) }),
    {
        let mut lines: Vec<String> = Vec::new();
        core::mem::swap(&mut lines, &mut self.doctor_buffer);
        lines
    }
}

impl CpuError {
    /// What to tell the user: the opcode and where it was fetched,
    /// both in hexadecimal.
    pub open spec fn message_spec(self) -> Seq<char> {
        match self {
            CpuError::IllegalOpcode { pc, opcode } => "illegal opcode "@ + hex8(opcode) + " at PC "@
                + hex16(pc),
        }
    }

    pub fn message(&self) -> (text: String)
        ensures
            text@ == self.message_spec(),
    {
        match self {
            CpuError::IllegalOpcode { pc, opcode } => {
                let mut text = String::new();
                push_field8(&mut text, "illegal opcode ", *opcode);
                push_field16(&mut text, " at PC ", *pc);
                assert(text@ =~= "illegal opcode "@ + hex8(*opcode) + " at PC "@ + hex16(*pc));
                text
            },
        }
    }
}

/// The lower-case hexadecimal digit for `d`, 0 to 15.
pub open spec fn lower_hex_digit(d: int) -> &'static str {
    if d < 10 {
        hex_digit(d)
    } else if d == 10 {
        "a"
    } else if d == 11 {
        "b"
    } else if d == 12 {
        "c"
    } else if d == 13 {
        "d"
    } else if d == 14 {
        "e"
    } else {
        "f"
    }
}

pub fn lower_hex_digit_str(d: u8) -> (s: &'static str)
    requires
        d < 16,
    ensures
        s == lower_hex_digit(d as int),
{
    if d < 10 {
        hex_digit_str(d)
    } else if d == 10 {
        "a"
    } else if d == 11 {
        "b"
    } else if d == 12 {
        "c"
    } else if d == 13 {
        "d"
    } else if d == 14 {
        "e"
    } else {
        "f"
    }
}

/// `n` spaces.
pub open spec fn spaces(n: int) -> Seq<char>
    decreases n,
{
    if n <= 0 {
        Seq::empty()
    } else {
        spaces(n - 1) + " "@
    }
}

/// `text` with spaces after it up to `width` characters; longer text
/// stays as it is.
pub open spec fn padded(text: Seq<char>, width: int) -> Seq<char> {
    text + spaces(width - text.len())
}

/// What there is to print after a step: the instruction that ran and
/// the interrupt that was dispatched, where there was one.
pub struct Printout {
    pub instruction: Option<String>,
    pub interrupt: Option<String>,
}

impl Cpu {
    /// The line that shows the last instruction: its mnemonic in a
    /// column of ten, its opcode, and the trace line of the state before
    /// it; or the opcode that named no instruction.
    pub open spec fn instruction_line(self) -> Option<Seq<char>> {
        match self.last_instruction {
            Instruction::Valid(opcode, _, _, name) => Some(
                padded(name@, 10) + "|op:"@ + hex8(opcode) + " "@ + self.last_regs@,
            ),
            Instruction::Invalid(opcode) => Some(
                "invalid opcode! 0x00"@ + lower_hex_digit(opcode as int / 16)@ + lower_hex_digit(
                    opcode as int % 16,
                )@,
            ),
            Instruction::Empty => None,
        }
    }

    /// The line that names the interrupt dispatched by the last step.
    pub open spec fn interrupt_line(self) -> Option<Seq<char>> {
        match self.triggered_interruption {
            Some(k) => Some("Interrupt triggered: "@ + interrupt_name(k as int)@),
            None => None,
        }
    }

    /// What there is to print after the last step. A halted processor
    /// prints no instruction.
    pub fn print(&self) -> (out: Printout)
        ensures
            match out.instruction {
                Some(line) => !self.HALT && self.instruction_line() == Some(line@),
                None => self.HALT || self.instruction_line() is None,
            },
            match out.interrupt {
                Some(line) => !self.HALT && self.interrupt_line() == Some(line@),
                None => self.HALT || self.interrupt_line() is None,
            },
    {
        if self.HALT {
            return Printout { instruction: None, interrupt: None };
        }
        let instruction: Option<String> = match self.last_instruction {
            Instruction::Empty => None,
            Instruction::Valid(opcode, _, _, description) => {
                let mut line = Self::pad_name(description);
                push_field8(&mut line, "|op:", opcode);
                line.append(" ");
                line.append(self.last_regs.as_str());
                Some(line)
            },
            Instruction::Invalid(opcode) => {
                let mut line = String::new();
                line.append("invalid opcode! 0x00");
                line.append(lower_hex_digit_str(opcode / 16));
                line.append(lower_hex_digit_str(opcode % 16));
                assert(line@ =~= "invalid opcode! 0x00"@ + lower_hex_digit(opcode as int / 16)@
                    + lower_hex_digit(opcode as int % 16)@);
                Some(line)
            },
        };
        let interrupt: Option<String> = match self.triggered_interruption {
            Some(k) => {
                let mut line = String::new();
                line.append("Interrupt triggered: ");
                line.append(interrupt_name_of(k));
                assert(line@ =~= "Interrupt triggered: "@ + interrupt_name(k as int)@);
                Some(line)
            },
            None => None,
        };
        Printout { instruction, interrupt }
    }

    /// A mnemonic in a column of ten characters.
    fn pad_name(name: &'static str) -> (line: String)
        ensures
            line@ == padded(name@, 10),
    {
        let mut line = String::new();
        line.append(name);
        assert(line@ =~= name@);
        let length: usize = name.unicode_len();
        let mut added: usize = 0;
        while length < 10 && added < 10 - length
            invariant
                length == name@.len(),
                length < 10 ==> added <= 10 - length,
                line@ == name@ + spaces(added as int),
                length >= 10 ==> added == 0,
            decreases 10 - added,
        {
            line.append(" ");
            assert(line@ =~= name@ + spaces(added + 1));
            added = added + 1;
        }
        assert(spaces(10 - length) == spaces(added as int)) by {
            if length >= 10 {
                assert(spaces(10 - length) =~= Seq::<char>::empty());
                assert(spaces(0) =~= Seq::<char>::empty());
            }
        }
        line
    }
}

} // verus!
