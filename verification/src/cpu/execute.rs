//! The base opcode table.
//!
//! An opcode is read as three fields: its two high bits `x`, its bits 3 to
//! 5 `y`, and its three low bits `z`. Where `y` names a register pair and
//! a choice, `p` is `y / 2` and `q` is `y % 2`. Operands are numbered B,
//! C, D, E, H, L, the byte at HL, A; pairs BC, DE, HL, then SP, or AF on
//! the stack; conditions NZ, Z, NC, C.
//!
//! Cycles are clock cycles of the processor, four to each memory access.

use vstd::prelude::*;
use crate::bits::bit;
use crate::memory::{Memory, MemoryType, MemoryView};
use super::execute_cb::{rotated, rotated_out};
use super::{lower, offset, signed, Cpu, Flag, Instruction, Register, Step};

verus! {

/// A finished step: the opcode ran.
pub open spec fn done(
    cpu: Cpu,
    mem: MemoryView,
    opcode: u8,
    length: u16,
    cycles: u32,
    name: &'static str,
) -> Step {
    Step { cpu, mem, instr: Instruction::Valid(opcode, length, cycles, name) }
}

/// A refused step: the opcode names no instruction and nothing changes.
pub open spec fn refused(cpu: Cpu, mem: MemoryView, opcode: u8) -> Step {
    Step { cpu, mem, instr: Instruction::Invalid(opcode) }
}

/// Whether interrupt `k` is both enabled in IE and flagged in IF.
pub open spec fn interrupt_pending(mem: MemoryView, k: int) -> bool {
    bit(mem.read(0xFFFF) as int, k) && bit(mem.read(0xFF0F) as int, k)
}

/// Whether any of the five interrupts is enabled and flagged.
pub open spec fn any_interrupt_pending(mem: MemoryView) -> bool {
    ||| interrupt_pending(mem, 0)
    ||| interrupt_pending(mem, 1)
    ||| interrupt_pending(mem, 2)
    ||| interrupt_pending(mem, 3)
    ||| interrupt_pending(mem, 4)
}

pub open spec fn accumulator_name(kind: int) -> &'static str {
    if kind == 0 {
        "RLCA"
    } else if kind == 1 {
        "RRCA"
    } else if kind == 2 {
        "RLA"
    } else {
        "RRA"
    }
}

pub open spec fn alu_name(kind: int) -> &'static str {
    if kind == 0 {
        "ADD"
    } else if kind == 1 {
        "ADC"
    } else if kind == 2 {
        "SUB"
    } else if kind == 3 {
        "SBC"
    } else if kind == 4 {
        "AND"
    } else if kind == 5 {
        "XOR"
    } else if kind == 6 {
        "OR"
    } else {
        "CP"
    }
}

impl Cpu {
    /// Register pair number `p`: BC, DE, HL, SP.
    pub open spec fn pair_reg(self, p: int) -> u16 {
        if p == 0 {
            self.BC
        } else if p == 1 {
            self.DE
        } else if p == 2 {
            self.HL
        } else {
            self.SP
        }
    }

    pub open spec fn with_pair(self, p: int, val: u16) -> Cpu {
        if p == 0 {
            Cpu { BC: val, ..self }
        } else if p == 1 {
            Cpu { DE: val, ..self }
        } else if p == 2 {
            Cpu { HL: val, ..self }
        } else {
            Cpu { SP: val, ..self }
        }
    }

    /// Register pair number `p` as PUSH and POP count them: BC, DE, HL,
    /// AF.
    pub open spec fn stack_pair(self, p: int) -> u16 {
        if p == 0 {
            self.BC
        } else if p == 1 {
            self.DE
        } else if p == 2 {
            self.HL
        } else {
            self.AF
        }
    }

    pub open spec fn with_stack_pair(self, p: int, val: u16) -> Cpu {
        if p == 0 {
            Cpu { BC: val, ..self }
        } else if p == 1 {
            Cpu { DE: val, ..self }
        } else if p == 2 {
            Cpu { HL: val, ..self }
        } else {
            self.with_af(val)
        }
    }

    /// Condition number `cc`: NZ, Z, NC, C.
    pub open spec fn condition(self, cc: int) -> bool {
        if cc == 0 {
            !self.flag(Flag::Z)
        } else if cc == 1 {
            self.flag(Flag::Z)
        } else if cc == 2 {
            !self.flag(Flag::C)
        } else {
            self.flag(Flag::C)
        }
    }

    /// The processor after a relative jump by the signed byte `e` from
    /// the two-byte instruction at PC.
    pub open spec fn jumped_by(self, e: u8) -> Cpu {
        Cpu { PC: offset(self.PC, 2 + signed(e)), ..self }
    }

    /// What arithmetic operation number `kind` makes of A and `val`:
    /// ADD, ADC, SUB, SBC, AND, XOR, OR, CP.
    pub open spec fn alu_spec(self, kind: int, val: u8) -> Cpu {
        if kind == 0 {
            self.add_a_spec(val)
        } else if kind == 1 {
            self.adc_a_spec(val)
        } else if kind == 2 {
            self.sub_a_spec(val)
        } else if kind == 3 {
            self.sbc_a_spec(val)
        } else if kind == 4 {
            self.and_a_spec(val)
        } else if kind == 5 {
            self.xor_a_spec(val)
        } else if kind == 6 {
            self.or_a_spec(val)
        } else {
            self.cp_a_spec(val)
        }
    }

    /// Opcodes 0x00, 0x08, 0x10, 0x18, 0x20, 0x28, 0x30, 0x38: NOP,
    /// LD (a16),SP, STOP, JR and the four conditional JR. A JR that is
    /// taken costs 12 cycles, one that is not 8.
    pub open spec fn control_spec(self, mem: MemoryView, opcode: u8) -> Step {
        let y = (opcode as int / 8) % 8;
        if y == 0 {
            done(self, mem, opcode, 1, 4, "NOOP")
        } else if y == 1 {
            done(self, mem.write_word(self.nn(mem), self.SP), opcode, 3, 20, "LD")
        } else if y == 2 {
            done(self, mem, opcode, 2, 4, "STOP")
        } else if y == 3 || self.condition(y - 4) {
            done(self.jumped_by(self.n(mem)), mem, opcode, 0, 12, "JR")
        } else {
            done(self, mem, opcode, 2, 8, "JR")
        }
    }

    /// Opcodes with `x` 0 and `z` 1: LD rr,d16 and ADD HL,rr.
    pub open spec fn pair_load_spec(self, mem: MemoryView, opcode: u8) -> Step {
        let y = (opcode as int / 8) % 8;
        let p = y / 2;
        if y % 2 == 0 {
            done(self.with_pair(p, self.nn(mem)), mem, opcode, 3, 12, "LD")
        } else {
            done(
                Cpu {
                    HL: ((self.HL + self.pair_reg(p)) % 0x10000) as u16,
                    ..self.add_16_spec(self.HL, self.pair_reg(p))
                },
                mem,
                opcode,
                1,
                8,
                "ADD",
            )
        }
    }

    /// The address that the indirect loads of A use for pair number `p`:
    /// BC, DE, and HL twice.
    pub open spec fn indirect_addr(self, p: int) -> u16 {
        if p == 0 {
            self.BC
        } else if p == 1 {
            self.DE
        } else {
            self.HL
        }
    }

    /// HL after an indirect load of A through pair number `p`: one more
    /// for pair 2, one less for pair 3.
    pub open spec fn indirect_hl(self, p: int) -> u16 {
        if p == 2 {
            offset(self.HL, 1)
        } else if p == 3 {
            offset(self.HL, -1)
        } else {
            self.HL
        }
    }

    /// Opcodes with `x` 0 and `z` 2: LD (BC),A, LD (DE),A, LD (HL+),A,
    /// LD (HL-),A and the four loads the other way.
    pub open spec fn indirect_spec(self, mem: MemoryView, opcode: u8) -> Step {
        let y = (opcode as int / 8) % 8;
        let p = y / 2;
        if y % 2 == 0 {
            done(
                Cpu { HL: self.indirect_hl(p), ..self },
                mem.write(self.indirect_addr(p), self.a()),
                opcode,
                1,
                8,
                "LD",
            )
        } else {
            done(
                Cpu {
                    HL: self.indirect_hl(p),
                    ..self.with_reg(Register::A, mem.read(self.indirect_addr(p)))
                },
                mem,
                opcode,
                1,
                8,
                "LD",
            )
        }
    }

    /// Opcodes with `x` 0 and `z` 3: INC rr and DEC rr. No flag changes.
    pub open spec fn pair_step_spec(self, mem: MemoryView, opcode: u8) -> Step {
        let y = (opcode as int / 8) % 8;
        let p = y / 2;
        if y % 2 == 0 {
            done(self.with_pair(p, offset(self.pair_reg(p), 1)), mem, opcode, 1, 8, "INC")
        } else {
            done(self.with_pair(p, offset(self.pair_reg(p), -1)), mem, opcode, 1, 8, "DEC")
        }
    }

    /// Opcodes with `x` 0 and `z` 4, 5 or 6: INC r, DEC r and LD r,d8,
    /// each also on the byte at HL.
    pub open spec fn byte_step_spec(self, mem: MemoryView, opcode: u8) -> Step {
        let y = (opcode as int / 8) % 8;
        let z = opcode as int % 8;
        let val = self.operand(mem, y);
        if z == 4 {
            let result = ((val + 1) % 256) as u8;
            done(
                self.inc_8_spec(val).stored_cpu(y, result),
                self.stored_mem(mem, y, result),
                opcode,
                1,
                if y == 6 {
                    12
                } else {
                    4
                },
                "INC",
            )
        } else if z == 5 {
            let result = ((val - 1) % 256) as u8;
            done(
                self.dec_8_spec(val).stored_cpu(y, result),
                self.stored_mem(mem, y, result),
                opcode,
                1,
                if y == 6 {
                    12
                } else {
                    4
                },
                "DEC",
            )
        } else {
            done(
                self.stored_cpu(y, self.n(mem)),
                self.stored_mem(mem, y, self.n(mem)),
                opcode,
                2,
                if y == 6 {
                    12
                } else {
                    8
                },
                "LD",
            )
        }
    }

    /// Opcodes with `x` 0 and `z` 7: RLCA, RRCA, RLA, RRA, DAA, CPL, SCF,
    /// CCF. The four rotates of A are those of the prefixed table, but
    /// they clear Z.
    pub open spec fn accumulator_spec(self, mem: MemoryView, opcode: u8) -> Step {
        let y = (opcode as int / 8) % 8;
        let a = self.a();
        let z = self.flag(Flag::Z);
        let c = self.flag(Flag::C);
        if y < 4 {
            done(
                self.with_a_flags(
                    rotated(y, a, self.carry()),
                    false,
                    false,
                    false,
                    rotated_out(y, a),
                ),
                mem,
                opcode,
                1,
                4,
                accumulator_name(y),
            )
        } else if y == 4 {
            done(self.daa_spec(), mem, opcode, 1, 4, "DAA")
        } else if y == 5 {
            done(self.with_a_flags((255 - a) as u8, z, true, true, c), mem, opcode, 1, 4, "CPL")
        } else if y == 6 {
            done(self.with_flags(z, false, false, true), mem, opcode, 1, 4, "SCF")
        } else {
            done(self.with_flags(z, false, false, !c), mem, opcode, 1, 4, "CCF")
        }
    }

    /// Opcodes with `x` 0.
    pub open spec fn low_spec(self, mem: MemoryView, opcode: u8) -> Step {
        let z = opcode as int % 8;
        if z == 0 {
            self.control_spec(mem, opcode)
        } else if z == 1 {
            self.pair_load_spec(mem, opcode)
        } else if z == 2 {
            self.indirect_spec(mem, opcode)
        } else if z == 3 {
            self.pair_step_spec(mem, opcode)
        } else if z == 7 {
            self.accumulator_spec(mem, opcode)
        } else {
            self.byte_step_spec(mem, opcode)
        }
    }

    /// HALT. With interrupts off and one pending the processor does not
    /// halt: it goes on, and fetches the next opcode without moving PC
    /// past it. Otherwise it halts.
    pub open spec fn halt_spec(self, mem: MemoryView) -> Cpu {
        if !self.IME && any_interrupt_pending(mem) {
            Cpu { halt_bug: true, ..self }
        } else {
            Cpu { HALT: true, ..self }
        }
    }

    /// Opcodes with `x` 1: LD r,r' over all operands, and HALT where
    /// both would be the byte at HL.
    pub open spec fn load_spec(self, mem: MemoryView, opcode: u8) -> Step {
        let y = (opcode as int / 8) % 8;
        let z = opcode as int % 8;
        if y == 6 && z == 6 {
            done(self.halt_spec(mem), mem, opcode, 1, 4, "HALT")
        } else {
            done(
                self.stored_cpu(y, self.operand(mem, z)),
                self.stored_mem(mem, y, self.operand(mem, z)),
                opcode,
                1,
                if y == 6 || z == 6 {
                    8
                } else {
                    4
                },
                "LD",
            )
        }
    }

    /// Opcodes with `x` 2: the eight arithmetic operations on A and an
    /// operand.
    pub open spec fn arithmetic_spec(self, mem: MemoryView, opcode: u8) -> Step {
        let y = (opcode as int / 8) % 8;
        let z = opcode as int % 8;
        done(
            self.alu_spec(y, self.operand(mem, z)),
            mem,
            opcode,
            1,
            if z == 6 {
                8
            } else {
                4
            },
            alu_name(y),
        )
    }

    /// The processor after a return: PC is popped.
    pub open spec fn returned(self, mem: MemoryView) -> Cpu {
        Cpu { PC: mem.read_word(self.SP), ..self.pop_spec() }
    }

    /// The processor after a call to `target` from an instruction
    /// `length` bytes long.
    pub open spec fn called(self, target: u16) -> Cpu {
        Cpu { PC: target, ..self.push_spec() }
    }

    /// Opcodes with `x` 3 and `z` 0: the four conditional RET,
    /// LDH (a8),A, ADD SP,e8, LDH A,(a8), LD HL,SP+e8. A RET that is
    /// taken costs 20 cycles, one that is not 8.
    pub open spec fn high_page_spec(self, mem: MemoryView, opcode: u8) -> Step {
        let y = (opcode as int / 8) % 8;
        let n = self.n(mem);
        if y < 4 {
            if self.condition(y) {
                done(self.returned(mem), mem, opcode, 0, 20, "RET")
            } else {
                done(self, mem, opcode, 1, 8, "RET")
            }
        } else if y == 4 {
            done(self, mem.write((0xFF00 + n) as u16, self.a()), opcode, 2, 12, "LDH")
        } else if y == 5 {
            done(self.add_sp_spec(n), mem, opcode, 2, 16, "ADD")
        } else if y == 6 {
            done(
                self.with_reg(Register::A, mem.read((0xFF00 + n) as u16)),
                mem,
                opcode,
                2,
                12,
                "LDH",
            )
        } else {
            done(
                Cpu { HL: offset(self.SP, signed(n)), ..self.sp_flags_spec(n) },
                mem,
                opcode,
                2,
                12,
                "LD",
            )
        }
    }

    /// Opcodes with `x` 3 and `z` 1: POP rr, RET, RETI, JP HL, LD SP,HL.
    /// RETI sets IME at once.
    pub open spec fn pop_spec_group(self, mem: MemoryView, opcode: u8) -> Step {
        let y = (opcode as int / 8) % 8;
        let p = y / 2;
        if y % 2 == 0 {
            done(
                self.pop_spec().with_stack_pair(p, mem.read_word(self.SP)),
                mem,
                opcode,
                1,
                12,
                "POP",
            )
        } else if p == 0 {
            done(self.returned(mem), mem, opcode, 0, 16, "RET")
        } else if p == 1 {
            done(Cpu { IME: true, ..self.returned(mem) }, mem, opcode, 0, 16, "RETI")
        } else if p == 2 {
            done(Cpu { PC: self.HL, ..self }, mem, opcode, 0, 4, "JP")
        } else {
            done(Cpu { SP: self.HL, ..self }, mem, opcode, 1, 8, "LD")
        }
    }

    /// Opcodes with `x` 3 and `z` 2: the four conditional JP, LD (C),A,
    /// LD (a16),A, LD A,(C), LD A,(a16). A JP that is taken costs 16
    /// cycles, one that is not 12.
    pub open spec fn jump_spec(self, mem: MemoryView, opcode: u8) -> Step {
        let y = (opcode as int / 8) % 8;
        let high = (0xFF00 + lower(self.BC)) as u16;
        if y < 4 {
            if self.condition(y) {
                done(Cpu { PC: self.nn(mem), ..self }, mem, opcode, 0, 16, "JP")
            } else {
                done(self, mem, opcode, 3, 12, "JP")
            }
        } else if y == 4 {
            done(self, mem.write(high, self.a()), opcode, 1, 8, "LD")
        } else if y == 5 {
            done(self, mem.write(self.nn(mem), self.a()), opcode, 3, 16, "LD")
        } else if y == 6 {
            done(self.with_reg(Register::A, mem.read(high)), mem, opcode, 1, 8, "LD")
        } else {
            done(self.with_reg(Register::A, mem.read(self.nn(mem))), mem, opcode, 3, 16, "LD")
        }
    }

    /// Opcodes with `x` 3 and `z` 3: JP a16, DI, EI. DI clears IME at
    /// once; EI only asks for it. The others name no instruction; 0xCB
    /// is the prefix and is not executed through this table.
    pub open spec fn interrupt_spec(self, mem: MemoryView, opcode: u8) -> Step {
        let y = (opcode as int / 8) % 8;
        if y == 0 {
            done(Cpu { PC: self.nn(mem), ..self }, mem, opcode, 0, 16, "JP")
        } else if y == 6 {
            done(Cpu { IME: false, ime_pending: false, ..self }, mem, opcode, 1, 4, "DI")
        } else if y == 7 {
            done(Cpu { ime_pending: true, ..self }, mem, opcode, 1, 4, "EI")
        } else {
            refused(self, mem, opcode)
        }
    }

    /// Opcodes with `x` 3 and `z` 4 or 5: the four conditional CALL,
    /// PUSH rr and CALL a16. A CALL that is taken costs 24 cycles, one
    /// that is not 12. The others name no instruction.
    pub open spec fn call_spec(self, mem: MemoryView, opcode: u8) -> Step {
        let y = (opcode as int / 8) % 8;
        let z = opcode as int % 8;
        if z == 4 && y < 4 {
            if self.condition(y) {
                done(
                    self.called(self.nn(mem)),
                    self.push_mem(mem, offset(self.PC, 3)),
                    opcode,
                    0,
                    24,
                    "CALL",
                )
            } else {
                done(self, mem, opcode, 3, 12, "CALL")
            }
        } else if z == 5 && y % 2 == 0 {
            done(
                self.push_spec(),
                self.push_mem(mem, self.stack_pair(y / 2)),
                opcode,
                1,
                16,
                "PUSH",
            )
        } else if z == 5 && y == 1 {
            done(
                self.called(self.nn(mem)),
                self.push_mem(mem, offset(self.PC, 3)),
                opcode,
                0,
                24,
                "CALL",
            )
        } else {
            refused(self, mem, opcode)
        }
    }

    /// Opcodes with `x` 3 and `z` 6 or 7: the eight arithmetic
    /// operations on A and the byte after the opcode, and RST to `y`
    /// times 8.
    pub open spec fn immediate_spec(self, mem: MemoryView, opcode: u8) -> Step {
        let y = (opcode as int / 8) % 8;
        let z = opcode as int % 8;
        if z == 6 {
            done(self.alu_spec(y, self.n(mem)), mem, opcode, 2, 8, alu_name(y))
        } else {
            done(
                self.called((y * 8) as u16),
                self.push_mem(mem, offset(self.PC, 1)),
                opcode,
                0,
                16,
                "RST",
            )
        }
    }

    /// Opcodes with `x` 3.
    pub open spec fn high_spec(self, mem: MemoryView, opcode: u8) -> Step {
        let z = opcode as int % 8;
        if z == 0 {
            self.high_page_spec(mem, opcode)
        } else if z == 1 {
            self.pop_spec_group(mem, opcode)
        } else if z == 2 {
            self.jump_spec(mem, opcode)
        } else if z == 3 {
            self.interrupt_spec(mem, opcode)
        } else if z == 4 || z == 5 {
            self.call_spec(mem, opcode)
        } else {
            self.immediate_spec(mem, opcode)
        }
    }

    /// What the opcode `opcode`, standing at PC, does to the processor
    /// and the bus, and what it reports: how far PC is to move on and how
    /// many cycles it took.
    #[verifier::opaque]
    pub open spec fn execute_spec(self, mem: MemoryView, opcode: u8) -> Step {
        let x = opcode as int / 64;
        if x == 0 {
            self.low_spec(mem, opcode)
        } else if x == 1 {
            self.load_spec(mem, opcode)
        } else if x == 2 {
            self.arithmetic_spec(mem, opcode)
        } else {
            self.high_spec(mem, opcode)
        }
    }

    /// Whether the processor, the bus and the report are those of
    /// `step`.
    pub open spec fn reached(self, mem: MemoryView, instr: Instruction, step: Step) -> bool {
        self == step.cpu && mem == step.mem && instr == step.instr
    }

    pub fn pair_at(&self, p: u8) -> (val: u16)
        ensures
            val == self.pair_reg(p as int),
    {
        if p == 0 {
            self.BC
        } else if p == 1 {
            self.DE
        } else if p == 2 {
            self.HL
        } else {
            self.SP
        }
    }

    pub fn set_pair(&mut self, p: u8, val: u16)
        ensures
            *final(self) == old(self).with_pair(p as int, val),
            old(self).wf() ==> final(self).wf(),
    {
        if p == 0 {
            self.BC = val;
        } else if p == 1 {
            self.DE = val;
        } else if p == 2 {
            self.HL = val;
        } else {
            self.SP = val;
        }
    }

    pub fn stack_pair_at(&self, p: u8) -> (val: u16)
        ensures
            val == self.stack_pair(p as int),
    {
        if p == 0 {
            self.BC
        } else if p == 1 {
            self.DE
        } else if p == 2 {
            self.HL
        } else {
            self.AF
        }
    }

    pub fn set_stack_pair(&mut self, p: u8, val: u16)
        ensures
            *final(self) == old(self).with_stack_pair(p as int, val),
            old(self).wf() ==> final(self).wf(),
    {
        if p == 0 {
            self.BC = val;
        } else if p == 1 {
            self.DE = val;
        } else if p == 2 {
            self.HL = val;
        } else {
            self.set_af(val);
        }
    }

    pub fn condition_at(&self, cc: u8) -> (holds: bool)
        ensures
            holds == self.condition(cc as int),
    {
        if cc == 0 {
            !self.get_flag(Flag::Z)
        } else if cc == 1 {
            self.get_flag(Flag::Z)
        } else if cc == 2 {
            !self.get_flag(Flag::C)
        } else {
            self.get_flag(Flag::C)
        }
    }

    /// Jumps by the signed byte `e` from the two-byte instruction at PC.
    pub fn jump_by(&mut self, e: u8)
        ensures
            *final(self) == old(self).jumped_by(e),
    {
        self.PC = Self::offset_signed(self.PC.wrapping_add(2), e);
    }

    pub fn interrupts_pending(mem: &Memory) -> (pending: bool)
        requires
            mem.wf(),
        ensures
            pending == any_interrupt_pending(mem@),
    {
        let enabled: u8 = mem.read_byte(0xFFFF);
        let flagged: u8 = mem.read_byte(0xFF0F);
        let mut k: u8 = 0;
        let mut pending: bool = false;
        while k < 5
            invariant
                k <= 5,
                enabled == mem@.read(0xFFFF),
                flagged == mem@.read(0xFF0F),
                pending == ((k > 0 && interrupt_pending(mem@, 0)) || (k > 1 && interrupt_pending(
                    mem@,
                    1,
                )) || (k > 2 && interrupt_pending(mem@, 2)) || (k > 3 && interrupt_pending(mem@, 3))
                    || (k > 4 && interrupt_pending(mem@, 4))),
            decreases 5 - k,
        {
            if crate::bits::is_bit_set(enabled, k) && crate::bits::is_bit_set(flagged, k) {
                pending = true;
            }
            k = k + 1;
        }
        pending
    }

    /// Applies arithmetic operation number `kind` to A and `val`.
    pub fn alu(&mut self, kind: u8, val: u8) -> (name: &'static str)
        ensures
            *final(self) == old(self).alu_spec(kind as int, val),
            name == alu_name(kind as int),
            final(self).wf(),
    {
        if kind == 0 {
            self.add_a(val);
            "ADD"
        } else if kind == 1 {
            self.adc_a(val);
            "ADC"
        } else if kind == 2 {
            self.sub_a(val);
            "SUB"
        } else if kind == 3 {
            self.sbc_a(val);
            "SBC"
        } else if kind == 4 {
            self.and_a(val);
            "AND"
        } else if kind == 5 {
            self.xor_a(val);
            "XOR"
        } else if kind == 6 {
            self.or_a(val);
            "OR"
        } else {
            self.cp_a(val);
            "CP"
        }
    }

    fn run_control(&mut self, opcode: u8, mem: &mut Memory) -> (instr: Instruction)
        requires
            old(self).wf(),
            old(mem).wf(),
        ensures
            final(self).wf(),
            final(mem).wf(),
            final(self).reached(final(mem)@, instr, old(self).control_spec(old(mem)@, opcode)),
            final(self).same_trace(*old(self)),
    {
        let y: u8 = (opcode / 8) % 8;
        if y == 0 {
            Instruction::Valid(opcode, 1, 4, "NOOP")
        } else if y == 1 {
            let addr: u16 = self.get_nn(mem);
            mem.write_word(addr, self.SP);
            Instruction::Valid(opcode, 3, 20, "LD")
        } else if y == 2 {
            Instruction::Valid(opcode, 2, 4, "STOP")
        } else if y == 3 || self.condition_at(y - 4) {
            let e: u8 = self.get_n(mem);
            self.jump_by(e);
            Instruction::Valid(opcode, 0, 12, "JR")
        } else {
            Instruction::Valid(opcode, 2, 8, "JR")
        }
    }

    fn run_pair_load(&mut self, opcode: u8, mem: &mut Memory) -> (instr: Instruction)
        requires
            old(self).wf(),
            old(mem).wf(),
        ensures
            final(self).wf(),
            final(mem).wf(),
            final(self).reached(final(mem)@, instr, old(self).pair_load_spec(old(mem)@, opcode)),
            final(self).same_trace(*old(self)),
    {
        let y: u8 = (opcode / 8) % 8;
        let p: u8 = y / 2;
        if y % 2 == 0 {
            let val: u16 = self.get_nn(mem);
            self.set_pair(p, val);
            Instruction::Valid(opcode, 3, 12, "LD")
        } else {
            let val: u16 = self.pair_at(p);
            self.HL = self.add_16(self.HL, val);
            Instruction::Valid(opcode, 1, 8, "ADD")
        }
    }

    fn run_indirect(&mut self, opcode: u8, mem: &mut Memory) -> (instr: Instruction)
        requires
            old(self).wf(),
            old(mem).wf(),
        ensures
            final(self).wf(),
            final(mem).wf(),
            final(self).reached(final(mem)@, instr, old(self).indirect_spec(old(mem)@, opcode)),
            final(self).same_trace(*old(self)),
    {
        let y: u8 = (opcode / 8) % 8;
        let p: u8 = y / 2;
        let addr: u16 = if p == 0 {
            self.BC
        } else if p == 1 {
            self.DE
        } else {
            self.HL
        };
        if y % 2 == 0 {
            mem.write_byte(addr, self.get_a());
        } else {
            self.set_a(mem.read_byte(addr));
        }
        if p == 2 {
            self.HL = self.HL.wrapping_add(1);
        } else if p == 3 {
            self.HL = self.HL.wrapping_sub(1);
        }
        Instruction::Valid(opcode, 1, 8, "LD")
    }

    fn run_pair_step(&mut self, opcode: u8, mem: &mut Memory) -> (instr: Instruction)
        requires
            old(self).wf(),
            old(mem).wf(),
        ensures
            final(self).wf(),
            final(mem).wf(),
            final(self).reached(final(mem)@, instr, old(self).pair_step_spec(old(mem)@, opcode)),
            final(self).same_trace(*old(self)),
    {
        let y: u8 = (opcode / 8) % 8;
        let p: u8 = y / 2;
        let val: u16 = self.pair_at(p);
        if y % 2 == 0 {
            self.set_pair(p, val.wrapping_add(1));
            Instruction::Valid(opcode, 1, 8, "INC")
        } else {
            self.set_pair(p, val.wrapping_sub(1));
            Instruction::Valid(opcode, 1, 8, "DEC")
        }
    }

    fn run_byte_step(&mut self, opcode: u8, mem: &mut Memory) -> (instr: Instruction)
        requires
            old(self).wf(),
            old(mem).wf(),
            4 <= opcode % 8 <= 6,
        ensures
            final(self).wf(),
            final(mem).wf(),
            final(self).reached(final(mem)@, instr, old(self).byte_step_spec(old(mem)@, opcode)),
            final(self).same_trace(*old(self)),
    {
        let y: u8 = (opcode / 8) % 8;
        let z: u8 = opcode % 8;
        if z == 4 {
            let val: u8 = self.read_operand(mem, y);
            let result: u8 = self.inc_8(val);
            self.write_operand(mem, y, result);
            Instruction::Valid(
                opcode,
                1,
                if y == 6 {
                    12
                } else {
                    4
                },
                "INC",
            )
        } else if z == 5 {
            let val: u8 = self.read_operand(mem, y);
            let result: u8 = self.dec_8(val);
            self.write_operand(mem, y, result);
            Instruction::Valid(
                opcode,
                1,
                if y == 6 {
                    12
                } else {
                    4
                },
                "DEC",
            )
        } else {
            let val: u8 = self.get_n(mem);
            self.write_operand(mem, y, val);
            Instruction::Valid(
                opcode,
                2,
                if y == 6 {
                    12
                } else {
                    8
                },
                "LD",
            )
        }
    }

    fn run_accumulator(&mut self, opcode: u8, mem: &mut Memory) -> (instr: Instruction)
        requires
            old(self).wf(),
            old(mem).wf(),
        ensures
            final(self).wf(),
            final(mem).wf(),
            final(self).reached(final(mem)@, instr, old(self).accumulator_spec(old(mem)@, opcode)),
            final(self).same_trace(*old(self)),
    {
        let y: u8 = (opcode / 8) % 8;
        let a: u8 = self.get_a();
        let zero: bool = self.get_flag(Flag::Z);
        let carry: bool = self.get_flag(Flag::C);
        if y < 4 {
            let (result, out) = Self::rotate_value(y, a, carry);
            self.set_a_flags(result, false, false, false, out);
            let name = if y == 0 {
                "RLCA"
            } else if y == 1 {
                "RRCA"
            } else if y == 2 {
                "RLA"
            } else {
                "RRA"
            };
            Instruction::Valid(opcode, 1, 4, name)
        } else if y == 4 {
            self.daa();
            Instruction::Valid(opcode, 1, 4, "DAA")
        } else if y == 5 {
            self.set_a_flags(255 - a, zero, true, true, carry);
            Instruction::Valid(opcode, 1, 4, "CPL")
        } else if y == 6 {
            self.set_flags(zero, false, false, true);
            Instruction::Valid(opcode, 1, 4, "SCF")
        } else {
            self.set_flags(zero, false, false, !carry);
            Instruction::Valid(opcode, 1, 4, "CCF")
        }
    }

    fn run_low(&mut self, opcode: u8, mem: &mut Memory) -> (instr: Instruction)
        requires
            old(self).wf(),
            old(mem).wf(),
        ensures
            final(self).wf(),
            final(mem).wf(),
            final(self).reached(final(mem)@, instr, old(self).low_spec(old(mem)@, opcode)),
            final(self).same_trace(*old(self)),
    {
        let z: u8 = opcode % 8;
        if z == 0 {
            self.run_control(opcode, mem)
        } else if z == 1 {
            self.run_pair_load(opcode, mem)
        } else if z == 2 {
            self.run_indirect(opcode, mem)
        } else if z == 3 {
            self.run_pair_step(opcode, mem)
        } else if z == 7 {
            self.run_accumulator(opcode, mem)
        } else {
            self.run_byte_step(opcode, mem)
        }
    }

    fn run_load(&mut self, opcode: u8, mem: &mut Memory) -> (instr: Instruction)
        requires
            old(self).wf(),
            old(mem).wf(),
        ensures
            final(self).wf(),
            final(mem).wf(),
            final(self).reached(final(mem)@, instr, old(self).load_spec(old(mem)@, opcode)),
            final(self).same_trace(*old(self)),
    {
        let y: u8 = (opcode / 8) % 8;
        let z: u8 = opcode % 8;
        if y == 6 && z == 6 {
            if !self.IME && Self::interrupts_pending(mem) {
                self.halt_bug = true;
            } else {
                self.HALT = true;
            }
            Instruction::Valid(opcode, 1, 4, "HALT")
        } else {
            let val: u8 = self.read_operand(mem, z);
            self.write_operand(mem, y, val);
            Instruction::Valid(
                opcode,
                1,
                if y == 6 || z == 6 {
                    8
                } else {
                    4
                },
                "LD",
            )
        }
    }

    fn run_arithmetic(&mut self, opcode: u8, mem: &mut Memory) -> (instr: Instruction)
        requires
            old(self).wf(),
            old(mem).wf(),
        ensures
            final(self).wf(),
            final(mem).wf(),
            final(self).reached(final(mem)@, instr, old(self).arithmetic_spec(old(mem)@, opcode)),
            final(self).same_trace(*old(self)),
    {
        let y: u8 = (opcode / 8) % 8;
        let z: u8 = opcode % 8;
        let val: u8 = self.read_operand(mem, z);
        let name = self.alu(y, val);
        Instruction::Valid(
            opcode,
            1,
            if z == 6 {
                8
            } else {
                4
            },
            name,
        )
    }

    fn run_high_page(&mut self, opcode: u8, mem: &mut Memory) -> (instr: Instruction)
        requires
            old(self).wf(),
            old(mem).wf(),
        ensures
            final(self).wf(),
            final(mem).wf(),
            final(self).reached(final(mem)@, instr, old(self).high_page_spec(old(mem)@, opcode)),
            final(self).same_trace(*old(self)),
    {
        let y: u8 = (opcode / 8) % 8;
        let n: u8 = self.get_n(mem);
        if y < 4 {
            if self.condition_at(y) {
                self.ret(mem);
                Instruction::Valid(opcode, 0, 20, "RET")
            } else {
                Instruction::Valid(opcode, 1, 8, "RET")
            }
        } else if y == 4 {
            mem.write_byte(0xFF00 + n as u16, self.get_a());
            Instruction::Valid(opcode, 2, 12, "LDH")
        } else if y == 5 {
            self.add_sp_16_signed(n);
            Instruction::Valid(opcode, 2, 16, "ADD")
        } else if y == 6 {
            self.set_a(mem.read_byte(0xFF00 + n as u16));
            Instruction::Valid(opcode, 2, 12, "LDH")
        } else {
            let sp: u16 = self.SP;
            self.add_sp_16_signed(n);
            self.HL = self.SP;
            self.SP = sp;
            Instruction::Valid(opcode, 2, 12, "LD")
        }
    }

    fn run_pop(&mut self, opcode: u8, mem: &mut Memory) -> (instr: Instruction)
        requires
            old(self).wf(),
            old(mem).wf(),
        ensures
            final(self).wf(),
            final(mem).wf(),
            final(self).reached(final(mem)@, instr, old(self).pop_spec_group(old(mem)@, opcode)),
            final(self).same_trace(*old(self)),
    {
        let y: u8 = (opcode / 8) % 8;
        let p: u8 = y / 2;
        if y % 2 == 0 {
            let val: u16 = self.pop_sp(mem);
            self.set_stack_pair(p, val);
            Instruction::Valid(opcode, 1, 12, "POP")
        } else if p == 0 {
            self.ret(mem);
            Instruction::Valid(opcode, 0, 16, "RET")
        } else if p == 1 {
            self.ret(mem);
            self.IME = true;
            Instruction::Valid(opcode, 0, 16, "RETI")
        } else if p == 2 {
            self.PC = self.HL;
            Instruction::Valid(opcode, 0, 4, "JP")
        } else {
            self.SP = self.HL;
            Instruction::Valid(opcode, 1, 8, "LD")
        }
    }

    fn run_jump(&mut self, opcode: u8, mem: &mut Memory) -> (instr: Instruction)
        requires
            old(self).wf(),
            old(mem).wf(),
        ensures
            final(self).wf(),
            final(mem).wf(),
            final(self).reached(final(mem)@, instr, old(self).jump_spec(old(mem)@, opcode)),
            final(self).same_trace(*old(self)),
    {
        let y: u8 = (opcode / 8) % 8;
        let high: u16 = 0xFF00 + self.get_c() as u16;
        if y < 4 {
            if self.condition_at(y) {
                self.PC = self.get_nn(mem);
                Instruction::Valid(opcode, 0, 16, "JP")
            } else {
                Instruction::Valid(opcode, 3, 12, "JP")
            }
        } else if y == 4 {
            mem.write_byte(high, self.get_a());
            Instruction::Valid(opcode, 1, 8, "LD")
        } else if y == 5 {
            let addr: u16 = self.get_nn(mem);
            mem.write_byte(addr, self.get_a());
            Instruction::Valid(opcode, 3, 16, "LD")
        } else if y == 6 {
            self.set_a(mem.read_byte(high));
            Instruction::Valid(opcode, 1, 8, "LD")
        } else {
            let addr: u16 = self.get_nn(mem);
            self.set_a(mem.read_byte(addr));
            Instruction::Valid(opcode, 3, 16, "LD")
        }
    }

    fn run_interrupt(&mut self, opcode: u8, mem: &mut Memory) -> (instr: Instruction)
        requires
            old(self).wf(),
            old(mem).wf(),
        ensures
            final(self).wf(),
            final(mem).wf(),
            final(self).reached(final(mem)@, instr, old(self).interrupt_spec(old(mem)@, opcode)),
            final(self).same_trace(*old(self)),
    {
        let y: u8 = (opcode / 8) % 8;
        if y == 0 {
            self.PC = self.get_nn(mem);
            Instruction::Valid(opcode, 0, 16, "JP")
        } else if y == 6 {
            self.IME = false;
            self.ime_pending = false;
            Instruction::Valid(opcode, 1, 4, "DI")
        } else if y == 7 {
            self.ime_pending = true;
            Instruction::Valid(opcode, 1, 4, "EI")
        } else {
            Instruction::Invalid(opcode)
        }
    }

    fn run_call(&mut self, opcode: u8, mem: &mut Memory) -> (instr: Instruction)
        requires
            old(self).wf(),
            old(mem).wf(),
        ensures
            final(self).wf(),
            final(mem).wf(),
            final(self).reached(final(mem)@, instr, old(self).call_spec(old(mem)@, opcode)),
            final(self).same_trace(*old(self)),
    {
        let y: u8 = (opcode / 8) % 8;
        let z: u8 = opcode % 8;
        if z == 4 && y < 4 {
            if self.condition_at(y) {
                self.call_a16(mem);
                Instruction::Valid(opcode, 0, 24, "CALL")
            } else {
                Instruction::Valid(opcode, 3, 12, "CALL")
            }
        } else if z == 5 && y % 2 == 0 {
            let val: u16 = self.stack_pair_at(y / 2);
            self.push_sp(mem, val);
            Instruction::Valid(opcode, 1, 16, "PUSH")
        } else if z == 5 && y == 1 {
            self.call_a16(mem);
            Instruction::Valid(opcode, 0, 24, "CALL")
        } else {
            Instruction::Invalid(opcode)
        }
    }

    fn run_immediate(&mut self, opcode: u8, mem: &mut Memory) -> (instr: Instruction)
        requires
            old(self).wf(),
            old(mem).wf(),
        ensures
            final(self).wf(),
            final(mem).wf(),
            final(self).reached(final(mem)@, instr, old(self).immediate_spec(old(mem)@, opcode)),
            final(self).same_trace(*old(self)),
    {
        let y: u8 = (opcode / 8) % 8;
        let z: u8 = opcode % 8;
        if z == 6 {
            let val: u8 = self.get_n(mem);
            let name = self.alu(y, val);
            Instruction::Valid(opcode, 2, 8, name)
        } else {
            self.rst(mem, (y as u16) * 8);
            Instruction::Valid(opcode, 0, 16, "RST")
        }
    }

    fn run_high(&mut self, opcode: u8, mem: &mut Memory) -> (instr: Instruction)
        requires
            old(self).wf(),
            old(mem).wf(),
        ensures
            final(self).wf(),
            final(mem).wf(),
            final(self).reached(final(mem)@, instr, old(self).high_spec(old(mem)@, opcode)),
            final(self).same_trace(*old(self)),
    {
        let z: u8 = opcode % 8;
        if z == 0 {
            self.run_high_page(opcode, mem)
        } else if z == 1 {
            self.run_pop(opcode, mem)
        } else if z == 2 {
            self.run_jump(opcode, mem)
        } else if z == 3 {
            self.run_interrupt(opcode, mem)
        } else if z == 4 || z == 5 {
            self.run_call(opcode, mem)
        } else {
            self.run_immediate(opcode, mem)
        }
    }

    /// Executes the base opcode `opcode`, which stands at PC. PC is not
    /// moved past the instruction here: the report says how far to move
    /// it.
    pub fn execute(&mut self, opcode: u8, mem: &mut Memory) -> (instr: Instruction)
        requires
            old(self).wf(),
            old(mem).wf(),
        ensures
            final(self).wf(),
            final(mem).wf(),
            final(self).reached(final(mem)@, instr, old(self).execute_spec(old(mem)@, opcode)),
            final(self).same_trace(*old(self)),
    {
        reveal(Cpu::execute_spec);
        let x: u8 = opcode / 64;
        if x == 0 {
            self.run_low(opcode, mem)
        } else if x == 1 {
            self.run_load(opcode, mem)
        } else if x == 2 {
            self.run_arithmetic(opcode, mem)
        } else {
            self.run_high(opcode, mem)
        }
    }
}

} // verus!
