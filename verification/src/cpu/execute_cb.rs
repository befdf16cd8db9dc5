//! The opcodes behind the 0xCB prefix.
//!
//! An opcode's two high bits choose the kind of operation, its bits 3 to
//! 5 the rotate or the bit number, and its three low bits the operand:
//! B, C, D, E, H, L, the byte at HL, or A.

use vstd::prelude::*;
use crate::bits::{with_bit, without_bit};
use crate::memory::{Memory, MemoryView};
use super::helpers_cb::{rl_value, rlc_value, rr_value, rrc_value, sra_value, swap_value};
use super::{Cpu, Instruction, Register, Step};

verus! {

/// The register that operand number `i` names, for `i` other than 6.
pub open spec fn register_of(i: int) -> Register {
    if i == 0 {
        Register::B
    } else if i == 1 {
        Register::C
    } else if i == 2 {
        Register::D
    } else if i == 3 {
        Register::E
    } else if i == 4 {
        Register::H
    } else if i == 5 {
        Register::L
    } else {
        Register::A
    }
}

/// What rotate or shift number `kind` makes of `val`, with `carry` (0 or
/// 1) the carry flag before: RLC, RRC, RL, RR, SLA, SRA, SWAP, SRL.
pub open spec fn rotated(kind: int, val: u8, carry: int) -> u8 {
    if kind == 0 {
        rlc_value(val)
    } else if kind == 1 {
        rrc_value(val)
    } else if kind == 2 {
        rl_value(val, carry)
    } else if kind == 3 {
        rr_value(val, carry)
    } else if kind == 4 {
        ((val * 2) % 256) as u8
    } else if kind == 5 {
        sra_value(val)
    } else if kind == 6 {
        swap_value(val)
    } else {
        (val / 2) as u8
    }
}

/// The bit that rotate or shift number `kind` moves out of `val` into
/// the carry flag; SWAP moves none.
pub open spec fn rotated_out(kind: int, val: u8) -> bool {
    if kind == 0 || kind == 2 || kind == 4 {
        val >= 128
    } else if kind == 6 {
        false
    } else {
        val % 2 == 1
    }
}

pub open spec fn rotate_name(kind: int) -> &'static str {
    if kind == 0 {
        "RLC"
    } else if kind == 1 {
        "RRC"
    } else if kind == 2 {
        "RL"
    } else if kind == 3 {
        "RR"
    } else if kind == 4 {
        "SLA"
    } else if kind == 5 {
        "SRA"
    } else if kind == 6 {
        "SWAP"
    } else {
        "SRL"
    }
}

impl Cpu {
    /// The byte that operand number `i` holds.
    pub open spec fn operand(self, mem: MemoryView, i: int) -> u8 {
        if i == 6 {
            mem.read(self.HL)
        } else {
            self.reg(register_of(i))
        }
    }

    /// The processor after `val` is stored in operand number `i`.
    pub open spec fn stored_cpu(self, i: int, val: u8) -> Cpu {
        if i == 6 {
            self
        } else {
            self.with_reg(register_of(i), val)
        }
    }

    /// The bus after `val` is stored in operand number `i`.
    pub open spec fn stored_mem(self, mem: MemoryView, i: int, val: u8) -> MemoryView {
        if i == 6 {
            mem.write(self.HL, val)
        } else {
            mem
        }
    }

    /// What the prefixed opcode `opcode` does. Every one is two bytes
    /// long. On a register it takes 8 cycles; on the byte at HL 16, and
    /// 12 for BIT, which does not write.
    #[verifier::opaque]
    pub open spec fn execute_cb_spec(self, mem: MemoryView, opcode: u8) -> Step {
        let kind = opcode as int / 64;
        let y = (opcode as int / 8) % 8;
        let z = opcode as int % 8;
        let val = self.operand(mem, z);
        let slow: u32 = if z == 6 {
            16
        } else {
            8
        };
        if kind == 0 {
            let result = rotated(y, val, self.carry());
            Step {
                cpu: self.shifted(result, rotated_out(y, val)).stored_cpu(z, result),
                mem: self.stored_mem(mem, z, result),
                instr: Instruction::Valid(opcode, 2, slow, rotate_name(y)),
            }
        } else if kind == 1 {
            Step {
                cpu: self.bit_spec(y as u8, val),
                mem,
                instr: Instruction::Valid(
                    opcode,
                    2,
                    if z == 6 {
                        12
                    } else {
                        8
                    },
                    "BIT",
                ),
            }
        } else if kind == 2 {
            Step {
                cpu: self.stored_cpu(z, without_bit(val, y)),
                mem: self.stored_mem(mem, z, without_bit(val, y)),
                instr: Instruction::Valid(opcode, 2, slow, "RES"),
            }
        } else {
            Step {
                cpu: self.stored_cpu(z, with_bit(val, y)),
                mem: self.stored_mem(mem, z, with_bit(val, y)),
                instr: Instruction::Valid(opcode, 2, slow, "SET"),
            }
        }
    }

    pub fn register_at(i: u8) -> (register: Register)
        requires
            i < 8,
            i != 6,
        ensures
            register == register_of(i as int),
            register != Register::F,
    {
        if i == 0 {
            Register::B
        } else if i == 1 {
            Register::C
        } else if i == 2 {
            Register::D
        } else if i == 3 {
            Register::E
        } else if i == 4 {
            Register::H
        } else if i == 5 {
            Register::L
        } else {
            Register::A
        }
    }

    pub fn read_operand(&self, mem: &Memory, i: u8) -> (val: u8)
        requires
            mem.wf(),
            i < 8,
        ensures
            val == self.operand(mem@, i as int),
    {
        if i == 6 {
            mem.read_byte(self.HL)
        } else {
            self.get_reg(Self::register_at(i))
        }
    }

    pub fn write_operand(&mut self, mem: &mut Memory, i: u8, val: u8)
        requires
            old(mem).wf(),
            i < 8,
        ensures
            final(mem).wf(),
            old(self).wf() ==> final(self).wf(),
            *final(self) == old(self).stored_cpu(i as int, val),
            final(mem)@ == old(self).stored_mem(old(mem)@, i as int, val),
    {
        if i == 6 {
            mem.write_byte(self.HL, val);
        } else {
            self.set_reg(Self::register_at(i), val);
        }
    }

    fn rotate(&mut self, kind: u8, val: u8) -> (r: (u8, &'static str))
        requires
            kind < 8,
        ensures
            r.0 == rotated(kind as int, val, old(self).carry()),
            r.1 == rotate_name(kind as int),
            *final(self) == old(self).shifted(r.0, rotated_out(kind as int, val)),
            final(self).wf(),
    {
        if kind == 0 {
            (self.rlc(val), "RLC")
        } else if kind == 1 {
            (self.rrc(val), "RRC")
        } else if kind == 2 {
            (self.rl(val), "RL")
        } else if kind == 3 {
            (self.rr(val), "RR")
        } else if kind == 4 {
            (self.sla(val), "SLA")
        } else if kind == 5 {
            (self.sra(val), "SRA")
        } else if kind == 6 {
            (self.swap(val), "SWAP")
        } else {
            (self.srl(val), "SRL")
        }
    }

    pub fn execute_cb(&mut self, opcode: u8, mem: &mut Memory) -> (instr: Instruction)
        requires
            old(self).wf(),
            old(mem).wf(),
        ensures
            final(self).wf(),
            final(mem).wf(),
            *final(self) == old(self).execute_cb_spec(old(mem)@, opcode).cpu,
            final(mem)@ == old(self).execute_cb_spec(old(mem)@, opcode).mem,
            instr == old(self).execute_cb_spec(old(mem)@, opcode).instr,
            final(self).same_trace(*old(self)),
    {
        reveal(Cpu::execute_cb_spec);
        let kind: u8 = opcode / 64;
        let y: u8 = (opcode / 8) % 8;
        let z: u8 = opcode % 8;
        let val: u8 = self.read_operand(mem, z);
        let slow: u32 = if z == 6 {
            16
        } else {
            8
        };
        if kind == 0 {
            let (result, name) = self.rotate(y, val);
            self.write_operand(mem, z, result);
            Instruction::Valid(opcode, 2, slow, name)
        } else if kind == 1 {
            self.bit(y, val);
            Instruction::Valid(
                opcode,
                2,
                if z == 6 {
                    12
                } else {
                    8
                },
                "BIT",
            )
        } else if kind == 2 {
            let result: u8 = self.res_bit(y, val);
            self.write_operand(mem, z, result);
            Instruction::Valid(opcode, 2, slow, "RES")
        } else {
            let result: u8 = self.set_bit(y, val);
            self.write_operand(mem, z, result);
            Instruction::Valid(opcode, 2, slow, "SET")
        }
    }
}

} // verus!
