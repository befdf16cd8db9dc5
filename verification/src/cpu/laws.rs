//! What holds of every opcode of the base and prefixed tables.

use vstd::prelude::*;
use crate::memory::laws::{is_ram, lemma_word_round_trip};
use crate::memory::{next_addr, MemoryView};
use crate::bits::{lemma_bit_others, lemma_bit_update, with_bit, without_bit};
use super::{lower, offset, pair, upper, Cpu, Flag, Instruction, Register, Step};

verus! {

/// The opcodes of the base table that name no instruction. 0xCB is
/// among them: it is the prefix, and is only ever executed through the
/// prefixed table.
pub open spec fn is_unmapped(opcode: u8) -> bool {
    ||| opcode == 0xCB
    ||| opcode == 0xD3
    ||| opcode == 0xDB
    ||| opcode == 0xDD
    ||| opcode == 0xE3
    ||| opcode == 0xE4
    ||| opcode == 0xEB
    ||| opcode == 0xEC
    ||| opcode == 0xED
    ||| opcode == 0xF4
    ||| opcode == 0xFC
    ||| opcode == 0xFD
}

/// What every instruction that runs reports: its own opcode, a move of
/// PC by at most 3 bytes, and between 4 and 24 cycles, a multiple of 4.
pub open spec fn well_shaped(step: Step, opcode: u8) -> bool {
    &&& step.instr is Valid
    &&& step.instr->Valid_0 == opcode
    &&& step.instr->Valid_1 <= 3
    &&& 4 <= step.instr->Valid_2 <= 24
    &&& step.instr->Valid_2 % 4 == 0
}

/// A step in which nothing ran and nothing changed.
pub open spec fn refused_step(step: Step, cpu: Cpu, mem: MemoryView, opcode: u8) -> bool {
    step.instr == Instruction::Invalid(opcode) && step.cpu == cpu && step.mem == mem
}

proof fn lemma_low_shape(cpu: Cpu, mem: MemoryView, opcode: u8)
    ensures
        well_shaped(cpu.control_spec(mem, opcode), opcode),
        well_shaped(cpu.pair_load_spec(mem, opcode), opcode),
        well_shaped(cpu.indirect_spec(mem, opcode), opcode),
        well_shaped(cpu.pair_step_spec(mem, opcode), opcode),
        well_shaped(cpu.accumulator_spec(mem, opcode), opcode),
        well_shaped(cpu.byte_step_spec(mem, opcode), opcode),
        well_shaped(cpu.low_spec(mem, opcode), opcode),
{
}

proof fn lemma_high_page_shape(cpu: Cpu, mem: MemoryView, opcode: u8)
    ensures
        well_shaped(cpu.high_page_spec(mem, opcode), opcode),
        well_shaped(cpu.pop_spec_group(mem, opcode), opcode),
        well_shaped(cpu.jump_spec(mem, opcode), opcode),
        well_shaped(cpu.immediate_spec(mem, opcode), opcode),
{
}

proof fn lemma_interrupt_shape(cpu: Cpu, mem: MemoryView, opcode: u8)
    ensures
        ({
            let y = (opcode as int / 8) % 8;
            if y == 0 || y == 6 || y == 7 {
                well_shaped(cpu.interrupt_spec(mem, opcode), opcode)
            } else {
                refused_step(cpu.interrupt_spec(mem, opcode), cpu, mem, opcode)
            }
        }),
{
}

proof fn lemma_call_shape(cpu: Cpu, mem: MemoryView, opcode: u8)
    ensures
        ({
            let y = (opcode as int / 8) % 8;
            let z = opcode as int % 8;
            if (z == 4 && y < 4) || (z == 5 && (y % 2 == 0 || y == 1)) {
                well_shaped(cpu.call_spec(mem, opcode), opcode)
            } else {
                refused_step(cpu.call_spec(mem, opcode), cpu, mem, opcode)
            }
        }),
{
}

/// Which opcodes of the last quarter of the table are unmapped, by
/// their fields.
proof fn lemma_unmapped_fields(opcode: u8)
    requires
        opcode >= 192,
    ensures
        ({
            let y = (opcode as int / 8) % 8;
            let z = opcode as int % 8;
            is_unmapped(opcode) <==> (z == 3 && 1 <= y <= 5) || (z == 4 && y >= 4) || (z == 5
                && y % 2 == 1 && y != 1)
        }),
{
    let y = (opcode as int / 8) % 8;
    let z = opcode as int % 8;
    assert(opcode == 192 + 8 * y + z);
}

proof fn lemma_high_shape(cpu: Cpu, mem: MemoryView, opcode: u8)
    requires
        opcode >= 192,
    ensures
        is_unmapped(opcode) ==> refused_step(cpu.high_spec(mem, opcode), cpu, mem, opcode),
        !is_unmapped(opcode) ==> well_shaped(cpu.high_spec(mem, opcode), opcode),
{
    lemma_unmapped_fields(opcode);
    lemma_high_page_shape(cpu, mem, opcode);
    lemma_interrupt_shape(cpu, mem, opcode);
    lemma_call_shape(cpu, mem, opcode);
}

/// The base table is total: every opcode either runs, and is then well
/// shaped, or is one of the unmapped ones, and then changes nothing.
pub proof fn lemma_base_table_total(cpu: Cpu, mem: MemoryView, opcode: u8)
    ensures
        is_unmapped(opcode) ==> refused_step(cpu.execute_spec(mem, opcode), cpu, mem, opcode),
        !is_unmapped(opcode) ==> well_shaped(cpu.execute_spec(mem, opcode), opcode),
{
    reveal(Cpu::execute_spec);
    let x = opcode as int / 64;
    if x == 0 {
        lemma_low_shape(cpu, mem, opcode);
    } else if x == 1 {
        assert(well_shaped(cpu.load_spec(mem, opcode), opcode));
    } else if x == 2 {
        assert(well_shaped(cpu.arithmetic_spec(mem, opcode), opcode));
    } else {
        lemma_high_shape(cpu, mem, opcode);
    }
}

/// The prefixed table is total: every opcode runs, is two bytes long
/// and takes 8, 12 or 16 cycles.
pub proof fn lemma_prefixed_table_total(cpu: Cpu, mem: MemoryView, opcode: u8)
    ensures
        cpu.execute_cb_spec(mem, opcode).instr is Valid,
        cpu.execute_cb_spec(mem, opcode).instr->Valid_0 == opcode,
        cpu.execute_cb_spec(mem, opcode).instr->Valid_1 == 2,
        cpu.execute_cb_spec(mem, opcode).instr->Valid_2 == 8 || cpu.execute_cb_spec(
            mem,
            opcode,
        ).instr->Valid_2 == 12 || cpu.execute_cb_spec(mem, opcode).instr->Valid_2 == 16,
{
    reveal(Cpu::execute_cb_spec);
}

/// A step fails exactly where the byte at PC is an unmapped opcode
/// other than the prefix, the processor is not about to take an
/// interrupt and is not waiting in HALT.
pub proof fn lemma_step_fails_on_unmapped(cpu: Cpu, mem: MemoryView, trace: String)
    ensures
        cpu.step_spec(mem, trace).result is Err <==> cpu.executes(mem) && is_unmapped(
            mem.read(cpu.PC),
        ) && mem.read(cpu.PC) != 0xCB,
        cpu.step_spec(mem, trace).result is Err ==> cpu.step_spec(mem, trace).mem == mem,
{
    let opcode = mem.read(cpu.PC);
    let at = cpu.fetching(trace);
    lemma_base_table_total(at, mem, opcode);
    lemma_prefixed_table_total(at, mem, at.n(mem));
}

/// The four flags read back as they were set, A stays, and F's low four
/// bits are 0.
pub proof fn lemma_flags_read_back(cpu: Cpu, z: bool, n: bool, h: bool, c: bool)
    ensures
        cpu.with_flags(z, n, h, c).flag(Flag::Z) == z,
        cpu.with_flags(z, n, h, c).flag(Flag::N) == n,
        cpu.with_flags(z, n, h, c).flag(Flag::H) == h,
        cpu.with_flags(z, n, h, c).flag(Flag::C) == c,
        cpu.with_flags(z, n, h, c).a() == cpu.a(),
        cpu.with_flags(z, n, h, c).wf(),
{
}

/// A and the four flags read back as they were set together.
pub proof fn lemma_a_flags_read_back(cpu: Cpu, a: u8, z: bool, n: bool, h: bool, c: bool)
    ensures
        cpu.with_a_flags(a, z, n, h, c).a() == a,
        cpu.with_a_flags(a, z, n, h, c).flag(Flag::Z) == z,
        cpu.with_a_flags(a, z, n, h, c).flag(Flag::N) == n,
        cpu.with_a_flags(a, z, n, h, c).flag(Flag::H) == h,
        cpu.with_a_flags(a, z, n, h, c).flag(Flag::C) == c,
        cpu.with_a_flags(a, z, n, h, c).wf(),
{
}

/// One flag set or cleared reads back so, and the other three and A
/// stay.
pub proof fn lemma_flag_read_back(cpu: Cpu, flag: Flag, val: bool, other: Flag)
    requires
        other != flag,
    ensures
        cpu.with_flag(flag, val).flag(flag) == val,
        cpu.with_flag(flag, val).flag(other) == cpu.flag(other),
        cpu.with_flag(flag, val).a() == cpu.a(),
        cpu.wf() ==> cpu.with_flag(flag, val).wf(),
{
    let f = lower(cpu.AF);
    let changed = if val {
        with_bit(f, flag.index())
    } else {
        without_bit(f, flag.index())
    };
    lemma_bit_update(f, flag.index());
    lemma_bit_others(f, flag.index(), other.index());
    lemma_pair_parts(upper(cpu.AF), changed);
    assert(cpu.with_flag(flag, val).AF == pair(upper(cpu.AF), changed));
}

/// A pair made of two bytes has them as its halves.
pub proof fn lemma_pair_parts(hi: u8, lo: u8)
    ensures
        upper(pair(hi, lo)) == hi,
        lower(pair(hi, lo)) == lo,
        pair(hi, lo) % 16 == lo % 16,
{
}

/// A byte put in a register other than F reads back, and every other
/// register stays.
#[verifier::rlimit(50)]
pub proof fn lemma_register_read_back(cpu: Cpu, register: Register, val: u8, other: Register)
    requires
        register != Register::F,
        other != register,
    ensures
        cpu.with_reg(register, val).reg(register) == val,
        cpu.with_reg(register, val).reg(other) == cpu.reg(other),
        cpu.wf() ==> cpu.with_reg(register, val).wf(),
{
}

/// Whether the two bytes below SP are plain memory, so that a word can
/// be pushed there.
pub open spec fn stack_in_ram(cpu: Cpu) -> bool {
    is_ram(offset(cpu.SP, -2)) && is_ram(offset(cpu.SP, -1))
}

/// A word pushed is the word popped, and SP is back where it was.
pub proof fn lemma_push_then_pop(cpu: Cpu, mem: MemoryView, val: u16)
    requires
        mem.wf(),
        stack_in_ram(cpu),
    ensures
        cpu.push_mem(mem, val).read_word(cpu.push_spec().SP) == val,
        cpu.push_spec().pop_spec().SP == cpu.SP,
{
    let top = offset(cpu.SP, -2);
    assert(next_addr(top) == offset(cpu.SP, -1));
    lemma_word_round_trip(mem, top, val);
}

/// A call followed by a return comes back to the instruction after the
/// call with the stack as it was: CALL a16 pushes the address of the
/// next instruction and RET pops it.
pub proof fn lemma_call_then_ret(cpu: Cpu, mem: MemoryView)
    requires
        mem.wf(),
        stack_in_ram(cpu),
    ensures
        ({
            let call = cpu.call_spec(mem, 0xCD);
            let back = call.cpu.pop_spec_group(call.mem, 0xC9);
            &&& call.cpu.PC == cpu.nn(mem)
            &&& call.cpu.SP == offset(cpu.SP, -2)
            &&& call.mem.read_word(call.cpu.SP) == offset(cpu.PC, 3)
            &&& back.cpu.PC == offset(cpu.PC, 3)
            &&& back.cpu.SP == cpu.SP
            &&& back.mem == call.mem
        }),
{
    lemma_push_then_pop(cpu, mem, offset(cpu.PC, 3));
}

} // verus!
