//! One step of the processor: an interrupt is dispatched, or a halted
//! processor waits, or one instruction is fetched and executed.

use vstd::prelude::*;
use crate::bits::{clear_bit_of, is_bit_set, without_bit};
use crate::memory::{Memory, MemoryView};
use super::execute::{any_interrupt_pending, interrupt_pending};
use super::{
    interrupt_vector, offset, Cpu, CpuError, Instruction, DISPATCH_CYCLES, HALT_CYCLES,
};

verus! {

/// The pending interrupt of highest priority, where one is pending: the
/// one with the lowest number.
pub open spec fn lowest_pending(mem: MemoryView) -> int {
    if interrupt_pending(mem, 0) {
        0
    } else if interrupt_pending(mem, 1) {
        1
    } else if interrupt_pending(mem, 2) {
        2
    } else if interrupt_pending(mem, 3) {
        3
    } else {
        4
    }
}

/// The processor and the bus after a step, and the cycles it took or
/// the reason it could not be taken.
pub struct Outcome {
    pub cpu: Cpu,
    pub mem: MemoryView,
    pub result: Result<u32, CpuError>,
}

impl Cpu {
    /// The processor after interrupt `k` is dispatched: PC is pushed
    /// and takes the interrupt's vector, IME is cleared and HALT left.
    pub open spec fn dispatch_cpu(self, k: int) -> Cpu {
        Cpu {
            PC: interrupt_vector(k),
            IME: false,
            HALT: false,
            triggered_interruption: Some(k as u8),
            ..self.push_spec()
        }
    }

    /// The bus after interrupt `k` is dispatched: its flag is cleared in
    /// IF, then PC is pushed.
    pub open spec fn dispatch_mem(self, mem: MemoryView, k: int) -> MemoryView {
        self.push_mem(mem.write(0xFF0F, without_bit(mem.read(0xFF0F), k)), self.PC)
    }

    /// Whether the next step dispatches an interrupt.
    pub open spec fn dispatches(self, mem: MemoryView) -> bool {
        self.IME && any_interrupt_pending(mem)
    }

    /// Whether the next step only waits: the processor is halted and no
    /// interrupt is pending.
    pub open spec fn waits(self, mem: MemoryView) -> bool {
        !self.dispatches(mem) && self.HALT && !any_interrupt_pending(mem)
    }

    /// Whether the next step executes the instruction at PC.
    pub open spec fn executes(self, mem: MemoryView) -> bool {
        !self.dispatches(mem) && !self.waits(mem)
    }

    /// The processor as it starts on the instruction at PC: awake, with
    /// the trace line `trace` taken. Where HALT was skipped the opcode is
    /// executed as if it stood one byte earlier, so that PC does not
    /// move past it.
    pub open spec fn fetching(self, trace: String) -> Cpu {
        Cpu {
            HALT: false,
            halt_bug: false,
            triggered_interruption: None,
            last_regs: trace,
            clock_m: 0,
            operations: self.operations.wrapping_add(1),
            PC: if self.halt_bug {
                offset(self.PC, -1)
            } else {
                self.PC
            },
            ..self
        }
    }

    /// What the opcode at PC does: through the prefixed table where it
    /// is 0xCB, else through the base table.
    pub open spec fn fetched(self, mem: MemoryView, trace: String) -> super::Step {
        let opcode = mem.read(self.PC);
        let at = self.fetching(trace);
        if opcode == 0xCB {
            at.execute_cb_spec(mem, at.n(mem))
        } else {
            at.execute_spec(mem, opcode)
        }
    }

    /// One step.
    ///
    /// With IME set and an interrupt pending, the interrupt is
    /// dispatched; that takes 20 cycles. Else a halted processor with
    /// nothing pending waits 4 cycles. Else the opcode at PC is executed:
    /// PC moves on by what the instruction reports and the step takes
    /// its cycles. IME turns on after the instruction that follows EI.
    /// An opcode that names no instruction is an error, and the bus is
    /// left as it was.
    pub open spec fn step_spec(self, mem: MemoryView, trace: String) -> Outcome {
        if self.dispatches(mem) {
            Outcome {
                cpu: Cpu {
                    clock_m: 0,
                    clock_t: 20,
                    operations: self.operations.wrapping_add(1),
                    ..self.dispatch_cpu(lowest_pending(mem))
                },
                mem: self.dispatch_mem(mem, lowest_pending(mem)),
                result: Ok(20),
            }
        } else if self.waits(mem) {
            Outcome {
                cpu: Cpu {
                    clock_m: 0,
                    clock_t: 4,
                    operations: self.operations.wrapping_add(1),
                    triggered_interruption: None,
                    ..self
                },
                mem,
                result: Ok(4),
            }
        } else {
            self.executed(mem, trace)
        }
    }

    /// The number of the pending interrupt of highest priority, if one
    /// is pending.
    pub fn pending_interrupt(mem: &Memory) -> (found: Option<u8>)
        requires
            mem.wf(),
        ensures
            found is Some == any_interrupt_pending(mem@),
            found is Some ==> found->0 == lowest_pending(mem@) && found->0 < 5,
    {
        let enabled: u8 = mem.read_byte(0xFFFF);
        let flagged: u8 = mem.read_byte(0xFF0F);
        if is_bit_set(enabled, 0) && is_bit_set(flagged, 0) {
            Some(0)
        } else if is_bit_set(enabled, 1) && is_bit_set(flagged, 1) {
            Some(1)
        } else if is_bit_set(enabled, 2) && is_bit_set(flagged, 2) {
            Some(2)
        } else if is_bit_set(enabled, 3) && is_bit_set(flagged, 3) {
            Some(3)
        } else if is_bit_set(enabled, 4) && is_bit_set(flagged, 4) {
            Some(4)
        } else {
            None
        }
    }

    /// Dispatches the pending interrupt of highest priority where IME
    /// allows it, and says whether it did.
    pub fn check_interrupt_status(&mut self, mem: &mut Memory) -> (fired: bool)
        requires
            old(mem).wf(),
        ensures
            final(mem).wf(),
            old(self).wf() ==> final(self).wf(),
            fired == old(self).dispatches(old(mem)@),
            fired ==> *final(self) == old(self).dispatch_cpu(lowest_pending(old(mem)@))
                && final(mem)@ == old(self).dispatch_mem(old(mem)@, lowest_pending(old(mem)@)),
            !fired ==> *final(self) == (Cpu { triggered_interruption: None, ..*old(self) })
                && final(mem)@ == old(mem)@,
    {
        self.triggered_interruption = None;
        if !self.IME {
            return false;
        }
        match Self::pending_interrupt(mem) {
            Some(k) => {
                let flagged: u8 = mem.read_byte(0xFF0F);
                mem.write_byte(0xFF0F, clear_bit_of(flagged, k));
                self.rst_interrupt(mem, 0x40 + 8 * (k as u16));
                self.triggered_interruption = Some(k);
                true
            },
            None => false,
        }
    }

    /// The outcome of a step that executes the instruction at PC.
    pub open spec fn executed(self, mem: MemoryView, trace: String) -> Outcome {
        let step = self.fetched(mem, trace);
        match step.instr {
            Instruction::Valid(_, length, cycles, _) => Outcome {
                cpu: Cpu {
                    PC: offset(step.cpu.PC, length as int),
                    clock_t: cycles,
                    IME: step.cpu.IME || (self.ime_pending && step.cpu.ime_pending),
                    ime_pending: step.cpu.ime_pending && !self.ime_pending,
                    last_instruction: step.instr,
                    ..step.cpu
                },
                mem: step.mem,
                result: Ok(cycles),
            },
            _ => Outcome {
                cpu: Cpu { last_instruction: step.instr, ..step.cpu },
                mem: step.mem,
                result: Err(CpuError::IllegalOpcode { pc: self.PC, opcode: mem.read(self.PC) }),
            },
        }
    }

    /// Fetches the opcode at PC and executes it.
    #[verifier::rlimit(50)]
    pub fn run_instruction(&mut self, mem: &mut Memory) -> (result: Result<u32, CpuError>)
        requires
            old(self).wf(),
            old(mem).wf(),
        ensures
            final(self).wf(),
            final(mem).wf(),
            final(self).last_regs@ == old(self).doctor_line(old(mem)@),
            *final(self) == old(self).executed(old(mem)@, final(self).last_regs).cpu,
            final(mem)@ == old(self).executed(old(mem)@, final(self).last_regs).mem,
            result == old(self).executed(old(mem)@, final(self).last_regs).result,
    {
        let pc: u16 = self.PC;
        let opcode: u8 = mem.read_byte(pc);
        let trace: String = self.registers_doctor_str(mem);
        let was_pending: bool = self.ime_pending;
        self.begin_fetch(trace);
        let ghost at = *self;
        let instr: Instruction = if opcode == 0xCB {
            let second: u8 = self.get_n(mem);
            self.execute_cb(second, mem)
        } else {
            self.execute(opcode, mem)
        };
        assert(instr == old(self).fetched(old(mem)@, at.last_regs).instr);
        self.last_instruction = instr;
        match instr {
            Instruction::Valid(_, length, cycles, _) => {
                self.PC = self.PC.wrapping_add(length);
                self.clock_t = cycles;
                if was_pending && self.ime_pending {
                    self.IME = true;
                    self.ime_pending = false;
                }
                Ok(cycles)
            },
            _ => Err(CpuError::IllegalOpcode { pc, opcode }),
        }
    }

    fn begin_fetch(&mut self, trace: String)
        ensures
            *final(self) == old(self).fetching(trace),
            old(self).wf() ==> final(self).wf(),
    {
        self.HALT = false;
        self.triggered_interruption = None;
        self.last_regs = trace;
        self.clock_m = 0;
        self.operations = self.operations.wrapping_add(1);
        if self.halt_bug {
            self.halt_bug = false;
            self.PC = self.PC.wrapping_sub(1);
        }
    }

    /// Takes one step and returns the cycles it took.
    pub fn fetch_decode(&mut self, mem: &mut Memory) -> (result: Result<u32, CpuError>)
        requires
            old(self).wf(),
            old(mem).wf(),
        ensures
            final(self).wf(),
            final(mem).wf(),
            old(self).executes(old(mem)@) ==> final(self).last_regs@ == old(self).doctor_line(
                old(mem)@,
            ),
            *final(self) == old(self).step_spec(old(mem)@, final(self).last_regs).cpu,
            final(mem)@ == old(self).step_spec(old(mem)@, final(self).last_regs).mem,
            result == old(self).step_spec(old(mem)@, final(self).last_regs).result,
    {
        let pending: bool = Self::interrupts_pending(mem);
        if self.IME && pending {
            self.check_interrupt_status(mem);
            self.operations = self.operations.wrapping_add(1);
            self.set_clocks(0, DISPATCH_CYCLES);
            return Ok(DISPATCH_CYCLES);
        }
        if self.HALT && !pending {
            self.triggered_interruption = None;
            self.operations = self.operations.wrapping_add(1);
            self.set_clocks(0, HALT_CYCLES);
            return Ok(HALT_CYCLES);
        }
        self.run_instruction(mem)
    }

    /// Takes one step and returns the cycles it took.
    pub fn tick(&mut self, mem: &mut Memory) -> (result: Result<u32, CpuError>)
        requires
            old(self).wf(),
            old(mem).wf(),
        ensures
            final(self).wf(),
            final(mem).wf(),
            *final(self) == old(self).step_spec(old(mem)@, final(self).last_regs).cpu,
            final(mem)@ == old(self).step_spec(old(mem)@, final(self).last_regs).mem,
            result == old(self).step_spec(old(mem)@, final(self).last_regs).result,
    {
        self.fetch_decode(mem)
    }
}

} // verus!
