//! The arithmetic, stack and jump operations that the base opcodes are
//! made of.

use vstd::prelude::*;
use crate::memory::{Memory, MemoryType, MemoryView};
use super::{offset, signed, Cpu, Flag, Register};

verus! {

/// Whether adding two bytes carries out of bit 3.
pub open spec fn half_carry_add(a: u8, b: u8) -> bool {
    a % 16 + b % 16 > 15
}

/// Whether taking `a` from `b` borrows from bit 4.
pub open spec fn half_borrow_sub(b: u8, a: u8) -> bool {
    b % 16 < a % 16
}

/// Whether adding two words carries out of bit 11.
pub open spec fn half_carry_add_16(a: u16, b: u16) -> bool {
    a % 0x1000 + b % 0x1000 > 0xFFF
}

/// Whether taking `a` from `b` borrows from bit 12.
pub open spec fn half_borrow_sub_16(b: u16, a: u16) -> bool {
    a % 0x1000 > b % 0x1000
}

/// A after the decimal adjustment, for the flags N, H and C it finds.
pub open spec fn daa_result(a: u8, n: bool, h: bool, c: bool) -> u8 {
    if n {
        ((a - (if h {
            6int
        } else {
            0int
        }) - (if c {
            0x60int
        } else {
            0int
        })) % 256) as u8
    } else {
        ((a + (if h || a % 16 > 9 {
            6int
        } else {
            0int
        }) + (if c || a > 0x99 {
            0x60int
        } else {
            0int
        })) % 256) as u8
    }
}

/// The carry flag after the decimal adjustment.
pub open spec fn daa_carry(a: u8, n: bool, c: bool) -> bool {
    c || (!n && a > 0x99)
}

impl Cpu {
    /// ADD A,b: A takes the sum; Z from the result, N clear, H the carry
    /// out of bit 3, C the carry out of bit 7.
    pub open spec fn add_a_spec(self, b: u8) -> Cpu {
        let a = self.a();
        self.with_a_flags(
            ((a + b) % 256) as u8,
            (a + b) % 256 == 0,
            false,
            half_carry_add(a, b),
            a + b > 255,
        )
    }

    /// ADC A,b: as ADD, with the carry flag added in.
    pub open spec fn adc_a_spec(self, b: u8) -> Cpu {
        let a = self.a();
        let c = self.carry();
        self.with_a_flags(
            ((a + b + c) % 256) as u8,
            (a + b + c) % 256 == 0,
            false,
            a % 16 + b % 16 + c > 15,
            a + b + c > 255,
        )
    }

    /// SUB b: A takes the difference; Z from the result, N set, H the
    /// borrow from bit 4, C the borrow.
    pub open spec fn sub_a_spec(self, b: u8) -> Cpu {
        let a = self.a();
        self.with_a_flags(
            ((a - b) % 256) as u8,
            (a - b) % 256 == 0,
            true,
            half_borrow_sub(a, b),
            a < b,
        )
    }

    /// SBC A,b: as SUB, with the carry flag taken away too.
    pub open spec fn sbc_a_spec(self, b: u8) -> Cpu {
        let a = self.a();
        let c = self.carry();
        self.with_a_flags(
            ((a - b - c) % 256) as u8,
            (a - b - c) % 256 == 0,
            true,
            a % 16 < b % 16 + c,
            a < b + c,
        )
    }

    /// AND b: Z from the result, N clear, H set, C clear.
    pub open spec fn and_a_spec(self, b: u8) -> Cpu {
        self.with_a_flags(self.a() & b, self.a() & b == 0, false, true, false)
    }

    /// XOR b: Z from the result, the other flags clear.
    pub open spec fn xor_a_spec(self, b: u8) -> Cpu {
        self.with_a_flags(self.a() ^ b, self.a() ^ b == 0, false, false, false)
    }

    /// OR b: Z from the result, the other flags clear.
    pub open spec fn or_a_spec(self, b: u8) -> Cpu {
        self.with_a_flags(self.a() | b, self.a() | b == 0, false, false, false)
    }

    /// CP b: the flags of SUB, with A left as it is.
    pub open spec fn cp_a_spec(self, b: u8) -> Cpu {
        let a = self.a();
        self.with_flags((a - b) % 256 == 0, true, half_borrow_sub(a, b), a < b)
    }

    /// The flags after an 8-bit INC of `val`; C stays.
    pub open spec fn inc_8_spec(self, val: u8) -> Cpu {
        self.with_flags((val + 1) % 256 == 0, false, half_carry_add(val, 1), self.flag(Flag::C))
    }

    /// The flags after an 8-bit DEC of `val`; C stays.
    pub open spec fn dec_8_spec(self, val: u8) -> Cpu {
        self.with_flags((val - 1) % 256 == 0, true, half_borrow_sub(val, 1), self.flag(Flag::C))
    }

    /// The flags after a 16-bit add of `val` to `reg`: Z stays, N clear,
    /// H the carry out of bit 11, C the carry out of bit 15.
    pub open spec fn add_16_spec(self, reg: u16, val: u16) -> Cpu {
        self.with_flags(self.flag(Flag::Z), false, half_carry_add_16(reg, val), reg + val > 0xFFFF)
    }

    /// The flags after a 16-bit subtraction of `val` from `reg`: Z stays,
    /// N set, H the borrow from bit 12, C the borrow.
    pub open spec fn sub_16_spec(self, reg: u16, val: u16) -> Cpu {
        self.with_flags(self.flag(Flag::Z), true, half_borrow_sub_16(reg, val), reg < val)
    }

    /// The flags after the signed byte `val` is added to SP: Z and N
    /// clear, H and C the carries out of bit 3 and bit 7 of SP's low byte
    /// added to `val`.
    pub open spec fn sp_flags_spec(self, val: u8) -> Cpu {
        self.with_flags(
            false,
            false,
            self.SP % 16 + val % 16 > 15,
            self.SP % 256 + val > 255,
        )
    }

    /// ADD SP,e8.
    pub open spec fn add_sp_spec(self, val: u8) -> Cpu {
        Cpu { SP: offset(self.SP, signed(val)), ..self.sp_flags_spec(val) }
    }

    /// DAA: A adjusted to packed decimal after an addition or a
    /// subtraction; N stays, H clear, Z from the result.
    pub open spec fn daa_spec(self) -> Cpu {
        let n = self.flag(Flag::N);
        let r = daa_result(self.a(), n, self.flag(Flag::H), self.flag(Flag::C));
        self.with_a_flags(r, r == 0, n, false, daa_carry(self.a(), n, self.flag(Flag::C)))
    }

    /// The processor after a relative jump by `amount` from the
    /// two-byte instruction at PC.
    pub open spec fn jump_relative_spec(self, amount: i8) -> Cpu {
        Cpu { PC: offset(self.PC, 2 + amount), ..self }
    }

    /// The processor after a word is popped.
    pub open spec fn pop_spec(self) -> Cpu {
        Cpu { SP: offset(self.SP, 2), ..self }
    }

    /// The processor after a word is pushed.
    pub open spec fn push_spec(self) -> Cpu {
        Cpu { SP: offset(self.SP, -2), ..self }
    }

    /// The bus after `val` is pushed.
    pub open spec fn push_mem(self, mem: MemoryView, val: u16) -> MemoryView {
        mem.write_word(offset(self.SP, -2), val)
    }

    pub fn get_n(&self, mem: &Memory) -> (val: u8)
        requires
            mem.wf(),
        ensures
            val == self.n(mem@),
    {
        mem.read_byte(self.PC.wrapping_add(1))
    }

    pub fn get_nn(&self, mem: &Memory) -> (val: u16)
        requires
            mem.wf(),
        ensures
            val == self.nn(mem@),
    {
        mem.read_word(self.PC.wrapping_add(1))
    }

    pub fn overflow_add(a: u8, b: u8) -> (r: (u8, bool))
        ensures
            r.0 == (a + b) % 256,
            r.1 == (a + b > 255),
    {
        match a.checked_add(b) {
            Some(x) => (x, false),
            None => (a.wrapping_add(b), true),
        }
    }

    pub fn overflow_add_16(a: u16, b: u16) -> (r: (u16, bool))
        ensures
            r.0 == (a + b) % 0x10000,
            r.1 == (a + b > 0xFFFF),
    {
        match a.checked_add(b) {
            Some(x) => (x, false),
            None => (a.wrapping_add(b), true),
        }
    }

    pub fn add_a(&mut self, b: u8)
        ensures
            *final(self) == old(self).add_a_spec(b),
            final(self).wf(),
    {
        let a = self.get_a();
        let (new_a, carry) = Self::overflow_add(a, b);
        self.set_a(new_a);
        self.set_flags(new_a == 0, false, Self::is_half_carry_add(a, b), carry);
    }

    pub fn adc_a(&mut self, b: u8)
        ensures
            *final(self) == old(self).adc_a_spec(b),
            final(self).wf(),
    {
        let before_a = self.get_a();
        let carry_val: u8 = if self.get_flag(Flag::C) {
            1
        } else {
            0
        };
        let half_carry = (before_a % 16) + (b % 16) + carry_val > 0xF;
        let sum: u16 = (before_a as u16) + (b as u16) + (carry_val as u16);
        let carry = sum > 0xFF;
        let result: u8 = (sum % 256) as u8;
        self.set_a(result);
        self.set_flags(result == 0, false, half_carry, carry);
    }

    pub fn sub_a(&mut self, b: u8)
        ensures
            *final(self) == old(self).sub_a_spec(b),
            final(self).wf(),
    {
        let a = self.get_a();
        let (new_a, borrow) = Self::borrow_sub(a, b);
        self.set_a(new_a);
        self.set_flags(new_a == 0, true, Self::is_half_borrowing_sub(a, b), borrow);
    }

    #[verifier::rlimit(50)]
    pub fn sbc_a(&mut self, b: u8)
        ensures
            *final(self) == old(self).sbc_a_spec(b),
            final(self).wf(),
    {
        let before_a = self.get_a();
        let carry: u8 = if self.get_flag(Flag::C) {
            1
        } else {
            0
        };
        let taken: u16 = b as u16 + carry as u16;
        let result: u8 = ((before_a as u16 + 256 - taken) % 256) as u8;
        let borrow = (before_a as u16) < taken;
        let half_borrow = before_a % 16 < b % 16 + carry;
        self.set_a(result);
        self.set_flags(result == 0, true, half_borrow, borrow);
    }

    pub fn add_sp_16_signed(&mut self, val: u8)
        ensures
            *final(self) == old(self).add_sp_spec(val),
            final(self).wf(),
    {
        let half = (self.SP % 16) + (val as u16 % 16) > 15;
        let carry = (self.SP % 256) + (val as u16) > 255;
        self.set_flags(false, false, half, carry);
        self.SP = Self::offset_signed(self.SP, val);
    }

    /// `addr` moved by the byte `val` read as a signed number.
    pub fn offset_signed(addr: u16, val: u8) -> (r: u16)
        ensures
            r == offset(addr, signed(val)),
    {
        if val < 128 {
            addr.wrapping_add(val as u16)
        } else {
            addr.wrapping_sub(256 - val as u16)
        }
    }

    pub fn add_16(&mut self, reg: u16, val: u16) -> (result: u16)
        ensures
            *final(self) == old(self).add_16_spec(reg, val),
            result == (reg + val) % 0x10000,
            final(self).wf(),
    {
        let (result, overflow) = Self::overflow_add_16(reg, val);
        let zero = self.get_flag(Flag::Z);
        self.set_flags(zero, false, Self::is_half_carry_on_add_16(reg, val), overflow);
        result
    }

    pub fn sub_16(&mut self, reg: u16, val: u16) -> (result: u16)
        ensures
            *final(self) == old(self).sub_16_spec(reg, val),
            result == (reg - val) % 0x10000,
            final(self).wf(),
    {
        let (result, overflow) = Self::borrow_sub_16(reg, val);
        let zero = self.get_flag(Flag::Z);
        self.set_flags(zero, true, Self::is_half_carry_on_sub_16(reg, val), overflow);
        result
    }

    pub fn and_a(&mut self, b: u8)
        ensures
            *final(self) == old(self).and_a_spec(b),
            final(self).wf(),
    {
        let a = self.get_a();
        let result = a & b;
        self.set_a(result);
        self.set_flags(result == 0, false, true, false);
    }

    pub fn xor_a(&mut self, b: u8)
        ensures
            *final(self) == old(self).xor_a_spec(b),
            final(self).wf(),
    {
        let a = self.get_a();
        let result = a ^ b;
        self.set_a(result);
        self.set_flags(result == 0, false, false, false);
    }

    pub fn or_a(&mut self, b: u8)
        ensures
            *final(self) == old(self).or_a_spec(b),
            final(self).wf(),
    {
        let a = self.get_a();
        let result = a | b;
        self.set_a(result);
        self.set_flags(result == 0, false, false, false);
    }

    pub fn cp_a(&mut self, b: u8)
        ensures
            *final(self) == old(self).cp_a_spec(b),
            final(self).wf(),
    {
        let a = self.get_a();
        self.sub_a(b);
        self.set_a(a);
    }

    /// A and the carry flag after the decimal adjustment.
    pub fn daa_adjust(a: u8, n: bool, h: bool, c: bool) -> (r: (u8, bool))
        ensures
            r.0 == daa_result(a, n, h, c),
            r.1 == daa_carry(a, n, c),
    {
        let low: u16 = if n {
            if h {
                6
            } else {
                0
            }
        } else {
            if h || a % 16 > 9 {
                6
            } else {
                0
            }
        };
        let high: u16 = if n {
            if c {
                0x60
            } else {
                0
            }
        } else {
            if c || a > 0x99 {
                0x60
            } else {
                0
            }
        };
        if n {
            (((a as u16 + 256 - low - high) % 256) as u8, c)
        } else {
            (((a as u16 + low + high) % 256) as u8, c || a > 0x99)
        }
    }

    /// The decimal adjustment of A.
    pub fn daa(&mut self)
        ensures
            *final(self) == old(self).daa_spec(),
            final(self).wf(),
    {
        let n: bool = self.get_flag(Flag::N);
        let (result, carry) = Self::daa_adjust(
            self.get_a(),
            n,
            self.get_flag(Flag::H),
            self.get_flag(Flag::C),
        );
        self.set_a(result);
        self.set_flags(result == 0, n, false, carry);
    }

    pub fn jump_relative(&mut self, amount: i8)
        ensures
            *final(self) == old(self).jump_relative_spec(amount),
    {
        let next: u16 = self.PC.wrapping_add(2);
        self.PC = if amount >= 0 {
            next.wrapping_add(amount as u16)
        } else {
            next.wrapping_sub((-(amount as i16)) as u16)
        };
    }

    /// Jumps by `amount` where `flag` has the value `flag_set`, and says
    /// whether it did.
    pub fn jump_relative_with_flag(&mut self, amount: i8, flag: Flag, flag_set: bool) -> (jumped:
        bool)
        ensures
            jumped == (old(self).flag(flag) == flag_set),
            jumped ==> *final(self) == old(self).jump_relative_spec(amount),
            !jumped ==> *final(self) == *old(self),
    {
        if flag_set != self.get_flag(flag) {
            return false;
        }
        self.jump_relative(amount);
        true
    }

    pub fn borrow_sub(b: u8, a: u8) -> (r: (u8, bool))
        ensures
            r.0 == (b - a) % 256,
            r.1 == (b < a),
    {
        match b.checked_sub(a) {
            Some(x) => (x, false),
            None => (b.wrapping_sub(a), true),
        }
    }

    pub fn borrow_sub_16(a: u16, b: u16) -> (r: (u16, bool))
        ensures
            r.0 == (a - b) % 0x10000,
            r.1 == (a < b),
    {
        match a.checked_sub(b) {
            Some(x) => (x, false),
            None => (a.wrapping_sub(b), true),
        }
    }

    pub fn dec_8(&mut self, val: u8) -> (result: u8)
        ensures
            *final(self) == old(self).dec_8_spec(val),
            result == (val - 1) % 256,
            final(self).wf(),
    {
        let half_borrow = Self::is_half_borrowing_sub(val, 1);
        let result = val.wrapping_sub(1);
        let carry = self.get_flag(Flag::C);
        self.set_flags(result == 0, true, half_borrow, carry);
        result
    }

    pub fn dec_register(&mut self, register: Register)
        ensures
            *final(self) == old(self).dec_8_spec(old(self).reg(register)).with_reg(
                register,
                ((old(self).reg(register) - 1) % 256) as u8,
            ),
            final(self).wf(),
    {
        let val = self.get_reg(register);
        let result = self.dec_8(val);
        self.set_reg(register, result);
    }

    pub fn pop_sp(&mut self, mem: &Memory) -> (out: u16)
        requires
            mem.wf(),
        ensures
            *final(self) == old(self).pop_spec(),
            out == mem@.read_word(old(self).SP),
    {
        let out = mem.read_word(self.SP);
        self.SP = self.SP.wrapping_add(2);
        out
    }

    pub fn push_sp(&mut self, mem: &mut Memory, rcv: u16)
        requires
            old(mem).wf(),
        ensures
            final(mem).wf(),
            *final(self) == old(self).push_spec(),
            final(mem)@ == old(self).push_mem(old(mem)@, rcv),
    {
        self.SP = self.SP.wrapping_sub(2);
        mem.write_word(self.SP, rcv);
    }

    /// RET: PC is popped.
    pub fn ret(&mut self, mem: &Memory)
        requires
            mem.wf(),
        ensures
            *final(self) == (Cpu { PC: mem@.read_word(old(self).SP), ..old(self).pop_spec() }),
    {
        self.PC = self.pop_sp(mem);
    }

    /// CALL a16: the address after the three-byte instruction is pushed
    /// and PC takes the word that follows the opcode.
    pub fn call_a16(&mut self, mem: &mut Memory)
        requires
            old(mem).wf(),
        ensures
            final(mem).wf(),
            *final(self) == (Cpu { PC: old(self).nn(old(mem)@), ..old(self).push_spec() }),
            final(mem)@ == old(self).push_mem(old(mem)@, offset(old(self).PC, 3)),
    {
        let target: u16 = self.get_nn(mem);
        self.push_sp(mem, self.PC.wrapping_add(3));
        self.PC = target;
    }

    /// RST: the address after the one-byte instruction is pushed and PC
    /// takes `addr`.
    pub fn rst(&mut self, mem: &mut Memory, addr: u16)
        requires
            old(mem).wf(),
        ensures
            final(mem).wf(),
            *final(self) == (Cpu { PC: addr, ..old(self).push_spec() }),
            final(mem)@ == old(self).push_mem(old(mem)@, offset(old(self).PC, 1)),
    {
        self.push_sp(mem, self.PC.wrapping_add(1));
        self.PC = addr;
    }

    /// The jump of an interrupt: PC itself is pushed, PC takes `addr`,
    /// IME is cleared and HALT is left.
    pub fn rst_interrupt(&mut self, mem: &mut Memory, addr: u16)
        requires
            old(mem).wf(),
        ensures
            final(mem).wf(),
            *final(self) == (Cpu { PC: addr, IME: false, HALT: false, ..old(self).push_spec() }),
            final(mem)@ == old(self).push_mem(old(mem)@, old(self).PC),
    {
        self.push_sp(mem, self.PC);
        self.PC = addr;
        self.IME = false;
        self.HALT = false;
    }

    pub fn inc_8(&mut self, val: u8) -> (result: u8)
        ensures
            *final(self) == old(self).inc_8_spec(val),
            result == (val + 1) % 256,
            final(self).wf(),
    {
        let half = Self::is_half_carry_add(val, 1);
        let result = val.wrapping_add(1);
        let carry = self.get_flag(Flag::C);
        self.set_flags(result == 0, false, half, carry);
        result
    }

    pub fn inc_register(&mut self, register: Register)
        ensures
            *final(self) == old(self).inc_8_spec(old(self).reg(register)).with_reg(
                register,
                ((old(self).reg(register) + 1) % 256) as u8,
            ),
            final(self).wf(),
    {
        let val = self.get_reg(register);
        let result = self.inc_8(val);
        self.set_reg(register, result);
    }

    pub fn is_half_carry_add(a: u8, b: u8) -> (r: bool)
        ensures
            r == half_carry_add(a, b),
    {
        (a % 16) + (b % 16) > 0xF
    }

    pub fn is_half_borrowing_sub(b: u8, a: u8) -> (r: bool)
        ensures
            r == half_borrow_sub(b, a),
    {
        (b % 16) < (a % 16)
    }

    pub fn is_half_carry_on_add_16(a: u16, b: u16) -> (r: bool)
        ensures
            r == half_carry_add_16(a, b),
    {
        (a % 0x1000) + (b % 0x1000) > 0xFFF
    }

    pub fn is_half_carry_on_sub_16(b: u16, a: u16) -> (r: bool)
        ensures
            r == half_borrow_sub_16(b, a),
    {
        (a % 0x1000) > (b % 0x1000)
    }
}

} // verus!
