//! The rotates, shifts and single-bit operations of the prefixed opcodes.

use vstd::prelude::*;
use crate::bits::{clear_bit_of, is_bit_set, set_bit_of, with_bit, without_bit};
use super::{Cpu, Flag};

verus! {

/// `val` rotated left by one bit.
pub open spec fn rlc_value(val: u8) -> u8 {
    ((val * 2) % 256 + val / 128) as u8
}

/// `val` rotated right by one bit.
pub open spec fn rrc_value(val: u8) -> u8 {
    (val / 2 + (val % 2) * 128) as u8
}

/// `val` shifted left by one bit, with `carry` (0 or 1) coming in as
/// bit 0.
pub open spec fn rl_value(val: u8, carry: int) -> u8 {
    ((val * 2) % 256 + carry) as u8
}

/// `val` shifted right by one bit, with `carry` (0 or 1) coming in as
/// bit 7.
pub open spec fn rr_value(val: u8, carry: int) -> u8 {
    (val / 2 + carry * 128) as u8
}

/// `val` shifted right by one bit, bit 7 staying as it is.
pub open spec fn sra_value(val: u8) -> u8 {
    (val / 2 + (val / 128) * 128) as u8
}

/// `val` with its two halves exchanged.
pub open spec fn swap_value(val: u8) -> u8 {
    ((val % 16) * 16 + val / 16) as u8
}

impl Cpu {
    /// The flags after a rotate or shift: Z from the result, N and H
    /// clear, C the bit that left.
    pub open spec fn shifted(self, result: u8, out: bool) -> Cpu {
        self.with_flags(result == 0, false, false, out)
    }

    /// The flags after BIT b: Z set where the bit is 0, N clear, H set,
    /// C as it was.
    pub open spec fn bit_spec(self, b: u8, val: u8) -> Cpu {
        self.with_flags(!crate::bits::bit(val as int, b as int), false, true, self.flag(Flag::C))
    }

    /// What rotate or shift number `kind` makes of `val`, and the bit it
    /// moves out.
    pub fn rotate_value(kind: u8, val: u8, carry: bool) -> (r: (u8, bool))
        requires
            kind < 8,
        ensures
            r.0 == super::execute_cb::rotated(kind as int, val, if carry { 1int } else { 0int }),
            r.1 == super::execute_cb::rotated_out(kind as int, val),
    {
        let wide: u16 = val as u16;
        let cin: u16 = if carry {
            1
        } else {
            0
        };
        if kind == 0 {
            (((wide * 2) % 256 + wide / 128) as u8, val >= 128)
        } else if kind == 1 {
            ((wide / 2 + (wide % 2) * 128) as u8, val % 2 == 1)
        } else if kind == 2 {
            (((wide * 2) % 256 + cin) as u8, val >= 128)
        } else if kind == 3 {
            ((wide / 2 + cin * 128) as u8, val % 2 == 1)
        } else if kind == 4 {
            (((wide * 2) % 256) as u8, val >= 128)
        } else if kind == 5 {
            ((wide / 2 + (wide / 128) * 128) as u8, val % 2 == 1)
        } else if kind == 6 {
            (((wide % 16) * 16 + wide / 16) as u8, false)
        } else {
            ((wide / 2) as u8, val % 2 == 1)
        }
    }

    pub fn rlc(&mut self, val: u8) -> (result: u8)
        ensures
            result == rlc_value(val),
            *final(self) == old(self).shifted(result, val >= 128),
            final(self).wf(),
    {
        let result: u8 = (((val as u16) * 2) % 256 + (val as u16) / 128) as u8;
        self.set_flags(result == 0, false, false, val >= 128);
        result
    }

    pub fn rrc(&mut self, val: u8) -> (result: u8)
        ensures
            result == rrc_value(val),
            *final(self) == old(self).shifted(result, val % 2 == 1),
            final(self).wf(),
    {
        let result: u8 = val / 2 + (val % 2) * 128;
        self.set_flags(result == 0, false, false, val % 2 == 1);
        result
    }

    pub fn rl(&mut self, val: u8) -> (result: u8)
        ensures
            result == rl_value(val, old(self).carry()),
            *final(self) == old(self).shifted(result, val >= 128),
            final(self).wf(),
    {
        let carry: u16 = if self.get_flag(Flag::C) {
            1
        } else {
            0
        };
        let result: u8 = (((val as u16) * 2) % 256 + carry) as u8;
        self.set_flags(result == 0, false, false, val >= 128);
        result
    }

    pub fn rr(&mut self, val: u8) -> (result: u8)
        ensures
            result == rr_value(val, old(self).carry()),
            *final(self) == old(self).shifted(result, val % 2 == 1),
            final(self).wf(),
    {
        let carry: u8 = if self.get_flag(Flag::C) {
            128
        } else {
            0
        };
        let result: u8 = val / 2 + carry;
        self.set_flags(result == 0, false, false, val % 2 == 1);
        result
    }

    pub fn sla(&mut self, val: u8) -> (result: u8)
        ensures
            result == (val * 2) % 256,
            *final(self) == old(self).shifted(result, val >= 128),
            final(self).wf(),
    {
        let result: u8 = (((val as u16) * 2) % 256) as u8;
        self.set_flags(result == 0, false, false, val >= 128);
        result
    }

    pub fn sra(&mut self, val: u8) -> (result: u8)
        ensures
            result == sra_value(val),
            *final(self) == old(self).shifted(result, val % 2 == 1),
            final(self).wf(),
    {
        let result: u8 = val / 2 + (val / 128) * 128;
        self.set_flags(result == 0, false, false, val % 2 == 1);
        result
    }

    pub fn swap(&mut self, val: u8) -> (result: u8)
        ensures
            result == swap_value(val),
            *final(self) == old(self).shifted(result, false),
            final(self).wf(),
    {
        let result: u8 = (val % 16) * 16 + val / 16;
        self.set_flags(result == 0, false, false, false);
        result
    }

    pub fn srl(&mut self, val: u8) -> (result: u8)
        ensures
            result == val / 2,
            *final(self) == old(self).shifted(result, val % 2 == 1),
            final(self).wf(),
    {
        let result: u8 = val / 2;
        self.set_flags(result == 0, false, false, val % 2 == 1);
        result
    }

    pub fn bit(&mut self, b: u8, val: u8)
        requires
            b < 8,
        ensures
            *final(self) == old(self).bit_spec(b, val),
            final(self).wf(),
    {
        let carry: bool = self.get_flag(Flag::C);
        self.set_flags(!is_bit_set(val, b), false, true, carry);
    }

    pub fn res_bit(&self, b: u8, val: u8) -> (result: u8)
        requires
            b < 8,
        ensures
            result == without_bit(val, b as int),
    {
        clear_bit_of(val, b)
    }

    pub fn set_bit(&self, b: u8, val: u8) -> (result: u8)
        requires
            b < 8,
        ensures
            result == with_bit(val, b as int),
    {
        set_bit_of(val, b)
    }
}

} // verus!
