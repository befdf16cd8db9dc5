//! Single bits of a byte, stated by division.

use vstd::prelude::*;

verus! {

/// The value of bit `n` alone: 2 to the power `n`, for `n` up to 7.
pub open spec fn weight(n: int) -> int {
    if n <= 0 {
        1
    } else if n == 1 {
        2
    } else if n == 2 {
        4
    } else if n == 3 {
        8
    } else if n == 4 {
        16
    } else if n == 5 {
        32
    } else if n == 6 {
        64
    } else {
        128
    }
}

/// Whether bit `n` of `val` is 1.
pub open spec fn bit(val: int, n: int) -> bool {
    (val / weight(n)) % 2 == 1
}

/// 1 where bit `n` of `val` is set, else 0.
pub open spec fn bit_value(val: int, n: int) -> int {
    if bit(val, n) {
        1
    } else {
        0
    }
}

pub fn bit_weight(n: u8) -> (w: u8)
    requires
        n < 8,
    ensures
        w == weight(n as int),
        w >= 1,
{
    if n == 0 {
        1
    } else if n == 1 {
        2
    } else if n == 2 {
        4
    } else if n == 3 {
        8
    } else if n == 4 {
        16
    } else if n == 5 {
        32
    } else if n == 6 {
        64
    } else {
        128
    }
}

pub fn is_bit_set(val: u8, n: u8) -> (set: bool)
    requires
        n < 8,
    ensures
        set == bit(val as int, n as int),
{
    (val / bit_weight(n)) % 2 == 1
}

/// `val` with bit `n` set.
pub open spec fn with_bit(val: u8, n: int) -> u8 {
    if bit(val as int, n) {
        val
    } else {
        (val + weight(n)) as u8
    }
}

/// `val` with bit `n` cleared.
pub open spec fn without_bit(val: u8, n: int) -> u8 {
    if bit(val as int, n) {
        (val - weight(n)) as u8
    } else {
        val
    }
}

/// Setting a clear bit adds its weight and clearing a set bit takes it
/// away, both within the byte; the bit then has the value given. A bit
/// among the low five leaves a value below 32 below 32, and a bit among
/// the high four leaves the low four bits as they were.
#[verifier::rlimit(50)]
pub proof fn lemma_bit_update(val: u8, n: int)
    requires
        0 <= n < 8,
    ensures
        !bit(val as int, n) ==> val + weight(n) <= 255,
        bit(val as int, n) ==> val - weight(n) >= 0,
        bit(with_bit(val, n) as int, n),
        !bit(without_bit(val, n) as int, n),
        val < 32 && n < 5 ==> with_bit(val, n) < 32,
        without_bit(val, n) <= val,
        n >= 4 ==> with_bit(val, n) % 16 == val % 16,
        n >= 4 ==> without_bit(val, n) % 16 == val % 16,
{
    if n == 0 {
        let q = val as int / 1;
        assert(q % 2 == 0 ==> val + 1 <= 255 && ((val + 1) / 1) % 2 == 1);
        assert(q % 2 == 1 ==> val - 1 >= 0 && ((val - 1) / 1) % 2 == 0);
    } else if n == 1 {
        let q = val as int / 2;
        assert(q % 2 == 0 ==> val + 2 <= 255 && ((val + 2) / 2) % 2 == 1);
        assert(q % 2 == 1 ==> val - 2 >= 0 && ((val - 2) / 2) % 2 == 0);
    } else if n == 2 {
        let q = val as int / 4;
        assert(q % 2 == 0 ==> val + 4 <= 255 && ((val + 4) / 4) % 2 == 1);
        assert(q % 2 == 1 ==> val - 4 >= 0 && ((val - 4) / 4) % 2 == 0);
    } else if n == 3 {
        let q = val as int / 8;
        assert(q % 2 == 0 ==> val + 8 <= 255 && ((val + 8) / 8) % 2 == 1);
        assert(q % 2 == 1 ==> val - 8 >= 0 && ((val - 8) / 8) % 2 == 0);
    } else if n == 4 {
        let q = val as int / 16;
        assert(q % 2 == 0 ==> val + 16 <= 255 && ((val + 16) / 16) % 2 == 1);
        assert(q % 2 == 1 ==> val - 16 >= 0 && ((val - 16) / 16) % 2 == 0);
    } else if n == 5 {
        let q = val as int / 32;
        assert(q % 2 == 0 ==> val + 32 <= 255 && ((val + 32) / 32) % 2 == 1);
        assert(q % 2 == 1 ==> val - 32 >= 0 && ((val - 32) / 32) % 2 == 0);
    } else if n == 6 {
        let q = val as int / 64;
        assert(q % 2 == 0 ==> val + 64 <= 255 && ((val + 64) / 64) % 2 == 1);
        assert(q % 2 == 1 ==> val - 64 >= 0 && ((val - 64) / 64) % 2 == 0);
    } else {
        let q = val as int / 128;
        assert(q == 0 || q == 1);
        assert(q == 0 ==> (val + 128) / 128 == 1);
        assert(q == 1 ==> (val - 128) / 128 == 0);
        assert(q % 2 == 0 ==> val + 128 <= 255 && ((val + 128) / 128) % 2 == 1);
        assert(q % 2 == 1 ==> val - 128 >= 0 && ((val - 128) / 128) % 2 == 0);
    }
}

pub fn set_bit_of(val: u8, n: u8) -> (r: u8)
    requires
        n < 8,
    ensures
        r == with_bit(val, n as int),
        val < 32 && n < 5 ==> r < 32,
{
    proof {
        lemma_bit_update(val, n as int);
    }
    if is_bit_set(val, n) {
        val
    } else {
        val + bit_weight(n)
    }
}

pub fn clear_bit_of(val: u8, n: u8) -> (r: u8)
    requires
        n < 8,
    ensures
        r == without_bit(val, n as int),
        r <= val,
{
    proof {
        lemma_bit_update(val, n as int);
    }
    if is_bit_set(val, n) {
        val - bit_weight(n)
    } else {
        val
    }
}

/// Adding the weight of a clear bit, or taking away that of a set bit,
/// leaves every other bit as it was; for each pair of bits.
proof fn lemma_bit_pairs(val: u8)
    by (bit_vector)
    ensures
        (val / 1u8) % 2u8 == 0u8 ==> (((val + 1u8) as u8) / 2u8) % 2u8 == (val / 2u8) % 2u8,
        (val / 1u8) % 2u8 == 1u8 ==> (((val - 1u8) as u8) / 2u8) % 2u8 == (val / 2u8) % 2u8,
        (val / 1u8) % 2u8 == 0u8 ==> (((val + 1u8) as u8) / 4u8) % 2u8 == (val / 4u8) % 2u8,
        (val / 1u8) % 2u8 == 1u8 ==> (((val - 1u8) as u8) / 4u8) % 2u8 == (val / 4u8) % 2u8,
        (val / 1u8) % 2u8 == 0u8 ==> (((val + 1u8) as u8) / 8u8) % 2u8 == (val / 8u8) % 2u8,
        (val / 1u8) % 2u8 == 1u8 ==> (((val - 1u8) as u8) / 8u8) % 2u8 == (val / 8u8) % 2u8,
        (val / 1u8) % 2u8 == 0u8 ==> (((val + 1u8) as u8) / 16u8) % 2u8 == (val / 16u8) % 2u8,
        (val / 1u8) % 2u8 == 1u8 ==> (((val - 1u8) as u8) / 16u8) % 2u8 == (val / 16u8) % 2u8,
        (val / 1u8) % 2u8 == 0u8 ==> (((val + 1u8) as u8) / 32u8) % 2u8 == (val / 32u8) % 2u8,
        (val / 1u8) % 2u8 == 1u8 ==> (((val - 1u8) as u8) / 32u8) % 2u8 == (val / 32u8) % 2u8,
        (val / 1u8) % 2u8 == 0u8 ==> (((val + 1u8) as u8) / 64u8) % 2u8 == (val / 64u8) % 2u8,
        (val / 1u8) % 2u8 == 1u8 ==> (((val - 1u8) as u8) / 64u8) % 2u8 == (val / 64u8) % 2u8,
        (val / 1u8) % 2u8 == 0u8 ==> (((val + 1u8) as u8) / 128u8) % 2u8 == (val / 128u8) % 2u8,
        (val / 1u8) % 2u8 == 1u8 ==> (((val - 1u8) as u8) / 128u8) % 2u8 == (val / 128u8) % 2u8,
        (val / 2u8) % 2u8 == 0u8 ==> (((val + 2u8) as u8) / 1u8) % 2u8 == (val / 1u8) % 2u8,
        (val / 2u8) % 2u8 == 1u8 ==> (((val - 2u8) as u8) / 1u8) % 2u8 == (val / 1u8) % 2u8,
        (val / 2u8) % 2u8 == 0u8 ==> (((val + 2u8) as u8) / 4u8) % 2u8 == (val / 4u8) % 2u8,
        (val / 2u8) % 2u8 == 1u8 ==> (((val - 2u8) as u8) / 4u8) % 2u8 == (val / 4u8) % 2u8,
        (val / 2u8) % 2u8 == 0u8 ==> (((val + 2u8) as u8) / 8u8) % 2u8 == (val / 8u8) % 2u8,
        (val / 2u8) % 2u8 == 1u8 ==> (((val - 2u8) as u8) / 8u8) % 2u8 == (val / 8u8) % 2u8,
        (val / 2u8) % 2u8 == 0u8 ==> (((val + 2u8) as u8) / 16u8) % 2u8 == (val / 16u8) % 2u8,
        (val / 2u8) % 2u8 == 1u8 ==> (((val - 2u8) as u8) / 16u8) % 2u8 == (val / 16u8) % 2u8,
        (val / 2u8) % 2u8 == 0u8 ==> (((val + 2u8) as u8) / 32u8) % 2u8 == (val / 32u8) % 2u8,
        (val / 2u8) % 2u8 == 1u8 ==> (((val - 2u8) as u8) / 32u8) % 2u8 == (val / 32u8) % 2u8,
        (val / 2u8) % 2u8 == 0u8 ==> (((val + 2u8) as u8) / 64u8) % 2u8 == (val / 64u8) % 2u8,
        (val / 2u8) % 2u8 == 1u8 ==> (((val - 2u8) as u8) / 64u8) % 2u8 == (val / 64u8) % 2u8,
        (val / 2u8) % 2u8 == 0u8 ==> (((val + 2u8) as u8) / 128u8) % 2u8 == (val / 128u8) % 2u8,
        (val / 2u8) % 2u8 == 1u8 ==> (((val - 2u8) as u8) / 128u8) % 2u8 == (val / 128u8) % 2u8,
        (val / 4u8) % 2u8 == 0u8 ==> (((val + 4u8) as u8) / 1u8) % 2u8 == (val / 1u8) % 2u8,
        (val / 4u8) % 2u8 == 1u8 ==> (((val - 4u8) as u8) / 1u8) % 2u8 == (val / 1u8) % 2u8,
        (val / 4u8) % 2u8 == 0u8 ==> (((val + 4u8) as u8) / 2u8) % 2u8 == (val / 2u8) % 2u8,
        (val / 4u8) % 2u8 == 1u8 ==> (((val - 4u8) as u8) / 2u8) % 2u8 == (val / 2u8) % 2u8,
        (val / 4u8) % 2u8 == 0u8 ==> (((val + 4u8) as u8) / 8u8) % 2u8 == (val / 8u8) % 2u8,
        (val / 4u8) % 2u8 == 1u8 ==> (((val - 4u8) as u8) / 8u8) % 2u8 == (val / 8u8) % 2u8,
        (val / 4u8) % 2u8 == 0u8 ==> (((val + 4u8) as u8) / 16u8) % 2u8 == (val / 16u8) % 2u8,
        (val / 4u8) % 2u8 == 1u8 ==> (((val - 4u8) as u8) / 16u8) % 2u8 == (val / 16u8) % 2u8,
        (val / 4u8) % 2u8 == 0u8 ==> (((val + 4u8) as u8) / 32u8) % 2u8 == (val / 32u8) % 2u8,
        (val / 4u8) % 2u8 == 1u8 ==> (((val - 4u8) as u8) / 32u8) % 2u8 == (val / 32u8) % 2u8,
        (val / 4u8) % 2u8 == 0u8 ==> (((val + 4u8) as u8) / 64u8) % 2u8 == (val / 64u8) % 2u8,
        (val / 4u8) % 2u8 == 1u8 ==> (((val - 4u8) as u8) / 64u8) % 2u8 == (val / 64u8) % 2u8,
        (val / 4u8) % 2u8 == 0u8 ==> (((val + 4u8) as u8) / 128u8) % 2u8 == (val / 128u8) % 2u8,
        (val / 4u8) % 2u8 == 1u8 ==> (((val - 4u8) as u8) / 128u8) % 2u8 == (val / 128u8) % 2u8,
        (val / 8u8) % 2u8 == 0u8 ==> (((val + 8u8) as u8) / 1u8) % 2u8 == (val / 1u8) % 2u8,
        (val / 8u8) % 2u8 == 1u8 ==> (((val - 8u8) as u8) / 1u8) % 2u8 == (val / 1u8) % 2u8,
        (val / 8u8) % 2u8 == 0u8 ==> (((val + 8u8) as u8) / 2u8) % 2u8 == (val / 2u8) % 2u8,
        (val / 8u8) % 2u8 == 1u8 ==> (((val - 8u8) as u8) / 2u8) % 2u8 == (val / 2u8) % 2u8,
        (val / 8u8) % 2u8 == 0u8 ==> (((val + 8u8) as u8) / 4u8) % 2u8 == (val / 4u8) % 2u8,
        (val / 8u8) % 2u8 == 1u8 ==> (((val - 8u8) as u8) / 4u8) % 2u8 == (val / 4u8) % 2u8,
        (val / 8u8) % 2u8 == 0u8 ==> (((val + 8u8) as u8) / 16u8) % 2u8 == (val / 16u8) % 2u8,
        (val / 8u8) % 2u8 == 1u8 ==> (((val - 8u8) as u8) / 16u8) % 2u8 == (val / 16u8) % 2u8,
        (val / 8u8) % 2u8 == 0u8 ==> (((val + 8u8) as u8) / 32u8) % 2u8 == (val / 32u8) % 2u8,
        (val / 8u8) % 2u8 == 1u8 ==> (((val - 8u8) as u8) / 32u8) % 2u8 == (val / 32u8) % 2u8,
        (val / 8u8) % 2u8 == 0u8 ==> (((val + 8u8) as u8) / 64u8) % 2u8 == (val / 64u8) % 2u8,
        (val / 8u8) % 2u8 == 1u8 ==> (((val - 8u8) as u8) / 64u8) % 2u8 == (val / 64u8) % 2u8,
        (val / 8u8) % 2u8 == 0u8 ==> (((val + 8u8) as u8) / 128u8) % 2u8 == (val / 128u8) % 2u8,
        (val / 8u8) % 2u8 == 1u8 ==> (((val - 8u8) as u8) / 128u8) % 2u8 == (val / 128u8) % 2u8,
        (val / 16u8) % 2u8 == 0u8 ==> (((val + 16u8) as u8) / 1u8) % 2u8 == (val / 1u8) % 2u8,
        (val / 16u8) % 2u8 == 1u8 ==> (((val - 16u8) as u8) / 1u8) % 2u8 == (val / 1u8) % 2u8,
        (val / 16u8) % 2u8 == 0u8 ==> (((val + 16u8) as u8) / 2u8) % 2u8 == (val / 2u8) % 2u8,
        (val / 16u8) % 2u8 == 1u8 ==> (((val - 16u8) as u8) / 2u8) % 2u8 == (val / 2u8) % 2u8,
        (val / 16u8) % 2u8 == 0u8 ==> (((val + 16u8) as u8) / 4u8) % 2u8 == (val / 4u8) % 2u8,
        (val / 16u8) % 2u8 == 1u8 ==> (((val - 16u8) as u8) / 4u8) % 2u8 == (val / 4u8) % 2u8,
        (val / 16u8) % 2u8 == 0u8 ==> (((val + 16u8) as u8) / 8u8) % 2u8 == (val / 8u8) % 2u8,
        (val / 16u8) % 2u8 == 1u8 ==> (((val - 16u8) as u8) / 8u8) % 2u8 == (val / 8u8) % 2u8,
        (val / 16u8) % 2u8 == 0u8 ==> (((val + 16u8) as u8) / 32u8) % 2u8 == (val / 32u8) % 2u8,
        (val / 16u8) % 2u8 == 1u8 ==> (((val - 16u8) as u8) / 32u8) % 2u8 == (val / 32u8) % 2u8,
        (val / 16u8) % 2u8 == 0u8 ==> (((val + 16u8) as u8) / 64u8) % 2u8 == (val / 64u8) % 2u8,
        (val / 16u8) % 2u8 == 1u8 ==> (((val - 16u8) as u8) / 64u8) % 2u8 == (val / 64u8) % 2u8,
        (val / 16u8) % 2u8 == 0u8 ==> (((val + 16u8) as u8) / 128u8) % 2u8 == (val / 128u8) % 2u8,
        (val / 16u8) % 2u8 == 1u8 ==> (((val - 16u8) as u8) / 128u8) % 2u8 == (val / 128u8) % 2u8,
        (val / 32u8) % 2u8 == 0u8 ==> (((val + 32u8) as u8) / 1u8) % 2u8 == (val / 1u8) % 2u8,
        (val / 32u8) % 2u8 == 1u8 ==> (((val - 32u8) as u8) / 1u8) % 2u8 == (val / 1u8) % 2u8,
        (val / 32u8) % 2u8 == 0u8 ==> (((val + 32u8) as u8) / 2u8) % 2u8 == (val / 2u8) % 2u8,
        (val / 32u8) % 2u8 == 1u8 ==> (((val - 32u8) as u8) / 2u8) % 2u8 == (val / 2u8) % 2u8,
        (val / 32u8) % 2u8 == 0u8 ==> (((val + 32u8) as u8) / 4u8) % 2u8 == (val / 4u8) % 2u8,
        (val / 32u8) % 2u8 == 1u8 ==> (((val - 32u8) as u8) / 4u8) % 2u8 == (val / 4u8) % 2u8,
        (val / 32u8) % 2u8 == 0u8 ==> (((val + 32u8) as u8) / 8u8) % 2u8 == (val / 8u8) % 2u8,
        (val / 32u8) % 2u8 == 1u8 ==> (((val - 32u8) as u8) / 8u8) % 2u8 == (val / 8u8) % 2u8,
        (val / 32u8) % 2u8 == 0u8 ==> (((val + 32u8) as u8) / 16u8) % 2u8 == (val / 16u8) % 2u8,
        (val / 32u8) % 2u8 == 1u8 ==> (((val - 32u8) as u8) / 16u8) % 2u8 == (val / 16u8) % 2u8,
        (val / 32u8) % 2u8 == 0u8 ==> (((val + 32u8) as u8) / 64u8) % 2u8 == (val / 64u8) % 2u8,
        (val / 32u8) % 2u8 == 1u8 ==> (((val - 32u8) as u8) / 64u8) % 2u8 == (val / 64u8) % 2u8,
        (val / 32u8) % 2u8 == 0u8 ==> (((val + 32u8) as u8) / 128u8) % 2u8 == (val / 128u8) % 2u8,
        (val / 32u8) % 2u8 == 1u8 ==> (((val - 32u8) as u8) / 128u8) % 2u8 == (val / 128u8) % 2u8,
        (val / 64u8) % 2u8 == 0u8 ==> (((val + 64u8) as u8) / 1u8) % 2u8 == (val / 1u8) % 2u8,
        (val / 64u8) % 2u8 == 1u8 ==> (((val - 64u8) as u8) / 1u8) % 2u8 == (val / 1u8) % 2u8,
        (val / 64u8) % 2u8 == 0u8 ==> (((val + 64u8) as u8) / 2u8) % 2u8 == (val / 2u8) % 2u8,
        (val / 64u8) % 2u8 == 1u8 ==> (((val - 64u8) as u8) / 2u8) % 2u8 == (val / 2u8) % 2u8,
        (val / 64u8) % 2u8 == 0u8 ==> (((val + 64u8) as u8) / 4u8) % 2u8 == (val / 4u8) % 2u8,
        (val / 64u8) % 2u8 == 1u8 ==> (((val - 64u8) as u8) / 4u8) % 2u8 == (val / 4u8) % 2u8,
        (val / 64u8) % 2u8 == 0u8 ==> (((val + 64u8) as u8) / 8u8) % 2u8 == (val / 8u8) % 2u8,
        (val / 64u8) % 2u8 == 1u8 ==> (((val - 64u8) as u8) / 8u8) % 2u8 == (val / 8u8) % 2u8,
        (val / 64u8) % 2u8 == 0u8 ==> (((val + 64u8) as u8) / 16u8) % 2u8 == (val / 16u8) % 2u8,
        (val / 64u8) % 2u8 == 1u8 ==> (((val - 64u8) as u8) / 16u8) % 2u8 == (val / 16u8) % 2u8,
        (val / 64u8) % 2u8 == 0u8 ==> (((val + 64u8) as u8) / 32u8) % 2u8 == (val / 32u8) % 2u8,
        (val / 64u8) % 2u8 == 1u8 ==> (((val - 64u8) as u8) / 32u8) % 2u8 == (val / 32u8) % 2u8,
        (val / 64u8) % 2u8 == 0u8 ==> (((val + 64u8) as u8) / 128u8) % 2u8 == (val / 128u8) % 2u8,
        (val / 64u8) % 2u8 == 1u8 ==> (((val - 64u8) as u8) / 128u8) % 2u8 == (val / 128u8) % 2u8,
        (val / 128u8) % 2u8 == 0u8 ==> (((val + 128u8) as u8) / 1u8) % 2u8 == (val / 1u8) % 2u8,
        (val / 128u8) % 2u8 == 1u8 ==> (((val - 128u8) as u8) / 1u8) % 2u8 == (val / 1u8) % 2u8,
        (val / 128u8) % 2u8 == 0u8 ==> (((val + 128u8) as u8) / 2u8) % 2u8 == (val / 2u8) % 2u8,
        (val / 128u8) % 2u8 == 1u8 ==> (((val - 128u8) as u8) / 2u8) % 2u8 == (val / 2u8) % 2u8,
        (val / 128u8) % 2u8 == 0u8 ==> (((val + 128u8) as u8) / 4u8) % 2u8 == (val / 4u8) % 2u8,
        (val / 128u8) % 2u8 == 1u8 ==> (((val - 128u8) as u8) / 4u8) % 2u8 == (val / 4u8) % 2u8,
        (val / 128u8) % 2u8 == 0u8 ==> (((val + 128u8) as u8) / 8u8) % 2u8 == (val / 8u8) % 2u8,
        (val / 128u8) % 2u8 == 1u8 ==> (((val - 128u8) as u8) / 8u8) % 2u8 == (val / 8u8) % 2u8,
        (val / 128u8) % 2u8 == 0u8 ==> (((val + 128u8) as u8) / 16u8) % 2u8 == (val / 16u8) % 2u8,
        (val / 128u8) % 2u8 == 1u8 ==> (((val - 128u8) as u8) / 16u8) % 2u8 == (val / 16u8) % 2u8,
        (val / 128u8) % 2u8 == 0u8 ==> (((val + 128u8) as u8) / 32u8) % 2u8 == (val / 32u8) % 2u8,
        (val / 128u8) % 2u8 == 1u8 ==> (((val - 128u8) as u8) / 32u8) % 2u8 == (val / 32u8) % 2u8,
        (val / 128u8) % 2u8 == 0u8 ==> (((val + 128u8) as u8) / 64u8) % 2u8 == (val / 64u8) % 2u8,
        (val / 128u8) % 2u8 == 1u8 ==> (((val - 128u8) as u8) / 64u8) % 2u8 == (val / 64u8) % 2u8,
{
}

/// Setting or clearing one bit leaves every other bit as it was.
#[verifier::rlimit(50)]
pub proof fn lemma_bit_others(val: u8, n: int, m: int)
    requires
        0 <= n < 8,
        0 <= m < 8,
        n != m,
    ensures
        bit(with_bit(val, n) as int, m) == bit(val as int, m),
        bit(without_bit(val, n) as int, m) == bit(val as int, m),
{
    lemma_bit_update(val, n);
    lemma_bit_pairs(val);
}

} // verus!
