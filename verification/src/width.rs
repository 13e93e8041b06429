//! Fixed-width two's-complement arithmetic on raw bit patterns.
//!
//! A bit pattern of any supported width is carried in a `u128`; the operations
//! here reduce modulo `2^bits`, so that encoding and decoding agree bit for bit
//! at every width, also next to the bounds of the integer type.

use vstd::arithmetic::div_mod::{
    lemma_fundamental_div_mod, lemma_fundamental_div_mod_converse, lemma_mod_bound,
    lemma_small_mod, lemma_sub_mod_noop, lemma_sub_mod_noop_right,
};
use vstd::arithmetic::power2::{lemma2_to64, lemma2_to64_rest, lemma_pow2_adds, pow2};
use vstd::prelude::*;

verus! {

/// The modulus of a width is two to the power of its number of bits.
pub proof fn lemma_modulus_is_power_of_two(width: Width)
    ensures
        width.modulus() == pow2(width.bits()),
{
    lemma2_to64();
    lemma2_to64_rest();
    lemma_pow2_adds(64, 64);
}

/// The remainder of a sum is the sum of the remainders, less the modulus where
/// that sum reaches it.
pub proof fn lemma_mod_of_sum(a: int, b: int, m: int)
    requires
        m > 0,
    ensures
        (a + b) % m == if a % m + b % m < m {
            a % m + b % m
        } else {
            a % m + b % m - m
        },
{
    let (qa, x) = (a / m, a % m);
    let (qb, y) = (b / m, b % m);
    lemma_fundamental_div_mod(a, m);
    lemma_fundamental_div_mod(b, m);
    lemma_mod_bound(a, m);
    lemma_mod_bound(b, m);
    if x + y < m {
        assert(a + b == (qa + qb) * m + (x + y)) by (nonlinear_arith)
            requires
                a == m * qa + x,
                b == m * qb + y,
        ;
        lemma_fundamental_div_mod_converse(a + b, m, qa + qb, x + y);
    } else {
        assert(a + b == (qa + qb + 1) * m + (x + y - m)) by (nonlinear_arith)
            requires
                a == m * qa + x,
                b == m * qb + y,
        ;
        lemma_fundamental_div_mod_converse(a + b, m, qa + qb + 1, x + y - m);
    }
}

/// The remainder of a difference is the difference of the remainders, plus the
/// modulus where that difference is negative.
pub proof fn lemma_mod_of_difference(a: int, b: int, m: int)
    requires
        m > 0,
    ensures
        (a - b) % m == if a % m >= b % m {
            a % m - b % m
        } else {
            a % m - b % m + m
        },
{
    let (qa, x) = (a / m, a % m);
    let (qb, y) = (b / m, b % m);
    lemma_fundamental_div_mod(a, m);
    lemma_fundamental_div_mod(b, m);
    lemma_mod_bound(a, m);
    lemma_mod_bound(b, m);
    if x >= y {
        assert(a - b == (qa - qb) * m + (x - y)) by (nonlinear_arith)
            requires
                a == m * qa + x,
                b == m * qb + y,
        ;
        lemma_fundamental_div_mod_converse(a - b, m, qa - qb, x - y);
    } else {
        assert(a - b == (qa - qb - 1) * m + (x - y + m)) by (nonlinear_arith)
            requires
                a == m * qa + x,
                b == m * qb + y,
        ;
        lemma_fundamental_div_mod_converse(a - b, m, qa - qb - 1, x - y + m);
    }
}

/// The width of a machine integer.
#[derive(Clone, Copy, Debug, PartialEq, Eq, Structural)]
pub enum Width {
    W8,
    W16,
    W32,
    W64,
    W128,
}

impl Width {
    /// The number of bits.
    pub open spec fn bits(self) -> nat {
        match self {
            Width::W8 => 8,
            Width::W16 => 16,
            Width::W32 => 32,
            Width::W64 => 64,
            Width::W128 => 128,
        }
    }

    /// The number of bit patterns of this width, `2^bits`.
    pub open spec fn modulus(self) -> int {
        match self {
            Width::W8 => 0x100,
            Width::W16 => 0x1_0000,
            Width::W32 => 0x1_0000_0000,
            Width::W64 => 0x1_0000_0000_0000_0000,
            Width::W128 => 0x1_0000_0000_0000_0000_0000_0000_0000_0000int,
        }
    }

    /// Whether `x` is a bit pattern of this width.
    pub open spec fn holds(self, x: int) -> bool {
        0 <= x < self.modulus()
    }

    /// `x` reduced to this width: the low `bits` bits of its two's-complement form.
    pub open spec fn wrap(self, x: int) -> int {
        x % self.modulus()
    }

    /// The integer that the pattern `x` denotes when its top bit is a sign bit.
    pub open spec fn signed_value(self, x: int) -> int {
        if 2 * x >= self.modulus() {
            x - self.modulus()
        } else {
            x
        }
    }

    /// The number of bits.
    pub fn bit_count(self) -> (n: u32)
        ensures
            n == self.bits(),
    {
        match self {
            Width::W8 => 8,
            Width::W16 => 16,
            Width::W32 => 32,
            Width::W64 => 64,
            Width::W128 => 128,
        }
    }

    /// The largest bit pattern, all ones.
    pub fn max_value(self) -> (m: u128)
        ensures
            m == self.modulus() - 1,
    {
        match self {
            Width::W8 => 0xff,
            Width::W16 => 0xffff,
            Width::W32 => 0xffff_ffff,
            Width::W64 => 0xffff_ffff_ffff_ffff,
            Width::W128 => 0xffff_ffff_ffff_ffff_ffff_ffff_ffff_ffff,
        }
    }

    /// Whether `value` is a bit pattern of this width.
    pub fn fits(self, value: u128) -> (b: bool)
        ensures
            b == self.holds(value as int),
    {
        value <= self.max_value()
    }

    /// Truncates `value` to this width, discarding the high bits.
    pub fn truncate(self, value: u128) -> (r: u128)
        ensures
            r == self.wrap(value as int),
            self.holds(r as int),
    {
        match self {
            Width::W8 => value % 0x100,
            Width::W16 => value % 0x1_0000,
            Width::W32 => value % 0x1_0000_0000,
            Width::W64 => value % 0x1_0000_0000_0000_0000,
            Width::W128 => value,
        }
    }

    /// Adds at this width, wrapping around on overflow.
    pub fn wrapping_add(self, a: u128, b: u128) -> (r: u128)
        ensures
            r == self.wrap(a + b),
            self.holds(r as int),
    {
        let top: u128 = self.max_value();
        let x: u128 = self.truncate(a);
        let y: u128 = self.truncate(b);
        proof {
            lemma_mod_of_sum(a as int, b as int, self.modulus());
        }
        if x <= top - y {
            x + y
        } else {
            x - (top - y) - 1
        }
    }

    /// Subtracts at this width, wrapping around on underflow.
    pub fn wrapping_sub(self, a: u128, b: u128) -> (r: u128)
        ensures
            r == self.wrap(a - b),
            self.holds(r as int),
    {
        let top: u128 = self.max_value();
        let x: u128 = self.truncate(a);
        let y: u128 = self.truncate(b);
        proof {
            lemma_mod_of_difference(a as int, b as int, self.modulus());
        }
        if x >= y {
            x - y
        } else {
            top - (y - x) + 1
        }
    }
}

/// Subtracting at a width what was added at that width gives back the first
/// operand, reduced to the width.
pub proof fn lemma_wrapping_sub_undoes_add(width: Width, a: int, b: int)
    ensures
        width.wrap(width.wrap(a + b) - b) == width.wrap(a),
        width.holds(a) ==> width.wrap(width.wrap(a + b) - b) == a,
{
    let m = width.modulus();
    lemma_sub_mod_noop(a + b, b, m);
    lemma_sub_mod_noop_right((a + b) % m, b, m);
    if width.holds(a) {
        lemma_small_mod(a as nat, m as nat);
    }
}

/// An integer type: a width and whether the top bit is a sign bit.
#[derive(Clone, Copy, Debug, PartialEq, Eq, Structural)]
pub struct IntTy {
    pub width: Width,
    pub signed: bool,
}

impl IntTy {
    /// The integer that the bit pattern `x` denotes in this type.
    pub open spec fn value_of(self, x: int) -> int {
        if self.signed {
            self.width.signed_value(x)
        } else {
            x
        }
    }

    /// The bit pattern, at width `to`, of the integer that `x` denotes in
    /// this type: sign- or zero-extension followed by truncation.
    pub open spec fn cast_spec(self, x: int, to: Width) -> int {
        to.wrap(self.value_of(x))
    }

    /// Converts the bit pattern `x` of this type to width `to`, keeping the
    /// integer it denotes wherever that integer has a pattern at width `to`.
    pub fn cast(self, x: u128, to: Width) -> (r: u128)
        requires
            self.width.holds(x as int),
        ensures
            r == self.cast_spec(x as int, to),
            to.holds(r as int),
    {
        let top: u128 = self.width.max_value();
        if self.signed && x > top / 2 {
            let magnitude: u128 = (top - x) + 1;
            to.wrapping_sub(0, magnitude)
        } else {
            to.truncate(x)
        }
    }
}

} // verus!
