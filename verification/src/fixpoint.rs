//! Unsigned fixed-point numbers with 8 fractional bits: a value is
//! `bits / 256`. This is the numeric type the estimator and the formatter
//! work in; it keeps the hot path free of floating point and of allocation.

use vstd::prelude::*;

verus! {

/// The number of raw steps per whole unit.
pub const FIX_ONE: u64 = 256;

/// Unsigned fixed-point value with 8 fractional bits. The view of a value is
/// its raw bit count, so a view of `v` stands for the number `v / 256`.
#[derive(Clone, Copy, PartialEq, Eq, Structural, Debug)]
pub struct Fix {
    bits: u64,
}

impl View for Fix {
    type V = int;

    closed spec fn view(&self) -> int {
        self.bits as int
    }
}

impl Fix {
    /// The whole number `n`.
    pub fn from_int(n: u32) -> (r: Fix)
        ensures
            r@ == n * 256,
    {
        Fix { bits: (n as u64) * 256 }
    }

    /// A value from its raw bit count.
    pub fn from_bits(bits: u64) -> (r: Fix)
        ensures
            r@ == bits,
    {
        Fix { bits }
    }

    /// The raw bit count.
    pub fn bits(&self) -> (r: u64)
        ensures
            r == self@,
    {
        self.bits
    }

    /// Strictly-less comparison.
    pub fn lt(&self, other: &Fix) -> (r: bool)
        ensures
            r == (self@ < other@),
    {
        self.bits < other.bits
    }

    /// Multiplication by a whole number.
    pub fn mul_int(&self, k: u64) -> (r: Fix)
        requires
            self@ * k <= u64::MAX,
        ensures
            r@ == self@ * k,
    {
        Fix { bits: self.bits * k }
    }

    /// Fixed-point division, truncating towards zero (floor, as both
    /// operands are non-negative).
    pub fn div(&self, other: &Fix) -> (r: Fix)
        requires
            other@ > 0,
            self@ * 256 <= u64::MAX,
        ensures
            r@ == self@ * 256 / other@,
    {
        Fix { bits: self.bits * 256 / other.bits }
    }
}

} // verus!
