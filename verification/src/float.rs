//! Floating-point numbers held by their bit patterns.
//!
//! Replays carry ticks per second, positions and velocities as IEEE 754
//! numbers. The model never computes with them: it reads them from bytes,
//! carries them through and hands them back, so it keeps the bits and leaves
//! the arithmetic to the caller.

use vstd::prelude::*;

verus! {

/// A double-precision number, held as its 64 bits.
#[derive(Clone, Copy, Debug, PartialEq, Eq, Structural)]
pub struct Float64 {
    pub bits: u64,
}

/// A single-precision number, held as its 32 bits.
#[derive(Clone, Copy, Debug, PartialEq, Eq, Structural)]
pub struct Float32 {
    pub bits: u32,
}

/// The bits of a double-precision number without its sign.
pub const MAGNITUDE: u64 = 0x7fff_ffff_ffff_ffff;

/// The magnitude of infinity: every greater one is not a number.
pub const INFINITY: u64 = 0x7ff0_0000_0000_0000;

impl Float64 {
    /// The bits without the sign. Of two numbers with the same sign, the
    /// one further from zero has the greater magnitude.
    pub open spec fn magnitude(&self) -> u64 {
        self.bits & MAGNITUDE
    }

    /// Whether the sign bit is set.
    pub open spec fn negative(&self) -> bool {
        self.bits >> 63 == 1
    }

    /// Whether the bits stand for no number.
    pub open spec fn spec_is_nan(&self) -> bool {
        self.magnitude() > INFINITY
    }

    /// Where a number lies on the number line: the two zeros at 0, numbers
    /// above zero at their magnitude, numbers below at minus that.
    pub open spec fn rank(&self) -> int {
        if self.negative() {
            -(self.magnitude() as int)
        } else {
            self.magnitude() as int
        }
    }

    /// Whether a number is at most another. Nothing is at most, or at
    /// least, what is not a number.
    pub open spec fn spec_le(&self, other: &Self) -> bool {
        !self.spec_is_nan() && !other.spec_is_nan() && self.rank() <= other.rank()
    }

    /// Whether the bits stand for no number.
    #[verifier::when_used_as_spec(spec_is_nan)]
    pub fn is_nan(&self) -> (nan: bool)
        ensures
            nan == self.spec_is_nan(),
    {
        (self.bits & MAGNITUDE) > INFINITY
    }

    /// Whether the number is at most `other`.
    #[verifier::when_used_as_spec(spec_le)]
    pub fn le(&self, other: &Self) -> (at_most: bool)
        ensures
            at_most == self.spec_le(other),
    {
        if self.is_nan() || other.is_nan() {
            return false;
        }
        let mine = self.bits & MAGNITUDE;
        let theirs = other.bits & MAGNITUDE;
        if self.bits >> 63 == 1 {
            if other.bits >> 63 == 1 {
                theirs <= mine
            } else {
                true
            }
        } else {
            if other.bits >> 63 == 1 {
                mine == 0 && theirs == 0
            } else {
                mine <= theirs
            }
        }
    }

    pub fn from_bits(bits: u64) -> (made: Self)
        ensures
            made.bits == bits,
    {
        Float64 { bits }
    }

    pub fn to_bits(&self) -> (bits: u64)
        ensures
            bits == self.bits,
    {
        self.bits
    }
}

impl Float32 {
    pub fn from_bits(bits: u32) -> (made: Self)
        ensures
            made.bits == bits,
    {
        Float32 { bits }
    }

    pub fn to_bits(&self) -> (bits: u32)
        ensures
            bits == self.bits,
    {
        self.bits
    }
}

/// Of three numbers in a row, the first is at most the third.
pub proof fn lemma_le_transitive(a: Float64, b: Float64, c: Float64)
    requires
        a.le(&b),
        b.le(&c),
    ensures
        a.le(&c),
{
}

/// Every number is at most itself, and what is not a number is not.
pub proof fn lemma_le_reflexive(a: Float64)
    ensures
        a.le(&a) <==> !a.is_nan(),
{
}

} // verus!
