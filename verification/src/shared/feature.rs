//! Which optional behaviours the format a replay came from can express.

use vstd::prelude::*;

verus! {

/// The bitfield after `set(feature, value)` on a bitfield holding `bits`:
/// every bit of `feature` is cleared, then set again if `value` holds.
pub open spec fn spec_set(bits: u32, feature: u32, value: bool) -> u32 {
    if value {
        (bits & !feature) | feature
    } else {
        bits & !feature
    }
}

/// Whether a bitfield holding `bits` has any bit of `feature`.
pub open spec fn spec_check(bits: u32, feature: u32) -> bool {
    bits & feature != 0
}

/// A bitfield of what features a given replay supports.
#[derive(Clone, Copy, Debug)]
pub struct ReplayFeature {
    value: u32,
}

impl View for ReplayFeature {
    type V = u32;

    closed spec fn view(&self) -> u32 {
        self.value
    }
}

impl ReplayFeature {
    pub const FPS_CHANGE: u32 = 0b0000_0001;

    pub const DEATH: u32 = 0b0000_0010;

    pub const RESTART: u32 = 0b0000_0100;

    pub const RESTART_FULL: u32 = 0b0000_1000;

    pub const SEED_UPON_RESTART: u32 = 0b0001_0000;

    pub const BUG_CHECKPOINT: u32 = 0b0010_0000;

    pub const FRAME_FIXES: u32 = 0b0100_0000;

    pub const SKIP_INPUT: u32 = 0b1000_0000;

    /// Whether any bit of `feature` is set.
    pub fn check(&self, feature: u32) -> (present: bool)
        ensures
            present == spec_check(self@, feature),
    {
        (self.value & feature) != 0
    }

    /// Clears the bits of `feature`, then sets them again if `value` holds.
    pub fn set(&mut self, feature: u32, value: bool)
        ensures
            final(self)@ == spec_set(old(self)@, feature, value),
    {
        self.value = self.value & !feature;
        if value {
            self.value = self.value | feature;
        }
    }

    pub fn new(value: u32) -> (made: Self)
        ensures
            made@ == value,
    {
        Self { value }
    }
}

/// Setting a feature twice leaves what setting it once left.
pub proof fn lemma_set_idempotent(bits: u32, feature: u32, value: bool)
    ensures
        spec_set(spec_set(bits, feature, value), feature, value) == spec_set(bits, feature, value),
{
    assert(((bits & !feature) | feature) & !feature | feature == (bits & !feature) | feature)
        by (bit_vector);
    assert((bits & !feature) & !feature == bits & !feature) by (bit_vector);
}

/// A feature that is set reads as set and one that is cleared reads as
/// cleared, as long as `feature` names at least one bit.
pub proof fn lemma_check_after_set(bits: u32, feature: u32, value: bool)
    requires
        feature != 0,
    ensures
        spec_check(spec_set(bits, feature, value), feature) == value,
{
    assert(feature != 0 ==> ((bits & !feature) | feature) & feature != 0) by (bit_vector);
    assert((bits & !feature) & feature == 0) by (bit_vector);
}

/// Clearing a feature after setting it gives back the bitfield as it was
/// before, where the feature was not set before.
pub proof fn lemma_clear_after_set_restores(bits: u32, feature: u32)
    requires
        bits & feature == 0,
    ensures
        spec_set(spec_set(bits, feature, true), feature, false) == bits,
{
    assert(bits & feature == 0 ==> ((bits & !feature) | feature) & !feature == bits)
        by (bit_vector);
}

/// Setting or clearing a feature leaves every bit outside it as it was.
pub proof fn lemma_set_keeps_other_bits(bits: u32, feature: u32, value: bool, other: u32)
    requires
        other & feature == 0,
    ensures
        spec_set(bits, feature, value) & other == bits & other,
{
    assert(other & feature == 0 ==> ((bits & !feature) | feature) & other == bits & other)
        by (bit_vector);
    assert(other & feature == 0 ==> (bits & !feature) & other == bits & other) by (bit_vector);
}

} // verus!
