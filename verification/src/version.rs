//! Game version related structs.
//!
//! A replay is made for one version of the game. Two versions count as the
//! same where their major numbers are the same, and the universal version
//! counts as the same as every version.

use vstd::prelude::*;
use vstd::std_specs::cmp::PartialEqSpec;

verus! {

/// A game version.
#[derive(Debug, Clone, Copy)]
pub struct GameVersion {
    /// The major version number.
    ///
    /// Given version "1.9" this would be `19`.
    /// Given version "2.113" this would be `21`.
    /// Given version "2.2074" this would be `22`.
    pub major: u32,
    /// The minor version number.
    ///
    /// This number has trailing zeroes added
    /// until the version reaches "4-digit precision".
    ///
    /// Given version "1.9" this would be `0`.
    /// Given version "2.113" this would be `130`.
    /// Given version "2.2074" this would be `74`.
    pub minor: u32,
}

impl GameVersion {
    /// A version by its two numbers.
    pub fn new(major: u32, minor: u32) -> (version: Self)
        ensures
            version.major == major,
            version.minor == minor,
    {
        Self { major, minor }
    }

    /// Whether a version is the universal one: the one with major number 0.
    pub open spec fn spec_is_universal(&self) -> bool {
        self.major == 0
    }

    /// Check if this version is universal (major version 0).
    #[must_use]
    #[verifier::when_used_as_spec(spec_is_universal)]
    pub fn is_universal(&self) -> (universal: bool)
        ensures
            universal == self.spec_is_universal(),
    {
        self.major == 0
    }

    /// Create a universal game version.
    #[must_use]
    pub fn universal() -> (version: Self)
        ensures
            version.major == 0,
            version.minor == 0,
            version.is_universal(),
    {
        Self { major: 0, minor: 0 }
    }
}

impl PartialEq for GameVersion {
    fn eq(&self, other: &Self) -> (equal: bool) {
        self.is_universal() || other.is_universal() || self.major == other.major
    }
}

impl vstd::std_specs::cmp::PartialEqSpecImpl for GameVersion {
    open spec fn obeys_eq_spec() -> bool {
        true
    }

    open spec fn eq_spec(&self, other: &Self) -> bool {
        self.is_universal() || other.is_universal() || self.major == other.major
    }
}

/// The universal version equals every version, from either side.
pub proof fn lemma_universal_equals_all(universal: GameVersion, other: GameVersion)
    requires
        universal.is_universal(),
    ensures
        universal.eq_spec(&other),
        other.eq_spec(&universal),
{
}

/// Two versions that are not universal are equal exactly if their major
/// numbers are, whatever their minor numbers.
pub proof fn lemma_versions_equal_by_major(a: GameVersion, b: GameVersion)
    requires
        !a.is_universal(),
        !b.is_universal(),
    ensures
        a.eq_spec(&b) <==> a.major == b.major,
{
}

/// Equality does not depend on which side a version stands.
pub proof fn lemma_version_equality_symmetric(a: GameVersion, b: GameVersion)
    ensures
        a.eq_spec(&b) == b.eq_spec(&a),
{
}

} // verus!
