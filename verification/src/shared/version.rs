//! The version of the game a replay was made for.
//!
//! 2.206 is major 22, minor 06; 2.2074 is major 22, minor 074; 2.113 is
//! major 21, minor 13. Two versions are equal when their major parts are,
//! and the version with major part 0 stands for every version: it equals
//! each of them.

use vstd::prelude::*;
use vstd::std_specs::cmp::PartialEqSpec;

verus! {

#[derive(Clone, Copy, Debug)]
pub struct Version {
    pub major: u32,
    pub minor: u32,
}

impl PartialEq for Version {
    fn eq(&self, other: &Self) -> (equal: bool) {
        self.major == 0 || other.major == 0 || self.major == other.major
    }
}

impl vstd::std_specs::cmp::PartialEqSpecImpl for Version {
    open spec fn obeys_eq_spec() -> bool {
        true
    }

    open spec fn eq_spec(&self, other: &Self) -> bool {
        self.major == 0 || other.major == 0 || self.major == other.major
    }
}

/// The version with major part 0 equals every version, from either side.
pub proof fn lemma_universal_equals_all(universal: Version, other: Version)
    requires
        universal.major == 0,
    ensures
        universal.eq_spec(&other),
        other.eq_spec(&universal),
{
}

/// Two versions with major parts other than 0 are equal exactly if their
/// major parts are, whatever their minor parts.
pub proof fn lemma_versions_equal_by_major(a: Version, b: Version)
    requires
        a.major != 0,
        b.major != 0,
    ensures
        a.eq_spec(&b) <==> a.major == b.major,
{
}

} // verus!
