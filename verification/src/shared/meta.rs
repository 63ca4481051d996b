//! What a format keeps beside the inputs.

use vstd::prelude::*;

verus! {

/// Marks a type as the metadata of some format.
pub trait ReplayMeta {

}

} // verus!
