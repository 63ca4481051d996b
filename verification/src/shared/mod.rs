//! A replay as inputs on a frame counter, with a bitfield of the features
//! of its source format and a version that compares by its major part,
//! where major part 0 equals every version.

pub mod error;
pub mod feature;
pub mod format;
pub mod input;
pub mod meta;
pub mod replay;
pub mod version;
