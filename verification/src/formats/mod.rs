//! The codecs, one module for each family of formats.

use crate::shared::error::Error;
use crate::shared::meta::ReplayMeta;
use crate::shared::replay::Replay;
use crate::stream::ByteReader;
use vstd::prelude::*;

pub mod silicate;
pub mod silicate3;
pub mod silicate_laws;

use silicate_laws::frames_ordered;

verus! {

/// What every codec offers: a replay out of bytes, bytes out of a replay,
/// and the replay itself.
pub trait ReplaySerializable<M: ReplayMeta>: Sized {
    /// The replay that this codec's value holds.
    spec fn replay(&self) -> Replay<M>;

    /// Decodes the bytes from the reader's position on. A replay comes back
    /// whole or not at all, and with its inputs in the order of their
    /// frames.
    fn from_reader(reader: ByteReader<'_>) -> (read: Result<Self, Error>)
        ensures
            read matches Ok(made) ==> frames_ordered(made.replay().inputs@),
    ;

    /// Encodes the replay at the end of `writer`. A codec that cannot
    /// encode says so and leaves `writer` as it was.
    fn to_writer(&mut self, writer: &mut Vec<u8>) -> (r: Result<(), Error>)
        ensures
            r is Err ==> final(writer)@ == old(writer)@,
            final(self).replay() == old(self).replay(),
    ;

    fn inner(&self) -> (replay: &Replay<M>)
        ensures
            *replay == self.replay(),
    ;

    /// The replay, open to change: what the caller leaves in it is what the
    /// value holds afterwards.
    fn inner_mut(&mut self) -> (replay: &mut Replay<M>)
        ensures
            *replay == old(self).replay(),
            final(self).replay() == *final(replay),
    ;
}

} // verus!
