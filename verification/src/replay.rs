//! Module for the replay struct.

use crate::action::{TimePoint, TimedAction};
use crate::error::ReplayError;
use crate::format::Format;
use crate::meta::Meta;
use crate::version::GameVersion;
use vstd::prelude::*;

verus! {

/// A replay.
pub struct Replay<M: Meta> {
    /// Metadata related to the replay.
    pub meta: Box<M>,
    /// Replay actions.
    pub actions: Vec<TimedAction>,
    /// The initial replay format for this replay.
    pub format: Format,
    /// The game version this replay is designed for.
    pub game_version: GameVersion,
}

/// Trait for types that are:
/// - Convertible to and from a generic replay.
/// - Serializable to and from a source and a writer.
pub trait ReplaySerializable<M: Meta>: Sized {
    /// What the codec reads from.
    type Source;

    /// The generic replay that a value holds.
    spec fn replay(&self) -> Replay<M>;

    /// Create a new instance from a generic replay.
    fn new(replay: Replay<M>) -> (made: Self)
        ensures
            made.replay() == replay,
    ;

    /// Downcast into a generic replay.
    fn into_replay(self) -> (replay: Replay<M>)
        ensures
            replay == self.replay(),
    ;

    /// Read an instance from a source. What is read keeps the order of
    /// time; a source that does not give such a replay is refused.
    fn read(source: &Self::Source) -> (read: Result<Self, ReplayError>)
        ensures
            read matches Ok(made) ==> made.replay().well_formed(),
    ;

    /// Write an instance at the end of a writer. A codec that cannot write
    /// leaves the writer as it was.
    fn write(&self, writer: &mut Vec<u8>) -> (written: Result<(), ReplayError>)
        ensures
            written is Err ==> final(writer)@ == old(writer)@,
    ;
}

/// Whether a time point is of the same kind as another and not after it.
pub open spec fn time_le(a: TimePoint, b: TimePoint) -> bool {
    match (a, b) {
        (TimePoint::Frame(x), TimePoint::Frame(y)) => x <= y,
        (TimePoint::XPos(x), TimePoint::XPos(y)) => x.le(&y),
        (TimePoint::Time(x), TimePoint::Time(y)) => x.le(&y),
        _ => false,
    }
}

/// Whether the actions are all timed in one way, and none comes before an
/// action that stands before it.
pub open spec fn time_ordered(actions: Seq<TimedAction>) -> bool {
    forall|i: int, j: int|
        0 <= i <= j < actions.len() ==> time_le(
            (#[trigger] actions[i]).time,
            (#[trigger] actions[j]).time,
        )
}

/// Whether a time point is of the same kind as another and not after it.
pub fn time_at_most(a: &TimePoint, b: &TimePoint) -> (at_most: bool)
    ensures
        at_most == time_le(*a, *b),
{
    match (a, b) {
        (TimePoint::Frame(x), TimePoint::Frame(y)) => *x <= *y,
        (TimePoint::XPos(x), TimePoint::XPos(y)) => x.le(y),
        (TimePoint::Time(x), TimePoint::Time(y)) => x.le(y),
        _ => false,
    }
}

/// Of three time points in a row, the first is not after the third.
pub proof fn lemma_time_le_transitive(a: TimePoint, b: TimePoint, c: TimePoint)
    requires
        time_le(a, b),
        time_le(b, c),
    ensures
        time_le(a, c),
{
}

impl<M: Meta> Replay<M> {
    /// Whether the replay keeps the order of time that every replay is to
    /// keep.
    pub open spec fn well_formed(&self) -> bool {
        time_ordered(self.actions@)
    }

    /// Marks the replay as one of another format. Nothing else changes.
    pub fn retag(&mut self, format: Format)
        ensures
            final(self).format == format,
            final(self).meta == old(self).meta,
            final(self).actions == old(self).actions,
            final(self).game_version == old(self).game_version,
    {
        self.format = format;
    }

    /// Checks the order of time.
    pub fn is_time_ordered(&self) -> (ordered: bool)
        ensures
            ordered == self.well_formed(),
    {
        if self.actions.len() == 0 {
            return true;
        }
        if !time_at_most(&self.actions[0].time, &self.actions[0].time) {
            return false;
        }
        let mut at: usize = 1;
        while at < self.actions.len()
            invariant
                1 <= at <= self.actions.len(),
                time_ordered(self.actions@.take(at as int)),
            decreases self.actions.len() - at,
        {
            let ghost done = self.actions@.take(at as int);
            let ghost next = self.actions@.take(at + 1);
            if !time_at_most(&self.actions[at - 1].time, &self.actions[at].time) {
                return false;
            }
            assert forall|i: int, j: int| 0 <= i <= j < next.len() implies time_le(
                (#[trigger] next[i]).time,
                (#[trigger] next[j]).time,
            ) by {
                if j < at {
                    assert(time_le(done[i].time, done[j].time));
                } else if i < at {
                    assert(time_le(done[i].time, done[at - 1].time));
                    lemma_time_le_transitive(next[i].time, next[at - 1].time, next[j].time);
                }
            }
            at = at + 1;
        }
        assert(self.actions@.take(at as int) =~= self.actions@);
        true
    }
}

} // verus!
