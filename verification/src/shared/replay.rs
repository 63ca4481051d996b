//! A replay of inputs on frames, and its attempts.
//!
//! A restart of any kind ends one attempt and starts the next. Attempts are
//! counted from 1: attempt `n` is what lies between restart number `n` and
//! the restart after it, or the end of the replay.

use super::error::Error;
use super::feature::ReplayFeature;
use super::format::ReplayFormat;
use super::input::{Action, CustomAction, Input};
use super::meta::ReplayMeta;
use super::version::Version;
use vstd::prelude::*;
use vstd::slice::slice_subrange;
use vstd::std_specs::convert::{TryFromSpec, TryIntoSpec};

verus! {

#[derive(Clone)]
pub struct Replay<M: ReplayMeta> {
    pub features: ReplayFeature,
    pub original_format: ReplayFormat,
    pub version: Version,
    pub meta: Box<M>,
    pub inputs: Vec<Input>,
}

/// Whether an input ends an attempt: a restart of any kind does.
pub open spec fn is_restart(input: Input) -> bool {
    input.action matches Action::Custom(CustomAction::Restart { .. })
}

/// Where the scan from `from` on finds a restart after passing `skip` others.
pub open spec fn spec_find_restart(inputs: Seq<Input>, from: int, skip: nat) -> Option<int>
    decreases inputs.len() - from,
{
    if from < 0 || from >= inputs.len() {
        None
    } else if !is_restart(inputs[from]) {
        spec_find_restart(inputs, from + 1, skip)
    } else if skip == 0 {
        Some(from)
    } else {
        spec_find_restart(inputs, from + 1, (skip - 1) as nat)
    }
}

/// Where the restart lies that starts attempt number `attempt`. There is no
/// attempt 0, and none that more restarts would have to come before than the
/// replay holds.
pub open spec fn spec_attempt_pos(inputs: Seq<Input>, attempt: nat) -> Option<int> {
    if attempt == 0 {
        None
    } else {
        spec_find_restart(inputs, 0, (attempt - 1) as nat)
    }
}

/// Where the attempt that holds the input at `from` ends: at the first
/// restart from there on, or at the end of the inputs.
pub open spec fn spec_attempt_end(inputs: Seq<Input>, from: int) -> int
    decreases inputs.len() - from,
{
    if from < 0 || from >= inputs.len() {
        inputs.len() as int
    } else if is_restart(inputs[from]) {
        from
    } else {
        spec_attempt_end(inputs, from + 1)
    }
}

/// The first and one past the last index of attempt number `attempt`.
pub open spec fn spec_attempt_range(inputs: Seq<Input>, attempt: nat) -> Option<(int, int)> {
    match spec_attempt_pos(inputs, attempt) {
        Some(pos) => Some((pos + 1, spec_attempt_end(inputs, pos + 1))),
        None => None,
    }
}

/// Where an attempt ends lies between its start and the end of the inputs.
pub proof fn lemma_attempt_end_bounds(inputs: Seq<Input>, from: int)
    requires
        0 <= from <= inputs.len(),
    ensures
        from <= spec_attempt_end(inputs, from) <= inputs.len(),
    decreases inputs.len() - from,
{
    if from < inputs.len() && !is_restart(inputs[from]) {
        lemma_attempt_end_bounds(inputs, from + 1);
    }
}

/// The restart that starts an attempt is a restart, the attempt holds none,
/// and a restart or the end of the inputs follows it.
pub proof fn lemma_attempt_lies_between_restarts(inputs: Seq<Input>, attempt: nat)
    requires
        spec_attempt_range(inputs, attempt) is Some,
    ensures
        ({
            let (first, end) = spec_attempt_range(inputs, attempt)->Some_0;
            &&& 0 < first <= end <= inputs.len()
            &&& is_restart(inputs[first - 1])
            &&& forall|i: int| first <= i < end ==> !is_restart(#[trigger] inputs[i])
            &&& end == inputs.len() || is_restart(inputs[end])
        }),
{
    let skip = (attempt - 1) as nat;
    lemma_found_restart(inputs, 0, skip);
    let first = spec_find_restart(inputs, 0, skip)->Some_0 + 1;
    lemma_attempt_end_bounds(inputs, first);
    lemma_no_restart_before_end(inputs, first);
}

/// What the scan finds is a restart at or after where the scan began.
pub proof fn lemma_found_restart(inputs: Seq<Input>, from: int, skip: nat)
    requires
        spec_find_restart(inputs, from, skip) is Some,
    ensures
        from <= spec_find_restart(inputs, from, skip)->Some_0 < inputs.len(),
        is_restart(inputs[spec_find_restart(inputs, from, skip)->Some_0]),
    decreases inputs.len() - from,
{
    if !is_restart(inputs[from]) {
        lemma_found_restart(inputs, from + 1, skip);
    } else if skip > 0 {
        lemma_found_restart(inputs, from + 1, (skip - 1) as nat);
    }
}

/// No restart lies between an input and the end of its attempt, and the
/// attempt ends at a restart or at the end of the inputs.
pub proof fn lemma_no_restart_before_end(inputs: Seq<Input>, from: int)
    requires
        0 <= from <= inputs.len(),
    ensures
        forall|i: int|
            from <= i < spec_attempt_end(inputs, from) ==> !is_restart(#[trigger] inputs[i]),
        spec_attempt_end(inputs, from) == inputs.len() || is_restart(
            inputs[spec_attempt_end(inputs, from)],
        ),
    decreases inputs.len() - from,
{
    if from < inputs.len() && !is_restart(inputs[from]) {
        lemma_no_restart_before_end(inputs, from + 1);
    }
}

impl<M: ReplayMeta> Replay<M> {
    /// Takes a replay out of whatever can be turned into one.
    pub fn load<R>(replay: R) -> (loaded: Result<Self, Error>) where
        R: TryInto<Replay<M>, Error = Error>,

        ensures
            R::obeys_try_into_spec() ==> loaded == replay.try_into_spec(),
    {
        replay.try_into()
    }

    /// Turns the replay into whatever can be made of one.
    pub fn dump<R>(self) -> (dumped: Result<R, Error>) where
        R: TryFrom<Replay<M>, Error = Error>,

        ensures
            R::obeys_try_from_spec() ==> dumped == R::try_from_spec(self),
    {
        R::try_from(self)
    }

    /// Whether an input ends an attempt.
    pub fn is_death_input(input: &Input) -> (death: bool)
        ensures
            death == is_restart(*input),
    {
        match input.action {
            Action::Custom(CustomAction::Restart { .. }) => true,
            _ => false,
        }
    }

    /// Finds the restart that starts an attempt.
    pub fn determine_attempt_pos(&self, attempt: u32) -> (found: Option<usize>)
        ensures
            match found {
                Some(pos) => spec_attempt_pos(self.inputs@, attempt as nat) == Some(pos as int),
                None => spec_attempt_pos(self.inputs@, attempt as nat) is None,
            },
            found matches Some(pos) ==> pos < self.inputs.len() && is_restart(
                self.inputs@[pos as int],
            ),
    {
        if attempt == 0 {
            return None;
        }
        let mut skip: u32 = attempt - 1;
        let mut at: usize = 0;
        while at < self.inputs.len()
            invariant
                at <= self.inputs.len(),
                attempt > 0,
                spec_attempt_pos(self.inputs@, attempt as nat) == spec_find_restart(
                    self.inputs@,
                    at as int,
                    skip as nat,
                ),
            decreases self.inputs.len() - at,
        {
            if Self::is_death_input(&self.inputs[at]) {
                if skip == 0 {
                    return Some(at);
                }
                skip = skip - 1;
            }
            at = at + 1;
        }
        None
    }

    /// Finds where the attempt ends that holds the input at `from`.
    fn determine_attempt_end(&self, from: usize) -> (end: usize)
        requires
            from <= self.inputs.len(),
        ensures
            end == spec_attempt_end(self.inputs@, from as int),
            from <= end <= self.inputs.len(),
    {
        let mut at: usize = from;
        while at < self.inputs.len() && !Self::is_death_input(&self.inputs[at])
            invariant
                from <= at <= self.inputs.len(),
                spec_attempt_end(self.inputs@, from as int) == spec_attempt_end(
                    self.inputs@,
                    at as int,
                ),
            decreases self.inputs.len() - at,
        {
            at = at + 1;
        }
        at
    }

    /// The inputs of an attempt, in place.
    pub fn iter_for_attempt(&self, attempt: u32) -> (found: Option<&[Input]>)
        ensures
            match (found, spec_attempt_range(self.inputs@, attempt as nat)) {
                (Some(view), Some((first, end))) => view@ == self.inputs@.subrange(first, end),
                (None, None) => true,
                _ => false,
            },
    {
        let pos = match self.determine_attempt_pos(attempt) {
            Some(pos) => pos,
            None => return None,
        };
        let end = self.determine_attempt_end(pos + 1);
        Some(slice_subrange(self.inputs.as_slice(), pos + 1, end))
    }

    /// The inputs of an attempt, in place and open to change. Whatever the
    /// caller does with them, the inputs around them stay.
    pub fn iter_mut_for_attempt(&mut self, attempt: u32) -> (found: Option<&mut [Input]>)
        ensures
            match (found, spec_attempt_range(old(self).inputs@, attempt as nat)) {
                (Some(view), Some((first, end))) => {
                    &&& view@ == old(self).inputs@.subrange(first, end)
                    &&& final(self).inputs@ == old(self).inputs@.subrange(0, first)
                        + final(view)@
                        + old(self).inputs@.subrange(end, old(self).inputs@.len() as int)
                },
                (None, None) => final(self).inputs@ == old(self).inputs@,
                _ => false,
            },
            final(self).features == old(self).features,
            final(self).original_format == old(self).original_format,
            final(self).version == old(self).version,
            final(self).meta == old(self).meta,
    {
        let pos = match self.determine_attempt_pos(attempt) {
            Some(pos) => pos,
            None => return None,
        };
        let end = self.determine_attempt_end(pos + 1);
        let (_, rest) = self.inputs.as_mut_slice().split_at_mut(pos + 1);
        let (view, _) = rest.split_at_mut(end - (pos + 1));
        Some(view)
    }
}

} // verus!
