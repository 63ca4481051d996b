//! The atom-based Silicate format.
//!
//! A file of this format is a list of atoms behind a block of metadata. The
//! actions of the replay make up one kind of atom; a file may hold other
//! kinds, which say nothing about the replay. What this module takes in is
//! such a file with its layers of packing taken off: every atom as it was
//! found and every action with its frame counted out.

use crate::action::{Action, PlayerButton, RestartType, TimePoint, TimedAction};
use crate::decimal::spec_format;
use crate::error::ReplayError;
use crate::float::Float64;
use crate::float_text::{offer, take, taken, FloatText};
use crate::format::Format;
use crate::meta::{transfers, FieldMap, Held, Meta, MetaField};
use crate::replay::{Replay, ReplaySerializable};
use crate::version::GameVersion;
use vstd::prelude::*;
use vstd::string::StringExecFns;

verus! {

/// What an action of the format does.
#[derive(Debug, Clone, Copy, PartialEq, Eq, Structural)]
pub enum ActionType {
    Reserved,
    Jump,
    Left,
    Right,
    Restart,
    RestartFull,
    Death,
    TPS,
}

/// One action of the format. Every action has every field; which of them
/// count depends on its type.
#[derive(Debug, Clone, Copy)]
pub struct Slc3Action {
    pub frame: u64,
    pub action_type: ActionType,
    pub holding: bool,
    pub player2: bool,
    pub seed: u64,
    pub tps: Float64,
}

/// The actions of a replay.
#[derive(Debug)]
pub struct ActionAtom {
    pub actions: Vec<Slc3Action>,
}

/// One atom of a file.
#[derive(Debug)]
pub enum AtomVariant {
    /// An atom that says nothing about the replay.
    Null,
    Action(ActionAtom),
}

/// The metadata block of a file.
#[derive(Debug, Clone, Copy)]
pub struct Metadata {
    pub tps: Float64,
    pub seed: u64,
    pub version: u32,
    pub build: u32,
}

/// A file of the format.
#[derive(Debug)]
pub struct Slc3Replay {
    pub metadata: Metadata,
    pub atoms: Vec<AtomVariant>,
}

/// The ticks per second of a replay whose metadata names none: 240.
pub const DEFAULT_TPS: u64 = 0x406e_0000_0000_0000;

/// The metadata of a replay of this format: what its file's metadata block
/// says of the ticks per second and the seed.
#[derive(Debug, Clone, Copy, PartialEq, Eq, Structural)]
pub struct SilicateMeta {
    pub tps: Float64,
    pub seed: u64,
}

impl SilicateMeta {
    /// What a replay keeps of its file's metadata block.
    pub fn from_metadata(metadata: &Metadata) -> (made: Self)
        ensures
            made == (SilicateMeta { tps: metadata.tps, seed: metadata.seed }),
    {
        SilicateMeta { tps: metadata.tps, seed: metadata.seed }
    }
}

impl Meta for SilicateMeta {
    /// Offers the ticks per second as the number that they are, and the
    /// seed as the text that it is written as.
    fn fields<F: FloatText>(&self) -> (offered: FieldMap<'_, F>)
        ensures
            offered@ == Map::<Seq<char>, Held>::empty().insert(
                "tps"@,
                Held::Double(self.tps.bits),
            ).insert("seed"@, Held::Text(spec_format(self.seed as int))),
    {
        let mut map = FieldMap::new();
        map.insert("tps".to_string(), offer(&self.tps));
        map.insert("seed".to_string(), MetaField::new(&self.seed));
        map
    }

    /// Takes the seed, or 0, and the ticks per second, or 240.
    fn from_fields<F: FloatText>(fields: FieldMap<'_, F>) -> (made: Self)
        ensures
            transfers::<u64, F>(fields@, "seed"@, 0u64, made.seed),
            if fields@.contains_key("tps"@) {
                taken::<F>(fields@["tps"@], Float64 { bits: DEFAULT_TPS }, made.tps)
            } else {
                made.tps == (Float64 { bits: DEFAULT_TPS })
            },
    {
        SilicateMeta {
            tps: take(&fields, "tps", Float64 { bits: DEFAULT_TPS }),
            seed: fields.decode_or("seed", 0),
        }
    }
}

/// Whether no action lies on an earlier frame than an action before it.
pub open spec fn frames_in_order(actions: Seq<Slc3Action>) -> bool {
    forall|i: int, j: int| 0 <= i <= j < actions.len() ==> actions[i].frame <= actions[j].frame
}

/// The version of the game that files of this format are made for.
pub open spec fn slc3_game_version() -> GameVersion {
    GameVersion { major: 22, minor: 74 }
}

/// The action of the model that an action of the format stands for.
pub open spec fn spec_action(action: Slc3Action) -> Action {
    match action.action_type {
        ActionType::Jump => Action::Player {
            button: PlayerButton::Jump,
            hold: action.holding,
            player2: action.player2,
        },
        ActionType::Left => Action::Player {
            button: PlayerButton::Left,
            hold: action.holding,
            player2: action.player2,
        },
        ActionType::Right => Action::Player {
            button: PlayerButton::Right,
            hold: action.holding,
            player2: action.player2,
        },
        ActionType::Restart => Action::Restart {
            restart_type: RestartType::Restart,
            seed: Some(action.seed),
        },
        ActionType::RestartFull => Action::Restart {
            restart_type: RestartType::RestartFull,
            seed: Some(action.seed),
        },
        ActionType::Death => Action::Restart {
            restart_type: RestartType::Death,
            seed: Some(action.seed),
        },
        ActionType::TPS => Action::TPS { tps: action.tps },
        ActionType::Reserved => Action::Empty,
    }
}

/// An action of the format as the model holds it: on its frame, and without
/// a position.
pub open spec fn spec_timed(action: Slc3Action) -> TimedAction {
    TimedAction { time: TimePoint::Frame(action.frame), action: spec_action(action), position: None }
}

/// The actions of the format, each as the model holds it.
pub open spec fn spec_timed_all(actions: Seq<Slc3Action>) -> Seq<TimedAction> {
    Seq::new(actions.len(), |i: int| spec_timed(actions[i]))
}

/// Where the first atom of actions lies among the atoms from `from` on.
pub open spec fn spec_action_atom(atoms: Seq<AtomVariant>, from: int) -> Option<int>
    decreases atoms.len() - from,
{
    if from < 0 || from >= atoms.len() {
        None
    } else if atoms[from] is Action {
        Some(from)
    } else {
        spec_action_atom(atoms, from + 1)
    }
}

/// The atom that is found is an atom of actions, and no atom before it is.
pub proof fn lemma_action_atom_is_first(atoms: Seq<AtomVariant>, from: int)
    requires
        0 <= from,
    ensures
        match spec_action_atom(atoms, from) {
            Some(at) => {
                &&& from <= at < atoms.len()
                &&& atoms[at] is Action
                &&& forall|i: int| from <= i < at ==> !((#[trigger] atoms[i]) is Action)
            },
            None => forall|i: int| from <= i < atoms.len() ==> !((#[trigger] atoms[i]) is Action),
        },
    decreases atoms.len() - from,
{
    if from < atoms.len() && !(atoms[from] is Action) {
        lemma_action_atom_is_first(atoms, from + 1);
    }
}

/// An action of the format as the model holds it.
pub fn timed_action(action: &Slc3Action) -> (timed: TimedAction)
    ensures
        timed == spec_timed(*action),
{
    TimedAction {
        time: TimePoint::Frame(action.frame),
        action: match action.action_type {
            ActionType::Jump => Action::Player {
                button: PlayerButton::Jump,
                hold: action.holding,
                player2: action.player2,
            },
            ActionType::Left => Action::Player {
                button: PlayerButton::Left,
                hold: action.holding,
                player2: action.player2,
            },
            ActionType::Right => Action::Player {
                button: PlayerButton::Right,
                hold: action.holding,
                player2: action.player2,
            },
            ActionType::Restart => Action::Restart {
                restart_type: RestartType::Restart,
                seed: Some(action.seed),
            },
            ActionType::RestartFull => Action::Restart {
                restart_type: RestartType::RestartFull,
                seed: Some(action.seed),
            },
            ActionType::Death => Action::Restart {
                restart_type: RestartType::Death,
                seed: Some(action.seed),
            },
            ActionType::TPS => Action::TPS { tps: action.tps },
            ActionType::Reserved => Action::Empty,
        },
        position: None,
    }
}

/// Finds the first atom of actions.
pub fn find_action_atom(atoms: &Vec<AtomVariant>) -> (found: Option<&ActionAtom>)
    ensures
        match (found, spec_action_atom(atoms@, 0)) {
            (Some(atom), Some(at)) => atoms@[at] == AtomVariant::Action(*atom),
            (None, None) => true,
            _ => false,
        },
{
    let mut at: usize = 0;
    while at < atoms.len()
        invariant
            at <= atoms.len(),
            spec_action_atom(atoms@, 0) == spec_action_atom(atoms@, at as int),
        decreases atoms.len() - at,
    {
        if let AtomVariant::Action(atom) = &atoms[at] {
            return Some(atom);
        }
        at = at + 1;
    }
    None
}

/// A replay of the atom-based Silicate format.
pub struct SilicateReplay {
    inner: Replay<SilicateMeta>,
}

impl SilicateReplay {
    /// The error for a file that could not be taken apart, with what the
    /// failure was.
    pub fn read_failure(detail: &str) -> (error: ReplayError)
        ensures
            error matches ReplayError::ReadError(message) && message@
                == "failed to read slc3 replay: "@ + detail@,
    {
        ReplayError::ReadError(String::from_str("failed to read slc3 replay: ").concat(detail))
    }
}

impl ReplaySerializable<SilicateMeta> for SilicateReplay {
    type Source = Slc3Replay;

    closed spec fn replay(&self) -> Replay<SilicateMeta> {
        self.inner
    }

    fn new(replay: Replay<SilicateMeta>) -> (made: Self) {
        SilicateReplay { inner: replay }
    }

    fn into_replay(self) -> (replay: Replay<SilicateMeta>) {
        self.inner
    }

    /// Makes the replay of a file. The metadata is that of the file's
    /// metadata block, and the actions are those of the file's
    /// first atom of actions, each on its frame. A file without such an
    /// atom is refused, and so is one whose actions go back in time.
    fn read(original: &Slc3Replay) -> (read: Result<Self, ReplayError>)
        ensures
            match spec_action_atom(original.atoms@, 0) {
                Some(at) => {
                    let actions = original.atoms@[at]->Action_0.actions@;
                    if frames_in_order(actions) {
                        &&& read matches Ok(made)
                        &&& *made.replay().meta == (SilicateMeta {
                            tps: original.metadata.tps,
                            seed: original.metadata.seed,
                        })
                        &&& made.replay().actions@ == spec_timed_all(actions)
                        &&& made.replay().format == Format::Slc3
                        &&& made.replay().game_version == slc3_game_version()
                        &&& made.replay().well_formed()
                    } else {
                        &&& read matches Err(ReplayError::ReadError(message))
                        &&& message@ == "actions out of order in slc3 replay"@
                    }
                },
                None => {
                    &&& read matches Err(ReplayError::ReadError(message))
                    &&& message@ == "missing action atom in slc3 replay"@
                },
            },
    {
        proof {
            lemma_action_atom_is_first(original.atoms@, 0);
        }
        let action_atom = match find_action_atom(&original.atoms) {
            Some(atom) => atom,
            None => {
                return Err(
                    ReplayError::ReadError(String::from_str("missing action atom in slc3 replay")),
                );
            },
        };
        let mut actions: Vec<TimedAction> = Vec::new();
        let mut at: usize = 0;
        while at < action_atom.actions.len()
            invariant
                at <= action_atom.actions.len(),
                actions@ == spec_timed_all(action_atom.actions@.take(at as int)),
            decreases action_atom.actions.len() - at,
        {
            actions.push(timed_action(&action_atom.actions[at]));
            at = at + 1;
        }
        assert(action_atom.actions@.take(at as int) =~= action_atom.actions@);
        let replay = Replay {
            meta: Box::new(SilicateMeta::from_metadata(&original.metadata)),
            actions,
            format: Format::Slc3,
            game_version: GameVersion::new(22, 74),
        };
        proof {
            lemma_timed_keeps_frames(action_atom.actions@);
        }
        if !replay.is_time_ordered() {
            return Err(
                ReplayError::ReadError(String::from_str("actions out of order in slc3 replay")),
            );
        }
        Ok(SilicateReplay { inner: replay })
    }

    /// The format has no encoder yet.
    fn write(&self, writer: &mut Vec<u8>) -> (written: Result<(), ReplayError>)
        ensures
            written matches Err(ReplayError::WriteError(message)) && message@
                == "not yet supported"@,
    {
        Err(ReplayError::WriteError(String::from_str("not yet supported")))
    }
}

/// The replay of a file holds its actions in the order of their frames
/// exactly if the file does.
pub proof fn lemma_timed_keeps_frames(actions: Seq<Slc3Action>)
    ensures
        spec_timed_all(actions).len() == actions.len(),
        forall|i: int|
            0 <= i < actions.len() ==> (#[trigger] spec_timed_all(actions)[i]).time
                == TimePoint::Frame(actions[i].frame),
        crate::replay::time_ordered(spec_timed_all(actions)) <==> frames_in_order(actions),
{
    let timed = spec_timed_all(actions);
    if crate::replay::time_ordered(timed) {
        assert forall|i: int, j: int| 0 <= i <= j < actions.len() implies actions[i].frame
            <= actions[j].frame by {
            assert(crate::replay::time_le(timed[i].time, timed[j].time));
        }
    }
}

} // verus!
