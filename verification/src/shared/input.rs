//! One input of a replay: a frame, what happens on it, and where the players
//! are if the source recorded that.

use crate::float::{Float32, Float64};
use vstd::prelude::*;

verus! {

/// A button of the game itself going down or up.
#[derive(Clone, Copy, Debug, PartialEq, Eq, Structural)]
pub struct VanillaAction {
    pub button: i32,
    pub player2: bool,
    pub down: bool,
}

#[derive(Clone, Copy, Debug, PartialEq, Eq, Structural)]
pub enum RestartType {
    Death,
    Restart,
    RestartFull,
}

/// What a bot adds to the game's own buttons.
#[derive(Clone, Copy, Debug)]
pub enum CustomAction {
    /// Does nothing; it keeps its place in the frame count.
    Skip,
    Restart { restart_type: RestartType, new_seed: Option<u64> },
    BugCheckpoint,
    ChangeTPS { tps: Float64 },
}

#[derive(Clone, Copy, Debug)]
pub enum Action {
    Vanilla(VanillaAction),
    Custom(CustomAction),
}

#[derive(Clone, Copy, Debug)]
pub struct PositionData {
    pub x: Float32,
    pub y: Float32,
    pub rot: Float32,
    // A format that stores no velocity leaves these out rather than at zero.
    pub x_vel: Option<Float64>,
    pub y_vel: Option<Float64>,
}

/// A generic input.
///
/// Every format-specific input type must be convertible to this type.
#[derive(Clone, Copy, Debug)]
pub struct Input {
    pub frame: u64,
    pub action: Action,
    pub position: Option<PositionData>,
}

} // verus!
