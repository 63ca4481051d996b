//! Module containing action-related types for replays.

use crate::float::Float64;
use vstd::prelude::*;

verus! {

/// A player button.
#[derive(Debug, Clone, Copy, PartialEq, Eq, Structural)]
pub enum PlayerButton {
    /// A jump. Equivalent to the button 1.
    Jump,
    /// A left input. Equivalent to the button 2.
    Left,
    /// A right input. Equivalent to the button 3.
    Right,
}

/// A restart type.
///
/// One of [`RestartType::Restart`], [`RestartType::RestartFull`] or [`RestartType::Death`].
#[derive(Debug, Clone, Copy, PartialEq, Eq, Structural)]
pub enum RestartType {
    /// The [`RestartType::Restart`] type. Typically respawns at the last platformer checkpoint.
    Restart,
    /// The [`RestartType::RestartFull`] type. Typically respawns at the level beginning.
    RestartFull,
    /// The [`RestartType::Death`] type. Typically marks that the player should die.
    Death,
}

/// An action in the replay.
#[derive(Debug, Clone, Copy)]
pub enum Action {
    /// An empty action. Doesn't do anything.
    Empty,
    /// A player action. Corresponds to a button press.
    Player {
        /// The button to press/release.
        button: PlayerButton,
        /// Whether to press/release the button.
        hold: bool,
        /// Whether this action is for player 1 or 2.
        player2: bool,
    },
    /// A restart action. Either forces a restart or signifies player death.
    Restart {
        /// The restart type.
        restart_type: RestartType,
        /// The new (optional) seed to set after the restart.
        seed: Option<u64>,
    },
    /// A TPS action. Changes the TPS of the replay.
    TPS {
        /// The new TPS to set.
        tps: Float64,
    },
    /// A bugpoint action. Places down a bugged checkpoint at this current frame.
    Bugpoint,
}

/// A time point at which to execute actions.
#[derive(Debug, Clone, Copy)]
pub enum TimePoint {
    /// A frame time point.
    ///
    /// Note that frame counting methods may differ per bot.
    /// If you're designing a new replay format, opt to use frames.
    Frame(u64),
    /// An x position time point.
    /// This denotes the x position of **Player 1**.
    ///
    /// Less reliable than frame counting, and only supported for
    /// compatibility reasons.
    XPos(Float64),
    /// A relative timestamp time format.
    ///
    /// This time point is only supported for compatibility.
    /// Don't use this time point. It's inaccurate and highly inefficient.
    Time(Float64),
}

/// Player position data for "frame-fixed" replays.
///
/// What a source did not record is left out, never set to zero.
#[derive(Debug, Clone, Copy)]
pub struct PlayerPosition {
    /// The X position of the player.
    pub x: Float64,
    /// The Y position of the player.
    pub y: Float64,
    /// The rotation of the player.
    pub rotation: Option<Float64>,
    /// The X velocity of the player.
    pub vel_x: Option<Float64>,
    /// The Y velocity of the player.
    pub vel_y: Option<Float64>,
}

/// Position data for both players used for "frame-fixed" replays.
#[derive(Debug, Clone, Copy)]
pub struct Position {
    /// Player 1 position data.
    pub player1: PlayerPosition,
    /// Player 2 position data.
    pub player2: PlayerPosition,
}

/// An action with a given time point.
///
/// May contain optional player position data.
#[derive(Debug, Clone, Copy)]
pub struct TimedAction {
    /// The time point at which to perform this action.
    pub time: TimePoint,
    /// What action to take during this time point.
    pub action: Action,
    /// The position at which both players are in this time point.
    pub position: Option<Position>,
}

} // verus!
