//! The facts of a game session that the interface logic reads.
use vstd::prelude::*;
use crate::game::Player;

verus! {

/// Who plays which side.
#[derive(Debug, Clone, Copy, PartialEq, Eq, Structural)]
pub enum GameMode {
    /// Two people at one device.
    Local,
    /// The user plays the given side against the AI.
    AI(Player),
    /// The user plays the given side against a remote opponent.
    Network(Player),
    /// The AI plays both sides.
    SelfPlay,
}

/// Whether the game is still being played.
#[derive(Debug, Clone, Copy, PartialEq, Eq, Structural)]
pub enum GameStatus {
    Playing,
    Finished,
}

/// A command the user can send to the session.
#[derive(Debug, Clone, Copy, PartialEq, Eq, Structural)]
pub enum SessionCommand {
    Place(usize),
    Pass,
    Resign,
    Restart,
}

/// Why the session refused a command.
#[derive(Debug, Clone, Copy, PartialEq, Eq, Structural)]
pub enum SessionError {
    InvalidVertex,
    Occupied,
    Suicide,
    Superko,
    GameOver,
}

} // verus!
