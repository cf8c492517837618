use vstd::prelude::*;

verus! {

/// Number of vertices of the compact HexGo board.
pub const VERTEX_COUNT: usize = 88;

/// Size of the action space: one entry per vertex plus one for passing.
pub const ACTION_SIZE: usize = 89;

/// Index of the pass action in a dense policy vector.
pub const PASS_INDEX: usize = 88;

/// A side of the game.
#[derive(Debug, Clone, Copy, PartialEq, Eq, Structural)]
pub enum Player {
    Black,
    White,
}

impl Player {
    pub open spec fn spec_opponent(self) -> Player {
        match self {
            Player::Black => Player::White,
            Player::White => Player::Black,
        }
    }

    /// The other side.
    pub fn opponent(self) -> (p: Player)
        ensures
            p == self.spec_opponent(),
            p != self,
    {
        match self {
            Player::Black => Player::White,
            Player::White => Player::Black,
        }
    }
}

/// The state of a board vertex.
#[derive(Debug, Clone, Copy, PartialEq, Eq, Structural)]
pub enum VertexState {
    Empty,
    Occupied(Player),
}

/// How a finished game ended (scores and margins are carried beside it as text).
#[derive(Debug, Clone, Copy, PartialEq, Eq, Structural)]
pub enum GameResult {
    WinByScore { winner: Player },
    WinByResignation { winner: Player },
    Draw,
}

impl GameResult {
    /// The winner, if the game was not drawn.
    pub open spec fn spec_winner(self) -> Option<Player> {
        match self {
            GameResult::WinByScore { winner } => Some(winner),
            GameResult::WinByResignation { winner } => Some(winner),
            GameResult::Draw => None,
        }
    }

    /// The winner, if the game was not drawn.
    pub fn winner(self) -> (w: Option<Player>)
        ensures
            w == self.spec_winner(),
    {
        match self {
            GameResult::WinByScore { winner } => Some(winner),
            GameResult::WinByResignation { winner } => Some(winner),
            GameResult::Draw => None,
        }
    }
}

/// A move on a vertex, or a pass.
#[derive(Debug, Clone, Copy, PartialEq, Eq, Structural)]
pub enum Action {
    Move(usize),
    Pass,
}

impl Action {
    pub open spec fn spec_index(self) -> int {
        match self {
            Action::Move(v) => v as int,
            Action::Pass => PASS_INDEX as int,
        }
    }

    /// The position of the action in a dense policy vector.
    pub fn index(self) -> (i: usize)
        ensures
            i == self.spec_index(),
    {
        match self {
            Action::Move(v) => v,
            Action::Pass => PASS_INDEX,
        }
    }
}

} // verus!
