//! The data model: players, difficulty, requests, events and the game state.
use vstd::prelude::*;

verus! {

/// The two sides of a game.
#[derive(Debug, Clone, Copy, PartialEq, Eq, Structural)]
pub enum Player {
    User,
    Program,
}

/// How the automated side picks its moves.
#[derive(Debug, Clone, Copy, PartialEq, Eq, Structural)]
pub enum DifficultyLevel {
    /// A uniformly drawn legal move.
    Easy,
    /// The move that leaves the opponent a losing pile, where one exists.
    Hard,
}

/// The parameters that start (or restart) a game.
#[derive(Debug, Clone, Copy, PartialEq, Eq, Structural)]
pub struct PebblesInit {
    pub difficulty: DifficultyLevel,
    pub pebbles_count: u32,
    pub max_pebbles_per_turn: u32,
}

/// One action submitted by the human side.
#[derive(Debug, Clone, Copy, PartialEq, Eq, Structural)]
pub enum PebblesAction {
    /// Take this many pebbles from the pile.
    Turn(u32),
    /// Forfeit the game.
    GiveUp,
    /// Throw the current game away and start a new one.
    Restart { difficulty: DifficultyLevel, pebbles_count: u32, max_pebbles_per_turn: u32 },
}

/// What the game answers to an action.
#[derive(Debug, Clone, Copy, PartialEq, Eq, Structural)]
pub enum PebblesEvent {
    /// The automated side has just taken this many pebbles.
    CounterTurn(u32),
    /// This player has won; at a (re)start, this player moves first.
    Won(Player),
}

/// Why a game could not be started.
#[derive(Debug, Clone, Copy, PartialEq, Eq, Structural)]
pub enum PebblesError {
    /// The pile size or the per-turn maximum is zero.
    InvalidConfig,
}

/// A game in progress, or finished once `winner` is set.
#[derive(Debug, Clone, Copy, PartialEq, Eq, Structural)]
pub struct GameState {
    pub pebbles_count: u32,
    pub max_pebbles_per_turn: u32,
    pub pebbles_remaining: u32,
    pub difficulty: DifficultyLevel,
    pub first_player: Player,
    pub current_player: Player,
    pub winner: Option<Player>,
}

/// The side that moves after `p`.
pub open spec fn opponent(p: Player) -> Player {
    match p {
        Player::User => Player::Program,
        Player::Program => Player::User,
    }
}

/// A configuration from which a game can be started.
pub open spec fn valid_config(pebbles_count: u32, max_pebbles_per_turn: u32) -> bool {
    pebbles_count >= 1 && max_pebbles_per_turn >= 1
}

impl GameState {
    /// What holds of every state that the game reaches: a valid configuration,
    /// a pile no larger than it started, and an empty pile only once the game
    /// has a winner.
    pub open spec fn wf(self) -> bool {
        &&& valid_config(self.pebbles_count, self.max_pebbles_per_turn)
        &&& self.pebbles_remaining <= self.pebbles_count
        &&& self.pebbles_remaining == 0 ==> self.winner.is_some()
    }

    /// A read-only snapshot of the state.
    pub fn state(&self) -> (r: GameState)
        ensures
            r == *self,
    {
        *self
    }
}

/// The side that moves after `current`.
pub fn next_player(current: &Player) -> (r: Player)
    ensures
        r == opponent(*current),
{
    match current {
        Player::User => Player::Program,
        Player::Program => Player::User,
    }
}

} // verus!
