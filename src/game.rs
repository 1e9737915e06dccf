//! The state machine that resolves one action at a time.
use vstd::prelude::*;
use crate::io::{
    opponent, valid_config, DifficultyLevel, GameState, PebblesAction, PebblesError, PebblesEvent,
    PebblesInit, Player,
};
use crate::strategy::{
    coin_flip, first_player_from, is_legal_move, legal_move, program_move, program_move_spec,
};

verus! {

/// The state of a game just started from a valid configuration, with the
/// first mover drawn from `coin`.
pub open spec fn fresh_state(difficulty: DifficultyLevel, pebbles_count: u32, max_pebbles_per_turn: u32, coin: u32) -> GameState {
    GameState {
        pebbles_count,
        max_pebbles_per_turn,
        pebbles_remaining: pebbles_count,
        difficulty,
        first_player: coin_flip(coin),
        current_player: coin_flip(coin),
        winner: None,
    }
}

/// Starting a game: refused when the configuration is invalid.
pub open spec fn new_game_spec(difficulty: DifficultyLevel, pebbles_count: u32, max_pebbles_per_turn: u32, coin: u32) -> Result<GameState, PebblesError> {
    if valid_config(pebbles_count, max_pebbles_per_turn) {
        Ok(fresh_state(difficulty, pebbles_count, max_pebbles_per_turn, coin))
    } else {
        Err(PebblesError::InvalidConfig)
    }
}

/// The automated side moves on `s` (its turn, a non-empty pile): it wins if
/// its move takes the rest of the pile, else the turn passes back.
pub open spec fn program_turn_spec(s: GameState, random: u32) -> (GameState, PebblesEvent) {
    let p = program_move_spec(s, random);
    if p >= s.pebbles_remaining {
        (GameState { pebbles_remaining: 0, winner: Some(Player::Program), ..s }, PebblesEvent::Won(Player::Program))
    } else {
        (
            GameState {
                pebbles_remaining: (s.pebbles_remaining - p) as u32,
                current_player: opponent(s.current_player),
                ..s
            },
            PebblesEvent::CounterTurn(p as u32),
        )
    }
}

/// The human side takes `n`.  A finished game is left as it is; an illegal
/// move declares its submitter the winner and changes nothing; a move that
/// empties the pile wins; any other is answered by the automated side.
pub open spec fn turn_spec(s: GameState, n: u32, random: u32) -> (GameState, PebblesEvent) {
    if s.winner is Some {
        (s, PebblesEvent::Won(s.winner->0))
    } else if !legal_move(n, s.max_pebbles_per_turn) {
        (s, PebblesEvent::Won(s.current_player))
    } else if n >= s.pebbles_remaining {
        (GameState { pebbles_remaining: 0, winner: Some(s.current_player), ..s }, PebblesEvent::Won(s.current_player))
    } else {
        program_turn_spec(
            GameState {
                pebbles_remaining: (s.pebbles_remaining - n) as u32,
                current_player: opponent(s.current_player),
                ..s
            },
            random,
        )
    }
}

/// The side to move forfeits, so its opponent wins; a finished game is left
/// as it is.
pub open spec fn give_up_spec(s: GameState) -> (GameState, PebblesEvent) {
    if s.winner is Some {
        (s, PebblesEvent::Won(s.winner->0))
    } else {
        (GameState { winner: Some(opponent(s.current_player)), ..s }, PebblesEvent::Won(opponent(s.current_player)))
    }
}

/// The outcome of one action on `s`: the next state and the event, or the
/// error for which the action is refused.  `random` is the value drawn for
/// the action, read by an easy move or a restart's coin flip.
pub open spec fn handle_spec(s: GameState, action: PebblesAction, random: u32) -> Result<(GameState, PebblesEvent), PebblesError> {
    match action {
        PebblesAction::Turn(n) => Ok(turn_spec(s, n, random)),
        PebblesAction::GiveUp => Ok(give_up_spec(s)),
        PebblesAction::Restart { difficulty, pebbles_count, max_pebbles_per_turn } =>
            match new_game_spec(difficulty, pebbles_count, max_pebbles_per_turn, random) {
                Ok(ns) => Ok((ns, PebblesEvent::Won(ns.first_player))),
                Err(e) => Err(e),
            },
    }
}

/// The opening of a game: the fresh state, after one automated move when the
/// automated side was drawn to start (`draw` is the value for an easy move).
pub open spec fn init_spec(config: PebblesInit, coin: u32, draw: u32) -> Result<(GameState, PebblesEvent), PebblesError> {
    match new_game_spec(config.difficulty, config.pebbles_count, config.max_pebbles_per_turn, coin) {
        Ok(s) => if s.first_player == Player::Program {
            Ok(program_turn_spec(s, draw))
        } else {
            Ok((s, PebblesEvent::Won(s.first_player)))
        },
        Err(e) => Err(e),
    }
}

/// A new game from a configuration, the first mover drawn from `coin`.
pub fn new_game(difficulty: DifficultyLevel, pebbles_count: u32, max_pebbles_per_turn: u32, coin: u32) -> (r: Result<GameState, PebblesError>)
    ensures
        r == new_game_spec(difficulty, pebbles_count, max_pebbles_per_turn, coin),
{
    if pebbles_count == 0 || max_pebbles_per_turn == 0 {
        return Err(PebblesError::InvalidConfig);
    }
    let first_player = first_player_from(coin);
    Ok(GameState {
        pebbles_count,
        max_pebbles_per_turn,
        pebbles_remaining: pebbles_count,
        difficulty,
        first_player,
        current_player: first_player,
        winner: None,
    })
}

/// The automated side plays one move on its turn.
fn program_turn(state: &mut GameState, random: u32) -> (e: PebblesEvent)
    requires
        old(state).max_pebbles_per_turn >= 1,
        old(state).pebbles_remaining >= 1,
    ensures
        (*final(state), e) == program_turn_spec(*old(state), random),
{
    let p = program_move(state, random);
    if p >= state.pebbles_remaining {
        state.pebbles_remaining = 0;
        state.winner = Some(Player::Program);
        PebblesEvent::Won(Player::Program)
    } else {
        state.pebbles_remaining = state.pebbles_remaining - p;
        state.current_player = crate::io::next_player(&state.current_player);
        PebblesEvent::CounterTurn(p)
    }
}

/// Starts a game: `coin` picks the first mover, and `draw` the automated
/// side's opening move in easy mode.  An invalid configuration is refused.
pub fn init(config: PebblesInit, coin: u32, draw: u32) -> (r: Result<(GameState, PebblesEvent), PebblesError>)
    ensures
        r == init_spec(config, coin, draw),
        r is Err <==> !valid_config(config.pebbles_count, config.max_pebbles_per_turn),
{
    let mut state = match new_game(config.difficulty, config.pebbles_count, config.max_pebbles_per_turn, coin) {
        Ok(s) => s,
        Err(e) => return Err(e),
    };
    if state.first_player == Player::Program {
        let event = program_turn(&mut state, draw);
        Ok((state, event))
    } else {
        let event = PebblesEvent::Won(state.first_player);
        Ok((state, event))
    }
}

/// Resolves one action on the game.  On success the state becomes the next
/// state and the event is returned; a refused restart leaves the state as it
/// was.
pub fn handle(state: &mut GameState, action: PebblesAction, random: u32) -> (r: Result<PebblesEvent, PebblesError>)
    ensures
        match handle_spec(*old(state), action, random) {
            Ok((ns, e)) => *final(state) == ns && r == Ok::<PebblesEvent, PebblesError>(e),
            Err(err) => *final(state) == *old(state) && r == Err::<PebblesEvent, PebblesError>(err),
        },
{
    match action {
        PebblesAction::Turn(n) => {
            if let Some(w) = state.winner {
                return Ok(PebblesEvent::Won(w));
            }
            if !is_legal_move(n, state.max_pebbles_per_turn) {
                return Ok(PebblesEvent::Won(state.current_player));
            }
            if n >= state.pebbles_remaining {
                state.pebbles_remaining = 0;
                state.winner = Some(state.current_player);
                Ok(PebblesEvent::Won(state.current_player))
            } else {
                state.pebbles_remaining = state.pebbles_remaining - n;
                state.current_player = crate::io::next_player(&state.current_player);
                Ok(program_turn(state, random))
            }
        },
        PebblesAction::GiveUp => {
            if let Some(w) = state.winner {
                return Ok(PebblesEvent::Won(w));
            }
            let winner = crate::io::next_player(&state.current_player);
            state.winner = Some(winner);
            Ok(PebblesEvent::Won(winner))
        },
        PebblesAction::Restart { difficulty, pebbles_count, max_pebbles_per_turn } => {
            let fresh = new_game(difficulty, pebbles_count, max_pebbles_per_turn, random)?;
            *state = fresh;
            Ok(PebblesEvent::Won(fresh.first_player))
        },
    }
}

} // verus!
