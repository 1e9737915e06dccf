//! Facts about the game that relate its functions, proved over their
//! specifications.
use vstd::prelude::*;
use vstd::arithmetic::div_mod::{lemma_fundamental_div_mod, lemma_mod_multiples_vanish, lemma_small_mod};
use crate::io::{opponent, GameState, PebblesAction, PebblesError, PebblesEvent, PebblesInit, Player, DifficultyLevel};
use crate::strategy::{
    best_move, first_winning_take, lemma_best_move_in_range, leaves_losing_pile, legal_move,
    program_move_spec,
};
use crate::game::{handle_spec, init_spec};

verus! {

/// A take of at most `max_take` leaves a losing pile exactly when it equals
/// the pile modulo `max_take + 1`.
proof fn lemma_losing_pile_iff(remaining: int, max_take: int, take: int)
    requires
        1 <= max_take,
        1 <= take <= max_take,
    ensures
        leaves_losing_pile(remaining, max_take, take) <==> take == remaining % (max_take + 1),
{
    let k = max_take + 1;
    let q = remaining / k;
    let s = remaining % k;
    lemma_fundamental_div_mod(remaining, k);
    assert(remaining - take == k * q + (s - take));
    lemma_mod_multiples_vanish(q, s - take, k);
    if s - take >= 0 {
        lemma_small_mod((s - take) as nat, k as nat);
    } else {
        lemma_mod_multiples_vanish(1, s - take, k);
        lemma_small_mod((k + s - take) as nat, k as nat);
    }
}

proof fn lemma_first_winning_take_from(remaining: int, max_take: int, from: int)
    requires
        1 <= max_take,
        1 <= from,
        remaining % (max_take + 1) == 0 || from <= remaining % (max_take + 1),
    ensures
        first_winning_take(remaining, max_take, from) == if remaining % (max_take + 1) == 0 {
            1
        } else {
            remaining % (max_take + 1)
        },
    decreases max_take + 1 - from,
{
    if from <= max_take {
        lemma_losing_pile_iff(remaining, max_take, from);
        if !leaves_losing_pile(remaining, max_take, from) {
            lemma_first_winning_take_from(remaining, max_take, from + 1);
        }
    }
}

/// The optimal move takes the pile's remainder modulo `max_take + 1`, which
/// leaves the opponent a multiple of `max_take + 1`; from a pile that is
/// already such a multiple no move does, and the engine takes one pebble.
pub proof fn lemma_best_move_closed_form(remaining: int, max_take: int)
    requires
        1 <= max_take,
    ensures
        remaining % (max_take + 1) != 0 ==> best_move(remaining, max_take) == remaining % (max_take + 1)
            && leaves_losing_pile(remaining, max_take, best_move(remaining, max_take)),
        remaining % (max_take + 1) == 0 ==> best_move(remaining, max_take) == 1,
{
    lemma_first_winning_take_from(remaining, max_take, 1);
    if remaining % (max_take + 1) != 0 {
        lemma_losing_pile_iff(remaining, max_take, remaining % (max_take + 1));
    }
}

/// The automated side's move is legal at either difficulty.
proof fn lemma_program_move_legal(s: GameState, random: u32)
    requires
        s.max_pebbles_per_turn >= 1,
    ensures
        1 <= program_move_spec(s, random) <= s.max_pebbles_per_turn,
{
    lemma_best_move_in_range(s.pebbles_remaining as int, s.max_pebbles_per_turn as int);
}

/// Every started game satisfies the state invariant.
pub proof fn lemma_init_establishes_invariant(config: PebblesInit, coin: u32, draw: u32)
    ensures
        init_spec(config, coin, draw) matches Ok((s, _)) ==> s.wf(),
{
    if config.max_pebbles_per_turn >= 1 {
        lemma_program_move_legal(
            crate::game::fresh_state(config.difficulty, config.pebbles_count, config.max_pebbles_per_turn, coin),
            draw,
        );
    }
}

/// Every action keeps the state invariant, so it holds of every reachable
/// state.  Within a game the configuration stays, the pile only shrinks, a
/// winner appears only when the pile is emptied or the side to move gives
/// up, and a finished game stays as it is.
pub proof fn lemma_handle_keeps_invariant(s: GameState, action: PebblesAction, random: u32)
    requires
        s.wf(),
    ensures
        handle_spec(s, action, random) matches Ok((ns, _)) ==> {
            &&& ns.wf()
            &&& action !is Restart ==> {
                &&& ns.pebbles_count == s.pebbles_count
                &&& ns.max_pebbles_per_turn == s.max_pebbles_per_turn
                &&& ns.difficulty == s.difficulty
                &&& ns.first_player == s.first_player
                &&& ns.pebbles_remaining <= s.pebbles_remaining
                &&& s.winner is Some ==> ns == s
                &&& (s.winner is None && ns.winner is Some) ==> (ns.pebbles_remaining == 0 || action is GiveUp)
            }
            &&& action is Restart ==> ns.winner is None && ns.pebbles_remaining == ns.pebbles_count
        },
{
    if let PebblesAction::Turn(n) = action {
        if s.winner is None && legal_move(n, s.max_pebbles_per_turn) && n < s.pebbles_remaining {
            lemma_program_move_legal(
                GameState {
                    pebbles_remaining: (s.pebbles_remaining - n) as u32,
                    current_player: opponent(s.current_player),
                    ..s
                },
                random,
            );
        }
    }
}

/// A move that takes exactly the rest of the pile ends the game in favour of
/// its submitter, at either difficulty.
pub proof fn lemma_turn_taking_whole_pile(s: GameState, n: u32, random: u32)
    requires
        s.wf(),
        s.winner is None,
        n == s.pebbles_remaining,
        n <= s.max_pebbles_per_turn,
    ensures
        handle_spec(s, PebblesAction::Turn(n), random) == Ok::<(GameState, PebblesEvent), PebblesError>((
            GameState { pebbles_remaining: 0, winner: Some(s.current_player), ..s },
            PebblesEvent::Won(s.current_player),
        )),
{
}

/// A move above the per-turn maximum leaves the state untouched and, in a
/// game still in progress, declares its submitter the winner.
pub proof fn lemma_turn_above_maximum(s: GameState, n: u32, random: u32)
    requires
        n > s.max_pebbles_per_turn,
    ensures
        handle_spec(s, PebblesAction::Turn(n), random) matches Ok((ns, e)) && ns == s && (s.winner is None
            ==> e == PebblesEvent::Won(s.current_player)),
{
}

/// A restart with an empty pile or a zero per-turn maximum is refused.
pub proof fn lemma_restart_rejects_invalid_config(
    s: GameState,
    difficulty: DifficultyLevel,
    pebbles_count: u32,
    max_pebbles_per_turn: u32,
    random: u32,
)
    requires
        pebbles_count == 0 || max_pebbles_per_turn == 0,
    ensures
        handle_spec(s, PebblesAction::Restart { difficulty, pebbles_count, max_pebbles_per_turn }, random)
            == Err::<(GameState, PebblesEvent), PebblesError>(PebblesError::InvalidConfig),
{
}

/// When the user gives up in a game in progress, the automated side wins.
pub proof fn lemma_user_gives_up(s: GameState, random: u32)
    requires
        s.winner is None,
        s.current_player == Player::User,
    ensures
        handle_spec(s, PebblesAction::GiveUp, random) matches Ok((ns, e)) && ns.winner == Some(Player::Program)
            && e == PebblesEvent::Won(Player::Program),
{
}

/// A move that leaves stones is answered within the same action, so the
/// turn comes back to its submitter unless the game ended.
pub proof fn lemma_round_returns_turn(s: GameState, n: u32, random: u32)
    requires
        s.winner is None,
        legal_move(n, s.max_pebbles_per_turn),
        n < s.pebbles_remaining,
    ensures
        handle_spec(s, PebblesAction::Turn(n), random) matches Ok((ns, e)) && (ns.winner is None ==> (
            ns.current_player == s.current_player && e is CounterTurn)),
{
}

} // verus!
