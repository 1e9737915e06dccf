//! Move validation and the automated side's choice of move.
use vstd::prelude::*;
use vstd::arithmetic::div_mod::lemma_small_mod;
use crate::io::{DifficultyLevel, GameState, Player};

verus! {

/// A move takes at least one pebble and at most the per-turn maximum.
pub open spec fn legal_move(n: u32, max_pebbles_per_turn: u32) -> bool {
    1 <= n && n <= max_pebbles_per_turn
}

/// Taking `take` from a pile of `remaining` leaves a multiple of `max_take + 1`,
/// a pile from which the side to move loses against best play.
pub open spec fn leaves_losing_pile(remaining: int, max_take: int, take: int) -> bool {
    (remaining - take) % (max_take + 1) == 0
}

/// The first `take` from `from` up to `max_take` that leaves a losing pile,
/// or 1 when none does.
pub open spec fn first_winning_take(remaining: int, max_take: int, from: int) -> int
    decreases max_take + 1 - from,
{
    if from > max_take {
        1
    } else if leaves_losing_pile(remaining, max_take, from) {
        from
    } else {
        first_winning_take(remaining, max_take, from + 1)
    }
}

/// The optimal move: the least take in `1..=max_take` that leaves a losing pile,
/// falling back to 1.
pub open spec fn best_move(remaining: int, max_take: int) -> int {
    first_winning_take(remaining, max_take, 1)
}

/// The move of the automated side at the given difficulty, where `random` is
/// the value drawn for an easy move.
pub open spec fn program_move_spec(state: GameState, random: u32) -> int {
    match state.difficulty {
        DifficultyLevel::Easy => (random % state.max_pebbles_per_turn) as int + 1,
        DifficultyLevel::Hard => best_move(state.pebbles_remaining as int, state.max_pebbles_per_turn as int),
    }
}

/// The side that moves first, from a drawn value: an even value gives the user.
pub open spec fn coin_flip(random: u32) -> Player {
    if random % 2 == 0 { Player::User } else { Player::Program }
}

/// Whether `n` is a legal move under the per-turn maximum.
pub fn is_legal_move(n: u32, max_pebbles_per_turn: u32) -> (r: bool)
    ensures
        r == legal_move(n, max_pebbles_per_turn),
{
    1 <= n && n <= max_pebbles_per_turn
}

/// The search never passes a take equal to the pile, which always leaves zero.
proof fn lemma_first_winning_take_bounds(remaining: int, max_take: int, from: int)
    requires
        1 <= from,
        1 <= max_take,
    ensures
        1 <= first_winning_take(remaining, max_take, from) <= max_take,
        from <= remaining ==> first_winning_take(remaining, max_take, from) <= remaining,
    decreases max_take + 1 - from,
{
    if from > max_take {
    } else if leaves_losing_pile(remaining, max_take, from) {
    } else {
        if from == remaining {
            lemma_small_mod(0, (max_take + 1) as nat);
            assert(leaves_losing_pile(remaining, max_take, from));
        }
        lemma_first_winning_take_bounds(remaining, max_take, from + 1);
    }
}

/// The optimal move is a legal move, and never more than a non-empty pile.
pub proof fn lemma_best_move_in_range(remaining: int, max_take: int)
    requires
        1 <= max_take,
    ensures
        1 <= best_move(remaining, max_take) <= max_take,
        1 <= remaining ==> best_move(remaining, max_take) <= remaining,
{
    lemma_first_winning_take_bounds(remaining, max_take, 1);
}

/// The optimal move for the automated side: the least take in
/// `1..=max_take` after which the pile is a multiple of `max_take + 1`, or 1
/// when there is none.  The result may be the whole pile.
pub fn find_best_move(pebbles_remaining: u32, max_take: u32) -> (r: u32)
    requires
        pebbles_remaining >= 1,
        max_take >= 1,
    ensures
        r as int == best_move(pebbles_remaining as int, max_take as int),
        1 <= r <= max_take,
        r <= pebbles_remaining,
{
    proof {
        lemma_best_move_in_range(pebbles_remaining as int, max_take as int);
    }
    let modulus: u64 = max_take as u64 + 1;
    let mut take: u64 = 1;
    while take < modulus
        invariant
            1 <= take <= modulus,
            modulus == max_take as u64 + 1,
            take <= pebbles_remaining,
            first_winning_take(pebbles_remaining as int, max_take as int, take as int)
                == best_move(pebbles_remaining as int, max_take as int),
        decreases modulus - take,
    {
        if (pebbles_remaining as u64 - take) % modulus == 0 {
            return take as u32;
        }
        proof {
            if take == pebbles_remaining {
                lemma_small_mod(0, modulus as nat);
            }
        }
        take = take + 1;
    }
    1
}

/// The move of the automated side; `random` is used in easy mode only.  The
/// result may reach or pass the pile, which the caller reads as a win.
pub fn program_move(state: &GameState, random: u32) -> (r: u32)
    requires
        state.max_pebbles_per_turn >= 1,
        state.pebbles_remaining >= 1,
    ensures
        r as int == program_move_spec(*state, random),
        legal_move(r, state.max_pebbles_per_turn),
{
    let max_take = state.max_pebbles_per_turn;
    match state.difficulty {
        DifficultyLevel::Easy => (random % max_take) + 1,
        DifficultyLevel::Hard => find_best_move(state.pebbles_remaining, max_take),
    }
}

/// The side that moves first, from a drawn value.
pub fn first_player_from(random: u32) -> (r: Player)
    ensures
        r == coin_flip(random),
{
    if random % 2 == 0 { Player::User } else { Player::Program }
}

} // verus!
