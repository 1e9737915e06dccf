use pebbles_game::game::{handle, init, new_game};
use pebbles_game::io::{
    next_player, DifficultyLevel, GameState, PebblesAction, PebblesError, PebblesEvent, PebblesInit,
    Player,
};
use pebbles_game::strategy::{find_best_move, first_player_from, is_legal_move, program_move};

fn config(difficulty: DifficultyLevel, pebbles_count: u32, max_pebbles_per_turn: u32) -> PebblesInit {
    PebblesInit { difficulty, pebbles_count, max_pebbles_per_turn }
}

fn in_progress(difficulty: DifficultyLevel, remaining: u32, current: Player) -> GameState {
    GameState {
        pebbles_count: 15,
        max_pebbles_per_turn: 3,
        pebbles_remaining: remaining,
        difficulty,
        first_player: Player::User,
        current_player: current,
        winner: None,
    }
}

#[test]
fn test_initialization() {
    let (state, event) = init(config(DifficultyLevel::Easy, 15, 3), 0, 0).unwrap();
    assert_eq!(state.pebbles_count, 15);
    assert_eq!(state.max_pebbles_per_turn, 3);
    assert_eq!(state.pebbles_remaining, 15);
    assert!(state.winner.is_none());
    assert_eq!(state.first_player, Player::User);
    assert_eq!(state.current_player, Player::User);
    assert_eq!(event, PebblesEvent::Won(Player::User));
}

#[test]
fn test_easy_level_program_turn() {
    let (state, event) = init(config(DifficultyLevel::Easy, 15, 3), 1, 0).unwrap();
    assert_eq!(state.first_player, Player::Program);
    let expected_turn = 1;
    assert_eq!(state.pebbles_remaining, 15 - expected_turn);
    assert_eq!(state.current_player, Player::User);
    assert_eq!(event, PebblesEvent::CounterTurn(expected_turn));
}

#[test]
fn test_hard_level_program_turn() {
    let (state, event) = init(config(DifficultyLevel::Hard, 15, 3), 1, 0).unwrap();
    assert_eq!(state.first_player, Player::Program);
    assert_eq!(state.pebbles_remaining, 12);
    assert_eq!(event, PebblesEvent::CounterTurn(3));
}

#[test]
fn test_turn_action() {
    let (mut state, _) = init(config(DifficultyLevel::Easy, 15, 3), 0, 0).unwrap();
    assert_eq!(state.first_player, Player::User);
    let event = handle(&mut state, PebblesAction::Turn(2), 1).unwrap();
    // the automated reply to a draw of 1 is 1 % 3 + 1
    assert_eq!(event, PebblesEvent::CounterTurn(2));
    assert_eq!(state.pebbles_remaining, 13 - 2);
    assert_eq!(state.current_player, Player::User);
    assert!(state.winner.is_none());
}

#[test]
fn test_invalid_turn_action() {
    let (mut state, _) = init(config(DifficultyLevel::Easy, 15, 3), 0, 0).unwrap();
    let before = state;
    let event = handle(&mut state, PebblesAction::Turn(4), 1).unwrap();
    assert_eq!(event, PebblesEvent::Won(before.current_player));
    assert_eq!(state, before);
    assert_eq!(state.pebbles_remaining, 15);
}

#[test]
fn zero_pebble_turn_is_illegal() {
    let mut state = in_progress(DifficultyLevel::Hard, 10, Player::User);
    let event = handle(&mut state, PebblesAction::Turn(0), 7).unwrap();
    assert_eq!(event, PebblesEvent::Won(Player::User));
    assert_eq!(state, in_progress(DifficultyLevel::Hard, 10, Player::User));
}

#[test]
fn hard_move_from_fifteen_by_three() {
    assert_eq!(find_best_move(15, 3), 3);
    let state = in_progress(DifficultyLevel::Hard, 15, Player::Program);
    assert_eq!(program_move(&state, 0), 3);
}

#[test]
fn hard_move_leaves_a_multiple() {
    assert_eq!(find_best_move(14, 3), 2);
    assert_eq!(find_best_move(13, 3), 1);
    assert_eq!(find_best_move(9, 4), 4);
    assert_eq!(find_best_move(11, 4), 1);
}

#[test]
fn hard_move_from_losing_pile_takes_one() {
    assert_eq!(find_best_move(12, 3), 1);
    assert_eq!(find_best_move(4, 3), 1);
}

#[test]
fn hard_move_takes_a_small_pile_whole() {
    assert_eq!(find_best_move(2, 3), 2);
    assert_eq!(find_best_move(1, 1), 1);
}

#[test]
fn hard_move_with_largest_maximum() {
    assert_eq!(find_best_move(5, u32::MAX), 5);
    assert_eq!(find_best_move(u32::MAX, 2), 1);
    assert_eq!(find_best_move(u32::MAX, 3), 3);
}

#[test]
fn easy_move_uses_the_draw() {
    let state = in_progress(DifficultyLevel::Easy, 15, Player::Program);
    assert_eq!(program_move(&state, 0), 1);
    assert_eq!(program_move(&state, 5), 3);
    assert_eq!(program_move(&state, u32::MAX), 1);
}

#[test]
fn legal_move_bounds() {
    assert!(!is_legal_move(0, 3));
    assert!(is_legal_move(1, 3));
    assert!(is_legal_move(3, 3));
    assert!(!is_legal_move(4, 3));
}

#[test]
fn coin_flip_picks_first_player() {
    assert_eq!(first_player_from(0), Player::User);
    assert_eq!(first_player_from(2), Player::User);
    assert_eq!(first_player_from(1), Player::Program);
    assert_eq!(first_player_from(u32::MAX), Player::Program);
}

#[test]
fn players_alternate() {
    assert_eq!(next_player(&Player::User), Player::Program);
    assert_eq!(next_player(&Player::Program), Player::User);
}

#[test]
fn init_refuses_invalid_config() {
    assert_eq!(init(config(DifficultyLevel::Easy, 0, 3), 0, 0), Err(PebblesError::InvalidConfig));
    assert_eq!(init(config(DifficultyLevel::Hard, 15, 0), 0, 0), Err(PebblesError::InvalidConfig));
    assert_eq!(new_game(DifficultyLevel::Hard, 0, 0, 0), Err(PebblesError::InvalidConfig));
}

#[test]
fn program_opening_can_take_a_small_pile() {
    let (state, event) = init(config(DifficultyLevel::Easy, 1, 3), 1, 2).unwrap();
    assert_eq!(event, PebblesEvent::Won(Player::Program));
    assert_eq!(state.pebbles_remaining, 0);
    assert_eq!(state.winner, Some(Player::Program));
}

#[test]
fn restart_with_empty_pile_is_refused() {
    let mut state = in_progress(DifficultyLevel::Easy, 9, Player::User);
    let before = state;
    let r = handle(
        &mut state,
        PebblesAction::Restart { difficulty: DifficultyLevel::Hard, pebbles_count: 0, max_pebbles_per_turn: 3 },
        4,
    );
    assert_eq!(r, Err(PebblesError::InvalidConfig));
    assert_eq!(state, before);
}

#[test]
fn restart_with_zero_maximum_is_refused() {
    let mut state = in_progress(DifficultyLevel::Easy, 9, Player::User);
    let before = state;
    let r = handle(
        &mut state,
        PebblesAction::Restart { difficulty: DifficultyLevel::Easy, pebbles_count: 20, max_pebbles_per_turn: 0 },
        4,
    );
    assert_eq!(r, Err(PebblesError::InvalidConfig));
    assert_eq!(state, before);
}

#[test]
fn restart_replaces_the_game() {
    let mut state = in_progress(DifficultyLevel::Easy, 0, Player::User);
    state.winner = Some(Player::User);
    let r = handle(
        &mut state,
        PebblesAction::Restart { difficulty: DifficultyLevel::Hard, pebbles_count: 20, max_pebbles_per_turn: 4 },
        3,
    );
    assert_eq!(r, Ok(PebblesEvent::Won(Player::Program)));
    assert_eq!(
        state,
        GameState {
            pebbles_count: 20,
            max_pebbles_per_turn: 4,
            pebbles_remaining: 20,
            difficulty: DifficultyLevel::Hard,
            first_player: Player::Program,
            current_player: Player::Program,
            winner: None,
        }
    );
}

#[test]
fn give_up_by_user() {
    let mut state = in_progress(DifficultyLevel::Easy, 9, Player::User);
    let event = handle(&mut state, PebblesAction::GiveUp, 0).unwrap();
    assert_eq!(event, PebblesEvent::Won(Player::Program));
    assert_eq!(state.winner, Some(Player::Program));
    assert_eq!(state.current_player, Player::User);
    assert_eq!(state.pebbles_remaining, 9);
}

#[test]
fn turn_taking_whole_pile_wins() {
    for difficulty in [DifficultyLevel::Easy, DifficultyLevel::Hard] {
        let mut state = in_progress(difficulty, 3, Player::User);
        let event = handle(&mut state, PebblesAction::Turn(3), 0).unwrap();
        assert_eq!(event, PebblesEvent::Won(Player::User));
        assert_eq!(state.pebbles_remaining, 0);
        assert_eq!(state.winner, Some(Player::User));
    }
}

#[test]
fn turn_above_pile_wins() {
    let mut state = in_progress(DifficultyLevel::Hard, 2, Player::User);
    let event = handle(&mut state, PebblesAction::Turn(3), 0).unwrap();
    assert_eq!(event, PebblesEvent::Won(Player::User));
    assert_eq!(state.pebbles_remaining, 0);
}

#[test]
fn program_reply_takes_the_rest() {
    let mut state = in_progress(DifficultyLevel::Hard, 4, Player::User);
    let event = handle(&mut state, PebblesAction::Turn(1), 0).unwrap();
    assert_eq!(event, PebblesEvent::Won(Player::Program));
    assert_eq!(state.pebbles_remaining, 0);
    assert_eq!(state.winner, Some(Player::Program));
}

#[test]
fn hard_reply_leaves_a_multiple() {
    let mut state = in_progress(DifficultyLevel::Hard, 15, Player::User);
    let event = handle(&mut state, PebblesAction::Turn(1), 0).unwrap();
    assert_eq!(event, PebblesEvent::CounterTurn(2));
    assert_eq!(state.pebbles_remaining, 12);
    assert_eq!(state.current_player, Player::User);
}

#[test]
fn finished_game_stays_finished() {
    let mut state = in_progress(DifficultyLevel::Easy, 9, Player::User);
    handle(&mut state, PebblesAction::GiveUp, 0).unwrap();
    let finished = state;
    assert_eq!(handle(&mut state, PebblesAction::Turn(1), 0), Ok(PebblesEvent::Won(Player::Program)));
    assert_eq!(handle(&mut state, PebblesAction::GiveUp, 0), Ok(PebblesEvent::Won(Player::Program)));
    assert_eq!(state, finished);
}

#[test]
fn query_is_idempotent() {
    let (state, _) = init(config(DifficultyLevel::Hard, 15, 3), 1, 0).unwrap();
    let first = state.state();
    let second = state.state();
    assert_eq!(first, second);
    assert_eq!(first, state);
}

#[test]
fn invariant_holds_over_a_game() {
    let (mut state, _) = init(config(DifficultyLevel::Easy, 15, 3), 0, 0).unwrap();
    let draws = [7u32, 2, 9, 4, 11, 6, 1, 0];
    let mut i = 0;
    while state.winner.is_none() {
        let before = state.pebbles_remaining;
        handle(&mut state, PebblesAction::Turn(1 + (i as u32 % 3)), draws[i % draws.len()]).unwrap();
        assert!(state.pebbles_remaining <= state.pebbles_count);
        assert!(state.pebbles_remaining < before);
        assert_eq!(state.pebbles_remaining == 0, state.winner.is_some());
        i += 1;
    }
    assert_eq!(state.pebbles_remaining, 0);
}
