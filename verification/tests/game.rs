//! Input tracking and the learning-environment mappings.

use pong_rl::engine::{GameResult, PaddleMove};
use pong_rl::env::{action_to_move, reward};
use pong_rl::game::{process_input_event, InputState, PaddleInput};
use pong_rl::FRAME_DELAY;

#[test]
fn press_selects_direction() {
    let mut state = InputState::default();
    process_input_event(&mut state, PaddleInput::Up);
    assert_eq!(state.selected, Some(PaddleMove::Up));
    assert!(state.up);
    process_input_event(&mut state, PaddleInput::Down);
    assert_eq!(state.selected, Some(PaddleMove::Down));
    assert!(state.up && state.down);
}

#[test]
fn release_falls_back_to_other_held_direction() {
    // Hold Up, then Down (Down wins), release Down: falls back to Up;
    // release Up: nothing selected.
    let mut state = InputState::default();
    process_input_event(&mut state, PaddleInput::Up);
    process_input_event(&mut state, PaddleInput::Down);
    process_input_event(&mut state, PaddleInput::StopDown);
    assert_eq!(state.selected, Some(PaddleMove::Up));
    process_input_event(&mut state, PaddleInput::StopUp);
    assert_eq!(state.selected, None);
}

#[test]
fn release_of_unselected_direction_changes_nothing() {
    let mut state = InputState::default();
    process_input_event(&mut state, PaddleInput::Down);
    process_input_event(&mut state, PaddleInput::StopUp);
    assert_eq!(state.selected, Some(PaddleMove::Down));
    assert!(state.down);
}

#[test]
fn actions_map_to_moves() {
    assert_eq!(action_to_move(0), Some(PaddleMove::Down));
    assert_eq!(action_to_move(1), Some(PaddleMove::Up));
    assert_eq!(action_to_move(-7), Some(PaddleMove::Up));
}

#[test]
fn outcomes_map_to_rewards() {
    assert_eq!(reward(Some(GameResult::Win)), 1);
    assert_eq!(reward(Some(GameResult::Lose)), -1);
    assert_eq!(reward(None), 0);
}

#[test]
fn frame_delay_is_session_constant() {
    assert_eq!(FRAME_DELAY, 33);
}
