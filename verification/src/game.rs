//! Input tracking for a user-controlled game: key press/release events are
//! folded into the currently selected paddle direction, so that releasing
//! one of two simultaneously held directions falls back to the other.

use vstd::prelude::*;

use crate::engine::PaddleMove;

verus! {

/// Game tick result of a user-controlled session.
#[derive(Clone, Copy, PartialEq, Eq, Structural, Debug)]
pub enum TickResult {
    GameEnd,
    Exit,
}

/// Paddle input: a press or release of one of the two directions.
#[derive(Clone, Copy, PartialEq, Eq, Structural, Debug)]
pub enum PaddleInput {
    Up,
    StopUp,
    Down,
    StopDown,
}

/// Window event relevant to the game.
#[derive(Clone, Copy, PartialEq, Eq, Structural, Debug)]
pub enum UserEvent {
    GameInput(PaddleInput),
    Exit,
}

/// Which directions are held, and the move selected for the next tick
/// (last relevant direction wins).
#[derive(Clone, Copy, PartialEq, Eq, Structural, Debug)]
pub struct InputState {
    pub up: bool,
    pub down: bool,
    pub selected: Option<PaddleMove>,
}

impl Default for InputState {
    fn default() -> (s: InputState)
        ensures
            s == (InputState { up: false, down: false, selected: None::<PaddleMove> }),
    {
        InputState { up: false, down: false, selected: None }
    }
}

/// The input state after one press or release event: a press selects its
/// direction; a release deselects it and falls back to the other
/// direction if that one is still held.
pub open spec fn spec_process_input(s: InputState, input: PaddleInput) -> InputState {
    match input {
        PaddleInput::Up => InputState { up: true, down: s.down, selected: Some(PaddleMove::Up) },
        PaddleInput::StopUp => InputState {
            up: false,
            down: s.down,
            selected: if s.selected == Some(PaddleMove::Up) {
                if s.down {
                    Some(PaddleMove::Down)
                } else {
                    None
                }
            } else {
                s.selected
            },
        },
        PaddleInput::Down => InputState {
            up: s.up,
            down: true,
            selected: Some(PaddleMove::Down),
        },
        PaddleInput::StopDown => InputState {
            up: s.up,
            down: false,
            selected: if s.selected == Some(PaddleMove::Down) {
                if s.up {
                    Some(PaddleMove::Up)
                } else {
                    None
                }
            } else {
                s.selected
            },
        },
    }
}

/// Fold one paddle input event into the input state.
pub fn process_input_event(state: &mut InputState, input: PaddleInput)
    ensures
        *final(state) == spec_process_input(*old(state), input),
{
    match input {
        PaddleInput::Up => {
            state.up = true;
            state.selected = Some(PaddleMove::Up);
        },
        PaddleInput::StopUp => {
            state.up = false;
            if matches!(state.selected, Some(PaddleMove::Up)) {
                state.selected = if state.down {
                    Some(PaddleMove::Down)
                } else {
                    None
                };
            }
        },
        PaddleInput::Down => {
            state.down = true;
            state.selected = Some(PaddleMove::Down);
        },
        PaddleInput::StopDown => {
            state.down = false;
            if matches!(state.selected, Some(PaddleMove::Down)) {
                state.selected = if state.up {
                    Some(PaddleMove::Up)
                } else {
                    None
                };
            }
        },
    }
}

} // verus!
