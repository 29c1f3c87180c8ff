//! The learning-environment face of the game: the mapping between an
//! external agent's actions and paddle moves, and between outcomes and
//! rewards. An embedding (e.g. a Python binding) wraps these around
//! `Pong`.

use vstd::prelude::*;

use crate::engine::{GameResult, PaddleMove};

verus! {

/// The paddle move for an external action code: zero moves down, anything
/// else up.
pub fn action_to_move(action: i32) -> (m: Option<PaddleMove>)
    ensures
        m == if action == 0 {
            Some(PaddleMove::Down)
        } else {
            Some(PaddleMove::Up)
        },
{
    if action == 0 {
        Some(PaddleMove::Down)
    } else {
        Some(PaddleMove::Up)
    }
}

/// The reward for a tick's outcome: one for a win, minus one for a loss,
/// zero while the episode continues.
pub fn reward(result: Option<GameResult>) -> (r: i32)
    ensures
        r == (match result {
            Some(GameResult::Win) => 1i32,
            Some(GameResult::Lose) => -1i32,
            None => 0i32,
        }),
{
    match result {
        Some(GameResult::Win) => 1,
        Some(GameResult::Lose) => -1,
        None => 0,
    }
}

} // verus!
