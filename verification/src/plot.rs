//! Polling-cycle decisions: the game-window status machine, whose
//! transition function reports a message exactly once per edge and
//! never on a self-transition, and the scale range handed to the
//! matcher when the window runs below the reference resolution.

use vstd::prelude::*;

use crate::screenshot::REFERENCE_WIDTH;
use crate::window::Window;

verus! {

/// Observed state of the target game window, updated once per polling
/// cycle.  The machine is cyclic and has no terminal state.
#[derive(Clone, Copy, Debug, PartialEq, Eq, Structural)]
pub enum GameStatus {
    Uninitialized,
    Active,
    Inactive,
    NotFound,
}

impl GameStatus {
    /// Moves to `status` and reports whether an edge was taken: `true`
    /// exactly when the status changed, so a caller logging on `true`
    /// logs once per edge and never on a self-transition.
    pub fn set(&mut self, status: GameStatus) -> (changed: bool)
        ensures
            *final(self) == status,
            changed == (*old(self) != status),
    {
        if *self != status {
            *self = status;
            true
        } else {
            false
        }
    }

    /// The status line that belongs to this state; the caller emits it
    /// when `set` reports an edge.
    pub fn log(&self) -> (msg: String)
        ensures
            *self == GameStatus::Active ==> msg@ == "Game window active, automation running..."@,
            *self == GameStatus::Inactive ==> msg@ == "Game window is not in the foreground"@,
            *self == GameStatus::NotFound ==> msg@
                == "Game window not found, waiting for the game to start..."@,
            *self == GameStatus::Uninitialized ==> msg@ == "Unknown error"@,
    {
        match self {
            GameStatus::Active => "Game window active, automation running...".to_owned(),
            GameStatus::Inactive => "Game window is not in the foreground".to_owned(),
            GameStatus::NotFound => "Game window not found, waiting for the game to start...".to_owned(),
            GameStatus::Uninitialized => "Unknown error".to_owned(),
        }
    }
}

/// The status a polling cycle observes: the window exists and is in
/// the foreground, exists in the background, or does not exist.
pub fn game_status_of(window: &Option<Window>) -> (r: GameStatus)
    ensures
        window matches Some(w) && w.is_active ==> r == GameStatus::Active,
        window matches Some(w) && !w.is_active ==> r == GameStatus::Inactive,
        window is None ==> r == GameStatus::NotFound,
{
    match window {
        Some(w) => {
            if w.is_active() {
                GameStatus::Active
            } else {
                GameStatus::Inactive
            }
        },
        None => GameStatus::NotFound,
    }
}

/// The scale range swept when the window is narrower than the
/// reference width, in thousandths: the window-to-reference ratio,
/// rounded to the nearest tenth, widened by one tenth on each side.
/// At or above the reference width the template already matches at
/// native scale and no sweep is requested.
pub fn plan_scale_range(window_width: u32) -> (r: Option<(u32, u32)>)
    ensures
        window_width >= REFERENCE_WIDTH ==> r is None,
        window_width < REFERENCE_WIDTH ==> (r matches Some(t) && t.0 == 100 * (
        window_width as int / 192) && t.1 == t.0 + 100),
{
    if window_width >= REFERENCE_WIDTH {
        None
    } else {
        let tenth = window_width / 192;
        Some((100 * tenth, 100 * tenth + 100))
    }
}

} // verus!
