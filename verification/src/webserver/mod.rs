//! One connection's lifecycle and the state that all connections share.

pub mod frame;
pub mod laws;
pub mod session;

use vstd::prelude::*;

verus! {

/// Process-wide state, built once at startup and shared by every session.
/// `value` counts the sessions that are live.
#[derive(Clone)]
pub struct AppState {
    pub value: u32,
}

impl AppState {
    /// The state at startup: no session is live.
    pub fn new() -> (state: AppState)
        ensures
            state.value == 0,
    {
        AppState { value: 0 }
    }

    /// Counts a session in when it is accepted. Says whether it was counted:
    /// it is not where the counter stands at its maximum, which then stays.
    pub fn session_opened(&mut self) -> (counted: bool)
        ensures
            counted == (old(self).value < u32::MAX),
            final(self).value == if counted {
                old(self).value + 1
            } else {
                old(self).value as int
            },
    {
        if self.value < u32::MAX {
            self.value = self.value + 1;
            true
        } else {
            false
        }
    }

    /// Counts a session out when it is over. Says whether it was counted:
    /// it is not where no session is live, and the counter then stays at
    /// zero.
    pub fn session_closed(&mut self) -> (counted: bool)
        ensures
            counted == (old(self).value > 0),
            final(self).value == if counted {
                old(self).value - 1
            } else {
                0
            },
    {
        if self.value > 0 {
            self.value = self.value - 1;
            true
        } else {
            false
        }
    }
}

} // verus!
