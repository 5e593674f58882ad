//! The session state that each telemetry sample carries.

use vstd::prelude::*;

verus! {

/// Session state of a telemetry sample.
#[derive(Debug, Clone, Copy, PartialEq, Eq, Structural)]
pub enum SessionState {
    /// Actively driving.
    Driving,
    /// In pit lane or pit box.
    Pitting,
    /// Spectating.
    Spectating,
    /// Invalid or unknown state.
    Invalid,
}

/// The sample state for the simulator's `SessionState` variable: 0 is
/// invalid, 4 racing, 5 parade laps (pitting), 6 warm-up (spectating), and
/// every other value counts as driving.
pub open spec fn session_state_for(raw: i32) -> SessionState {
    if raw == 0 {
        SessionState::Invalid
    } else if raw == 4 {
        SessionState::Driving
    } else if raw == 5 {
        SessionState::Pitting
    } else if raw == 6 {
        SessionState::Spectating
    } else {
        SessionState::Driving
    }
}

impl SessionState {
    /// Maps the simulator's `SessionState` variable to a sample state.
    pub fn from_irsdk_state(raw: i32) -> (r: SessionState)
        ensures
            r == session_state_for(raw),
    {
        match raw {
            0 => SessionState::Invalid,
            4 => SessionState::Driving,
            5 => SessionState::Pitting,
            6 => SessionState::Spectating,
            _ => SessionState::Driving,
        }
    }
}

} // verus!
