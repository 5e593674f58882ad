//! Session lifecycle state machine:
//! idle -> recording -> processing -> completed, with partial sessions on
//! disconnection, and the gap markers of the current session.

use vstd::prelude::*;
use std::time::SystemTime;
use crate::capture_error::{GapMarker, GapReason, gap_duration};
use crate::types::NewSession;

verus! {

#[verifier::external_type_specification]
#[verifier::external_body]
pub struct ExSystemTime(SystemTime);

/// `Clone::clone` on `std::time::SystemTime`: `SystemTime` is `Copy`, so its
/// clone is the same value.
pub assume_specification[ <SystemTime as Clone>::clone ](t: &SystemTime) -> (r: SystemTime)
    ensures
        r == *t,
;

/// Calls `std::time::SystemTime::now`. Nothing is claimed of the result: it
/// is the current time.
#[verifier::external_body]
fn system_time_now() -> (t: SystemTime) {
    SystemTime::now()
}

/// A lowercase hexadecimal digit.
pub open spec fn is_lower_hex(c: char) -> bool {
    ('0' <= c && c <= '9') || ('a' <= c && c <= 'f')
}

/// The text of a random (version 4) UUID in hyphenated lowercase form:
/// groups of 8, 4, 4, 4 and 12 hex digits joined by hyphens, with the
/// version digit `4` and a variant digit of `8`, `9`, `a` or `b`.
pub open spec fn is_uuid_v4_text(s: Seq<char>) -> bool {
    &&& s.len() == 36
    &&& forall|i: int|
        0 <= i < 36 ==> if i == 8 || i == 13 || i == 18 || i == 23 {
            s[i] == '-'
        } else {
            is_lower_hex(#[trigger] s[i])
        }
    &&& s[14] == '4'
    &&& (s[19] == '8' || s[19] == '9' || s[19] == 'a' || s[19] == 'b')
}

/// Calls `uuid::Uuid::new_v4` and formats the identifier with its `Display`
/// impl. The identifier is random; the contract claims its form: `new_v4`
/// sets the version and variant bits, and `Display` writes the hyphenated
/// lowercase form.
#[verifier::external_body]
fn new_session_id() -> (id: String)
    ensures
        is_uuid_v4_text(id@),
{
    uuid::Uuid::new_v4().to_string()
}

/// Session state machine states.
#[derive(Debug, Clone, PartialEq)]
pub enum SessionState {
    /// No active session: waiting for a session start.
    Idle,
    /// The session is recording telemetry.
    Recording { session_id: String, started_at: SystemTime },
    /// Recording stopped; final data is being processed.
    Processing { session_id: String },
    /// The session completed with all data persisted.
    Completed { session_id: String },
    /// The session ended prematurely (disconnect or crash).
    Partial { session_id: String, disconnected_at: SystemTime },
}

/// The text that `{:?}` writes for a string: quoted, with escapes.
pub uninterp spec fn str_debug(s: Seq<char>) -> Seq<char>;

/// Calls `format!` with the `Debug` impl of `str`. The result is named `str_debug`.
#[verifier::external_body]
fn str_debug_text(s: &str) -> (r: String)
    ensures
        r@ == str_debug(s@),
{
    format!("{:?}", s)
}

/// Calls `format!` with the `Debug` impl of `std::time::SystemTime`.
/// Nothing is claimed of the text: it depends on the platform's clock layout.
#[verifier::external_body]
fn system_time_debug_text(t: &SystemTime) -> (r: String) {
    format!("{:?}", t)
}

/// The debug text of a state, as `derive(Debug)` writes it: the variant's
/// name, then its fields in braces. The text of a time is left open.
pub open spec fn state_text_matches(state: SessionState, text: Seq<char>) -> bool {
    match state {
        SessionState::Idle => text == "Idle"@,
        SessionState::Recording { session_id, .. } => exists|t: Seq<char>|
            text == "Recording { session_id: "@ + str_debug(session_id@) + ", started_at: "@
                + t + " }"@,
        SessionState::Processing { session_id } => text == "Processing { session_id: "@ + str_debug(
            session_id@,
        ) + " }"@,
        SessionState::Completed { session_id } => text == "Completed { session_id: "@ + str_debug(
            session_id@,
        ) + " }"@,
        SessionState::Partial { session_id, .. } => exists|t: Seq<char>|
            text == "Partial { session_id: "@ + str_debug(session_id@) + ", disconnected_at: "@
                + t + " }"@,
    }
}

/// A refusal message: the prefix, then the debug text of the state.
pub open spec fn refusal_text(prefix: Seq<char>, state: SessionState, text: Seq<char>) -> bool {
    &&& prefix.is_prefix_of(text)
    &&& state_text_matches(state, text.skip(prefix.len() as int))
}

/// Writes the debug text of a state, as `derive(Debug)` does.
fn state_debug_text(state: &SessionState) -> (s: String)
    ensures
        state_text_matches(*state, s@),
{
    match state {
        SessionState::Idle => "Idle".to_owned(),
        SessionState::Recording { session_id, started_at } => {
            let mut s = "Recording { session_id: ".to_owned();
            let id = str_debug_text(session_id.as_str());
            s.append(id.as_str());
            s.append(", started_at: ");
            let t = system_time_debug_text(started_at);
            s.append(t.as_str());
            s.append(" }");
            assert(s@ == "Recording { session_id: "@ + str_debug(session_id@) + ", started_at: "@
                + t@ + " }"@);
            s
        },
        SessionState::Processing { session_id } => {
            let mut s = "Processing { session_id: ".to_owned();
            let id = str_debug_text(session_id.as_str());
            s.append(id.as_str());
            s.append(" }");
            s
        },
        SessionState::Completed { session_id } => {
            let mut s = "Completed { session_id: ".to_owned();
            let id = str_debug_text(session_id.as_str());
            s.append(id.as_str());
            s.append(" }");
            s
        },
        SessionState::Partial { session_id, disconnected_at } => {
            let mut s = "Partial { session_id: ".to_owned();
            let id = str_debug_text(session_id.as_str());
            s.append(id.as_str());
            s.append(", disconnected_at: ");
            let t = system_time_debug_text(disconnected_at);
            s.append(t.as_str());
            s.append(" }");
            assert(s@ == "Partial { session_id: "@ + str_debug(session_id@) + ", disconnected_at: "@
                + t@ + " }"@);
            s
        },
    }
}

/// The abstract state of a session manager.
pub struct SessionManagerView {
    pub state: SessionState,
    pub gap_markers: Seq<GapMarker>,
}

/// Handles the session lifecycle and its state transitions.
#[derive(Debug)]
pub struct SessionManager {
    state: SessionState,
    gap_markers: Vec<GapMarker>,
}

impl View for SessionManager {
    type V = SessionManagerView;

    closed spec fn view(&self) -> SessionManagerView {
        SessionManagerView { state: self.state, gap_markers: self.gap_markers@ }
    }
}

/// Builds the error text for a refused transition: the given prefix followed
/// by the debug text of the current state.
fn refusal(prefix: &str, state: &SessionState) -> (s: String)
    ensures
        refusal_text(prefix@, *state, s@),
{
    let mut s = prefix.to_owned();
    let d = state_debug_text(state);
    s.append(d.as_str());
    assert(prefix@ == s@.subrange(0, prefix@.len() as int));
    assert(s@.skip(prefix@.len() as int) =~= d@);
    s
}

impl SessionManager {
    /// Creates a session manager in the idle state with no gap markers.
    pub fn new() -> (r: SessionManager)
        ensures
            r@.state == SessionState::Idle,
            r@.gap_markers == Seq::<GapMarker>::empty(),
    {
        SessionManager { state: SessionState::Idle, gap_markers: Vec::new() }
    }

    /// Returns the current session state.
    pub fn current_state(&self) -> (r: &SessionState)
        ensures
            *r == self@.state,
    {
        &self.state
    }

    /// Starts a new session with a fresh identifier. Valid only when idle.
    pub fn start_session(&mut self, metadata: NewSession) -> (r: Result<String, String>)
        ensures
            final(self)@.gap_markers == old(self)@.gap_markers,
            old(self)@.state is Idle ==> {
                &&& r matches Ok(id) && is_uuid_v4_text(id@)
                &&& final(self)@.state matches SessionState::Recording { session_id, .. }
                    && r == Ok::<String, String>(session_id)
            },
            !(old(self)@.state is Idle) ==> {
                &&& r matches Err(e) && refusal_text("Cannot start session from state "@, old(self)@.state, e@)
                &&& final(self)@.state == old(self)@.state
            },
    {
        match &self.state {
            SessionState::Idle => {
                let session_id = new_session_id();
                let started_at = system_time_now();
                self.state = SessionState::Recording { session_id: session_id.clone(), started_at };
                Ok(session_id)
            },
            _ => Err(refusal("Cannot start session from state ", &self.state)),
        }
    }

    /// Moves a recording session to processing (session end detected).
    pub fn begin_processing(&mut self) -> (r: Result<String, String>)
        ensures
            final(self)@.gap_markers == old(self)@.gap_markers,
            match old(self)@.state {
                SessionState::Recording { session_id, .. } => {
                    &&& r == Ok::<String, String>(session_id)
                    &&& final(self)@.state == (SessionState::Processing { session_id })
                },
                _ => {
                    &&& r matches Err(e) && refusal_text("Cannot begin processing from state "@, old(self)@.state, e@)
                    &&& final(self)@.state == old(self)@.state
                },
            },
    {
        match &self.state {
            SessionState::Recording { session_id, .. } => {
                let id = session_id.clone();
                self.state = SessionState::Processing { session_id: id.clone() };
                Ok(id)
            },
            _ => Err(refusal("Cannot begin processing from state ", &self.state)),
        }
    }

    /// Marks a processing session as completed.
    pub fn complete_session(&mut self) -> (r: Result<String, String>)
        ensures
            final(self)@.gap_markers == old(self)@.gap_markers,
            match old(self)@.state {
                SessionState::Processing { session_id } => {
                    &&& r == Ok::<String, String>(session_id)
                    &&& final(self)@.state == (SessionState::Completed { session_id })
                },
                _ => {
                    &&& r matches Err(e) && refusal_text("Cannot complete session from state "@, old(self)@.state, e@)
                    &&& final(self)@.state == old(self)@.state
                },
            },
    {
        match &self.state {
            SessionState::Processing { session_id } => {
                let id = session_id.clone();
                self.state = SessionState::Completed { session_id: id.clone() };
                Ok(id)
            },
            _ => Err(refusal("Cannot complete session from state ", &self.state)),
        }
    }

    /// Marks a recording or processing session as partial (disconnected).
    pub fn mark_partial(&mut self) -> (r: Result<String, String>)
        ensures
            final(self)@.gap_markers == old(self)@.gap_markers,
            match old(self)@.state {
                SessionState::Recording { session_id, .. }
                | SessionState::Processing { session_id } => {
                    &&& r == Ok::<String, String>(session_id)
                    &&& final(self)@.state matches SessionState::Partial { session_id: id, .. }
                        && id == session_id
                },
                _ => {
                    &&& r matches Err(e) && refusal_text("Cannot mark partial from state "@, old(self)@.state, e@)
                    &&& final(self)@.state == old(self)@.state
                },
            },
    {
        let id = match &self.state {
            SessionState::Recording { session_id, .. } => Some(session_id.clone()),
            SessionState::Processing { session_id } => Some(session_id.clone()),
            _ => None,
        };
        match id {
            Some(id) => {
                let disconnected_at = system_time_now();
                self.state = SessionState::Partial { session_id: id.clone(), disconnected_at };
                Ok(id)
            },
            None => Err(refusal("Cannot mark partial from state ", &self.state)),
        }
    }

    /// Resets a completed or partial session to idle, clearing its gap markers.
    pub fn reset(&mut self) -> (r: Result<(), String>)
        ensures
            (old(self)@.state is Completed || old(self)@.state is Partial) ==> {
                &&& r is Ok
                &&& final(self)@.state == SessionState::Idle
                &&& final(self)@.gap_markers == Seq::<GapMarker>::empty()
            },
            !(old(self)@.state is Completed || old(self)@.state is Partial) ==> {
                &&& r matches Err(e) && refusal_text("Cannot reset from state "@, old(self)@.state, e@)
                &&& final(self)@ == old(self)@
            },
    {
        match &self.state {
            SessionState::Completed { .. } | SessionState::Partial { .. } => {
                self.state = SessionState::Idle;
                self.gap_markers.clear();
                Ok(())
            },
            _ => Err(refusal("Cannot reset from state ", &self.state)),
        }
    }

    /// Adds a gap marker (a telemetry stream interruption) to the current session.
    pub fn add_gap_marker(&mut self, start_time_ms: i64, end_time_ms: i64, reason: GapReason)
        requires
            i64::MIN <= end_time_ms - start_time_ms <= i64::MAX,
        ensures
            final(self)@.state == old(self)@.state,
            final(self)@.gap_markers == old(self)@.gap_markers.push(
                GapMarker {
                    start_time: start_time_ms,
                    end_time: end_time_ms,
                    duration_ms: gap_duration(start_time_ms as int, end_time_ms as int) as u64,
                    reason,
                    lap_position: None,
                },
            ),
    {
        let marker = GapMarker::new(start_time_ms, end_time_ms, reason, None);
        self.gap_markers.push(marker);
    }

    /// Returns all gap markers of the current session, oldest first.
    pub fn gap_markers(&self) -> (r: &[GapMarker])
        ensures
            r@ == self@.gap_markers,
    {
        self.gap_markers.as_slice()
    }
}

impl Default for SessionManager {
    fn default() -> (r: SessionManager)
        ensures
            r@.state == SessionState::Idle,
            r@.gap_markers == Seq::<GapMarker>::empty(),
    {
        SessionManager::new()
    }
}

} // verus!
