//! Session, lap and debrief records of the session store.

use vstd::prelude::*;

verus! {

/// Full session record from the database.
#[derive(Debug, Clone)]
pub struct Session {
    pub id: String,
    pub track_name: String,
    pub car_name: String,
    pub session_type: String,
    pub started_at: String,
    pub ended_at: Option<String>,
    pub lap_count: i32,
    pub best_lap_time_ms: Option<i64>,
    pub status: String,
    pub telemetry_checksum: Option<String>,
    pub telemetry_path: Option<String>,
    pub created_at: String,
    pub updated_at: String,
    pub deleted_at: Option<String>,
    pub previous_status: Option<String>,
    pub integrity_status: Option<String>,
    pub integrity_details: Option<String>,
    pub integrity_validated_at: Option<String>,
    pub import_source: Option<String>,
    pub import_format: Option<String>,
}

/// Input for creating a new session (excludes generated fields).
#[derive(Debug, Clone)]
pub struct NewSession {
    pub track_name: String,
    pub car_name: String,
    pub session_type: String,
    pub started_at: String,
}

/// Partial update fields for an existing session.
#[derive(Debug, Clone)]
pub struct SessionUpdate {
    pub status: Option<String>,
    pub ended_at: Option<String>,
    pub lap_count: Option<i32>,
    pub best_lap_time_ms: Option<i64>,
}

impl Default for SessionUpdate {
    /// An update that changes nothing.
    fn default() -> (r: SessionUpdate)
        ensures
            r.status is None,
            r.ended_at is None,
            r.lap_count is None,
            r.best_lap_time_ms is None,
    {
        SessionUpdate { status: None, ended_at: None, lap_count: None, best_lap_time_ms: None }
    }
}

/// Lightweight session summary for list queries.
#[derive(Debug, Clone)]
pub struct SessionSummary {
    pub id: String,
    pub track_name: String,
    pub car_name: String,
    pub session_type: String,
    pub started_at: String,
    pub ended_at: Option<String>,
    pub lap_count: i32,
    pub best_lap_time_ms: Option<i64>,
    pub status: String,
    pub integrity_status: Option<String>,
    pub import_source: Option<String>,
}

/// Composite session detail: session, laps and debrief.
#[derive(Debug, Clone)]
pub struct SessionDetail {
    pub session: Session,
    pub laps: Vec<LapSummary>,
    pub debrief: Option<AiDebrief>,
    pub has_telemetry: bool,
}

/// Full lap summary record from the database.
#[derive(Debug, Clone)]
pub struct LapSummary {
    pub id: String,
    pub session_id: String,
    pub lap_number: i32,
    pub lap_time_ms: i64,
    pub is_valid: bool,
    pub completion_status: String,
    pub created_at: String,
}

/// Input for creating a new lap summary.
#[derive(Debug, Clone)]
pub struct NewLap {
    pub session_id: String,
    pub lap_number: i32,
    pub lap_time_ms: i64,
    pub is_valid: bool,
    pub completion_status: String,
}

/// The content of a new lap.
pub ghost struct NewLapView {
    pub session_id: Seq<char>,
    pub lap_number: i32,
    pub lap_time_ms: i64,
    pub is_valid: bool,
    pub completion_status: Seq<char>,
}

impl View for NewLap {
    type V = NewLapView;

    open spec fn view(&self) -> NewLapView {
        NewLapView {
            session_id: self.session_id@,
            lap_number: self.lap_number,
            lap_time_ms: self.lap_time_ms,
            is_valid: self.is_valid,
            completion_status: self.completion_status@,
        }
    }
}

/// AI debrief record from the database.
#[derive(Debug, Clone)]
pub struct AiDebrief {
    pub id: String,
    pub session_id: String,
    pub coaching_text: Option<String>,
    pub insights_json: Option<String>,
    pub recommendations_json: Option<String>,
    pub provider_name: Option<String>,
    pub model_name: Option<String>,
    pub trigger_type: Option<String>,
    pub data_range_from_ms: Option<i64>,
    pub data_range_to_ms: Option<i64>,
    pub created_at: String,
    pub updated_at: String,
}

/// Input for creating a new AI debrief.
#[derive(Debug, Clone)]
pub struct NewAiDebrief {
    pub session_id: String,
    pub coaching_text: Option<String>,
    pub insights_json: Option<String>,
    pub recommendations_json: Option<String>,
    pub provider_name: Option<String>,
    pub model_name: Option<String>,
    pub trigger_type: Option<String>,
    pub data_range_from_ms: Option<i64>,
    pub data_range_to_ms: Option<i64>,
}

/// Partial update fields for a debrief.
#[derive(Debug, Clone)]
pub struct DebriefUpdate {
    pub coaching_text: Option<String>,
    pub insights_json: Option<String>,
    pub recommendations_json: Option<String>,
}

impl Default for DebriefUpdate {
    /// An update that changes nothing.
    fn default() -> (r: DebriefUpdate)
        ensures
            r.coaching_text is None,
            r.insights_json is None,
            r.recommendations_json is None,
    {
        DebriefUpdate { coaching_text: None, insights_json: None, recommendations_json: None }
    }
}

/// Result of a soft delete operation.
#[derive(Debug, Clone)]
pub struct DeleteResult {
    pub session_id: String,
    pub deleted_at: String,
}

/// Result of a restore operation.
#[derive(Debug, Clone)]
pub struct RestoreResult {
    pub session_id: String,
    pub restored_status: String,
}

/// Options for listing sessions with pagination.
#[derive(Debug, Clone, Copy, PartialEq, Eq, Structural)]
pub struct ListOptions {
    pub limit: i64,
    pub offset: i64,
}

impl Default for ListOptions {
    /// The first page of fifty sessions.
    fn default() -> (r: ListOptions)
        ensures
            r.limit == 50,
            r.offset == 0,
    {
        ListOptions { limit: 50, offset: 0 }
    }
}

/// Filter options for session list queries.
#[derive(Debug, Clone)]
pub struct FilterOptions {
    pub track: Option<String>,
    pub car: Option<String>,
    pub session_type: Option<String>,
    pub date_start: Option<String>,
    pub date_end: Option<String>,
}

impl Default for FilterOptions {
    /// No filter.
    fn default() -> (r: FilterOptions)
        ensures
            r.track is None,
            r.car is None,
            r.session_type is None,
            r.date_start is None,
            r.date_end is None,
    {
        FilterOptions { track: None, car: None, session_type: None, date_start: None, date_end: None }
    }
}

/// Aggregate statistics for the current filter set.
#[derive(Debug, Clone)]
pub struct SessionStats {
    pub total_sessions: i64,
    pub best_lap_time_ms: Option<i64>,
    pub latest_session_date: Option<String>,
}

} // verus!
