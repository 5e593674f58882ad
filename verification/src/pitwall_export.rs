//! Sessions exported by this application: the metadata read from the
//! export's JSON file, and the session record and laps built from it.

use vstd::prelude::*;
use crate::import::ImportedSessionMetadata;
use crate::storage_error::{StorageError, StorageErrorView};
use crate::telemetry_files::SCHEMA_VERSION;
use crate::text::str_eq;
use crate::types::NewLap;

verus! {

/// Metadata of an export, as read from its JSON file.
#[derive(Debug, Clone)]
pub struct PitwallExportMetadata {
    pub pitwall_version: Option<String>,
    pub schema_version: String,
    pub session: PitwallSessionMeta,
    pub laps: Vec<PitwallLapMeta>,
}

/// The session part of an export's metadata.
#[derive(Debug, Clone)]
pub struct PitwallSessionMeta {
    pub track_name: String,
    pub car_name: String,
    pub session_type: String,
    pub started_at: String,
    pub ended_at: Option<String>,
    pub lap_count: Option<i32>,
    pub best_lap_time_ms: Option<i64>,
    pub status: Option<String>,
}

/// One lap of an export's metadata.
#[derive(Debug, Clone)]
pub struct PitwallLapMeta {
    pub lap_number: i32,
    pub lap_time_ms: i64,
    pub is_valid: bool,
    pub completion_status: String,
}

/// A lap that the metadata does not mark is valid.
pub fn default_is_valid() -> (r: bool)
    ensures
        r,
{
    true
}

/// A lap that the metadata does not mark is complete.
pub fn default_completion_status() -> (r: String)
    ensures
        r@ == "complete"@,
{
    "complete".to_owned()
}

/// The message for an export written with another layout version.
pub open spec fn newer_version_text() -> Seq<char> {
    "This export was created with a newer version of Pitwall"@
}

/// The lap record for one lap of the metadata; the session id is filled in
/// when the session is stored.
pub open spec fn lap_from_meta(l: PitwallLapMeta) -> (i32, i64, bool, Seq<char>) {
    (l.lap_number, l.lap_time_ms, l.is_valid, l.completion_status@)
}

/// The fields of a lap record, with its session id left aside.
pub open spec fn lap_fields(l: NewLap) -> (i32, i64, bool, Seq<char>) {
    (l.lap_number, l.lap_time_ms, l.is_valid, l.completion_status@)
}

/// Builds the session record and laps of an export from its metadata and
/// the path it was read from. An export of another layout version is
/// refused with a schema mismatch.
pub fn import_from_export(meta: PitwallExportMetadata, import_source: String) -> (r: Result<
    (ImportedSessionMetadata, Vec<NewLap>),
    StorageError,
>)
    ensures
        meta.schema_version@ != SCHEMA_VERSION@ ==> (r matches Err(e) && e@
            == StorageErrorView::SchemaMismatch(newer_version_text())),
        meta.schema_version@ == SCHEMA_VERSION@ ==> (r matches Ok((m, laps)) && {
            &&& m.track_name == meta.session.track_name
            &&& m.car_name == meta.session.car_name
            &&& m.session_type == meta.session.session_type
            &&& m.started_at == meta.session.started_at
            &&& m.ended_at == meta.session.ended_at
            &&& m.import_source == import_source
            &&& m.import_format@ == "pitwall_export"@
            &&& laps@.len() == meta.laps@.len()
            &&& forall|i: int|
                0 <= i < laps@.len() ==> laps@[i].session_id@.len() == 0 && lap_fields(
                    #[trigger] laps@[i],
                ) == lap_from_meta(meta.laps@[i])
        }),
{
    if !str_eq(meta.schema_version.as_str(), SCHEMA_VERSION) {
        return Err(StorageError::SchemaMismatch(
            "This export was created with a newer version of Pitwall".to_owned(),
        ));
    }
    let mut laps: Vec<NewLap> = Vec::new();
    let mut i: usize = 0;
    while i < meta.laps.len()
        invariant
            0 <= i <= meta.laps@.len(),
            laps@.len() == i,
            forall|j: int|
                0 <= j < i ==> laps@[j].session_id@.len() == 0 && lap_fields(#[trigger] laps@[j])
                    == lap_from_meta(meta.laps@[j]),
        decreases meta.laps@.len() - i,
    {
        let l = &meta.laps[i];
        laps.push(
            NewLap {
                session_id: String::new(),
                lap_number: l.lap_number,
                lap_time_ms: l.lap_time_ms,
                is_valid: l.is_valid,
                completion_status: l.completion_status.clone(),
            },
        );
        i = i + 1;
    }
    let session = meta.session;
    let m = ImportedSessionMetadata {
        track_name: session.track_name,
        car_name: session.car_name,
        session_type: session.session_type,
        started_at: session.started_at,
        ended_at: session.ended_at,
        import_source,
        import_format: "pitwall_export".to_owned(),
    };
    Ok((m, laps))
}

} // verus!
