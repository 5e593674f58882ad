//! Session import: formats, the steps of one import, lap statistics and
//! batch bookkeeping.

use vstd::prelude::*;
use crate::storage_error::StorageError;
use crate::types::NewLap;

verus! {

/// Metadata extracted from an imported file, used to create a session record.
#[derive(Debug, Clone)]
pub struct ImportedSessionMetadata {
    pub track_name: String,
    pub car_name: String,
    pub session_type: String,
    pub started_at: String,
    pub ended_at: Option<String>,
    pub import_source: String,
    pub import_format: String,
}

/// Result of a single import operation.
#[derive(Debug, Clone)]
pub enum ImportResult {
    Success { session_id: String, lap_count: i32 },
    Duplicate { existing_session_id: String },
    Failed { error: String, file_path: String },
}

/// Aggregate result of a batch import.
#[derive(Debug, Clone)]
pub struct BatchImportResult {
    pub total: usize,
    pub succeeded: usize,
    pub duplicates_skipped: usize,
    pub failed: usize,
    pub results: Vec<ImportResult>,
}

/// Progress event payload emitted during a batch import.
#[derive(Debug, Clone)]
pub struct ImportProgress {
    pub current: usize,
    pub total: usize,
    pub file_name: String,
    pub status: String,
}

/// The file formats that can be imported.
#[derive(Debug, Clone, Copy, PartialEq, Eq, Structural)]
pub enum ImportFormat {
    /// The simulator's binary telemetry file.
    Ibt,
    /// A session exported by this application (Parquet telemetry plus JSON metadata).
    PitwallExport,
}

/// Returns the list of supported import file extensions.
pub fn supported_import_formats() -> (r: Vec<String>)
    ensures
        r@.len() == 2,
        r@[0]@ == ".ibt"@,
        r@[1]@ == ".parquet"@,
{
    let mut v: Vec<String> = Vec::new();
    v.push(".ibt".to_owned());
    v.push(".parquet".to_owned());
    v
}

/// The lowercase form of a text.
pub uninterp spec fn lowercase(s: Seq<char>) -> Seq<char>;

/// Calls `str::to_lowercase`. The result is named `lowercase`.
#[verifier::external_body]
pub(crate) fn to_lowercase(s: &str) -> (r: String)
    ensures
        r@ == lowercase(s@),
{
    s.to_lowercase()
}

/// The import format named by a file extension (compared in lowercase), or
/// the message of the refusal.
pub open spec fn import_format_spec(ext: Seq<char>) -> Result<ImportFormat, Seq<char>> {
    let e = lowercase(ext);
    if e == "ibt"@ {
        Ok(ImportFormat::Ibt)
    } else if e == "parquet"@ {
        Ok(ImportFormat::PitwallExport)
    } else {
        Err("Unsupported file extension: ."@ + e)
    }
}

/// Picks the import format from a file's extension (empty when the file has none).
pub fn import_format_for_extension(ext: &str) -> (r: Result<ImportFormat, StorageError>)
    ensures
        match import_format_spec(ext@) {
            Ok(f) => r == Ok::<ImportFormat, StorageError>(f),
            Err(msg) => r matches Err(StorageError::UnsupportedFormat(m)) && m@ == msg,
        },
{
    let e = to_lowercase(ext);
    if crate::text::str_eq(e.as_str(), "ibt") {
        Ok(ImportFormat::Ibt)
    } else if crate::text::str_eq(e.as_str(), "parquet") {
        Ok(ImportFormat::PitwallExport)
    } else {
        let mut m = "Unsupported file extension: .".to_owned();
        m.append(e.as_str());
        Err(StorageError::UnsupportedFormat(m))
    }
}

/// The best (smallest) lap time among the valid laps, if any lap is valid.
pub open spec fn best_valid_lap_time(laps: Seq<NewLap>) -> Option<i64>
    decreases laps.len(),
{
    if laps.len() == 0 {
        None
    } else {
        let prev = best_valid_lap_time(laps.drop_last());
        let l = laps.last();
        if !l.is_valid {
            prev
        } else {
            match prev {
                Some(b) => if l.lap_time_ms < b {
                    Some(l.lap_time_ms)
                } else {
                    Some(b)
                },
                None => Some(l.lap_time_ms),
            }
        }
    }
}

/// Computes the lap count (as the session record stores it) and the best
/// valid lap time of an imported session.
pub fn lap_stats(laps: &[NewLap]) -> (r: (i32, Option<i64>))
    ensures
        r.0 == laps@.len() as i32,
        r.1 == best_valid_lap_time(laps@),
{
    let mut best: Option<i64> = None;
    let mut i: usize = 0;
    while i < laps.len()
        invariant
            0 <= i <= laps@.len(),
            best == best_valid_lap_time(laps@.take(i as int)),
        decreases laps.len() - i,
    {
        proof {
            assert(laps@.take(i + 1).drop_last() =~= laps@.take(i as int));
        }
        let l = &laps[i];
        if l.is_valid {
            best = match best {
                Some(b) => if l.lap_time_ms < b {
                    Some(l.lap_time_ms)
                } else {
                    Some(b)
                },
                None => Some(l.lap_time_ms),
            };
        }
        i = i + 1;
    }
    proof {
        assert(laps@.take(laps@.len() as int) =~= laps@);
    }
    (laps.len() as i32, best)
}

/// The progress status that reports an import outcome.
pub open spec fn outcome_status(result: ImportResult) -> Seq<char> {
    match result {
        ImportResult::Success { .. } => "success"@,
        ImportResult::Duplicate { .. } => "duplicate_skipped"@,
        ImportResult::Failed { .. } => "failed"@,
    }
}

/// The tallies of a batch account for every result recorded.
pub open spec fn tallies_consistent(b: BatchImportResult) -> bool {
    b.succeeded + b.duplicates_skipped + b.failed == b.results@.len()
}

impl BatchImportResult {
    /// An empty tally for a batch of `total` files.
    pub fn new(total: usize) -> (r: BatchImportResult)
        ensures
            r.total == total,
            r.succeeded == 0,
            r.duplicates_skipped == 0,
            r.failed == 0,
            r.results@.len() == 0,
    {
        BatchImportResult {
            total,
            succeeded: 0,
            duplicates_skipped: 0,
            failed: 0,
            results: Vec::new(),
        }
    }

    /// Records the outcome of one file: counts it as succeeded, skipped as a
    /// duplicate, or failed, appends it to the results, and returns the
    /// progress status that reports it.
    pub fn record(&mut self, result: ImportResult) -> (status: &'static str)
        requires
            old(self).results@.len() < usize::MAX,
            tallies_consistent(*old(self)),
        ensures
            status@ == outcome_status(result),
            final(self).total == old(self).total,
            final(self).results@ == old(self).results@.push(result),
            tallies_consistent(*final(self)),
            final(self).succeeded == old(self).succeeded + if result is Success {
                1int
            } else {
                0int
            },
            final(self).duplicates_skipped == old(self).duplicates_skipped + if result is Duplicate {
                1int
            } else {
                0int
            },
            final(self).failed == old(self).failed + if result is Failed {
                1int
            } else {
                0int
            },
    {
        let status = match &result {
            ImportResult::Success { .. } => {
                self.succeeded = self.succeeded + 1;
                "success"
            },
            ImportResult::Duplicate { .. } => {
                self.duplicates_skipped = self.duplicates_skipped + 1;
                "duplicate_skipped"
            },
            ImportResult::Failed { .. } => {
                self.failed = self.failed + 1;
                "failed"
            },
        };
        self.results.push(result);
        status
    }
}

/// Where an import of one parsed file stands.
#[derive(Debug, Clone, Copy, PartialEq, Eq, Structural)]
pub enum ImportState {
    /// Parsed; a forced import skips the duplicate check.
    Start { force_duplicate: bool },
    /// Waiting for the duplicate check.
    AwaitDuplicateCheck,
    /// Waiting for the session record to be stored.
    AwaitSessionInsert,
    /// Waiting for the telemetry file to be written.
    AwaitTelemetry,
    /// Waiting for the laps and the final update to be stored.
    AwaitLaps,
    /// The import has ended.
    Finished,
}

/// What happened since the last step of an import.
#[derive(Debug, Clone)]
pub enum ImportEvent {
    /// The file was parsed.
    Begin,
    /// The duplicate check found this session, if any.
    DuplicateChecked(Option<String>),
    /// The session record was stored.
    SessionInserted,
    /// The telemetry file was written, or writing it failed.
    TelemetryWritten(bool),
    /// The laps and the final update were stored (a lap that fails is skipped).
    LapsStored,
}

/// What the import does next.
#[derive(Debug, Clone)]
pub enum ImportAction {
    /// Look for a session of the same track and car that started within the tolerance.
    CheckDuplicate,
    /// Stop: the file duplicates the given session.
    ReportDuplicate(String),
    /// Store the session record.
    InsertSession,
    /// Write the telemetry file.
    WriteTelemetry,
    /// Delete the stored session and fail with the write's error.
    RollBack,
    /// Store the laps and mark the session completed.
    StoreLapsAndComplete,
    /// Stop: the session was imported.
    ReportSuccess,
    /// The event does not belong to this step; nothing to do.
    Ignore,
}

/// One step of an import: a duplicate stops it unless the import is
/// forced; a failed telemetry write rolls the stored session back.
pub open spec fn import_step_spec(state: ImportState, event: ImportEvent) -> (ImportState, ImportAction) {
    match (state, event) {
        (ImportState::Start { force_duplicate }, ImportEvent::Begin) => if force_duplicate {
            (ImportState::AwaitSessionInsert, ImportAction::InsertSession)
        } else {
            (ImportState::AwaitDuplicateCheck, ImportAction::CheckDuplicate)
        },
        (ImportState::AwaitDuplicateCheck, ImportEvent::DuplicateChecked(found)) => match found {
            Some(id) => (ImportState::Finished, ImportAction::ReportDuplicate(id)),
            None => (ImportState::AwaitSessionInsert, ImportAction::InsertSession),
        },
        (ImportState::AwaitSessionInsert, ImportEvent::SessionInserted) => (
            ImportState::AwaitTelemetry,
            ImportAction::WriteTelemetry,
        ),
        (ImportState::AwaitTelemetry, ImportEvent::TelemetryWritten(ok)) => if ok {
            (ImportState::AwaitLaps, ImportAction::StoreLapsAndComplete)
        } else {
            (ImportState::Finished, ImportAction::RollBack)
        },
        (ImportState::AwaitLaps, ImportEvent::LapsStored) => (
            ImportState::Finished,
            ImportAction::ReportSuccess,
        ),
        (s, _) => (s, ImportAction::Ignore),
    }
}

/// Takes one step of an import; see [`import_step_spec`].
pub fn import_step(state: ImportState, event: ImportEvent) -> (r: (ImportState, ImportAction))
    ensures
        r == import_step_spec(state, event),
{
    match (state, event) {
        (ImportState::Start { force_duplicate }, ImportEvent::Begin) => if force_duplicate {
            (ImportState::AwaitSessionInsert, ImportAction::InsertSession)
        } else {
            (ImportState::AwaitDuplicateCheck, ImportAction::CheckDuplicate)
        },
        (ImportState::AwaitDuplicateCheck, ImportEvent::DuplicateChecked(found)) => match found {
            Some(id) => (ImportState::Finished, ImportAction::ReportDuplicate(id)),
            None => (ImportState::AwaitSessionInsert, ImportAction::InsertSession),
        },
        (ImportState::AwaitSessionInsert, ImportEvent::SessionInserted) => (
            ImportState::AwaitTelemetry,
            ImportAction::WriteTelemetry,
        ),
        (ImportState::AwaitTelemetry, ImportEvent::TelemetryWritten(ok)) => if ok {
            (ImportState::AwaitLaps, ImportAction::StoreLapsAndComplete)
        } else {
            (ImportState::Finished, ImportAction::RollBack)
        },
        (ImportState::AwaitLaps, ImportEvent::LapsStored) => (
            ImportState::Finished,
            ImportAction::ReportSuccess,
        ),
        (s, _) => (s, ImportAction::Ignore),
    }
}

} // verus!
