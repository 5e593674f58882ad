//! Decisions of the session store: list and statistics queries, partial
//! updates, soft delete and restore, and where a session's telemetry lives.
//! The database layer runs the statements and hands the rows back here.

use vstd::prelude::*;
use crate::storage_error::{StorageError, StorageErrorView};
use crate::text::{decimal, str_eq, u64_to_decimal};
use crate::types::{AiDebrief, DebriefUpdate, DeleteResult, FilterOptions, RestoreResult, Session, SessionUpdate};

verus! {

broadcast use vstd::string::group_string_axioms;

/// Columns and aggregates of the session list query, before its filters.
pub const LIST_SESSIONS_BASE: &'static str = "SELECT id, track_name, car_name, session_type, started_at, ended_at, lap_count, best_lap_time_ms, status, integrity_status, import_source FROM sessions WHERE status != 'deleted'";

/// Aggregates of the session statistics query, before its filters.
pub const SESSION_STATS_BASE: &'static str = "SELECT COUNT(*) as total, MIN(best_lap_time_ms) as best_lap, MAX(started_at) as latest FROM sessions WHERE status != 'deleted'";

/// A deleted session can be restored for this many days.
pub const RESTORE_WINDOW_DAYS: i64 = 30;

/// Nanoseconds in a day.
pub const NS_PER_DAY: i128 = 86_400_000_000_000;

/// Nanoseconds in a second.
pub const NS_PER_SEC: i128 = 1_000_000_000;

/// The test on one filter field, where the filter sets it.
pub open spec fn opt_term(test: Seq<char>, value: Option<String>) -> Seq<(Seq<char>, Seq<char>)> {
    match value {
        Some(v) => seq![(test, v@)],
        None => Seq::empty(),
    }
}

/// The tests that a filter adds, in order: each a column with its
/// comparison, and the value bound to it.
pub open spec fn filter_terms(f: FilterOptions) -> Seq<(Seq<char>, Seq<char>)> {
    opt_term("track_name ="@, f.track) + opt_term("car_name ="@, f.car) + opt_term(
        "session_type ="@,
        f.session_type,
    ) + opt_term("started_at >="@, f.date_start) + opt_term("started_at <="@, f.date_end)
}

/// The SQL text of a list of tests, the k-th bound to parameter `$k`.
pub open spec fn filter_clause(terms: Seq<(Seq<char>, Seq<char>)>) -> Seq<char>
    decreases terms.len(),
{
    if terms.len() == 0 {
        Seq::empty()
    } else {
        filter_clause(terms.drop_last()) + " AND "@ + terms.last().0 + " $"@ + decimal(
            terms.len(),
        )
    }
}

/// The values bound to the tests, in parameter order.
pub open spec fn filter_binds(terms: Seq<(Seq<char>, Seq<char>)>) -> Seq<Seq<char>> {
    terms.map_values(|t: (Seq<char>, Seq<char>)| t.1)
}

/// The SQL text of the filtered, paged session list: the limit and offset
/// take the two parameters after the filter's.
pub open spec fn list_sessions_text(f: FilterOptions) -> Seq<char> {
    let terms = filter_terms(f);
    LIST_SESSIONS_BASE@ + filter_clause(terms) + " ORDER BY started_at DESC LIMIT $"@ + decimal(
        terms.len() + 1,
    ) + " OFFSET $"@ + decimal(terms.len() + 2)
}

/// The SQL text of the statistics over the filtered sessions.
pub open spec fn session_stats_text(f: FilterOptions) -> Seq<char> {
    SESSION_STATS_BASE@ + filter_clause(filter_terms(f))
}

/// The character sequences of a list of strings.
pub open spec fn string_views(v: Seq<String>) -> Seq<Seq<char>> {
    v.map_values(|s: String| s@)
}

/// Appends the test on one filter field, bound to the next parameter, with
/// its value; nothing where the field is not set.
fn add_filter_term(
    sql: &mut String,
    binds: &mut Vec<String>,
    Ghost(terms): Ghost<Seq<(Seq<char>, Seq<char>)>>,
    test: &str,
    value: &Option<String>,
)
    requires
        old(sql)@ == filter_clause(terms),
        old(binds)@.len() == terms.len(),
        terms.len() < 5,
        string_views(old(binds)@) == filter_binds(terms),
    ensures
        final(sql)@ == filter_clause(terms + opt_term(test@, *value)),
        string_views(final(binds)@) == filter_binds(terms + opt_term(test@, *value)),
        final(binds)@.len() == (terms + opt_term(test@, *value)).len(),
{
    match value {
        None => {
            assert(terms + opt_term(test@, *value) =~= terms);
        },
        Some(v) => {
            let ghost next = terms.push((test@, v@));
            assert(terms + opt_term(test@, *value) =~= next);
            assert(next.drop_last() =~= terms);
            let n = u64_to_decimal(binds.len() as u64 + 1);
            sql.append(" AND ");
            sql.append(test);
            sql.append(" $");
            sql.append(n.as_str());
            binds.push(v.clone());
            proof {
                assert(binds@ =~= old(binds)@.push(*v));
                assert forall|i: int| 0 <= i < next.len() implies string_views(binds@)[i]
                    == filter_binds(next)[i] by {
                    if i < terms.len() {
                        assert(string_views(old(binds)@)[i] == filter_binds(terms)[i]);
                    }
                }
                assert(string_views(binds@) =~= filter_binds(next));
            }
        },
    }
}

/// Builds the filter's tests and their bound values.
fn build_filter(f: &FilterOptions) -> (r: (String, Vec<String>))
    ensures
        r.0@ == filter_clause(filter_terms(*f)),
        string_views(r.1@) == filter_binds(filter_terms(*f)),
        r.1@.len() == filter_terms(*f).len(),
{
    let mut sql = String::new();
    let mut binds: Vec<String> = Vec::new();
    let ghost t0: Seq<(Seq<char>, Seq<char>)> = Seq::empty();
    proof {
        assert(string_views(binds@) =~= filter_binds(t0));
    }
    add_filter_term(&mut sql, &mut binds, Ghost(t0), "track_name =", &f.track);
    let ghost t1 = t0 + opt_term("track_name ="@, f.track);
    add_filter_term(&mut sql, &mut binds, Ghost(t1), "car_name =", &f.car);
    let ghost t2 = t1 + opt_term("car_name ="@, f.car);
    add_filter_term(&mut sql, &mut binds, Ghost(t2), "session_type =", &f.session_type);
    let ghost t3 = t2 + opt_term("session_type ="@, f.session_type);
    add_filter_term(&mut sql, &mut binds, Ghost(t3), "started_at >=", &f.date_start);
    let ghost t4 = t3 + opt_term("started_at >="@, f.date_start);
    add_filter_term(&mut sql, &mut binds, Ghost(t4), "started_at <=", &f.date_end);
    let ghost t5 = t4 + opt_term("started_at <="@, f.date_end);
    assert(t5 =~= filter_terms(*f));
    (sql, binds)
}

/// The SQL text of the filtered, paged session list and the values of its
/// filter parameters; the caller binds the limit and offset after them.
pub fn list_sessions_query(filters: &FilterOptions) -> (r: (String, Vec<String>))
    ensures
        r.0@ == list_sessions_text(*filters),
        string_views(r.1@) == filter_binds(filter_terms(*filters)),
{
    let (clause, binds) = build_filter(filters);
    let mut sql = LIST_SESSIONS_BASE.to_owned();
    sql.append(clause.as_str());
    sql.append(" ORDER BY started_at DESC LIMIT $");
    let n = binds.len() as u64;
    let limit_idx = u64_to_decimal(n + 1);
    sql.append(limit_idx.as_str());
    sql.append(" OFFSET $");
    let offset_idx = u64_to_decimal(n + 2);
    sql.append(offset_idx.as_str());
    (sql, binds)
}

/// The SQL text of the statistics over the filtered sessions and the values
/// of its parameters.
pub fn session_stats_query(filters: &FilterOptions) -> (r: (String, Vec<String>))
    ensures
        r.0@ == session_stats_text(*filters),
        string_views(r.1@) == filter_binds(filter_terms(*filters)),
{
    let (clause, binds) = build_filter(filters);
    let mut sql = SESSION_STATS_BASE.to_owned();
    sql.append(clause.as_str());
    (sql, binds)
}

/// A copy of an optional text.
fn copy_text(o: &Option<String>) -> (r: Option<String>)
    ensures
        r == *o,
{
    match o {
        Some(s) => Some(s.clone()),
        None => None,
    }
}

/// The values that a session update writes: each given field, or the
/// stored one where the update leaves it out.
#[derive(Debug, Clone)]
pub struct SessionChanges {
    pub status: String,
    pub ended_at: Option<String>,
    pub lap_count: i32,
    pub best_lap_time_ms: Option<i64>,
}

/// Merges a partial update into the stored session. A session that does
/// not exist is reported as not found, by its id.
pub fn merge_session_update(existing: Option<&Session>, id: &str, update: SessionUpdate) -> (r:
    Result<SessionChanges, StorageError>)
    ensures
        match existing {
            None => r matches Err(e) && e@ == StorageErrorView::NotFound(id@),
            Some(s) => r matches Ok(c) && {
                &&& c.status == (match update.status {
                    Some(v) => v,
                    None => s.status,
                })
                &&& c.ended_at == (match update.ended_at {
                    Some(v) => Some(v),
                    None => s.ended_at,
                })
                &&& c.lap_count == (match update.lap_count {
                    Some(v) => v,
                    None => s.lap_count,
                })
                &&& c.best_lap_time_ms == (match update.best_lap_time_ms {
                    Some(v) => Some(v),
                    None => s.best_lap_time_ms,
                })
            },
        },
{
    match existing {
        None => Err(StorageError::NotFound(id.to_owned())),
        Some(s) => {
            let status = match update.status {
                Some(v) => v,
                None => s.status.clone(),
            };
            let ended_at = match update.ended_at {
                Some(v) => Some(v),
                None => copy_text(&s.ended_at),
            };
            let lap_count = match update.lap_count {
                Some(v) => v,
                None => s.lap_count,
            };
            let best_lap_time_ms = match update.best_lap_time_ms {
                Some(v) => Some(v),
                None => s.best_lap_time_ms,
            };
            Ok(SessionChanges { status, ended_at, lap_count, best_lap_time_ms })
        },
    }
}

/// The texts that a debrief update writes: each given text, or the stored
/// one where the update leaves it out.
#[derive(Debug, Clone)]
pub struct DebriefChanges {
    pub coaching_text: Option<String>,
    pub insights_json: Option<String>,
    pub recommendations_json: Option<String>,
}

/// The given text, or the stored one.
pub open spec fn or_stored(given: Option<String>, stored: Option<String>) -> Option<String> {
    match given {
        Some(v) => Some(v),
        None => stored,
    }
}

/// Merges a partial update into a stored debrief. A debrief that does not
/// exist is reported as not found, by its id.
pub fn merge_debrief_update(existing: Option<&AiDebrief>, id: &str, update: DebriefUpdate) -> (r:
    Result<DebriefChanges, StorageError>)
    ensures
        match existing {
            None => r matches Err(e) && e@ == StorageErrorView::NotFound(id@),
            Some(d) => r matches Ok(c) && {
                &&& c.coaching_text == or_stored(update.coaching_text, d.coaching_text)
                &&& c.insights_json == or_stored(update.insights_json, d.insights_json)
                &&& c.recommendations_json == or_stored(
                    update.recommendations_json,
                    d.recommendations_json,
                )
            },
        },
{
    match existing {
        None => Err(StorageError::NotFound(id.to_owned())),
        Some(d) => {
            let coaching_text = match update.coaching_text {
                Some(v) => Some(v),
                None => copy_text(&d.coaching_text),
            };
            let insights_json = match update.insights_json {
                Some(v) => Some(v),
                None => copy_text(&d.insights_json),
            };
            let recommendations_json = match update.recommendations_json {
                Some(v) => Some(v),
                None => copy_text(&d.recommendations_json),
            };
            Ok(DebriefChanges { coaching_text, insights_json, recommendations_json })
        },
    }
}

/// The session has been soft-deleted.
pub open spec fn is_deleted(s: Session) -> bool {
    s.status@ == "deleted"@
}

/// Decides a soft delete at the given time: a missing session is not found,
/// one already deleted is refused, any other is deleted at `now`.
pub fn soft_delete_outcome(session: Option<&Session>, id: &str, now: &str) -> (r: Result<
    DeleteResult,
    StorageError,
>)
    ensures
        match session {
            None => r matches Err(e) && e@ == StorageErrorView::NotFound(id@),
            Some(s) => if is_deleted(*s) {
                r matches Err(e) && e@ == StorageErrorView::AlreadyDeleted(id@)
            } else {
                r matches Ok(d) && d.session_id@ == id@ && d.deleted_at@ == now@
            },
        },
{
    match session {
        None => Err(StorageError::NotFound(id.to_owned())),
        Some(s) => {
            if str_eq(s.status.as_str(), "deleted") {
                Err(StorageError::AlreadyDeleted(id.to_owned()))
            } else {
                Ok(DeleteResult { session_id: id.to_owned(), deleted_at: now.to_owned() })
            }
        },
    }
}

/// The record `t` is the soft-deleted form of the record `s`: marked
/// deleted at some time, remembering the status it had.
pub open spec fn soft_deleted_from(t: Session, s: Session) -> bool {
    &&& is_deleted(t)
    &&& t.previous_status == Some(s.status)
    &&& t.deleted_at is Some
    &&& t.id == s.id
}

/// The record after a soft delete at `now`: marked deleted, with the time
/// of deletion and the status it had before.
pub fn apply_soft_delete(s: &Session, now: &str) -> (t: Session)
    ensures
        soft_deleted_from(t, *s),
        t.deleted_at matches Some(d) && d@ == now@,
        t.track_name == s.track_name,
        t.car_name == s.car_name,
        t.started_at == s.started_at,
        t.lap_count == s.lap_count,
        t.best_lap_time_ms == s.best_lap_time_ms,
        t.updated_at@ == now@,
{
    Session {
        id: s.id.clone(),
        track_name: s.track_name.clone(),
        car_name: s.car_name.clone(),
        session_type: s.session_type.clone(),
        started_at: s.started_at.clone(),
        ended_at: copy_text(&s.ended_at),
        lap_count: s.lap_count,
        best_lap_time_ms: s.best_lap_time_ms,
        status: "deleted".to_owned(),
        telemetry_checksum: copy_text(&s.telemetry_checksum),
        telemetry_path: copy_text(&s.telemetry_path),
        created_at: s.created_at.clone(),
        updated_at: now.to_owned(),
        deleted_at: Some(now.to_owned()),
        previous_status: Some(s.status.clone()),
        integrity_status: copy_text(&s.integrity_status),
        integrity_details: copy_text(&s.integrity_details),
        integrity_validated_at: copy_text(&s.integrity_validated_at),
        import_source: copy_text(&s.import_source),
        import_format: copy_text(&s.import_format),
    }
}

/// Restoring undoes a soft delete: within the restore window, a record that
/// was soft-deleted from a session that was not deleted comes back with the
/// status it had.
pub proof fn lemma_restore_undoes_soft_delete(
    s: Session,
    t: Session,
    id: Seq<char>,
    deleted: (i64, u32),
    now: (i64, u32),
)
    requires
        !is_deleted(s),
        soft_deleted_from(t, s),
        whole_days(instant_ns(now) - instant_ns(deleted)) <= RESTORE_WINDOW_DAYS,
    ensures
        restore_spec(Some(t), id, Some(deleted), now) == Ok::<Seq<char>, StorageErrorView>(
            s.status@,
        ),
{
}

/// Calls `chrono::Utc::now` and formats it as `%Y-%m-%dT%H:%M:%S%.3fZ`, the
/// layout of the store's time stamps. Nothing is stated of the result: it is
/// the clock's reading.
#[verifier::external_body]
pub(crate) fn now_timestamp_text() -> (r: String) {
    chrono::Utc::now().format("%Y-%m-%dT%H:%M:%S%.3fZ").to_string()
}

/// Decides a soft delete now. The time stamp is whatever the clock gives.
pub fn plan_soft_delete(session: Option<&Session>, id: &str) -> (r: Result<
    DeleteResult,
    StorageError,
>)
    ensures
        match session {
            None => r matches Err(e) && e@ == StorageErrorView::NotFound(id@),
            Some(s) => if is_deleted(*s) {
                r matches Err(e) && e@ == StorageErrorView::AlreadyDeleted(id@)
            } else {
                r matches Ok(d) && d.session_id@ == id@
            },
        },
{
    let now = now_timestamp_text();
    soft_delete_outcome(session, id, now.as_str())
}

/// An instant given as seconds since the epoch and nanoseconds within the
/// second, in nanoseconds since the epoch.
pub open spec fn instant_ns(t: (i64, u32)) -> int {
    t.0 * NS_PER_SEC + t.1
}

/// Converts an instant to nanoseconds since the epoch.
fn instant_to_ns(t: (i64, u32)) -> (r: i128)
    ensures
        r == instant_ns(t),
        -0x1_0000_0000_0000_0000_0000_0000 < r < 0x1_0000_0000_0000_0000_0000_0000,
{
    assert(-0x8000_0000_0000_0000 * 1_000_000_000 <= t.0 * NS_PER_SEC <= 0x7fff_ffff_ffff_ffff
        * 1_000_000_000) by (nonlinear_arith)
        requires
            -0x8000_0000_0000_0000 <= t.0 <= 0x7fff_ffff_ffff_ffff,
            NS_PER_SEC == 1_000_000_000,
    ;
    (t.0 as i128) * NS_PER_SEC + (t.1 as i128)
}

/// Whole days in a span of nanoseconds, rounded toward zero.
pub open spec fn whole_days(span_ns: int) -> int {
    if span_ns >= 0 {
        span_ns / (NS_PER_DAY as int)
    } else {
        -((-span_ns) / (NS_PER_DAY as int))
    }
}

/// The status a restored session returns to.
pub open spec fn restored_status(previous: Option<String>) -> Seq<char> {
    match previous {
        Some(p) => p@,
        None => "completed"@,
    }
}

/// What a restore gives: the restored status, or the error. `deleted` is
/// the deletion time read from the record's `deleted_at`, if it could be
/// read, and `now` the current time, both as seconds since the epoch and
/// nanoseconds within the second.
pub open spec fn restore_spec(session: Option<Session>, id: Seq<char>, deleted: Option<(i64, u32)>, now: (i64, u32)) -> Result<Seq<char>, StorageErrorView> {
    match session {
        None => Err(StorageErrorView::NotFound(id)),
        Some(s) => if !is_deleted(s) {
            Err(StorageErrorView::NotDeleted(id))
        } else {
            match s.deleted_at {
                None => Err(
                    StorageErrorView::InvalidInput(
                        "Session "@ + id + " is marked deleted but has no deleted_at timestamp"@,
                    ),
                ),
                Some(d) => match deleted {
                    None => Err(StorageErrorView::InvalidInput("Invalid deleted_at timestamp: "@ + d@)),
                    Some(t) => if whole_days(instant_ns(now) - instant_ns(t)) > RESTORE_WINDOW_DAYS {
                        Err(StorageErrorView::RestoreExpired(id))
                    } else {
                        Ok(restored_status(s.previous_status))
                    },
                },
            }
        },
    }
}

/// The restore's result is the one described.
pub open spec fn restore_result_is(
    r: Result<RestoreResult, StorageError>,
    id: Seq<char>,
    expected: Result<Seq<char>, StorageErrorView>,
) -> bool {
    match (r, expected) {
        (Ok(res), Ok(status)) => res.session_id@ == id && res.restored_status@ == status,
        (Err(e), Err(ev)) => e@ == ev,
        _ => false,
    }
}

/// Decides a restore, given the deletion time read from the record and the
/// current time, both as seconds since the epoch and nanoseconds within the
/// second.
pub fn restore_outcome(session: Option<&Session>, id: &str, deleted: Option<(i64, u32)>, now: (i64, u32)) -> (r:
    Result<RestoreResult, StorageError>)
    ensures
        restore_result_is(
            r,
            id@,
            restore_spec(session_of(session), id@, deleted, now),
        ),
{
    match session {
        None => Err(StorageError::NotFound(id.to_owned())),
        Some(s) => {
            if !str_eq(s.status.as_str(), "deleted") {
                return Err(StorageError::NotDeleted(id.to_owned()));
            }
            match &s.deleted_at {
                None => {
                    let mut m = "Session ".to_owned();
                    m.append(id);
                    m.append(" is marked deleted but has no deleted_at timestamp");
                    Err(StorageError::InvalidInput(m))
                },
                Some(d) => match deleted {
                    None => {
                        let mut m = "Invalid deleted_at timestamp: ".to_owned();
                        m.append(d.as_str());
                        Err(StorageError::InvalidInput(m))
                    },
                    Some(deleted) => {
                        let span: i128 = instant_to_ns(now) - instant_to_ns(deleted);
                        let days: i128 = if span >= 0 {
                            span / NS_PER_DAY
                        } else {
                            -((-span) / NS_PER_DAY)
                        };
                        if days > RESTORE_WINDOW_DAYS as i128 {
                            Err(StorageError::RestoreExpired(id.to_owned()))
                        } else {
                            let status = match &s.previous_status {
                                Some(p) => p.clone(),
                                None => "completed".to_owned(),
                            };
                            Ok(RestoreResult { session_id: id.to_owned(), restored_status: status })
                        }
                    },
                },
            }
        },
    }
}

/// The instant an RFC 3339 time stamp names: seconds since the epoch and
/// nanoseconds within the second.
pub uninterp spec fn rfc3339_instant(text: Seq<char>) -> Option<(i64, u32)>;

/// The instant a time stamp in the store's own layout
/// (`%Y-%m-%dT%H:%M:%S%.3fZ`, read as UTC) names: seconds since the epoch
/// and nanoseconds within the second.
pub uninterp spec fn store_layout_instant(text: Seq<char>) -> Option<(i64, u32)>;

/// Calls `chrono::DateTime::parse_from_rfc3339` and takes the result's
/// `timestamp` and `timestamp_subsec_nanos`; `None` where the text does not
/// parse. The result is named `rfc3339_instant`.
#[verifier::external_body]
fn parse_rfc3339_instant(text: &str) -> (r: Option<(i64, u32)>)
    ensures
        r == rfc3339_instant(text@),
{
    match chrono::DateTime::parse_from_rfc3339(text) {
        Ok(t) => Some((t.timestamp(), t.timestamp_subsec_nanos())),
        Err(_) => None,
    }
}

/// Calls `chrono::NaiveDateTime::parse_from_str` with the store's layout and
/// takes the UTC `timestamp` and `timestamp_subsec_nanos`; `None` where the
/// text does not parse. The result is named `store_layout_instant`.
#[verifier::external_body]
fn parse_store_layout_instant(text: &str) -> (r: Option<(i64, u32)>)
    ensures
        r == store_layout_instant(text@),
{
    match chrono::NaiveDateTime::parse_from_str(text, "%Y-%m-%dT%H:%M:%S%.3fZ") {
        Ok(t) => Some((t.and_utc().timestamp(), t.and_utc().timestamp_subsec_nanos())),
        Err(_) => None,
    }
}

/// Calls `chrono::Utc::now` and takes its `timestamp` and
/// `timestamp_subsec_nanos`. Nothing is stated of the result: it is the
/// clock's reading.
#[verifier::external_body]
fn now_instant() -> (r: (i64, u32)) {
    let t = chrono::Utc::now();
    (t.timestamp(), t.timestamp_subsec_nanos())
}

/// The deletion time read from a record's `deleted_at`: as RFC 3339 first,
/// then in the store's own layout.
pub open spec fn deleted_at_instant(text: Seq<char>) -> Option<(i64, u32)> {
    match rfc3339_instant(text) {
        Some(t) => Some(t),
        None => store_layout_instant(text),
    }
}

/// Reads a record's deletion time as `deleted_at_instant` describes.
fn read_deleted_at(text: &str) -> (r: Option<(i64, u32)>)
    ensures
        r == deleted_at_instant(text@),
{
    match parse_rfc3339_instant(text) {
        Some(t) => Some(t),
        None => parse_store_layout_instant(text),
    }
}

/// The session looked up, as a value.
pub open spec fn session_of(session: Option<&Session>) -> Option<Session> {
    match session {
        Some(s) => Some(*s),
        None => None,
    }
}

/// The deletion time read from the looked-up session's record, if it has one.
pub open spec fn recorded_deleted_at(session: Option<&Session>) -> Option<(i64, u32)> {
    match session {
        Some(s) => match s.deleted_at {
            Some(d) => deleted_at_instant(d@),
            None => None,
        },
        None => None,
    }
}

/// Decides a restore now: the deletion time is read from the record and the
/// window is measured against the clock's current reading.
pub fn plan_restore(session: Option<&Session>, id: &str) -> (r: Result<RestoreResult, StorageError>)
    ensures
        exists|now: (i64, u32)|
            restore_result_is(
                r,
                id@,
                #[trigger] restore_spec(session_of(session), id@, recorded_deleted_at(session), now),
            ),
{
    let deleted = match session {
        Some(s) => match &s.deleted_at {
            Some(d) => read_deleted_at(d.as_str()),
            None => None,
        },
        None => None,
    };
    let now = now_instant();
    restore_outcome(session, id, deleted, now)
}

/// The session has telemetry: a path that is not empty.
pub open spec fn has_telemetry_spec(s: Session) -> bool {
    s.telemetry_path matches Some(p) && p@.len() > 0
}

/// Whether the session has a telemetry file recorded.
pub fn has_telemetry(session: &Session) -> (r: bool)
    ensures
        r == has_telemetry_spec(*session),
{
    match &session.telemetry_path {
        Some(p) => !p.as_str().is_empty(),
        None => false,
    }
}

/// Where a session's telemetry is and the checksum recorded for it. A
/// missing session, or one without telemetry, is not found.
pub fn telemetry_source(session: Option<&Session>, id: &str) -> (r: Result<(String, Option<String>), StorageError>)
    ensures
        match session {
            None => r matches Err(e) && e@ == StorageErrorView::NotFound(id@),
            Some(s) => match s.telemetry_path {
                None => r matches Err(e) && e@ == StorageErrorView::NotFound(
                    "No telemetry for session "@ + id@,
                ),
                Some(p) => r matches Ok(src) && src.0 == p && src.1 == s.telemetry_checksum,
            },
        },
{
    match session {
        None => Err(StorageError::NotFound(id.to_owned())),
        Some(s) => match &s.telemetry_path {
            None => {
                let mut m = "No telemetry for session ".to_owned();
                m.append(id);
                Err(StorageError::NotFound(m))
            },
            Some(p) => Ok((p.clone(), copy_text(&s.telemetry_checksum))),
        },
    }
}

/// A session's telemetry path with the checksum to hold it to. Besides the
/// errors of `telemetry_source`, a session without a checksum is not found.
pub fn checksum_source(session: Option<&Session>, id: &str) -> (r: Result<(String, String), StorageError>)
    ensures
        match session {
            None => r matches Err(e) && e@ == StorageErrorView::NotFound(id@),
            Some(s) => match (s.telemetry_path, s.telemetry_checksum) {
                (None, _) => r matches Err(e) && e@ == StorageErrorView::NotFound(
                    "No telemetry for session "@ + id@,
                ),
                (Some(_), None) => r matches Err(e) && e@ == StorageErrorView::NotFound(
                    "No checksum for session "@ + id@,
                ),
                (Some(p), Some(c)) => r matches Ok(src) && src.0 == p && src.1 == c,
            },
        },
{
    match telemetry_source(session, id) {
        Err(e) => Err(e),
        Ok((path, checksum)) => match checksum {
            None => {
                let mut m = "No checksum for session ".to_owned();
                m.append(id);
                Err(StorageError::NotFound(m))
            },
            Some(c) => Ok((path, c)),
        },
    }
}

} // verus!
