//! Session metadata from the session info text of a simulator telemetry
//! file: track, car, session type and date, read line by line.

use vstd::prelude::*;
use crate::import::{ImportedSessionMetadata, lowercase, to_lowercase};
use crate::storage_error::StorageError;
use crate::text::str_eq;
use crate::session_type::{SessionType, session_type_of, ascii_lowercase};

verus! {

broadcast use vstd::string::group_string_axioms;

/// The pieces of a text between line feeds: one more than it has line feeds.
pub open spec fn newline_pieces(s: Seq<char>) -> Seq<Seq<char>>
    decreases s.len(),
{
    if s.len() == 0 {
        seq![Seq::empty()]
    } else {
        let prior = newline_pieces(s.drop_last());
        if s.last() == '\n' {
            prior.push(Seq::empty())
        } else {
            prior.update(prior.len() - 1, prior.last().push(s.last()))
        }
    }
}

/// A line that a line feed ended, without the carriage return before it.
pub open spec fn without_cr(line: Seq<char>) -> Seq<char> {
    if line.len() > 0 && line.last() == '\r' {
        line.drop_last()
    } else {
        line
    }
}

/// The lines of a text, as `str::lines` splits it: at each line feed, with
/// a carriage return just before the line feed left out; the line ending of
/// the last line is optional, and an empty text has no lines.
pub open spec fn text_lines(s: Seq<char>) -> Seq<Seq<char>> {
    let pieces = newline_pieces(s);
    let ended = pieces.drop_last().map_values(|l: Seq<char>| without_cr(l));
    if pieces.last().len() == 0 {
        ended
    } else {
        ended.push(pieces.last())
    }
}

/// A character of the Unicode property `White_Space`.
pub open spec fn is_unicode_white_space(c: char) -> bool {
    ||| ('\u{9}' <= c && c <= '\u{d}')
    ||| c == ' '
    ||| c == '\u{85}'
    ||| c == '\u{a0}'
    ||| c == '\u{1680}'
    ||| ('\u{2000}' <= c && c <= '\u{200a}')
    ||| c == '\u{2028}'
    ||| c == '\u{2029}'
    ||| c == '\u{202f}'
    ||| c == '\u{205f}'
    ||| c == '\u{3000}'
}

/// A text without its leading white space.
pub open spec fn trim_start_spec(s: Seq<char>) -> Seq<char>
    decreases s.len(),
{
    if s.len() > 0 && is_unicode_white_space(s[0]) {
        trim_start_spec(s.skip(1))
    } else {
        s
    }
}

/// A text without its trailing white space.
pub open spec fn trim_end_spec(s: Seq<char>) -> Seq<char>
    decreases s.len(),
{
    if s.len() > 0 && is_unicode_white_space(s.last()) {
        trim_end_spec(s.drop_last())
    } else {
        s
    }
}

/// A text without its leading and trailing white space, as `str::trim`
/// gives it (white space as the Unicode property `White_Space` defines it).
pub open spec fn trimmed(s: Seq<char>) -> Seq<char> {
    trim_end_spec(trim_start_spec(s))
}

/// The midnight at the start of a `%Y-%m-%d` date, written as
/// `%Y-%m-%dT%H:%M:%SZ`; `None` where the text is no such date.
pub uninterp spec fn midnight_iso(date: Seq<char>) -> Option<Seq<char>>;

/// Calls `str::lines`: the lines as `text_lines` describes them.
#[verifier::external_body]
fn split_lines(s: &str) -> (r: Vec<&str>)
    ensures
        r@.len() == text_lines(s@).len(),
        forall|i: int| 0 <= i < r@.len() ==> #[trigger] r@[i]@ == text_lines(s@)[i],
{
    s.lines().collect()
}

/// Calls `str::trim`: the text as `trimmed` describes it.
#[verifier::external_body]
fn trim(s: &str) -> (r: &str)
    ensures
        r@ == trimmed(s@),
{
    s.trim()
}

/// Calls `str::strip_prefix`: the rest of the text after the prefix, where
/// the text starts with it.
#[verifier::external_body]
fn strip_prefix<'a>(s: &'a str, prefix: &str) -> (r: Option<&'a str>)
    ensures
        match r {
            Some(rest) => s@ == prefix@ + rest@,
            None => !prefix@.is_prefix_of(s@),
        },
{
    s.strip_prefix(prefix)
}

/// Calls `chrono::NaiveDate::parse_from_str` with `%Y-%m-%d`, takes the
/// midnight that starts the day, and formats it with
/// `%Y-%m-%dT%H:%M:%SZ`. The result is named `midnight_iso`.
#[verifier::external_body]
fn parse_midnight_iso(date: &str) -> (r: Option<String>)
    ensures
        match r {
            Some(t) => midnight_iso(date@) == Some(t@),
            None => midnight_iso(date@) is None,
        },
{
    match chrono::NaiveDate::parse_from_str(date, "%Y-%m-%d") {
        Ok(d) => match d.and_hms_opt(0, 0, 0) {
            Some(t) => Some(t.format("%Y-%m-%dT%H:%M:%SZ").to_string()),
            None => None,
        },
        Err(_) => None,
    }
}

/// Calls `chrono::Utc::now` and formats it as `%Y-%m-%dT%H:%M:%SZ`. Nothing
/// is stated of the result: it is the clock's reading.
#[verifier::external_body]
fn now_iso_seconds() -> (r: String) {
    chrono::Utc::now().format("%Y-%m-%dT%H:%M:%SZ").to_string()
}

/// A line without the list markers (`- `) at its start.
pub open spec fn strip_dashes(s: Seq<char>) -> Seq<char>
    decreases s.len(),
{
    if s.len() >= 2 && s[0] == '-' && s[1] == ' ' {
        strip_dashes(s.subrange(2, s.len() as int))
    } else {
        s
    }
}

/// Removes the list markers (`- `) at the start of a line.
fn strip_list_markers(s: &str) -> (r: &str)
    ensures
        r@ == strip_dashes(s@),
{
    let mut t = s;
    proof {
        reveal_strlit("- ");
    }
    loop
        invariant
            strip_dashes(t@) == strip_dashes(s@),
            "- "@ == seq!['-', ' '],
        decreases t@.len(),
    {
        match strip_prefix(t, "- ") {
            Some(rest) => {
                proof {
                    assert(t@.subrange(2, t@.len() as int) =~= rest@);
                }
                t = rest;
            },
            None => {
                proof {
                    if t@.len() >= 2 && t@[0] == '-' && t@[1] == ' ' {
                        assert("- "@.is_prefix_of(t@));
                    }
                }
                return t;
            },
        }
    }
}

/// The session type for the simulator's name of it (in lowercase).
pub open spec fn session_type_name(st: Seq<char>) -> Seq<char> {
    if st == "race"@ {
        "race"@
    } else if st == "qualify"@ || st == "qualifying"@ || st == "lone qualify"@ || st
        == "open qualify"@ {
        "qualifying"@
    } else if st == "warmup"@ || st == "warm up"@ {
        "warmup"@
    } else {
        "practice"@
    }
}

/// A storage name of a session type other than testing is kept: the import
/// files a race as a race, a qualifying session as qualifying, and so on.
pub proof fn lemma_storage_names_are_kept(t: SessionType)
    requires
        t != SessionType::Testing,
    ensures
        session_type_name(t.name_spec()) == t.name_spec(),
{
    reveal_strlit("race");
    reveal_strlit("qualify");
    reveal_strlit("qualifying");
    reveal_strlit("lone qualify");
    reveal_strlit("open qualify");
    reveal_strlit("warmup");
    reveal_strlit("warm up");
    reveal_strlit("practice");
}

/// Whatever the simulator calls a session, the import files it under the
/// storage name of a session type other than testing.
pub proof fn lemma_import_category_is_stored_type(st: Seq<char>)
    ensures
        exists|t: SessionType| t != SessionType::Testing && #[trigger] t.name_spec()
            == session_type_name(st),
{
    if session_type_name(st) == SessionType::Race.name_spec() {
    } else if session_type_name(st) == SessionType::Qualifying.name_spec() {
    } else if session_type_name(st) == SessionType::Warmup.name_spec() {
    } else {
        assert(session_type_name(st) == SessionType::Practice.name_spec());
    }
}

/// The import and the live capture agree on the simulator's session names:
/// the import's category for a name, in lowercase, is the storage name of
/// the session type the live capture gives it (the simulator's testing
/// sessions aside, which the import files as practice).
pub proof fn lemma_import_agrees_with_session_type(raw: Seq<char>)
    requires
        raw == "Practice"@ || raw == "Qualify"@ || raw == "Lone Qualify"@ || raw == "Open Qualify"@
            || raw == "Race"@ || raw == "Warmup"@,
    ensures
        session_type_name(ascii_lowercase(raw)) == session_type_of(raw).name_spec(),
{
    reveal_strlit("Practice");
    reveal_strlit("Qualify");
    reveal_strlit("Lone Qualify");
    reveal_strlit("Open Qualify");
    reveal_strlit("Race");
    reveal_strlit("Warmup");
    reveal_strlit("Testing");
    reveal_strlit("race");
    reveal_strlit("qualify");
    reveal_strlit("qualifying");
    reveal_strlit("lone qualify");
    reveal_strlit("open qualify");
    reveal_strlit("warmup");
    reveal_strlit("warm up");
    reveal_strlit("practice");
    if raw == "Practice"@ {
        assert(ascii_lowercase(raw) =~= "practice"@);
    } else if raw == "Qualify"@ {
        assert(ascii_lowercase(raw) =~= "qualify"@);
    } else if raw == "Lone Qualify"@ {
        assert(ascii_lowercase(raw) =~= "lone qualify"@);
    } else if raw == "Open Qualify"@ {
        assert(ascii_lowercase(raw) =~= "open qualify"@);
    } else if raw == "Race"@ {
        assert(ascii_lowercase(raw) =~= "race"@);
    } else {
        assert(ascii_lowercase(raw) =~= "warmup"@);
    }
}

/// Names the session type for the simulator's name of it (in lowercase).
fn session_type_for(st: &str) -> (r: &'static str)
    ensures
        r@ == session_type_name(st@),
{
    if str_eq(st, "race") {
        "race"
    } else if str_eq(st, "qualify") || str_eq(st, "qualifying") || str_eq(st, "lone qualify")
        || str_eq(st, "open qualify") {
        "qualifying"
    } else if str_eq(st, "warmup") || str_eq(st, "warm up") {
        "warmup"
    } else {
        "practice"
    }
}

/// What the session info says so far.
pub ghost struct InfoFields {
    pub track_name: Seq<char>,
    pub car_name: Seq<char>,
    pub session_type: Seq<char>,
    pub date: Option<Seq<char>>,
}

/// What is known before any line is read.
pub open spec fn initial_fields() -> InfoFields {
    InfoFields {
        track_name: "Unknown Track"@,
        car_name: "Unknown Car"@,
        session_type: "practice"@,
        date: None,
    }
}

/// The value after a key.
pub open spec fn after(t: Seq<char>, key: Seq<char>) -> Seq<char> {
    trimmed(t.skip(key.len() as int))
}

/// What one line adds: the full track and car names replace whatever was
/// known, the short names only fill in a default, the session type is
/// mapped from the simulator's name, and the first setup date is kept.
pub open spec fn info_step(f: InfoFields, line: Seq<char>) -> InfoFields {
    let t = strip_dashes(trimmed(line));
    if "TrackDisplayName: "@.is_prefix_of(t) {
        InfoFields { track_name: after(t, "TrackDisplayName: "@), ..f }
    } else if "TrackDisplayShortName: "@.is_prefix_of(t) {
        if f.track_name == "Unknown Track"@ {
            InfoFields { track_name: after(t, "TrackDisplayShortName: "@), ..f }
        } else {
            f
        }
    } else if "CarScreenName: "@.is_prefix_of(t) {
        InfoFields { car_name: after(t, "CarScreenName: "@), ..f }
    } else if "CarScreenNameShort: "@.is_prefix_of(t) {
        if f.car_name == "Unknown Car"@ {
            InfoFields { car_name: after(t, "CarScreenNameShort: "@), ..f }
        } else {
            f
        }
    } else if "SessionType: "@.is_prefix_of(t) {
        InfoFields {
            session_type: session_type_name(lowercase(after(t, "SessionType: "@))),
            ..f
        }
    } else if f.date is None && "SimSetupDate: "@.is_prefix_of(t) {
        InfoFields { date: Some(after(t, "SimSetupDate: "@)), ..f }
    } else {
        f
    }
}

/// What the given lines say, read in order.
pub open spec fn info_fields(lines: Seq<Seq<char>>) -> InfoFields
    decreases lines.len(),
{
    if lines.len() == 0 {
        initial_fields()
    } else {
        info_step(info_fields(lines.drop_last()), lines.last())
    }
}

/// The text after a key, when the text starts with it.
fn value_after<'a>(t: &'a str, key: &str) -> (r: Option<String>)
    ensures
        match r {
            Some(v) => key@.is_prefix_of(t@) && v@ == after(t@, key@),
            None => !key@.is_prefix_of(t@),
        },
{
    match strip_prefix(t, key) {
        Some(rest) => {
            proof {
                assert(t@.skip(key@.len() as int) =~= rest@);
            }
            Some(trim(rest).to_owned())
        },
        None => None,
    }
}

/// The track, car, session type and setup date that the session info text
/// gives, with defaults for what it leaves out.
fn read_info_fields(session_info: &str) -> (r: (String, String, String, Option<String>))
    ensures
        r.0@ == info_fields(text_lines(session_info@)).track_name,
        r.1@ == info_fields(text_lines(session_info@)).car_name,
        r.2@ == info_fields(text_lines(session_info@)).session_type,
        match info_fields(text_lines(session_info@)).date {
            Some(d) => r.3 matches Some(x) && x@ == d,
            None => r.3 is None,
        },
{
    let lines = split_lines(session_info);
    let ghost all = text_lines(session_info@);
    let mut track_name = "Unknown Track".to_owned();
    let mut car_name = "Unknown Car".to_owned();
    let mut session_type = "practice".to_owned();
    let mut date: Option<String> = None;
    let mut i: usize = 0;
    proof {
        assert(all.take(0) =~= Seq::<Seq<char>>::empty());
    }
    while i < lines.len()
        invariant
            lines@.len() == all.len(),
            forall|k: int| 0 <= k < lines@.len() ==> #[trigger] lines@[k]@ == all[k],
            0 <= i <= lines@.len(),
            track_name@ == info_fields(all.take(i as int)).track_name,
            car_name@ == info_fields(all.take(i as int)).car_name,
            session_type@ == info_fields(all.take(i as int)).session_type,
            match info_fields(all.take(i as int)).date {
                Some(d) => date matches Some(x) && x@ == d,
                None => date is None,
            },
        decreases lines@.len() - i,
    {
        let line = lines[i];
        let ghost before = info_fields(all.take(i as int));
        proof {
            assert(all.take(i + 1).drop_last() =~= all.take(i as int));
            assert(all.take(i + 1).last() == line@);
        }
        let t = strip_list_markers(trim(line));
        if let Some(v) = value_after(t, "TrackDisplayName: ") {
            track_name = v;
        } else if let Some(v) = value_after(t, "TrackDisplayShortName: ") {
            if str_eq(track_name.as_str(), "Unknown Track") {
                track_name = v;
            }
        } else if let Some(v) = value_after(t, "CarScreenName: ") {
            car_name = v;
        } else if let Some(v) = value_after(t, "CarScreenNameShort: ") {
            if str_eq(car_name.as_str(), "Unknown Car") {
                car_name = v;
            }
        } else if let Some(v) = value_after(t, "SessionType: ") {
            let st = to_lowercase(v.as_str());
            session_type = session_type_for(st.as_str()).to_owned();
        } else if date.is_none() {
            if let Some(v) = value_after(t, "SimSetupDate: ") {
                date = Some(v);
            }
        }
        i = i + 1;
    }
    proof {
        assert(all.take(lines@.len() as int) =~= all);
    }
    (track_name, car_name, session_type, date)
}

/// The start of the session: midnight of the setup date where the info
/// names one that reads as a date, else the file's modification time where
/// it is known; otherwise the clock's current reading.
pub open spec fn started_at_known(date: Option<Seq<char>>, file_modified: Option<String>, started_at: Seq<char>) -> bool {
    match date {
        Some(d) => match midnight_iso(d) {
            Some(t) => started_at == t,
            None => true,
        },
        None => match file_modified {
            Some(t) => started_at == t@,
            None => true,
        },
    }
}

/// Builds the session record of a simulator telemetry file from its session
/// info text. `import_source` names the file; `file_modified` is its
/// modification time as `%Y-%m-%dT%H:%M:%SZ`, where it could be read.
pub fn extract_metadata(session_info: &str, import_source: &str, file_modified: Option<String>) -> (r:
    Result<ImportedSessionMetadata, StorageError>)
    ensures
        r matches Ok(m) && {
            let f = info_fields(text_lines(session_info@));
            &&& m.track_name@ == f.track_name
            &&& m.car_name@ == f.car_name
            &&& m.session_type@ == f.session_type
            &&& started_at_known(f.date, file_modified, m.started_at@)
            &&& m.ended_at is None
            &&& m.import_source@ == import_source@
            &&& m.import_format@ == "ibt"@
        },
{
    let (track_name, car_name, session_type, date) = read_info_fields(session_info);
    let started_at = match date {
        Some(d) => match parse_midnight_iso(d.as_str()) {
            Some(t) => t,
            None => now_iso_seconds(),
        },
        None => match file_modified {
            Some(t) => t,
            None => now_iso_seconds(),
        },
    };
    Ok(
        ImportedSessionMetadata {
            track_name,
            car_name,
            session_type,
            started_at,
            ended_at: None,
            import_source: import_source.to_owned(),
            import_format: "ibt".to_owned(),
        },
    )
}

} // verus!
