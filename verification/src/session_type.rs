//! Normalised session types of the simulator.

use vstd::prelude::*;
use crate::text::str_eq;

verus! {

/// Session type of a simulator session.
#[derive(Debug, Clone, Copy, PartialEq, Eq, Hash, Structural)]
pub enum SessionType {
    Practice,
    Qualifying,
    Race,
    Warmup,
    Testing,
}

/// The session type that a raw simulator session string names; anything
/// unrecognised is a practice session.
pub open spec fn session_type_of(raw: Seq<char>) -> SessionType {
    if raw == "Practice"@ {
        SessionType::Practice
    } else if raw == "Qualify"@ || raw == "Lone Qualify"@ || raw == "Open Qualify"@ {
        SessionType::Qualifying
    } else if raw == "Race"@ {
        SessionType::Race
    } else if raw == "Warmup"@ {
        SessionType::Warmup
    } else if raw == "Testing"@ {
        SessionType::Testing
    } else {
        SessionType::Practice
    }
}

impl SessionType {
    /// Maps a raw simulator session type string to a session type.
    pub fn from_irsdk(raw: &str) -> (r: SessionType)
        ensures
            r == session_type_of(raw@),
    {
        if str_eq(raw, "Practice") {
            SessionType::Practice
        } else if str_eq(raw, "Qualify") || str_eq(raw, "Lone Qualify") || str_eq(raw, "Open Qualify") {
            SessionType::Qualifying
        } else if str_eq(raw, "Race") {
            SessionType::Race
        } else if str_eq(raw, "Warmup") {
            SessionType::Warmup
        } else if str_eq(raw, "Testing") {
            SessionType::Testing
        } else {
            SessionType::Practice
        }
    }
}

impl SessionType {
    /// The human-readable label of the session type.
    pub open spec fn label_spec(&self) -> Seq<char> {
        match self {
            SessionType::Practice => "Practice"@,
            SessionType::Qualifying => "Qualifying"@,
            SessionType::Race => "Race"@,
            SessionType::Warmup => "Warmup"@,
            SessionType::Testing => "Testing"@,
        }
    }

    /// The lowercase storage name of the session type.
    pub open spec fn name_spec(&self) -> Seq<char> {
        match self {
            SessionType::Practice => "practice"@,
            SessionType::Qualifying => "qualifying"@,
            SessionType::Race => "race"@,
            SessionType::Warmup => "warmup"@,
            SessionType::Testing => "testing"@,
        }
    }

    /// Returns the display label for the session type.
    pub fn display_label(&self) -> (r: &'static str)
        ensures
            r@ == self.label_spec(),
    {
        match self {
            SessionType::Practice => "Practice",
            SessionType::Qualifying => "Qualifying",
            SessionType::Race => "Race",
            SessionType::Warmup => "Warmup",
            SessionType::Testing => "Testing",
        }
    }

    /// Returns the lowercase name used for database storage.
    pub fn as_str(&self) -> (r: &'static str)
        ensures
            r@ == self.name_spec(),
    {
        match self {
            SessionType::Practice => "practice",
            SessionType::Qualifying => "qualifying",
            SessionType::Race => "race",
            SessionType::Warmup => "warmup",
            SessionType::Testing => "testing",
        }
    }
}

impl Default for SessionType {
    /// The default session type is practice.
    fn default() -> (r: SessionType)
        ensures
            r == SessionType::Practice,
    {
        SessionType::Practice
    }
}

/// ASCII lowercase: capital letters become small, other characters stay.
pub open spec fn ascii_lowercase(s: Seq<char>) -> Seq<char> {
    s.map_values(|c: char| if 'A' <= c && c <= 'Z' { ((c as int) + 32) as char } else { c })
}

/// The storage name of a session type is its display label in lowercase,
/// and no two session types share a storage name.
pub proof fn lemma_name_is_lowercase_label(t: SessionType, u: SessionType)
    ensures
        t.name_spec() == ascii_lowercase(t.label_spec()),
        t.name_spec() == u.name_spec() ==> t == u,
{
    reveal_strlit("Practice");
    reveal_strlit("Qualifying");
    reveal_strlit("Race");
    reveal_strlit("Warmup");
    reveal_strlit("Testing");
    reveal_strlit("practice");
    reveal_strlit("qualifying");
    reveal_strlit("race");
    reveal_strlit("warmup");
    reveal_strlit("testing");
    assert(t.name_spec() =~= ascii_lowercase(t.label_spec()));
}

} // verus!
