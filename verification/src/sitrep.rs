//! The sitrep: one declared stress event, shown as a banner to everyone.
use vstd::prelude::*;
use crate::error::{AppError, AppResult, client_str, fails_internally, fails_with};
use crate::model::Sitrep;
use crate::text::{chars_of, str_views, trim, trimmed};
use crate::validation::{normalize_text, not_allowed_msg, text_error, text_value, validate_allowed};

verus! {

/// The banner levels.
pub const ALLOWED_LEVELS: [&'static str; 2] = ["warn", "red"];

/// The `sitrep` row as read from storage; `active` is stored as an integer.
pub struct SitrepRow {
    pub active: i64,
    pub summary: String,
    pub level: String,
    pub started_at: Option<String>,
    pub updated_at: String,
    pub updated_by: Option<String>,
}

/// The sitrep a row describes; any non-zero `active` means active.
pub open spec fn sitrep_of(row: SitrepRow) -> Sitrep {
    Sitrep {
        active: row.active != 0,
        summary: row.summary,
        level: row.level,
        started_at: row.started_at,
        updated_at: row.updated_at,
        updated_by: row.updated_by,
    }
}

/// The sitrep a row describes; any non-zero `active` means active.
pub fn map(row: SitrepRow) -> (s: Sitrep)
    ensures
        s == sitrep_of(row),
        s.active == (row.active != 0),
        s.summary == row.summary,
        s.level == row.level,
        s.started_at == row.started_at,
        s.updated_at == row.updated_at,
        s.updated_by == row.updated_by,
{
    Sitrep {
        active: row.active != 0,
        summary: row.summary,
        level: row.level,
        started_at: row.started_at,
        updated_at: row.updated_at,
        updated_by: row.updated_by,
    }
}

/// The sitrep row is seeded when storage is set up; its absence is an
/// internal failure.
pub fn require_sitrep(row: Option<SitrepRow>) -> (r: AppResult<Sitrep>)
    ensures
        row is None ==> fails_internally(r, "sitrep row 1 missing"@, "table not seeded"@),
        row matches Some(x) ==> (r matches Ok(s) && s == sitrep_of(x)),
        row matches Some(x) ==> (r matches Ok(s) && s.active == (x.active != 0) && s.summary
            == x.summary && s.level == x.level && s.started_at == x.started_at && s.updated_at
            == x.updated_at && s.updated_by == x.updated_by),
{
    match row {
        None => Err(
            AppError::internal_text("sitrep row 1 missing", crate::text::owned("table not seeded")),
        ),
        Some(x) => Ok(map(x)),
    }
}

/// What a sitrep change does to `started_at`.
#[derive(Debug, Clone, Copy, PartialEq, Eq)]
pub enum SitrepStart {
    /// Activating: keep the start of an event already running, else now.
    SetIfUnset,
    /// Deactivating: the event has no start.
    Clear,
}

/// A validated sitrep change.
pub struct SitrepChange {
    /// 1 when active, 0 when not.
    pub active: i32,
    pub summary: String,
    pub level: String,
    pub updated_by: Option<String>,
    pub started: SitrepStart,
}

pub open spec fn level_views() -> Seq<Seq<char>> {
    str_views(ALLOWED_LEVELS@)
}

/// The message refusing a sitrep change, if it is refused.
pub open spec fn sitrep_error(
    active: bool,
    summary: Seq<char>,
    level: Seq<char>,
    updated_by: Seq<char>,
) -> Option<Seq<char>> {
    if !level_views().contains(trimmed(level)) {
        Some(not_allowed_msg("Level"@, level_views()))
    } else if active && trimmed(summary).len() == 0 {
        Some("An active sitrep needs a summary — narrate what's happening."@)
    } else if trimmed(summary).len() > 240 {
        Some("Summary is capped at 240 characters — the banner is a tease, not a memo."@)
    } else {
        text_error("Updated by"@, updated_by, 80, false)
    }
}

/// The change `prepare_sitrep` accepts for the form values: the flag as an
/// integer, the summary and level trimmed, the author handle normalised,
/// and the start kept (or set) when active, cleared when not.
pub open spec fn prepared_sitrep(
    c: SitrepChange,
    active: bool,
    summary: Seq<char>,
    level: Seq<char>,
    updated_by: Seq<char>,
) -> bool {
    &&& c.active == (if active { 1i32 } else { 0i32 })
    &&& c.summary@ == trimmed(summary)
    &&& c.level@ == trimmed(level)
    &&& c.updated_by.deep_view() == text_value(updated_by)
    &&& c.started == (if active { SitrepStart::SetIfUnset } else { SitrepStart::Clear })
}

/// The sitrep row as storage holds it once `c` is written over a row
/// whose event started at `prior_start`: flag, summary, level and author
/// from the change; while active the start is kept, or set when there was
/// none; when inactive it is cleared.
pub open spec fn stored_after(row: SitrepRow, c: SitrepChange, prior_start: Option<Seq<char>>) -> bool {
    &&& row.active == c.active as i64
    &&& row.summary@ == c.summary@
    &&& row.level@ == c.level@
    &&& row.updated_by.deep_view() == c.updated_by.deep_view()
    &&& match c.started {
        SitrepStart::SetIfUnset => row.started_at is Some && (prior_start is Some
            ==> row.started_at.deep_view() == prior_start),
        SitrepStart::Clear => row.started_at is None,
    }
}

/// Validates a sitrep change: a known level; a summary (trimmed) that is
/// not empty when the sitrep is active and at most 240 characters; an
/// optional author handle of at most 80 characters.
pub fn prepare_sitrep(active: bool, summary: &str, level: &str, updated_by: &str) -> (r: AppResult<
    SitrepChange,
>)
    ensures
        sitrep_error(active, summary@, level@, updated_by@) matches Some(m) ==> fails_with(r, m),
        sitrep_error(active, summary@, level@, updated_by@) is None ==> (r matches Ok(c)
            && prepared_sitrep(c, active, summary@, level@, updated_by@)),
{
    let l = trim(level);
    let allowed = &ALLOWED_LEVELS;
    match validate_allowed("Level", l.as_str(), allowed) {
        Err(e) => return Err(e),
        Ok(_) => {},
    }
    let s = trim(summary);
    let count = chars_of(s.as_str()).len();
    if active && count == 0 {
        return Err(client_str("An active sitrep needs a summary — narrate what's happening."));
    }
    if count > 240 {
        return Err(
            client_str("Summary is capped at 240 characters — the banner is a tease, not a memo."),
        );
    }
    let by = match normalize_text("Updated by", updated_by, 80, false) {
        Err(e) => return Err(e),
        Ok(b) => b,
    };
    Ok(
        SitrepChange {
            active: if active { 1 } else { 0 },
            summary: s,
            level: l,
            updated_by: by,
            started: if active { SitrepStart::SetIfUnset } else { SitrepStart::Clear },
        },
    )
}

/// An active sitrep always carries a message: no active change is
/// accepted with a blank summary.
pub proof fn lemma_active_sitrep_has_summary(summary: Seq<char>, level: Seq<char>, updated_by: Seq<
    char,
>)
    requires
        sitrep_error(true, summary, level, updated_by) is None,
    ensures
        trimmed(summary).len() > 0,
{
}

/// Saving a sitrep and reading it back: once the change `prepare_sitrep`
/// accepted for the form values is stored, the sitrep read back is active
/// exactly as asked, with the trimmed summary and level and the normalised
/// author; while active it has a start (the earlier one when the event was
/// already running), and when inactive it has none.
pub proof fn lemma_sitrep_reads_back(
    active: bool,
    summary: Seq<char>,
    level: Seq<char>,
    updated_by: Seq<char>,
    c: SitrepChange,
    prior_start: Option<Seq<char>>,
    row: SitrepRow,
)
    requires
        prepared_sitrep(c, active, summary, level, updated_by),
        stored_after(row, c, prior_start),
    ensures
        sitrep_of(row).active == active,
        sitrep_of(row).summary@ == trimmed(summary),
        sitrep_of(row).level@ == trimmed(level),
        sitrep_of(row).updated_by.deep_view() == text_value(updated_by),
        active ==> sitrep_of(row).started_at is Some,
        active && prior_start is Some ==> sitrep_of(row).started_at.deep_view() == prior_start,
        !active ==> sitrep_of(row).started_at is None,
{
}

} // verus!
