//! Placements: a household matched to a resource, moving through
//! proposed → confirmed → moved_in → exited (or cancelled).
use vstd::prelude::*;
use crate::counts::{placement_counts_of_items, placement_counts_of_list};
use crate::error::{AppResult, fails_with};
use crate::model::{Placement, PlacementsResponse};
use crate::text::{str_eq, str_views, trim, trimmed};
use crate::validation::{
    fits_i32, normalize_optional, not_allowed_msg, not_found, not_found_msg, opt_text_error,
    opt_text_value, row_id_arg, validate_allowed,
};

verus! {

/// The lifecycle statuses of a placement.
pub const ALLOWED_STATUSES: [&'static str; 5] = [
    "proposed",
    "confirmed",
    "moved_in",
    "exited",
    "cancelled",
];

/// A `placements` row joined with the household and resource names.
pub struct PlacementRow {
    pub id: i64,
    pub household_id: i64,
    pub resource_id: i64,
    pub head_name: String,
    pub resource_label: String,
    pub status: String,
    pub started_at: Option<String>,
    pub ended_at: Option<String>,
    pub notes: Option<String>,
    pub created_at: String,
    pub updated_at: String,
}

/// The placement a row describes, field for field.
pub fn map(row: PlacementRow) -> (p: Placement)
    ensures
        p.id == row.id,
        p.household_id == row.household_id,
        p.resource_id == row.resource_id,
        p.head_name == row.head_name,
        p.resource_label == row.resource_label,
        p.status == row.status,
        p.started_at == row.started_at,
        p.ended_at == row.ended_at,
        p.notes == row.notes,
        p.created_at == row.created_at,
        p.updated_at == row.updated_at,
{
    Placement {
        id: row.id,
        household_id: row.household_id,
        resource_id: row.resource_id,
        head_name: row.head_name,
        resource_label: row.resource_label,
        status: row.status,
        started_at: row.started_at,
        ended_at: row.ended_at,
        notes: row.notes,
        created_at: row.created_at,
        updated_at: row.updated_at,
    }
}

/// `p` is the placement `row` describes.
pub open spec fn placement_of(p: Placement, row: PlacementRow) -> bool {
    &&& p.id == row.id
    &&& p.household_id == row.household_id
    &&& p.resource_id == row.resource_id
    &&& p.head_name == row.head_name
    &&& p.resource_label == row.resource_label
    &&& p.status == row.status
    &&& p.started_at == row.started_at
    &&& p.ended_at == row.ended_at
    &&& p.notes == row.notes
    &&& p.created_at == row.created_at
    &&& p.updated_at == row.updated_at
}

/// The placement board's payload: every placement, in order, and the
/// count of each status among them.
pub fn placements_response(rows: Vec<PlacementRow>) -> (r: PlacementsResponse)
    requires
        rows@.len() <= u32::MAX,
    ensures
        r.items@.len() == rows@.len(),
        forall|i: int| 0 <= i < rows@.len() ==> placement_of(#[trigger] r.items@[i], rows@[i]),
        r.counts == placement_counts_of_items(r.items@),
{
    let ghost all = rows@;
    let mut items: Vec<Placement> = Vec::new();
    for row in it: rows
        invariant
            all == it.seq(),
            items@.len() == it.index(),
            forall|i: int| 0 <= i < it.index() ==> placement_of(#[trigger] items@[i], all[i]),
    {
        items.push(map(row));
    }
    let counts = placement_counts_of_list(&items);
    PlacementsResponse { items, counts }
}

/// A validated new placement, ready to insert.
pub struct NewPlacement {
    pub household_id: i32,
    pub resource_id: i32,
    pub notes: Option<String>,
}

/// Validates the new-placement form: both ids must fit the id column, the
/// optional notes are at most 1000 characters.
pub fn prepare_placement(household_id: i64, resource_id: i64, notes: &Option<String>) -> (r:
    AppResult<NewPlacement>)
    ensures
        !fits_i32(household_id as int) ==> fails_with(r, "Record id is out of range."@),
        fits_i32(household_id as int) && !fits_i32(resource_id as int) ==> fails_with(
            r,
            "Record id is out of range."@,
        ),
        fits_i32(household_id as int) && fits_i32(resource_id as int) ==> (opt_text_error(
            "Notes"@,
            notes.deep_view(),
            1000,
        ) matches Some(m) ==> fails_with(r, m)),
        fits_i32(household_id as int) && fits_i32(resource_id as int) && opt_text_error(
            "Notes"@,
            notes.deep_view(),
            1000,
        ) is None ==> (r matches Ok(n) && n.household_id == household_id && n.resource_id
            == resource_id && n.notes.deep_view() == opt_text_value(notes.deep_view())),
{
    let h = match row_id_arg(household_id) {
        Err(e) => return Err(e),
        Ok(h) => h,
    };
    let res = match row_id_arg(resource_id) {
        Err(e) => return Err(e),
        Ok(x) => x,
    };
    let notes = match normalize_optional("Notes", notes, 1000) {
        Err(e) => return Err(e),
        Ok(n) => n,
    };
    Ok(NewPlacement { household_id: h, resource_id: res, notes })
}

/// What a status change does to one lifecycle timestamp.
#[derive(Debug, Clone, Copy, PartialEq, Eq)]
pub enum Stamp {
    /// Leave the timestamp as it is.
    Keep,
    /// Set the timestamp to now unless it is already set.
    SetIfUnset,
}

/// The timestamp after applying `stamp` at time `now`.
pub open spec fn stamped(current: Option<int>, stamp: Stamp, now: int) -> Option<int> {
    match stamp {
        Stamp::Keep => current,
        Stamp::SetIfUnset => if current is Some { current } else { Some(now) },
    }
}

/// A validated status change.
pub struct StatusChange {
    pub status: String,
    pub id: i32,
    /// What happens to `started_at`.
    pub started: Stamp,
    /// What happens to `ended_at`.
    pub ended: Stamp,
}

pub open spec fn status_views() -> Seq<Seq<char>> {
    str_views(ALLOWED_STATUSES@)
}

/// Moving in starts the placement.
pub open spec fn start_stamp(status: Seq<char>) -> Stamp {
    if status == "moved_in"@ { Stamp::SetIfUnset } else { Stamp::Keep }
}

/// Exiting or cancelling ends the placement.
pub open spec fn end_stamp(status: Seq<char>) -> Stamp {
    if status == "exited"@ || status == "cancelled"@ { Stamp::SetIfUnset } else { Stamp::Keep }
}

/// Validates a status change and decides which lifecycle timestamps it
/// stamps: the status (trimmed) must be known, then the id must fit.
pub fn prepare_status_update(id: i64, status: &str) -> (r: AppResult<StatusChange>)
    ensures
        !status_views().contains(trimmed(status@)) ==> fails_with(
            r,
            not_allowed_msg("Status"@, status_views()),
        ),
        status_views().contains(trimmed(status@)) && !fits_i32(id as int) ==> fails_with(
            r,
            "Record id is out of range."@,
        ),
        status_views().contains(trimmed(status@)) && fits_i32(id as int) ==> (r matches Ok(c)
            && c.status@ == trimmed(status@) && c.id == id && c.started == start_stamp(
            trimmed(status@),
        ) && c.ended == end_stamp(trimmed(status@))),
{
    let t = trim(status);
    let allowed = &ALLOWED_STATUSES;
    match validate_allowed("Status", t.as_str(), allowed) {
        Err(e) => return Err(e),
        Ok(_) => {},
    }
    let started = if str_eq(t.as_str(), "moved_in") {
        Stamp::SetIfUnset
    } else {
        Stamp::Keep
    };
    let ended = if str_eq(t.as_str(), "exited") || str_eq(t.as_str(), "cancelled") {
        Stamp::SetIfUnset
    } else {
        Stamp::Keep
    };
    match row_id_arg(id) {
        Err(e) => Err(e),
        Ok(i) => Ok(StatusChange { status: t, id: i, started, ended }),
    }
}

/// A lifecycle timestamp, once set, survives every later status change.
pub proof fn lemma_stamp_is_kept(t: int, status: Seq<char>, now: int)
    ensures
        stamped(Some(t), start_stamp(status), now) == Some(t),
        stamped(Some(t), end_stamp(status), now) == Some(t),
{
}

/// Moving in stamps the start of a placement that has none; exiting or
/// cancelling stamps the end of one that has none.
pub proof fn lemma_transitions_stamp(now: int)
    ensures
        stamped(None, start_stamp("moved_in"@), now) == Some(now),
        stamped(None, end_stamp("exited"@), now) == Some(now),
        stamped(None, end_stamp("cancelled"@), now) == Some(now),
{
}

/// The placement looked up after a write, or "Placement {id} was not
/// found."
pub fn found_placement(row: Option<PlacementRow>, id: i64) -> (r: AppResult<Placement>)
    ensures
        row is None ==> fails_with(r, not_found_msg("Placement"@, id as int)),
        row matches Some(x) ==> (r matches Ok(p) && placement_of(p, x)),
{
    match row {
        None => Err(not_found("Placement", id)),
        Some(x) => Ok(map(x)),
    }
}

/// Only the lifecycle edges stamp: a placement without a start gets one
/// exactly when it moves in, and one without an end gets one exactly when
/// it exits or is cancelled; every other status leaves an unset timestamp
/// unset.
pub proof fn lemma_only_lifecycle_edges_stamp(status: Seq<char>, now: int)
    ensures
        stamped(None, start_stamp(status), now) is Some <==> status == "moved_in"@,
        stamped(None, end_stamp(status), now) is Some <==> (status == "exited"@ || status
            == "cancelled"@),
{
}

} // verus!
