//! Housing resources (beds, units) and their availability status.
use vstd::prelude::*;
use crate::error::{AppResult, client_str, fails_with};
use crate::counts::{resource_counts_of, resource_status_counts};
use crate::model::{GroupCountRow, HousingResource, ResourcesResponse};
use crate::text::{str_views, trim, trimmed};
use crate::validation::{
    fits_i32, normalize_optional, normalize_text, not_allowed_msg, not_found, not_found_msg,
    opt_text_error, opt_text_value, row_id_arg, text_error, validate_allowed,
};

verus! {

/// The kinds of housing resource.
pub const ALLOWED_KINDS: [&'static str; 5] = [
    "shelter_bed",
    "transitional",
    "permanent_supportive",
    "rental_unit",
    "other",
];

/// The availability statuses of a housing resource.
pub const ALLOWED_STATUSES: [&'static str; 4] = ["available", "held", "occupied", "offline"];

/// A `housing_resources` row as read from storage.
pub struct ResourceRow {
    pub id: i64,
    pub label: String,
    pub kind: String,
    pub address: Option<String>,
    pub capacity: i64,
    pub status: String,
    pub notes: Option<String>,
    pub created_at: String,
    pub updated_at: String,
}

/// The resource a row describes, field for field.
pub fn map(row: ResourceRow) -> (r: HousingResource)
    ensures
        r.id == row.id,
        r.label == row.label,
        r.kind == row.kind,
        r.address == row.address,
        r.capacity == row.capacity,
        r.status == row.status,
        r.notes == row.notes,
        r.created_at == row.created_at,
        r.updated_at == row.updated_at,
{
    HousingResource {
        id: row.id,
        label: row.label,
        kind: row.kind,
        address: row.address,
        capacity: row.capacity,
        status: row.status,
        notes: row.notes,
        created_at: row.created_at,
        updated_at: row.updated_at,
    }
}

/// `r` is the resource `row` describes.
pub open spec fn resource_of(r: HousingResource, row: ResourceRow) -> bool {
    &&& r.id == row.id
    &&& r.label == row.label
    &&& r.kind == row.kind
    &&& r.address == row.address
    &&& r.capacity == row.capacity
    &&& r.status == row.status
    &&& r.notes == row.notes
    &&& r.created_at == row.created_at
    &&& r.updated_at == row.updated_at
}

/// The inventory's payload: the listed resources, in order, and the status
/// counts from the `GROUP BY status` rows.
pub fn resources_response(rows: Vec<ResourceRow>, count_rows: &Vec<GroupCountRow>) -> (r:
    ResourcesResponse)
    ensures
        r.items@.len() == rows@.len(),
        forall|i: int| 0 <= i < rows@.len() ==> resource_of(#[trigger] r.items@[i], rows@[i]),
        r.counts == resource_counts_of(count_rows@),
{
    let ghost all = rows@;
    let mut items: Vec<HousingResource> = Vec::new();
    for row in it: rows
        invariant
            all == it.seq(),
            items@.len() == it.index(),
            forall|i: int| 0 <= i < it.index() ==> resource_of(#[trigger] items@[i], all[i]),
    {
        items.push(map(row));
    }
    ResourcesResponse { items, counts: resource_status_counts(count_rows) }
}

/// A validated new resource, ready to insert.
pub struct NewResource {
    pub label: String,
    pub kind: String,
    pub address: Option<String>,
    pub capacity: i32,
    pub notes: Option<String>,
}

pub open spec fn kind_views() -> Seq<Seq<char>> {
    str_views(ALLOWED_KINDS@)
}

pub open spec fn status_views() -> Seq<Seq<char>> {
    str_views(ALLOWED_STATUSES@)
}

/// The message refusing a new resource, if it is refused: the first field
/// that fails, in form order.
pub open spec fn new_resource_error(
    label: Seq<char>,
    kind: Seq<char>,
    address: Option<Seq<char>>,
    capacity: int,
    notes: Option<Seq<char>>,
) -> Option<Seq<char>> {
    if text_error("Resource label"@, label, 120, true) is Some {
        text_error("Resource label"@, label, 120, true)
    } else if !kind_views().contains(trimmed(kind)) {
        Some(not_allowed_msg("Kind"@, kind_views()))
    } else if opt_text_error("Address"@, address, 240) is Some {
        opt_text_error("Address"@, address, 240)
    } else if capacity < 1 || capacity > 1000 {
        Some("Capacity must be between 1 and 1000."@)
    } else {
        opt_text_error("Notes"@, notes, 1000)
    }
}

/// Validates the new-resource form: a label (required, 120 characters at
/// most), a known kind, an optional address (240), a capacity of 1 to
/// 1000, optional notes (1000). Text fields are trimmed.
pub fn prepare_resource(
    label: &str,
    kind: &str,
    address: &Option<String>,
    capacity: i64,
    notes: &Option<String>,
) -> (r: AppResult<NewResource>)
    ensures
        new_resource_error(label@, kind@, address.deep_view(), capacity as int, notes.deep_view())
            matches Some(m) ==> fails_with(r, m),
        new_resource_error(label@, kind@, address.deep_view(), capacity as int, notes.deep_view())
            is None ==> (r matches Ok(n) && {
            &&& n.label@ == trimmed(label@)
            &&& n.kind@ == trimmed(kind@)
            &&& n.address.deep_view() == opt_text_value(address.deep_view())
            &&& n.capacity == capacity
            &&& n.notes.deep_view() == opt_text_value(notes.deep_view())
        }),
{
    let label = match normalize_text("Resource label", label, 120, true) {
        Err(e) => return Err(e),
        Ok(None) => return Err(client_str("Resource label is required.")),
        Ok(Some(l)) => l,
    };
    let k = trim(kind);
    let allowed = &ALLOWED_KINDS;
    match validate_allowed("Kind", k.as_str(), allowed) {
        Err(e) => return Err(e),
        Ok(_) => {},
    }
    let address = match normalize_optional("Address", address, 240) {
        Err(e) => return Err(e),
        Ok(a) => a,
    };
    if capacity < 1 || capacity > 1000 {
        return Err(client_str("Capacity must be between 1 and 1000."));
    }
    let notes = match normalize_optional("Notes", notes, 1000) {
        Err(e) => return Err(e),
        Ok(n) => n,
    };
    Ok(NewResource { label, kind: k, address, capacity: capacity as i32, notes })
}

/// Validates a status change: the status (trimmed) must be known, then the
/// id must fit the id column. Returns the status and the id.
pub fn prepare_status_update(id: i64, status: &str) -> (r: AppResult<(String, i32)>)
    ensures
        !status_views().contains(trimmed(status@)) ==> fails_with(
            r,
            not_allowed_msg("Status"@, status_views()),
        ),
        status_views().contains(trimmed(status@)) && !fits_i32(id as int) ==> fails_with(
            r,
            "Record id is out of range."@,
        ),
        status_views().contains(trimmed(status@)) && fits_i32(id as int) ==> (r matches Ok(p)
            && p.0@ == trimmed(status@) && p.1 == id),
{
    let t = trim(status);
    let allowed = &ALLOWED_STATUSES;
    match validate_allowed("Status", t.as_str(), allowed) {
        Err(e) => Err(e),
        Ok(_) => match row_id_arg(id) {
            Err(e) => Err(e),
            Ok(i) => Ok((t, i)),
        },
    }
}

/// The resource looked up after a write, or "Resource {id} was not found."
pub fn found_resource(row: Option<ResourceRow>, id: i64) -> (r: AppResult<HousingResource>)
    ensures
        row is None ==> fails_with(r, not_found_msg("Resource"@, id as int)),
        row matches Some(x) ==> (r matches Ok(h) && resource_of(h, x)),
{
    match row {
        None => Err(not_found("Resource", id)),
        Some(x) => Ok(map(x)),
    }
}

/// The capacity rule: with a valid label, a known kind and valid optional
/// fields, every capacity from 1 to 1000 is accepted, and a capacity is
/// refused (with the capacity message) exactly when it is below 1 or above
/// 1000.
pub proof fn lemma_capacities_one_to_a_thousand(
    label: Seq<char>,
    kind: Seq<char>,
    address: Option<Seq<char>>,
    capacity: int,
    notes: Option<Seq<char>>,
)
    requires
        text_error("Resource label"@, label, 120, true) is None,
        kind_views().contains(trimmed(kind)),
        opt_text_error("Address"@, address, 240) is None,
        opt_text_error("Notes"@, notes, 1000) is None,
    ensures
        1 <= capacity <= 1000 ==> new_resource_error(label, kind, address, capacity, notes) is None,
        !(1 <= capacity <= 1000) ==> new_resource_error(label, kind, address, capacity, notes)
            == Some("Capacity must be between 1 and 1000."@),
{
}

} // verus!
