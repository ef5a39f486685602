//! The polymorphic audit trail: notes about a household, a resource, a
//! placement, or the system as a whole.
use vstd::prelude::*;
use crate::error::{AppResult, client_str, fails_with};
use crate::model::ActivityNote;
use crate::text::{str_eq, str_views, trim, trimmed};
use crate::validation::{
    fits_i32, normalize_text, not_allowed_msg, row_id_arg, text_error, validate_allowed,
};

verus! {

/// The kinds of entity a note can be about.
pub const ALLOWED_ENTITIES: [&'static str; 4] = ["household", "resource", "placement", "system"];

/// An `activity_notes` row as read from storage.
pub struct NoteRow {
    pub id: i64,
    pub entity_type: String,
    pub entity_id: Option<i64>,
    pub author: String,
    pub body: String,
    pub created_at: String,
}

/// The note a row describes, field for field.
pub fn map(row: NoteRow) -> (n: ActivityNote)
    ensures
        n.id == row.id,
        n.entity_type == row.entity_type,
        n.entity_id == row.entity_id,
        n.author == row.author,
        n.body == row.body,
        n.created_at == row.created_at,
{
    ActivityNote {
        id: row.id,
        entity_type: row.entity_type,
        entity_id: row.entity_id,
        author: row.author,
        body: row.body,
        created_at: row.created_at,
    }
}

/// The number of notes a listing returns: the requested limit, clamped
/// to 1 through 500.
pub fn list_limit(limit: i64) -> (n: i32)
    ensures
        limit < 1 ==> n == 1,
        limit > 500 ==> n == 500,
        1 <= limit <= 500 ==> n == limit,
{
    let capped = if limit < 1 {
        1
    } else if limit > 500 {
        500
    } else {
        limit
    };
    capped as i32
}

/// A validated new note, ready to insert.
pub struct NewNote {
    pub entity_type: String,
    pub entity_id: Option<i32>,
    pub author: String,
    pub body: String,
}

pub open spec fn entity_views() -> Seq<Seq<char>> {
    str_views(ALLOWED_ENTITIES@)
}

/// The message refusing a new note, if it is refused: entity type, author
/// (required, 80), body (required, 2000), then the entity id, which every
/// entity type but `system` needs and which must fit the id column.
pub open spec fn new_note_error(
    entity_type: Seq<char>,
    entity_id: Option<i64>,
    author: Seq<char>,
    body: Seq<char>,
) -> Option<Seq<char>> {
    if !entity_views().contains(trimmed(entity_type)) {
        Some(not_allowed_msg("Entity type"@, entity_views()))
    } else if text_error("Author"@, author, 80, true) is Some {
        text_error("Author"@, author, 80, true)
    } else if text_error("Body"@, body, 2000, true) is Some {
        text_error("Body"@, body, 2000, true)
    } else if trimmed(entity_type) != "system"@ && entity_id is None {
        Some("Entity id is required unless entity type is 'system'."@)
    } else if entity_id matches Some(id) && !fits_i32(id as int) {
        Some("Record id is out of range."@)
    } else {
        None
    }
}

/// Validates a note: a known entity type, an author (required, 80
/// characters at most), a body (required, 2000), and an entity id unless
/// the note is about the system. Text fields are trimmed.
pub fn prepare_note(entity_type: &str, entity_id: Option<i64>, author: &str, body: &str) -> (r:
    AppResult<NewNote>)
    ensures
        new_note_error(entity_type@, entity_id, author@, body@) matches Some(m) ==> fails_with(
            r,
            m,
        ),
        new_note_error(entity_type@, entity_id, author@, body@) is None ==> (r matches Ok(n) && {
            &&& n.entity_type@ == trimmed(entity_type@)
            &&& n.author@ == trimmed(author@)
            &&& n.body@ == trimmed(body@)
            &&& (n.entity_id is None <==> entity_id is None)
            &&& entity_id matches Some(id) ==> n.entity_id == Some(id as i32)
        }),
{
    let t = trim(entity_type);
    let allowed = &ALLOWED_ENTITIES;
    match validate_allowed("Entity type", t.as_str(), allowed) {
        Err(e) => return Err(e),
        Ok(_) => {},
    }
    let author = match normalize_text("Author", author, 80, true) {
        Err(e) => return Err(e),
        Ok(None) => return Err(client_str("Author is required.")),
        Ok(Some(a)) => a,
    };
    let body = match normalize_text("Body", body, 2000, true) {
        Err(e) => return Err(e),
        Ok(None) => return Err(client_str("Note body is required.")),
        Ok(Some(b)) => b,
    };
    if !str_eq(t.as_str(), "system") && entity_id.is_none() {
        return Err(client_str("Entity id is required unless entity type is 'system'."));
    }
    let id = match entity_id {
        Some(id) => match row_id_arg(id) {
            Err(e) => return Err(e),
            Ok(i) => Some(i),
        },
        None => None,
    };
    Ok(NewNote { entity_type: t, entity_id: id, author, body })
}

/// The note read back after its insert.
pub fn found_note(row: Option<NoteRow>) -> (r: AppResult<ActivityNote>)
    ensures
        row is None ==> fails_with(r, "Activity note was not found after insert."@),
        row matches Some(x) ==> (r matches Ok(n) && n.id == x.id && n.entity_type == x.entity_type
            && n.entity_id == x.entity_id && n.author == x.author && n.body == x.body
            && n.created_at == x.created_at),
{
    match row {
        None => Err(client_str("Activity note was not found after insert.")),
        Some(x) => Ok(map(x)),
    }
}

} // verus!
