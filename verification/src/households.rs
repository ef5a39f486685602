//! Households: intake validation, stage changes, and the household's own
//! case page reached through its share token.
use vstd::prelude::*;
use crate::error::{AppError, AppResult, client_str, fails_with};
use crate::counts::{stage_counts, stage_counts_of};
use crate::model::{CasePlacement, CaseUpdate, CaseView, GroupCountRow, Household, HouseholdsResponse};
use crate::text::{
    ascii_lower, is_ws, lemma_trimmed_edges, trim_end, trim_start, all_hex, ascii_lower_seq, chars_of, is_hex, str_eq, str_views, string_from_chars,
    to_ascii_lowercase, trim, trimmed, utf8_len,
};
use crate::validation::{
    normalize_optional, normalize_text, not_allowed_msg, not_found, opt_text_error, opt_text_value,
    row_id_arg, text_error, validate_allowed, fits_i32,
};

verus! {

/// The pipeline stages a household can be in.
pub const ALLOWED_STAGES: [&'static str; 5] = [
    "intake",
    "assessment",
    "placement",
    "follow_up",
    "exited",
];

/// A `households` row as read from storage.
pub struct HouseholdRow {
    pub id: i64,
    pub head_name: String,
    pub household_size: i64,
    pub phone: Option<String>,
    pub email: Option<String>,
    pub stage: String,
    pub intake_notes: Option<String>,
    pub share_token: Option<String>,
    pub created_at: String,
    pub updated_at: String,
}

/// The household a row describes, field for field.
pub fn map(row: HouseholdRow) -> (h: Household)
    ensures
        h.id == row.id,
        h.head_name == row.head_name,
        h.household_size == row.household_size,
        h.phone == row.phone,
        h.email == row.email,
        h.stage == row.stage,
        h.intake_notes == row.intake_notes,
        h.share_token == row.share_token,
        h.created_at == row.created_at,
        h.updated_at == row.updated_at,
{
    Household {
        id: row.id,
        head_name: row.head_name,
        household_size: row.household_size,
        phone: row.phone,
        email: row.email,
        stage: row.stage,
        intake_notes: row.intake_notes,
        share_token: row.share_token,
        created_at: row.created_at,
        updated_at: row.updated_at,
    }
}

/// `h` is the household `row` describes.
pub open spec fn household_of(h: Household, row: HouseholdRow) -> bool {
    &&& h.id == row.id
    &&& h.head_name == row.head_name
    &&& h.household_size == row.household_size
    &&& h.phone == row.phone
    &&& h.email == row.email
    &&& h.stage == row.stage
    &&& h.intake_notes == row.intake_notes
    &&& h.share_token == row.share_token
    &&& h.created_at == row.created_at
    &&& h.updated_at == row.updated_at
}

/// The roster's payload: the listed households, in order, and the stage
/// counts from the `GROUP BY stage` rows.
pub fn households_response(rows: Vec<HouseholdRow>, count_rows: &Vec<GroupCountRow>) -> (r:
    HouseholdsResponse)
    ensures
        r.items@.len() == rows@.len(),
        forall|i: int| 0 <= i < rows@.len() ==> household_of(#[trigger] r.items@[i], rows@[i]),
        r.counts == stage_counts_of(count_rows@),
{
    let ghost all = rows@;
    let mut items: Vec<Household> = Vec::new();
    for row in it: rows
        invariant
            all == it.seq(),
            items@.len() == it.index(),
            forall|i: int| 0 <= i < it.index() ==> household_of(#[trigger] items@[i], all[i]),
    {
        items.push(map(row));
    }
    HouseholdsResponse { items, counts: stage_counts(count_rows) }
}

/// A validated new household, ready to insert.
pub struct NewHousehold {
    pub head_name: String,
    pub household_size: i32,
    pub phone: Option<String>,
    pub email: Option<String>,
    pub intake_notes: Option<String>,
}

/// The message refusing a new household, if it is refused: the first
/// field that fails, in form order.
pub open spec fn new_household_error(
    head_name: Seq<char>,
    household_size: int,
    phone: Option<Seq<char>>,
    email: Option<Seq<char>>,
    intake_notes: Option<Seq<char>>,
) -> Option<Seq<char>> {
    if text_error("Head of household name"@, head_name, 120, true) is Some {
        text_error("Head of household name"@, head_name, 120, true)
    } else if household_size < 1 || household_size > 32 {
        Some("Household size must be between 1 and 32."@)
    } else if opt_text_error("Phone"@, phone, 40) is Some {
        opt_text_error("Phone"@, phone, 40)
    } else if opt_text_error("Email"@, email, 120) is Some {
        opt_text_error("Email"@, email, 120)
    } else {
        opt_text_error("Intake notes"@, intake_notes, 1000)
    }
}

/// Validates the intake form: the head of household's name is required
/// (120 characters at most), the size is 1 to 32 people, phone (40),
/// email (120) and notes (1000) are optional. Fields are trimmed; blank
/// optional fields become `None`.
pub fn prepare_household(
    head_name: &str,
    household_size: i64,
    phone: &Option<String>,
    email: &Option<String>,
    intake_notes: &Option<String>,
) -> (r: AppResult<NewHousehold>)
    ensures
        new_household_error(
            head_name@,
            household_size as int,
            phone.deep_view(),
            email.deep_view(),
            intake_notes.deep_view(),
        ) matches Some(m) ==> fails_with(r, m),
        new_household_error(
            head_name@,
            household_size as int,
            phone.deep_view(),
            email.deep_view(),
            intake_notes.deep_view(),
        ) is None ==> (r matches Ok(h) && {
            &&& h.head_name@ == trimmed(head_name@)
            &&& h.household_size == household_size
            &&& h.phone.deep_view() == opt_text_value(phone.deep_view())
            &&& h.email.deep_view() == opt_text_value(email.deep_view())
            &&& h.intake_notes.deep_view() == opt_text_value(intake_notes.deep_view())
        }),
{
    let head = match normalize_text("Head of household name", head_name, 120, true) {
        Err(e) => return Err(e),
        Ok(None) => return Err(client_str("Head of household name is required.")),
        Ok(Some(h)) => h,
    };
    if household_size < 1 || household_size > 32 {
        return Err(client_str("Household size must be between 1 and 32."));
    }
    let phone = match normalize_optional("Phone", phone, 40) {
        Err(e) => return Err(e),
        Ok(p) => p,
    };
    let email = match normalize_optional("Email", email, 120) {
        Err(e) => return Err(e),
        Ok(p) => p,
    };
    let intake_notes = match normalize_optional("Intake notes", intake_notes, 1000) {
        Err(e) => return Err(e),
        Ok(p) => p,
    };
    Ok(
        NewHousehold {
            head_name: head,
            household_size: household_size as i32,
            phone,
            email,
            intake_notes,
        },
    )
}

/// The stages, as character sequences.
pub open spec fn stage_views() -> Seq<Seq<char>> {
    str_views(ALLOWED_STAGES@)
}

/// Validates a stage change: the stage (trimmed) must be a known stage,
/// then the id must fit the id column. Returns the stage and the id.
pub fn prepare_stage_update(id: i64, stage: &str) -> (r: AppResult<(String, i32)>)
    ensures
        !stage_views().contains(trimmed(stage@)) ==> fails_with(
            r,
            not_allowed_msg("Stage"@, stage_views()),
        ),
        stage_views().contains(trimmed(stage@)) && !fits_i32(id as int) ==> fails_with(
            r,
            "Record id is out of range."@,
        ),
        stage_views().contains(trimmed(stage@)) && fits_i32(id as int) ==> (r matches Ok(p)
            && p.0@ == trimmed(stage@) && p.1 == id),
{
    let t = trim(stage);
    let allowed = &ALLOWED_STAGES;
    match validate_allowed("Stage", t.as_str(), allowed) {
        Err(e) => Err(e),
        Ok(_) => match row_id_arg(id) {
            Err(e) => Err(e),
            Ok(i) => Ok((t, i)),
        },
    }
}

/// The household looked up after a write, or "Household {id} was not
/// found."
pub fn found_household(row: Option<HouseholdRow>, id: i64) -> (r: AppResult<Household>)
    ensures
        row is None ==> fails_with(r, crate::validation::not_found_msg("Household"@, id as int)),
        row matches Some(x) ==> (r matches Ok(h) && household_of(h, x)),
{
    match row {
        None => Err(not_found("Household", id)),
        Some(x) => Ok(map(x)),
    }
}

// ------- the household's own case page -------------------------------------

/// The message for a case link that is malformed, unknown or revoked.
pub open spec fn inactive_msg() -> Seq<char> {
    "This case link isn't active."@
}

/// The canonical form of a share token: trimmed, then lower-cased.
pub open spec fn token_form(token: Seq<char>) -> Seq<char> {
    ascii_lower_seq(trimmed(token))
}

/// Whether a share token has an acceptable shape: 8 to 64 bytes of
/// hexadecimal digits once in canonical form.
pub open spec fn token_shape_ok(token: Seq<char>) -> bool {
    let t = token_form(token);
    &&& 8 <= utf8_len(t) <= 64
    &&& forall|i: int| 0 <= i < t.len() ==> #[trigger] is_hex(t[i])
}

/// Puts a share token from a URL in canonical form and checks its shape.
pub fn normalize_share_token(token: &str) -> (r: AppResult<String>)
    ensures
        token_shape_ok(token@) ==> (r matches Ok(t) && t@ == token_form(token@)),
        !token_shape_ok(token@) ==> fails_with(r, "Invalid case link."@),
{
    let t = trim(token);
    let cs = chars_of(t.as_str());
    let lower = to_ascii_lowercase(&cs);
    let s = string_from_chars(&lower);
    // Only hexadecimal digits are accepted, so the byte length equals the
    // character count whenever the length matters.
    if !all_hex(&lower) {
        return Err(client_str("Invalid case link."));
    }
    proof {
        assert(vstd::utf8::is_ascii_chars(lower@));
        vstd::utf8::is_ascii_chars_encode_utf8(lower@);
    }
    let len = lower.len();
    if len < 8 || len > 64 {
        return Err(client_str("Invalid case link."));
    }
    Ok(s)
}

/// The household fields the case page shows.
pub struct CaseHouseholdRow {
    pub head_name: String,
    pub household_size: i64,
    pub stage: String,
    pub intake_notes: Option<String>,
    pub updated_at: String,
}

/// The latest placement of the household.
pub struct CasePlacementRow {
    pub resource_label: String,
    pub status: String,
    pub started_at: Option<String>,
}

/// An activity note about the household.
pub struct CaseUpdateRow {
    pub body: String,
    pub author: String,
    pub created_at: String,
}

/// How many recent updates the case page shows.
pub const CASE_UPDATES_SHOWN: usize = 5;

/// `u` is the case-page form of the update row `row`.
pub open spec fn update_shown(u: CaseUpdate, row: CaseUpdateRow) -> bool {
    &&& u.body@ == row.body@
    &&& u.author_is_household == (row.author@ == "household"@)
    &&& u.created_at@ == row.created_at@
}

/// Builds the case page from what storage returned for a token: the
/// household (none when the token is unknown), its latest placement, and
/// its newest updates, newest first.
pub fn assemble_case_view(
    households: &Vec<CaseHouseholdRow>,
    placements: &Vec<CasePlacementRow>,
    updates: &Vec<CaseUpdateRow>,
) -> (r: AppResult<CaseView>)
    ensures
        households@.len() == 0 ==> fails_with(r, inactive_msg()),
        households@.len() > 0 ==> (r matches Ok(v) && {
            let h = households@[0];
            &&& v.head_name@ == h.head_name@
            &&& v.household_size == h.household_size
            &&& v.stage@ == h.stage@
            &&& v.intake_notes.deep_view() == h.intake_notes.deep_view()
            &&& v.updated_at@ == h.updated_at@
            &&& placements@.len() == 0 ==> v.current_placement is None
            &&& placements@.len() > 0 ==> (v.current_placement matches Some(p)
                && p.resource_label@ == placements@[0].resource_label@ && p.status@
                == placements@[0].status@ && p.started_at.deep_view()
                == placements@[0].started_at.deep_view())
            &&& v.recent_updates@.len() == if updates@.len() < 5 {
                updates@.len()
            } else {
                5
            }
            &&& forall|i: int|
                0 <= i < v.recent_updates@.len() ==> update_shown(
                    #[trigger] v.recent_updates@[i],
                    updates@[i],
                )
        }),
{
    if households.len() == 0 {
        return Err(client_str("This case link isn't active."));
    }
    let h = &households[0];
    let current_placement = if placements.len() == 0 {
        None
    } else {
        let p = &placements[0];
        Some(
            CasePlacement {
                resource_label: p.resource_label.clone(),
                status: p.status.clone(),
                started_at: p.started_at.clone(),
            },
        )
    };
    let shown = if updates.len() < CASE_UPDATES_SHOWN {
        updates.len()
    } else {
        CASE_UPDATES_SHOWN
    };
    let mut recent_updates: Vec<CaseUpdate> = Vec::new();
    let mut i: usize = 0;
    while i < shown
        invariant
            shown <= updates@.len(),
            i <= shown,
            recent_updates@.len() == i,
            forall|j: int|
                0 <= j < i ==> update_shown(#[trigger] recent_updates@[j], updates@[j]),
        decreases shown - i,
    {
        let u = &updates[i];
        recent_updates.push(
            CaseUpdate {
                body: u.body.clone(),
                author_is_household: str_eq(u.author.as_str(), "household"),
                created_at: u.created_at.clone(),
            },
        );
        i = i + 1;
    }
    Ok(
        CaseView {
            head_name: h.head_name.clone(),
            household_size: h.household_size,
            stage: h.stage.clone(),
            intake_notes: h.intake_notes.clone(),
            current_placement,
            recent_updates,
            updated_at: h.updated_at.clone(),
        },
    )
}

/// Validates a message a household sends from its case page: the token
/// must have a valid shape, the message is required and at most 1000
/// characters. Returns the canonical token and the trimmed message.
pub fn prepare_household_update(token: &str, body: &str) -> (r: AppResult<(String, String)>)
    ensures
        !token_shape_ok(token@) ==> fails_with(r, "Invalid case link."@),
        token_shape_ok(token@) ==> (text_error("Your update"@, body@, 1000, true) matches Some(m)
            ==> fails_with(r, m)),
        token_shape_ok(token@) && text_error("Your update"@, body@, 1000, true) is None ==> (
        r matches Ok(p) && p.0@ == token_form(token@) && p.1@ == trimmed(body@)),
{
    let t = match normalize_share_token(token) {
        Err(e) => return Err(e),
        Ok(t) => t,
    };
    let b = match normalize_text("Your update", body, 1000, true) {
        Err(e) => return Err(e),
        Ok(None) => return Err(client_str("Your update can't be empty.")),
        Ok(Some(b)) => b,
    };
    Ok((t, b))
}

/// A household update that inserted nothing had no household behind its
/// token.
pub fn require_case_active(changed: usize) -> (r: AppResult<()>)
    ensures
        changed > 0 ==> r is Ok,
        changed == 0 ==> fails_with(r, inactive_msg()),
{
    if changed == 0 {
        Err(client_str("This case link isn't active."))
    } else {
        Ok(())
    }
}

/// A share token in canonical form is its own canonical form, and still
/// has a valid shape: a link built from a normalised token keeps working.
pub proof fn lemma_share_token_canonical(token: Seq<char>)
    requires
        token_shape_ok(token),
    ensures
        token_shape_ok(token_form(token)),
        token_form(token_form(token)) == token_form(token),
{
    let t = token_form(token);
    assert forall|i: int| 0 <= i < t.len() implies !is_ws(#[trigger] t[i]) by {
        assert(is_hex(t[i]));
    }
    if t.len() > 0 {
        assert(!is_ws(t[0]));
        assert(!is_ws(t.last()));
    }
    assert(trim_start(t) == t);
    assert(trim_end(t) == t);
    assert(trimmed(t) == t);
    assert(ascii_lower_seq(t) =~= t) by {
        assert forall|i: int| 0 <= i < t.len() implies #[trigger] ascii_lower(t[i]) == t[i] by {
            let u = trimmed(token)[i];
            assert(t[i] == ascii_lower(u));
        }
    }
}

/// The household size rule: with a valid head-of-household name and valid
/// optional fields, every size from 1 to 32 is accepted, and a size is
/// refused (with the size message) exactly when it is below 1 or above 32.
pub proof fn lemma_household_sizes_one_to_thirty_two(
    head_name: Seq<char>,
    household_size: int,
    phone: Option<Seq<char>>,
    email: Option<Seq<char>>,
    intake_notes: Option<Seq<char>>,
)
    requires
        text_error("Head of household name"@, head_name, 120, true) is None,
        opt_text_error("Phone"@, phone, 40) is None,
        opt_text_error("Email"@, email, 120) is None,
        opt_text_error("Intake notes"@, intake_notes, 1000) is None,
    ensures
        1 <= household_size <= 32 ==> new_household_error(
            head_name,
            household_size,
            phone,
            email,
            intake_notes,
        ) is None,
        !(1 <= household_size <= 32) ==> new_household_error(
            head_name,
            household_size,
            phone,
            email,
            intake_notes,
        ) == Some("Household size must be between 1 and 32."@),
{
}

} // verus!
