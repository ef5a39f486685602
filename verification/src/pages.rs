//! What the pages check before they send a form, and the small pieces of
//! text they put together from records.
use vstd::prelude::*;
use crate::model::{PlacementStatusCounts, ResourceStatusCounts, StageCounts};
use crate::labels::{ascii_capitalized, capitalized, humanize, underscores_to_spaces};
use crate::text::{
    chars_of, decimal, owned, parse_i64, parsed_i64, push_char, push_decimal, push_decimal_u64,
    push_str, str_eq, string_from_range, trim, trimmed,
};

verus! {

// ------- forms ---------------------------------------------------------------

/// A note the activity form is about to send.
pub struct NoteDraft {
    pub entity_type: String,
    pub entity_id: Option<i64>,
    pub author: String,
    pub body: String,
}

/// The entity id the activity form reads: none for a system note,
/// otherwise a positive integer (or the form is refused).
pub open spec fn draft_entity_id(kind: Seq<char>, id_raw: Seq<char>) -> Option<Option<int>> {
    if kind == "system"@ {
        Some(None)
    } else {
        match parsed_i64(trimmed(id_raw)) {
            Some(n) => if n > 0 { Some(Some(n)) } else { None },
            None => None,
        }
    }
}

/// An optional `i64` as an optional integer.
pub open spec fn as_i64_option(o: Option<i64>) -> Option<int> {
    match o {
        Some(n) => Some(n as int),
        None => None,
    }
}

/// Checks the activity page's note form: an entity id unless the note is
/// about the system, then an author and a body. Author and body are
/// trimmed; the kind is passed on as chosen.
pub fn note_form(kind: &str, id_raw: &str, author: &str, body: &str) -> (r: Result<NoteDraft, String>)
    ensures
        draft_entity_id(kind@, id_raw@) is None ==> (r matches Err(m) && m@ == "Entity id required for "@
            + kind@ + "."@),
        draft_entity_id(kind@, id_raw@) is Some && (trimmed(author@).len() == 0 || trimmed(
            body@,
        ).len() == 0) ==> (r matches Err(m) && m@ == "Author and body are required."@),
        draft_entity_id(kind@, id_raw@) is Some && trimmed(author@).len() > 0 && trimmed(
            body@,
        ).len() > 0 ==> (r matches Ok(d) && d.entity_type@ == kind@ && d.author@ == trimmed(
            author@,
        ) && d.body@ == trimmed(body@) && as_i64_option(d.entity_id) == draft_entity_id(
            kind@,
            id_raw@,
        )->Some_0),
{
    let id = if str_eq(kind, "system") {
        None
    } else {
        let t = trim(id_raw);
        match parse_i64(t.as_str()) {
            Some(n) => {
                if n > 0 {
                    Some(n)
                } else {
                    let mut m = owned("Entity id required for ");
                    push_str(&mut m, kind);
                    push_str(&mut m, ".");
                    return Err(m);
                }
            },
            None => {
                let mut m = owned("Entity id required for ");
                push_str(&mut m, kind);
                push_str(&mut m, ".");
                return Err(m);
            },
        }
    };
    let who = trim(author);
    let msg = trim(body);
    if chars_of(who.as_str()).len() == 0 || chars_of(msg.as_str()).len() == 0 {
        return Err(owned("Author and body are required."));
    }
    Ok(NoteDraft { entity_type: owned(kind), entity_id: id, author: who, body: msg })
}

/// Checks the team board form: both name and message are required
/// (trimmed). The post is a system note.
pub fn board_post(author: &str, body: &str) -> (r: Result<NoteDraft, String>)
    ensures
        trimmed(author@).len() == 0 || trimmed(body@).len() == 0 ==> (r matches Err(m) && m@
            == "Name and message are required."@),
        trimmed(author@).len() > 0 && trimmed(body@).len() > 0 ==> (r matches Ok(d)
            && d.entity_type@ == "system"@ && d.entity_id is None && d.author@ == trimmed(author@)
            && d.body@ == trimmed(body@)),
{
    let who = trim(author);
    let msg = trim(body);
    if chars_of(who.as_str()).len() == 0 || chars_of(msg.as_str()).len() == 0 {
        return Err(owned("Name and message are required."));
    }
    Ok(NoteDraft { entity_type: owned("system"), entity_id: None, author: who, body: msg })
}

/// Checks a required text field of a form: its trimmed value, or `message`
/// when it is blank.
pub fn required_field(value: &str, message: &str) -> (r: Result<String, String>)
    ensures
        trimmed(value@).len() == 0 ==> (r matches Err(m) && m@ == message@),
        trimmed(value@).len() > 0 ==> (r matches Ok(v) && v@ == trimmed(value@)),
{
    let t = trim(value);
    if chars_of(t.as_str()).len() == 0 {
        Err(owned(message))
    } else {
        Ok(t)
    }
}

/// The household intake form needs a name.
pub fn household_form_name(name: &str) -> (r: Result<String, String>)
    ensures
        trimmed(name@).len() == 0 ==> (r matches Err(m) && m@
            == "Head of household name is required."@),
        trimmed(name@).len() > 0 ==> (r matches Ok(v) && v@ == trimmed(name@)),
{
    required_field(name, "Head of household name is required.")
}

/// The inventory form needs a label.
pub fn resource_form_label(label: &str) -> (r: Result<String, String>)
    ensures
        trimmed(label@).len() == 0 ==> (r matches Err(m) && m@ == "Label is required."@),
        trimmed(label@).len() > 0 ==> (r matches Ok(v) && v@ == trimmed(label@)),
{
    required_field(label, "Label is required.")
}

/// A household's message from its case page needs a few words.
pub fn case_message(body: &str) -> (r: Result<String, String>)
    ensures
        trimmed(body@).len() == 0 ==> (r matches Err(m) && m@ == "Add a few words before sending."@),
        trimmed(body@).len() > 0 ==> (r matches Ok(v) && v@ == trimmed(body@)),
{
    required_field(body, "Add a few words before sending.")
}

/// A new todo needs a title.
pub fn todo_form_title(title: &str) -> (r: Result<String, String>)
    ensures
        trimmed(title@).len() == 0 ==> (r matches Err(m) && m@
            == "Give the todo a short title first."@),
        trimmed(title@).len() > 0 ==> (r matches Ok(v) && v@ == trimmed(title@)),
{
    required_field(title, "Give the todo a short title first.")
}

/// Whether the todo form's submit button is disabled: while saving, or
/// while the title is blank.
pub fn todo_submit_disabled(pending: bool, draft: &str) -> (b: bool)
    ensures
        b == (pending || trimmed(draft@).len() == 0),
{
    pending || chars_of(trim(draft).as_str()).len() == 0
}

/// The placement form needs both a household and a resource picked (ids
/// are positive).
pub fn placement_form(household_id: i64, resource_id: i64) -> (r: Result<(i64, i64), String>)
    ensures
        household_id <= 0 || resource_id <= 0 ==> (r matches Err(m) && m@
            == "Pick a household and a resource."@),
        household_id > 0 && resource_id > 0 ==> (r matches Ok(p) && p == (household_id, resource_id)),
{
    if household_id <= 0 || resource_id <= 0 {
        Err(owned("Pick a household and a resource."))
    } else {
        Ok((household_id, resource_id))
    }
}

/// The sitrep form refuses to activate without a summary; the summary is
/// sent trimmed.
pub fn sitrep_form_summary(active: bool, summary: &str) -> (r: Result<String, String>)
    ensures
        active && trimmed(summary@).len() == 0 ==> (r matches Err(m) && m@
            == "Write a one-line summary before activating — the banner needs a message."@),
        !(active && trimmed(summary@).len() == 0) ==> (r matches Ok(v) && v@ == trimmed(summary@)),
{
    let t = trim(summary);
    if active && chars_of(t.as_str()).len() == 0 {
        Err(owned("Write a one-line summary before activating — the banner needs a message."))
    } else {
        Ok(t)
    }
}

/// A case link with no token cannot be opened.
pub fn case_token_present(token: &str) -> (r: Result<(), String>)
    ensures
        token@.len() == 0 ==> (r matches Err(m) && m@ == "This case link isn't active."@),
        token@.len() > 0 ==> r is Ok,
{
    if chars_of(token).len() == 0 {
        Err(owned("This case link isn't active."))
    } else {
        Ok(())
    }
}

// ------- text put together from records -----------------------------------

/// A household's contact line: phone and email joined by `" · "`, either
/// one alone, or a dash.
pub fn contact_line(phone: &Option<String>, email: &Option<String>) -> (r: String)
    ensures
        r@ == match (phone.deep_view(), email.deep_view()) {
            (Some(p), Some(e)) => p + " · "@ + e,
            (Some(p), None) => p,
            (None, Some(e)) => e,
            (None, None) => "—"@,
        },
{
    match (phone, email) {
        (Some(p), Some(e)) => {
            let mut r = p.clone();
            push_str(&mut r, " · ");
            push_str(&mut r, e.as_str());
            r
        },
        (Some(p), None) => p.clone(),
        (None, Some(e)) => e.clone(),
        (None, None) => owned("—"),
    }
}

/// The household roster's stage summary.
pub fn stage_summary(c: &StageCounts) -> (r: String)
    ensures
        r@ == "Intake "@ + decimal(c.intake as int) + " · Assessment "@ + decimal(
            c.assessment as int,
        ) + " · Placement "@ + decimal(c.placement as int) + " · Follow-up "@ + decimal(
            c.follow_up as int,
        ) + " · Exited "@ + decimal(c.exited as int),
{
    let mut r = owned("Intake ");
    push_decimal_u64(&mut r, c.intake as u64);
    push_str(&mut r, " · Assessment ");
    push_decimal_u64(&mut r, c.assessment as u64);
    push_str(&mut r, " · Placement ");
    push_decimal_u64(&mut r, c.placement as u64);
    push_str(&mut r, " · Follow-up ");
    push_decimal_u64(&mut r, c.follow_up as u64);
    push_str(&mut r, " · Exited ");
    push_decimal_u64(&mut r, c.exited as u64);
    r
}

/// The inventory's status summary.
pub fn resource_summary(c: &ResourceStatusCounts) -> (r: String)
    ensures
        r@ == "Available "@ + decimal(c.available as int) + " · Held "@ + decimal(c.held as int)
            + " · Occupied "@ + decimal(c.occupied as int) + " · Offline "@ + decimal(
            c.offline as int,
        ),
{
    let mut r = owned("Available ");
    push_decimal_u64(&mut r, c.available as u64);
    push_str(&mut r, " · Held ");
    push_decimal_u64(&mut r, c.held as u64);
    push_str(&mut r, " · Occupied ");
    push_decimal_u64(&mut r, c.occupied as u64);
    push_str(&mut r, " · Offline ");
    push_decimal_u64(&mut r, c.offline as u64);
    r
}

/// The placement board's status summary.
pub fn placement_summary(c: &PlacementStatusCounts) -> (r: String)
    ensures
        r@ == "Proposed "@ + decimal(c.proposed as int) + " · Confirmed "@ + decimal(
            c.confirmed as int,
        ) + " · Moved in "@ + decimal(c.moved_in as int) + " · Exited "@ + decimal(
            c.exited as int,
        ) + " · Cancelled "@ + decimal(c.cancelled as int),
{
    let mut r = owned("Proposed ");
    push_decimal_u64(&mut r, c.proposed as u64);
    push_str(&mut r, " · Confirmed ");
    push_decimal_u64(&mut r, c.confirmed as u64);
    push_str(&mut r, " · Moved in ");
    push_decimal_u64(&mut r, c.moved_in as u64);
    push_str(&mut r, " · Exited ");
    push_decimal_u64(&mut r, c.exited as u64);
    push_str(&mut r, " · Cancelled ");
    push_decimal_u64(&mut r, c.cancelled as u64);
    r
}

/// The class of an editable table row: saving, edited, or neither.
pub fn row_class(pending: bool, dirty: bool) -> (c: &'static str)
    ensures
        pending ==> c@ == "row--pending"@,
        !pending && dirty ==> c@ == "row--dirty"@,
        !pending && !dirty ==> c@ == ""@,
{
    if pending {
        "row--pending"
    } else if dirty {
        "row--dirty"
    } else {
        ""
    }
}

/// The household picker's option label: `"#{id} · {name} (size {size})"`.
pub fn household_option_label(id: i64, head_name: &str, household_size: i64) -> (r: String)
    ensures
        r@ == "#"@ + decimal(id as int) + " · "@ + head_name@ + " (size "@ + decimal(
            household_size as int,
        ) + ")"@,
{
    let mut r = owned("#");
    push_decimal(&mut r, id);
    push_str(&mut r, " · ");
    push_str(&mut r, head_name);
    push_str(&mut r, " (size ");
    push_decimal(&mut r, household_size);
    push_str(&mut r, ")");
    r
}

/// The resource picker's option label: `"#{id} · {label} [{Status}]"`.
pub fn resource_option_label(id: i64, label: &str, status: &str) -> (r: String)
    ensures
        r@ == "#"@ + decimal(id as int) + " · "@ + label@ + " ["@ + capitalized(
            underscores_to_spaces(status@),
        ) + "]"@,
        status@.len() > 0 && crate::text::is_ascii_char(status@[0]) ==> r@ == "#"@ + decimal(
            id as int,
        ) + " · "@ + label@ + " ["@ + ascii_capitalized(underscores_to_spaces(status@)) + "]"@,
{
    let mut r = owned("#");
    push_decimal(&mut r, id);
    push_str(&mut r, " · ");
    push_str(&mut r, label);
    push_str(&mut r, " [");
    let h = humanize(status);
    push_str(&mut r, h.as_str());
    push_str(&mut r, "]");
    r
}

/// A timestamp cell: the time, or a dash when there is none.
pub fn time_or_dash(t: &Option<String>) -> (r: String)
    ensures
        r@ == match t.deep_view() {
            Some(s) => s,
            None => "—"@,
        },
{
    match t {
        Some(s) => s.clone(),
        None => owned("—"),
    }
}

/// The path of a household's case page.
pub fn case_path(token: &str) -> (r: String)
    ensures
        r@ == "/case/"@ + token@,
{
    let mut r = owned("/case/");
    push_str(&mut r, token);
    r
}

/// The full case-page address under `origin`, which the copy button puts
/// on the clipboard.
pub fn case_url(origin: &str, token: &str) -> (r: String)
    ensures
        r@ == origin@ + "/case/"@ + token@,
{
    let mut r = owned(origin);
    push_str(&mut r, "/case/");
    push_str(&mut r, token);
    r
}

/// The short form of a share token shown in the roster: its first eight
/// characters.
pub fn short_token(token: &str) -> (r: String)
    ensures
        r@ == if token@.len() <= 8 { token@ } else { token@.take(8) },
{
    let cs = chars_of(token);
    let n = if cs.len() < 8 { cs.len() } else { 8 };
    let r = string_from_range(&cs, 0, n);
    assert(cs@.subrange(0, n as int) =~= if token@.len() <= 8 { token@ } else { token@.take(8) });
    r
}

/// The sitrep control's status line: when active, since when; when not,
/// "inactive"; then the last change and who made it, joined by `" · "`.
pub fn sitrep_status_line(
    was_active: bool,
    started_at: &Option<String>,
    updated_at: &str,
    updated_by: &Option<String>,
) -> (r: String)
    ensures
        r@ == (if was_active {
            match started_at.deep_view() {
                Some(s) => "active since "@ + s + " · "@,
                None => ""@,
            }
        } else {
            "inactive · "@
        }) + "last change "@ + updated_at@ + match updated_by.deep_view() {
            Some(b) => " · by "@ + b,
            None => ""@,
        },
{
    let mut r = String::new();
    if was_active {
        match started_at {
            Some(s) => {
                push_str(&mut r, "active since ");
                push_str(&mut r, s.as_str());
                push_str(&mut r, " · ");
            },
            None => {},
        }
    } else {
        push_str(&mut r, "inactive · ");
    }
    push_str(&mut r, "last change ");
    push_str(&mut r, updated_at);
    match updated_by {
        Some(b) => {
            push_str(&mut r, " · by ");
            push_str(&mut r, b.as_str());
        },
        None => {},
    }
    proof {
        reveal_strlit("");
    }
    assert(r@ =~= (if was_active {
        match started_at.deep_view() {
            Some(s) => "active since "@ + s + " · "@,
            None => ""@,
        }
    } else {
        "inactive · "@
    }) + "last change "@ + updated_at@ + match updated_by.deep_view() {
        Some(b) => " · by "@ + b,
        None => ""@,
    });
    r
}

proof fn lemma_filter_step<A>(s: Seq<A>, i: int, keep: spec_fn(A) -> bool)
    requires
        0 <= i < s.len(),
    ensures
        s.take(i + 1).filter(keep) == if keep(s[i]) {
            s.take(i).filter(keep).push(s[i])
        } else {
            s.take(i).filter(keep)
        },
{
    reveal(Seq::filter);
    assert(s.take(i + 1).drop_last() =~= s.take(i));
    assert(s.take(i + 1).last() == s[i]);
}

/// The team board shows only system notes.
pub fn system_notes(notes: Vec<crate::model::ActivityNote>) -> (r: Vec<crate::model::ActivityNote>)
    ensures
        r@ == notes@.filter(|n: crate::model::ActivityNote| n.entity_type@ == "system"@),
{
    let ghost all = notes@;
    let ghost keep = |n: crate::model::ActivityNote| n.entity_type@ == "system"@;
    let mut r: Vec<crate::model::ActivityNote> = Vec::new();
    assert(all.take(0).filter(keep) =~= Seq::<crate::model::ActivityNote>::empty()) by {
        reveal(Seq::filter);
    }
    for note in it: notes
        invariant
            all == it.seq(),
            keep == (|n: crate::model::ActivityNote| n.entity_type@ == "system"@),
            r@ == all.take(it.index() as int).filter(keep),
    {
        let ghost i = it.index();
        proof {
            lemma_filter_step(all, i as int, keep);
        }
        assert(note == all[i as int]);
        let is_system = str_eq(note.entity_type.as_str(), "system");
        assert(is_system == keep(all[i as int]));
        if is_system {
            r.push(note);
        }
        assert(r@ == all.take(i + 1).filter(keep));
    }
    assert(all.take(all.len() as int) =~= all);
    r
}

} // verus!
