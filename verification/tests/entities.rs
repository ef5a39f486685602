use wichita_housing_logistics::activity::{self, list_limit, prepare_note, NoteRow};
use wichita_housing_logistics::error::AppError;
use wichita_housing_logistics::households::{
    self, assemble_case_view, found_household, normalize_share_token, prepare_household,
    prepare_household_update, prepare_stage_update, require_case_active, CaseHouseholdRow,
    CasePlacementRow, CaseUpdateRow, HouseholdRow, ALLOWED_STAGES,
};
use wichita_housing_logistics::placements::{
    prepare_placement, prepare_status_update as placement_status, Stamp,
};
use wichita_housing_logistics::resources::{
    prepare_resource, prepare_status_update as resource_status, ALLOWED_KINDS,
};
use wichita_housing_logistics::sitrep::{self, prepare_sitrep, require_sitrep, SitrepRow, SitrepStart};
use wichita_housing_logistics::todos::{
    ensure_row_changed, found_todo, map_todo, normalize_title, todo_id_arg, todos_response, TodoRow,
};

fn client_msg(e: &AppError) -> String {
    match e {
        AppError::Client(m) => m.clone(),
        AppError::Internal { context, source } => format!("internal {context}: {source}"),
    }
}

fn some(s: &str) -> Option<String> {
    Some(s.to_string())
}

#[test]
fn household_intake_is_validated_in_form_order() {
    let h = prepare_household(" Ada Smith ", 3, &some(" 316 "), &some(""), &None).unwrap();
    assert_eq!(h.head_name, "Ada Smith");
    assert_eq!(h.household_size, 3);
    assert_eq!(h.phone, some("316"));
    assert_eq!(h.email, None);
    assert_eq!(h.intake_notes, None);

    let e = prepare_household("  ", 0, &None, &None, &None).err().unwrap();
    assert_eq!(client_msg(&e), "Head of household name is required.");
    let e = prepare_household("Ada", 33, &None, &None, &None).err().unwrap();
    assert_eq!(client_msg(&e), "Household size must be between 1 and 32.");
    let e = prepare_household("Ada", 0, &None, &None, &None).err().unwrap();
    assert_eq!(client_msg(&e), "Household size must be between 1 and 32.");
    let long_phone = "5".repeat(41);
    let e = prepare_household("Ada", 2, &Some(long_phone), &None, &None).err().unwrap();
    assert_eq!(client_msg(&e), "Phone is capped at 40 characters.");
    let long_name = "n".repeat(121);
    let e = prepare_household(&long_name, 2, &None, &None, &None).err().unwrap();
    assert_eq!(client_msg(&e), "Head of household name is capped at 120 characters.");
    let long_notes = "x".repeat(1001);
    let e = prepare_household("Ada", 2, &None, &None, &Some(long_notes)).err().unwrap();
    assert_eq!(client_msg(&e), "Intake notes is capped at 1000 characters.");
}

#[test]
fn stage_changes_need_a_known_stage_and_a_small_id() {
    assert_eq!(prepare_stage_update(5, " follow_up ").unwrap(), ("follow_up".to_string(), 5));
    let e = prepare_stage_update(5, "housed").err().unwrap();
    assert_eq!(
        client_msg(&e),
        "Stage must be one of: intake, assessment, placement, follow_up, exited"
    );
    let e = prepare_stage_update(1 << 40, "exited").err().unwrap();
    assert_eq!(client_msg(&e), "Record id is out of range.");
    assert_eq!(ALLOWED_STAGES.len(), 5);
}

fn household_row(id: i64) -> HouseholdRow {
    HouseholdRow {
        id,
        head_name: "Ada".to_string(),
        household_size: 2,
        phone: None,
        email: some("a@example.org"),
        stage: "intake".to_string(),
        intake_notes: None,
        share_token: some("0123456789abcdef01234567"),
        created_at: "2026-04-18 13:00 UTC".to_string(),
        updated_at: "2026-04-18 13:05 UTC".to_string(),
    }
}

#[test]
fn rows_map_field_for_field() {
    let h = households::map(household_row(8));
    assert_eq!(h.id, 8);
    assert_eq!(h.email, some("a@example.org"));
    assert_eq!(h.updated_at, "2026-04-18 13:05 UTC");
    let h = found_household(Some(household_row(9)), 9).unwrap();
    assert_eq!(h.id, 9);
    let e = found_household(None, 9).err().unwrap();
    assert_eq!(client_msg(&e), "Household 9 was not found.");
}

#[test]
fn share_tokens_are_trimmed_lowercased_hex() {
    assert_eq!(
        normalize_share_token("  0123456789ABCDEF01234567 ").unwrap(),
        "0123456789abcdef01234567"
    );
    for bad in ["abc", "zzzzzzzzzzzz", "", &"a".repeat(65), "ééééé"] {
        let e = normalize_share_token(bad).err().unwrap();
        assert_eq!(client_msg(&e), "Invalid case link.");
    }
    assert_eq!(normalize_share_token(&"f".repeat(64)).unwrap(), "f".repeat(64));
    assert_eq!(normalize_share_token("deadbeef").unwrap(), "deadbeef");
}

#[test]
fn canonical_share_tokens_stay_canonical() {
    let once = normalize_share_token(" DEADBEEF99 ").unwrap();
    assert_eq!(normalize_share_token(&once).unwrap(), once);
}

#[test]
fn case_view_shows_the_five_newest_updates() {
    let hh = vec![CaseHouseholdRow {
        head_name: "Ada".to_string(),
        household_size: 1,
        stage: "placement".to_string(),
        intake_notes: some("needs ground floor"),
        updated_at: "2026-04-18 13:00 UTC".to_string(),
    }];
    let placements = vec![CasePlacementRow {
        resource_label: "Harry St Shelter — Bed 12".to_string(),
        status: "confirmed".to_string(),
        started_at: None,
    }];
    let updates: Vec<CaseUpdateRow> = (0..7)
        .map(|i| CaseUpdateRow {
            body: format!("update {i}"),
            author: if i % 2 == 0 { "household".to_string() } else { "kim".to_string() },
            created_at: format!("t{i}"),
        })
        .collect();
    let v = assemble_case_view(&hh, &placements, &updates).unwrap();
    assert_eq!(v.head_name, "Ada");
    assert_eq!(v.stage, "placement");
    assert_eq!(v.current_placement.as_ref().unwrap().status, "confirmed");
    assert_eq!(v.recent_updates.len(), 5);
    assert_eq!(v.recent_updates[0].body, "update 0");
    assert!(v.recent_updates[0].author_is_household);
    assert!(!v.recent_updates[1].author_is_household);

    let v = assemble_case_view(&hh, &vec![], &vec![]).unwrap();
    assert!(v.current_placement.is_none());
    assert!(v.recent_updates.is_empty());

    let e = assemble_case_view(&vec![], &placements, &updates).err().unwrap();
    assert_eq!(client_msg(&e), "This case link isn't active.");
}

#[test]
fn household_updates_need_a_token_and_words() {
    let (t, b) = prepare_household_update("ABCDEF0123", "  new phone 555  ").unwrap();
    assert_eq!(t, "abcdef0123");
    assert_eq!(b, "new phone 555");
    let e = prepare_household_update("nope", "hi").err().unwrap();
    assert_eq!(client_msg(&e), "Invalid case link.");
    let e = prepare_household_update("abcdef0123", "  ").err().unwrap();
    assert_eq!(client_msg(&e), "Your update is required.");
    assert!(require_case_active(1).is_ok());
    let e = require_case_active(0).err().unwrap();
    assert_eq!(client_msg(&e), "This case link isn't active.");
}

#[test]
fn resources_are_validated_in_form_order() {
    let r = prepare_resource(" Bed 12 ", " shelter_bed ", &some(" 1 Main "), 4, &None).unwrap();
    assert_eq!(r.label, "Bed 12");
    assert_eq!(r.kind, "shelter_bed");
    assert_eq!(r.address, some("1 Main"));
    assert_eq!(r.capacity, 4);
    let e = prepare_resource("", "shelter_bed", &None, 4, &None).err().unwrap();
    assert_eq!(client_msg(&e), "Resource label is required.");
    let e = prepare_resource("Bed", "tent", &None, 4, &None).err().unwrap();
    assert_eq!(
        client_msg(&e),
        "Kind must be one of: shelter_bed, transitional, permanent_supportive, rental_unit, other"
    );
    let e = prepare_resource("Bed", "other", &None, 1001, &None).err().unwrap();
    assert_eq!(client_msg(&e), "Capacity must be between 1 and 1000.");
    let e = prepare_resource("Bed", "other", &Some("a".repeat(241)), 0, &None).err().unwrap();
    assert_eq!(client_msg(&e), "Address is capped at 240 characters.");
    assert_eq!(ALLOWED_KINDS.len(), 5);
}

#[test]
fn resource_status_changes() {
    assert_eq!(resource_status(2, "held").unwrap(), ("held".to_string(), 2));
    let e = resource_status(2, "lost").err().unwrap();
    assert_eq!(client_msg(&e), "Status must be one of: available, held, occupied, offline");
}

#[test]
fn placements_need_small_ids() {
    let p = prepare_placement(1, 2, &some(" target May 1 ")).unwrap();
    assert_eq!((p.household_id, p.resource_id), (1, 2));
    assert_eq!(p.notes, some("target May 1"));
    let e = prepare_placement(1 << 33, 2, &None).err().unwrap();
    assert_eq!(client_msg(&e), "Record id is out of range.");
    let e = prepare_placement(1, 1 << 33, &None).err().unwrap();
    assert_eq!(client_msg(&e), "Record id is out of range.");
}

#[test]
fn placement_transitions_stamp_lifecycle_times() {
    let c = placement_status(3, "moved_in").unwrap();
    assert_eq!((c.started, c.ended), (Stamp::SetIfUnset, Stamp::Keep));
    let c = placement_status(3, " exited ").unwrap();
    assert_eq!(c.status, "exited");
    assert_eq!((c.started, c.ended), (Stamp::Keep, Stamp::SetIfUnset));
    let c = placement_status(3, "cancelled").unwrap();
    assert_eq!((c.started, c.ended), (Stamp::Keep, Stamp::SetIfUnset));
    let c = placement_status(3, "confirmed").unwrap();
    assert_eq!((c.started, c.ended), (Stamp::Keep, Stamp::Keep));
    let e = placement_status(3, "done").err().unwrap();
    assert_eq!(
        client_msg(&e),
        "Status must be one of: proposed, confirmed, moved_in, exited, cancelled"
    );
}

#[test]
fn notes_need_an_entity_unless_about_the_system() {
    let n = prepare_note(" system ", None, " kim ", " shift change ").unwrap();
    assert_eq!(n.entity_type, "system");
    assert_eq!(n.entity_id, None);
    assert_eq!(n.author, "kim");
    assert_eq!(n.body, "shift change");
    let n = prepare_note("household", Some(4), "kim", "called").unwrap();
    assert_eq!(n.entity_id, Some(4));
    let e = prepare_note("household", None, "kim", "called").err().unwrap();
    assert_eq!(client_msg(&e), "Entity id is required unless entity type is 'system'.");
    let e = prepare_note("tenant", Some(4), "kim", "called").err().unwrap();
    assert_eq!(
        client_msg(&e),
        "Entity type must be one of: household, resource, placement, system"
    );
    let e = prepare_note("system", None, "", "called").err().unwrap();
    assert_eq!(client_msg(&e), "Author is required.");
    let e = prepare_note("system", None, "kim", " ").err().unwrap();
    assert_eq!(client_msg(&e), "Body is required.");
    let e = prepare_note("resource", Some(1 << 40), "kim", "x").err().unwrap();
    assert_eq!(client_msg(&e), "Record id is out of range.");
}

#[test]
fn activity_limits_are_clamped() {
    assert_eq!(list_limit(-3), 1);
    assert_eq!(list_limit(0), 1);
    assert_eq!(list_limit(50), 50);
    assert_eq!(list_limit(100_000), 500);
}

#[test]
fn notes_read_back() {
    let row = NoteRow {
        id: 1,
        entity_type: "system".to_string(),
        entity_id: None,
        author: "kim".to_string(),
        body: "hello".to_string(),
        created_at: "now".to_string(),
    };
    let n = activity::map(row);
    assert_eq!(n.body, "hello");
    let e = activity::found_note(None).err().unwrap();
    assert_eq!(client_msg(&e), "Activity note was not found after insert.");
}

#[test]
fn sitrep_changes() {
    let c = prepare_sitrep(true, "  Red Cross activation  ", " red ", " kim ").unwrap();
    assert_eq!(c.active, 1);
    assert_eq!(c.summary, "Red Cross activation");
    assert_eq!(c.level, "red");
    assert_eq!(c.updated_by, some("kim"));
    assert_eq!(c.started, SitrepStart::SetIfUnset);
    let c = prepare_sitrep(false, "", "warn", "").unwrap();
    assert_eq!(c.active, 0);
    assert_eq!(c.updated_by, None);
    assert_eq!(c.started, SitrepStart::Clear);
    let e = prepare_sitrep(true, "   ", "warn", "").err().unwrap();
    assert_eq!(client_msg(&e), "An active sitrep needs a summary — narrate what's happening.");
    let e = prepare_sitrep(false, &"s".repeat(241), "warn", "").err().unwrap();
    assert_eq!(
        client_msg(&e),
        "Summary is capped at 240 characters — the banner is a tease, not a memo."
    );
    let e = prepare_sitrep(false, "", "amber", "").err().unwrap();
    assert_eq!(client_msg(&e), "Level must be one of: warn, red");
    let e = prepare_sitrep(false, "", "red", &"k".repeat(81)).err().unwrap();
    assert_eq!(client_msg(&e), "Updated by is capped at 80 characters.");
}

#[test]
fn sitrep_rows() {
    let row = SitrepRow {
        active: 2,
        summary: "x".to_string(),
        level: "warn".to_string(),
        started_at: None,
        updated_at: "t".to_string(),
        updated_by: None,
    };
    assert!(sitrep::map(row).active);
    let e = require_sitrep(None).err().unwrap();
    assert_eq!(client_msg(&e), "internal sitrep row 1 missing: table not seeded");
}

#[test]
fn todo_titles() {
    assert_eq!(normalize_title("  ship it ".to_string()).unwrap(), "ship it");
    let e = normalize_title("  ".to_string()).err().unwrap();
    assert_eq!(client_msg(&e), "Todo titles cannot be empty.");
    let e = normalize_title("é".repeat(61)).err().unwrap();
    assert_eq!(client_msg(&e), "Todo titles are capped at 120 characters.");
    assert!(normalize_title("é".repeat(60)).is_ok());
}

#[test]
fn todo_rows_and_totals() {
    let t = map_todo(TodoRow { id: 1, title: "a".to_string(), completed: 1, created_at: "t".to_string() });
    assert!(t.completed);
    let u = map_todo(TodoRow { id: 2, title: "b".to_string(), completed: 0, created_at: "t".to_string() });
    let r = todos_response(vec![t, u.clone(), u]);
    assert_eq!((r.stats.total, r.stats.open, r.stats.completed), (3, 2, 1));
    assert_eq!(r.stats.open + r.stats.completed, r.stats.total);
    assert_eq!(todo_id_arg(5).unwrap(), 5);
    let e = todo_id_arg(i64::MAX).err().unwrap();
    assert_eq!(client_msg(&e), "Todo id is out of range.");
    let e = ensure_row_changed(0, "toggle").err().unwrap();
    assert_eq!(client_msg(&e), "Todo toggle target was not found.");
    assert!(ensure_row_changed(1, "delete").is_ok());
    let e = found_todo(None, 12).err().unwrap();
    assert_eq!(client_msg(&e), "Todo 12 was not found.");
}

#[test]
fn a_saved_sitrep_reads_back() {
    let c = prepare_sitrep(true, "  Open Door offline  ", " warn ", " kim ").unwrap();
    // The row as storage holds it after the update over an event that
    // started earlier: the earlier start is kept.
    let row = SitrepRow {
        active: i64::from(c.active),
        summary: c.summary.clone(),
        level: c.level.clone(),
        started_at: Some("2026-04-18 06:10 UTC".to_string()),
        updated_at: "2026-04-18 13:00 UTC".to_string(),
        updated_by: c.updated_by.clone(),
    };
    let s = require_sitrep(Some(row)).unwrap();
    assert!(s.active);
    assert_eq!(s.summary, "Open Door offline");
    assert_eq!(s.level, "warn");
    assert_eq!(s.updated_by, some("kim"));
    assert_eq!(s.started_at, some("2026-04-18 06:10 UTC"));

    let c = prepare_sitrep(false, "", "red", "").unwrap();
    let row = SitrepRow {
        active: i64::from(c.active),
        summary: c.summary.clone(),
        level: c.level.clone(),
        started_at: None,
        updated_at: "2026-04-19 09:00 UTC".to_string(),
        updated_by: c.updated_by.clone(),
    };
    let s = require_sitrep(Some(row)).unwrap();
    assert!(!s.active);
    assert_eq!(s.summary, "");
    assert_eq!(s.started_at, None);
    assert_eq!(s.updated_by, None);
}
