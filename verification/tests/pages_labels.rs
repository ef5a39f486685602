use wichita_housing_logistics::labels::{
    entity_pill_class, humanize, humanize_status, placement_headline, plain_language, pluralize,
    sitrep_bar_class, stage_timeline, status_pill_class, step_class, step_marker, update_author,
    yes_no_pill, StepState,
};
use wichita_housing_logistics::model::{ActivityNote, PlacementStatusCounts, ResourceStatusCounts, StageCounts};
use wichita_housing_logistics::pages::{
    board_post, case_message, case_path, case_token_present, case_url, contact_line,
    household_form_name, household_option_label, note_form, placement_form, placement_summary,
    resource_form_label, resource_option_label, resource_summary, row_class, short_token,
    sitrep_form_summary, sitrep_status_line, stage_summary, system_notes, time_or_dash,
    todo_form_title, todo_submit_disabled,
};
use wichita_housing_logistics::web::{
    asset_href, cache_control, feedback_href, operator_to_save, remembered_operator,
    security_headers,
};

#[test]
fn humanize_is_sentence_case() {
    assert_eq!(humanize("moved_in"), "Moved in");
    assert_eq!(humanize("follow_up"), "Follow up");
    assert_eq!(humanize("system"), "System");
    assert_eq!(humanize("permanent_supportive"), "Permanent supportive");
    assert_eq!(humanize(""), "");
    assert_eq!(humanize("_x"), " x");
    assert_eq!(humanize("ßig"), "SSig");
}

#[test]
fn pill_classes() {
    assert_eq!(status_pill_class("held"), "pill pill--held");
    assert_eq!(entity_pill_class("placement"), "pill pill--placement-entity");
    assert_eq!(entity_pill_class("household"), "pill pill--household");
    assert_eq!(sitrep_bar_class("red"), "sitrep sitrep--red");
    assert_eq!(sitrep_bar_class("warn"), "sitrep");
    assert_eq!(yes_no_pill(true), ("pill pill--available", "Yes"));
    assert_eq!(yes_no_pill(false), ("pill pill--exited", "No"));
}

#[test]
fn case_page_copy() {
    assert_eq!(humanize_status("moved_in"), "Moved in");
    assert_eq!(humanize_status("follow_up"), "Follow_up");
    assert_eq!(humanize_status("confirmed"), "Confirmed");
    assert_eq!(pluralize(1), "1 person");
    assert_eq!(pluralize(4), "4 people");
    assert_eq!(pluralize(0), "0 people");
    assert_eq!(plain_language("placement").headline, "We're placing you.");
    assert_eq!(plain_language("unknown").headline, "Your case is active.");
    assert_eq!(placement_headline("moved_in"), "You're moved in.");
    assert_eq!(placement_headline("weird"), "Your current placement");
    assert_eq!(update_author(true), ("you", "case-update case-update--self"));
    assert_eq!(update_author(false), ("case team", "case-update"));
}

#[test]
fn timeline_marks_progress() {
    let steps = stage_timeline("placement");
    let states: Vec<StepState> = steps.iter().map(|s| s.state).collect();
    assert_eq!(states, vec![StepState::Past, StepState::Past, StepState::Current, StepState::Future]);
    assert_eq!(steps[3].label, "Follow-up");
    let exited = stage_timeline("exited");
    assert!(exited.iter().all(|s| s.state == StepState::Past));
    let unknown = stage_timeline("somewhere");
    assert!(unknown.iter().all(|s| s.state == StepState::Past));
    let first = stage_timeline("intake");
    assert_eq!(first[0].state, StepState::Current);
    assert_eq!(step_class(StepState::Current), "case-step case-step--current");
    assert_eq!(step_marker(StepState::Past), "✓");
    assert_eq!(step_marker(StepState::Future), "");
}

#[test]
fn note_form_checks() {
    let d = note_form("household", " 12 ", " kim ", " called back ").unwrap();
    assert_eq!(d.entity_id, Some(12));
    assert_eq!(d.author, "kim");
    let d = note_form("system", "junk", "kim", "hi").unwrap();
    assert_eq!(d.entity_id, None);
    assert_eq!(note_form("resource", "0", "kim", "hi").err().unwrap(), "Entity id required for resource.");
    assert_eq!(note_form("resource", "x", "kim", "hi").err().unwrap(), "Entity id required for resource.");
    assert_eq!(note_form("resource", "3", "", "hi").err().unwrap(), "Author and body are required.");
}

#[test]
fn form_checks() {
    let d = board_post(" kim ", " shelter full ").unwrap();
    assert_eq!((d.entity_type.as_str(), d.entity_id), ("system", None));
    assert_eq!(board_post("kim", " ").err().unwrap(), "Name and message are required.");
    assert_eq!(household_form_name(" ").err().unwrap(), "Head of household name is required.");
    assert_eq!(household_form_name(" Ada ").unwrap(), "Ada");
    assert_eq!(resource_form_label("").err().unwrap(), "Label is required.");
    assert_eq!(case_message("\n").err().unwrap(), "Add a few words before sending.");
    assert_eq!(todo_form_title(" ").err().unwrap(), "Give the todo a short title first.");
    assert!(todo_submit_disabled(false, "  "));
    assert!(todo_submit_disabled(true, "x"));
    assert!(!todo_submit_disabled(false, "x"));
    assert_eq!(placement_form(0, 3).err().unwrap(), "Pick a household and a resource.");
    assert_eq!(placement_form(2, 3).unwrap(), (2, 3));
    assert_eq!(
        sitrep_form_summary(true, "  ").err().unwrap(),
        "Write a one-line summary before activating — the banner needs a message."
    );
    assert_eq!(sitrep_form_summary(false, "  ").unwrap(), "");
    assert_eq!(case_token_present("").err().unwrap(), "This case link isn't active.");
    assert!(case_token_present("abc").is_ok());
}

#[test]
fn record_text() {
    assert_eq!(contact_line(&Some("555".into()), &Some("a@b".into())), "555 · a@b");
    assert_eq!(contact_line(&None, &Some("a@b".into())), "a@b");
    assert_eq!(contact_line(&None, &None), "—");
    assert_eq!(
        stage_summary(&StageCounts { intake: 1, assessment: 2, placement: 3, follow_up: 4, exited: 5 }),
        "Intake 1 · Assessment 2 · Placement 3 · Follow-up 4 · Exited 5"
    );
    assert_eq!(
        resource_summary(&ResourceStatusCounts { available: 2, held: 0, occupied: 1, offline: 0 }),
        "Available 2 · Held 0 · Occupied 1 · Offline 0"
    );
    assert_eq!(
        placement_summary(&PlacementStatusCounts { proposed: 1, confirmed: 0, moved_in: 2, exited: 0, cancelled: 0 }),
        "Proposed 1 · Confirmed 0 · Moved in 2 · Exited 0 · Cancelled 0"
    );
    assert_eq!(row_class(true, true), "row--pending");
    assert_eq!(row_class(false, true), "row--dirty");
    assert_eq!(row_class(false, false), "");
    assert_eq!(household_option_label(3, "Ada", 2), "#3 · Ada (size 2)");
    assert_eq!(resource_option_label(7, "Bed 12", "moved_in"), "#7 · Bed 12 [Moved in]");
    assert_eq!(time_or_dash(&None), "—");
    assert_eq!(time_or_dash(&Some("t".into())), "t");
}

#[test]
fn share_links() {
    assert_eq!(case_path("abc"), "/case/abc");
    assert_eq!(case_url("https://x.dev", "abc"), "https://x.dev/case/abc");
    assert_eq!(short_token("0123456789abcdef"), "01234567");
    assert_eq!(short_token("abc"), "abc");
}

#[test]
fn sitrep_status_lines() {
    assert_eq!(
        sitrep_status_line(true, &Some("06:10".into()), "13:00", &Some("kim".into())),
        "active since 06:10 · last change 13:00 · by kim"
    );
    assert_eq!(sitrep_status_line(false, &None, "13:00", &None), "inactive · last change 13:00");
    assert_eq!(sitrep_status_line(true, &None, "13:00", &None), "last change 13:00");
}

#[test]
fn team_board_keeps_system_notes_in_order() {
    let note = |id: i64, kind: &str| ActivityNote {
        id,
        entity_type: kind.to_string(),
        entity_id: None,
        author: "kim".to_string(),
        body: "b".to_string(),
        created_at: "t".to_string(),
    };
    let kept = system_notes(vec![note(1, "system"), note(2, "household"), note(3, "system")]);
    let ids: Vec<i64> = kept.iter().map(|n| n.id).collect();
    assert_eq!(ids, vec![1, 3]);
}

#[test]
fn worker_decisions() {
    assert_eq!(asset_href("pkg", "app", "css", ""), "/pkg/app.css");
    assert_eq!(asset_href("pkg", "app", "wasm", "ab12"), "/pkg/app.ab12.wasm");
    assert_eq!(
        feedback_href("ops@example.org", "0.4.0", "abc1234"),
        "mailto:ops@example.org?subject=WHL%20feedback%20(v0.4.0%20abc1234)"
    );
    assert_eq!(cache_control(true), "private, no-cache");
    assert_eq!(cache_control(false), "no-store");
    let h = security_headers();
    assert_eq!(h.len(), 6);
    assert_eq!(h[3], ("x-frame-options", "DENY"));
    assert_eq!(operator_to_save("  "), None);
    assert_eq!(operator_to_save(" kim "), Some("kim".to_string()));
    assert_eq!(remembered_operator(Some(String::new())), None);
    assert_eq!(remembered_operator(Some("kim".into())), Some("kim".to_string()));
}

#[test]
fn a_saved_operator_handle_reads_back() {
    let saved = operator_to_save("  case_manager_kim ");
    assert_eq!(saved, Some("case_manager_kim".to_string()));
    assert_eq!(remembered_operator(saved.clone()), saved);
    // A blank handle saves nothing; what was remembered stays.
    assert_eq!(operator_to_save("   "), None);
    assert_eq!(remembered_operator(None), None);
    assert_eq!(remembered_operator(Some(String::new())), None);
}

#[test]
fn ascii_first_letters_are_upper_cased() {
    assert_eq!(humanize("moved_in"), "Moved in");
    assert_eq!(humanize("follow_up"), "Follow up");
    assert_eq!(humanize("system"), "System");
    assert_eq!(humanize(""), "");
    assert_eq!(humanize("_x"), " x");
    assert_eq!(humanize_status("confirmed"), "Confirmed");
    assert_eq!(humanize_status("moved_in"), "Moved in");
    assert_eq!(resource_option_label(3, "Bed 12", "shelter_bed"), "#3 · Bed 12 [Shelter bed]");
}
