use wichita_housing_logistics::activity::NoteRow;
use wichita_housing_logistics::counts::{
    placement_status_counts, resource_status_counts, saturating_total, stage_counts,
};
use wichita_housing_logistics::dashboard::snapshot;
use wichita_housing_logistics::households::{households_response, HouseholdRow};
use wichita_housing_logistics::model::{GroupCountRow, StageCounts};
use wichita_housing_logistics::placements::{placements_response, PlacementRow};
use wichita_housing_logistics::resources::{resources_response, ResourceRow};

fn row(key: &str, n: u32) -> GroupCountRow {
    GroupCountRow { key: key.to_string(), n }
}

#[test]
fn stage_counts_pick_each_known_stage() {
    let rows = vec![row("intake", 4), row("exited", 1), row("follow_up", 2), row("mystery", 9)];
    assert_eq!(
        stage_counts(&rows),
        StageCounts { intake: 4, assessment: 0, placement: 0, follow_up: 2, exited: 1 }
    );
    assert_eq!(stage_counts(&vec![]), StageCounts::default());
}

#[test]
fn a_repeated_key_keeps_its_last_count() {
    let rows = vec![row("held", 1), row("held", 5)];
    assert_eq!(resource_status_counts(&rows).held, 5);
}

#[test]
fn totals_saturate() {
    assert_eq!(saturating_total(&vec![row("a", 3), row("b", 4)]), 7);
    assert_eq!(saturating_total(&vec![row("a", u32::MAX), row("b", 4)]), u32::MAX);
    assert_eq!(saturating_total(&vec![]), 0);
}

#[test]
fn dashboard_totals_add_up_over_known_distinct_keys() {
    let hh = vec![row("intake", 3), row("assessment", 2), row("placement", 1), row("follow_up", 5), row("exited", 4)];
    let res = vec![row("available", 7), row("held", 1), row("occupied", 2), row("offline", 0)];
    let pl = vec![row("proposed", 1), row("moved_in", 2), row("cancelled", 3)];
    let notes = vec![NoteRow {
        id: 10,
        entity_type: "placement".to_string(),
        entity_id: Some(3),
        author: "kim".to_string(),
        body: "moved in".to_string(),
        created_at: "now".to_string(),
    }];
    let s = snapshot(&hh, &res, &pl, notes);
    let h = s.households;
    assert_eq!(s.household_total, h.intake + h.assessment + h.placement + h.follow_up + h.exited);
    assert_eq!(s.household_total, 15);
    let r = s.resources;
    assert_eq!(s.resource_total, r.available + r.held + r.occupied + r.offline);
    let p = s.placements;
    assert_eq!(s.placement_total, p.proposed + p.confirmed + p.moved_in + p.exited + p.cancelled);
    assert_eq!(s.placement_total, 6);
    assert_eq!(s.recent_activity.len(), 1);
    assert_eq!(s.recent_activity[0].id, 10);
    assert_eq!(placement_status_counts(&pl).moved_in, 2);
}

#[test]
fn unknown_groups_count_toward_the_total_only() {
    let s = snapshot(&vec![row("intake", 1), row("legacy", 6)], &vec![], &vec![], vec![]);
    assert_eq!(s.households.intake, 1);
    assert_eq!(s.household_total, 7);
}

fn placement_row(id: i64, status: &str) -> PlacementRow {
    PlacementRow {
        id,
        household_id: 1,
        resource_id: 2,
        head_name: "Ada".to_string(),
        resource_label: "Bed".to_string(),
        status: status.to_string(),
        started_at: None,
        ended_at: None,
        notes: None,
        created_at: "c".to_string(),
        updated_at: "u".to_string(),
    }
}

#[test]
fn placement_board_counts_each_status() {
    let r = placements_response(vec![
        placement_row(1, "proposed"),
        placement_row(2, "proposed"),
        placement_row(3, "exited"),
        placement_row(4, "archived"),
    ]);
    assert_eq!(r.items.len(), 4);
    assert_eq!(r.items[2].id, 3);
    assert_eq!((r.counts.proposed, r.counts.exited, r.counts.confirmed), (2, 1, 0));
}

#[test]
fn roster_and_inventory_payloads() {
    let h = HouseholdRow {
        id: 1,
        head_name: "Ada".to_string(),
        household_size: 2,
        phone: None,
        email: None,
        stage: "intake".to_string(),
        intake_notes: None,
        share_token: None,
        created_at: "c".to_string(),
        updated_at: "u".to_string(),
    };
    let r = households_response(vec![h], &vec![row("intake", 1)]);
    assert_eq!(r.items[0].head_name, "Ada");
    assert_eq!(r.counts.intake, 1);
    let res = ResourceRow {
        id: 2,
        label: "Bed 1".to_string(),
        kind: "shelter_bed".to_string(),
        address: None,
        capacity: 1,
        status: "available".to_string(),
        notes: None,
        created_at: "c".to_string(),
        updated_at: "u".to_string(),
    };
    let r = resources_response(vec![res], &vec![row("available", 1)]);
    assert_eq!(r.items[0].label, "Bed 1");
    assert_eq!(r.counts.available, 1);
}
