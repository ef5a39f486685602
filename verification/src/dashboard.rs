//! The operations dashboard: pipeline counters and the latest activity.
use vstd::prelude::*;
use crate::activity::NoteRow;
use crate::counts::{
    placement_counts_of, placement_status_counts, resource_counts_of, resource_status_counts,
    saturated_total, saturating_total, stage_counts, stage_counts_of,
};
use crate::model::{ActivityNote, DashboardSnapshot, GroupCountRow};

verus! {

/// `n` is the note `row` describes.
pub open spec fn note_of(n: ActivityNote, row: NoteRow) -> bool {
    &&& n.id == row.id
    &&& n.entity_type == row.entity_type
    &&& n.entity_id == row.entity_id
    &&& n.author == row.author
    &&& n.body == row.body
    &&& n.created_at == row.created_at
}

/// The notes the rows describe, in order.
pub fn map_notes(rows: Vec<NoteRow>) -> (notes: Vec<ActivityNote>)
    ensures
        notes@.len() == rows@.len(),
        forall|i: int| 0 <= i < rows@.len() ==> note_of(#[trigger] notes@[i], rows@[i]),
{
    let ghost all = rows@;
    let mut notes: Vec<ActivityNote> = Vec::new();
    for row in it: rows
        invariant
            all == it.seq(),
            notes@.len() == it.index(),
            forall|i: int| 0 <= i < it.index() ==> note_of(#[trigger] notes@[i], all[i]),
    {
        notes.push(crate::activity::map(row));
    }
    notes
}

/// Builds the dashboard from the three grouped counts (household stages,
/// resource statuses, placement statuses) and the newest notes. Each
/// total sums every group, known or not, and stops at `u32::MAX`.
pub fn snapshot(
    household_rows: &Vec<GroupCountRow>,
    resource_rows: &Vec<GroupCountRow>,
    placement_rows: &Vec<GroupCountRow>,
    activity_rows: Vec<NoteRow>,
) -> (s: DashboardSnapshot)
    ensures
        s.households == stage_counts_of(household_rows@),
        s.household_total == saturated_total(household_rows@),
        s.resources == resource_counts_of(resource_rows@),
        s.resource_total == saturated_total(resource_rows@),
        s.placements == placement_counts_of(placement_rows@),
        s.placement_total == saturated_total(placement_rows@),
        s.recent_activity@.len() == activity_rows@.len(),
        forall|i: int|
            0 <= i < activity_rows@.len() ==> note_of(
                #[trigger] s.recent_activity@[i],
                activity_rows@[i],
            ),
{
    DashboardSnapshot {
        households: stage_counts(household_rows),
        household_total: saturating_total(household_rows),
        resources: resource_status_counts(resource_rows),
        resource_total: saturating_total(resource_rows),
        placements: placement_status_counts(placement_rows),
        placement_total: saturating_total(placement_rows),
        recent_activity: map_notes(activity_rows),
    }
}

} // verus!
