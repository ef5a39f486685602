//! The records the server hands to the pages.
use vstd::prelude::*;

verus! {

/// A household moving through intake, assessment, placement, follow-up.
#[derive(Debug, Clone, PartialEq, Eq)]
pub struct Household {
    pub id: i64,
    pub head_name: String,
    pub household_size: i64,
    pub phone: Option<String>,
    pub email: Option<String>,
    /// One of: intake | assessment | placement | follow_up | exited
    pub stage: String,
    pub intake_notes: Option<String>,
    /// Hex token for the household's own `/case/{share_token}` page.
    pub share_token: Option<String>,
    pub created_at: String,
    pub updated_at: String,
}

/// What a household sees of its own case: no audit fields, ids, or other
/// households.
#[derive(Debug, Clone, PartialEq, Eq)]
pub struct CaseView {
    pub head_name: String,
    pub household_size: i64,
    pub stage: String,
    pub intake_notes: Option<String>,
    pub current_placement: Option<CasePlacement>,
    pub recent_updates: Vec<CaseUpdate>,
    pub updated_at: String,
}

#[derive(Debug, Clone, PartialEq, Eq)]
pub struct CasePlacement {
    pub resource_label: String,
    /// proposed | confirmed | moved_in | exited | cancelled
    pub status: String,
    pub started_at: Option<String>,
}

#[derive(Debug, Clone, PartialEq, Eq)]
pub struct CaseUpdate {
    pub body: String,
    /// Whether the household posted this itself from its case page.
    pub author_is_household: bool,
    pub created_at: String,
}

#[derive(Debug, Clone, Copy, Default, PartialEq, Eq)]
pub struct StageCounts {
    pub intake: u32,
    pub assessment: u32,
    pub placement: u32,
    pub follow_up: u32,
    pub exited: u32,
}

#[derive(Debug, Clone, PartialEq, Eq)]
pub struct HouseholdsResponse {
    pub items: Vec<Household>,
    pub counts: StageCounts,
}

/// A placement slot: a shelter bed, a unit, a program seat.
#[derive(Debug, Clone, PartialEq, Eq)]
pub struct HousingResource {
    pub id: i64,
    pub label: String,
    /// One of: shelter_bed | transitional | permanent_supportive | rental_unit | other
    pub kind: String,
    pub address: Option<String>,
    pub capacity: i64,
    /// One of: available | held | occupied | offline
    pub status: String,
    pub notes: Option<String>,
    pub created_at: String,
    pub updated_at: String,
}

#[derive(Debug, Clone, Copy, Default, PartialEq, Eq)]
pub struct ResourceStatusCounts {
    pub available: u32,
    pub held: u32,
    pub occupied: u32,
    pub offline: u32,
}

#[derive(Debug, Clone, PartialEq, Eq)]
pub struct ResourcesResponse {
    pub items: Vec<HousingResource>,
    pub counts: ResourceStatusCounts,
}

/// A household matched to a resource.
#[derive(Debug, Clone, PartialEq, Eq)]
pub struct Placement {
    pub id: i64,
    pub household_id: i64,
    pub resource_id: i64,
    pub head_name: String,
    pub resource_label: String,
    /// One of: proposed | confirmed | moved_in | exited | cancelled
    pub status: String,
    pub started_at: Option<String>,
    pub ended_at: Option<String>,
    pub notes: Option<String>,
    pub created_at: String,
    pub updated_at: String,
}

#[derive(Debug, Clone, Copy, Default, PartialEq, Eq)]
pub struct PlacementStatusCounts {
    pub proposed: u32,
    pub confirmed: u32,
    pub moved_in: u32,
    pub exited: u32,
    pub cancelled: u32,
}

#[derive(Debug, Clone, PartialEq, Eq)]
pub struct PlacementsResponse {
    pub items: Vec<Placement>,
    pub counts: PlacementStatusCounts,
}

/// An entry of the audit trail.
#[derive(Debug, Clone, PartialEq, Eq)]
pub struct ActivityNote {
    pub id: i64,
    /// One of: household | resource | placement | system
    pub entity_type: String,
    pub entity_id: Option<i64>,
    pub author: String,
    pub body: String,
    pub created_at: String,
}

#[derive(Debug, Clone, PartialEq, Eq)]
pub struct DashboardSnapshot {
    pub households: StageCounts,
    pub household_total: u32,
    pub resources: ResourceStatusCounts,
    pub resource_total: u32,
    pub placements: PlacementStatusCounts,
    pub placement_total: u32,
    pub recent_activity: Vec<ActivityNote>,
}

/// The declared stress event shown as a banner on every page.
#[derive(Debug, Clone, PartialEq, Eq)]
pub struct Sitrep {
    pub active: bool,
    pub summary: String,
    /// warn | red
    pub level: String,
    pub started_at: Option<String>,
    pub updated_at: String,
    pub updated_by: Option<String>,
}

#[derive(Debug, Clone, PartialEq, Eq)]
pub struct TodoItem {
    pub id: i64,
    pub title: String,
    pub completed: bool,
    pub created_at: String,
}

#[derive(Debug, Clone, Copy, PartialEq, Eq)]
pub struct TodoStats {
    pub total: usize,
    pub open: usize,
    pub completed: usize,
}

#[derive(Debug, Clone, PartialEq, Eq)]
pub struct TodosResponse {
    pub items: Vec<TodoItem>,
    pub stats: TodoStats,
}

/// One row of a `SELECT <column> AS key, COUNT(*) AS n … GROUP BY <column>`
/// aggregate.
#[derive(Debug, Clone, PartialEq, Eq)]
pub struct GroupCountRow {
    pub key: String,
    pub n: u32,
}

} // verus!
