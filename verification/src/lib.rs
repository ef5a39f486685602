//! Verified core of the Wichita housing-logistics console.
pub mod activity;
pub mod counts;
pub mod dashboard;
pub mod error;
pub mod households;
pub mod labels;
pub mod model;
pub mod pages;
pub mod reference;
pub mod placements;
pub mod resources;
pub mod routing;
pub mod sitrep;
pub mod text;
pub mod todos;
pub mod validation;
pub mod web;
