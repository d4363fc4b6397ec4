//! Project-level recommendation of the next action.
pub mod eligibility;
pub mod scoring;
pub mod reasoning;
pub mod types;
pub mod evidence;
pub mod forced;
pub mod review;
pub mod review_focus;
pub mod sequencing;
pub mod selection;
pub mod laws;
