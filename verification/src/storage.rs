//! Storage maintenance of a project database: pressure assessment, the
//! retention cleanup plan, and the command templates that carry it out.
pub mod policy;
pub mod assessment;
pub mod cleanup;
pub mod plan;
pub mod model;
pub mod templates;
pub mod catalog;
pub mod augment;
pub mod workspace;
