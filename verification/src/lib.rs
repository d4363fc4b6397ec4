pub mod json;
pub mod text;
pub mod lines;
pub mod repo_risk;
pub mod paths;
pub mod strategy;
pub mod recommendation;
pub mod review_candidates;
pub mod resources;
pub mod storage;
pub mod server;
pub mod guidance;
