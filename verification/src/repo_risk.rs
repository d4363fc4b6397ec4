//! Repository risk signals derived from `git status` output.
pub mod porcelain;
pub mod directories;
pub mod lockfiles;
pub mod snapshot;
pub mod findings;
