//! Storage measurements and the retention policy they are judged against.
use vstd::prelude::*;
use crate::json::{JsonSpec, JsonValue, ji64, jobj};

verus! {

/// Size measurements of a project database.
#[derive(Debug, Clone, Copy, Default)]
pub struct StorageMetrics {
    pub page_size: i64,
    pub page_count: i64,
    pub freelist_count: i64,
    pub approx_db_size_bytes: i64,
    pub approx_reclaimable_bytes: i64,
}

/// Row counts of the evidence a project database retains.
#[derive(Debug, Clone, Copy, Default)]
pub struct StorageEvidenceCounts {
    pub file_sightings: i64,
    pub file_events: i64,
    pub activity_daily_rollups: i64,
    pub verification_runs: i64,
    pub snapshot_runs: i64,
}

/// How long evidence is kept and when storage counts as under pressure.
#[derive(Debug, Clone, Copy)]
pub struct RetentionPolicy {
    pub activity_retention_days: i64,
    pub verification_retention_days: i64,
    pub keep_snapshot_runs: i64,
    pub activity_rows_threshold: i64,
    pub snapshot_runs_threshold: i64,
    pub verification_runs_threshold: i64,
    pub cleanup_review_db_bytes_threshold: i64,
    pub vacuum_reclaimable_bytes_threshold: i64,
    pub vacuum_reclaim_ratio_threshold_percent: i64,
}

/// The JSON form of a retention policy.
pub open spec fn policy_json(p: RetentionPolicy) -> JsonSpec {
    JsonSpec::Obj(seq![
        ("activity_retention_days"@, JsonSpec::Num(p.activity_retention_days as int)),
        ("verification_retention_days"@, JsonSpec::Num(p.verification_retention_days as int)),
        ("keep_snapshot_runs"@, JsonSpec::Num(p.keep_snapshot_runs as int)),
        ("activity_rows_threshold"@, JsonSpec::Num(p.activity_rows_threshold as int)),
        ("snapshot_runs_threshold"@, JsonSpec::Num(p.snapshot_runs_threshold as int)),
        ("verification_runs_threshold"@, JsonSpec::Num(p.verification_runs_threshold as int)),
        ("cleanup_review_db_bytes_threshold"@, JsonSpec::Num(p.cleanup_review_db_bytes_threshold as int)),
        ("vacuum_reclaimable_bytes_threshold"@, JsonSpec::Num(p.vacuum_reclaimable_bytes_threshold as int)),
        ("vacuum_reclaim_ratio_threshold_percent"@, JsonSpec::Num(p.vacuum_reclaim_ratio_threshold_percent as int)),
    ])
}

impl RetentionPolicy {
    pub fn to_json(&self) -> (r: JsonValue)
        ensures
            r@ == policy_json(*self),
    {
        let r = jobj(vec![
            ("activity_retention_days", ji64(self.activity_retention_days)),
            ("verification_retention_days", ji64(self.verification_retention_days)),
            ("keep_snapshot_runs", ji64(self.keep_snapshot_runs)),
            ("activity_rows_threshold", ji64(self.activity_rows_threshold)),
            ("snapshot_runs_threshold", ji64(self.snapshot_runs_threshold)),
            ("verification_runs_threshold", ji64(self.verification_runs_threshold)),
            ("cleanup_review_db_bytes_threshold", ji64(self.cleanup_review_db_bytes_threshold)),
            ("vacuum_reclaimable_bytes_threshold", ji64(self.vacuum_reclaimable_bytes_threshold)),
            ("vacuum_reclaim_ratio_threshold_percent", ji64(self.vacuum_reclaim_ratio_threshold_percent)),
        ]);
        assert(r@->Obj_0 =~= policy_json(*self)->Obj_0);
        r
    }
}

} // verus!
