//! How much maintenance a project database needs.
use vstd::prelude::*;
use vstd::string::*;
use super::policy::{RetentionPolicy, StorageMetrics};

verus! {

/// The maintenance verdict for one project database.
///
/// The reclaim ratio (reclaimable bytes over database bytes) is a float;
/// whether it reaches the policy's vacuum ratio is decided by the caller
/// and handed in as a boolean.
#[derive(Debug, Clone, Copy)]
pub struct StorageMaintenanceAssessment {
    pub cleanup_review_candidate: bool,
    pub evidence_pressure_candidate: bool,
    pub maintenance_candidate: bool,
    pub vacuum_candidate: bool,
    pub suggested_mode: &'static str,
    pub pressure_level: &'static str,
    pub summary: &'static str,
}

/// The database is large enough to review retained evidence.
pub open spec fn cleanup_review(m: StorageMetrics, p: RetentionPolicy) -> bool {
    m.approx_db_size_bytes >= p.cleanup_review_db_bytes_threshold
}

/// Enough space is reclaimable, in bytes and in ratio, to vacuum.
pub open spec fn vacuum(m: StorageMetrics, p: RetentionPolicy, ratio_reached: bool) -> bool {
    m.approx_reclaimable_bytes >= p.vacuum_reclaimable_bytes_threshold && ratio_reached
}

pub open spec fn mode_text(vacuum: bool, review: bool, pressure: bool) -> Seq<char> {
    if vacuum {
        "review_cleanup_then_vacuum"@
    } else if review || pressure {
        "review_cleanup"@
    } else {
        "none"@
    }
}

pub open spec fn pressure_text(vacuum: bool, review: bool, pressure: bool) -> Seq<char> {
    if vacuum || pressure {
        "high"@
    } else if review {
        "medium"@
    } else {
        "low"@
    }
}

pub open spec fn summary_text(vacuum: bool, review: bool, pressure: bool) -> Seq<char> {
    if vacuum {
        "Project database has reclaimable space; review retained OPENDOG evidence and consider vacuum after cleanup."@
    } else if pressure {
        "Project retained evidence counts exceed storage pressure thresholds; review scope-specific cleanup-data dry-runs."@
    } else if review {
        "Project database is large enough that retained OPENDOG evidence should be reviewed with cleanup-data dry-run."@
    } else {
        "Project database size does not currently suggest dedicated OPENDOG retention maintenance."@
    }
}

/// The assessment of a database, given whether cleanup recommendations
/// exist and whether the reclaim ratio reaches the vacuum ratio.
pub open spec fn assessment_matches(
    a: StorageMaintenanceAssessment,
    m: StorageMetrics,
    has_cleanup_recommendations: bool,
    p: RetentionPolicy,
    ratio_reached: bool,
) -> bool {
    let review = cleanup_review(m, p);
    let vac = vacuum(m, p, ratio_reached);
    let pressure = has_cleanup_recommendations;
    &&& a.cleanup_review_candidate == review
    &&& a.evidence_pressure_candidate == pressure
    &&& a.vacuum_candidate == vac
    &&& a.maintenance_candidate == (review || pressure || vac)
    &&& a.suggested_mode@ == mode_text(vac, review, pressure)
    &&& a.pressure_level@ == pressure_text(vac, review, pressure)
    &&& a.summary@ == summary_text(vac, review, pressure)
}

/// The pressure level orders the verdicts: `low` exactly when the database
/// is no maintenance candidate at all, `high` exactly when vacuum or
/// evidence pressure calls for maintenance, and `medium` when only its
/// size calls for a cleanup review.
pub proof fn law_pressure_level_orders_verdicts(
    a: StorageMaintenanceAssessment,
    m: StorageMetrics,
    has_cleanup_recommendations: bool,
    p: RetentionPolicy,
    ratio_reached: bool,
)
    requires
        assessment_matches(a, m, has_cleanup_recommendations, p, ratio_reached),
    ensures
        a.pressure_level@ == "low"@ <==> !a.maintenance_candidate,
        a.pressure_level@ == "high"@ <==> (a.vacuum_candidate || a.evidence_pressure_candidate),
        a.pressure_level@ == "medium"@ <==> (a.cleanup_review_candidate && !a.vacuum_candidate
            && !a.evidence_pressure_candidate),
        a.suggested_mode@ == "none"@ <==> !a.maintenance_candidate,
{
    reveal_strlit("low");
    reveal_strlit("medium");
    reveal_strlit("high");
    reveal_strlit("none");
    reveal_strlit("review_cleanup");
    reveal_strlit("review_cleanup_then_vacuum");
    assert("low"@.len() == 3 && "medium"@.len() == 6 && "high"@.len() == 4);
    assert("none"@.len() == 4 && "review_cleanup"@.len() == 14 && "review_cleanup_then_vacuum"@.len() == 26);
}

impl StorageMaintenanceAssessment {
    pub fn from_inputs(
        metrics: &StorageMetrics,
        has_cleanup_recommendations: bool,
        policy: &RetentionPolicy,
        reclaim_ratio_reaches_vacuum_ratio: bool,
    ) -> (r: Self)
        ensures
            assessment_matches(r, *metrics, has_cleanup_recommendations, *policy, reclaim_ratio_reaches_vacuum_ratio),
    {
        let cleanup_review_candidate = metrics.approx_db_size_bytes >= policy.cleanup_review_db_bytes_threshold;
        let evidence_pressure_candidate = has_cleanup_recommendations;
        let vacuum_candidate = metrics.approx_reclaimable_bytes >= policy.vacuum_reclaimable_bytes_threshold
            && reclaim_ratio_reaches_vacuum_ratio;
        let maintenance_candidate = cleanup_review_candidate || evidence_pressure_candidate || vacuum_candidate;
        let suggested_mode = if vacuum_candidate {
            "review_cleanup_then_vacuum"
        } else if cleanup_review_candidate || evidence_pressure_candidate {
            "review_cleanup"
        } else {
            "none"
        };
        let pressure_level = if vacuum_candidate || evidence_pressure_candidate {
            "high"
        } else if cleanup_review_candidate {
            "medium"
        } else {
            "low"
        };
        let summary = if vacuum_candidate {
            "Project database has reclaimable space; review retained OPENDOG evidence and consider vacuum after cleanup."
        } else if evidence_pressure_candidate {
            "Project retained evidence counts exceed storage pressure thresholds; review scope-specific cleanup-data dry-runs."
        } else if cleanup_review_candidate {
            "Project database is large enough that retained OPENDOG evidence should be reviewed with cleanup-data dry-run."
        } else {
            "Project database size does not currently suggest dedicated OPENDOG retention maintenance."
        };
        StorageMaintenanceAssessment {
            cleanup_review_candidate,
            evidence_pressure_candidate,
            maintenance_candidate,
            vacuum_candidate,
            suggested_mode,
            pressure_level,
            summary,
        }
    }
}

} // verus!
