//! Which review actions the current evidence allows, and which action it forces.
use vstd::prelude::*;
use crate::json::{JsonSpec, JsonValue};
use crate::text::str_eq;

verus! {

/// How far verification evidence lets a kind of change proceed.
#[derive(Debug, Clone, Copy, PartialEq, Eq, Structural)]
pub enum GateLevel {
    Allow,
    Caution,
    Blocked,
}

/// `allow` and `caution` name their levels; any other text is blocked.
pub open spec fn gate_level_of(value: Seq<char>) -> GateLevel {
    if value == "allow"@ {
        GateLevel::Allow
    } else if value == "caution"@ {
        GateLevel::Caution
    } else {
        GateLevel::Blocked
    }
}

impl GateLevel {
    pub fn from_str(value: &str) -> (r: Self)
        ensures
            r == gate_level_of(value@),
    {
        if str_eq(value, "allow") {
            GateLevel::Allow
        } else if str_eq(value, "caution") {
            GateLevel::Caution
        } else {
            GateLevel::Blocked
        }
    }
}

/// The evidence signals a project recommendation is decided on.
#[derive(Debug, Clone, Copy)]
pub struct RecommendationSignals {
    pub cleanup_gate_level: GateLevel,
    pub refactor_gate_level: GateLevel,
    pub monitoring_active: bool,
    pub snapshot_available: bool,
    pub activity_available: bool,
    pub snapshot_stale: bool,
    pub activity_stale: bool,
    pub verification_missing: bool,
    pub verification_stale: bool,
    pub verification_failing: bool,
    pub unused_files: i64,
}

/// The action forced by the evidence, if any, and which reviews are allowed.
#[derive(Debug, Clone, Copy, PartialEq, Eq)]
pub struct EligibilityResult {
    pub forced_action: Option<&'static str>,
    pub cleanup_review_allowed: bool,
    pub hotspot_review_allowed: bool,
}

/// The repository is in the middle of a merge, rebase, cherry-pick or bisect:
/// its `operation_states` is a non-empty array.
pub open spec fn repo_mid_operation(repo_risk: JsonSpec) -> bool {
    repo_risk.field("operation_states"@).is_nonempty_array()
}

/// The forced action: failing verification first, then missing or stale
/// verification, then a repository mid-operation.
pub open spec fn forced_action_of(s: RecommendationSignals, repo_risk: JsonSpec) -> Option<Seq<char>> {
    if s.verification_failing {
        Some("review_failing_verification"@)
    } else if s.verification_missing || s.verification_stale {
        Some("run_verification_before_high_risk_changes"@)
    } else if repo_mid_operation(repo_risk) {
        Some("stabilize_repository_state"@)
    } else {
        None
    }
}

/// Unused-file review needs fresh, monitored snapshot evidence with unused
/// files and a cleanup gate that is not blocked.
pub open spec fn cleanup_allowed(s: RecommendationSignals) -> bool {
    s.monitoring_active && s.snapshot_available && !s.snapshot_stale && s.unused_files > 0
        && s.cleanup_gate_level != GateLevel::Blocked
}

/// Hotspot review needs fresh, monitored activity evidence and a refactor
/// gate that is not blocked.
pub open spec fn hotspot_allowed(s: RecommendationSignals) -> bool {
    s.monitoring_active && s.snapshot_available && s.activity_available && !s.activity_stale
        && s.refactor_gate_level != GateLevel::Blocked
}

pub open spec fn forced_view(f: Option<&'static str>) -> Option<Seq<char>> {
    match f {
        Some(a) => Some(a@),
        None => None,
    }
}

/// A forced action rules out both reviews; otherwise each review is
/// allowed by its own evidence.
pub open spec fn eligibility_matches(r: EligibilityResult, s: RecommendationSignals, repo_risk: JsonSpec) -> bool {
    &&& forced_view(r.forced_action) == forced_action_of(s, repo_risk)
    &&& r.cleanup_review_allowed == (forced_action_of(s, repo_risk) is None && cleanup_allowed(s))
    &&& r.hotspot_review_allowed == (forced_action_of(s, repo_risk) is None && hotspot_allowed(s))
}

/// `value[key]` is a non-empty array.
pub fn has_nonempty_array(value: &JsonValue, key: &str) -> (r: bool)
    ensures
        r == value@.field(key@).is_nonempty_array(),
{
    match value.get_array(key) {
        Some(items) => items.len() > 0,
        None => false,
    }
}

/// Decides the forced action and the allowed reviews.
pub fn determine_action_eligibility(signals: &RecommendationSignals, repo_risk: &JsonValue) -> (r: EligibilityResult)
    ensures
        eligibility_matches(r, *signals, repo_risk@),
{
    if signals.verification_failing {
        return EligibilityResult {
            forced_action: Some("review_failing_verification"),
            cleanup_review_allowed: false,
            hotspot_review_allowed: false,
        };
    }
    if signals.verification_missing || signals.verification_stale {
        return EligibilityResult {
            forced_action: Some("run_verification_before_high_risk_changes"),
            cleanup_review_allowed: false,
            hotspot_review_allowed: false,
        };
    }
    if has_nonempty_array(repo_risk, "operation_states") {
        return EligibilityResult {
            forced_action: Some("stabilize_repository_state"),
            cleanup_review_allowed: false,
            hotspot_review_allowed: false,
        };
    }
    EligibilityResult {
        forced_action: None,
        cleanup_review_allowed: signals.monitoring_active && signals.snapshot_available
            && !signals.snapshot_stale && signals.unused_files > 0 && signals.cleanup_gate_level
            != GateLevel::Blocked,
        hotspot_review_allowed: signals.monitoring_active && signals.snapshot_available
            && signals.activity_available && !signals.activity_stale && signals.refactor_gate_level
            != GateLevel::Blocked,
    }
}

impl Default for EligibilityResult {
    /// No forced action and no review allowed.
    fn default() -> (r: Self)
        ensures
            r.forced_action is None,
            !r.cleanup_review_allowed,
            !r.hotspot_review_allowed,
    {
        EligibilityResult { forced_action: None, cleanup_review_allowed: false, hotspot_review_allowed: false }
    }
}

} // verus!
