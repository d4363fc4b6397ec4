//! Scores of the review actions that eligibility allows.
use vstd::prelude::*;
use crate::json::{JsonSpec, JsonValue};
use crate::text::str_eq;
use super::eligibility::{EligibilityResult, GateLevel, RecommendationSignals};

verus! {

/// A review action with its score.
#[derive(Debug, Clone, Copy, PartialEq, Eq)]
pub struct ActionScore {
    pub action: &'static str,
    pub total: i32,
}

/// The repository has a large working diff (`large_diff`, default false).
pub open spec fn repo_large_diff(repo_risk: JsonSpec) -> bool {
    repo_risk.field("large_diff"@).bool_or(false)
}

/// The repository risk level (`risk_level`, default `low`).
pub open spec fn repo_risk_level(repo_risk: JsonSpec) -> Seq<char> {
    repo_risk.field("risk_level"@).str_or("low"@)
}

/// Unused-file review starts at 100: minus 20 under a cautious cleanup
/// gate, minus 40 for a stale snapshot.
pub open spec fn cleanup_score(s: RecommendationSignals) -> int {
    100 - (if s.cleanup_gate_level == GateLevel::Caution { 20int } else { 0int })
        - (if s.snapshot_stale { 40int } else { 0int })
}

/// Hotspot review starts at 100: minus 25 under a cautious refactor gate,
/// 40 for stale activity, 30 for a large diff, 10 for high repository risk.
pub open spec fn hotspot_score(s: RecommendationSignals, repo_risk: JsonSpec) -> int {
    100 - (if s.refactor_gate_level == GateLevel::Caution { 25int } else { 0int })
        - (if s.activity_stale { 40int } else { 0int })
        - (if repo_large_diff(repo_risk) { 30int } else { 0int })
        - (if repo_risk_level(repo_risk) == "high"@ { 10int } else { 0int })
}

/// The allowed review actions with their scores, highest first; on a tie
/// unused-file review stays first.
pub open spec fn scores_spec(s: RecommendationSignals, repo_risk: JsonSpec, e: EligibilityResult) -> Seq<(Seq<char>, int)> {
    let c = ("review_unused_files"@, cleanup_score(s));
    let h = ("inspect_hot_files"@, hotspot_score(s, repo_risk));
    if e.cleanup_review_allowed && e.hotspot_review_allowed {
        if h.1 > c.1 {
            seq![h, c]
        } else {
            seq![c, h]
        }
    } else if e.cleanup_review_allowed {
        seq![c]
    } else if e.hotspot_review_allowed {
        seq![h]
    } else {
        seq![]
    }
}

pub open spec fn score_views(v: Seq<ActionScore>) -> Seq<(Seq<char>, int)> {
    v.map_values(|a: ActionScore| (a.action@, a.total as int))
}

/// `value[key].as_bool().unwrap_or(default)`.
pub fn bool_field_or(value: &JsonValue, key: &str, default: bool) -> (r: bool)
    ensures
        r == value@.field(key@).bool_or(default),
{
    match value.get_bool(key) {
        Some(b) => b,
        None => default,
    }
}

/// `value[key].as_str().unwrap_or(default)`.
pub fn str_field_or<'a>(value: &'a JsonValue, key: &str, default: &'a str) -> (r: &'a str)
    ensures
        r@ == value@.field(key@).str_or(default@),
{
    match value.get_str(key) {
        Some(s) => s,
        None => default,
    }
}

/// Scores the allowed review actions, highest first.
pub fn score_review_actions(
    signals: &RecommendationSignals,
    repo_risk: &JsonValue,
    eligibility: &EligibilityResult,
) -> (r: Vec<ActionScore>)
    ensures
        score_views(r@) == scores_spec(*signals, repo_risk@, *eligibility),
        forall|i: int, j: int| 0 <= i < j < r@.len() ==> (#[trigger] r@[i]).total >= (#[trigger] r@[j]).total,
{
    let mut scores: Vec<ActionScore> = Vec::new();
    if eligibility.cleanup_review_allowed {
        let mut total: i32 = 100;
        if signals.cleanup_gate_level == GateLevel::Caution {
            total = total - 20;
        }
        if signals.snapshot_stale {
            total = total - 40;
        }
        scores.push(ActionScore { action: "review_unused_files", total });
    }
    if eligibility.hotspot_review_allowed {
        let mut total: i32 = 100;
        if signals.refactor_gate_level == GateLevel::Caution {
            total = total - 25;
        }
        if signals.activity_stale {
            total = total - 40;
        }
        if bool_field_or(repo_risk, "large_diff", false) {
            total = total - 30;
        }
        if str_eq(str_field_or(repo_risk, "risk_level", "low"), "high") {
            total = total - 10;
        }
        scores.push(ActionScore { action: "inspect_hot_files", total });
    }
    if scores.len() == 2 && scores[1].total > scores[0].total {
        let first = scores.remove(0);
        scores.push(first);
    }
    assert(score_views(scores@) =~= scores_spec(*signals, repo_risk@, *eligibility));
    scores
}

} // verus!
