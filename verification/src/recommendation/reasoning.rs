//! The explanation and confidence of a review recommendation.
use vstd::prelude::*;
use vstd::string::*;
use crate::json::{JsonSpec, JsonValue};
use crate::text::{cat, str_eq};
use super::eligibility::{GateLevel, RecommendationSignals, has_nonempty_array, repo_mid_operation};
use super::scoring::{ActionScore, bool_field_or, repo_large_diff, repo_risk_level, str_field_or};

verus! {

/// Some verification gate is cautious.
pub open spec fn gates_cautious(s: RecommendationSignals) -> bool {
    s.cleanup_gate_level == GateLevel::Caution || s.refactor_gate_level == GateLevel::Caution
}

/// What constrains the choice most: cautious verification, then an elevated
/// repository state, then stale observation, else the evidence itself.
pub open spec fn dominant_constraint(s: RecommendationSignals, repo_risk: JsonSpec) -> Seq<char> {
    if gates_cautious(s) {
        "verification evidence"@
    } else if repo_risk_level(repo_risk) != "low"@ || repo_large_diff(repo_risk) {
        "repository state"@
    } else if s.snapshot_stale || s.activity_stale {
        "observation freshness"@
    } else {
        "current evidence"@
    }
}

/// The human label of a review action.
pub open spec fn action_label(action: Seq<char>) -> Seq<char> {
    if action == "inspect_hot_files"@ {
        "hotspot review"@
    } else {
        "unused-file review"@
    }
}

/// The action that lost: the runner-up, or the other review action.
pub open spec fn losing_action(selected: Seq<char>, runner_up: Option<Seq<char>>) -> Seq<char> {
    match runner_up {
        Some(a) => a,
        None => if selected == "inspect_hot_files"@ {
            "review_unused_files"@
        } else {
            "inspect_hot_files"@
        },
    }
}

/// The reason text of a review recommendation.
pub open spec fn reason_spec(
    selected: Seq<char>,
    runner_up: Option<Seq<char>>,
    s: RecommendationSignals,
    repo_risk: JsonSpec,
) -> Seq<char> {
    let winning = action_label(selected);
    let losing = action_label(losing_action(selected, runner_up));
    if gates_cautious(s) {
        "Current verification evidence is cautious, so "@ + winning + " is the safer next step, and "@
            + losing + " stays behind it for now."@
    } else {
        "Current "@ + dominant_constraint(s, repo_risk) + " makes "@ + winning
            + " the safer next step, and "@ + losing + " stays behind it for now."@
    }
}

fn action_label_text(action: &str) -> (r: &'static str)
    ensures
        r@ == action_label(action@),
{
    if str_eq(action, "inspect_hot_files") {
        "hotspot review"
    } else {
        "unused-file review"
    }
}

/// Explains why the selected review action wins over the other.
pub fn build_reason(
    selected: &ActionScore,
    runner_up: Option<&ActionScore>,
    signals: &RecommendationSignals,
    repo_risk: &JsonValue,
) -> (r: String)
    ensures
        r@ == reason_spec(
            selected.action@,
            match runner_up {
                Some(a) => Some(a.action@),
                None => None,
            },
            *signals,
            repo_risk@,
        ),
{
    let cautious = signals.cleanup_gate_level == GateLevel::Caution || signals.refactor_gate_level
        == GateLevel::Caution;
    let dominant: &str = if cautious {
        "verification evidence"
    } else if !str_eq(str_field_or(repo_risk, "risk_level", "low"), "low") || bool_field_or(
        repo_risk,
        "large_diff",
        false,
    ) {
        "repository state"
    } else if signals.snapshot_stale || signals.activity_stale {
        "observation freshness"
    } else {
        "current evidence"
    };
    let losing: &str = match runner_up {
        Some(score) => score.action,
        None => if str_eq(selected.action, "inspect_hot_files") {
            "review_unused_files"
        } else {
            "inspect_hot_files"
        },
    };
    let losing_label = action_label_text(losing);
    let winning_label = action_label_text(selected.action);
    if cautious {
        let mut r = String::from_str("Current verification evidence is cautious, so ");
        r.append(winning_label);
        r.append(" is the safer next step, and ");
        r.append(losing_label);
        r.append(" stays behind it for now.");
        r
    } else {
        let mut r = String::from_str("Current ");
        r.append(dominant);
        r.append(" makes ");
        r.append(winning_label);
        r.append(" the safer next step, and ");
        r.append(losing_label);
        r.append(" stays behind it for now.");
        r
    }
}

/// High when verification fails, the repository is mid-operation, or the
/// score is at least 100 with both gates allowing and low repository risk.
pub open spec fn confidence_spec(total: int, s: RecommendationSignals, repo_risk: JsonSpec) -> Seq<char> {
    let strong = total >= 100 && s.cleanup_gate_level == GateLevel::Allow && s.refactor_gate_level
        == GateLevel::Allow && repo_risk_level(repo_risk) == "low"@;
    if s.verification_failing || repo_mid_operation(repo_risk) || strong {
        "high"@
    } else {
        "medium"@
    }
}

/// The confidence of a review recommendation.
pub fn derive_confidence(selected: &ActionScore, signals: &RecommendationSignals, repo_risk: &JsonValue) -> (r: &'static str)
    ensures
        r@ == confidence_spec(selected.total as int, *signals, repo_risk@),
{
    let mid_operation = has_nonempty_array(repo_risk, "operation_states");
    let strong = selected.total >= 100 && signals.cleanup_gate_level == GateLevel::Allow
        && signals.refactor_gate_level == GateLevel::Allow && str_eq(
        str_field_or(repo_risk, "risk_level", "low"),
        "low",
    );
    if signals.verification_failing || mid_operation || strong {
        "high"
    } else {
        "medium"
    }
}

} // verus!
