use opendog::json::JsonValue;
use opendog::recommendation::eligibility::{EligibilityResult, GateLevel, RecommendationSignals};
use opendog::recommendation::scoring::score_review_actions;

#[allow(dead_code)]
fn from_serde(v: &serde_json::Value) -> JsonValue {
    match v {
        serde_json::Value::Null => JsonValue::Null,
        serde_json::Value::Bool(b) => JsonValue::Bool(*b),
        serde_json::Value::Number(n) => match n.as_i64() {
            Some(i) => JsonValue::Int(i),
            None => match n.as_u64() {
                Some(u) => JsonValue::Uint(u),
                None => JsonValue::Null,
            },
        },
        serde_json::Value::String(s) => JsonValue::Str(s.clone()),
        serde_json::Value::Array(items) => JsonValue::Array(items.iter().map(from_serde).collect()),
        serde_json::Value::Object(map) => {
            JsonValue::Object(map.iter().map(|(k, v)| (k.clone(), from_serde(v))).collect())
        }
    }
}

#[allow(dead_code)]
fn to_serde(v: &JsonValue) -> serde_json::Value {
    match v {
        JsonValue::Null => serde_json::Value::Null,
        JsonValue::Bool(b) => serde_json::Value::Bool(*b),
        JsonValue::Int(n) => serde_json::Value::from(*n),
        JsonValue::Uint(n) => serde_json::Value::from(*n),
        JsonValue::Str(s) => serde_json::Value::String(s.clone()),
        JsonValue::Array(items) => serde_json::Value::Array(items.iter().map(to_serde).collect()),
        JsonValue::Object(entries) => {
            let mut map = serde_json::Map::new();
            for (k, v) in entries {
                map.insert(k.clone(), to_serde(v));
            }
            serde_json::Value::Object(map)
        }
    }
}

#[allow(dead_code)]
fn json(text: &str) -> JsonValue {
    from_serde(&serde_json::from_str::<serde_json::Value>(text).unwrap())
}

#[allow(dead_code)]
fn sj(text: &str) -> serde_json::Value {
    serde_json::from_str(text).unwrap()
}


fn allow_signals() -> RecommendationSignals {
    RecommendationSignals {
        cleanup_gate_level: GateLevel::Allow,
        refactor_gate_level: GateLevel::Allow,
        monitoring_active: true,
        snapshot_available: true,
        activity_available: true,
        snapshot_stale: false,
        activity_stale: false,
        verification_missing: false,
        verification_stale: false,
        verification_failing: false,
        unused_files: 10,
    }
}

fn full_eligibility() -> EligibilityResult {
    EligibilityResult {
        forced_action: None,
        cleanup_review_allowed: true,
        hotspot_review_allowed: true,
    }
}

fn low_risk_repo() -> JsonValue {
    json(r#"{
        "risk_level": "low",
        "large_diff": false
    }"#)
}

#[test]
fn both_allowed_base_scores_are_100() {
    let signals = allow_signals();
    let eligibility = full_eligibility();
    let scores = score_review_actions(&signals, &low_risk_repo(), &eligibility);
    assert_eq!(scores.len(), 2);
    assert!(scores.iter().all(|s| s.total == 100));
}

#[test]
fn cleanup_score_penalty_for_caution_gate() {
    let mut signals = allow_signals();
    signals.cleanup_gate_level = GateLevel::Caution;
    let scores = score_review_actions(&signals, &low_risk_repo(), &full_eligibility());
    let cleanup = scores
        .iter()
        .find(|s| s.action == "review_unused_files")
        .unwrap();
    assert_eq!(cleanup.total, 80);
}

#[test]
fn cleanup_score_penalty_for_stale_snapshot() {
    let mut signals = allow_signals();
    signals.snapshot_stale = true;
    let scores = score_review_actions(&signals, &low_risk_repo(), &full_eligibility());
    let cleanup = scores
        .iter()
        .find(|s| s.action == "review_unused_files")
        .unwrap();
    assert_eq!(cleanup.total, 60);
}

#[test]
fn cleanup_combined_penalties() {
    let mut signals = allow_signals();
    signals.cleanup_gate_level = GateLevel::Caution;
    signals.snapshot_stale = true;
    let scores = score_review_actions(&signals, &low_risk_repo(), &full_eligibility());
    let cleanup = scores
        .iter()
        .find(|s| s.action == "review_unused_files")
        .unwrap();
    assert_eq!(cleanup.total, 40);
}

#[test]
fn hotspot_score_penalty_for_caution_gate() {
    let mut signals = allow_signals();
    signals.refactor_gate_level = GateLevel::Caution;
    let scores = score_review_actions(&signals, &low_risk_repo(), &full_eligibility());
    let hotspot = scores
        .iter()
        .find(|s| s.action == "inspect_hot_files")
        .unwrap();
    assert_eq!(hotspot.total, 75);
}

#[test]
fn hotspot_score_penalty_for_stale_activity() {
    let mut signals = allow_signals();
    signals.activity_stale = true;
    let scores = score_review_actions(&signals, &low_risk_repo(), &full_eligibility());
    let hotspot = scores
        .iter()
        .find(|s| s.action == "inspect_hot_files")
        .unwrap();
    assert_eq!(hotspot.total, 60);
}

#[test]
fn hotspot_score_penalty_for_large_diff() {
    let repo = json(r#"{
        "risk_level": "low",
        "large_diff": true
    }"#);
    let signals = allow_signals();
    let scores = score_review_actions(&signals, &repo, &full_eligibility());
    let hotspot = scores
        .iter()
        .find(|s| s.action == "inspect_hot_files")
        .unwrap();
    assert_eq!(hotspot.total, 70);
}

#[test]
fn hotspot_score_penalty_for_high_risk() {
    let repo = json(r#"{
        "risk_level": "high",
        "large_diff": false
    }"#);
    let signals = allow_signals();
    let scores = score_review_actions(&signals, &repo, &full_eligibility());
    let hotspot = scores
        .iter()
        .find(|s| s.action == "inspect_hot_files")
        .unwrap();
    assert_eq!(hotspot.total, 90);
}

#[test]
fn hotspot_combined_penalties() {
    let mut signals = allow_signals();
    signals.refactor_gate_level = GateLevel::Caution;
    signals.activity_stale = true;
    let repo = json(r#"{
        "risk_level": "high",
        "large_diff": true
    }"#);
    let scores = score_review_actions(&signals, &repo, &full_eligibility());
    let hotspot = scores
        .iter()
        .find(|s| s.action == "inspect_hot_files")
        .unwrap();
    // 100 - 25 (caution) - 40 (stale) - 30 (large diff) - 10 (high risk) = -5
    assert_eq!(hotspot.total, -5);
}

#[test]
fn scores_are_sorted_descending() {
    let mut signals = allow_signals();
    signals.cleanup_gate_level = GateLevel::Caution;
    let scores = score_review_actions(&signals, &low_risk_repo(), &full_eligibility());
    assert_eq!(scores.len(), 2);
    assert!(scores[0].total >= scores[1].total);
}

#[test]
fn no_cleanup_when_not_allowed() {
    let eligibility = EligibilityResult {
        forced_action: None,
        cleanup_review_allowed: false,
        hotspot_review_allowed: true,
    };
    let signals = allow_signals();
    let scores = score_review_actions(&signals, &low_risk_repo(), &eligibility);
    assert_eq!(scores.len(), 1);
    assert_eq!(scores[0].action, "inspect_hot_files");
}

#[test]
fn no_hotspot_when_not_allowed() {
    let eligibility = EligibilityResult {
        forced_action: None,
        cleanup_review_allowed: true,
        hotspot_review_allowed: false,
    };
    let signals = allow_signals();
    let scores = score_review_actions(&signals, &low_risk_repo(), &eligibility);
    assert_eq!(scores.len(), 1);
    assert_eq!(scores[0].action, "review_unused_files");
}

#[test]
fn empty_scores_when_neither_allowed() {
    let eligibility = EligibilityResult {
        forced_action: None,
        cleanup_review_allowed: false,
        hotspot_review_allowed: false,
    };
    let signals = allow_signals();
    let scores = score_review_actions(&signals, &low_risk_repo(), &eligibility);
    assert!(scores.is_empty());
}
