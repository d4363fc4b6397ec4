use opendog::json::JsonValue;
use opendog::recommendation::evidence::EvidenceCollectionContext;
use opendog::recommendation::forced::{ForcedRecommendationAction, ForcedRecommendationContext};
use opendog::recommendation::review::ProjectReviewContext;
use opendog::recommendation::scoring::ActionScore;
use opendog::recommendation::selection::{
    recommend_project_action, recommendation_payload, select_project_recommendation, ProjectFacts,
};

#[allow(dead_code)]
fn from_serde(v: &serde_json::Value) -> JsonValue {
    match v {
        serde_json::Value::Null => JsonValue::Null,
        serde_json::Value::Bool(b) => JsonValue::Bool(*b),
        serde_json::Value::Number(n) => match n.as_i64() {
            Some(i) => JsonValue::Int(i),
            None => match n.as_u64() {
                Some(u) => JsonValue::Uint(u),
                None => JsonValue::Null,
            },
        },
        serde_json::Value::String(s) => JsonValue::Str(s.clone()),
        serde_json::Value::Array(items) => JsonValue::Array(items.iter().map(from_serde).collect()),
        serde_json::Value::Object(map) => {
            JsonValue::Object(map.iter().map(|(k, v)| (k.clone(), from_serde(v))).collect())
        }
    }
}

#[allow(dead_code)]
fn to_serde(v: &JsonValue) -> serde_json::Value {
    match v {
        JsonValue::Null => serde_json::Value::Null,
        JsonValue::Bool(b) => serde_json::Value::Bool(*b),
        JsonValue::Int(n) => serde_json::Value::from(*n),
        JsonValue::Uint(n) => serde_json::Value::from(*n),
        JsonValue::Str(s) => serde_json::Value::String(s.clone()),
        JsonValue::Array(items) => serde_json::Value::Array(items.iter().map(to_serde).collect()),
        JsonValue::Object(entries) => {
            let mut map = serde_json::Map::new();
            for (k, v) in entries {
                map.insert(k.clone(), to_serde(v));
            }
            serde_json::Value::Object(map)
        }
    }
}

#[allow(dead_code)]
fn json(text: &str) -> JsonValue {
    from_serde(&serde_json::from_str::<serde_json::Value>(text).unwrap())
}

#[allow(dead_code)]
fn sj(text: &str) -> serde_json::Value {
    serde_json::from_str(text).unwrap()
}

fn evidence() -> EvidenceCollectionContext {
    EvidenceCollectionContext {
        project_id: "alpha".to_string(),
        project_command: "cargo test".to_string(),
        snapshot_missing: false,
        activity_missing: true,
        verification_gate_levels: json(r#"{ "cleanup": "blocked", "refactor": "blocked" }"#),
        repo_truth_gaps: json(r#"[]"#),
        mandatory_shell_checks: json(r#"["git status"]"#),
    }
}

fn forced() -> ForcedRecommendationContext {
    ForcedRecommendationContext::for_test(
        "alpha",
        "cargo test",
        json(r#"{ "cleanup": "blocked", "refactor": "blocked" }"#),
        vec![],
        vec![],
        json(r#"[]"#),
        json(r#"["git status"]"#),
    )
}

fn review() -> ProjectReviewContext {
    ProjectReviewContext {
        project_id: "alpha".to_string(),
        project_command: "cargo test".to_string(),
        reason: "Current evidence favors this review.".to_string(),
        confidence: "high".to_string(),
        safe_for_cleanup: true,
        safe_for_refactor: true,
        verification_gate_levels: json(r#"{ "cleanup": "allow", "refactor": "allow" }"#),
        cleanup_blockers: vec![],
        refactor_blockers: vec![],
        repo_truth_gaps: json(r#"[]"#),
        mandatory_shell_checks: json(r#"["git status"]"#),
    }
}

fn unused_first() -> Vec<ActionScore> {
    vec![
        ActionScore { action: "review_unused_files", total: 90 },
        ActionScore { action: "inspect_hot_files", total: 40 },
    ]
}

fn chosen(
    immediate: Option<ForcedRecommendationAction>,
    monitoring: bool,
    snapshot_needed: bool,
    activity_needed: bool,
    forced_action: Option<&str>,
    scores: &Vec<ActionScore>,
) -> String {
    select_project_recommendation(
        immediate,
        monitoring,
        snapshot_needed,
        activity_needed,
        forced_action,
        scores,
        forced(),
        evidence(),
        review(),
    )
    .recommended_next_action
}

#[test]
fn selection_immediate_action_beats_missing_evidence() {
    let action = chosen(
        Some(ForcedRecommendationAction::StabilizeRepositoryState),
        false,
        true,
        true,
        None,
        &unused_first(),
    );
    assert_eq!(action, "stabilize_repository_state");
}

#[test]
fn selection_collects_evidence_in_order() {
    assert_eq!(chosen(None, false, true, true, None, &unused_first()), "start_monitor");
    assert_eq!(chosen(None, true, true, true, None, &unused_first()), "take_snapshot");
    assert_eq!(chosen(None, true, false, true, None, &unused_first()), "generate_activity_then_stats");
}

#[test]
fn selection_forced_action_beats_review() {
    let action = chosen(None, true, false, false, Some("review_failing_verification"), &unused_first());
    assert_eq!(action, "review_failing_verification");
}

#[test]
fn selection_unknown_forced_action_falls_back_to_review() {
    let action = chosen(None, true, false, false, Some("run_verification_before_high_risk_changes"), &unused_first());
    assert_eq!(action, "review_unused_files");
}

#[test]
fn selection_review_follows_the_scores() {
    assert_eq!(chosen(None, true, false, false, None, &unused_first()), "review_unused_files");
    assert_eq!(chosen(None, true, false, false, None, &vec![]), "inspect_hot_files");
    let hot_first = vec![ActionScore { action: "inspect_hot_files", total: 70 }];
    assert_eq!(chosen(None, true, false, false, None, &hot_first), "inspect_hot_files");
}

#[test]
fn payload_adds_sequence_and_focus() {
    let rec = json(r#"{ "project_id": "alpha", "recommended_next_action": "start_monitor" }"#);
    let payload = to_serde(&recommendation_payload(rec, &json(r#"{ "risk_level": "low" }"#), &[], &json("{}")));
    assert_eq!(payload["project_id"], "alpha");
    assert_eq!(payload["execution_sequence"]["mode"], "start_monitor_then_resume");
    assert!(payload["review_focus"].is_null());
    let rec = json(r#"{ "recommended_next_action": "review_unused_files" }"#);
    let payload = to_serde(&recommendation_payload(rec, &json(r#"{ "risk_level": "low" }"#), &[], &json("{}")));
    assert!(payload["execution_sequence"].is_null());
    assert_eq!(payload["review_focus"]["candidate_family"], "unused_candidate");
}

fn facts(monitoring_active: bool, total_files: i64, accessed_files: i64) -> ProjectFacts {
    ProjectFacts {
        project_id: "alpha".to_string(),
        monitoring_active,
        total_files,
        accessed_files,
        unused_files: 4,
        snapshot_stale: false,
        activity_stale: false,
        verification_missing: false,
        verification_stale: false,
        verification_failing: false,
    }
}

fn readiness() -> JsonValue {
    json(r#"{"safe_for_cleanup": true, "safe_for_refactor": true, "cleanup_gate_level": "allow", "refactor_gate_level": "allow", "cleanup_blockers": [], "refactor_blockers": ["lint"]}"#)
}

fn project_payload(f: &ProjectFacts, repo_risk: &str, immediate: &Vec<ForcedRecommendationAction>) -> serde_json::Value {
    to_serde(&recommend_project_action(
        f,
        &json(repo_risk),
        &[],
        &readiness(),
        &json("{}"),
        "cargo test",
        &json(r#"[]"#),
        &json(r#"["git status"]"#),
        immediate,
    ))
}

#[test]
fn project_action_starts_monitoring_first() {
    let p = project_payload(&facts(false, 10, 5), r#"{"risk_level": "low"}"#, &vec![]);
    assert_eq!(p["recommended_next_action"], "start_monitor");
    assert_eq!(p["project_id"], "alpha");
    assert_eq!(p["verification_gate_levels"], sj(r#"{"cleanup": "allow", "refactor": "allow"}"#));
    assert!(p["cleanup_blockers"].is_null());
    assert_eq!(p["execution_sequence"]["mode"], "start_monitor_then_resume");
}

#[test]
fn project_action_reviews_unused_files_when_ready() {
    let p = project_payload(&facts(true, 10, 5), r#"{"risk_level": "low"}"#, &vec![]);
    assert_eq!(p["recommended_next_action"], "review_unused_files");
    assert_eq!(p["refactor_blockers"], sj(r#"["lint"]"#));
    assert_eq!(p["review_focus"]["candidate_family"], "unused_candidate");
    assert_eq!(p["suggested_commands"].as_array().unwrap().is_empty(), false);
}

#[test]
fn project_action_mid_operation_repository() {
    let repo = r#"{"risk_level": "high", "operation_states": ["rebase"]}"#;
    let later = project_payload(&facts(false, 10, 5), repo, &vec![]);
    assert_eq!(later["recommended_next_action"], "start_monitor");
    let now = project_payload(&facts(false, 10, 5), repo, &vec![ForcedRecommendationAction::StabilizeRepositoryState]);
    assert_eq!(now["recommended_next_action"], "stabilize_repository_state");
    assert_eq!(now["confidence"], "high");
    let monitored = project_payload(&facts(true, 10, 5), repo, &vec![]);
    assert_eq!(monitored["recommended_next_action"], "stabilize_repository_state");
}

#[test]
fn recommendation_json_has_every_field() {
    let rec = select_project_recommendation(None, false, false, false, None, &vec![], forced(), evidence(), review());
    let v = to_serde(&rec.to_json());
    assert_eq!(v["recommended_next_action"], "start_monitor");
    assert_eq!(v["confidence"], "medium");
    assert_eq!(v["strategy_mode"], "collect_evidence_first");
    assert!(v["cleanup_blockers"].is_null());
    assert!(v["refactor_blockers"].is_null());
    assert_eq!(v["mandatory_shell_checks"], sj(r#"["git status"]"#));
    assert_eq!(v.as_object().unwrap().len(), 13);
}
