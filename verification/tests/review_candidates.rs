use opendog::json::JsonValue;
use opendog::review_candidates::{build_review_candidate, CandidateFreshness, ReviewCandidateContext};

#[allow(dead_code)]
fn from_serde(v: &serde_json::Value) -> JsonValue {
    match v {
        serde_json::Value::Null => JsonValue::Null,
        serde_json::Value::Bool(b) => JsonValue::Bool(*b),
        serde_json::Value::Number(n) => match n.as_i64() {
            Some(i) => JsonValue::Int(i),
            None => match n.as_u64() {
                Some(u) => JsonValue::Uint(u),
                None => JsonValue::Null,
            },
        },
        serde_json::Value::String(s) => JsonValue::Str(s.clone()),
        serde_json::Value::Array(items) => JsonValue::Array(items.iter().map(from_serde).collect()),
        serde_json::Value::Object(map) => {
            JsonValue::Object(map.iter().map(|(k, v)| (k.clone(), from_serde(v))).collect())
        }
    }
}

#[allow(dead_code)]
fn to_serde(v: &JsonValue) -> serde_json::Value {
    match v {
        JsonValue::Null => serde_json::Value::Null,
        JsonValue::Bool(b) => serde_json::Value::Bool(*b),
        JsonValue::Int(n) => serde_json::Value::from(*n),
        JsonValue::Uint(n) => serde_json::Value::from(*n),
        JsonValue::Str(s) => serde_json::Value::String(s.clone()),
        JsonValue::Array(items) => serde_json::Value::Array(items.iter().map(to_serde).collect()),
        JsonValue::Object(entries) => {
            let mut map = serde_json::Map::new();
            for (k, v) in entries {
                map.insert(k.clone(), to_serde(v));
            }
            serde_json::Value::Object(map)
        }
    }
}

#[allow(dead_code)]
fn json(text: &str) -> JsonValue {
    from_serde(&serde_json::from_str::<serde_json::Value>(text).unwrap())
}

#[allow(dead_code)]
fn sj(text: &str) -> serde_json::Value {
    serde_json::from_str(text).unwrap()
}


fn low_repo_risk() -> JsonValue {
    json(r#"{
        "risk_level": "low",
        "large_diff": false
    }"#)
}

#[test]
fn review_candidates_build_review_candidate_marks_hot_file_overlap_basis() {
    let summary = json(r#"{
        "mock_data_candidates": [{"file_path": "src/main.rs"}],
        "hardcoded_data_candidates": []
    }"#);

    let candidate = to_serde(&build_review_candidate(
        "hot_file",
        "src/main.rs",
        "primary",
        "hot",
        vec!["cargo test".to_string()],
        ReviewCandidateContext {
            mock_summary: &summary,
            freshness: CandidateFreshness::default(),
            repo_risk: &low_repo_risk(),
        },
    ));

    assert_eq!(
        candidate["candidate_basis"],
        sj(r#"[
            "highest_access_activity",
            "activity_present",
            "mock_data_overlap"
        ]"#)
    );
    assert_eq!(candidate["candidate_risk_hints"], sj(r#"[]"#));
    assert_eq!(candidate["candidate_priority"], sj(r#""primary""#));
}

#[test]
fn review_candidates_build_review_candidate_marks_unused_snapshot_staleness_and_hardcoded_overlap() {
    let summary = json(r#"{
        "mock_data_candidates": [],
        "hardcoded_data_candidates": [{"file_path": "src/legacy.rs"}]
    }"#);

    let candidate = to_serde(&build_review_candidate(
        "unused_candidate",
        "src/legacy.rs",
        "secondary",
        "unused",
        vec!["git grep <symbol>".to_string()],
        ReviewCandidateContext {
            mock_summary: &summary,
            freshness: CandidateFreshness {
                snapshot_stale: true,
                activity_stale: false,
            },
            repo_risk: &low_repo_risk(),
        },
    ));

    assert_eq!(
        candidate["candidate_basis"],
        sj(r#"[
            "zero_recorded_access",
            "snapshot_present",
            "hardcoded_data_overlap"
        ]"#)
    );
    assert_eq!(
        candidate["candidate_risk_hints"],
        sj(r#"["snapshot_evidence_stale"]"#)
    );
    assert_eq!(candidate["candidate_priority"], sj(r#""secondary""#));
}

#[test]
fn review_candidates_build_review_candidate_marks_hot_file_activity_staleness() {
    let candidate = to_serde(&build_review_candidate(
        "hot_file",
        "src/main.rs",
        "primary",
        "hot",
        vec![],
        ReviewCandidateContext {
            mock_summary: &json(r#"{}"#),
            freshness: CandidateFreshness {
                snapshot_stale: false,
                activity_stale: true,
            },
            repo_risk: &low_repo_risk(),
        },
    ));

    assert_eq!(
        candidate["candidate_risk_hints"],
        sj(r#"["activity_evidence_stale"]"#)
    );
}

#[test]
fn review_candidates_build_review_candidate_marks_hot_file_repo_risk_from_large_diff() {
    let candidate = to_serde(&build_review_candidate(
        "hot_file",
        "src/main.rs",
        "primary",
        "hot",
        vec![],
        ReviewCandidateContext {
            mock_summary: &json(r#"{}"#),
            freshness: CandidateFreshness::default(),
            repo_risk: &json(r#"{
                "risk_level": "low",
                "large_diff": true
            }"#),
        },
    ));

    assert_eq!(
        candidate["candidate_risk_hints"],
        sj(r#"["repo_risk_elevated"]"#)
    );
}

#[test]
fn review_candidates_build_review_candidate_marks_hot_file_repo_risk_from_high_risk_level() {
    let candidate = to_serde(&build_review_candidate(
        "hot_file",
        "src/main.rs",
        "primary",
        "hot",
        vec![],
        ReviewCandidateContext {
            mock_summary: &json(r#"{}"#),
            freshness: CandidateFreshness::default(),
            repo_risk: &json(r#"{
                "risk_level": "high",
                "large_diff": false
            }"#),
        },
    ));

    assert_eq!(
        candidate["candidate_risk_hints"],
        sj(r#"["repo_risk_elevated"]"#)
    );
}

#[test]
fn review_candidates_build_review_candidate_keeps_unknown_kind_empty() {
    let candidate = to_serde(&build_review_candidate(
        "unknown_kind",
        "src/main.rs",
        "secondary",
        "hot",
        vec![],
        ReviewCandidateContext {
            mock_summary: &json(r#"{
                "mock_data_candidates": [{"file_path": "src/main.rs"}],
                "hardcoded_data_candidates": [{"file_path": "src/main.rs"}]
            }"#),
            freshness: CandidateFreshness {
                snapshot_stale: true,
                activity_stale: true,
            },
            repo_risk: &json(r#"{
                "risk_level": "high",
                "large_diff": true
            }"#),
        },
    ));

    assert_eq!(candidate["candidate_basis"], sj(r#"[]"#));
    assert_eq!(candidate["candidate_risk_hints"], sj(r#"[]"#));
}
#[test]
fn tests_build_review_candidate_marks_hot_file_overlap_basis() {
    let summary = json(r#"{
        "mock_data_candidates": [{"file_path": "src/main.rs"}],
        "hardcoded_data_candidates": []
    }"#);

    let candidate = to_serde(&build_review_candidate(
        "hot_file",
        "src/main.rs",
        "primary",
        "hot",
        vec!["cargo test".to_string()],
        ReviewCandidateContext {
            mock_summary: &summary,
            freshness: CandidateFreshness::default(),
            repo_risk: &low_repo_risk(),
        },
    ));

    assert_eq!(
        candidate["candidate_basis"],
        sj(r#"[
            "highest_access_activity",
            "activity_present",
            "mock_data_overlap"
        ]"#)
    );
    assert_eq!(candidate["candidate_risk_hints"], sj(r#"[]"#));
    assert_eq!(candidate["candidate_priority"], sj(r#""primary""#));
}

#[test]
fn tests_build_review_candidate_marks_unused_snapshot_staleness_and_hardcoded_overlap() {
    let summary = json(r#"{
        "mock_data_candidates": [],
        "hardcoded_data_candidates": [{"file_path": "src/legacy.rs"}]
    }"#);

    let candidate = to_serde(&build_review_candidate(
        "unused_candidate",
        "src/legacy.rs",
        "secondary",
        "unused",
        vec!["git grep <symbol>".to_string()],
        ReviewCandidateContext {
            mock_summary: &summary,
            freshness: CandidateFreshness {
                snapshot_stale: true,
                activity_stale: false,
            },
            repo_risk: &low_repo_risk(),
        },
    ));

    assert_eq!(
        candidate["candidate_basis"],
        sj(r#"[
            "zero_recorded_access",
            "snapshot_present",
            "hardcoded_data_overlap"
        ]"#)
    );
    assert_eq!(
        candidate["candidate_risk_hints"],
        sj(r#"["snapshot_evidence_stale"]"#)
    );
    assert_eq!(candidate["candidate_priority"], sj(r#""secondary""#));
}

#[test]
fn tests_build_review_candidate_marks_hot_file_activity_staleness() {
    let candidate = to_serde(&build_review_candidate(
        "hot_file",
        "src/main.rs",
        "primary",
        "hot",
        vec![],
        ReviewCandidateContext {
            mock_summary: &json(r#"{}"#),
            freshness: CandidateFreshness {
                snapshot_stale: false,
                activity_stale: true,
            },
            repo_risk: &low_repo_risk(),
        },
    ));

    assert_eq!(
        candidate["candidate_risk_hints"],
        sj(r#"["activity_evidence_stale"]"#)
    );
}

#[test]
fn tests_build_review_candidate_marks_hot_file_repo_risk_from_large_diff() {
    let candidate = to_serde(&build_review_candidate(
        "hot_file",
        "src/main.rs",
        "primary",
        "hot",
        vec![],
        ReviewCandidateContext {
            mock_summary: &json(r#"{}"#),
            freshness: CandidateFreshness::default(),
            repo_risk: &json(r#"{
                "risk_level": "low",
                "large_diff": true
            }"#),
        },
    ));

    assert_eq!(
        candidate["candidate_risk_hints"],
        sj(r#"["repo_risk_elevated"]"#)
    );
}

#[test]
fn tests_build_review_candidate_marks_hot_file_repo_risk_from_high_risk_level() {
    let candidate = to_serde(&build_review_candidate(
        "hot_file",
        "src/main.rs",
        "primary",
        "hot",
        vec![],
        ReviewCandidateContext {
            mock_summary: &json(r#"{}"#),
            freshness: CandidateFreshness::default(),
            repo_risk: &json(r#"{
                "risk_level": "high",
                "large_diff": false
            }"#),
        },
    ));

    assert_eq!(
        candidate["candidate_risk_hints"],
        sj(r#"["repo_risk_elevated"]"#)
    );
}

#[test]
fn tests_build_review_candidate_keeps_unknown_kind_empty() {
    let candidate = to_serde(&build_review_candidate(
        "unknown_kind",
        "src/main.rs",
        "secondary",
        "hot",
        vec![],
        ReviewCandidateContext {
            mock_summary: &json(r#"{
                "mock_data_candidates": [{"file_path": "src/main.rs"}],
                "hardcoded_data_candidates": [{"file_path": "src/main.rs"}]
            }"#),
            freshness: CandidateFreshness {
                snapshot_stale: true,
                activity_stale: true,
            },
            repo_risk: &json(r#"{
                "risk_level": "high",
                "large_diff": true
            }"#),
        },
    ));

    assert_eq!(candidate["candidate_basis"], sj(r#"[]"#));
    assert_eq!(candidate["candidate_risk_hints"], sj(r#"[]"#));
}
