use opendog::guidance::{
    apply_path_filter_observation, count_classification, stats_file_recommendations,
    stats_workspace_observation, unused_file_recommendations, unused_workspace_observation,
    FileActivity,
};
use opendog::json::JsonValue;
use opendog::review_candidates::{CandidateFreshness, ReviewCandidateContext};

#[allow(dead_code)]
fn from_serde(v: &serde_json::Value) -> JsonValue {
    match v {
        serde_json::Value::Null => JsonValue::Null,
        serde_json::Value::Bool(b) => JsonValue::Bool(*b),
        serde_json::Value::Number(n) => match n.as_i64() {
            Some(i) => JsonValue::Int(i),
            None => match n.as_u64() {
                Some(u) => JsonValue::Uint(u),
                None => JsonValue::Null,
            },
        },
        serde_json::Value::String(s) => JsonValue::Str(s.clone()),
        serde_json::Value::Array(items) => JsonValue::Array(items.iter().map(from_serde).collect()),
        serde_json::Value::Object(map) => {
            JsonValue::Object(map.iter().map(|(k, v)| (k.clone(), from_serde(v))).collect())
        }
    }
}

#[allow(dead_code)]
fn to_serde(v: &JsonValue) -> serde_json::Value {
    match v {
        JsonValue::Null => serde_json::Value::Null,
        JsonValue::Bool(b) => serde_json::Value::Bool(*b),
        JsonValue::Int(n) => serde_json::Value::from(*n),
        JsonValue::Uint(n) => serde_json::Value::from(*n),
        JsonValue::Str(s) => serde_json::Value::String(s.clone()),
        JsonValue::Array(items) => serde_json::Value::Array(items.iter().map(to_serde).collect()),
        JsonValue::Object(entries) => {
            let mut map = serde_json::Map::new();
            for (k, v) in entries {
                map.insert(k.clone(), to_serde(v));
            }
            serde_json::Value::Object(map)
        }
    }
}

#[allow(dead_code)]
fn json(text: &str) -> JsonValue {
    from_serde(&serde_json::from_str::<serde_json::Value>(text).unwrap())
}

#[allow(dead_code)]
fn sj(text: &str) -> serde_json::Value {
    serde_json::from_str(text).unwrap()
}

fn file(path: &str, access_count: i64) -> FileActivity {
    FileActivity { file_path: path.to_string(), access_count }
}

#[test]
fn guidance_stats_observation_states() {
    let not_ready = to_serde(&stats_workspace_observation(0, 0, 0, false));
    assert_eq!(not_ready["analysis_state"], "not_ready");
    assert_eq!(not_ready["snapshot_available"], false);
    let idle = to_serde(&stats_workspace_observation(12, 0, 12, false));
    assert_eq!(idle["analysis_state"], "insufficient_activity");
    assert_eq!(idle["snapshot_available"], true);
    assert_eq!(idle["activity_available"], false);
    let ranked = to_serde(&stats_workspace_observation(12, 5, 7, true));
    assert_eq!(
        ranked,
        sj(r#"{"status": "available", "analysis_state": "ready", "snapshot_available": true, "monitoring_required_for_freshness": true, "activity_available": true, "total_files": 12, "accessed_files": 5, "unused_files": 7}"#)
    );
    let unranked = to_serde(&stats_workspace_observation(12, 5, 7, false));
    assert!(unranked.get("monitoring_required_for_freshness").is_none());
}

#[test]
fn guidance_unused_observation_counts() {
    let none = to_serde(&unused_workspace_observation(0, 3, 3, 3));
    assert_eq!(none["unused_candidates"], 0);
    assert!(none.get("source_candidates").is_none());
    let some = to_serde(&unused_workspace_observation(4, 2, 1, 1));
    assert_eq!(some["source_candidates"], 2);
    assert_eq!(some["infrastructure_candidates"], 1);
    assert_eq!(some["backup_candidates"], 1);
}

#[test]
fn guidance_counts_one_classification() {
    let classes = vec!["source".to_string(), "backup".to_string(), "source".to_string()];
    assert_eq!(count_classification(&classes, "source"), 2);
    assert_eq!(count_classification(&classes, "infrastructure"), 0);
}

#[test]
fn guidance_stats_candidates_hottest_then_unused() {
    let mock = json("{}");
    let risk = json(r#"{"risk_level": "low"}"#);
    let context = ReviewCandidateContext { mock_summary: &mock, freshness: CandidateFreshness::default(), repo_risk: &risk };
    let entries = vec![file("src/hot.rs", 9), file("src/warm.rs", 2), file("src/cold.rs", 0), file("src/ice.rs", 0)];
    let r: Vec<serde_json::Value> = stats_file_recommendations(&entries, "cargo test", context).iter().map(to_serde).collect();
    assert_eq!(r.len(), 2);
    assert_eq!(r[0]["kind"], "hot_file");
    assert_eq!(r[0]["file_path"], "src/hot.rs");
    assert_eq!(r[0]["candidate_priority"], "primary");
    assert_eq!(r[0]["suggested_commands"], sj(r#"["rg \"src/hot.rs\" .", "git diff", "cargo test"]"#));
    assert_eq!(r[1]["kind"], "unused_candidate");
    assert_eq!(r[1]["file_path"], "src/cold.rs");
    assert_eq!(r[1]["candidate_priority"], "secondary");
    let busy = vec![file("src/hot.rs", 9)];
    assert_eq!(stats_file_recommendations(&busy, "cargo test", context).len(), 1);
    assert!(stats_file_recommendations(&vec![], "cargo test", context).is_empty());
}

#[test]
fn guidance_unused_candidates_sources_first() {
    let mock = json("{}");
    let risk = json(r#"{"risk_level": "low"}"#);
    let context = ReviewCandidateContext { mock_summary: &mock, freshness: CandidateFreshness::default(), repo_risk: &risk };
    let entries = vec![file("build.sh", 0), file("src/a.rs", 0), file("old.bak", 0), file("src/b.rs", 0), file("src/c.rs", 0)];
    let is_source = vec![false, true, false, true, true];
    let r: Vec<serde_json::Value> =
        unused_file_recommendations(&entries, &is_source, "cargo test", context).iter().map(to_serde).collect();
    let paths: Vec<&str> = r.iter().map(|c| c["file_path"].as_str().unwrap()).collect();
    assert_eq!(paths, vec!["src/a.rs", "src/b.rs", "src/c.rs"]);
    assert_eq!(r[0]["candidate_priority"], "primary");
    assert_eq!(r[1]["candidate_priority"], "secondary");
    assert_eq!(r[2]["suggested_commands"][1], "git grep <symbol>");
    let few = vec![file("build.sh", 0), file("src/a.rs", 0)];
    let r: Vec<serde_json::Value> =
        unused_file_recommendations(&few, &vec![false, true], "cargo test", context).iter().map(to_serde).collect();
    let paths: Vec<&str> = r.iter().map(|c| c["file_path"].as_str().unwrap()).collect();
    assert_eq!(paths, vec!["src/a.rs", "build.sh"]);
}

#[test]
fn guidance_path_filter_is_reported() {
    let mut guidance = json(r#"{"layers": {"workspace_observation": {"status": "available"}}}"#);
    apply_path_filter_observation(&mut guidance, None, 0);
    assert_eq!(to_serde(&guidance), sj(r#"{"layers": {"workspace_observation": {"status": "available"}}}"#));
    apply_path_filter_observation(&mut guidance, Some("source"), 3);
    let g = to_serde(&guidance);
    assert_eq!(g["layers"]["workspace_observation"]["path_classification_filter"], "source");
    assert!(g["layers"]["workspace_observation"].get("filter_note").is_none());
    let mut empty = json(r#"{"layers": {"workspace_observation": {}}}"#);
    apply_path_filter_observation(&mut empty, Some("backup"), 0);
    let g = to_serde(&empty);
    let note = "selected path_classification filter returned no rows; this does not mean the project has no files or no unused candidates";
    assert_eq!(g["layers"]["workspace_observation"]["filter_note"], note);
    assert_eq!(g["layers"]["verification_evidence"]["inferences"], sj(&format!("[\"{}\"]", note)));
}
