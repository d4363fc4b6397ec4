use opendog::json::JsonValue;
use opendog::recommendation::eligibility::{determine_action_eligibility, GateLevel, RecommendationSignals};
use opendog::recommendation::sequencing::execution_sequence_for_recommendation;
use opendog::server::{lock_outcome, OpenDogError, OpenDogServer};
use opendog::storage::plan::storage_cleanup_plan;
use opendog::storage::policy::RetentionPolicy;

#[allow(dead_code)]
fn from_serde(v: &serde_json::Value) -> JsonValue {
    match v {
        serde_json::Value::Null => JsonValue::Null,
        serde_json::Value::Bool(b) => JsonValue::Bool(*b),
        serde_json::Value::Number(n) => match n.as_i64() {
            Some(i) => JsonValue::Int(i),
            None => match n.as_u64() {
                Some(u) => JsonValue::Uint(u),
                None => JsonValue::Null,
            },
        },
        serde_json::Value::String(s) => JsonValue::Str(s.clone()),
        serde_json::Value::Array(items) => JsonValue::Array(items.iter().map(from_serde).collect()),
        serde_json::Value::Object(map) => {
            JsonValue::Object(map.iter().map(|(k, v)| (k.clone(), from_serde(v))).collect())
        }
    }
}

fn to_serde(v: &JsonValue) -> serde_json::Value {
    match v {
        JsonValue::Null => serde_json::Value::Null,
        JsonValue::Bool(b) => serde_json::Value::Bool(*b),
        JsonValue::Int(n) => serde_json::Value::from(*n),
        JsonValue::Uint(n) => serde_json::Value::from(*n),
        JsonValue::Str(s) => serde_json::Value::String(s.clone()),
        JsonValue::Array(items) => serde_json::Value::Array(items.iter().map(to_serde).collect()),
        JsonValue::Object(entries) => {
            let mut map = serde_json::Map::new();
            for (k, v) in entries {
                map.insert(k.clone(), to_serde(v));
            }
            serde_json::Value::Object(map)
        }
    }
}

fn json(text: &str) -> JsonValue {
    from_serde(&serde_json::from_str::<serde_json::Value>(text).unwrap())
}

fn policy() -> RetentionPolicy {
    RetentionPolicy {
        activity_retention_days: 30,
        verification_retention_days: 90,
        keep_snapshot_runs: 20,
        activity_rows_threshold: 1_000_000,
        snapshot_runs_threshold: 200,
        verification_runs_threshold: 1_000,
        cleanup_review_db_bytes_threshold: 16 * 1024 * 1024,
        vacuum_reclaimable_bytes_threshold: 8 * 1024 * 1024,
        vacuum_reclaim_ratio_threshold_percent: 20,
    }
}

#[test]
fn cleanup_plan_steps_are_numbered_and_confirmed() {
    let recommendations = vec![
        json(r#"{"scope": "activity", "older_than_days": 14}"#),
        json(r#"{"scope": "verification"}"#),
        json(r#"{"older_than_days": 3}"#),
    ];
    let plan = to_serde(&storage_cleanup_plan(&recommendations, false, true, &policy()));
    assert_eq!(plan["automatic_deletion"], false);
    let steps = plan["steps"].as_array().unwrap();
    // two previews, one review, two executions, one compaction
    assert_eq!(steps.len(), 6);
    for (i, step) in steps.iter().enumerate() {
        assert_eq!(step["step"], serde_json::Value::from(i as u64 + 1));
        if step["phase"] == "preview" {
            assert_eq!(step["dry_run"], true);
        }
        if step["phase"] == "execute_cleanup" {
            assert_eq!(step["dry_run"], false);
            assert_eq!(step["requires_human_confirmation"], true);
        }
    }
    assert_eq!(steps[0]["older_than_days"], 14);
    assert_eq!(steps[1]["older_than_days"], 90);
    assert_eq!(steps[5]["phase"], "compact");
    assert_eq!(plan["target_scopes"], serde_json::Value::from(vec!["activity", "verification"]));
}

#[test]
fn cleanup_plan_falls_back_to_all_scopes_for_a_large_database() {
    let plan = to_serde(&storage_cleanup_plan(&[], true, false, &policy()));
    assert_eq!(plan["status"], "actionable");
    assert_eq!(plan["target_scopes"], serde_json::Value::from(vec!["all"]));
    assert_eq!(plan["steps"][0]["older_than_days"], 30);
    let quiet = to_serde(&storage_cleanup_plan(&[], false, false, &policy()));
    assert_eq!(quiet["status"], "not_needed");
}

fn signals() -> RecommendationSignals {
    RecommendationSignals {
        cleanup_gate_level: GateLevel::Allow,
        refactor_gate_level: GateLevel::Allow,
        monitoring_active: true,
        snapshot_available: true,
        activity_available: true,
        snapshot_stale: false,
        activity_stale: false,
        verification_missing: false,
        verification_stale: false,
        verification_failing: false,
        unused_files: 10,
    }
}

#[test]
fn every_forced_action_has_an_execution_sequence() {
    let mid_operation = json(r#"{"operation_states": ["rebase"]}"#);
    let toolchain = json(r#"{"recommended_test_commands": ["cargo test"]}"#);
    let mut cases = Vec::new();
    let mut failing = signals();
    failing.verification_failing = true;
    cases.push(failing);
    let mut missing = signals();
    missing.verification_missing = true;
    cases.push(missing);
    cases.push(signals());
    for s in cases {
        let eligibility = determine_action_eligibility(&s, &mid_operation);
        let action = eligibility.forced_action.unwrap();
        let sequence = execution_sequence_for_recommendation(action, &mid_operation, &[], &toolchain);
        assert!(!to_serde(&sequence).is_null(), "{action} has no sequence");
    }
}

#[test]
fn server_wraps_the_controller_or_passes_its_error() {
    let server: Result<OpenDogServer<u32>, String> = OpenDogServer::new(Ok(7));
    let mut server = server.unwrap();
    let controller = server.lock_inner().unwrap();
    assert_eq!(*controller, 7);
    *controller = 8;
    assert_eq!(*server.lock_inner().unwrap(), 8);
    let failed: Result<OpenDogServer<u32>, String> = OpenDogServer::new(Err("no data dir".to_string()));
    assert_eq!(failed.err(), Some("no data dir".to_string()));
}


#[test]
fn poisoned_lock_names_the_controller() {
    let held: Result<u32, OpenDogError> = lock_outcome(Ok(3));
    assert!(matches!(held, Ok(3)));
    let poisoned: Result<u32, OpenDogError> =
        lock_outcome(Err("poisoned lock: another task failed inside".to_string()));
    match poisoned {
        Err(OpenDogError::LockPoisoned(m)) => assert_eq!(
            m,
            "OpenDogServer controller: poisoned lock: another task failed inside"
        ),
        Ok(_) => panic!("a poison error must not come back as a guard"),
    }
}
