use opendog::json::JsonValue;
use opendog::storage::assessment::StorageMaintenanceAssessment;
use opendog::storage::augment::augment_entrypoints_for_storage_maintenance;
use opendog::storage::catalog::storage_maintenance_execution_templates;
use opendog::storage::model::{StorageCleanupScope, StorageMaintenanceTemplateContext};
use opendog::storage::plan::project_storage_maintenance_with_policy;
use opendog::storage::policy::{RetentionPolicy, StorageEvidenceCounts, StorageMetrics};
use opendog::storage::workspace::{storage_maintenance_layer, StorageMaintenanceWorkspaceSummary};

#[allow(dead_code)]
fn from_serde(v: &serde_json::Value) -> JsonValue {
    match v {
        serde_json::Value::Null => JsonValue::Null,
        serde_json::Value::Bool(b) => JsonValue::Bool(*b),
        serde_json::Value::Number(n) => match n.as_i64() {
            Some(i) => JsonValue::Int(i),
            None => match n.as_u64() {
                Some(u) => JsonValue::Uint(u),
                None => JsonValue::Null,
            },
        },
        serde_json::Value::String(s) => JsonValue::Str(s.clone()),
        serde_json::Value::Array(items) => JsonValue::Array(items.iter().map(from_serde).collect()),
        serde_json::Value::Object(map) => {
            JsonValue::Object(map.iter().map(|(k, v)| (k.clone(), from_serde(v))).collect())
        }
    }
}

#[allow(dead_code)]
fn to_serde(v: &JsonValue) -> serde_json::Value {
    match v {
        JsonValue::Null => serde_json::Value::Null,
        JsonValue::Bool(b) => serde_json::Value::Bool(*b),
        JsonValue::Int(n) => serde_json::Value::from(*n),
        JsonValue::Uint(n) => serde_json::Value::from(*n),
        JsonValue::Str(s) => serde_json::Value::String(s.clone()),
        JsonValue::Array(items) => serde_json::Value::Array(items.iter().map(to_serde).collect()),
        JsonValue::Object(entries) => {
            let mut map = serde_json::Map::new();
            for (k, v) in entries {
                map.insert(k.clone(), to_serde(v));
            }
            serde_json::Value::Object(map)
        }
    }
}

#[allow(dead_code)]
fn json(text: &str) -> JsonValue {
    from_serde(&serde_json::from_str::<serde_json::Value>(text).unwrap())
}

#[allow(dead_code)]
fn sj(text: &str) -> serde_json::Value {
    serde_json::from_str(text).unwrap()
}

/// The policy the scenarios below are written against: 16 MiB databases
/// and 8 MiB / 20% reclaimable space, 30 days of activity, 20 snapshot
/// runs kept.
fn default_policy() -> RetentionPolicy {
    RetentionPolicy {
        activity_retention_days: 30,
        verification_retention_days: 90,
        keep_snapshot_runs: 20,
        activity_rows_threshold: 1_000_000,
        snapshot_runs_threshold: 200,
        verification_runs_threshold: 1_000,
        cleanup_review_db_bytes_threshold: 16 * 1024 * 1024,
        vacuum_reclaimable_bytes_threshold: 8 * 1024 * 1024,
        vacuum_reclaim_ratio_threshold_percent: 20,
    }
}

fn ratio_reaches(m: &StorageMetrics, p: &RetentionPolicy) -> bool {
    let ratio = if m.approx_db_size_bytes <= 0 {
        0.0
    } else {
        m.approx_reclaimable_bytes as f64 / m.approx_db_size_bytes as f64
    };
    ratio >= p.vacuum_reclaim_ratio_threshold_percent as f64 / 100.0
}

fn maintenance(
    metrics: Option<&StorageMetrics>,
    counts: Option<&StorageEvidenceCounts>,
    policy: &RetentionPolicy,
) -> serde_json::Value {
    let reached = metrics.map(|m| ratio_reaches(m, policy)).unwrap_or(false);
    to_serde(&project_storage_maintenance_with_policy(metrics, counts, policy, reached))
}

fn layer(projects: &[serde_json::Value]) -> serde_json::Value {
    let values: Vec<JsonValue> = projects.iter().map(from_serde).collect();
    to_serde(&storage_maintenance_layer(&values).0)
}

fn templates(project_id: Option<&str>, sm: &serde_json::Value) -> Vec<serde_json::Value> {
    storage_maintenance_execution_templates(project_id, &from_serde(sm), &default_policy())
        .iter()
        .map(to_serde)
        .collect()
}

fn augment(entrypoints: &mut serde_json::Value, project_id: Option<&str>, sm: &serde_json::Value) {
    let mut value = from_serde(entrypoints);
    augment_entrypoints_for_storage_maintenance(&mut value, project_id, &from_serde(sm), &default_policy());
    *entrypoints = to_serde(&value);
}


#[test]
fn tests_project_storage_maintenance_none_metrics() {
    let result = maintenance(None, None, &default_policy());
    assert_eq!(result["status"], "unavailable");
    assert_eq!(result["cleanup_review_candidate"], false);
    assert_eq!(result["maintenance_candidate"], false);
    assert_eq!(result["vacuum_candidate"], false);
    assert_eq!(result["suggested_mode"], "none");
}

#[test]
fn tests_project_storage_maintenance_small_db_under_threshold() {
    let metrics = StorageMetrics {
        page_size: 4096,
        page_count: 100,
        freelist_count: 5,
        approx_db_size_bytes: 409_600,
        approx_reclaimable_bytes: 20_480,
    };
    let result =
        maintenance(Some(&metrics), None, &default_policy());
    assert_eq!(result["status"], "available");
    assert_eq!(result["cleanup_review_candidate"], false);
    assert_eq!(result["maintenance_candidate"], false);
    assert_eq!(result["vacuum_candidate"], false);
    assert_eq!(result["suggested_mode"], "none");
}

#[test]
fn tests_project_storage_maintenance_large_db_over_threshold() {
    let metrics = StorageMetrics {
        page_size: 4096,
        page_count: 10000,
        freelist_count: 500,
        approx_db_size_bytes: 40_960_000,
        approx_reclaimable_bytes: 2_048_000,
    };
    let result =
        maintenance(Some(&metrics), None, &default_policy());
    assert_eq!(result["cleanup_review_candidate"], true);
    assert_eq!(result["maintenance_candidate"], true);
    assert_eq!(result["vacuum_candidate"], false);
    assert_eq!(result["suggested_mode"], "review_cleanup");
}

#[test]
fn tests_project_storage_maintenance_vacuum_candidate() {
    // Thresholds: db >= 16MB, reclaimable >= 8MB, ratio >= 0.20
    let metrics = StorageMetrics {
        page_size: 4096,
        page_count: 10000,
        freelist_count: 5000,
        approx_db_size_bytes: 40_960_000,
        approx_reclaimable_bytes: 20_480_000,
    };
    let result =
        maintenance(Some(&metrics), None, &default_policy());
    assert_eq!(result["cleanup_review_candidate"], true);
    assert_eq!(result["maintenance_candidate"], true);
    assert_eq!(result["vacuum_candidate"], true);
    assert_eq!(result["suggested_mode"], "review_cleanup_then_vacuum");
}

#[test]
fn tests_project_storage_maintenance_large_db_but_small_reclaimable() {
    let metrics = StorageMetrics {
        page_size: 4096,
        page_count: 10000,
        freelist_count: 10,
        approx_db_size_bytes: 40_960_000,
        approx_reclaimable_bytes: 40_960,
    };
    let result =
        maintenance(Some(&metrics), None, &default_policy());
    assert_eq!(result["cleanup_review_candidate"], true);
    assert_eq!(result["maintenance_candidate"], true);
    // Reclaimable is under 8MB threshold
    assert_eq!(result["vacuum_candidate"], false);
}

#[test]
fn tests_project_storage_maintenance_reflects_fields() {
    let metrics = StorageMetrics {
        page_size: 4096,
        page_count: 500,
        freelist_count: 50,
        approx_db_size_bytes: 2_048_000,
        approx_reclaimable_bytes: 204_800,
    };
    let result =
        maintenance(Some(&metrics), None, &default_policy());
    assert_eq!(result["page_count"], 500);
    assert_eq!(result["freelist_count"], 50);
    assert_eq!(result["approx_db_size_bytes"], 2_048_000);
    assert_eq!(result["approx_reclaimable_bytes"], 204_800);
}

#[test]
fn tests_project_storage_maintenance_activity_pressure_recommends_activity_cleanup() {
    let metrics = StorageMetrics {
        page_size: 4096,
        page_count: 100,
        freelist_count: 5,
        approx_db_size_bytes: 409_600,
        approx_reclaimable_bytes: 20_480,
    };
    let counts = StorageEvidenceCounts {
        file_sightings: 1_200_000,
        file_events: 20,
        activity_daily_rollups: 0,
        verification_runs: 0,
        snapshot_runs: 0,
    };
    let result = maintenance(
        Some(&metrics),
        Some(&counts), &default_policy());
    assert_eq!(result["cleanup_review_candidate"], false);
    assert_eq!(result["evidence_pressure_candidate"], true);
    assert_eq!(result["maintenance_candidate"], true);
    assert_eq!(result["suggested_mode"], "review_cleanup");
    assert_eq!(result["pressure_level"], "high");
    assert_eq!(
        result["cleanup_recommendations"][0]["scope"],
        sj(r#""activity""#)
    );
    assert_eq!(
        result["cleanup_recommendations"][0]["older_than_days"],
        sj(r#"30"#)
    );
}

#[test]
fn tests_project_storage_maintenance_snapshot_pressure_recommends_snapshot_cleanup() {
    let metrics = StorageMetrics {
        page_size: 4096,
        page_count: 100,
        freelist_count: 5,
        approx_db_size_bytes: 409_600,
        approx_reclaimable_bytes: 20_480,
    };
    let counts = StorageEvidenceCounts {
        file_sightings: 0,
        file_events: 0,
        activity_daily_rollups: 0,
        verification_runs: 0,
        snapshot_runs: 250,
    };
    let result = maintenance(
        Some(&metrics),
        Some(&counts), &default_policy());
    assert_eq!(result["evidence_pressure_candidate"], true);
    assert_eq!(
        result["cleanup_recommendations"][0]["scope"],
        sj(r#""snapshots""#)
    );
    assert_eq!(
        result["cleanup_recommendations"][0]["keep_snapshot_runs"],
        sj(r#"20"#)
    );
}

// --- storage_maintenance_layer tests ---


#[test]
fn project_assessment_project_storage_maintenance_none_metrics() {
    let result = maintenance(None, None, &default_policy());
    assert_eq!(result["status"], "unavailable");
    assert_eq!(result["cleanup_review_candidate"], false);
    assert_eq!(result["maintenance_candidate"], false);
    assert_eq!(result["vacuum_candidate"], false);
    assert_eq!(result["suggested_mode"], "none");
}

#[test]
fn project_assessment_project_storage_maintenance_small_db_under_threshold() {
    let metrics = StorageMetrics {
        page_size: 4096,
        page_count: 100,
        freelist_count: 5,
        approx_db_size_bytes: 409_600,
        approx_reclaimable_bytes: 20_480,
    };
    let result =
        maintenance(Some(&metrics), None, &default_policy());
    assert_eq!(result["status"], "available");
    assert_eq!(result["cleanup_review_candidate"], false);
    assert_eq!(result["maintenance_candidate"], false);
    assert_eq!(result["vacuum_candidate"], false);
    assert_eq!(result["suggested_mode"], "none");
}

#[test]
fn project_assessment_project_storage_maintenance_large_db_over_threshold() {
    let metrics = StorageMetrics {
        page_size: 4096,
        page_count: 10000,
        freelist_count: 500,
        approx_db_size_bytes: 40_960_000,
        approx_reclaimable_bytes: 2_048_000,
    };
    let result =
        maintenance(Some(&metrics), None, &default_policy());
    assert_eq!(result["cleanup_review_candidate"], true);
    assert_eq!(result["maintenance_candidate"], true);
    assert_eq!(result["vacuum_candidate"], false);
    assert_eq!(result["suggested_mode"], "review_cleanup");
}

#[test]
fn project_assessment_project_storage_maintenance_vacuum_candidate() {
    // Thresholds: db >= 16MB, reclaimable >= 8MB, ratio >= 0.20
    let metrics = StorageMetrics {
        page_size: 4096,
        page_count: 10000,
        freelist_count: 5000,
        approx_db_size_bytes: 40_960_000,
        approx_reclaimable_bytes: 20_480_000,
    };
    let result =
        maintenance(Some(&metrics), None, &default_policy());
    assert_eq!(result["cleanup_review_candidate"], true);
    assert_eq!(result["maintenance_candidate"], true);
    assert_eq!(result["vacuum_candidate"], true);
    assert_eq!(result["suggested_mode"], "review_cleanup_then_vacuum");
}

#[test]
fn project_assessment_project_storage_maintenance_large_db_but_small_reclaimable() {
    let metrics = StorageMetrics {
        page_size: 4096,
        page_count: 10000,
        freelist_count: 10,
        approx_db_size_bytes: 40_960_000,
        approx_reclaimable_bytes: 40_960,
    };
    let result =
        maintenance(Some(&metrics), None, &default_policy());
    assert_eq!(result["cleanup_review_candidate"], true);
    assert_eq!(result["maintenance_candidate"], true);
    // Reclaimable is under 8MB threshold
    assert_eq!(result["vacuum_candidate"], false);
}

#[test]
fn project_assessment_project_storage_maintenance_reflects_fields() {
    let metrics = StorageMetrics {
        page_size: 4096,
        page_count: 500,
        freelist_count: 50,
        approx_db_size_bytes: 2_048_000,
        approx_reclaimable_bytes: 204_800,
    };
    let result =
        maintenance(Some(&metrics), None, &default_policy());
    assert_eq!(result["page_count"], 500);
    assert_eq!(result["freelist_count"], 50);
    assert_eq!(result["approx_db_size_bytes"], 2_048_000);
    assert_eq!(result["approx_reclaimable_bytes"], 204_800);
}

#[test]
fn project_assessment_project_storage_maintenance_activity_pressure_recommends_activity_cleanup() {
    let metrics = StorageMetrics {
        page_size: 4096,
        page_count: 100,
        freelist_count: 5,
        approx_db_size_bytes: 409_600,
        approx_reclaimable_bytes: 20_480,
    };
    let counts = StorageEvidenceCounts {
        file_sightings: 1_200_000,
        file_events: 20,
        activity_daily_rollups: 0,
        verification_runs: 0,
        snapshot_runs: 0,
    };
    let result = maintenance(
        Some(&metrics),
        Some(&counts), &default_policy());
    assert_eq!(result["cleanup_review_candidate"], false);
    assert_eq!(result["evidence_pressure_candidate"], true);
    assert_eq!(result["maintenance_candidate"], true);
    assert_eq!(result["suggested_mode"], "review_cleanup");
    assert_eq!(result["pressure_level"], "high");
    assert_eq!(
        result["cleanup_recommendations"][0]["scope"],
        sj(r#""activity""#)
    );
    assert_eq!(
        result["cleanup_recommendations"][0]["older_than_days"],
        sj(r#"30"#)
    );
}

#[test]
fn project_assessment_project_storage_maintenance_snapshot_pressure_recommends_snapshot_cleanup() {
    let metrics = StorageMetrics {
        page_size: 4096,
        page_count: 100,
        freelist_count: 5,
        approx_db_size_bytes: 409_600,
        approx_reclaimable_bytes: 20_480,
    };
    let counts = StorageEvidenceCounts {
        file_sightings: 0,
        file_events: 0,
        activity_daily_rollups: 0,
        verification_runs: 0,
        snapshot_runs: 250,
    };
    let result = maintenance(
        Some(&metrics),
        Some(&counts), &default_policy());
    assert_eq!(result["evidence_pressure_candidate"], true);
    assert_eq!(
        result["cleanup_recommendations"][0]["scope"],
        sj(r#""snapshots""#)
    );
    assert_eq!(
        result["cleanup_recommendations"][0]["keep_snapshot_runs"],
        sj(r#"20"#)
    );
}

// --- storage_maintenance_layer tests ---


#[test]
fn tests_storage_maintenance_layer_empty_projects() {
    let result = layer(&[]);
    assert_eq!(result["status"], "available");
    assert_eq!(result["projects_with_candidates"], 0);
    assert_eq!(result["projects_with_vacuum_candidates"], 0);
    assert_eq!(result["total_approx_db_size_bytes"], 0);
    assert_eq!(result["total_approx_reclaimable_bytes"], 0);
    assert!(result["priority_projects"].as_array().unwrap().is_empty());
}

#[test]
fn tests_storage_maintenance_layer_aggregates_sizes() {
    let projects = vec![
        sj(r#"{
            "project_id": "proj_a",
            "status": "available",
            "storage_maintenance": {
                "maintenance_candidate": false,
                "vacuum_candidate": false,
                "cleanup_review_candidate": false,
                "approx_db_size_bytes": 1000000,
                "approx_reclaimable_bytes": 100000,
                "reclaim_ratio": 0.1,
                "suggested_mode": "none",
                "summary": "small"
            }
        }"#),
        sj(r#"{
            "project_id": "proj_b",
            "status": "available",
            "storage_maintenance": {
                "maintenance_candidate": false,
                "vacuum_candidate": false,
                "cleanup_review_candidate": false,
                "approx_db_size_bytes": 2000000,
                "approx_reclaimable_bytes": 200000,
                "reclaim_ratio": 0.1,
                "suggested_mode": "none",
                "summary": "small"
            }
        }"#),
    ];
    let result = layer(&projects);
    assert_eq!(result["total_approx_db_size_bytes"], 3_000_000);
    assert_eq!(result["total_approx_reclaimable_bytes"], 300_000);
    assert_eq!(result["projects_with_candidates"], 0);
}

#[test]
fn tests_storage_maintenance_layer_filters_candidates() {
    let projects = vec![
        sj(r#"{
            "project_id": "clean_project",
            "status": "available",
            "storage_maintenance": {
                "maintenance_candidate": false,
                "vacuum_candidate": false,
                "cleanup_review_candidate": false,
                "approx_db_size_bytes": 500000,
                "approx_reclaimable_bytes": 0,
                "reclaim_ratio": 0.0,
                "suggested_mode": "none",
                "summary": "no issues"
            }
        }"#),
        sj(r#"{
            "project_id": "dirty_project",
            "status": "available",
            "storage_maintenance": {
                "maintenance_candidate": true,
                "vacuum_candidate": true,
                "cleanup_review_candidate": true,
                "approx_db_size_bytes": 50000000,
                "approx_reclaimable_bytes": 25000000,
                "reclaim_ratio": 0.5,
                "suggested_mode": "review_cleanup_then_vacuum",
                "summary": "needs cleanup"
            }
        }"#),
    ];
    let result = layer(&projects);
    assert_eq!(result["projects_with_candidates"], 1);
    assert_eq!(result["projects_with_vacuum_candidates"], 1);
    let priority = result["priority_projects"].as_array().unwrap();
    assert_eq!(priority.len(), 1);
    assert_eq!(priority[0]["project_id"], "dirty_project");
}

#[test]
fn tests_storage_maintenance_layer_truncates_to_five() {
    let mut projects = Vec::new();
    for i in 0..8 {
        projects.push(sj(&format!(
            r#"{{
                "project_id": "proj_{}",
                "status": "available",
                "storage_maintenance": {{
                    "maintenance_candidate": true,
                    "vacuum_candidate": {},
                    "cleanup_review_candidate": true,
                    "approx_db_size_bytes": {},
                    "approx_reclaimable_bytes": {},
                    "reclaim_ratio": 0.5,
                    "suggested_mode": "review_cleanup_then_vacuum",
                    "summary": "needs attention"
                }}
            }}"#,
            i,
            i % 2 == 0,
            30_000_000 + i as i64 * 1_000_000,
            15_000_000 + i as i64 * 500_000
        )));
    }
    let result = layer(&projects);
    let priority = result["priority_projects"].as_array().unwrap();
    assert_eq!(priority.len(), 5);
}

#[test]
fn tests_storage_maintenance_layer_sorts_vacuum_candidates_first() {
    let projects = vec![
        sj(r#"{
            "project_id": "no_vacuum",
            "status": "available",
            "storage_maintenance": {
                "maintenance_candidate": true,
                "vacuum_candidate": false,
                "cleanup_review_candidate": true,
                "approx_db_size_bytes": 30000000,
                "approx_reclaimable_bytes": 2000000,
                "reclaim_ratio": 0.07,
                "suggested_mode": "review_cleanup",
                "summary": "cleanup only"
            }
        }"#),
        sj(r#"{
            "project_id": "with_vacuum",
            "status": "available",
            "storage_maintenance": {
                "maintenance_candidate": true,
                "vacuum_candidate": true,
                "cleanup_review_candidate": true,
                "approx_db_size_bytes": 30000000,
                "approx_reclaimable_bytes": 2000000,
                "reclaim_ratio": 0.07,
                "suggested_mode": "review_cleanup_then_vacuum",
                "summary": "vacuum needed"
            }
        }"#),
    ];
    let result = layer(&projects);
    let priority = result["priority_projects"].as_array().unwrap();
    assert_eq!(priority.len(), 2);
    // Vacuum candidate should be first
    assert_eq!(priority[0]["project_id"], "with_vacuum");
    assert_eq!(priority[1]["project_id"], "no_vacuum");
}

// --- storage_maintenance_execution_templates tests ---


#[test]
fn layer_aggregation_storage_maintenance_layer_empty_projects() {
    let result = layer(&[]);
    assert_eq!(result["status"], "available");
    assert_eq!(result["projects_with_candidates"], 0);
    assert_eq!(result["projects_with_vacuum_candidates"], 0);
    assert_eq!(result["total_approx_db_size_bytes"], 0);
    assert_eq!(result["total_approx_reclaimable_bytes"], 0);
    assert!(result["priority_projects"].as_array().unwrap().is_empty());
}

#[test]
fn layer_aggregation_storage_maintenance_layer_aggregates_sizes() {
    let projects = vec![
        sj(r#"{
            "project_id": "proj_a",
            "status": "available",
            "storage_maintenance": {
                "maintenance_candidate": false,
                "vacuum_candidate": false,
                "cleanup_review_candidate": false,
                "approx_db_size_bytes": 1000000,
                "approx_reclaimable_bytes": 100000,
                "reclaim_ratio": 0.1,
                "suggested_mode": "none",
                "summary": "small"
            }
        }"#),
        sj(r#"{
            "project_id": "proj_b",
            "status": "available",
            "storage_maintenance": {
                "maintenance_candidate": false,
                "vacuum_candidate": false,
                "cleanup_review_candidate": false,
                "approx_db_size_bytes": 2000000,
                "approx_reclaimable_bytes": 200000,
                "reclaim_ratio": 0.1,
                "suggested_mode": "none",
                "summary": "small"
            }
        }"#),
    ];
    let result = layer(&projects);
    assert_eq!(result["total_approx_db_size_bytes"], 3_000_000);
    assert_eq!(result["total_approx_reclaimable_bytes"], 300_000);
    assert_eq!(result["projects_with_candidates"], 0);
}

#[test]
fn layer_aggregation_storage_maintenance_layer_filters_candidates() {
    let projects = vec![
        sj(r#"{
            "project_id": "clean_project",
            "status": "available",
            "storage_maintenance": {
                "maintenance_candidate": false,
                "vacuum_candidate": false,
                "cleanup_review_candidate": false,
                "approx_db_size_bytes": 500000,
                "approx_reclaimable_bytes": 0,
                "reclaim_ratio": 0.0,
                "suggested_mode": "none",
                "summary": "no issues"
            }
        }"#),
        sj(r#"{
            "project_id": "dirty_project",
            "status": "available",
            "storage_maintenance": {
                "maintenance_candidate": true,
                "vacuum_candidate": true,
                "cleanup_review_candidate": true,
                "approx_db_size_bytes": 50000000,
                "approx_reclaimable_bytes": 25000000,
                "reclaim_ratio": 0.5,
                "suggested_mode": "review_cleanup_then_vacuum",
                "summary": "needs cleanup"
            }
        }"#),
    ];
    let result = layer(&projects);
    assert_eq!(result["projects_with_candidates"], 1);
    assert_eq!(result["projects_with_vacuum_candidates"], 1);
    let priority = result["priority_projects"].as_array().unwrap();
    assert_eq!(priority.len(), 1);
    assert_eq!(priority[0]["project_id"], "dirty_project");
}

#[test]
fn layer_aggregation_storage_maintenance_layer_truncates_to_five() {
    let mut projects = Vec::new();
    for i in 0..8 {
        projects.push(sj(&format!(
            r#"{{
                "project_id": "proj_{}",
                "status": "available",
                "storage_maintenance": {{
                    "maintenance_candidate": true,
                    "vacuum_candidate": {},
                    "cleanup_review_candidate": true,
                    "approx_db_size_bytes": {},
                    "approx_reclaimable_bytes": {},
                    "reclaim_ratio": 0.5,
                    "suggested_mode": "review_cleanup_then_vacuum",
                    "summary": "needs attention"
                }}
            }}"#,
            i,
            i % 2 == 0,
            30_000_000 + i as i64 * 1_000_000,
            15_000_000 + i as i64 * 500_000
        )));
    }
    let result = layer(&projects);
    let priority = result["priority_projects"].as_array().unwrap();
    assert_eq!(priority.len(), 5);
}

#[test]
fn layer_aggregation_storage_maintenance_layer_sorts_vacuum_candidates_first() {
    let projects = vec![
        sj(r#"{
            "project_id": "no_vacuum",
            "status": "available",
            "storage_maintenance": {
                "maintenance_candidate": true,
                "vacuum_candidate": false,
                "cleanup_review_candidate": true,
                "approx_db_size_bytes": 30000000,
                "approx_reclaimable_bytes": 2000000,
                "reclaim_ratio": 0.07,
                "suggested_mode": "review_cleanup",
                "summary": "cleanup only"
            }
        }"#),
        sj(r#"{
            "project_id": "with_vacuum",
            "status": "available",
            "storage_maintenance": {
                "maintenance_candidate": true,
                "vacuum_candidate": true,
                "cleanup_review_candidate": true,
                "approx_db_size_bytes": 30000000,
                "approx_reclaimable_bytes": 2000000,
                "reclaim_ratio": 0.07,
                "suggested_mode": "review_cleanup_then_vacuum",
                "summary": "vacuum needed"
            }
        }"#),
    ];
    let result = layer(&projects);
    let priority = result["priority_projects"].as_array().unwrap();
    assert_eq!(priority.len(), 2);
    // Vacuum candidate should be first
    assert_eq!(priority[0]["project_id"], "with_vacuum");
    assert_eq!(priority[1]["project_id"], "no_vacuum");
}

// --- storage_maintenance_execution_templates tests ---


#[test]
fn tests_execution_templates_returns_empty_for_non_maintenance() {
    let sm = sj(r#"{
        "maintenance_candidate": false,
        "vacuum_candidate": false,
        "approx_reclaimable_bytes": 0
    }"#);
    let result = templates(Some("proj"), &sm);
    assert!(result.is_empty());
}

#[test]
fn tests_execution_templates_returns_empty_for_missing_field() {
    let sm = sj(r#"{}"#);
    let result = templates(Some("proj"), &sm);
    assert!(result.is_empty());
}

#[test]
fn tests_execution_templates_returns_preview_template_with_project_id() {
    let sm = sj(r#"{
        "maintenance_candidate": true,
        "vacuum_candidate": false,
        "approx_reclaimable_bytes": 0
    }"#);
    let result = templates(Some("myproject"), &sm);
    assert_eq!(result.len(), 1);
    let tpl = &result[0];
    assert_eq!(tpl["template_id"], "storage.cleanup.preview");
    let cmd = tpl["command_template"].as_str().unwrap();
    assert!(cmd.contains("myproject"));
    let hints = tpl["placeholder_hints"].as_array().unwrap();
    assert!(hints.is_empty());
}

#[test]
fn tests_execution_templates_returns_preview_template_with_placeholder() {
    let sm = sj(r#"{
        "maintenance_candidate": true,
        "vacuum_candidate": false,
        "approx_reclaimable_bytes": 0
    }"#);
    let result = templates(None, &sm);
    assert_eq!(result.len(), 1);
    let hints = result[0]["placeholder_hints"].as_array().unwrap();
    assert_eq!(hints.len(), 1);
    assert_eq!(hints[0]["field"], "id");
    assert_eq!(hints[0]["placeholder"], "<project>");
    assert!(hints[0]["description"]
        .as_str()
        .unwrap()
        .contains("project id"));
}

#[test]
fn tests_execution_templates_returns_compact_template_for_vacuum_candidate() {
    let sm = sj(r#"{
        "maintenance_candidate": true,
        "vacuum_candidate": true,
        "approx_reclaimable_bytes": 10000000
    }"#);
    let result = templates(Some("proj"), &sm);
    assert_eq!(result.len(), 2);
    assert_eq!(result[1]["template_id"], "storage.cleanup.compact");
    assert_eq!(result[1]["requires_human_confirmation"], true);
}

#[test]
fn tests_execution_templates_compact_includes_reclaimable_bytes_in_success_signal() {
    let sm = sj(r#"{
        "maintenance_candidate": true,
        "vacuum_candidate": true,
        "approx_reclaimable_bytes": 5000
    }"#);
    let result = templates(Some("proj"), &sm);
    assert_eq!(result.len(), 2);
    let signal = result[1]["success_signal"].as_str().unwrap();
    assert!(signal.contains("5000"));
}

#[test]
fn tests_execution_templates_preview_has_priority_1() {
    let sm = sj(r#"{
        "maintenance_candidate": true,
        "vacuum_candidate": false,
        "approx_reclaimable_bytes": 0
    }"#);
    let result = templates(Some("proj"), &sm);
    assert_eq!(result[0]["priority"], 1);
}

#[test]
fn tests_execution_templates_include_scope_specific_cleanup_recommendations() {
    let sm = sj(r#"{
        "maintenance_candidate": true,
        "vacuum_candidate": false,
        "approx_reclaimable_bytes": 0,
        "cleanup_recommendations": [
            {"scope": "activity", "older_than_days": 30},
            {"scope": "snapshots", "keep_snapshot_runs": 20}
        ]
    }"#);
    let result = templates(Some("proj"), &sm);
    let commands: Vec<&str> = result
        .iter()
        .filter_map(|template| template["command_template"].as_str())
        .collect();
    assert!(commands.iter().any(|cmd| cmd.contains(
        "opendog cleanup-data --id proj --scope activity --older-than-days 30 --dry-run --json"
    )));
    assert!(commands.iter().any(|cmd| cmd.contains(
        "opendog cleanup-data --id proj --scope snapshots --keep-snapshot-runs 20 --dry-run --json"
    )));
}

#[test]
fn tests_execution_templates_compact_has_priority_2() {
    let sm = sj(r#"{
        "maintenance_candidate": true,
        "vacuum_candidate": true,
        "approx_reclaimable_bytes": 10000000
    }"#);
    let result = templates(Some("proj"), &sm);
    assert_eq!(result[0]["priority"], 1);
    assert_eq!(result[1]["priority"], 2);
}

#[test]
fn tests_execution_templates_keep_stable_catalog_order_and_priorities() {
    let sm = sj(r#"{
        "maintenance_candidate": true,
        "vacuum_candidate": true,
        "approx_reclaimable_bytes": 10000000,
        "cleanup_recommendations": [
            {"scope": "activity", "older_than_days": 30},
            {"scope": "snapshots", "keep_snapshot_runs": 20}
        ],
        "cleanup_plan": {
            "steps": [
                {"phase": "execute_cleanup", "scope": "activity", "older_than_days": 30},
                {"phase": "execute_cleanup", "scope": "snapshots", "keep_snapshot_runs": 20}
            ]
        }
    }"#);

    let result = templates(Some("proj"), &sm);
    let ids = result
        .iter()
        .map(|template| template["template_id"].as_str().unwrap())
        .collect::<Vec<_>>();
    assert_eq!(
        ids,
        vec![
            "storage.cleanup.preview",
            "storage.cleanup.activity.preview",
            "storage.cleanup.snapshots.preview",
            "storage.cleanup.activity.execute",
            "storage.cleanup.snapshots.execute",
            "storage.cleanup.compact",
        ]
    );

    let priorities = result
        .iter()
        .map(|template| template["priority"].as_u64().unwrap())
        .collect::<Vec<_>>();
    assert_eq!(priorities, vec![1, 2, 3, 4, 5, 6]);
}

// --- augment_entrypoints_for_storage_maintenance tests ---


#[test]
fn execution_templates_execution_templates_returns_empty_for_non_maintenance() {
    let sm = sj(r#"{
        "maintenance_candidate": false,
        "vacuum_candidate": false,
        "approx_reclaimable_bytes": 0
    }"#);
    let result = templates(Some("proj"), &sm);
    assert!(result.is_empty());
}

#[test]
fn execution_templates_execution_templates_returns_empty_for_missing_field() {
    let sm = sj(r#"{}"#);
    let result = templates(Some("proj"), &sm);
    assert!(result.is_empty());
}

#[test]
fn execution_templates_execution_templates_returns_preview_template_with_project_id() {
    let sm = sj(r#"{
        "maintenance_candidate": true,
        "vacuum_candidate": false,
        "approx_reclaimable_bytes": 0
    }"#);
    let result = templates(Some("myproject"), &sm);
    assert_eq!(result.len(), 1);
    let tpl = &result[0];
    assert_eq!(tpl["template_id"], "storage.cleanup.preview");
    let cmd = tpl["command_template"].as_str().unwrap();
    assert!(cmd.contains("myproject"));
    let hints = tpl["placeholder_hints"].as_array().unwrap();
    assert!(hints.is_empty());
}

#[test]
fn execution_templates_execution_templates_returns_preview_template_with_placeholder() {
    let sm = sj(r#"{
        "maintenance_candidate": true,
        "vacuum_candidate": false,
        "approx_reclaimable_bytes": 0
    }"#);
    let result = templates(None, &sm);
    assert_eq!(result.len(), 1);
    let hints = result[0]["placeholder_hints"].as_array().unwrap();
    assert_eq!(hints.len(), 1);
    assert_eq!(hints[0]["field"], "id");
    assert_eq!(hints[0]["placeholder"], "<project>");
    assert!(hints[0]["description"]
        .as_str()
        .unwrap()
        .contains("project id"));
}

#[test]
fn execution_templates_execution_templates_returns_compact_template_for_vacuum_candidate() {
    let sm = sj(r#"{
        "maintenance_candidate": true,
        "vacuum_candidate": true,
        "approx_reclaimable_bytes": 10000000
    }"#);
    let result = templates(Some("proj"), &sm);
    assert_eq!(result.len(), 2);
    assert_eq!(result[1]["template_id"], "storage.cleanup.compact");
    assert_eq!(result[1]["requires_human_confirmation"], true);
}

#[test]
fn execution_templates_execution_templates_compact_includes_reclaimable_bytes_in_success_signal() {
    let sm = sj(r#"{
        "maintenance_candidate": true,
        "vacuum_candidate": true,
        "approx_reclaimable_bytes": 5000
    }"#);
    let result = templates(Some("proj"), &sm);
    assert_eq!(result.len(), 2);
    let signal = result[1]["success_signal"].as_str().unwrap();
    assert!(signal.contains("5000"));
}

#[test]
fn execution_templates_execution_templates_preview_has_priority_1() {
    let sm = sj(r#"{
        "maintenance_candidate": true,
        "vacuum_candidate": false,
        "approx_reclaimable_bytes": 0
    }"#);
    let result = templates(Some("proj"), &sm);
    assert_eq!(result[0]["priority"], 1);
}

#[test]
fn execution_templates_execution_templates_include_scope_specific_cleanup_recommendations() {
    let sm = sj(r#"{
        "maintenance_candidate": true,
        "vacuum_candidate": false,
        "approx_reclaimable_bytes": 0,
        "cleanup_recommendations": [
            {"scope": "activity", "older_than_days": 30},
            {"scope": "snapshots", "keep_snapshot_runs": 20}
        ]
    }"#);
    let result = templates(Some("proj"), &sm);
    let commands: Vec<&str> = result
        .iter()
        .filter_map(|template| template["command_template"].as_str())
        .collect();
    assert!(commands.iter().any(|cmd| cmd.contains(
        "opendog cleanup-data --id proj --scope activity --older-than-days 30 --dry-run --json"
    )));
    assert!(commands.iter().any(|cmd| cmd.contains(
        "opendog cleanup-data --id proj --scope snapshots --keep-snapshot-runs 20 --dry-run --json"
    )));
}

#[test]
fn execution_templates_execution_templates_compact_has_priority_2() {
    let sm = sj(r#"{
        "maintenance_candidate": true,
        "vacuum_candidate": true,
        "approx_reclaimable_bytes": 10000000
    }"#);
    let result = templates(Some("proj"), &sm);
    assert_eq!(result[0]["priority"], 1);
    assert_eq!(result[1]["priority"], 2);
}

#[test]
fn execution_templates_execution_templates_keep_stable_catalog_order_and_priorities() {
    let sm = sj(r#"{
        "maintenance_candidate": true,
        "vacuum_candidate": true,
        "approx_reclaimable_bytes": 10000000,
        "cleanup_recommendations": [
            {"scope": "activity", "older_than_days": 30},
            {"scope": "snapshots", "keep_snapshot_runs": 20}
        ],
        "cleanup_plan": {
            "steps": [
                {"phase": "execute_cleanup", "scope": "activity", "older_than_days": 30},
                {"phase": "execute_cleanup", "scope": "snapshots", "keep_snapshot_runs": 20}
            ]
        }
    }"#);

    let result = templates(Some("proj"), &sm);
    let ids = result
        .iter()
        .map(|template| template["template_id"].as_str().unwrap())
        .collect::<Vec<_>>();
    assert_eq!(
        ids,
        vec![
            "storage.cleanup.preview",
            "storage.cleanup.activity.preview",
            "storage.cleanup.snapshots.preview",
            "storage.cleanup.activity.execute",
            "storage.cleanup.snapshots.execute",
            "storage.cleanup.compact",
        ]
    );

    let priorities = result
        .iter()
        .map(|template| template["priority"].as_u64().unwrap())
        .collect::<Vec<_>>();
    assert_eq!(priorities, vec![1, 2, 3, 4, 5, 6]);
}

// --- augment_entrypoints_for_storage_maintenance tests ---


#[test]
fn tests_augment_no_op_for_non_maintenance() {
    let mut entrypoints = sj(r#"{
        "next_cli_commands": ["original_cmd"],
        "selection_reasons": [{"kind": "other", "why": "original"}],
        "execution_templates": [{"template_id": "existing", "priority": 1}]
    }"#);
    let sm = sj(r#"{"maintenance_candidate": false}"#);
    augment(&mut entrypoints, Some("proj"), &sm);
    assert_eq!(entrypoints["next_cli_commands"][0], "original_cmd");
    assert_eq!(entrypoints["selection_reasons"][0]["why"], "original");
}

#[test]
fn tests_augment_prepends_cleanup_command() {
    let mut entrypoints = sj(r#"{
        "next_cli_commands": ["existing_cmd"],
        "selection_reasons": [],
        "execution_templates": []
    }"#);
    let sm = sj(r#"{
        "maintenance_candidate": true,
        "vacuum_candidate": false,
        "approx_reclaimable_bytes": 0,
        "summary": "needs cleanup"
    }"#);
    augment(&mut entrypoints, Some("myproj"), &sm);
    let cmds = entrypoints["next_cli_commands"].as_array().unwrap();
    assert!(cmds[0].as_str().unwrap().contains("myproj"));
    assert!(cmds[0].as_str().unwrap().contains("cleanup-data"));
}

#[test]
fn tests_augment_prepends_selection_reason() {
    let mut entrypoints = sj(r#"{
        "next_cli_commands": [],
        "selection_reasons": [],
        "execution_templates": []
    }"#);
    let sm = sj(r#"{
        "maintenance_candidate": true,
        "vacuum_candidate": false,
        "approx_reclaimable_bytes": 0,
        "summary": "database is large"
    }"#);
    augment(&mut entrypoints, Some("proj"), &sm);
    let reasons = entrypoints["selection_reasons"].as_array().unwrap();
    assert_eq!(reasons[0]["why"], "database is large");
}

#[test]
fn tests_augment_prepends_execution_templates_and_renumbers() {
    let mut entrypoints = sj(r#"{
        "next_cli_commands": [],
        "selection_reasons": [],
        "execution_templates": [{"template_id": "existing", "priority": 99}]
    }"#);
    let sm = sj(r#"{
        "maintenance_candidate": true,
        "vacuum_candidate": true,
        "approx_reclaimable_bytes": 10000000,
        "summary": "needs vacuum"
    }"#);
    augment(&mut entrypoints, Some("proj"), &sm);
    let templates = entrypoints["execution_templates"].as_array().unwrap();
    assert_eq!(templates.len(), 3);
    // Reverse insertion: compact inserted at 0, then preview inserted at 0, pushing compact to 1
    assert_eq!(templates[0]["template_id"], "storage.cleanup.preview");
    assert_eq!(templates[1]["template_id"], "storage.cleanup.compact");
    assert_eq!(templates[2]["template_id"], "existing");
    // All priorities renumbered sequentially
    assert_eq!(templates[0]["priority"], 1);
    assert_eq!(templates[1]["priority"], 2);
    assert_eq!(templates[2]["priority"], 3);
}

#[test]
fn tests_augment_uses_project_placeholder_when_none() {
    let mut entrypoints = sj(r#"{
        "next_cli_commands": [],
        "selection_reasons": [],
        "execution_templates": []
    }"#);
    let sm = sj(r#"{
        "maintenance_candidate": true,
        "vacuum_candidate": false,
        "approx_reclaimable_bytes": 0,
        "summary": "needs cleanup"
    }"#);
    augment(&mut entrypoints, None, &sm);
    let cmds = entrypoints["next_cli_commands"].as_array().unwrap();
    assert!(cmds[0].as_str().unwrap().contains("<project>"));
}

#[test]
fn tests_augment_handles_missing_arrays_gracefully() {
    let mut entrypoints = sj(r#"{
        "unrelated_key": "preserved"
    }"#);
    let sm = sj(r#"{
        "maintenance_candidate": true,
        "vacuum_candidate": true,
        "approx_reclaimable_bytes": 10000000,
        "summary": "needs work"
    }"#);
    // Should not panic and should not remove existing keys
    augment(&mut entrypoints, Some("proj"), &sm);
    assert_eq!(entrypoints["unrelated_key"], "preserved");
    // No next_cli_commands, selection_reasons, or execution_templates arrays created
    assert!(entrypoints
        .get("next_cli_commands")
        .is_none_or(|v| v.is_null()));
}


#[test]
fn augmentation_augment_no_op_for_non_maintenance() {
    let mut entrypoints = sj(r#"{
        "next_cli_commands": ["original_cmd"],
        "selection_reasons": [{"kind": "other", "why": "original"}],
        "execution_templates": [{"template_id": "existing", "priority": 1}]
    }"#);
    let sm = sj(r#"{"maintenance_candidate": false}"#);
    augment(&mut entrypoints, Some("proj"), &sm);
    assert_eq!(entrypoints["next_cli_commands"][0], "original_cmd");
    assert_eq!(entrypoints["selection_reasons"][0]["why"], "original");
}

#[test]
fn augmentation_augment_prepends_cleanup_command() {
    let mut entrypoints = sj(r#"{
        "next_cli_commands": ["existing_cmd"],
        "selection_reasons": [],
        "execution_templates": []
    }"#);
    let sm = sj(r#"{
        "maintenance_candidate": true,
        "vacuum_candidate": false,
        "approx_reclaimable_bytes": 0,
        "summary": "needs cleanup"
    }"#);
    augment(&mut entrypoints, Some("myproj"), &sm);
    let cmds = entrypoints["next_cli_commands"].as_array().unwrap();
    assert!(cmds[0].as_str().unwrap().contains("myproj"));
    assert!(cmds[0].as_str().unwrap().contains("cleanup-data"));
}

#[test]
fn augmentation_augment_prepends_selection_reason() {
    let mut entrypoints = sj(r#"{
        "next_cli_commands": [],
        "selection_reasons": [],
        "execution_templates": []
    }"#);
    let sm = sj(r#"{
        "maintenance_candidate": true,
        "vacuum_candidate": false,
        "approx_reclaimable_bytes": 0,
        "summary": "database is large"
    }"#);
    augment(&mut entrypoints, Some("proj"), &sm);
    let reasons = entrypoints["selection_reasons"].as_array().unwrap();
    assert_eq!(reasons[0]["why"], "database is large");
}

#[test]
fn augmentation_augment_prepends_execution_templates_and_renumbers() {
    let mut entrypoints = sj(r#"{
        "next_cli_commands": [],
        "selection_reasons": [],
        "execution_templates": [{"template_id": "existing", "priority": 99}]
    }"#);
    let sm = sj(r#"{
        "maintenance_candidate": true,
        "vacuum_candidate": true,
        "approx_reclaimable_bytes": 10000000,
        "summary": "needs vacuum"
    }"#);
    augment(&mut entrypoints, Some("proj"), &sm);
    let templates = entrypoints["execution_templates"].as_array().unwrap();
    assert_eq!(templates.len(), 3);
    // Reverse insertion: compact inserted at 0, then preview inserted at 0, pushing compact to 1
    assert_eq!(templates[0]["template_id"], "storage.cleanup.preview");
    assert_eq!(templates[1]["template_id"], "storage.cleanup.compact");
    assert_eq!(templates[2]["template_id"], "existing");
    // All priorities renumbered sequentially
    assert_eq!(templates[0]["priority"], 1);
    assert_eq!(templates[1]["priority"], 2);
    assert_eq!(templates[2]["priority"], 3);
}

#[test]
fn augmentation_augment_uses_project_placeholder_when_none() {
    let mut entrypoints = sj(r#"{
        "next_cli_commands": [],
        "selection_reasons": [],
        "execution_templates": []
    }"#);
    let sm = sj(r#"{
        "maintenance_candidate": true,
        "vacuum_candidate": false,
        "approx_reclaimable_bytes": 0,
        "summary": "needs cleanup"
    }"#);
    augment(&mut entrypoints, None, &sm);
    let cmds = entrypoints["next_cli_commands"].as_array().unwrap();
    assert!(cmds[0].as_str().unwrap().contains("<project>"));
}

#[test]
fn augmentation_augment_handles_missing_arrays_gracefully() {
    let mut entrypoints = sj(r#"{
        "unrelated_key": "preserved"
    }"#);
    let sm = sj(r#"{
        "maintenance_candidate": true,
        "vacuum_candidate": true,
        "approx_reclaimable_bytes": 10000000,
        "summary": "needs work"
    }"#);
    // Should not panic and should not remove existing keys
    augment(&mut entrypoints, Some("proj"), &sm);
    assert_eq!(entrypoints["unrelated_key"], "preserved");
    // No next_cli_commands, selection_reasons, or execution_templates arrays created
    assert!(entrypoints
        .get("next_cli_commands")
        .is_none_or(|v| v.is_null()));
}

fn policy() -> RetentionPolicy {
    RetentionPolicy {
        cleanup_review_db_bytes_threshold: 100,
        vacuum_reclaimable_bytes_threshold: 20,
        vacuum_reclaim_ratio_threshold_percent: 25,
        ..default_policy()
    }
}

fn assess(metrics: &StorageMetrics, has_recommendations: bool, policy: &RetentionPolicy) -> StorageMaintenanceAssessment {
    StorageMaintenanceAssessment::from_inputs(metrics, has_recommendations, policy, ratio_reaches(metrics, policy))
}

#[test]
fn template_context_captures_project_and_pressure_fields() {
    let context = StorageMaintenanceTemplateContext::from_inputs(
        None,
        &json(r#"{"maintenance_candidate": true, "vacuum_candidate": true, "approx_reclaimable_bytes": 42}"#),
    );

    assert!(context.should_emit_templates());
    assert_eq!(context.project_id_value(), "<project>");
    assert!(context.project_placeholder_required());
    assert!(context.vacuum_candidate);
    assert_eq!(context.approx_reclaimable_bytes, 42);
}

#[test]
fn template_context_parses_recommendations_and_cleanup_plan_steps() {
    let context = StorageMaintenanceTemplateContext::from_inputs(
        Some("proj"),
        &json(
            r#"{
            "maintenance_candidate": true,
            "cleanup_recommendations": [
                {"scope": "activity", "older_than_days": 14},
                {"scope": "snapshots", "keep_snapshot_runs": 12},
                {"scope": "unknown", "older_than_days": 1}
            ],
            "cleanup_plan": {
                "steps": [
                    {"phase": "prepare_cleanup", "scope": "all"},
                    {"phase": "execute_cleanup", "scope": "verification", "retention_parameters": {"older_than_days": 21}},
                    {"phase": "execute_cleanup", "scope": "snapshots", "retention_parameters": {"keep_snapshot_runs": 7}},
                    {"phase": "execute_cleanup", "scope": "unknown"}
                ]
            }
        }"#,
        ),
    );

    assert_eq!(context.project_id_value(), "proj");
    assert!(!context.project_placeholder_required());
    assert_eq!(context.cleanup_recommendations.len(), 2);
    assert_eq!(
        context.cleanup_recommendations[0].scope,
        StorageCleanupScope::Activity
    );
    assert_eq!(context.cleanup_recommendations[0].older_than_days, Some(14));
    assert_eq!(
        context.cleanup_recommendations[1].scope,
        StorageCleanupScope::Snapshots
    );
    assert_eq!(
        context.cleanup_recommendations[1].keep_snapshot_runs,
        Some(12)
    );
    assert_eq!(context.cleanup_plan_steps.len(), 2);
    assert_eq!(
        context.cleanup_plan_steps[0].scope,
        StorageCleanupScope::Verification
    );
    assert_eq!(context.cleanup_plan_steps[0].older_than_days, Some(21));
    assert_eq!(
        context.cleanup_plan_steps[1].scope,
        StorageCleanupScope::Snapshots
    );
    assert_eq!(context.cleanup_plan_steps[1].keep_snapshot_runs, Some(7));
}

#[test]
fn assessment_marks_vacuum_candidate_as_high_priority() {
    let assessment = assess(
        &StorageMetrics {
            approx_db_size_bytes: 100,
            approx_reclaimable_bytes: 30,
            ..Default::default()
        },
        false,
        &policy(),
    );

    assert!(assessment.vacuum_candidate);
    assert!(assessment.maintenance_candidate);
    assert_eq!(assessment.suggested_mode, "review_cleanup_then_vacuum");
    assert_eq!(assessment.pressure_level, "high");
}

#[test]
fn assessment_uses_evidence_pressure_without_large_database() {
    let assessment = assess(
        &StorageMetrics {
            approx_db_size_bytes: 10,
            approx_reclaimable_bytes: 0,
            ..Default::default()
        },
        true,
        &policy(),
    );

    assert!(!assessment.cleanup_review_candidate);
    assert!(assessment.evidence_pressure_candidate);
    assert!(assessment.maintenance_candidate);
    assert_eq!(assessment.suggested_mode, "review_cleanup");
    assert_eq!(assessment.pressure_level, "high");
}

#[test]
fn assessment_keeps_small_clean_database_low_priority() {
    let assessment = assess(
        &StorageMetrics {
            approx_db_size_bytes: 10,
            approx_reclaimable_bytes: 0,
            ..Default::default()
        },
        false,
        &policy(),
    );

    assert!(!assessment.maintenance_candidate);
    assert_eq!(assessment.suggested_mode, "none");
    assert_eq!(assessment.pressure_level, "low");
}

#[test]
fn workspace_summary_aggregates_and_sorts_priority_projects() {
    let project_overviews = vec![
        json(r#"{"project_id": "large-cleanup", "status": "registered", "storage_maintenance": {"maintenance_candidate": true, "vacuum_candidate": false, "cleanup_review_candidate": true, "approx_db_size_bytes": 900, "approx_reclaimable_bytes": 100, "reclaim_ratio": 0.11, "suggested_mode": "review_cleanup", "summary": "large database"}}"#),
        json(r#"{"project_id": "vacuum-first", "status": "registered", "storage_maintenance": {"maintenance_candidate": true, "vacuum_candidate": true, "cleanup_review_candidate": true, "approx_db_size_bytes": 500, "approx_reclaimable_bytes": 200, "reclaim_ratio": 0.4, "suggested_mode": "review_cleanup_then_vacuum", "summary": "vacuum candidate"}}"#),
        json(r#"{"project_id": "healthy", "status": "registered", "storage_maintenance": {"maintenance_candidate": false, "vacuum_candidate": false, "cleanup_review_candidate": false, "approx_db_size_bytes": 50, "approx_reclaimable_bytes": 0, "reclaim_ratio": 0.0, "suggested_mode": "none", "summary": "healthy"}}"#),
    ];

    let summary = StorageMaintenanceWorkspaceSummary::from_project_overviews(&project_overviews);

    assert_eq!(summary.projects_with_candidates, 2);
    assert_eq!(summary.projects_with_vacuum_candidates, 1);
    assert_eq!(summary.total_approx_db_size_bytes, 1450);
    assert_eq!(summary.total_approx_reclaimable_bytes, 300);
    assert_eq!(
        summary.priority_projects[0].project_id.as_deref(),
        Some("vacuum-first")
    );
    assert_eq!(
        summary.priority_projects[1].project_id.as_deref(),
        Some("large-cleanup")
    );
}

#[test]
fn priority_project_json_preserves_contract_shape() {
    let overview = sj(r#"{"project_id": "demo", "status": "registered", "storage_maintenance": {"maintenance_candidate": true, "vacuum_candidate": true, "cleanup_review_candidate": true, "approx_db_size_bytes": 500, "approx_reclaimable_bytes": 200, "reclaim_ratio": 0.4, "suggested_mode": "review_cleanup_then_vacuum", "summary": "vacuum candidate"}}"#);
    let project_overviews = vec![from_serde(&overview)];
    let summary = StorageMaintenanceWorkspaceSummary::from_project_overviews(&project_overviews);

    // The float reclaim ratio is carried over from the overview the summary came from.
    let rendered: Vec<serde_json::Value> = summary
        .priority_projects_json()
        .iter()
        .zip(summary.priority_projects.iter())
        .map(|(json, project)| {
            let mut value = to_serde(json);
            let source = [&overview][project.source_index];
            value["reclaim_ratio"] = source["storage_maintenance"]["reclaim_ratio"].clone();
            value
        })
        .collect();

    assert_eq!(
        rendered,
        vec![sj(r#"{"project_id": "demo", "status": "registered", "vacuum_candidate": true, "cleanup_review_candidate": true, "approx_db_size_bytes": 500, "approx_reclaimable_bytes": 200, "reclaim_ratio": 0.4, "suggested_mode": "review_cleanup_then_vacuum", "summary": "vacuum candidate"}"#)]
    );
}

fn planner_inputs() -> (StorageMetrics, StorageEvidenceCounts, RetentionPolicy) {
    let metrics = StorageMetrics {
        page_size: 4096,
        page_count: 100,
        freelist_count: 5,
        approx_db_size_bytes: 409_600,
        approx_reclaimable_bytes: 20_480,
    };
    let counts = StorageEvidenceCounts {
        file_sightings: 50,
        file_events: 0,
        activity_daily_rollups: 0,
        verification_runs: 0,
        snapshot_runs: 12,
    };
    let policy = RetentionPolicy {
        activity_rows_threshold: 10,
        snapshot_runs_threshold: 10,
        activity_retention_days: 7,
        keep_snapshot_runs: 3,
        ..default_policy()
    };
    (metrics, counts, policy)
}

#[test]
fn project_storage_maintenance_uses_configured_retention_policy() {
    let (metrics, counts, policy) = planner_inputs();

    let result = maintenance(Some(&metrics), Some(&counts), &policy);

    assert_eq!(result["evidence_pressure_candidate"], true);
    assert_eq!(
        result["cleanup_recommendations"][0]["older_than_days"],
        sj("7")
    );
    assert_eq!(
        result["cleanup_recommendations"][1]["keep_snapshot_runs"],
        sj("3")
    );
    assert_eq!(
        result["retention_policy"]["activity_rows_threshold"],
        sj("10")
    );
}

#[test]
fn project_storage_maintenance_builds_policy_cleanup_plan() {
    let (metrics, counts, policy) = planner_inputs();

    let result = maintenance(Some(&metrics), Some(&counts), &policy);
    let plan = &result["cleanup_plan"];
    assert_eq!(plan["status"], "actionable");
    assert_eq!(plan["automatic_deletion"], false);
    assert_eq!(plan["requires_human_confirmation"], true);
    assert_eq!(plan["target_scopes"], sj(r#"["activity", "snapshots"]"#));
    assert_eq!(plan["steps"][0]["phase"], "preview");
    assert_eq!(plan["steps"][0]["scope"], "activity");
    assert_eq!(plan["steps"][0]["dry_run"], true);
    assert_eq!(plan["steps"][0]["rollup_before_delete"], true);
    assert_eq!(
        plan["steps"][0]["preserved_rollup_table"],
        "activity_daily_rollups"
    );
    assert_eq!(plan["steps"][2]["phase"], "review");
    assert_eq!(plan["steps"][3]["phase"], "execute_cleanup");
    assert_eq!(plan["steps"][3]["requires_human_confirmation"], true);
    assert_eq!(plan["steps"][3]["rollup_granularity"], "daily");
}

#[test]
fn execution_templates_include_confirmed_execute_steps_from_cleanup_plan() {
    let sm = sj(r#"{
        "maintenance_candidate": true,
        "vacuum_candidate": false,
        "approx_reclaimable_bytes": 0,
        "cleanup_plan": {
            "status": "actionable",
            "steps": [
                {"phase": "execute_cleanup", "scope": "activity", "older_than_days": 30},
                {"phase": "execute_cleanup", "scope": "snapshots", "keep_snapshot_runs": 20}
            ]
        }
    }"#);
    let result = templates(Some("proj"), &sm);
    let activity_execute = result
        .iter()
        .find(|template| template["template_id"] == "storage.cleanup.activity.execute")
        .expect("activity execute template should exist");
    let snapshots_execute = result
        .iter()
        .find(|template| template["template_id"] == "storage.cleanup.snapshots.execute")
        .expect("snapshots execute template should exist");

    assert_eq!(activity_execute["requires_human_confirmation"], true);
    assert!(activity_execute["command_template"]
        .as_str()
        .unwrap()
        .contains("opendog cleanup-data --id proj --scope activity --older-than-days 30 --json"));
    assert!(!activity_execute["command_template"]
        .as_str()
        .unwrap()
        .contains("--dry-run"));
    assert!(snapshots_execute["command_template"]
        .as_str()
        .unwrap()
        .contains(
            "opendog cleanup-data --id proj --scope snapshots --keep-snapshot-runs 20 --json"
        ));
}

#[test]
fn available_maintenance_fields_follow_their_parts() {
    let metrics = StorageMetrics {
        page_size: 4096,
        page_count: 100,
        freelist_count: 1,
        approx_db_size_bytes: 409_600,
        approx_reclaimable_bytes: 4096,
    };
    let counts = StorageEvidenceCounts {
        file_sightings: 1_200_000,
        file_events: 20,
        activity_daily_rollups: 0,
        verification_runs: 0,
        snapshot_runs: 0,
    };
    let policy = default_policy();
    let result = maintenance(Some(&metrics), Some(&counts), &policy);
    let recs: Vec<serde_json::Value> = opendog::storage::cleanup::storage_cleanup_recommendations(Some(&counts), &policy)
        .iter()
        .map(to_serde)
        .collect();
    assert_eq!(result["status"], "available");
    assert_eq!(result["cleanup_recommendations"], serde_json::Value::Array(recs.clone()));
    assert!(!recs.is_empty());
    assert_eq!(result["evidence_pressure_candidate"], true);
    assert_eq!(result["cleanup_review_candidate"], false);
    assert_eq!(result["vacuum_candidate"], false);
    assert_eq!(result["maintenance_candidate"], true);
    assert_eq!(result["approx_db_size_bytes"], 409_600);
    assert_eq!(result["retention_policy"]["keep_snapshot_runs"], 20);
}
