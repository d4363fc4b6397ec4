//! Retention cleanup: which evidence is under pressure, and the plan that
//! previews, reviews and then executes its cleanup.
use vstd::prelude::*;
use vstd::string::*;
use crate::json::{JsonSpec, JsonValue, jarr, jbool, ji64, jobj, js, views};
use crate::text::str_eq;
use super::policy::{RetentionPolicy, StorageEvidenceCounts};

verus! {

/// The JSON form of evidence counts, `null` when there are none.
pub open spec fn counts_json(counts: Option<StorageEvidenceCounts>) -> JsonSpec {
    match counts {
        Some(c) => JsonSpec::Obj(seq![
            ("file_sightings"@, JsonSpec::Num(c.file_sightings as int)),
            ("file_events"@, JsonSpec::Num(c.file_events as int)),
            ("activity_daily_rollups"@, JsonSpec::Num(c.activity_daily_rollups as int)),
            ("verification_runs"@, JsonSpec::Num(c.verification_runs as int)),
            ("snapshot_runs"@, JsonSpec::Num(c.snapshot_runs as int)),
        ]),
        None => JsonSpec::Null,
    }
}

pub open spec fn opt_counts(counts: Option<&StorageEvidenceCounts>) -> Option<StorageEvidenceCounts> {
    match counts {
        Some(c) => Some(*c),
        None => None,
    }
}

pub fn evidence_counts_json(counts: Option<&StorageEvidenceCounts>) -> (r: JsonValue)
    ensures
        r@ == counts_json(opt_counts(counts)),
{
    match counts {
        Some(c) => {
            let r = jobj(vec![
                ("file_sightings", ji64(c.file_sightings)),
                ("file_events", ji64(c.file_events)),
                ("activity_daily_rollups", ji64(c.activity_daily_rollups)),
                ("verification_runs", ji64(c.verification_runs)),
                ("snapshot_runs", ji64(c.snapshot_runs)),
            ]);
            assert(r@->Obj_0 =~= counts_json(opt_counts(counts))->Obj_0);
            r
        },
        None => JsonValue::Null,
    }
}

/// `a.saturating_add(b)` on 64-bit signed integers.
pub open spec fn saturating_sum(a: i64, b: i64) -> int {
    if a + b > i64::MAX {
        i64::MAX as int
    } else if a + b < i64::MIN {
        i64::MIN as int
    } else {
        a + b
    }
}

pub fn saturating_add_i64(a: i64, b: i64) -> (r: i64)
    ensures
        r == saturating_sum(a, b),
{
    let s: i128 = a as i128 + b as i128;
    if s > i64::MAX as i128 {
        i64::MAX
    } else if s < i64::MIN as i128 {
        i64::MIN
    } else {
        s as i64
    }
}

/// Activity rows are under pressure: sightings, events, or both together
/// reach the threshold.
pub open spec fn activity_pressure(c: StorageEvidenceCounts, p: RetentionPolicy) -> bool {
    c.file_sightings >= p.activity_rows_threshold
        || c.file_events >= p.activity_rows_threshold
        || saturating_sum(c.file_sightings, c.file_events) >= p.activity_rows_threshold
}

pub open spec fn activity_recommendation(c: StorageEvidenceCounts, p: RetentionPolicy) -> JsonSpec {
    JsonSpec::Obj(seq![
        ("scope"@, JsonSpec::Str("activity"@)),
        ("older_than_days"@, JsonSpec::Num(p.activity_retention_days as int)),
        ("dry_run"@, JsonSpec::Bool(true)),
        ("rollup_before_delete"@, JsonSpec::Bool(true)),
        ("rollup_granularity"@, JsonSpec::Str("daily"@)),
        ("preserved_rollup_table"@, JsonSpec::Str("activity_daily_rollups"@)),
        ("reason"@, JsonSpec::Str("activity evidence row counts exceed the storage pressure threshold"@)),
        ("threshold_rows"@, JsonSpec::Num(p.activity_rows_threshold as int)),
        ("row_counts"@, JsonSpec::Obj(seq![
            ("file_sightings"@, JsonSpec::Num(c.file_sightings as int)),
            ("file_events"@, JsonSpec::Num(c.file_events as int)),
        ])),
    ])
}

pub open spec fn snapshot_recommendation(c: StorageEvidenceCounts, p: RetentionPolicy) -> JsonSpec {
    JsonSpec::Obj(seq![
        ("scope"@, JsonSpec::Str("snapshots"@)),
        ("keep_snapshot_runs"@, JsonSpec::Num(p.keep_snapshot_runs as int)),
        ("dry_run"@, JsonSpec::Bool(true)),
        ("reason"@, JsonSpec::Str("snapshot run count exceeds the storage pressure threshold"@)),
        ("threshold_runs"@, JsonSpec::Num(p.snapshot_runs_threshold as int)),
        ("run_count"@, JsonSpec::Num(c.snapshot_runs as int)),
    ])
}

pub open spec fn verification_recommendation(c: StorageEvidenceCounts, p: RetentionPolicy) -> JsonSpec {
    JsonSpec::Obj(seq![
        ("scope"@, JsonSpec::Str("verification"@)),
        ("older_than_days"@, JsonSpec::Num(p.verification_retention_days as int)),
        ("dry_run"@, JsonSpec::Bool(true)),
        ("reason"@, JsonSpec::Str("verification run count exceeds the storage pressure threshold"@)),
        ("threshold_runs"@, JsonSpec::Num(p.verification_runs_threshold as int)),
        ("run_count"@, JsonSpec::Num(c.verification_runs as int)),
    ])
}

/// The cleanup recommendations for the evidence counts, in the order
/// activity, snapshots, verification; none without counts.
pub open spec fn cleanup_recommendations_spec(counts: Option<StorageEvidenceCounts>, p: RetentionPolicy) -> Seq<JsonSpec> {
    match counts {
        None => Seq::empty(),
        Some(c) => {
            let a: Seq<JsonSpec> = if activity_pressure(c, p) {
                seq![activity_recommendation(c, p)]
            } else {
                Seq::empty()
            };
            let b = if c.snapshot_runs >= p.snapshot_runs_threshold {
                a.push(snapshot_recommendation(c, p))
            } else {
                a
            };
            if c.verification_runs >= p.verification_runs_threshold {
                b.push(verification_recommendation(c, p))
            } else {
                b
            }
        },
    }
}

pub fn storage_cleanup_recommendations(
    counts: Option<&StorageEvidenceCounts>,
    policy: &RetentionPolicy,
) -> (r: Vec<JsonValue>)
    ensures
        views(r@) == cleanup_recommendations_spec(opt_counts(counts), *policy),
{
    let mut out: Vec<JsonValue> = Vec::new();
    let c = match counts {
        Some(c) => c,
        None => {
            assert(views(out@) =~= Seq::<JsonSpec>::empty());
            return out;
        },
    };
    let ghost cs = *c;
    let ghost p = *policy;
    if c.file_sightings >= policy.activity_rows_threshold
        || c.file_events >= policy.activity_rows_threshold
        || saturating_add_i64(c.file_sightings, c.file_events) >= policy.activity_rows_threshold
    {
        let counts_obj = jobj(vec![
            ("file_sightings", ji64(c.file_sightings)),
            ("file_events", ji64(c.file_events)),
        ]);
        assert(counts_obj@->Obj_0 =~= seq![
            ("file_sightings"@, JsonSpec::Num(cs.file_sightings as int)),
            ("file_events"@, JsonSpec::Num(cs.file_events as int)),
        ]);
        let rec = jobj(vec![
            ("scope", js("activity")),
            ("older_than_days", ji64(policy.activity_retention_days)),
            ("dry_run", jbool(true)),
            ("rollup_before_delete", jbool(true)),
            ("rollup_granularity", js("daily")),
            ("preserved_rollup_table", js("activity_daily_rollups")),
            ("reason", js("activity evidence row counts exceed the storage pressure threshold")),
            ("threshold_rows", ji64(policy.activity_rows_threshold)),
            ("row_counts", counts_obj),
        ]);
        assert(rec@->Obj_0 =~= activity_recommendation(cs, p)->Obj_0);
        out.push(rec);
    }
    let ghost a = views(out@);
    assert(a =~= (if activity_pressure(cs, p) { seq![activity_recommendation(cs, p)] } else { Seq::<JsonSpec>::empty() }));
    if c.snapshot_runs >= policy.snapshot_runs_threshold {
        let rec = jobj(vec![
            ("scope", js("snapshots")),
            ("keep_snapshot_runs", ji64(policy.keep_snapshot_runs)),
            ("dry_run", jbool(true)),
            ("reason", js("snapshot run count exceeds the storage pressure threshold")),
            ("threshold_runs", ji64(policy.snapshot_runs_threshold)),
            ("run_count", ji64(c.snapshot_runs)),
        ]);
        assert(rec@->Obj_0 =~= snapshot_recommendation(cs, p)->Obj_0);
        out.push(rec);
        assert(views(out@) =~= a.push(snapshot_recommendation(cs, p)));
    }
    let ghost b = views(out@);
    if c.verification_runs >= policy.verification_runs_threshold {
        let rec = jobj(vec![
            ("scope", js("verification")),
            ("older_than_days", ji64(policy.verification_retention_days)),
            ("dry_run", jbool(true)),
            ("reason", js("verification run count exceeds the storage pressure threshold")),
            ("threshold_runs", ji64(policy.verification_runs_threshold)),
            ("run_count", ji64(c.verification_runs)),
        ]);
        assert(rec@->Obj_0 =~= verification_recommendation(cs, p)->Obj_0);
        out.push(rec);
        assert(views(out@) =~= b.push(verification_recommendation(cs, p)));
    }
    out
}

/// The retention parameter a cleanup scope takes: the snapshots to keep
/// for snapshots, the age in days otherwise.
pub open spec fn retention_key(scope: Seq<char>) -> Seq<char> {
    if scope == "snapshots"@ {
        "keep_snapshot_runs"@
    } else {
        "older_than_days"@
    }
}

/// The value of that parameter: the source's own, else the policy's.
pub open spec fn retention_value(scope: Seq<char>, source: JsonSpec, p: RetentionPolicy) -> int {
    if scope == "snapshots"@ {
        source.field("keep_snapshot_runs"@).i64_or(p.keep_snapshot_runs as int)
    } else if scope == "verification"@ {
        source.field("older_than_days"@).i64_or(p.verification_retention_days as int)
    } else {
        source.field("older_than_days"@).i64_or(p.activity_retention_days as int)
    }
}

pub open spec fn retention_parameters_json(scope: Seq<char>, source: JsonSpec, p: RetentionPolicy) -> JsonSpec {
    JsonSpec::Obj(seq![(retention_key(scope), JsonSpec::Num(retention_value(scope, source, p)))])
}

pub fn retention_value_for(scope: &str, source: &JsonValue, policy: &RetentionPolicy) -> (r: (&'static str, i64))
    ensures
        r.0@ == retention_key(scope@),
        r.1 == retention_value(scope@, source@, *policy),
{
    if str_eq(scope, "snapshots") {
        let v = match source.get_i64("keep_snapshot_runs") {
            Some(n) => n,
            None => policy.keep_snapshot_runs,
        };
        ("keep_snapshot_runs", v)
    } else if str_eq(scope, "verification") {
        let v = match source.get_i64("older_than_days") {
            Some(n) => n,
            None => policy.verification_retention_days,
        };
        ("older_than_days", v)
    } else {
        let v = match source.get_i64("older_than_days") {
            Some(n) => n,
            None => policy.activity_retention_days,
        };
        ("older_than_days", v)
    }
}

pub fn cleanup_retention_parameters(scope: &str, source: &JsonValue, policy: &RetentionPolicy) -> (r: JsonValue)
    ensures
        r@ == retention_parameters_json(scope@, source@, *policy),
{
    let (key, value) = retention_value_for(scope, source, policy);
    let r = jobj(vec![(key, ji64(value))]);
    assert(r@->Obj_0 =~= retention_parameters_json(scope@, source@, *policy)->Obj_0);
    r
}

/// One step of the cleanup plan: its number, phase and scope, whether it
/// is a dry run and needs confirmation, the retention parameters (also
/// repeated at the top level), and for activity the daily rollup that is
/// kept.
pub open spec fn plan_step_json(
    step: int,
    phase: Seq<char>,
    scope: Seq<char>,
    source: JsonSpec,
    p: RetentionPolicy,
    dry_run: bool,
    confirm: bool,
) -> JsonSpec {
    let base = seq![
        ("step"@, JsonSpec::Num(step)),
        ("phase"@, JsonSpec::Str(phase)),
        ("scope"@, JsonSpec::Str(scope)),
        ("dry_run"@, JsonSpec::Bool(dry_run)),
        ("requires_human_confirmation"@, JsonSpec::Bool(confirm)),
        ("retention_parameters"@, retention_parameters_json(scope, source, p)),
        (retention_key(scope), JsonSpec::Num(retention_value(scope, source, p))),
    ];
    if scope == "activity"@ {
        JsonSpec::Obj(base + seq![
            ("rollup_before_delete"@, JsonSpec::Bool(true)),
            ("rollup_granularity"@, JsonSpec::Str("daily"@)),
            ("preserved_rollup_table"@, JsonSpec::Str("activity_daily_rollups"@)),
        ])
    } else {
        JsonSpec::Obj(base)
    }
}

pub fn cleanup_plan_step(
    step: i64,
    phase: &str,
    scope: &str,
    source: &JsonValue,
    policy: &RetentionPolicy,
    dry_run: bool,
    requires_human_confirmation: bool,
) -> (r: JsonValue)
    ensures
        r@ == plan_step_json(step as int, phase@, scope@, source@, *policy, dry_run, requires_human_confirmation),
{
    let (key, value) = retention_value_for(scope, source, policy);
    let mut entries: Vec<(&str, JsonValue)> = vec![
        ("step", ji64(step)),
        ("phase", js(phase)),
        ("scope", js(scope)),
        ("dry_run", jbool(dry_run)),
        ("requires_human_confirmation", jbool(requires_human_confirmation)),
        ("retention_parameters", cleanup_retention_parameters(scope, source, policy)),
        (key, ji64(value)),
    ];
    let is_activity = str_eq(scope, "activity");
    if is_activity {
        entries.push(("rollup_before_delete", jbool(true)));
        entries.push(("rollup_granularity", js("daily")));
        entries.push(("preserved_rollup_table", js("activity_daily_rollups")));
    }
    let r = jobj(entries);
    assert(r@->Obj_0 =~= plan_step_json(step as int, phase@, scope@, source@, *policy, dry_run, requires_human_confirmation)->Obj_0);
    r
}

} // verus!
