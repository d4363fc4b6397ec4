//! The cleanup plan of a project database and its maintenance report.
use vstd::prelude::*;
use vstd::string::*;
use crate::json::{JsonSpec, JsonValue, jarr, jbool, ji64, jobj, js, jstrings, lemma_lookup_at, str_array, views};
use crate::text::text_views;
use super::assessment::{
    StorageMaintenanceAssessment, cleanup_review, mode_text, pressure_text, summary_text, vacuum,
};
use super::cleanup::{
    cleanup_plan_step, cleanup_recommendations_spec, counts_json, evidence_counts_json, opt_counts,
    plan_step_json, storage_cleanup_recommendations,
};
use super::policy::{RetentionPolicy, StorageEvidenceCounts, StorageMetrics, policy_json};

verus! {

/// The recommendations that name a scope, with that scope, in order.
pub open spec fn scoped_targets(recs: Seq<JsonSpec>) -> Seq<(Seq<char>, JsonSpec)>
    decreases recs.len(),
{
    if recs.len() == 0 {
        Seq::empty()
    } else {
        let rest = scoped_targets(recs.drop_last());
        match recs.last().field("scope"@) {
            JsonSpec::Str(s) => rest.push((s, recs.last())),
            _ => rest,
        }
    }
}

/// The scopes a plan covers: those the recommendations name, or, when
/// there are none and the database needs review or vacuum, all evidence
/// at the activity retention age.
pub open spec fn plan_targets(recs: Seq<JsonSpec>, review: bool, vacuum: bool, p: RetentionPolicy) -> Seq<(Seq<char>, JsonSpec)> {
    let t = scoped_targets(recs);
    if t.len() == 0 && (review || vacuum) {
        seq![("all"@, JsonSpec::Obj(seq![
            ("scope"@, JsonSpec::Str("all"@)),
            ("older_than_days"@, JsonSpec::Num(p.activity_retention_days as int)),
        ]))]
    } else {
        t
    }
}

/// Dry-run previews, numbered from 1.
pub open spec fn preview_steps(t: Seq<(Seq<char>, JsonSpec)>, p: RetentionPolicy) -> Seq<JsonSpec> {
    Seq::new(t.len(), |i: int| plan_step_json(i + 1, "preview"@, t[i].0, t[i].1, p, true, false))
}

/// The review between previews and execution.
pub open spec fn review_step(n: int) -> JsonSpec {
    JsonSpec::Obj(seq![
        ("step"@, JsonSpec::Num(n + 1)),
        ("phase"@, JsonSpec::Str("review"@)),
        ("requires_human_confirmation"@, JsonSpec::Bool(true)),
        ("summary"@, JsonSpec::Str("Review cleanup-data dry-run deleted counts, retained evidence scope, and storage_before metrics before executing any deletion."@)),
    ])
}

/// Confirmed executions, numbered after the review.
pub open spec fn execute_steps(t: Seq<(Seq<char>, JsonSpec)>, p: RetentionPolicy) -> Seq<JsonSpec> {
    Seq::new(t.len(), |i: int| plan_step_json(t.len() + 2 + i, "execute_cleanup"@, t[i].0, t[i].1, p, false, true))
}

/// The final compaction.
pub open spec fn compact_step(n: int) -> JsonSpec {
    JsonSpec::Obj(seq![
        ("step"@, JsonSpec::Num(2 * n + 2)),
        ("phase"@, JsonSpec::Str("compact"@)),
        ("scope"@, JsonSpec::Str("all"@)),
        ("vacuum"@, JsonSpec::Bool(true)),
        ("requires_human_confirmation"@, JsonSpec::Bool(true)),
        ("summary"@, JsonSpec::Str("Run vacuum only after cleanup execution when reclaimable pages remain material."@)),
    ])
}

pub open spec fn plan_steps(t: Seq<(Seq<char>, JsonSpec)>, p: RetentionPolicy, vacuum: bool) -> Seq<JsonSpec> {
    let s = preview_steps(t, p) + seq![review_step(t.len() as int)] + execute_steps(t, p);
    if vacuum {
        s.push(compact_step(t.len() as int))
    } else {
        s
    }
}

pub open spec fn empty_plan_json(status: Seq<char>, summary: Seq<char>) -> JsonSpec {
    JsonSpec::Obj(seq![
        ("status"@, JsonSpec::Str(status)),
        ("policy_driven"@, JsonSpec::Bool(true)),
        ("automatic_deletion"@, JsonSpec::Bool(false)),
        ("requires_human_confirmation"@, JsonSpec::Bool(false)),
        ("target_scopes"@, JsonSpec::Arr(Seq::empty())),
        ("steps"@, JsonSpec::Arr(Seq::empty())),
        ("summary"@, JsonSpec::Str(summary)),
    ])
}

pub open spec fn target_scopes(t: Seq<(Seq<char>, JsonSpec)>) -> Seq<Seq<char>> {
    t.map_values(|x: (Seq<char>, JsonSpec)| x.0)
}

/// The cleanup plan: not needed without targets; otherwise previews, a
/// review, confirmed executions and, for a vacuum candidate, compaction.
/// It never deletes on its own.
pub open spec fn cleanup_plan_json(recs: Seq<JsonSpec>, review: bool, vacuum: bool, p: RetentionPolicy) -> JsonSpec {
    let t = plan_targets(recs, review, vacuum, p);
    if t.len() == 0 {
        empty_plan_json(
            "not_needed"@,
            "No OPENDOG retention cleanup plan is needed for current storage signals."@,
        )
    } else {
        JsonSpec::Obj(seq![
            ("status"@, JsonSpec::Str("actionable"@)),
            ("policy_driven"@, JsonSpec::Bool(true)),
            ("automatic_deletion"@, JsonSpec::Bool(false)),
            ("requires_human_confirmation"@, JsonSpec::Bool(true)),
            ("target_scopes"@, str_array(target_scopes(t))),
            ("steps"@, JsonSpec::Arr(plan_steps(t, p, vacuum))),
            ("summary"@, JsonSpec::Str("Review dry-run output first, then run confirmed cleanup steps only after operator approval."@)),
        ])
    }
}

pub open spec fn target_views(t: Seq<(String, JsonValue)>) -> Seq<(Seq<char>, JsonSpec)> {
    t.map_values(|x: (String, JsonValue)| (x.0@, x.1@))
}

fn collect_targets(
    cleanup_recommendations: &[JsonValue],
    cleanup_review_candidate: bool,
    vacuum_candidate: bool,
    policy: &RetentionPolicy,
) -> (r: Vec<(String, JsonValue)>)
    ensures
        target_views(r@) == plan_targets(views(cleanup_recommendations@), cleanup_review_candidate, vacuum_candidate, *policy),
        r@.len() <= cleanup_recommendations@.len() + 1,
{
    let ghost recs = views(cleanup_recommendations@);
    let mut targets: Vec<(String, JsonValue)> = Vec::new();
    let mut i: usize = 0;
    while i < cleanup_recommendations.len()
        invariant
            i <= cleanup_recommendations@.len(),
            recs == views(cleanup_recommendations@),
            target_views(targets@) == scoped_targets(recs.subrange(0, i as int)),
            targets@.len() <= i,
        decreases cleanup_recommendations@.len() - i,
    {
        proof {
            assert(recs.subrange(0, i + 1).drop_last() =~= recs.subrange(0, i as int));
        }
        let rec = &cleanup_recommendations[i];
        match rec.get_str("scope") {
            Some(scope) => {
                targets.push((String::from_str(scope), rec.dup()));
                proof {
                    assert(target_views(targets@) =~= target_views(targets@).drop_last().push((scope@, rec@)));
                }
            },
            None => {},
        }
        i = i + 1;
    }
    assert(recs.subrange(0, cleanup_recommendations@.len() as int) =~= recs);
    if targets.len() == 0 && (cleanup_review_candidate || vacuum_candidate) {
        let all = jobj(vec![
            ("scope", js("all")),
            ("older_than_days", ji64(policy.activity_retention_days)),
        ]);
        assert(all@->Obj_0 =~= seq![
            ("scope"@, JsonSpec::Str("all"@)),
            ("older_than_days"@, JsonSpec::Num(policy.activity_retention_days as int)),
        ]);
        targets.push((String::from_str("all"), all));
        assert(target_views(targets@) =~= plan_targets(recs, cleanup_review_candidate, vacuum_candidate, *policy));
    }
    targets
}

pub fn storage_cleanup_plan(
    cleanup_recommendations: &[JsonValue],
    cleanup_review_candidate: bool,
    vacuum_candidate: bool,
    policy: &RetentionPolicy,
) -> (r: JsonValue)
    requires
        2 * cleanup_recommendations@.len() + 4 <= i64::MAX,
    ensures
        r@ == cleanup_plan_json(views(cleanup_recommendations@), cleanup_review_candidate, vacuum_candidate, *policy),
{
    let targets = collect_targets(cleanup_recommendations, cleanup_review_candidate, vacuum_candidate, policy);
    let ghost t = target_views(targets@);
    let ghost p = *policy;
    let n = targets.len();
    if n == 0 {
        let r = jobj(vec![
            ("status", js("not_needed")),
            ("policy_driven", jbool(true)),
            ("automatic_deletion", jbool(false)),
            ("requires_human_confirmation", jbool(false)),
            ("target_scopes", jarr(Vec::new())),
            ("steps", jarr(Vec::new())),
            ("summary", js("No OPENDOG retention cleanup plan is needed for current storage signals.")),
        ]);
        proof {
            let e: Seq<JsonValue> = Seq::empty();
            assert(views(e) =~= Seq::<JsonSpec>::empty());
        }
        assert(r@->Obj_0 =~= cleanup_plan_json(views(cleanup_recommendations@), cleanup_review_candidate, vacuum_candidate, p)->Obj_0);
        return r;
    }
    let mut steps: Vec<JsonValue> = Vec::new();
    let mut step: i64 = 1;
    let mut i: usize = 0;
    while i < n
        invariant
            n == targets@.len(),
            t == target_views(targets@),
            p == *policy,
            n <= cleanup_recommendations@.len() + 1,
            2 * cleanup_recommendations@.len() + 4 <= i64::MAX,
            i <= n,
            step == i + 1,
            views(steps@) == preview_steps(t, p).subrange(0, i as int),
        decreases n - i,
    {
        let target = &targets[i];
        let s = cleanup_plan_step(step, "preview", target.0.as_str(), &target.1, policy, true, false);
        let ghost before = steps@;
        steps.push(s);
        proof {
            assert(t[i as int] == (target.0@, target.1@));
            assert(views(steps@) =~= views(before).push(s@));
            assert(views(steps@) =~= preview_steps(t, p).subrange(0, i + 1));
        }
        step = step + 1;
        i = i + 1;
    }
    let review = jobj(vec![
        ("step", ji64(step)),
        ("phase", js("review")),
        ("requires_human_confirmation", jbool(true)),
        ("summary", js("Review cleanup-data dry-run deleted counts, retained evidence scope, and storage_before metrics before executing any deletion.")),
    ]);
    assert(review@->Obj_0 =~= review_step(n as int)->Obj_0);
    assert(preview_steps(t, p).subrange(0, n as int) =~= preview_steps(t, p));
    let ghost before_review = steps@;
    steps.push(review);
    assert(views(steps@) =~= views(before_review).push(review@));
    step = step + 1;
    let ghost head = preview_steps(t, p) + seq![review_step(n as int)];
    assert(views(steps@) =~= head);
    let mut k: usize = 0;
    while k < n
        invariant
            n == targets@.len(),
            t == target_views(targets@),
            p == *policy,
            n <= cleanup_recommendations@.len() + 1,
            2 * cleanup_recommendations@.len() + 4 <= i64::MAX,
            k <= n,
            step == n + 2 + k,
            head == preview_steps(t, p) + seq![review_step(n as int)],
            views(steps@) == head + execute_steps(t, p).subrange(0, k as int),
        decreases n - k,
    {
        let target = &targets[k];
        let s = cleanup_plan_step(step, "execute_cleanup", target.0.as_str(), &target.1, policy, false, true);
        let ghost before = steps@;
        steps.push(s);
        proof {
            assert(t[k as int] == (target.0@, target.1@));
            assert(views(steps@) =~= views(before).push(s@));
            assert(views(steps@) =~= head + execute_steps(t, p).subrange(0, k + 1));
        }
        step = step + 1;
        k = k + 1;
    }
    assert(execute_steps(t, p).subrange(0, n as int) =~= execute_steps(t, p));
    if vacuum_candidate {
        let compact = jobj(vec![
            ("step", ji64(step)),
            ("phase", js("compact")),
            ("scope", js("all")),
            ("vacuum", jbool(true)),
            ("requires_human_confirmation", jbool(true)),
            ("summary", js("Run vacuum only after cleanup execution when reclaimable pages remain material.")),
        ]);
        assert(compact@->Obj_0 =~= compact_step(n as int)->Obj_0);
        let ghost before = steps@;
        steps.push(compact);
        assert(views(steps@) =~= views(before).push(compact@));
    }
    assert(views(steps@) =~= plan_steps(t, p, vacuum_candidate));
    let mut scopes: Vec<String> = Vec::new();
    let mut j: usize = 0;
    while j < n
        invariant
            n == targets@.len(),
            t == target_views(targets@),
            j <= n,
            text_views(scopes@) == target_scopes(t).subrange(0, j as int),
        decreases n - j,
    {
        let ghost before = scopes@;
        let scope = targets[j].0.clone();
        scopes.push(scope);
        proof {
            assert(t[j as int] == (targets@[j as int].0@, targets@[j as int].1@));
            assert(text_views(scopes@) =~= text_views(before).push(scope@));
            assert(text_views(scopes@) =~= target_scopes(t).subrange(0, j + 1));
        }
        j = j + 1;
    }
    assert(target_scopes(t).subrange(0, n as int) =~= target_scopes(t));
    let scopes_json = jstrings(scopes);
    assert(scopes_json@ == str_array(target_scopes(t))) by {
        assert(scopes@.map_values(|s: String| s@) =~= text_views(scopes@));
    }
    let r = jobj(vec![
        ("status", js("actionable")),
        ("policy_driven", jbool(true)),
        ("automatic_deletion", jbool(false)),
        ("requires_human_confirmation", jbool(true)),
        ("target_scopes", scopes_json),
        ("steps", jarr(steps)),
        ("summary", js("Review dry-run output first, then run confirmed cleanup steps only after operator approval.")),
    ]);
    assert(r@->Obj_0 =~= cleanup_plan_json(views(cleanup_recommendations@), cleanup_review_candidate, vacuum_candidate, p)->Obj_0);
    r
}

/// The maintenance report of a project database. Without metrics it is
/// unavailable; with metrics it carries the measurements, the assessment,
/// the evidence counts, the policy, the cleanup recommendations and the
/// cleanup plan. The float reclaim ratio is not part of it: the caller
/// that decided `ratio_reached` adds it.
pub open spec fn storage_maintenance_json(
    metrics: Option<StorageMetrics>,
    counts: Option<StorageEvidenceCounts>,
    p: RetentionPolicy,
    ratio_reached: bool,
) -> JsonSpec {
    match metrics {
        None => JsonSpec::Obj(seq![
            ("status"@, JsonSpec::Str("unavailable"@)),
            ("cleanup_review_candidate"@, JsonSpec::Bool(false)),
            ("evidence_pressure_candidate"@, JsonSpec::Bool(false)),
            ("maintenance_candidate"@, JsonSpec::Bool(false)),
            ("vacuum_candidate"@, JsonSpec::Bool(false)),
            ("suggested_mode"@, JsonSpec::Str("none"@)),
            ("pressure_level"@, JsonSpec::Str("unknown"@)),
            ("evidence_counts"@, JsonSpec::Null),
            ("retention_policy"@, policy_json(p)),
            ("cleanup_recommendations"@, JsonSpec::Arr(Seq::empty())),
            ("cleanup_plan"@, empty_plan_json("unavailable"@, "Project database metrics are unavailable."@)),
            ("summary"@, JsonSpec::Str("Project database metrics are unavailable."@)),
        ]),
        Some(m) => {
            let recs = cleanup_recommendations_spec(counts, p);
            let review = cleanup_review(m, p);
            let vac = vacuum(m, p, ratio_reached);
            let pressure = recs.len() > 0;
            JsonSpec::Obj(seq![
                ("status"@, JsonSpec::Str("available"@)),
                ("page_count"@, JsonSpec::Num(m.page_count as int)),
                ("freelist_count"@, JsonSpec::Num(m.freelist_count as int)),
                ("approx_db_size_bytes"@, JsonSpec::Num(m.approx_db_size_bytes as int)),
                ("approx_reclaimable_bytes"@, JsonSpec::Num(m.approx_reclaimable_bytes as int)),
                ("cleanup_review_candidate"@, JsonSpec::Bool(review)),
                ("evidence_pressure_candidate"@, JsonSpec::Bool(pressure)),
                ("maintenance_candidate"@, JsonSpec::Bool(review || pressure || vac)),
                ("vacuum_candidate"@, JsonSpec::Bool(vac)),
                ("suggested_mode"@, JsonSpec::Str(mode_text(vac, review, pressure))),
                ("pressure_level"@, JsonSpec::Str(pressure_text(vac, review, pressure))),
                ("evidence_counts"@, counts_json(counts)),
                ("retention_policy"@, policy_json(p)),
                ("cleanup_recommendations"@, JsonSpec::Arr(recs)),
                ("cleanup_plan"@, cleanup_plan_json(recs, review, vac, p)),
                ("summary"@, JsonSpec::Str(summary_text(vac, review, pressure))),
            ])
        },
    }
}

pub open spec fn opt_metrics(m: Option<&StorageMetrics>) -> Option<StorageMetrics> {
    match m {
        Some(x) => Some(*x),
        None => None,
    }
}

pub fn project_storage_maintenance_with_policy(
    metrics: Option<&StorageMetrics>,
    evidence_counts: Option<&StorageEvidenceCounts>,
    policy: &RetentionPolicy,
    reclaim_ratio_reaches_vacuum_ratio: bool,
) -> (r: JsonValue)
    ensures
        r@ == storage_maintenance_json(
            opt_metrics(metrics),
            opt_counts(evidence_counts),
            *policy,
            reclaim_ratio_reaches_vacuum_ratio,
        ),
{
    let ghost spec = storage_maintenance_json(
        opt_metrics(metrics),
        opt_counts(evidence_counts),
        *policy,
        reclaim_ratio_reaches_vacuum_ratio,
    );
    let m = match metrics {
        Some(m) => m,
        None => {
            let plan = jobj(vec![
                ("status", js("unavailable")),
                ("policy_driven", jbool(true)),
                ("automatic_deletion", jbool(false)),
                ("requires_human_confirmation", jbool(false)),
                ("target_scopes", jarr(Vec::new())),
                ("steps", jarr(Vec::new())),
                ("summary", js("Project database metrics are unavailable.")),
            ]);
            proof {
                let e: Seq<JsonValue> = Seq::empty();
                assert(views(e) =~= Seq::<JsonSpec>::empty());
            }
            assert(plan@->Obj_0 =~= empty_plan_json("unavailable"@, "Project database metrics are unavailable."@)->Obj_0);
            let r = jobj(vec![
                ("status", js("unavailable")),
                ("cleanup_review_candidate", jbool(false)),
                ("evidence_pressure_candidate", jbool(false)),
                ("maintenance_candidate", jbool(false)),
                ("vacuum_candidate", jbool(false)),
                ("suggested_mode", js("none")),
                ("pressure_level", js("unknown")),
                ("evidence_counts", JsonValue::Null),
                ("retention_policy", policy.to_json()),
                ("cleanup_recommendations", jarr(Vec::new())),
                ("cleanup_plan", plan),
                ("summary", js("Project database metrics are unavailable.")),
            ]);
            assert(r@->Obj_0 =~= spec->Obj_0);
            return r;
        },
    };
    let recommendations = storage_cleanup_recommendations(evidence_counts, policy);
    let ghost recs = views(recommendations@);
    assert(recs.len() <= 3);
    let assessment = StorageMaintenanceAssessment::from_inputs(
        m,
        recommendations.len() > 0,
        policy,
        reclaim_ratio_reaches_vacuum_ratio,
    );
    let plan = storage_cleanup_plan(
        recommendations.as_slice(),
        assessment.cleanup_review_candidate,
        assessment.vacuum_candidate,
        policy,
    );
    let r = jobj(vec![
        ("status", js("available")),
        ("page_count", ji64(m.page_count)),
        ("freelist_count", ji64(m.freelist_count)),
        ("approx_db_size_bytes", ji64(m.approx_db_size_bytes)),
        ("approx_reclaimable_bytes", ji64(m.approx_reclaimable_bytes)),
        ("cleanup_review_candidate", jbool(assessment.cleanup_review_candidate)),
        ("evidence_pressure_candidate", jbool(assessment.evidence_pressure_candidate)),
        ("maintenance_candidate", jbool(assessment.maintenance_candidate)),
        ("vacuum_candidate", jbool(assessment.vacuum_candidate)),
        ("suggested_mode", js(assessment.suggested_mode)),
        ("pressure_level", js(assessment.pressure_level)),
        ("evidence_counts", evidence_counts_json(evidence_counts)),
        ("retention_policy", policy.to_json()),
        ("cleanup_recommendations", jarr(recommendations)),
        ("cleanup_plan", plan),
        ("summary", js(assessment.summary)),
    ]);
    assert(r@->Obj_0 =~= spec->Obj_0);
    r
}


proof fn reveal_plan_keys()
    ensures
        "step"@.len() == 4,
        "phase"@.len() == 5,
        "scope"@.len() == 5,
        "dry_run"@.len() == 7,
        "requires_human_confirmation"@.len() == 27,
        "retention_parameters"@.len() == 20,
        "keep_snapshot_runs"@.len() == 18,
        "older_than_days"@.len() == 15,
        "rollup_before_delete"@.len() == 20,
        "rollup_granularity"@.len() == 18,
        "preserved_rollup_table"@.len() == 22,
        "summary"@.len() == 7,
        "vacuum"@.len() == 6,
        "status"@.len() == 6,
        "policy_driven"@.len() == 13,
        "automatic_deletion"@.len() == 18,
        "target_scopes"@.len() == 13,
        "steps"@.len() == 5,
        "phase"@[0] != "scope"@[0],
        "dry_run"@[0] != "summary"@[0],
{
    reveal_strlit("step");
    reveal_strlit("phase");
    reveal_strlit("scope");
    reveal_strlit("dry_run");
    reveal_strlit("requires_human_confirmation");
    reveal_strlit("retention_parameters");
    reveal_strlit("keep_snapshot_runs");
    reveal_strlit("older_than_days");
    reveal_strlit("rollup_before_delete");
    reveal_strlit("rollup_granularity");
    reveal_strlit("preserved_rollup_table");
    reveal_strlit("summary");
    reveal_strlit("vacuum");
    reveal_strlit("status");
    reveal_strlit("policy_driven");
    reveal_strlit("automatic_deletion");
    reveal_strlit("target_scopes");
    reveal_strlit("steps");
}

/// The fields of a plan step that say when it runs.
pub proof fn lemma_plan_step_fields(
    step: int,
    phase: Seq<char>,
    scope: Seq<char>,
    source: JsonSpec,
    p: RetentionPolicy,
    dry_run: bool,
    confirm: bool,
)
    ensures
        plan_step_json(step, phase, scope, source, p, dry_run, confirm).field("step"@) == JsonSpec::Num(step),
        plan_step_json(step, phase, scope, source, p, dry_run, confirm).field("phase"@) == JsonSpec::Str(phase),
        plan_step_json(step, phase, scope, source, p, dry_run, confirm).field("dry_run"@) == JsonSpec::Bool(dry_run),
        plan_step_json(step, phase, scope, source, p, dry_run, confirm).field("requires_human_confirmation"@) == JsonSpec::Bool(confirm),
{
    reveal_plan_keys();
    reveal_strlit("snapshots");
    let es = plan_step_json(step, phase, scope, source, p, dry_run, confirm)->Obj_0;
    assert(es[6].0.len() == 18 || es[6].0.len() == 15);
    assert(es.len() == 7 || es.len() == 10);
    assert(es.len() == 10 ==> es[7].0.len() == 20 && es[8].0.len() == 18 && es[9].0.len() == 22);
    assert forall|j: int| 0 < j < es.len() implies (#[trigger] es[j]).0 != "step"@ by {
        assert(es[j].0.len() != 4);
    }
    lemma_lookup_at(es, "step"@, 0);
    assert forall|j: int| 1 < j < es.len() implies (#[trigger] es[j]).0 != "phase"@ by {
        if j == 2 {
            assert(es[2].0[0] != "phase"@[0]);
        } else {
            assert(es[j].0.len() != 5);
        }
    }
    lemma_lookup_at(es, "phase"@, 1);
    assert forall|j: int| 3 < j < es.len() implies (#[trigger] es[j]).0 != "dry_run"@ by {
        assert(es[j].0.len() != 7);
    }
    lemma_lookup_at(es, "dry_run"@, 3);
    assert forall|j: int| 4 < j < es.len() implies (#[trigger] es[j]).0 != "requires_human_confirmation"@ by {
        assert(es[j].0.len() != 27);
    }
    lemma_lookup_at(es, "requires_human_confirmation"@, 4);
}

/// The fields of the review step.
pub proof fn lemma_review_step_fields(n: int)
    ensures
        review_step(n).field("step"@) == JsonSpec::Num(n + 1),
        review_step(n).field("phase"@) == JsonSpec::Str("review"@),
        review_step(n).field("requires_human_confirmation"@) == JsonSpec::Bool(true),
{
    reveal_plan_keys();
    let es = review_step(n)->Obj_0;
    assert forall|j: int| 0 < j < es.len() implies (#[trigger] es[j]).0 != "step"@ by {
        assert(es[j].0.len() != 4);
    }
    lemma_lookup_at(es, "step"@, 0);
    assert forall|j: int| 1 < j < es.len() implies (#[trigger] es[j]).0 != "phase"@ by {
        assert(es[j].0.len() != 5);
    }
    lemma_lookup_at(es, "phase"@, 1);
    assert forall|j: int| 2 < j < es.len() implies (#[trigger] es[j]).0 != "requires_human_confirmation"@ by {
        assert(es[j].0.len() != 27);
    }
    lemma_lookup_at(es, "requires_human_confirmation"@, 2);
}

/// The fields of the compaction step.
pub proof fn lemma_compact_step_fields(n: int)
    ensures
        compact_step(n).field("step"@) == JsonSpec::Num(2 * n + 2),
        compact_step(n).field("phase"@) == JsonSpec::Str("compact"@),
        compact_step(n).field("requires_human_confirmation"@) == JsonSpec::Bool(true),
{
    reveal_plan_keys();
    let es = compact_step(n)->Obj_0;
    assert forall|j: int| 0 < j < es.len() implies (#[trigger] es[j]).0 != "step"@ by {
        assert(es[j].0.len() != 4);
    }
    lemma_lookup_at(es, "step"@, 0);
    assert forall|j: int| 1 < j < es.len() implies (#[trigger] es[j]).0 != "phase"@ by {
        if j == 2 {
            assert(es[2].0[0] != "phase"@[0]);
        } else {
            assert(es[j].0.len() != 5);
        }
    }
    lemma_lookup_at(es, "phase"@, 1);
    assert forall|j: int| 4 < j < es.len() implies (#[trigger] es[j]).0 != "requires_human_confirmation"@ by {
        assert(es[j].0.len() != 27);
    }
    lemma_lookup_at(es, "requires_human_confirmation"@, 4);
}

/// A cleanup plan never deletes on its own: it is never automatic, its
/// steps are numbered 1, 2, 3, ..., every preview is a dry run, and every
/// execution step is no dry run and needs human confirmation.
pub proof fn law_cleanup_plan_is_confirmed(recs: Seq<JsonSpec>, review: bool, vacuum: bool, p: RetentionPolicy)
    ensures
        cleanup_plan_json(recs, review, vacuum, p).field("automatic_deletion"@) == JsonSpec::Bool(false),
        cleanup_plan_json(recs, review, vacuum, p).field("steps"@) matches JsonSpec::Arr(steps) ==> forall|i: int|
            0 <= i < steps.len() ==> {
                &&& (#[trigger] steps[i]).field("step"@) == JsonSpec::Num(i + 1)
                &&& steps[i].field("phase"@) == JsonSpec::Str("preview"@) ==> steps[i].field("dry_run"@) == JsonSpec::Bool(true)
                &&& steps[i].field("phase"@) == JsonSpec::Str("execute_cleanup"@) ==> {
                    &&& steps[i].field("dry_run"@) == JsonSpec::Bool(false)
                    &&& steps[i].field("requires_human_confirmation"@) == JsonSpec::Bool(true)
                }
            },
{
    reveal_plan_keys();
    reveal_strlit("preview");
    reveal_strlit("execute_cleanup");
    reveal_strlit("review");
    reveal_strlit("compact");
    let plan = cleanup_plan_json(recs, review, vacuum, p);
    let es = plan->Obj_0;
    assert forall|j: int| 2 < j < es.len() implies (#[trigger] es[j]).0 != "automatic_deletion"@ by {
        assert(es[j].0.len() != 18);
    }
    lemma_lookup_at(es, "automatic_deletion"@, 2);
    assert forall|j: int| 5 < j < es.len() implies (#[trigger] es[j]).0 != "steps"@ by {
        assert(es[j].0.len() != 5);
    }
    lemma_lookup_at(es, "steps"@, 5);
    let t = plan_targets(recs, review, vacuum, p);
    let n = t.len() as int;
    if n > 0 {
        let steps = plan_steps(t, p, vacuum);
        let pre = preview_steps(t, p);
        let ex = execute_steps(t, p);
        assert forall|i: int| 0 <= i < steps.len() implies {
            &&& (#[trigger] steps[i]).field("step"@) == JsonSpec::Num(i + 1)
            &&& steps[i].field("phase"@) == JsonSpec::Str("preview"@) ==> steps[i].field("dry_run"@) == JsonSpec::Bool(true)
            &&& steps[i].field("phase"@) == JsonSpec::Str("execute_cleanup"@) ==> {
                &&& steps[i].field("dry_run"@) == JsonSpec::Bool(false)
                &&& steps[i].field("requires_human_confirmation"@) == JsonSpec::Bool(true)
            }
        } by {
            if i < n {
                assert(steps[i] == pre[i]);
                lemma_plan_step_fields(i + 1, "preview"@, t[i].0, t[i].1, p, true, false);
            } else if i == n {
                assert(steps[i] == review_step(n));
                lemma_review_step_fields(n);
                assert("review"@.len() != "preview"@.len());
                assert("review"@.len() != "execute_cleanup"@.len());
            } else if i < 2 * n + 1 {
                assert(steps[i] == ex[i - n - 1]);
                lemma_plan_step_fields(n + 2 + (i - n - 1), "execute_cleanup"@, t[i - n - 1].0, t[i - n - 1].1, p, false, true);
                assert("execute_cleanup"@.len() != "preview"@.len());
            } else {
                assert(steps[i] == compact_step(n));
                lemma_compact_step_fields(n);
                assert("compact"@[0] != "preview"@[0]);
                assert("compact"@.len() != "execute_cleanup"@.len());
            }
        }
    }
}

/// The entries of an available maintenance record, by position.
proof fn lemma_maintenance_field(es: Seq<(Seq<char>, JsonSpec)>, i: int)
    requires
        es.len() == 16,
        0 <= i < 16,
        es[0].0 == "status"@,
        es[1].0 == "page_count"@,
        es[2].0 == "freelist_count"@,
        es[3].0 == "approx_db_size_bytes"@,
        es[4].0 == "approx_reclaimable_bytes"@,
        es[5].0 == "cleanup_review_candidate"@,
        es[6].0 == "evidence_pressure_candidate"@,
        es[7].0 == "maintenance_candidate"@,
        es[8].0 == "vacuum_candidate"@,
        es[9].0 == "suggested_mode"@,
        es[10].0 == "pressure_level"@,
        es[11].0 == "evidence_counts"@,
        es[12].0 == "retention_policy"@,
        es[13].0 == "cleanup_recommendations"@,
        es[14].0 == "cleanup_plan"@,
        es[15].0 == "summary"@,
    ensures
        JsonSpec::Obj(es).field(es[i].0) == es[i].1,
{
    reveal_strlit("status");
    reveal_strlit("page_count");
    reveal_strlit("freelist_count");
    reveal_strlit("approx_db_size_bytes");
    reveal_strlit("approx_reclaimable_bytes");
    reveal_strlit("cleanup_review_candidate");
    reveal_strlit("evidence_pressure_candidate");
    reveal_strlit("maintenance_candidate");
    reveal_strlit("vacuum_candidate");
    reveal_strlit("suggested_mode");
    reveal_strlit("pressure_level");
    reveal_strlit("evidence_counts");
    reveal_strlit("retention_policy");
    reveal_strlit("cleanup_recommendations");
    reveal_strlit("cleanup_plan");
    reveal_strlit("summary");
    assert forall|j: int| i < j < es.len() implies (#[trigger] es[j]).0 != es[i].0 by {
        assert(es[j].0.len() != es[i].0.len() || es[j].0[0] != es[i].0[0]);
    }
    lemma_lookup_at(es, es[i].0, i);
}

/// With database metrics at hand, the maintenance record is available; it
/// carries the cleanup recommendations of the evidence counts and the
/// policy in force, the database size, and the policy itself; evidence
/// pressure means that some cleanup is recommended, and the project is a
/// maintenance candidate exactly when cleanup review, evidence pressure or
/// vacuum calls for it.
pub proof fn law_available_maintenance_fields(
    m: StorageMetrics,
    counts: Option<StorageEvidenceCounts>,
    p: RetentionPolicy,
    ratio_reached: bool,
)
    ensures ({
        let r = storage_maintenance_json(Some(m), counts, p, ratio_reached);
        let recs = cleanup_recommendations_spec(counts, p);
        &&& r.field("status"@) == JsonSpec::Str("available"@)
        &&& r.field("cleanup_recommendations"@) == JsonSpec::Arr(recs)
        &&& r.field("evidence_pressure_candidate"@) == JsonSpec::Bool(recs.len() > 0)
        &&& r.field("cleanup_review_candidate"@) is Bool
        &&& r.field("vacuum_candidate"@) is Bool
        &&& r.field("maintenance_candidate"@) == JsonSpec::Bool(
            r.field("cleanup_review_candidate"@)->Bool_0
                || r.field("evidence_pressure_candidate"@)->Bool_0
                || r.field("vacuum_candidate"@)->Bool_0,
        )
        &&& r.field("approx_db_size_bytes"@) == JsonSpec::Num(m.approx_db_size_bytes as int)
        &&& r.field("retention_policy"@) == policy_json(p)
    }),
{
    let r = storage_maintenance_json(Some(m), counts, p, ratio_reached);
    let es = r->Obj_0;
    lemma_maintenance_field(es, 0);
    lemma_maintenance_field(es, 3);
    lemma_maintenance_field(es, 5);
    lemma_maintenance_field(es, 6);
    lemma_maintenance_field(es, 7);
    lemma_maintenance_field(es, 8);
    lemma_maintenance_field(es, 12);
    lemma_maintenance_field(es, 13);
}

} // verus!
