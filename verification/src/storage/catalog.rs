//! The ordered catalog of maintenance templates for one report.
use vstd::prelude::*;
use crate::json::{JsonSpec, JsonValue, views};
use super::model::{
    StorageCleanupPlanStep, StorageCleanupRecommendation, StorageMaintenanceTemplateContext, context_matches,
    opt_str, placeholder_hint_json, plan_steps_of, project_value, recommendations_of,
};
use super::policy::RetentionPolicy;
use super::templates::{
    all_scope_preview_json, all_scope_preview_template, execution_step_json, execution_step_template,
    scope_preview_json, scope_preview_template, vacuum_json, vacuum_template,
};

verus! {

/// The previews of the recommendations, numbered from `start`; a
/// recommendation without a preview takes no number.
pub open spec fn preview_templates(
    recs: Seq<StorageCleanupRecommendation>,
    project: Seq<char>,
    hints: JsonSpec,
    p: RetentionPolicy,
    start: int,
) -> Seq<JsonSpec>
    decreases recs.len(),
{
    if recs.len() == 0 {
        Seq::empty()
    } else {
        let rest = preview_templates(recs.drop_last(), project, hints, p, start);
        let r = recs.last();
        match scope_preview_json(project, r.scope, r.days(p), r.keep_runs(p), hints, start + rest.len()) {
            Some(t) => rest.push(t),
            None => rest,
        }
    }
}

pub proof fn lemma_preview_templates_len(
    recs: Seq<StorageCleanupRecommendation>,
    project: Seq<char>,
    hints: JsonSpec,
    p: RetentionPolicy,
    start: int,
)
    ensures
        preview_templates(recs, project, hints, p, start).len() <= recs.len(),
    decreases recs.len(),
{
    if recs.len() > 0 {
        lemma_preview_templates_len(recs.drop_last(), project, hints, p, start);
    }
}

/// The confirmed executions of the plan steps, numbered from `start`.
pub open spec fn execute_templates(
    steps: Seq<StorageCleanupPlanStep>,
    project: Seq<char>,
    hints: JsonSpec,
    p: RetentionPolicy,
    start: int,
) -> Seq<JsonSpec> {
    Seq::new(
        steps.len(),
        |i: int| execution_step_json(project, steps[i].scope, steps[i].days(p), steps[i].keep_runs(p), hints, start + i),
    )
}

pub fn append_scope_preview_templates(
    templates: &mut Vec<JsonValue>,
    context: &StorageMaintenanceTemplateContext,
    project_placeholder_hint: &JsonValue,
    default_policy: &RetentionPolicy,
    next_priority: &mut usize,
)
    requires
        *old(next_priority) + context.cleanup_recommendations@.len() <= usize::MAX,
    ensures
        views(final(templates)@) == views(old(templates)@) + preview_templates(
            context.cleanup_recommendations@,
            context.project_id_value@,
            project_placeholder_hint@,
            *default_policy,
            *old(next_priority) as int,
        ),
        *final(next_priority) == *old(next_priority) + preview_templates(
            context.cleanup_recommendations@,
            context.project_id_value@,
            project_placeholder_hint@,
            *default_policy,
            *old(next_priority) as int,
        ).len(),
{
    let ghost start = *next_priority as int;
    let ghost base = views(templates@);
    let ghost recs = context.cleanup_recommendations@;
    let ghost project = context.project_id_value@;
    let ghost hints = project_placeholder_hint@;
    let ghost p = *default_policy;
    let mut i: usize = 0;
    while i < context.cleanup_recommendations.len()
        invariant
            i <= recs.len(),
            recs == context.cleanup_recommendations@,
            project == context.project_id_value@,
            hints == project_placeholder_hint@,
            p == *default_policy,
            start + recs.len() <= usize::MAX,
            views(templates@) == base + preview_templates(recs.subrange(0, i as int), project, hints, p, start),
            *next_priority == start + preview_templates(recs.subrange(0, i as int), project, hints, p, start).len(),
        decreases recs.len() - i,
    {
        proof {
            assert(recs.subrange(0, i + 1).drop_last() =~= recs.subrange(0, i as int));
            lemma_preview_templates_len(recs.subrange(0, i as int), project, hints, p, start);
        }
        let recommendation = &context.cleanup_recommendations[i];
        let template = scope_preview_template(
            context.project_id_value(),
            recommendation.scope,
            recommendation.older_than_days_or_default(default_policy),
            recommendation.keep_snapshot_runs_or_default(default_policy),
            project_placeholder_hint,
            *next_priority,
        );
        match template {
            Some(t) => {
                let ghost before = templates@;
                templates.push(t);
                proof {
                    assert(views(templates@) =~= views(before).push(t@));
                }
                *next_priority = *next_priority + 1;
            },
            None => {},
        }
        i = i + 1;
    }
    assert(recs.subrange(0, recs.len() as int) =~= recs);
}

pub fn append_execution_step_templates(
    templates: &mut Vec<JsonValue>,
    context: &StorageMaintenanceTemplateContext,
    project_placeholder_hint: &JsonValue,
    default_policy: &RetentionPolicy,
    next_priority: &mut usize,
)
    requires
        *old(next_priority) + context.cleanup_plan_steps@.len() <= usize::MAX,
    ensures
        views(final(templates)@) == views(old(templates)@) + execute_templates(
            context.cleanup_plan_steps@,
            context.project_id_value@,
            project_placeholder_hint@,
            *default_policy,
            *old(next_priority) as int,
        ),
        *final(next_priority) == *old(next_priority) + context.cleanup_plan_steps@.len(),
{
    let ghost start = *next_priority as int;
    let ghost base = views(templates@);
    let ghost steps = context.cleanup_plan_steps@;
    let ghost project = context.project_id_value@;
    let ghost hints = project_placeholder_hint@;
    let ghost p = *default_policy;
    let mut i: usize = 0;
    while i < context.cleanup_plan_steps.len()
        invariant
            i <= steps.len(),
            steps == context.cleanup_plan_steps@,
            project == context.project_id_value@,
            hints == project_placeholder_hint@,
            p == *default_policy,
            start + steps.len() <= usize::MAX,
            views(templates@) == base + execute_templates(steps, project, hints, p, start).subrange(0, i as int),
            *next_priority == start + i,
        decreases steps.len() - i,
    {
        let step = &context.cleanup_plan_steps[i];
        let t = execution_step_template(
            context.project_id_value(),
            step.scope,
            step.older_than_days_or_default(default_policy),
            step.keep_snapshot_runs_or_default(default_policy),
            project_placeholder_hint,
            *next_priority,
        );
        let ghost before = templates@;
        templates.push(t);
        proof {
            assert(views(templates@) =~= views(before).push(t@));
            assert(views(templates@) =~= base + execute_templates(steps, project, hints, p, start).subrange(0, i + 1));
        }
        *next_priority = *next_priority + 1;
        i = i + 1;
    }
    assert(execute_templates(steps, project, hints, p, start).subrange(0, steps.len() as int)
        =~= execute_templates(steps, project, hints, p, start));
}

/// The compaction template, for a vacuum candidate only.
pub fn vacuum_compaction_template(
    context: &StorageMaintenanceTemplateContext,
    project_id_value: &str,
    project_placeholder_hint: JsonValue,
    priority: usize,
) -> (r: Option<JsonValue>)
    ensures
        r is Some <==> context.vacuum_candidate,
        r matches Some(t) ==> t@ == vacuum_json(
            project_id_value@,
            context.approx_reclaimable_bytes,
            project_placeholder_hint@,
            priority as int,
        ),
{
    if !context.vacuum_candidate {
        return None;
    }
    Some(vacuum_template(project_id_value, context.approx_reclaimable_bytes, project_placeholder_hint, priority))
}

/// The recommendations a report describes.
pub open spec fn report_recommendations(sm: JsonSpec) -> Seq<StorageCleanupRecommendation> {
    match sm.field("cleanup_recommendations"@) {
        JsonSpec::Arr(items) => recommendations_of(items),
        _ => Seq::empty(),
    }
}

/// The execution steps of a report's cleanup plan.
pub open spec fn report_plan_steps(sm: JsonSpec) -> Seq<StorageCleanupPlanStep> {
    match sm.field("cleanup_plan"@).field("steps"@) {
        JsonSpec::Arr(items) => plan_steps_of(items),
        _ => Seq::empty(),
    }
}

/// The number of elements of an array, 0 for any other value.
pub open spec fn array_len(v: JsonSpec) -> nat {
    match v {
        JsonSpec::Arr(items) => items.len(),
        _ => 0,
    }
}

pub proof fn lemma_recommendations_len(items: Seq<JsonSpec>)
    ensures
        recommendations_of(items).len() <= items.len(),
    decreases items.len(),
{
    if items.len() > 0 {
        lemma_recommendations_len(items.drop_last());
    }
}

pub proof fn lemma_plan_steps_len(items: Seq<JsonSpec>)
    ensures
        plan_steps_of(items).len() <= items.len(),
    decreases items.len(),
{
    if items.len() > 0 {
        lemma_plan_steps_len(items.drop_last());
    }
}

/// The templates of a report, in catalog order: the all-scope preview,
/// the scope previews, the confirmed executions and, for a vacuum
/// candidate, compaction, numbered 1, 2, 3, ... in that order. A report
/// that is no maintenance candidate has none.
pub open spec fn execution_templates_spec(project_id: Option<Seq<char>>, sm: JsonSpec, p: RetentionPolicy) -> Seq<JsonSpec> {
    if !sm.field("maintenance_candidate"@).bool_or(false) {
        Seq::empty()
    } else {
        let project = project_value(project_id);
        let hints = placeholder_hint_json(project_id is None);
        let previews = preview_templates(report_recommendations(sm), project, hints, p, 2);
        let steps = report_plan_steps(sm);
        let base = seq![all_scope_preview_json(project, hints)] + previews
            + execute_templates(steps, project, hints, p, 2 + previews.len() as int);
        if sm.field("vacuum_candidate"@).bool_or(false) {
            base.push(vacuum_json(
                project,
                sm.field("approx_reclaimable_bytes"@).i64_or(0) as i64,
                hints,
                2 + previews.len() + steps.len() as int,
            ))
        } else {
            base
        }
    }
}

/// The maintenance templates of a report. Defaults missing from the
/// report's recommendations and plan steps come from `default_policy`.
pub fn storage_maintenance_execution_templates(
    project_id: Option<&str>,
    storage_maintenance: &JsonValue,
    default_policy: &RetentionPolicy,
) -> (r: Vec<JsonValue>)
    requires
        array_len(storage_maintenance@.field("cleanup_recommendations"@))
            + array_len(storage_maintenance@.field("cleanup_plan"@).field("steps"@)) + 3 <= usize::MAX,
    ensures
        views(r@) == execution_templates_spec(opt_str(project_id), storage_maintenance@, *default_policy),
{
    let ghost sm = storage_maintenance@;
    let ghost spec = execution_templates_spec(opt_str(project_id), sm, *default_policy);
    let context = StorageMaintenanceTemplateContext::from_inputs(project_id, storage_maintenance);
    if !context.should_emit_templates() {
        let r: Vec<JsonValue> = Vec::new();
        assert(views(r@) =~= spec);
        return r;
    }
    proof {
        match sm.field("cleanup_recommendations"@) {
            JsonSpec::Arr(items) => lemma_recommendations_len(items),
            _ => {},
        }
        match sm.field("cleanup_plan"@).field("steps"@) {
            JsonSpec::Arr(items) => lemma_plan_steps_len(items),
            _ => {},
        }
    }
    let hint = context.project_placeholder_hint_json();
    let ghost project = context.project_id_value@;
    let ghost hints = hint@;
    let ghost p = *default_policy;
    let first = all_scope_preview_template(context.project_id_value(), &hint);
    let mut templates: Vec<JsonValue> = vec![first];
    assert(views(templates@) =~= seq![all_scope_preview_json(project, hints)]);
    let mut next_priority: usize = 2;
    append_scope_preview_templates(&mut templates, &context, &hint, default_policy, &mut next_priority);
    let ghost previews = preview_templates(context.cleanup_recommendations@, project, hints, p, 2);
    proof {
        lemma_preview_templates_len(context.cleanup_recommendations@, project, hints, p, 2);
    }
    append_execution_step_templates(&mut templates, &context, &hint, default_policy, &mut next_priority);
    if context.vacuum_candidate {
        let ghost before = templates@;
        match vacuum_compaction_template(&context, context.project_id_value(), hint, next_priority) {
            Some(t) => {
                templates.push(t);
                assert(views(templates@) =~= views(before).push(t@));
            },
            None => {},
        }
    }
    assert(views(templates@) =~= spec);
    templates
}

pub proof fn lemma_templates_len(project_id: Option<Seq<char>>, sm: JsonSpec, p: RetentionPolicy)
    ensures
        execution_templates_spec(project_id, sm, p).len()
            <= array_len(sm.field("cleanup_recommendations"@)) + array_len(sm.field("cleanup_plan"@).field("steps"@)) + 2,
{
    match sm.field("cleanup_recommendations"@) {
        JsonSpec::Arr(items) => lemma_recommendations_len(items),
        _ => {},
    }
    match sm.field("cleanup_plan"@).field("steps"@) {
        JsonSpec::Arr(items) => lemma_plan_steps_len(items),
        _ => {},
    }
    let project = project_value(project_id);
    let hints = placeholder_hint_json(project_id is None);
    lemma_preview_templates_len(report_recommendations(sm), project, hints, p, 2);
}

proof fn lemma_preview_priorities(
    recs: Seq<StorageCleanupRecommendation>,
    project: Seq<char>,
    hints: JsonSpec,
    p: RetentionPolicy,
    start: int,
)
    ensures
        forall|j: int| 0 <= j < preview_templates(recs, project, hints, p, start).len() ==>
            (#[trigger] preview_templates(recs, project, hints, p, start)[j]).field("priority"@) == JsonSpec::Num(start + j),
    decreases recs.len(),
{
    broadcast use super::templates::lemma_template_priority;
    if recs.len() > 0 {
        lemma_preview_priorities(recs.drop_last(), project, hints, p, start);
    }
}

/// The maintenance templates of a report are numbered 1, 2, 3, ... in
/// catalog order, whatever the report holds.
pub proof fn law_templates_numbered_in_order(project_id: Option<Seq<char>>, sm: JsonSpec, p: RetentionPolicy)
    ensures
        forall|i: int| 0 <= i < execution_templates_spec(project_id, sm, p).len() ==>
            (#[trigger] execution_templates_spec(project_id, sm, p)[i]).field("priority"@) == JsonSpec::Num(i + 1),
{
    broadcast use super::templates::lemma_template_priority;
    if sm.field("maintenance_candidate"@).bool_or(false) {
        let project = project_value(project_id);
        let hints = placeholder_hint_json(project_id is None);
        let recs = report_recommendations(sm);
        lemma_preview_priorities(recs, project, hints, p, 2);
        let previews = preview_templates(recs, project, hints, p, 2);
        let steps = report_plan_steps(sm);
        let ex = execute_templates(steps, project, hints, p, 2 + previews.len() as int);
        let ts = execution_templates_spec(project_id, sm, p);
        let first = seq![all_scope_preview_json(project, hints)];
        assert forall|i: int| 0 <= i < ts.len() implies (#[trigger] ts[i]).field("priority"@) == JsonSpec::Num(i + 1) by {
            if i == 0 {
                assert(ts[0] == all_scope_preview_json(project, hints));
            } else if i < 1 + previews.len() {
                assert(ts[i] == previews[i - 1]);
            } else if i < 1 + previews.len() + ex.len() {
                assert(ts[i] == ex[i - 1 - previews.len()]);
            } else {
                assert(ts[i] == vacuum_json(
                    project,
                    sm.field("approx_reclaimable_bytes"@).i64_or(0) as i64,
                    hints,
                    2 + previews.len() + steps.len() as int,
                ));
            }
        }
    }
}

} // verus!
