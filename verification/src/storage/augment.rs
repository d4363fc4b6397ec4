//! Putting storage maintenance in front of an agent's entrypoints.
use vstd::prelude::*;
use vstd::string::*;
use crate::json::{JsonSpec, JsonValue, jobj, js, jusize, lemma_put_other_field, views};
use crate::recommendation::scoring::bool_field_or;
use super::catalog::{
    array_len, execute_templates, execution_templates_spec, preview_templates,
    storage_maintenance_execution_templates,
};
use super::model::{opt_str, project_value};
use super::policy::RetentionPolicy;
use super::templates::{all_scope_command, all_scope_command_text, template_json};

verus! {

/// An array with one more element in front; any other value unchanged.
pub open spec fn prepended(v: JsonSpec, x: JsonSpec) -> JsonSpec {
    match v {
        JsonSpec::Arr(items) => JsonSpec::Arr(seq![x] + items),
        _ => v,
    }
}

/// Each element with its `priority` set to its position, counted from 1.
pub open spec fn renumbered(items: Seq<JsonSpec>) -> Seq<JsonSpec> {
    Seq::new(items.len(), |i: int| items[i].with_field("priority"@, JsonSpec::Num(i + 1)))
}

/// An array with the templates in front and every element renumbered; any
/// other value unchanged.
pub open spec fn with_templates(v: JsonSpec, templates: Seq<JsonSpec>) -> JsonSpec {
    match v {
        JsonSpec::Arr(items) => JsonSpec::Arr(renumbered(templates + items)),
        _ => v,
    }
}

/// The reason given for the cleanup command.
pub open spec fn selection_reason(project: Seq<char>, sm: JsonSpec) -> JsonSpec {
    JsonSpec::Obj(seq![
        ("kind"@, JsonSpec::Str("cli_command"@)),
        ("target"@, JsonSpec::Str(all_scope_command(project))),
        ("why"@, sm.field("summary"@)),
    ])
}

/// The entrypoints of a maintenance candidate get the all-scope cleanup
/// preview as first command, its reason as first selection reason, and the
/// maintenance templates in front of the execution templates, which are
/// then renumbered. Each of the three fields is looked up as serde's
/// `value[key]` does, so a missing one is added as `null`; a field that is
/// not an array is left as it is. Other entrypoints are not touched.
pub open spec fn augmented_entrypoints(
    e: JsonSpec,
    project_id: Option<Seq<char>>,
    sm: JsonSpec,
    p: RetentionPolicy,
) -> JsonSpec {
    if !sm.field("maintenance_candidate"@).bool_or(false) {
        e
    } else {
        let project = project_value(project_id);
        let e1 = e.put(
            "next_cli_commands"@,
            prepended(e.field("next_cli_commands"@), JsonSpec::Str(all_scope_command(project))),
        );
        let e2 = e1.put(
            "selection_reasons"@,
            prepended(e1.field("selection_reasons"@), selection_reason(project, sm)),
        );
        e2.put(
            "execution_templates"@,
            with_templates(e2.field("execution_templates"@), execution_templates_spec(project_id, sm, p)),
        )
    }
}

/// Every element is an object or `null`, so a field can be set on it.
pub open spec fn all_settable(items: Seq<JsonSpec>) -> bool {
    forall|i: int| 0 <= i < items.len() ==> (#[trigger] items[i] is Obj || items[i] is Null)
}

pub proof fn lemma_preview_templates_objects(
    recs: Seq<super::model::StorageCleanupRecommendation>,
    project: Seq<char>,
    hints: JsonSpec,
    p: RetentionPolicy,
    start: int,
)
    ensures
        all_settable(preview_templates(recs, project, hints, p, start)),
    decreases recs.len(),
{
    if recs.len() > 0 {
        lemma_preview_templates_objects(recs.drop_last(), project, hints, p, start);
    }
}

pub proof fn lemma_templates_objects(project_id: Option<Seq<char>>, sm: JsonSpec, p: RetentionPolicy)
    ensures
        all_settable(execution_templates_spec(project_id, sm, p)),
{
    if sm.field("maintenance_candidate"@).bool_or(false) {
        let project = project_value(project_id);
        let hints = super::model::placeholder_hint_json(project_id is None);
        let recs = super::catalog::report_recommendations(sm);
        lemma_preview_templates_objects(recs, project, hints, p, 2);
        let previews = preview_templates(recs, project, hints, p, 2);
        let steps = super::catalog::report_plan_steps(sm);
        let ex = execute_templates(steps, project, hints, p, 2 + previews.len() as int);
        assert(all_settable(ex));
    }
}

/// The entrypoints may be changed as serde allows: the entrypoints are an
/// object or `null`, and when the execution templates are an array, each
/// of its elements is one too.
pub open spec fn augmentable(e: JsonSpec, sm: JsonSpec) -> bool {
    sm.field("maintenance_candidate"@).bool_or(false) ==> {
        &&& (e is Obj || e is Null)
        &&& match e.field("execution_templates"@) {
            JsonSpec::Arr(items) => all_settable(items),
            _ => true,
        }
    }
}

fn prepend_if_array(v: JsonValue, x: JsonValue) -> (r: JsonValue)
    ensures
        r@ == prepended(v@, x@),
{
    let ghost vv = v@;
    match v {
        JsonValue::Array(mut items) => {
            let ghost before = views(items@);
            assert(vv->Arr_0 =~= before);
            let ghost xv = x@;
            items.insert(0, x);
            let r = JsonValue::Array(items);
            assert(r@->Arr_0 =~= seq![xv] + before) by {
                assert(views(items@) =~= seq![xv] + before);
                assert(r@->Arr_0 =~= views(items@));
            }
            r
        },
        other => other,
    }
}

fn renumber_with_templates(v: JsonValue, templates: Vec<JsonValue>) -> (r: JsonValue)
    requires
        all_settable(views(templates@)),
        v@ is Arr ==> all_settable(v@->Arr_0),
        v@ is Arr ==> templates@.len() + v@->Arr_0.len() <= usize::MAX,
    ensures
        r@ == with_templates(v@, views(templates@)),
{
    match v {
        JsonValue::Array(items) => {
            let ghost all = views(templates@) + views(items@);
            assert(v@->Arr_0 =~= views(items@)) by {
                assert(JsonValue::Array(items)@->Arr_0 =~= views(items@));
            }
            let mut out: Vec<JsonValue> = Vec::new();
            let mut i: usize = 0;
            while i < templates.len()
                invariant
                    i <= templates@.len(),
                    all == views(templates@) + views(items@),
                    all_settable(all),
                    all.len() <= usize::MAX,
                    views(out@) == renumbered(all).subrange(0, i as int),
                decreases templates@.len() - i,
            {
                let mut t = templates[i].dup();
                assert(all[i as int] == t@);
                t.set("priority", jusize(i + 1));
                let ghost before = out@;
                out.push(t);
                assert(views(out@) =~= renumbered(all).subrange(0, i + 1)) by {
                    assert(views(out@) =~= views(before).push(t@));
                }
                i = i + 1;
            }
            let n = templates.len();
            let mut k: usize = 0;
            while k < items.len()
                invariant
                    n == templates@.len(),
                    k <= items@.len(),
                    all == views(templates@) + views(items@),
                    all_settable(all),
                    all.len() <= usize::MAX,
                    views(out@) == renumbered(all).subrange(0, n + k),
                decreases items@.len() - k,
            {
                let mut t = items[k].dup();
                assert(all[n + k] == t@);
                t.set("priority", jusize(n + k + 1));
                let ghost before = out@;
                out.push(t);
                assert(views(out@) =~= renumbered(all).subrange(0, n + k + 1)) by {
                    assert(views(out@) =~= views(before).push(t@));
                }
                k = k + 1;
            }
            let r = JsonValue::Array(out);
            assert(renumbered(all).subrange(0, all.len() as int) =~= renumbered(all));
            assert(r@->Arr_0 =~= views(out@));
            r
        },
        other => other,
    }
}

pub fn augment_entrypoints_for_storage_maintenance(
    entrypoints: &mut JsonValue,
    project_id: Option<&str>,
    storage_maintenance: &JsonValue,
    default_policy: &RetentionPolicy,
)
    requires
        augmentable(old(entrypoints)@, storage_maintenance@),
        array_len(storage_maintenance@.field("cleanup_recommendations"@))
            + array_len(storage_maintenance@.field("cleanup_plan"@).field("steps"@))
            + array_len(old(entrypoints)@.field("execution_templates"@)) + 3 <= usize::MAX,
    ensures
        final(entrypoints)@ == augmented_entrypoints(
            old(entrypoints)@,
            opt_str(project_id),
            storage_maintenance@,
            *default_policy,
        ),
{
    if !bool_field_or(storage_maintenance, "maintenance_candidate", false) {
        return;
    }
    let ghost e0 = entrypoints@;
    let project_id_value = match project_id {
        Some(id) => id,
        None => "<project>",
    };
    assert(project_id_value@ == project_value(opt_str(project_id)));
    let command = all_scope_command_text(project_id_value);

    let commands = entrypoints.field("next_cli_commands");
    let commands = prepend_if_array(commands, js(command.as_str()));
    entrypoints.put("next_cli_commands", commands);
    let ghost e1 = entrypoints@;

    let reason = jobj(vec![
        ("kind", js("cli_command")),
        ("target", js(command.as_str())),
        ("why", storage_maintenance.field("summary")),
    ]);
    assert(reason@->Obj_0 =~= selection_reason(project_id_value@, storage_maintenance@)->Obj_0);
    let reasons = entrypoints.field("selection_reasons");
    let reasons = prepend_if_array(reasons, reason);
    entrypoints.put("selection_reasons", reasons);
    let ghost e2 = entrypoints@;

    // The two fields just set are not the execution templates.
    proof {
        reveal_strlit("next_cli_commands");
        reveal_strlit("selection_reasons");
        reveal_strlit("execution_templates");
        assert("next_cli_commands"@.len() != "execution_templates"@.len());
        assert("selection_reasons"@.len() != "execution_templates"@.len());
        lemma_put_other_field(e0, "next_cli_commands"@, commands@, "execution_templates"@);
        lemma_put_other_field(e1, "selection_reasons"@, reasons@, "execution_templates"@);
    }
    let existing = entrypoints.field("execution_templates");
    let templates = storage_maintenance_execution_templates(project_id, storage_maintenance, default_policy);
    proof {
        lemma_templates_objects(opt_str(project_id), storage_maintenance@, *default_policy);
        super::catalog::lemma_templates_len(opt_str(project_id), storage_maintenance@, *default_policy);
    }
    let renumbered_templates = renumber_with_templates(existing, templates);
    entrypoints.put("execution_templates", renumbered_templates);
}

/// Entrypoints that are no maintenance candidate stay as they were; for a
/// candidate, the execution templates, when they are an array, are
/// numbered 1, 2, 3, ... in their new order.
pub proof fn law_augmented_templates_renumbered(
    e: JsonSpec,
    project_id: Option<Seq<char>>,
    sm: JsonSpec,
    p: RetentionPolicy,
)
    ensures
        !sm.field("maintenance_candidate"@).bool_or(false) ==> augmented_entrypoints(e, project_id, sm, p) == e,
        sm.field("maintenance_candidate"@).bool_or(false) ==> (
            augmented_entrypoints(e, project_id, sm, p).field("execution_templates"@) matches JsonSpec::Arr(items)
            ==> forall|i: int| 0 <= i < items.len() ==> (#[trigger] items[i]).field("priority"@) == JsonSpec::Num(i + 1)),
{
    if sm.field("maintenance_candidate"@).bool_or(false) {
        let project = project_value(project_id);
        let e1 = e.put(
            "next_cli_commands"@,
            prepended(e.field("next_cli_commands"@), JsonSpec::Str(all_scope_command(project))),
        );
        let e2 = e1.put(
            "selection_reasons"@,
            prepended(e1.field("selection_reasons"@), selection_reason(project, sm)),
        );
        let v = with_templates(e2.field("execution_templates"@), execution_templates_spec(project_id, sm, p));
        crate::json::lemma_put_same_field(e2, "execution_templates"@, v);
        assert(augmented_entrypoints(e, project_id, sm, p) == e2.put("execution_templates"@, v));
        assert(augmented_entrypoints(e, project_id, sm, p).field("execution_templates"@) == v);
        match e2.field("execution_templates"@) {
            JsonSpec::Arr(old_items) => {
                let all = execution_templates_spec(project_id, sm, p) + old_items;
                assert forall|i: int| 0 <= i < renumbered(all).len() implies
                    (#[trigger] renumbered(all)[i]).field("priority"@) == JsonSpec::Num(i + 1) by {
                    crate::json::lemma_with_field_same(all[i], "priority"@, JsonSpec::Num(i + 1));
                }
            },
            _ => {},
        }
    }
}

} // verus!
