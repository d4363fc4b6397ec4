//! Command templates that carry out storage maintenance: previews, confirmed
//! executions and compaction.
use vstd::prelude::*;
use vstd::string::*;
use crate::json::{
    JsonSpec, JsonValue, jbool, jempty_arr, ji64, jobj, js, jstr_one, jstr_pair, jstr3, jstr4, jusize,
    str_array,
};
use crate::text::{cat, i64_to_text, signed_decimal};
use super::model::StorageCleanupScope;

verus! {

/// The fields every maintenance command template has, in this order.
pub open spec fn template_json(
    template_id: Seq<char>,
    command: Seq<char>,
    preconditions: JsonSpec,
    blocking: JsonSpec,
    success_signal: Seq<char>,
    schema: JsonSpec,
    defaults: JsonSpec,
    hints: JsonSpec,
    priority: int,
    should_run_if: JsonSpec,
    skip_if: JsonSpec,
    expected: JsonSpec,
    on_success: JsonSpec,
    on_failure: JsonSpec,
    confirm: bool,
    retry: JsonSpec,
) -> JsonSpec {
    JsonSpec::Obj(seq![
        ("template_id"@, JsonSpec::Str(template_id)),
        ("kind"@, JsonSpec::Str("cli_command"@)),
        ("command_template"@, JsonSpec::Str(command)),
        ("preconditions"@, preconditions),
        ("blocking_conditions"@, blocking),
        ("success_signal"@, JsonSpec::Str(success_signal)),
        ("parameter_schema"@, schema),
        ("default_values"@, defaults),
        ("placeholder_hints"@, hints),
        ("priority"@, JsonSpec::Num(priority)),
        ("should_run_if"@, should_run_if),
        ("skip_if"@, skip_if),
        ("expected_output_fields"@, expected),
        ("follow_up_on_success"@, on_success),
        ("follow_up_on_failure"@, on_failure),
        ("plan_stage"@, JsonSpec::Str("maintain"@)),
        ("terminality"@, JsonSpec::Str("non_terminal"@)),
        ("can_run_in_parallel"@, JsonSpec::Bool(false)),
        ("requires_human_confirmation"@, JsonSpec::Bool(confirm)),
        ("evidence_written_to_opendog"@, JsonSpec::Bool(false)),
        ("retry_policy"@, retry),
    ])
}

/// The `priority` field of a template is its priority.
pub broadcast proof fn lemma_template_priority(
    template_id: Seq<char>,
    command: Seq<char>,
    preconditions: JsonSpec,
    blocking: JsonSpec,
    success_signal: Seq<char>,
    schema: JsonSpec,
    defaults: JsonSpec,
    hints: JsonSpec,
    priority: int,
    should_run_if: JsonSpec,
    skip_if: JsonSpec,
    expected: JsonSpec,
    on_success: JsonSpec,
    on_failure: JsonSpec,
    confirm: bool,
    retry: JsonSpec,
)
    ensures
        #[trigger] template_json(template_id, command, preconditions, blocking, success_signal, schema, defaults, hints, priority, should_run_if, skip_if, expected, on_success, on_failure, confirm, retry).field("priority"@) == JsonSpec::Num(priority),
{
    reveal_strlit("priority");
    reveal_strlit("should_run_if");
    reveal_strlit("skip_if");
    reveal_strlit("expected_output_fields");
    reveal_strlit("follow_up_on_success");
    reveal_strlit("follow_up_on_failure");
    reveal_strlit("plan_stage");
    reveal_strlit("terminality");
    reveal_strlit("can_run_in_parallel");
    reveal_strlit("requires_human_confirmation");
    reveal_strlit("evidence_written_to_opendog");
    reveal_strlit("retry_policy");
    let es = template_json(template_id, command, preconditions, blocking, success_signal, schema, defaults, hints, priority, should_run_if, skip_if, expected, on_success, on_failure, confirm, retry)->Obj_0;
    assert forall|j: int| 9 < j < es.len() implies (#[trigger] es[j]).0 != "priority"@ by {
        if j == 10 {
            assert(es[10].0.len() == 13);
        } else if j == 11 {
            assert(es[11].0.len() == 7);
        } else if j == 12 {
            assert(es[12].0.len() == 22);
        } else if j == 13 {
            assert(es[13].0.len() == 20);
        } else if j == 14 {
            assert(es[14].0.len() == 20);
        } else if j == 15 {
            assert(es[15].0.len() == 10);
        } else if j == 16 {
            assert(es[16].0.len() == 11);
        } else if j == 17 {
            assert(es[17].0.len() == 19);
        } else if j == 18 {
            assert(es[18].0.len() == 27);
        } else if j == 19 {
            assert(es[19].0.len() == 27);
        } else if j == 20 {
            assert(es[20].0.len() == 12);
        }
    }
    crate::json::lemma_lookup_at(es, "priority"@, 9);
}

fn cli_template(
    template_id: &str,
    command: &str,
    preconditions: JsonValue,
    blocking: JsonValue,
    success_signal: &str,
    schema: JsonValue,
    defaults: JsonValue,
    hints: JsonValue,
    priority: usize,
    should_run_if: JsonValue,
    skip_if: JsonValue,
    expected: JsonValue,
    on_success: JsonValue,
    on_failure: JsonValue,
    confirm: bool,
    retry: JsonValue,
) -> (r: JsonValue)
    ensures
        r@ == template_json(
            template_id@,
            command@,
            preconditions@,
            blocking@,
            success_signal@,
            schema@,
            defaults@,
            hints@,
            priority as int,
            should_run_if@,
            skip_if@,
            expected@,
            on_success@,
            on_failure@,
            confirm,
            retry@,
        ),
{
    let ghost spec = template_json(
        template_id@,
        command@,
        preconditions@,
        blocking@,
        success_signal@,
        schema@,
        defaults@,
        hints@,
        priority as int,
        should_run_if@,
        skip_if@,
        expected@,
        on_success@,
        on_failure@,
        confirm,
        retry@,
    );
    let r = jobj(vec![
        ("template_id", js(template_id)),
        ("kind", js("cli_command")),
        ("command_template", js(command)),
        ("preconditions", preconditions),
        ("blocking_conditions", blocking),
        ("success_signal", js(success_signal)),
        ("parameter_schema", schema),
        ("default_values", defaults),
        ("placeholder_hints", hints),
        ("priority", jusize(priority)),
        ("should_run_if", should_run_if),
        ("skip_if", skip_if),
        ("expected_output_fields", expected),
        ("follow_up_on_success", on_success),
        ("follow_up_on_failure", on_failure),
        ("plan_stage", js("maintain")),
        ("terminality", js("non_terminal")),
        ("can_run_in_parallel", jbool(false)),
        ("requires_human_confirmation", jbool(confirm)),
        ("evidence_written_to_opendog", jbool(false)),
        ("retry_policy", retry),
    ]);
    assert(r@->Obj_0 =~= spec->Obj_0);
    r
}

/// The project id parameter.
pub open spec fn id_param() -> JsonSpec {
    JsonSpec::Obj(seq![
        ("type"@, JsonSpec::Str("string"@)),
        ("required"@, JsonSpec::Bool(true)),
        ("source"@, JsonSpec::Str("project_id"@)),
    ])
}

fn id_param_json() -> (r: JsonValue)
    ensures
        r@ == id_param(),
{
    let r = jobj(vec![("type", js("string")), ("required", jbool(true)), ("source", js("project_id"))]);
    assert(r@->Obj_0 =~= id_param()->Obj_0);
    r
}

/// An optional parameter of a type.
pub open spec fn opt_param(t: Seq<char>) -> JsonSpec {
    JsonSpec::Obj(seq![("type"@, JsonSpec::Str(t)), ("required"@, JsonSpec::Bool(false))])
}

fn opt_param_json(t: &str) -> (r: JsonValue)
    ensures
        r@ == opt_param(t@),
{
    let r = jobj(vec![("type", js(t)), ("required", jbool(false))]);
    assert(r@->Obj_0 =~= opt_param(t@)->Obj_0);
    r
}

/// The scope parameter with its allowed values.
pub open spec fn scope_param(allowed: JsonSpec) -> JsonSpec {
    JsonSpec::Obj(seq![
        ("type"@, JsonSpec::Str("enum"@)),
        ("required"@, JsonSpec::Bool(true)),
        ("allowed_values"@, allowed),
    ])
}

fn scope_param_json(allowed: JsonValue) -> (r: JsonValue)
    ensures
        r@ == scope_param(allowed@),
{
    let ghost a = allowed@;
    let r = jobj(vec![("type", js("enum")), ("required", jbool(true)), ("allowed_values", allowed)]);
    assert(r@->Obj_0 =~= scope_param(a)->Obj_0);
    r
}

/// A retry policy.
pub open spec fn retry_json(max_attempts: int, strategy: Seq<char>, retry_when: Seq<char>) -> JsonSpec {
    JsonSpec::Obj(seq![
        ("allowed"@, JsonSpec::Bool(true)),
        ("max_attempts"@, JsonSpec::Num(max_attempts)),
        ("strategy"@, JsonSpec::Str(strategy)),
        ("retry_when"@, str_array(seq![retry_when])),
    ])
}

fn retry_policy(max_attempts: i64, strategy: &str, retry_when: &str) -> (r: JsonValue)
    ensures
        r@ == retry_json(max_attempts as int, strategy@, retry_when@),
{
    let r = jobj(vec![
        ("allowed", jbool(true)),
        ("max_attempts", ji64(max_attempts)),
        ("strategy", js(strategy)),
        ("retry_when", jstr_one(retry_when)),
    ]);
    assert(r@->Obj_0 =~= retry_json(max_attempts as int, strategy@, retry_when@)->Obj_0);
    r
}

pub open spec fn all_scopes() -> JsonSpec {
    str_array(seq!["activity"@, "snapshots"@, "verification"@, "all"@])
}

pub open spec fn preview_preconditions() -> JsonSpec {
    str_array(seq![
        "project must exist in OPENDOG"@,
        "use dry-run first before deleting retained OPENDOG evidence"@,
    ])
}

pub open spec fn preview_expected_fields() -> JsonSpec {
    str_array(seq![
        "deleted"@,
        "storage_before.approx_db_size_bytes"@,
        "storage_before.approx_reclaimable_bytes"@,
        "maintenance"@,
    ])
}

pub open spec fn preview_retry() -> JsonSpec {
    retry_json(2, "rerun_after_scope_or_retention_parameter_adjustment"@, "project id or cleanup scope was corrected"@)
}

/// The all-scope cleanup preview command.
pub open spec fn all_scope_command(project: Seq<char>) -> Seq<char> {
    "opendog cleanup-data --id "@ + project + " --scope all --older-than-days 30 --dry-run --json"@
}

/// The template that previews a cleanup of all scopes; it always comes first.
pub open spec fn all_scope_preview_json(project: Seq<char>, hints: JsonSpec) -> JsonSpec {
    template_json(
        "storage.cleanup.preview"@,
        all_scope_command(project),
        preview_preconditions(),
        JsonSpec::Arr(seq![]),
        "cleanup preview returns deleted counts plus storage_before metrics"@,
        JsonSpec::Obj(seq![
            ("id"@, id_param()),
            ("scope"@, scope_param(all_scopes())),
            ("older_than_days"@, opt_param("integer"@)),
            ("dry_run"@, opt_param("boolean"@)),
            ("json"@, opt_param("boolean"@)),
        ]),
        JsonSpec::Obj(seq![
            ("scope"@, JsonSpec::Str("all"@)),
            ("older_than_days"@, JsonSpec::Num(30)),
            ("dry_run"@, JsonSpec::Bool(true)),
            ("json"@, JsonSpec::Bool(true)),
        ]),
        hints,
        1,
        str_array(seq!["run when OPENDOG project-db size or reclaimable pages suggest retention maintenance"@]),
        str_array(seq!["skip if project database is still small and reclaimable space is negligible"@]),
        preview_expected_fields(),
        str_array(seq![
            "if deleted counts are meaningful, ask whether to rerun cleanup without dry_run"@,
            "if reclaimable bytes remain high, consider a follow-up vacuum pass"@,
        ]),
        str_array(seq!["fallback to project-scoped stats and verification review if cleanup preview is unavailable"@]),
        false,
        preview_retry(),
    )
}

pub fn all_scope_command_text(project_id_value: &str) -> (r: String)
    ensures
        r@ == all_scope_command(project_id_value@),
{
    let a = cat("opendog cleanup-data --id ", project_id_value);
    cat(a.as_str(), " --scope all --older-than-days 30 --dry-run --json")
}

pub fn all_scope_preview_template(project_id_value: &str, project_placeholder_hint: &JsonValue) -> (r: JsonValue)
    ensures
        r@ == all_scope_preview_json(project_id_value@, project_placeholder_hint@),
{
    let command = all_scope_command_text(project_id_value);
    let schema = jobj(vec![
        ("id", id_param_json()),
        ("scope", scope_param_json(jstr4("activity", "snapshots", "verification", "all"))),
        ("older_than_days", opt_param_json("integer")),
        ("dry_run", opt_param_json("boolean")),
        ("json", opt_param_json("boolean")),
    ]);
    assert(schema@->Obj_0 =~= seq![
        ("id"@, id_param()),
        ("scope"@, scope_param(all_scopes())),
        ("older_than_days"@, opt_param("integer"@)),
        ("dry_run"@, opt_param("boolean"@)),
        ("json"@, opt_param("boolean"@)),
    ]);
    let defaults = jobj(vec![
        ("scope", js("all")),
        ("older_than_days", ji64(30)),
        ("dry_run", jbool(true)),
        ("json", jbool(true)),
    ]);
    assert(defaults@->Obj_0 =~= seq![
        ("scope"@, JsonSpec::Str("all"@)),
        ("older_than_days"@, JsonSpec::Num(30)),
        ("dry_run"@, JsonSpec::Bool(true)),
        ("json"@, JsonSpec::Bool(true)),
    ]);
    cli_template(
        "storage.cleanup.preview",
        command.as_str(),
        jstr_pair("project must exist in OPENDOG", "use dry-run first before deleting retained OPENDOG evidence"),
        jempty_arr(),
        "cleanup preview returns deleted counts plus storage_before metrics",
        schema,
        defaults,
        project_placeholder_hint.dup(),
        1,
        jstr_one("run when OPENDOG project-db size or reclaimable pages suggest retention maintenance"),
        jstr_one("skip if project database is still small and reclaimable space is negligible"),
        jstr4(
            "deleted",
            "storage_before.approx_db_size_bytes",
            "storage_before.approx_reclaimable_bytes",
            "maintenance",
        ),
        jstr_pair(
            "if deleted counts are meaningful, ask whether to rerun cleanup without dry_run",
            "if reclaimable bytes remain high, consider a follow-up vacuum pass",
        ),
        jstr_one("fallback to project-scoped stats and verification review if cleanup preview is unavailable"),
        false,
        retry_policy(2, "rerun_after_scope_or_retention_parameter_adjustment", "project id or cleanup scope was corrected"),
    )
}

/// The scope-specific preview command.
pub open spec fn scope_preview_command(project: Seq<char>, scope: StorageCleanupScope, days: i64, keep: i64) -> Seq<char> {
    match scope {
        StorageCleanupScope::Snapshots => "opendog cleanup-data --id "@ + project
            + " --scope snapshots --keep-snapshot-runs "@ + signed_decimal(keep as int) + " --dry-run --json"@,
        _ => "opendog cleanup-data --id "@ + project + " --scope "@ + scope.name()
            + " --older-than-days "@ + signed_decimal(days as int) + " --dry-run --json"@,
    }
}

pub open spec fn scope_defaults(scope: StorageCleanupScope, days: i64, keep: i64, dry_run: bool) -> JsonSpec {
    match scope {
        StorageCleanupScope::Snapshots => JsonSpec::Obj(seq![
            ("scope"@, JsonSpec::Str("snapshots"@)),
            ("keep_snapshot_runs"@, JsonSpec::Num(keep as int)),
            ("dry_run"@, JsonSpec::Bool(dry_run)),
            ("json"@, JsonSpec::Bool(true)),
        ]),
        _ => JsonSpec::Obj(seq![
            ("scope"@, JsonSpec::Str(scope.name())),
            ("older_than_days"@, JsonSpec::Num(days as int)),
            ("dry_run"@, JsonSpec::Bool(dry_run)),
            ("json"@, JsonSpec::Bool(true)),
        ]),
    }
}

pub open spec fn scoped_schema(allowed: JsonSpec) -> JsonSpec {
    JsonSpec::Obj(seq![
        ("id"@, id_param()),
        ("scope"@, scope_param(allowed)),
        ("older_than_days"@, opt_param("integer"@)),
        ("keep_snapshot_runs"@, opt_param("integer"@)),
        ("dry_run"@, opt_param("boolean"@)),
        ("json"@, opt_param("boolean"@)),
    ])
}

/// The preview of one named scope; there is none for "all".
pub open spec fn scope_preview_json(
    project: Seq<char>,
    scope: StorageCleanupScope,
    days: i64,
    keep: i64,
    hints: JsonSpec,
    priority: int,
) -> Option<JsonSpec> {
    if scope == StorageCleanupScope::All {
        None
    } else {
        Some(template_json(
            "storage.cleanup."@ + scope.name() + ".preview"@,
            scope_preview_command(project, scope, days, keep),
            preview_preconditions(),
            JsonSpec::Arr(seq![]),
            scope.name() + " cleanup preview returns deleted counts plus storage_before metrics"@,
            scoped_schema(str_array(seq!["activity"@, "snapshots"@, "verification"@])),
            scope_defaults(scope, days, keep, true),
            hints,
            priority,
            str_array(seq!["run when OPENDOG storage pressure recommendation names this cleanup scope"@]),
            str_array(seq!["skip if the operator wants a single all-scope cleanup preview instead"@]),
            preview_expected_fields(),
            str_array(seq!["if deleted counts are meaningful, ask whether to rerun cleanup without dry_run"@]),
            str_array(seq!["fallback to the all-scope cleanup preview to compare retained evidence counts"@]),
            false,
            preview_retry(),
        ))
    }
}

fn scoped_schema_json(allowed: JsonValue) -> (r: JsonValue)
    ensures
        r@ == scoped_schema(allowed@),
{
    let ghost a = allowed@;
    let r = jobj(vec![
        ("id", id_param_json()),
        ("scope", scope_param_json(allowed)),
        ("older_than_days", opt_param_json("integer")),
        ("keep_snapshot_runs", opt_param_json("integer")),
        ("dry_run", opt_param_json("boolean")),
        ("json", opt_param_json("boolean")),
    ]);
    assert(r@->Obj_0 =~= scoped_schema(a)->Obj_0);
    r
}

fn scope_defaults_json(scope: StorageCleanupScope, days: i64, keep: i64, dry_run: bool) -> (r: JsonValue)
    ensures
        r@ == scope_defaults(scope, days, keep, dry_run),
{
    match scope {
        StorageCleanupScope::Snapshots => {
            let r = jobj(vec![
                ("scope", js("snapshots")),
                ("keep_snapshot_runs", ji64(keep)),
                ("dry_run", jbool(dry_run)),
                ("json", jbool(true)),
            ]);
            assert(r@->Obj_0 =~= scope_defaults(scope, days, keep, dry_run)->Obj_0);
            r
        },
        _ => {
            let r = jobj(vec![
                ("scope", js(scope.as_str())),
                ("older_than_days", ji64(days)),
                ("dry_run", jbool(dry_run)),
                ("json", jbool(true)),
            ]);
            assert(r@->Obj_0 =~= scope_defaults(scope, days, keep, dry_run)->Obj_0);
            r
        },
    }
}

/// The command of a scope, with or without the dry-run flag.
fn scope_command(project_id_value: &str, scope: StorageCleanupScope, days: i64, keep: i64, dry_run: bool) -> (r: String)
    ensures
        r@ == (if dry_run {
            scope_preview_command(project_id_value@, scope, days, keep)
        } else {
            execution_command(project_id_value@, scope, days, keep)
        }),
{
    let tail = if dry_run { " --dry-run --json" } else { " --json" };
    match scope {
        StorageCleanupScope::Snapshots => {
            let n = i64_to_text(keep);
            let head = crate::text::cat5("opendog cleanup-data --id ", project_id_value, " --scope snapshots --keep-snapshot-runs ", n.as_str(), tail);
            assert(head@ == (if dry_run {
                scope_preview_command(project_id_value@, scope, days, keep)
            } else {
                execution_command(project_id_value@, scope, days, keep)
            }));
            head
        },
        _ => {
            let n = i64_to_text(days);
            let a = crate::text::cat5("opendog cleanup-data --id ", project_id_value, " --scope ", scope.as_str(), " --older-than-days ");
            let r = crate::text::cat3(a.as_str(), n.as_str(), tail);
            assert(r@ == (if dry_run {
                scope_preview_command(project_id_value@, scope, days, keep)
            } else {
                execution_command(project_id_value@, scope, days, keep)
            }));
            r
        },
    }
}

pub fn scope_preview_template(
    project_id_value: &str,
    scope: StorageCleanupScope,
    older_than_days: i64,
    keep_snapshot_runs: i64,
    project_placeholder_hint: &JsonValue,
    priority: usize,
) -> (r: Option<JsonValue>)
    ensures
        r is Some <==> scope_preview_json(project_id_value@, scope, older_than_days, keep_snapshot_runs, project_placeholder_hint@, priority as int) is Some,
        r matches Some(t) ==> Some(t@) == scope_preview_json(
            project_id_value@,
            scope,
            older_than_days,
            keep_snapshot_runs,
            project_placeholder_hint@,
            priority as int,
        ),
{
    if scope == StorageCleanupScope::All {
        return None;
    }
    let scope_name = scope.as_str();
    let command = scope_command(project_id_value, scope, older_than_days, keep_snapshot_runs, true);
    let template_id = crate::text::cat3("storage.cleanup.", scope_name, ".preview");
    let signal = cat(scope_name, " cleanup preview returns deleted counts plus storage_before metrics");
    let t = cli_template(
        template_id.as_str(),
        command.as_str(),
        jstr_pair("project must exist in OPENDOG", "use dry-run first before deleting retained OPENDOG evidence"),
        jempty_arr(),
        signal.as_str(),
        scoped_schema_json(jstr3("activity", "snapshots", "verification")),
        scope_defaults_json(scope, older_than_days, keep_snapshot_runs, true),
        project_placeholder_hint.dup(),
        priority,
        jstr_one("run when OPENDOG storage pressure recommendation names this cleanup scope"),
        jstr_one("skip if the operator wants a single all-scope cleanup preview instead"),
        jstr4(
            "deleted",
            "storage_before.approx_db_size_bytes",
            "storage_before.approx_reclaimable_bytes",
            "maintenance",
        ),
        jstr_one("if deleted counts are meaningful, ask whether to rerun cleanup without dry_run"),
        jstr_one("fallback to the all-scope cleanup preview to compare retained evidence counts"),
        false,
        retry_policy(2, "rerun_after_scope_or_retention_parameter_adjustment", "project id or cleanup scope was corrected"),
    );
    Some(t)
}

/// The confirmed execution command of a scope.
pub open spec fn execution_command(project: Seq<char>, scope: StorageCleanupScope, days: i64, keep: i64) -> Seq<char> {
    match scope {
        StorageCleanupScope::Snapshots => "opendog cleanup-data --id "@ + project
            + " --scope snapshots --keep-snapshot-runs "@ + signed_decimal(keep as int) + " --json"@,
        _ => "opendog cleanup-data --id "@ + project + " --scope "@ + scope.name()
            + " --older-than-days "@ + signed_decimal(days as int) + " --json"@,
    }
}

/// The confirmed execution of one step of the cleanup plan.
pub open spec fn execution_step_json(
    project: Seq<char>,
    scope: StorageCleanupScope,
    days: i64,
    keep: i64,
    hints: JsonSpec,
    priority: int,
) -> JsonSpec {
    template_json(
        "storage.cleanup."@ + scope.name() + ".execute"@,
        execution_command(project, scope, days, keep),
        str_array(seq![
            "run only after the matching cleanup-data dry-run preview was reviewed"@,
            "operator must confirm retained OPENDOG evidence can be deleted"@,
        ]),
        str_array(seq!["requires explicit confirmation because this command deletes retained OPENDOG evidence"@]),
        scope.name() + " cleanup execution returns deleted counts plus storage_after metrics"@,
        scoped_schema(all_scopes()),
        scope_defaults(scope, days, keep, false),
        hints,
        priority,
        str_array(seq!["run only when the policy cleanup plan execute_cleanup step is approved"@]),
        str_array(seq!["skip if the dry-run preview was not reviewed or deleted counts look unsafe"@]),
        str_array(seq![
            "deleted"@,
            "storage_before.approx_db_size_bytes"@,
            "storage_after.approx_db_size_bytes"@,
            "maintenance"@,
        ]),
        str_array(seq!["refresh agent guidance to confirm storage pressure decreased"@]),
        str_array(seq!["rerun the matching dry-run preview and adjust retention policy before retrying"@]),
        true,
        retry_json(1, "retry_after_preview_review_or_retention_parameter_change"@, "the operator explicitly approved a corrected cleanup execution"@),
    )
}

pub fn execution_step_template(
    project_id_value: &str,
    scope: StorageCleanupScope,
    older_than_days: i64,
    keep_snapshot_runs: i64,
    project_placeholder_hint: &JsonValue,
    priority: usize,
) -> (r: JsonValue)
    ensures
        r@ == execution_step_json(
            project_id_value@,
            scope,
            older_than_days,
            keep_snapshot_runs,
            project_placeholder_hint@,
            priority as int,
        ),
{
    let scope_name = scope.as_str();
    let command = scope_command(project_id_value, scope, older_than_days, keep_snapshot_runs, false);
    let template_id = crate::text::cat3("storage.cleanup.", scope_name, ".execute");
    let signal = cat(scope_name, " cleanup execution returns deleted counts plus storage_after metrics");
    cli_template(
        template_id.as_str(),
        command.as_str(),
        jstr_pair(
            "run only after the matching cleanup-data dry-run preview was reviewed",
            "operator must confirm retained OPENDOG evidence can be deleted",
        ),
        jstr_one("requires explicit confirmation because this command deletes retained OPENDOG evidence"),
        signal.as_str(),
        scoped_schema_json(jstr4("activity", "snapshots", "verification", "all")),
        scope_defaults_json(scope, older_than_days, keep_snapshot_runs, false),
        project_placeholder_hint.dup(),
        priority,
        jstr_one("run only when the policy cleanup plan execute_cleanup step is approved"),
        jstr_one("skip if the dry-run preview was not reviewed or deleted counts look unsafe"),
        jstr4(
            "deleted",
            "storage_before.approx_db_size_bytes",
            "storage_after.approx_db_size_bytes",
            "maintenance",
        ),
        jstr_one("refresh agent guidance to confirm storage pressure decreased"),
        jstr_one("rerun the matching dry-run preview and adjust retention policy before retrying"),
        true,
        retry_policy(
            1,
            "retry_after_preview_review_or_retention_parameter_change",
            "the operator explicitly approved a corrected cleanup execution",
        ),
    )
}

/// The compaction command.
pub open spec fn vacuum_command(project: Seq<char>) -> Seq<char> {
    "opendog cleanup-data --id "@ + project + " --scope all --older-than-days 30 --vacuum --json"@
}

/// The compaction template of a vacuum candidate.
pub open spec fn vacuum_json(project: Seq<char>, reclaimable: i64, hints: JsonSpec, priority: int) -> JsonSpec {
    template_json(
        "storage.cleanup.compact"@,
        vacuum_command(project),
        str_array(seq![
            "run only after preview confirms retained evidence can be pruned safely"@,
            "reserve vacuum for explicit space-reclaim passes"@,
        ]),
        str_array(seq!["requires explicit confirmation because cleanup plus vacuum rewrites the project database"@]),
        "storage_after shows reduced reclaimable space after reclaiming about "@
            + signed_decimal(reclaimable as int) + " bytes"@,
        JsonSpec::Obj(seq![
            ("id"@, id_param()),
            ("scope"@, scope_param(str_array(seq!["all"@]))),
            ("older_than_days"@, opt_param("integer"@)),
            ("vacuum"@, opt_param("boolean"@)),
        ]),
        JsonSpec::Obj(seq![
            ("scope"@, JsonSpec::Str("all"@)),
            ("older_than_days"@, JsonSpec::Num(30)),
            ("vacuum"@, JsonSpec::Bool(true)),
            ("json"@, JsonSpec::Bool(true)),
        ]),
        hints,
        priority,
        str_array(seq!["run only when reclaimable bytes remain materially high and the user agrees to maintenance"@]),
        str_array(seq!["skip if preview shows little reclaimable space or the user does not want database compaction"@]),
        str_array(seq![
            "storage_after.approx_db_size_bytes"@,
            "storage_after.approx_reclaimable_bytes"@,
            "maintenance.vacuumed"@,
        ]),
        str_array(seq!["refresh agent guidance if storage pressure was the main maintenance concern"@]),
        str_array(seq!["rerun the preview without vacuum to inspect counts and maintenance notes again"@]),
        true,
        retry_json(1, "retry_after_confirmation_or_parameter_change"@, "the user explicitly approved the vacuum pass"@),
    )
}

pub fn vacuum_template(
    project_id_value: &str,
    approx_reclaimable_bytes: i64,
    project_placeholder_hint: JsonValue,
    priority: usize,
) -> (r: JsonValue)
    ensures
        r@ == vacuum_json(project_id_value@, approx_reclaimable_bytes, project_placeholder_hint@, priority as int),
{
    let a = cat("opendog cleanup-data --id ", project_id_value);
    let command = cat(a.as_str(), " --scope all --older-than-days 30 --vacuum --json");
    let n = i64_to_text(approx_reclaimable_bytes);
    let signal = crate::text::cat3(
        "storage_after shows reduced reclaimable space after reclaiming about ",
        n.as_str(),
        " bytes",
    );
    let schema = jobj(vec![
        ("id", id_param_json()),
        ("scope", scope_param_json(jstr_one("all"))),
        ("older_than_days", opt_param_json("integer")),
        ("vacuum", opt_param_json("boolean")),
    ]);
    assert(schema@->Obj_0 =~= seq![
        ("id"@, id_param()),
        ("scope"@, scope_param(str_array(seq!["all"@]))),
        ("older_than_days"@, opt_param("integer"@)),
        ("vacuum"@, opt_param("boolean"@)),
    ]);
    let defaults = jobj(vec![
        ("scope", js("all")),
        ("older_than_days", ji64(30)),
        ("vacuum", jbool(true)),
        ("json", jbool(true)),
    ]);
    assert(defaults@->Obj_0 =~= seq![
        ("scope"@, JsonSpec::Str("all"@)),
        ("older_than_days"@, JsonSpec::Num(30)),
        ("vacuum"@, JsonSpec::Bool(true)),
        ("json"@, JsonSpec::Bool(true)),
    ]);
    cli_template(
        "storage.cleanup.compact",
        command.as_str(),
        jstr_pair(
            "run only after preview confirms retained evidence can be pruned safely",
            "reserve vacuum for explicit space-reclaim passes",
        ),
        jstr_one("requires explicit confirmation because cleanup plus vacuum rewrites the project database"),
        signal.as_str(),
        schema,
        defaults,
        project_placeholder_hint,
        priority,
        jstr_one("run only when reclaimable bytes remain materially high and the user agrees to maintenance"),
        jstr_one("skip if preview shows little reclaimable space or the user does not want database compaction"),
        jstr3(
            "storage_after.approx_db_size_bytes",
            "storage_after.approx_reclaimable_bytes",
            "maintenance.vacuumed",
        ),
        jstr_one("refresh agent guidance if storage pressure was the main maintenance concern"),
        jstr_one("rerun the preview without vacuum to inspect counts and maintenance notes again"),
        true,
        retry_policy(1, "retry_after_confirmation_or_parameter_change", "the user explicitly approved the vacuum pass"),
    )
}

} // verus!
