//! The execution sequence that accompanies a recommendation: what to do
//! first and when to come back for fresh guidance.
use vstd::prelude::*;
use vstd::string::*;
use crate::json::{JsonSpec, JsonValue, js, jobj, jstr_one, jstr_pair, jstrings, str_array};
use crate::text::{str_eq, text_views, trim, trimmed};
use super::eligibility::{RecommendationSignals, forced_action_of};

verus! {

/// One recorded verification run.
#[derive(Debug)]
pub struct VerificationRun {
    pub id: i64,
    pub kind: String,
    pub status: String,
    pub command: String,
    pub exit_code: Option<i32>,
    pub summary: Option<String>,
    pub source: String,
    pub started_at: Option<String>,
    pub finished_at: String,
}

/// The string elements of a JSON array, in order; other elements are skipped.
pub open spec fn string_items(items: Seq<JsonSpec>) -> Seq<Seq<char>>
    decreases items.len(),
{
    if items.len() == 0 {
        Seq::empty()
    } else {
        let rest = string_items(items.drop_last());
        match items.last() {
            JsonSpec::Str(s) => rest.push(s),
            _ => rest,
        }
    }
}

/// `value[key]` as a list of commands: its string elements when it is an
/// array, nothing otherwise.
pub open spec fn commands_of(value: JsonSpec, key: Seq<char>) -> Seq<Seq<char>> {
    match value.field(key) {
        JsonSpec::Arr(items) => string_items(items),
        _ => Seq::empty(),
    }
}

pub fn commands_from_array(value: &JsonValue, key: &str) -> (r: Vec<String>)
    ensures
        text_views(r@) == commands_of(value@, key@),
{
    let mut out: Vec<String> = Vec::new();
    match value.get_array(key) {
        Some(items) => {
            let ghost spec_items = crate::json::views(items@);
            let mut i: usize = 0;
            while i < items.len()
                invariant
                    i <= items@.len(),
                    spec_items == crate::json::views(items@),
                    text_views(out@) == string_items(spec_items.subrange(0, i as int)),
                decreases items@.len() - i,
            {
                proof {
                    assert(spec_items.subrange(0, i + 1).drop_last() =~= spec_items.subrange(0, i as int));
                }
                match &items[i] {
                    JsonValue::Str(s) => {
                        out.push(s.clone());
                        proof {
                            assert(text_views(out@) =~= text_views(out@).drop_last().push(s@));
                        }
                    },
                    _ => {},
                }
                i = i + 1;
            }
            assert(spec_items.subrange(0, items@.len() as int) =~= spec_items);
        },
        None => {
            assert(text_views(out@) =~= Seq::<Seq<char>>::empty());
        },
    }
    out
}

/// A run counts as failing when it did not pass and names a command.
pub open spec fn run_is_failing(run: VerificationRun) -> bool {
    run.status@ != "passed"@ && trimmed(run.command@).len() > 0
}

/// The trimmed command of the first failing run at or after `i`.
pub open spec fn first_failing_from(runs: Seq<VerificationRun>, i: int) -> Option<Seq<char>>
    decreases runs.len() - i,
{
    if i < 0 || i >= runs.len() {
        None
    } else if run_is_failing(runs[i]) {
        Some(trimmed(runs[i].command@))
    } else {
        first_failing_from(runs, i + 1)
    }
}

/// The trimmed command of the first (most recent) failing run.
pub open spec fn latest_failing(runs: Seq<VerificationRun>) -> Option<Seq<char>> {
    first_failing_from(runs, 0)
}

pub open spec fn opt_text(s: Option<String>) -> Option<Seq<char>> {
    match s {
        Some(t) => Some(t@),
        None => None,
    }
}

pub fn latest_failing_command(runs: &[VerificationRun]) -> (r: Option<String>)
    ensures
        opt_text(r) == latest_failing(runs@),
{
    let mut i: usize = 0;
    while i < runs.len()
        invariant
            i <= runs@.len(),
            latest_failing(runs@) == first_failing_from(runs@, i as int),
        decreases runs@.len() - i,
    {
        let run = &runs[i];
        let command = trim(run.command.as_str());
        if !str_eq(run.status.as_str(), "passed") && command.unicode_len() > 0 {
            return Some(command);
        }
        i = i + 1;
    }
    None
}

/// The sequence while a repository operation is in progress.
pub open spec fn repo_stabilization_json() -> JsonSpec {
    JsonSpec::Obj(seq![
        ("mode"@, JsonSpec::Str("shell_stabilize_then_resume"@)),
        ("current_phase"@, JsonSpec::Str("stabilize"@)),
        ("resume_with"@, JsonSpec::Str("refresh_guidance_after_repo_stable"@)),
        ("stability_checks"@, str_array(seq!["git status"@, "git diff"@])),
        ("resume_conditions"@, str_array(seq!["operation_states_cleared"@, "conflicted_count_zero"@])),
    ])
}

/// A stabilization sequence only while some operation is in progress.
pub open spec fn repo_stabilization_spec(repo_risk: JsonSpec) -> JsonSpec {
    if repo_risk.field("operation_states"@).is_nonempty_array() {
        repo_stabilization_json()
    } else {
        JsonSpec::Null
    }
}

pub fn repo_stabilization_sequence(repo_risk: &JsonValue) -> (r: JsonValue)
    ensures
        r@ == repo_stabilization_spec(repo_risk@),
{
    let active = match repo_risk.get_array("operation_states") {
        Some(states) => states.len() > 0,
        None => false,
    };
    if !active {
        return JsonValue::Null;
    }
    let r = jobj(vec![
        ("mode", js("shell_stabilize_then_resume")),
        ("current_phase", js("stabilize")),
        ("resume_with", js("refresh_guidance_after_repo_stable")),
        ("stability_checks", jstr_pair("git status", "git diff")),
        ("resume_conditions", jstr_pair("operation_states_cleared", "conflicted_count_zero")),
    ]);
    assert(r@->Obj_0 =~= repo_stabilization_json()->Obj_0);
    r
}

/// The sequence that starts monitoring.
pub open spec fn monitor_start_json() -> JsonSpec {
    JsonSpec::Obj(seq![
        ("mode"@, JsonSpec::Str("start_monitor_then_resume"@)),
        ("current_phase"@, JsonSpec::Str("enable_monitoring"@)),
        ("resume_with"@, JsonSpec::Str("refresh_guidance_after_observation"@)),
        ("observation_steps"@, str_array(seq!["start_monitor"@, "generate_real_project_activity"@])),
        ("resume_conditions"@, str_array(seq!["monitoring_active"@, "activity_evidence_recorded"@])),
    ])
}

pub fn monitor_start_sequence() -> (r: JsonValue)
    ensures
        r@ == monitor_start_json(),
{
    let r = jobj(vec![
        ("mode", js("start_monitor_then_resume")),
        ("current_phase", js("enable_monitoring")),
        ("resume_with", js("refresh_guidance_after_observation")),
        ("observation_steps", jstr_pair("start_monitor", "generate_real_project_activity")),
        ("resume_conditions", jstr_pair("monitoring_active", "activity_evidence_recorded")),
    ]);
    assert(r@->Obj_0 =~= monitor_start_json()->Obj_0);
    r
}

/// The sequence that refreshes the snapshot.
pub open spec fn snapshot_refresh_json() -> JsonSpec {
    JsonSpec::Obj(seq![
        ("mode"@, JsonSpec::Str("refresh_snapshot_then_resume"@)),
        ("current_phase"@, JsonSpec::Str("snapshot"@)),
        ("resume_with"@, JsonSpec::Str("refresh_guidance_after_snapshot"@)),
        ("observation_steps"@, str_array(seq!["take_snapshot"@])),
        ("resume_conditions"@, str_array(seq!["snapshot_available"@, "snapshot_evidence_fresh"@])),
    ])
}

pub fn snapshot_refresh_sequence() -> (r: JsonValue)
    ensures
        r@ == snapshot_refresh_json(),
{
    let r = jobj(vec![
        ("mode", js("refresh_snapshot_then_resume")),
        ("current_phase", js("snapshot")),
        ("resume_with", js("refresh_guidance_after_snapshot")),
        ("observation_steps", jstr_one("take_snapshot")),
        ("resume_conditions", jstr_pair("snapshot_available", "snapshot_evidence_fresh")),
    ]);
    assert(r@->Obj_0 =~= snapshot_refresh_json()->Obj_0);
    r
}

/// The sequence that generates activity.
pub open spec fn activity_generation_json() -> JsonSpec {
    JsonSpec::Obj(seq![
        ("mode"@, JsonSpec::Str("generate_activity_then_resume"@)),
        ("current_phase"@, JsonSpec::Str("generate_activity"@)),
        ("resume_with"@, JsonSpec::Str("refresh_guidance_after_activity"@)),
        ("observation_steps"@, str_array(seq!["generate_real_project_activity"@, "refresh_stats"@])),
        ("resume_conditions"@, str_array(seq!["activity_evidence_recorded"@, "activity_evidence_fresh"@])),
    ])
}

pub fn activity_generation_sequence() -> (r: JsonValue)
    ensures
        r@ == activity_generation_json(),
{
    let r = jobj(vec![
        ("mode", js("generate_activity_then_resume")),
        ("current_phase", js("generate_activity")),
        ("resume_with", js("refresh_guidance_after_activity")),
        ("observation_steps", jstr_pair("generate_real_project_activity", "refresh_stats")),
        ("resume_conditions", jstr_pair("activity_evidence_recorded", "activity_evidence_fresh")),
    ]);
    assert(r@->Obj_0 =~= activity_generation_json()->Obj_0);
    r
}

/// The commands that record missing verification: the test commands, or
/// the build commands when there are no test commands.
pub open spec fn missing_verification_commands(toolchain: JsonSpec) -> Seq<Seq<char>> {
    if commands_of(toolchain, "recommended_test_commands"@).len() == 0 {
        commands_of(toolchain, "recommended_build_commands"@)
    } else {
        commands_of(toolchain, "recommended_test_commands"@)
    }
}

pub open spec fn missing_verification_json(toolchain: JsonSpec) -> JsonSpec {
    JsonSpec::Obj(seq![
        ("mode"@, JsonSpec::Str("run_project_verification_then_resume"@)),
        ("current_phase"@, JsonSpec::Str("verify"@)),
        ("resume_with"@, JsonSpec::Str("refresh_guidance_after_verification"@)),
        ("verification_commands"@, str_array(missing_verification_commands(toolchain))),
        ("resume_conditions"@, str_array(seq!["required_verification_recorded"@, "verification_evidence_fresh"@])),
    ])
}

pub fn missing_verification_sequence(project_toolchain: &JsonValue) -> (r: JsonValue)
    ensures
        r@ == missing_verification_json(project_toolchain@),
{
    let mut commands = commands_from_array(project_toolchain, "recommended_test_commands");
    if commands.len() == 0 {
        commands = commands_from_array(project_toolchain, "recommended_build_commands");
    }
    let r = jobj(vec![
        ("mode", js("run_project_verification_then_resume")),
        ("current_phase", js("verify")),
        ("resume_with", js("refresh_guidance_after_verification")),
        ("verification_commands", jstrings(commands)),
        ("resume_conditions", jstr_pair("required_verification_recorded", "verification_evidence_fresh")),
    ]);
    assert(r@->Obj_0 =~= missing_verification_json(project_toolchain@)->Obj_0);
    r
}

/// The commands that repair failing verification: the most recent failing
/// command, or the test commands when no run is failing.
pub open spec fn failing_verification_commands(runs: Seq<VerificationRun>, toolchain: JsonSpec) -> Seq<Seq<char>> {
    match latest_failing(runs) {
        Some(c) => seq![c],
        None => commands_of(toolchain, "recommended_test_commands"@),
    }
}

pub open spec fn failing_verification_json(runs: Seq<VerificationRun>, toolchain: JsonSpec) -> JsonSpec {
    JsonSpec::Obj(seq![
        ("mode"@, JsonSpec::Str("resolve_failing_verification_then_resume"@)),
        ("current_phase"@, JsonSpec::Str("repair_and_verify"@)),
        ("resume_with"@, JsonSpec::Str("refresh_guidance_after_verification"@)),
        ("verification_commands"@, str_array(failing_verification_commands(runs, toolchain))),
        ("resume_conditions"@, str_array(seq!["no_failing_verification_runs"@, "verification_evidence_fresh"@])),
    ])
}

pub fn failing_verification_sequence(verification_runs: &[VerificationRun], project_toolchain: &JsonValue) -> (r: JsonValue)
    ensures
        r@ == failing_verification_json(verification_runs@, project_toolchain@),
{
    let commands = match latest_failing_command(verification_runs) {
        Some(c) => {
            let v = vec![c];
            proof {
                assert(text_views(v@) =~= failing_verification_commands(verification_runs@, project_toolchain@));
            }
            v
        },
        None => commands_from_array(project_toolchain, "recommended_test_commands"),
    };
    let r = jobj(vec![
        ("mode", js("resolve_failing_verification_then_resume")),
        ("current_phase", js("repair_and_verify")),
        ("resume_with", js("refresh_guidance_after_verification")),
        ("verification_commands", jstrings(commands)),
        ("resume_conditions", jstr_pair("no_failing_verification_runs", "verification_evidence_fresh")),
    ]);
    assert(r@->Obj_0 =~= failing_verification_json(verification_runs@, project_toolchain@)->Obj_0);
    r
}

/// The execution sequence of a selected action; `null` for actions that
/// need none.
pub open spec fn execution_sequence_spec(
    action: Seq<char>,
    repo_risk: JsonSpec,
    runs: Seq<VerificationRun>,
    toolchain: JsonSpec,
) -> JsonSpec {
    if action == "review_failing_verification"@ {
        failing_verification_json(runs, toolchain)
    } else if action == "run_verification_before_high_risk_changes"@ {
        missing_verification_json(toolchain)
    } else if action == "stabilize_repository_state"@ {
        repo_stabilization_spec(repo_risk)
    } else if action == "start_monitor"@ {
        monitor_start_json()
    } else if action == "take_snapshot"@ {
        snapshot_refresh_json()
    } else if action == "generate_activity_then_stats"@ {
        activity_generation_json()
    } else {
        JsonSpec::Null
    }
}

pub fn execution_sequence_for_recommendation(
    selected_action: &str,
    repo_risk: &JsonValue,
    verification_runs: &[VerificationRun],
    project_toolchain: &JsonValue,
) -> (r: JsonValue)
    ensures
        r@ == execution_sequence_spec(selected_action@, repo_risk@, verification_runs@, project_toolchain@),
{
    if str_eq(selected_action, "review_failing_verification") {
        failing_verification_sequence(verification_runs, project_toolchain)
    } else if str_eq(selected_action, "run_verification_before_high_risk_changes") {
        missing_verification_sequence(project_toolchain)
    } else if str_eq(selected_action, "stabilize_repository_state") {
        repo_stabilization_sequence(repo_risk)
    } else if str_eq(selected_action, "start_monitor") {
        monitor_start_sequence()
    } else if str_eq(selected_action, "take_snapshot") {
        snapshot_refresh_sequence()
    } else if str_eq(selected_action, "generate_activity_then_stats") {
        activity_generation_sequence()
    } else {
        JsonValue::Null
    }
}

/// Whenever eligibility forces an action, that action comes with an
/// execution sequence: forced actions are never left without a next step.
pub proof fn law_forced_actions_have_sequences(
    signals: RecommendationSignals,
    repo_risk: JsonSpec,
    runs: Seq<VerificationRun>,
    toolchain: JsonSpec,
)
    requires
        forced_action_of(signals, repo_risk) is Some,
    ensures
        execution_sequence_spec(forced_action_of(signals, repo_risk)->0, repo_risk, runs, toolchain) != JsonSpec::Null,
{
    reveal_strlit("review_failing_verification");
    reveal_strlit("run_verification_before_high_risk_changes");
    reveal_strlit("stabilize_repository_state");
    assert("run_verification_before_high_risk_changes"@.len() != "review_failing_verification"@.len());
    assert("stabilize_repository_state"@.len() != "review_failing_verification"@.len());
    assert("stabilize_repository_state"@.len() != "run_verification_before_high_risk_changes"@.len());
}

} // verus!
