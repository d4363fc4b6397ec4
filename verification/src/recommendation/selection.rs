//! The choice of the one next action for a project, and the payload that
//! carries it.
use vstd::prelude::*;
use vstd::string::*;
use crate::json::{JsonSpec, JsonValue, js, jobj, views};
use super::eligibility::{
    EligibilityResult, GateLevel, RecommendationSignals, cleanup_allowed, determine_action_eligibility,
    forced_action_of, gate_level_of, hotspot_allowed,
};
use super::evidence::{
    EvidenceCollectionAction, EvidenceCollectionContext, EvidenceCollectionRecommendation,
    evidence_recommendation_spec, evidence_recommendation_view,
};
use super::forced::{
    ForcedProjectRecommendation, ForcedRecommendationAction, ForcedRecommendationContext,
    forced_action_named, forced_recommendation_spec, forced_recommendation_view,
};
use super::reasoning::{build_reason, confidence_spec, derive_confidence, reason_spec};
use super::review::{
    ProjectReviewAction, ProjectReviewContext, ProjectReviewRecommendation,
    review_recommendation_spec, review_recommendation_view,
};
use super::review_focus::{review_focus_for_action, review_focus_json};
use super::scoring::{ActionScore, bool_field_or, score_review_actions, score_views, scores_spec, str_field_or};
use super::sequencing::{VerificationRun, execution_sequence_for_recommendation, execution_sequence_spec};
use super::types::{Recommendation, RecommendationSpec, recommendation_json};

verus! {

/// The review action the scores favour: the first scored action, or
/// `inspect_hot_files` when nothing was scored.
pub open spec fn best_review_action(scores: Seq<ActionScore>) -> Seq<char> {
    if scores.len() > 0 {
        scores[0].action@
    } else {
        "inspect_hot_files"@
    }
}

/// The recommendation chosen for a project, in order of precedence:
/// - a forced action that must come before anything else (`immediate`);
/// - start monitoring when the project is not monitored;
/// - take a snapshot when there is none or it is stale;
/// - generate activity when none was observed or it is stale;
/// - a forced action that eligibility names (`forced_action`);
/// - review unused files when the scores favour it, else inspect hot files.
pub open spec fn selected_recommendation_spec(
    immediate: Option<ForcedRecommendationAction>,
    monitoring_active: bool,
    snapshot_needed: bool,
    activity_needed: bool,
    forced_action: Option<Seq<char>>,
    scores: Seq<ActionScore>,
    forced: ForcedRecommendationContext,
    evidence: EvidenceCollectionContext,
    review: ProjectReviewContext,
) -> RecommendationSpec {
    match immediate {
        Some(a) => forced_recommendation_spec(a, forced),
        None => if !monitoring_active {
            evidence_recommendation_spec(EvidenceCollectionAction::StartMonitor, evidence)
        } else if snapshot_needed {
            evidence_recommendation_spec(EvidenceCollectionAction::TakeSnapshot, evidence)
        } else if activity_needed {
            evidence_recommendation_spec(EvidenceCollectionAction::GenerateActivityThenStats, evidence)
        } else if forced_action matches Some(name) && forced_action_named(name) is Some {
            forced_recommendation_spec(forced_action_named(forced_action->0)->0, forced)
        } else if best_review_action(scores) == "review_unused_files"@ {
            review_recommendation_spec(ProjectReviewAction::ReviewUnusedFiles, review)
        } else {
            review_recommendation_spec(ProjectReviewAction::InspectHotFiles, review)
        },
    }
}

/// Chooses the next action for a project and builds its recommendation.
/// `immediate` is the forced action, if any, that takes precedence even
/// over missing evidence; `snapshot_needed` holds when no file was recorded
/// or the snapshot is stale, `activity_needed` when no access was observed
/// or the activity is stale; `forced_action` is what eligibility forces and
/// `scores` are the review scores, highest first.
pub fn select_project_recommendation(
    immediate: Option<ForcedRecommendationAction>,
    monitoring_active: bool,
    snapshot_needed: bool,
    activity_needed: bool,
    forced_action: Option<&str>,
    scores: &Vec<ActionScore>,
    forced: ForcedRecommendationContext,
    evidence: EvidenceCollectionContext,
    review: ProjectReviewContext,
) -> (r: Recommendation)
    ensures
        r@ == selected_recommendation_spec(
            immediate,
            monitoring_active,
            snapshot_needed,
            activity_needed,
            match forced_action {
                Some(a) => Some(a@),
                None => None,
            },
            scores@,
            forced,
            evidence,
            review,
        ),
{
    proof {
        reveal_strlit("inspect_hot_files");
        reveal_strlit("review_unused_files");
    }
    if let Some(action) = immediate {
        return ForcedProjectRecommendation { action, context: forced }.into_recommendation();
    }
    if !monitoring_active {
        return EvidenceCollectionRecommendation::new(EvidenceCollectionAction::StartMonitor, evidence)
            .into_recommendation();
    }
    if snapshot_needed {
        return EvidenceCollectionRecommendation::new(EvidenceCollectionAction::TakeSnapshot, evidence)
            .into_recommendation();
    }
    if activity_needed {
        return EvidenceCollectionRecommendation::new(
            EvidenceCollectionAction::GenerateActivityThenStats,
            evidence,
        ).into_recommendation();
    }
    if let Some(name) = forced_action {
        if let Some(f) = ForcedProjectRecommendation::from_action(name, forced) {
            return f.into_recommendation();
        }
        return review_choice(scores, review);
    }
    review_choice(scores, review)
}

/// The review recommendation that the scores favour.
fn review_choice(scores: &Vec<ActionScore>, review: ProjectReviewContext) -> (r: Recommendation)
    ensures
        r@ == (if best_review_action(scores@) == "review_unused_files"@ {
            review_recommendation_spec(ProjectReviewAction::ReviewUnusedFiles, review)
        } else {
            review_recommendation_spec(ProjectReviewAction::InspectHotFiles, review)
        }),
{
    proof {
        reveal_strlit("inspect_hot_files");
        reveal_strlit("review_unused_files");
    }
    let best: &str = if scores.len() > 0 {
        scores[0].action
    } else {
        "inspect_hot_files"
    };
    if crate::text::str_eq(best, "review_unused_files") {
        ProjectReviewRecommendation::new(ProjectReviewAction::ReviewUnusedFiles, review).into_recommendation()
    } else {
        ProjectReviewRecommendation::new(ProjectReviewAction::InspectHotFiles, review).into_recommendation()
    }
}

/// The payload of a recommendation: its JSON form with the execution
/// sequence and the review focus of the action it recommends.
pub open spec fn recommendation_payload_spec(
    rec: JsonSpec,
    repo_risk: JsonSpec,
    runs: Seq<VerificationRun>,
    toolchain: JsonSpec,
) -> JsonSpec {
    let action = rec.field("recommended_next_action"@).str_or(""@);
    rec.put("execution_sequence"@, execution_sequence_spec(action, repo_risk, runs, toolchain)).put(
        "review_focus"@,
        review_focus_json(action, repo_risk),
    )
}

/// Adds to the JSON form of a recommendation (`rec`, an object) the
/// execution sequence and the review focus of the action it recommends.
pub fn recommendation_payload(
    rec: JsonValue,
    repo_risk: &JsonValue,
    runs: &[VerificationRun],
    toolchain: &JsonValue,
) -> (r: JsonValue)
    requires
        rec@ is Obj || rec@ is Null,
    ensures
        r@ == recommendation_payload_spec(rec@, repo_risk@, runs@, toolchain@),
{
    let mut payload = rec;
    let action = String::from_str(str_field_or(&payload, "recommended_next_action", ""));
    let sequence = execution_sequence_for_recommendation(action.as_str(), repo_risk, runs, toolchain);
    payload.put("execution_sequence", sequence);
    let focus = review_focus_for_action(action.as_str(), repo_risk);
    payload.put("review_focus", focus);
    payload
}

/// What is known of a project when its next action is chosen.
#[derive(Debug)]
pub struct ProjectFacts {
    pub project_id: String,
    /// The project is being monitored.
    pub monitoring_active: bool,
    /// Files recorded by the snapshot.
    pub total_files: i64,
    /// Files observed as accessed.
    pub accessed_files: i64,
    /// Files never observed as accessed.
    pub unused_files: i64,
    pub snapshot_stale: bool,
    pub activity_stale: bool,
    pub verification_missing: bool,
    pub verification_stale: bool,
    pub verification_failing: bool,
}

/// `readiness[key]` as a list, empty when it is not an array.
pub open spec fn readiness_list(readiness: JsonSpec, key: Seq<char>) -> Seq<JsonSpec> {
    match readiness.field(key) {
        JsonSpec::Arr(items) => items,
        _ => seq![],
    }
}

/// The level that `readiness[key]` gives a gate, `blocked` when absent.
pub open spec fn readiness_gate(readiness: JsonSpec, key: Seq<char>) -> Seq<char> {
    readiness.field(key).str_or("blocked"@)
}

/// The cleanup and refactor gate levels of the readiness.
pub open spec fn gate_levels_json(readiness: JsonSpec) -> JsonSpec {
    JsonSpec::Obj(seq![
        ("cleanup"@, JsonSpec::Str(readiness_gate(readiness, "cleanup_gate_level"@))),
        ("refactor"@, JsonSpec::Str(readiness_gate(readiness, "refactor_gate_level"@))),
    ])
}

/// Recommendation signals from what is known of a project and from its
/// readiness.
pub open spec fn project_signals(f: ProjectFacts, readiness: JsonSpec) -> RecommendationSignals {
    RecommendationSignals {
        cleanup_gate_level: gate_level_of(readiness_gate(readiness, "cleanup_gate_level"@)),
        refactor_gate_level: gate_level_of(readiness_gate(readiness, "refactor_gate_level"@)),
        monitoring_active: f.monitoring_active,
        snapshot_available: f.total_files > 0,
        activity_available: f.accessed_files > 0,
        snapshot_stale: f.snapshot_stale,
        activity_stale: f.activity_stale,
        verification_missing: f.verification_missing,
        verification_stale: f.verification_stale,
        verification_failing: f.verification_failing,
        unused_files: f.unused_files,
    }
}

/// The review scores of the signals, highest first.
pub open spec fn project_scores(s: RecommendationSignals, repo_risk: JsonSpec) -> Seq<(Seq<char>, int)> {
    let forced = forced_action_of(s, repo_risk);
    scores_spec(
        s,
        repo_risk,
        EligibilityResult {
            forced_action: None,
            cleanup_review_allowed: forced is None && cleanup_allowed(s),
            hotspot_review_allowed: forced is None && hotspot_allowed(s),
        },
    )
}

/// The reason of the review that the scores favour.
pub open spec fn project_reason(scores: Seq<(Seq<char>, int)>, s: RecommendationSignals, repo_risk: JsonSpec) -> Seq<char> {
    if scores.len() > 0 {
        reason_spec(
            scores[0].0,
            if scores.len() > 1 {
                Some(scores[1].0)
            } else {
                None
            },
            s,
            repo_risk,
        )
    } else {
        "Current evidence does not yet support a stronger review recommendation."@
    }
}

/// The confidence of the review that the scores favour.
pub open spec fn project_confidence(scores: Seq<(Seq<char>, int)>, s: RecommendationSignals, repo_risk: JsonSpec) -> Seq<char> {
    if scores.len() > 0 {
        confidence_spec(scores[0].1, s, repo_risk)
    } else {
        "medium"@
    }
}

/// The forced action that eligibility names for the signals, if any.
pub open spec fn project_forced(s: RecommendationSignals, repo_risk: JsonSpec) -> Option<ForcedRecommendationAction> {
    match forced_action_of(s, repo_risk) {
        Some(name) => forced_action_named(name),
        None => None,
    }
}

/// The recommendation of a project, with the same precedence as
/// `selected_recommendation_spec`: the forced action when it is one of the
/// immediate actions, then missing evidence, then the forced action, then
/// the favoured review.
pub open spec fn project_recommendation_view(
    f: ProjectFacts,
    repo_risk: JsonSpec,
    readiness: JsonSpec,
    command: Seq<char>,
    gaps: JsonSpec,
    checks: JsonSpec,
    immediate: Seq<ForcedRecommendationAction>,
) -> RecommendationSpec {
    let s = project_signals(f, readiness);
    let id = f.project_id@;
    let gates = gate_levels_json(readiness);
    let cb = readiness_list(readiness, "cleanup_blockers"@);
    let rb = readiness_list(readiness, "refactor_blockers"@);
    let forced = project_forced(s, repo_risk);
    let scores = project_scores(s, repo_risk);
    let best = if scores.len() > 0 {
        scores[0].0
    } else {
        "inspect_hot_files"@
    };
    let evidence = |a: EvidenceCollectionAction|
        evidence_recommendation_view(a, id, command, f.total_files == 0, f.accessed_files == 0, gates, gaps, checks);
    let review = |a: ProjectReviewAction|
        review_recommendation_view(
            a,
            id,
            command,
            project_reason(scores, s, repo_risk),
            project_confidence(scores, s, repo_risk),
            readiness.field("safe_for_cleanup"@).bool_or(false),
            readiness.field("safe_for_refactor"@).bool_or(false),
            gates,
            cb,
            rb,
            gaps,
            checks,
        );
    if forced is Some && immediate.contains(forced->0) {
        forced_recommendation_view(forced->0, id, command, gates, cb, rb, gaps, checks)
    } else if !f.monitoring_active {
        evidence(EvidenceCollectionAction::StartMonitor)
    } else if f.total_files == 0 || f.snapshot_stale {
        evidence(EvidenceCollectionAction::TakeSnapshot)
    } else if f.accessed_files == 0 || f.activity_stale {
        evidence(EvidenceCollectionAction::GenerateActivityThenStats)
    } else if forced is Some {
        forced_recommendation_view(forced->0, id, command, gates, cb, rb, gaps, checks)
    } else if best == "review_unused_files"@ {
        review(ProjectReviewAction::ReviewUnusedFiles)
    } else {
        review(ProjectReviewAction::InspectHotFiles)
    }
}

/// Evidence is refreshed before anything is reviewed: for a monitored
/// project whose forced action, if any, is not an immediate one, a missing
/// or stale snapshot makes the next action `take_snapshot`, and never a
/// review, whatever the scores, the readiness or the repository risk.
pub proof fn law_stale_snapshot_is_refreshed_first(
    f: ProjectFacts,
    repo_risk: JsonSpec,
    readiness: JsonSpec,
    command: Seq<char>,
    gaps: JsonSpec,
    checks: JsonSpec,
    immediate: Seq<ForcedRecommendationAction>,
)
    requires
        f.monitoring_active,
        f.total_files == 0 || f.snapshot_stale,
        forall|a: ForcedRecommendationAction|
            #![trigger immediate.contains(a)]
            forced_action_of(project_signals(f, readiness), repo_risk) matches Some(name)
                && forced_action_named(name) == Some(a) ==> !immediate.contains(a),
    ensures
        project_recommendation_view(f, repo_risk, readiness, command, gaps, checks, immediate).recommended_next_action
            == "take_snapshot"@,
        project_recommendation_view(f, repo_risk, readiness, command, gaps, checks, immediate).recommended_next_action
            != "review_unused_files"@,
        project_recommendation_view(f, repo_risk, readiness, command, gaps, checks, immediate).recommended_next_action
            != "inspect_hot_files"@,
{
    reveal_strlit("take_snapshot");
    reveal_strlit("review_unused_files");
    reveal_strlit("inspect_hot_files");
    assert("take_snapshot"@.len() != "review_unused_files"@.len());
    assert("take_snapshot"@.len() != "inspect_hot_files"@.len());
    let s = project_signals(f, readiness);
    let forced = project_forced(s, repo_risk);
    if forced is Some {
        assert(!immediate.contains(forced->0));
    }
}

/// The forced action that eligibility names for a project is not one of
/// the immediate actions.
pub open spec fn no_immediate_action(
    f: ProjectFacts,
    repo_risk: JsonSpec,
    readiness: JsonSpec,
    immediate: Seq<ForcedRecommendationAction>,
) -> bool {
    forall|a: ForcedRecommendationAction|
        #![trigger immediate.contains(a)]
        forced_action_of(project_signals(f, readiness), repo_risk) matches Some(name)
            && forced_action_named(name) == Some(a) ==> !immediate.contains(a)
}

/// The order in which a project's next action is decided, when no forced
/// action is an immediate one: an unmonitored project starts monitoring; a
/// monitored project with a usable snapshot but no fresh activity generates
/// activity; with fresh evidence, failing verification and a repository
/// mid-operation are dealt with first; and unused files are reviewed only
/// when verification is neither failing, missing nor stale, the snapshot
/// is fresh, some file is unused and the cleanup gate is not blocked.
pub proof fn law_recommendation_precedence(
    f: ProjectFacts,
    repo_risk: JsonSpec,
    readiness: JsonSpec,
    command: Seq<char>,
    gaps: JsonSpec,
    checks: JsonSpec,
    immediate: Seq<ForcedRecommendationAction>,
)
    requires
        no_immediate_action(f, repo_risk, readiness, immediate),
    ensures ({
        let next = project_recommendation_view(f, repo_risk, readiness, command, gaps, checks, immediate)
            .recommended_next_action;
        let evidence_ready = f.monitoring_active && f.total_files != 0 && !f.snapshot_stale
            && f.accessed_files != 0 && !f.activity_stale;
        &&& !f.monitoring_active ==> next == "start_monitor"@
        &&& (f.monitoring_active && f.total_files != 0 && !f.snapshot_stale
            && (f.accessed_files == 0 || f.activity_stale)) ==> next == "generate_activity_then_stats"@
        &&& (evidence_ready && f.verification_failing) ==> next == "review_failing_verification"@
        &&& (evidence_ready && !f.verification_failing && !f.verification_missing && !f.verification_stale
            && repo_risk.field("operation_states"@).is_nonempty_array()) ==> next == "stabilize_repository_state"@
        &&& next == "review_unused_files"@ ==> {
            &&& evidence_ready
            &&& !f.verification_failing && !f.verification_missing && !f.verification_stale
            &&& f.unused_files > 0
            &&& (readiness_gate(readiness, "cleanup_gate_level"@) == "allow"@
                || readiness_gate(readiness, "cleanup_gate_level"@) == "caution"@)
        }
    }),
{
    reveal_strlit("start_monitor");
    reveal_strlit("take_snapshot");
    reveal_strlit("generate_activity_then_stats");
    reveal_strlit("review_failing_verification");
    reveal_strlit("stabilize_repository_state");
    reveal_strlit("review_unused_files");
    reveal_strlit("inspect_hot_files");
    reveal_strlit("run_verification_before_high_risk_changes");
    reveal_strlit("allow");
    reveal_strlit("caution");
    assert("start_monitor"@[0] != "take_snapshot"@[0]);
    assert("start_monitor"@.len() == 13 && "generate_activity_then_stats"@.len() == 28);
    assert("review_failing_verification"@.len() == 27 && "stabilize_repository_state"@.len() == 26);
    assert("review_unused_files"@.len() == 19 && "inspect_hot_files"@.len() == 17);
    assert("run_verification_before_high_risk_changes"@.len() == 41);
    let s = project_signals(f, readiness);
    let forced = project_forced(s, repo_risk);
    if forced is Some {
        assert(!immediate.contains(forced->0));
    }
}

/// `readiness[key]` as a list of values.
fn readiness_items(readiness: &JsonValue, key: &str) -> (r: Vec<JsonValue>)
    ensures
        views(r@) == readiness_list(readiness@, key@),
{
    match readiness.get_array(key) {
        Some(items) => {
            let mut r: Vec<JsonValue> = Vec::new();
            let mut i: usize = 0;
            while i < items.len()
                invariant
                    i <= items@.len(),
                    r@.len() == i,
                    forall|j: int| 0 <= j < i ==> (#[trigger] r@[j])@ == items@[j]@,
                decreases items@.len() - i,
            {
                r.push(items[i].dup());
                i = i + 1;
            }
            assert(views(r@) =~= views(items@));
            r
        },
        None => {
            let r: Vec<JsonValue> = Vec::new();
            assert(views(r@) =~= seq![]);
            r
        },
    }
}

/// `action` is one of `actions`.
fn contains_action(actions: &Vec<ForcedRecommendationAction>, action: ForcedRecommendationAction) -> (r: bool)
    ensures
        r == actions@.contains(action),
{
    let mut i: usize = 0;
    while i < actions.len()
        invariant
            i <= actions@.len(),
            forall|j: int| 0 <= j < i ==> actions@[j] != action,
        decreases actions@.len() - i,
    {
        if actions[i] == action {
            return true;
        }
        i = i + 1;
    }
    false
}

/// The recommendation payload of a project: its next action chosen from
/// its facts, repository risk, verification runs and readiness, built into
/// its JSON form with execution sequence and review focus.
/// `project_command` is the project's main command, `repo_truth_gaps` and
/// `mandatory_shell_checks` what the repository state leaves to the shell,
/// and `immediate_actions` the forced actions that come before even
/// missing evidence.
pub fn recommend_project_action(
    facts: &ProjectFacts,
    repo_risk: &JsonValue,
    runs: &[VerificationRun],
    readiness: &JsonValue,
    toolchain: &JsonValue,
    project_command: &str,
    repo_truth_gaps: &JsonValue,
    mandatory_shell_checks: &JsonValue,
    immediate_actions: &Vec<ForcedRecommendationAction>,
) -> (r: JsonValue)
    ensures
        r@ == recommendation_payload_spec(
            recommendation_json(project_recommendation_view(
                *facts,
                repo_risk@,
                readiness@,
                project_command@,
                repo_truth_gaps@,
                mandatory_shell_checks@,
                immediate_actions@,
            )),
            repo_risk@,
            runs@,
            toolchain@,
        ),
{
    let cleanup_blockers = readiness_items(readiness, "cleanup_blockers");
    let refactor_blockers = readiness_items(readiness, "refactor_blockers");
    let cleanup_blockers_again = readiness_items(readiness, "cleanup_blockers");
    let refactor_blockers_again = readiness_items(readiness, "refactor_blockers");
    let safe_for_cleanup = bool_field_or(readiness, "safe_for_cleanup", false);
    let safe_for_refactor = bool_field_or(readiness, "safe_for_refactor", false);
    let cleanup_gate = str_field_or(readiness, "cleanup_gate_level", "blocked");
    let refactor_gate = str_field_or(readiness, "refactor_gate_level", "blocked");
    let signals = RecommendationSignals {
        cleanup_gate_level: GateLevel::from_str(cleanup_gate),
        refactor_gate_level: GateLevel::from_str(refactor_gate),
        monitoring_active: facts.monitoring_active,
        snapshot_available: facts.total_files > 0,
        activity_available: facts.accessed_files > 0,
        snapshot_stale: facts.snapshot_stale,
        activity_stale: facts.activity_stale,
        verification_missing: facts.verification_missing,
        verification_stale: facts.verification_stale,
        verification_failing: facts.verification_failing,
        unused_files: facts.unused_files,
    };
    assert(signals == project_signals(*facts, readiness@));
    let eligibility = determine_action_eligibility(&signals, repo_risk);
    let scores = score_review_actions(&signals, repo_risk, &eligibility);
    assert(score_views(scores@) == project_scores(signals, repo_risk@));
    let reason = if scores.len() > 0 {
        let runner_up = if scores.len() > 1 {
            Some(&scores[1])
        } else {
            None
        };
        build_reason(&scores[0], runner_up, &signals, repo_risk)
    } else {
        String::from_str("Current evidence does not yet support a stronger review recommendation.")
    };
    let confidence = if scores.len() > 0 {
        derive_confidence(&scores[0], &signals, repo_risk)
    } else {
        "medium"
    };
    proof {
        let sv = score_views(scores@);
        if scores@.len() > 0 {
            assert(sv[0] == (scores@[0].action@, scores@[0].total as int));
        }
        if scores@.len() > 1 {
            assert(sv[1] == (scores@[1].action@, scores@[1].total as int));
        }
    }
    let immediate = match eligibility.forced_action {
        Some(name) => match ForcedRecommendationAction::from_name(name) {
            Some(action) => if contains_action(immediate_actions, action) {
                Some(action)
            } else {
                None
            },
            None => None,
        },
        None => None,
    };
    let gate_levels = jobj(vec![("cleanup", js(cleanup_gate)), ("refactor", js(refactor_gate))]);
    assert(gate_levels@->Obj_0 =~= gate_levels_json(readiness@)->Obj_0);
    let forced = ForcedRecommendationContext::new(
        facts.project_id.clone(),
        String::from_str(project_command),
        gate_levels.dup(),
        cleanup_blockers,
        refactor_blockers,
        repo_truth_gaps.dup(),
        mandatory_shell_checks.dup(),
    );
    let evidence = EvidenceCollectionContext {
        project_id: facts.project_id.clone(),
        project_command: String::from_str(project_command),
        snapshot_missing: facts.total_files == 0,
        activity_missing: facts.accessed_files == 0,
        verification_gate_levels: gate_levels.dup(),
        repo_truth_gaps: repo_truth_gaps.dup(),
        mandatory_shell_checks: mandatory_shell_checks.dup(),
    };
    let review = ProjectReviewContext {
        project_id: facts.project_id.clone(),
        project_command: String::from_str(project_command),
        reason,
        confidence: String::from_str(confidence),
        safe_for_cleanup,
        safe_for_refactor,
        verification_gate_levels: gate_levels,
        cleanup_blockers: cleanup_blockers_again,
        refactor_blockers: refactor_blockers_again,
        repo_truth_gaps: repo_truth_gaps.dup(),
        mandatory_shell_checks: mandatory_shell_checks.dup(),
    };
    let recommendation = select_project_recommendation(
        immediate,
        facts.monitoring_active,
        facts.total_files == 0 || facts.snapshot_stale,
        facts.accessed_files == 0 || facts.activity_stale,
        eligibility.forced_action,
        &scores,
        forced,
        evidence,
        review,
    );
    assert(recommendation@ == project_recommendation_view(
        *facts,
        repo_risk@,
        readiness@,
        project_command@,
        repo_truth_gaps@,
        mandatory_shell_checks@,
        immediate_actions@,
    ));
    recommendation_payload(recommendation.to_json(), repo_risk, runs, toolchain)
}

} // verus!
