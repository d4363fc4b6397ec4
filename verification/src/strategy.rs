//! Workspace-level strategy: which tool leads, in which order evidence is
//! weighed, and the recommended flow of an agent session.
use vstd::prelude::*;
use vstd::string::*;
use crate::json::{JsonSpec, JsonValue, jobj, js, jstrings, str_array};
use crate::text::{cat, cat3, str_eq, text_views};

verus! {

/// The tool an agent should reach for.
#[derive(Debug, Clone, Copy, PartialEq, Eq, Structural)]
pub enum StrategyTool {
    Opendog,
    Shell,
}

impl StrategyTool {
    pub open spec fn name(self) -> Seq<char> {
        match self {
            StrategyTool::Opendog => "opendog"@,
            StrategyTool::Shell => "shell"@,
        }
    }

    pub fn as_str(self) -> (r: &'static str)
        ensures
            r@ == self.name(),
    {
        match self {
            StrategyTool::Opendog => "opendog",
            StrategyTool::Shell => "shell",
        }
    }
}

/// The global strategy mode of a workspace.
#[derive(Debug, Clone, Copy, PartialEq, Eq, Structural)]
pub enum WorkspaceStrategyMode {
    VerifyBeforeModify,
    StabilizeBeforeModify,
    CollectWorkspaceContext,
    CollectEvidenceFirst,
    VerifyBeforeHighRiskChanges,
    ActivityGuidedReview,
}

/// The mode for the given workspace signals. Failing verification comes
/// first, then a repository mid-operation, then the absence of projects,
/// then the absence of monitoring, then missing verification.
pub open spec fn mode_for(
    project_count: nat,
    monitoring_count: nat,
    has_failing_verification: bool,
    has_mid_operation_repo: bool,
    missing_verification_projects: nat,
) -> WorkspaceStrategyMode {
    if has_failing_verification {
        WorkspaceStrategyMode::VerifyBeforeModify
    } else if has_mid_operation_repo {
        WorkspaceStrategyMode::StabilizeBeforeModify
    } else if project_count == 0 {
        WorkspaceStrategyMode::CollectWorkspaceContext
    } else if monitoring_count == 0 {
        WorkspaceStrategyMode::CollectEvidenceFirst
    } else if missing_verification_projects > 0 {
        WorkspaceStrategyMode::VerifyBeforeHighRiskChanges
    } else {
        WorkspaceStrategyMode::ActivityGuidedReview
    }
}

/// Evidence comes before verification: in a workspace with projects, no
/// failing verification and no repository mid-operation, if no project is
/// monitored the mode is `collect_evidence_first`, however many projects
/// lack verification; the count of such projects matters only once some
/// project is monitored, and then any of them calls for verification before
/// high-risk changes.
pub proof fn law_evidence_before_verification(
    project_count: nat,
    monitoring_count: nat,
    missing_a: nat,
    missing_b: nat,
)
    requires
        project_count > 0,
    ensures
        monitoring_count == 0 ==> mode_for(project_count, monitoring_count, false, false, missing_a)
            == WorkspaceStrategyMode::CollectEvidenceFirst,
        monitoring_count == 0 ==> mode_for(project_count, monitoring_count, false, false, missing_a)
            == mode_for(project_count, monitoring_count, false, false, missing_b),
        monitoring_count > 0 && missing_a > 0 ==> mode_for(project_count, monitoring_count, false, false, missing_a)
            == WorkspaceStrategyMode::VerifyBeforeHighRiskChanges,
{
}

/// What overrides the rest: failing verification decides the mode whatever
/// else holds; a repository mid-operation decides it unless verification
/// fails; a workspace without projects only collects context.
pub proof fn law_strategy_overrides(
    project_count: nat,
    monitoring_count: nat,
    has_failing_verification: bool,
    has_mid_operation_repo: bool,
    missing: nat,
)
    ensures
        has_failing_verification ==> mode_for(project_count, monitoring_count, true, has_mid_operation_repo, missing)
            == WorkspaceStrategyMode::VerifyBeforeModify,
        mode_for(project_count, monitoring_count, false, true, missing) == WorkspaceStrategyMode::StabilizeBeforeModify,
        mode_for(0, monitoring_count, false, false, missing) == WorkspaceStrategyMode::CollectWorkspaceContext,
        project_count > 0 && monitoring_count > 0 ==> (mode_for(project_count, monitoring_count, false, false, missing)
            == WorkspaceStrategyMode::ActivityGuidedReview <==> missing == 0),
{
}

impl WorkspaceStrategyMode {
    pub fn from_inputs(
        project_count: usize,
        monitoring_count: usize,
        has_failing_verification: bool,
        has_mid_operation_repo: bool,
        missing_verification_projects: usize,
    ) -> (r: Self)
        ensures
            r == mode_for(
                project_count as nat,
                monitoring_count as nat,
                has_failing_verification,
                has_mid_operation_repo,
                missing_verification_projects as nat,
            ),
    {
        if has_failing_verification {
            WorkspaceStrategyMode::VerifyBeforeModify
        } else if has_mid_operation_repo {
            WorkspaceStrategyMode::StabilizeBeforeModify
        } else if project_count == 0 {
            WorkspaceStrategyMode::CollectWorkspaceContext
        } else if monitoring_count == 0 {
            WorkspaceStrategyMode::CollectEvidenceFirst
        } else if missing_verification_projects > 0 {
            WorkspaceStrategyMode::VerifyBeforeHighRiskChanges
        } else {
            WorkspaceStrategyMode::ActivityGuidedReview
        }
    }

    pub open spec fn name(self) -> Seq<char> {
        match self {
            WorkspaceStrategyMode::VerifyBeforeModify => "verify_before_modify"@,
            WorkspaceStrategyMode::StabilizeBeforeModify => "stabilize_before_modify"@,
            WorkspaceStrategyMode::CollectWorkspaceContext => "collect_workspace_context"@,
            WorkspaceStrategyMode::CollectEvidenceFirst => "collect_evidence_first"@,
            WorkspaceStrategyMode::VerifyBeforeHighRiskChanges => "verify_before_high_risk_changes"@,
            WorkspaceStrategyMode::ActivityGuidedReview => "activity_guided_review"@,
        }
    }

    pub fn as_str(self) -> (r: &'static str)
        ensures
            r@ == self.name(),
    {
        match self {
            WorkspaceStrategyMode::VerifyBeforeModify => "verify_before_modify",
            WorkspaceStrategyMode::StabilizeBeforeModify => "stabilize_before_modify",
            WorkspaceStrategyMode::CollectWorkspaceContext => "collect_workspace_context",
            WorkspaceStrategyMode::CollectEvidenceFirst => "collect_evidence_first",
            WorkspaceStrategyMode::VerifyBeforeHighRiskChanges => "verify_before_high_risk_changes",
            WorkspaceStrategyMode::ActivityGuidedReview => "activity_guided_review",
        }
    }

    /// Shell leads while verification fails or the repository is
    /// mid-operation; OPENDOG leads otherwise.
    pub open spec fn tools(self) -> (StrategyTool, StrategyTool) {
        match self {
            WorkspaceStrategyMode::VerifyBeforeModify | WorkspaceStrategyMode::StabilizeBeforeModify => (
                StrategyTool::Shell,
                StrategyTool::Opendog,
            ),
            _ => (StrategyTool::Opendog, StrategyTool::Shell),
        }
    }

    pub fn preferred_tools(self) -> (r: (StrategyTool, StrategyTool))
        ensures
            r == self.tools(),
    {
        match self {
            WorkspaceStrategyMode::VerifyBeforeModify | WorkspaceStrategyMode::StabilizeBeforeModify => (
                StrategyTool::Shell,
                StrategyTool::Opendog,
            ),
            WorkspaceStrategyMode::CollectWorkspaceContext
            | WorkspaceStrategyMode::CollectEvidenceFirst
            | WorkspaceStrategyMode::VerifyBeforeHighRiskChanges
            | WorkspaceStrategyMode::ActivityGuidedReview => (StrategyTool::Opendog, StrategyTool::Shell),
        }
    }

    pub open spec fn flow(self) -> Seq<Seq<char>> {
        match self {
            WorkspaceStrategyMode::VerifyBeforeModify => seq![
                "Inspect recorded failing verification first; do not start broad refactors while test/lint/build evidence is failing or uncertain."@,
                "Use `opendog verification --id <project>` or `get_verification_status` to inspect the latest failing verification records."@,
                "Only return to activity-based cleanup or refactor work after verification is stable again."@,
            ],
            WorkspaceStrategyMode::StabilizeBeforeModify => seq![
                "Stabilize repositories that are mid-merge, rebase, cherry-pick, or bisect before making broader code changes."@,
                "Use `git status` and `git diff` to understand the in-progress repository operation."@,
                "Once repository state is stable, resume OPENDOG-driven cleanup or hotspot review."@,
            ],
            WorkspaceStrategyMode::CollectWorkspaceContext => seq![
                "Register a project first with `register_project` or `opendog register --id <project> --path <root>`."@,
                "Start monitoring immediately after creation so opendog can build activity data."@,
                "Use shell commands such as `rg` only after you know which project root you want to inspect."@,
            ],
            WorkspaceStrategyMode::CollectEvidenceFirst => seq![
                "Use `opendog list` first to pick a project that should be monitored."@,
                "Use `opendog start --id <project>` to ensure monitoring is active; it can take an initial snapshot automatically."@,
                "After some workflow activity, use `opendog stats --id <project>` to inspect hotspots."@,
            ],
            _ => seq![
                "Use `opendog list` first to confirm which projects are already being monitored."@,
                "Use `opendog stats --id <project>` or the `get_stats` MCP tool after monitoring to inspect activity hotspots."@,
                "Use `opendog unused --id <project>` or the `get_unused_files` MCP tool to review never-accessed files before cleanup."@,
            ],
        }
    }

    pub fn recommended_flow(self) -> (r: Vec<&'static str>)
        ensures
            r@.map_values(|s: &str| s@) == self.flow(),
    {
        let r = match self {
            WorkspaceStrategyMode::VerifyBeforeModify => vec![
                "Inspect recorded failing verification first; do not start broad refactors while test/lint/build evidence is failing or uncertain.",
                "Use `opendog verification --id <project>` or `get_verification_status` to inspect the latest failing verification records.",
                "Only return to activity-based cleanup or refactor work after verification is stable again.",
            ],
            WorkspaceStrategyMode::StabilizeBeforeModify => vec![
                "Stabilize repositories that are mid-merge, rebase, cherry-pick, or bisect before making broader code changes.",
                "Use `git status` and `git diff` to understand the in-progress repository operation.",
                "Once repository state is stable, resume OPENDOG-driven cleanup or hotspot review.",
            ],
            WorkspaceStrategyMode::CollectWorkspaceContext => vec![
                "Register a project first with `register_project` or `opendog register --id <project> --path <root>`.",
                "Start monitoring immediately after creation so opendog can build activity data.",
                "Use shell commands such as `rg` only after you know which project root you want to inspect.",
            ],
            WorkspaceStrategyMode::CollectEvidenceFirst => vec![
                "Use `opendog list` first to pick a project that should be monitored.",
                "Use `opendog start --id <project>` to ensure monitoring is active; it can take an initial snapshot automatically.",
                "After some workflow activity, use `opendog stats --id <project>` to inspect hotspots.",
            ],
            WorkspaceStrategyMode::VerifyBeforeHighRiskChanges | WorkspaceStrategyMode::ActivityGuidedReview => vec![
                "Use `opendog list` first to confirm which projects are already being monitored.",
                "Use `opendog stats --id <project>` or the `get_stats` MCP tool after monitoring to inspect activity hotspots.",
                "Use `opendog unused --id <project>` or the `get_unused_files` MCP tool to review never-accessed files before cleanup.",
            ],
        };
        assert(r@.map_values(|s: &str| s@) =~= self.flow());
        r
    }
}

/// The evidence order every workspace profile reports.
pub open spec fn workspace_evidence_priority() -> Seq<Seq<char>> {
    seq!["verification"@, "repository_risk"@, "activity_signals"@]
}

/// The workspace strategy profile: a mode and what follows from it.
#[derive(Debug, Clone, PartialEq, Eq, Structural)]
pub struct WorkspaceStrategyProfile {
    pub mode: WorkspaceStrategyMode,
}

/// The JSON form of a workspace profile.
pub open spec fn workspace_profile_json(mode: WorkspaceStrategyMode) -> JsonSpec {
    JsonSpec::Obj(
        seq![
            ("global_strategy_mode"@, JsonSpec::Str(mode.name())),
            ("preferred_primary_tool"@, JsonSpec::Str(mode.tools().0.name())),
            ("preferred_secondary_tool"@, JsonSpec::Str(mode.tools().1.name())),
            ("evidence_priority"@, str_array(workspace_evidence_priority())),
            ("recommended_flow"@, str_array(mode.flow())),
        ],
    )
}

impl WorkspaceStrategyProfile {
    pub fn from_inputs(
        project_count: usize,
        monitoring_count: usize,
        has_failing_verification: bool,
        has_mid_operation_repo: bool,
        missing_verification_projects: usize,
    ) -> (r: Self)
        ensures
            r.mode == mode_for(
                project_count as nat,
                monitoring_count as nat,
                has_failing_verification,
                has_mid_operation_repo,
                missing_verification_projects as nat,
            ),
    {
        WorkspaceStrategyProfile {
            mode: WorkspaceStrategyMode::from_inputs(
                project_count,
                monitoring_count,
                has_failing_verification,
                has_mid_operation_repo,
                missing_verification_projects,
            ),
        }
    }

    pub fn mode(&self) -> (r: WorkspaceStrategyMode)
        ensures
            r == self.mode,
    {
        self.mode
    }

    pub fn primary_tool(&self) -> (r: StrategyTool)
        ensures
            r == self.mode.tools().0,
    {
        self.mode.preferred_tools().0
    }

    pub fn secondary_tool(&self) -> (r: StrategyTool)
        ensures
            r == self.mode.tools().1,
    {
        self.mode.preferred_tools().1
    }

    pub fn evidence_priority() -> (r: Vec<&'static str>)
        ensures
            r@.map_values(|s: &str| s@) == workspace_evidence_priority(),
    {
        let r = vec!["verification", "repository_risk", "activity_signals"];
        assert(r@.map_values(|s: &str| s@) =~= workspace_evidence_priority());
        r
    }

    pub fn recommended_flow_strings(&self) -> (r: Vec<String>)
        ensures
            text_views(r@) == self.mode.flow(),
    {
        let flow = self.mode.recommended_flow();
        let mut r: Vec<String> = Vec::new();
        let mut i: usize = 0;
        while i < flow.len()
            invariant
                i <= flow@.len(),
                flow@.map_values(|s: &str| s@) == self.mode.flow(),
                r@.len() == i,
                forall|j: int| 0 <= j < i ==> (#[trigger] r@[j])@ == flow@[j]@,
            decreases flow@.len() - i,
        {
            r.push(String::from_str(flow[i]));
            i = i + 1;
        }
        assert(text_views(r@) =~= flow@.map_values(|s: &str| s@));
        r
    }

    pub fn recommended_flow(&self) -> (r: Vec<String>)
        ensures
            text_views(r@) == self.mode.flow(),
    {
        self.recommended_flow_strings()
    }

    pub fn to_json(&self) -> (r: JsonValue)
        ensures
            r@ == workspace_profile_json(self.mode),
    {
        let (primary, secondary) = self.mode.preferred_tools();
        let r = jobj(
            vec![
                ("global_strategy_mode", js(self.mode.as_str())),
                ("preferred_primary_tool", js(primary.as_str())),
                ("preferred_secondary_tool", js(secondary.as_str())),
                ("evidence_priority", crate::json::jstrs(Self::evidence_priority())),
                ("recommended_flow", jstrings(self.recommended_flow_strings())),
            ],
        );
        assert(r@->Obj_0 =~= workspace_profile_json(self.mode)->Obj_0);
        r
    }
}

/// The JSON strategy profile of a recommendation.
pub open spec fn strategy_profile_json(
    mode: Seq<char>,
    primary: Seq<char>,
    secondary: Seq<char>,
    evidence_priority: Seq<Seq<char>>,
) -> JsonSpec {
    JsonSpec::Obj(
        seq![
            ("strategy_mode"@, JsonSpec::Str(mode)),
            ("preferred_primary_tool"@, JsonSpec::Str(primary)),
            ("preferred_secondary_tool"@, JsonSpec::Str(secondary)),
            ("evidence_priority"@, str_array(evidence_priority)),
        ],
    )
}

/// A strategy profile object.
pub fn strategy_profile(
    strategy_mode: &str,
    preferred_primary_tool: &str,
    preferred_secondary_tool: &str,
    evidence_priority: Vec<&str>,
) -> (r: JsonValue)
    ensures
        r@ == strategy_profile_json(
            strategy_mode@,
            preferred_primary_tool@,
            preferred_secondary_tool@,
            evidence_priority@.map_values(|s: &str| s@),
        ),
{
    let ghost ep = evidence_priority@.map_values(|s: &str| s@);
    let r = jobj(
        vec![
            ("strategy_mode", js(strategy_mode)),
            ("preferred_primary_tool", js(preferred_primary_tool)),
            ("preferred_secondary_tool", js(preferred_secondary_tool)),
            ("evidence_priority", crate::json::jstrs(evidence_priority)),
        ],
    );
    assert(r@->Obj_0 =~= strategy_profile_json(strategy_mode@, preferred_primary_tool@, preferred_secondary_tool@, ep)->Obj_0);
    r
}

/// The JSON profile of the workspace strategy for the given signals.
pub fn workspace_strategy_profile(
    project_count: usize,
    monitoring_count: usize,
    has_failing_verification: bool,
    has_mid_operation_repo: bool,
    missing_verification_projects: usize,
) -> (r: JsonValue)
    ensures
        r@ == workspace_profile_json(
            mode_for(
                project_count as nat,
                monitoring_count as nat,
                has_failing_verification,
                has_mid_operation_repo,
                missing_verification_projects as nat,
            ),
        ),
{
    WorkspaceStrategyProfile::from_inputs(
        project_count,
        monitoring_count,
        has_failing_verification,
        has_mid_operation_repo,
        missing_verification_projects,
    ).to_json()
}

/// The first step with the top repository risk appended when the
/// risk/strategy coupling says they are coupled and names a summary.
pub open spec fn with_risk_context(first_step: Seq<char>, coupling: Option<JsonSpec>) -> Seq<char> {
    match coupling {
        None => first_step,
        Some(c) => if c.field("status"@) != JsonSpec::Str("coupled"@) {
            first_step
        } else {
            match c.field("primary_repo_risk_finding"@).field("summary"@) {
                JsonSpec::Str(summary) => first_step + "; top repository risk: "@ + summary,
                _ => first_step,
            }
        },
    }
}

pub open spec fn opt_view(v: Option<&JsonValue>) -> Option<JsonSpec> {
    match v {
        Some(x) => Some(x@),
        None => None,
    }
}

/// Appends the top repository risk to a first step when risk and strategy are coupled.
pub fn apply_repo_risk_context(first_step: String, risk_strategy_coupling: Option<&JsonValue>) -> (r: String)
    ensures
        r@ == with_risk_context(first_step@, opt_view(risk_strategy_coupling)),
{
    let coupling = match risk_strategy_coupling {
        Some(c) => c,
        None => {
            return first_step;
        },
    };
    let coupled = match coupling.get_str("status") {
        Some(s) => str_eq(s, "coupled"),
        None => false,
    };
    if !coupled {
        return first_step;
    }
    let summary = match coupling.get("primary_repo_risk_finding") {
        Some(f) => f.get_str("summary"),
        None => None,
    };
    match summary {
        Some(s) => cat3(first_step.as_str(), "; top repository risk: ", s),
        None => first_step,
    }
}

/// The steps an agent should follow for a project's recommended action;
/// `None` when the workspace flow applies instead.
pub open spec fn action_steps(action: Seq<char>, pid: Seq<char>, monitoring_count: nat) -> Option<Seq<Seq<char>>> {
    if action == "review_failing_verification"@ {
        Some(seq![
            "Start with project '"@ + pid + "' because failing or uncertain verification needs to be stabilized first."@,
            "Inspect recorded verification with `opendog verification --id "@ + pid + "` or `get_verification_status`."@,
            "Use shell diff and project-native verification commands before returning to cleanup or refactor work."@,
        ])
    } else if action == "stabilize_repository_state"@ {
        Some(seq![
            "Start with project '"@ + pid + "' because repository state is mid-operation and must be stabilized first."@,
            "Use `git status` and `git diff` to understand the in-progress merge, rebase, cherry-pick, or bisect."@,
            "Resume OPENDOG-driven review only after repository state is stable again."@,
        ])
    } else if action == "start_monitor"@ {
        Some(seq![
            "Start with project '"@ + pid + "' because fresh activity evidence cannot exist until monitoring is active."@,
            "Run `opendog start --id "@ + pid + "` or `start_monitor` first."@,
            "After some workflow activity, inspect `opendog stats --id "@ + pid + "` or `get_stats`."@,
        ])
    } else if action == "take_snapshot"@ {
        Some(seq![
            "Start with project '"@ + pid + "' because no snapshot baseline exists yet."@,
            "Run `opendog snapshot --id "@ + pid + "` or `take_snapshot` first."@,
            "Only interpret unused-file or hotspot guidance after the baseline is established."@,
        ])
    } else if action == "generate_activity_then_stats"@ {
        Some(seq![
            "Start with project '"@ + pid + "' because snapshot data exists but no meaningful file activity has been recorded yet."@,
            "Drive real workflow activity with edits, tests, or builds."@,
            "Then inspect `opendog stats --id "@ + pid + "` or `get_stats` for activity-derived guidance."@,
        ])
    } else if action == "run_verification_before_high_risk_changes"@ {
        Some(seq![
            "Start with project '"@ + pid + "' because activity exists but verification evidence is still missing."@,
            "Run and record project-native test, lint, or build commands before high-risk changes."@,
            "Only return to cleanup or refactor work after verification evidence exists."@,
        ])
    } else if action == "review_unused_files"@ {
        Some(seq![
            "Start with project '"@ + pid + "' because unused-file candidates currently deserve review."@,
            "Inspect `opendog unused --id "@ + pid + "` or `get_unused_files` before proposing cleanup."@,
            "Validate candidates with shell search, imports, and tests before deletion."@,
        ])
    } else if action == "inspect_hot_files"@ {
        Some(seq![
            "Start with project '"@ + pid + "' because current evidence points to hotspot-driven review rather than cleanup."@,
            "Inspect `opendog stats --id "@ + pid + "` or `get_stats` to find the hottest files first."@,
            "Use shell diff and symbol search once OPENDOG narrows the review target."@,
        ])
    } else if monitoring_count == 0 {
        Some(seq![
            "No project is currently monitored, so start by enabling observation."@,
            "Choose a project from `opendog list` and start monitoring it."@,
            "Return to activity-based guidance after some workflow activity exists."@,
        ])
    } else {
        None
    }
}

/// The recommended flow of an agent session.
pub open spec fn agent_flow_spec(
    project_count: nat,
    monitoring_count: nat,
    top: Option<JsonSpec>,
    workspace_strategy: JsonSpec,
    coupling: Option<JsonSpec>,
) -> JsonSpec {
    let fallback = workspace_strategy.field("recommended_flow"@);
    if project_count == 0 {
        fallback
    } else {
        match top {
            None => fallback,
            Some(rec) => {
                let pid = rec.field("project_id"@).str_or("<project>"@);
                let action = rec.field("recommended_next_action"@).str_or(""@);
                match action_steps(action, pid, monitoring_count) {
                    None => fallback,
                    Some(steps) => str_array(steps.update(0, with_risk_context(steps[0], coupling))),
                }
            },
        }
    }
}

fn action_steps_exec(action: &str, pid: &str, monitoring_count: usize) -> (r: Option<Vec<String>>)
    ensures
        r is None <==> action_steps(action@, pid@, monitoring_count as nat) is None,
        r matches Some(v) ==> action_steps(action@, pid@, monitoring_count as nat) == Some(text_views(v@)),
{
    let v: Vec<String> = if str_eq(action, "review_failing_verification") {
        vec![
            cat3("Start with project '", pid, "' because failing or uncertain verification needs to be stabilized first."),
            cat3("Inspect recorded verification with `opendog verification --id ", pid, "` or `get_verification_status`."),
            String::from_str("Use shell diff and project-native verification commands before returning to cleanup or refactor work."),
        ]
    } else if str_eq(action, "stabilize_repository_state") {
        vec![
            cat3("Start with project '", pid, "' because repository state is mid-operation and must be stabilized first."),
            String::from_str("Use `git status` and `git diff` to understand the in-progress merge, rebase, cherry-pick, or bisect."),
            String::from_str("Resume OPENDOG-driven review only after repository state is stable again."),
        ]
    } else if str_eq(action, "start_monitor") {
        vec![
            cat3("Start with project '", pid, "' because fresh activity evidence cannot exist until monitoring is active."),
            cat3("Run `opendog start --id ", pid, "` or `start_monitor` first."),
            cat3("After some workflow activity, inspect `opendog stats --id ", pid, "` or `get_stats`."),
        ]
    } else if str_eq(action, "take_snapshot") {
        vec![
            cat3("Start with project '", pid, "' because no snapshot baseline exists yet."),
            cat3("Run `opendog snapshot --id ", pid, "` or `take_snapshot` first."),
            String::from_str("Only interpret unused-file or hotspot guidance after the baseline is established."),
        ]
    } else if str_eq(action, "generate_activity_then_stats") {
        vec![
            cat3("Start with project '", pid, "' because snapshot data exists but no meaningful file activity has been recorded yet."),
            String::from_str("Drive real workflow activity with edits, tests, or builds."),
            cat3("Then inspect `opendog stats --id ", pid, "` or `get_stats` for activity-derived guidance."),
        ]
    } else if str_eq(action, "run_verification_before_high_risk_changes") {
        vec![
            cat3("Start with project '", pid, "' because activity exists but verification evidence is still missing."),
            String::from_str("Run and record project-native test, lint, or build commands before high-risk changes."),
            String::from_str("Only return to cleanup or refactor work after verification evidence exists."),
        ]
    } else if str_eq(action, "review_unused_files") {
        vec![
            cat3("Start with project '", pid, "' because unused-file candidates currently deserve review."),
            cat3("Inspect `opendog unused --id ", pid, "` or `get_unused_files` before proposing cleanup."),
            String::from_str("Validate candidates with shell search, imports, and tests before deletion."),
        ]
    } else if str_eq(action, "inspect_hot_files") {
        vec![
            cat3("Start with project '", pid, "' because current evidence points to hotspot-driven review rather than cleanup."),
            cat3("Inspect `opendog stats --id ", pid, "` or `get_stats` to find the hottest files first."),
            String::from_str("Use shell diff and symbol search once OPENDOG narrows the review target."),
        ]
    } else if monitoring_count == 0 {
        vec![
            String::from_str("No project is currently monitored, so start by enabling observation."),
            String::from_str("Choose a project from `opendog list` and start monitoring it."),
            String::from_str("Return to activity-based guidance after some workflow activity exists."),
        ]
    } else {
        return None;
    };
    assert(action_steps(action@, pid@, monitoring_count as nat) == Some(text_views(v@))) by {
        assert(text_views(v@) =~= action_steps(action@, pid@, monitoring_count as nat).unwrap());
    }
    Some(v)
}

/// The recommended flow of an agent session: the top project's action
/// steps (with the top repository risk on the first step when coupled), or
/// the workspace strategy's flow.
pub fn agent_guidance_recommended_flow(
    project_count: usize,
    monitoring_count: usize,
    top_recommendation: Option<&JsonValue>,
    workspace_strategy: &JsonValue,
    risk_strategy_coupling: Option<&JsonValue>,
) -> (r: JsonValue)
    ensures
        r@ == agent_flow_spec(
            project_count as nat,
            monitoring_count as nat,
            opt_view(top_recommendation),
            workspace_strategy@,
            opt_view(risk_strategy_coupling),
        ),
{
    if project_count == 0 {
        return workspace_strategy.field("recommended_flow");
    }
    let recommendation = match top_recommendation {
        Some(r) => r,
        None => {
            return workspace_strategy.field("recommended_flow");
        },
    };
    let project_id: &str = match recommendation.get_str("project_id") {
        Some(p) => p,
        None => "<project>",
    };
    let action: &str = match recommendation.get_str("recommended_next_action") {
        Some(a) => a,
        None => "",
    };
    let mut steps = match action_steps_exec(action, project_id, monitoring_count) {
        Some(v) => v,
        None => {
            return workspace_strategy.field("recommended_flow");
        },
    };
    let ghost sv = text_views(steps@);
    assert(sv.len() == 3);
    let first = steps.remove(0);
    let first = apply_repo_risk_context(first, risk_strategy_coupling);
    steps.insert(0, first);
    assert(text_views(steps@) =~= sv.update(0, with_risk_context(sv[0], opt_view(risk_strategy_coupling))));
    jstrings(steps)
}

} // verus!
