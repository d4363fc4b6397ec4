//! Recommendations that review unused files or inspect hot files.
use vstd::prelude::*;
use vstd::string::*;
use crate::json::{JsonSpec, JsonValue, jarr, views};
use crate::strategy::{strategy_profile, strategy_profile_json};
use crate::text::{cat, text_views};
use super::types::{Recommendation, RecommendationSpec, owned_texts};

verus! {

/// A review that the activity evidence points to.
#[derive(Debug, Clone, Copy, PartialEq, Eq, Structural)]
pub enum ProjectReviewAction {
    ReviewUnusedFiles,
    InspectHotFiles,
}

/// What a review recommendation is built from.
#[derive(Debug)]
pub struct ProjectReviewContext {
    pub project_id: String,
    pub project_command: String,
    pub reason: String,
    pub confidence: String,
    pub safe_for_cleanup: bool,
    pub safe_for_refactor: bool,
    pub verification_gate_levels: JsonValue,
    pub cleanup_blockers: Vec<JsonValue>,
    pub refactor_blockers: Vec<JsonValue>,
    pub repo_truth_gaps: JsonValue,
    pub mandatory_shell_checks: JsonValue,
}

impl ProjectReviewAction {
    pub open spec fn next_action(self) -> Seq<char> {
        match self {
            ProjectReviewAction::ReviewUnusedFiles => "review_unused_files"@,
            ProjectReviewAction::InspectHotFiles => "inspect_hot_files"@,
        }
    }

    pub fn recommended_next_action(self) -> (r: &'static str)
        ensures
            r@ == self.next_action(),
    {
        match self {
            ProjectReviewAction::ReviewUnusedFiles => "review_unused_files",
            ProjectReviewAction::InspectHotFiles => "inspect_hot_files",
        }
    }

    pub open spec fn flow(self) -> Seq<Seq<char>> {
        match self {
            ProjectReviewAction::ReviewUnusedFiles => seq![
                "Inspect unused-file candidates before proposing cleanup."@,
                "Validate each candidate with shell search, imports, and tests."@,
                "Only delete or refactor after cleanup blockers are cleared."@,
            ],
            ProjectReviewAction::InspectHotFiles => seq![
                "Inspect the hottest observed files first."@,
                "Use shell diff and symbol search after OPENDOG narrows the review target."@,
                "Treat hotspot review as a precursor to targeted refactor, not broad cleanup."@,
            ],
        }
    }

    pub fn recommended_flow(self) -> (r: Vec<String>)
        ensures
            text_views(r@) == self.flow(),
    {
        let items = match self {
            ProjectReviewAction::ReviewUnusedFiles => vec![
                "Inspect unused-file candidates before proposing cleanup.",
                "Validate each candidate with shell search, imports, and tests.",
                "Only delete or refactor after cleanup blockers are cleared.",
            ],
            ProjectReviewAction::InspectHotFiles => vec![
                "Inspect the hottest observed files first.",
                "Use shell diff and symbol search after OPENDOG narrows the review target.",
                "Treat hotspot review as a precursor to targeted refactor, not broad cleanup.",
            ],
        };
        assert(items@.map_values(|s: &str| s@) =~= self.flow());
        owned_texts(items)
    }

    /// A review that is safe to act on goes straight to modification;
    /// otherwise verification comes first.
    pub open spec fn mode(self, safe_for_cleanup: bool, safe_for_refactor: bool) -> Seq<char> {
        match self {
            ProjectReviewAction::ReviewUnusedFiles => if safe_for_cleanup {
                "review_then_modify"@
            } else {
                "verify_before_modify"@
            },
            ProjectReviewAction::InspectHotFiles => if safe_for_refactor {
                "inspect_then_modify"@
            } else {
                "verify_before_modify"@
            },
        }
    }

    pub fn strategy_mode(self, context: &ProjectReviewContext) -> (r: &'static str)
        ensures
            r@ == self.mode(context.safe_for_cleanup, context.safe_for_refactor),
    {
        match self {
            ProjectReviewAction::ReviewUnusedFiles => if context.safe_for_cleanup {
                "review_then_modify"
            } else {
                "verify_before_modify"
            },
            ProjectReviewAction::InspectHotFiles => if context.safe_for_refactor {
                "inspect_then_modify"
            } else {
                "verify_before_modify"
            },
        }
    }

    /// Shell leads only a hot-file inspection that is not safe to refactor.
    pub open spec fn tools(self, safe_for_refactor: bool) -> (Seq<char>, Seq<char>) {
        match self {
            ProjectReviewAction::InspectHotFiles if !safe_for_refactor => ("shell"@, "opendog"@),
            _ => ("opendog"@, "shell"@),
        }
    }

    pub fn profile_tools(self, context: &ProjectReviewContext) -> (r: (&'static str, &'static str))
        ensures
            (r.0@, r.1@) == self.tools(context.safe_for_refactor),
    {
        match self {
            ProjectReviewAction::ReviewUnusedFiles => ("opendog", "shell"),
            ProjectReviewAction::InspectHotFiles => if context.safe_for_refactor {
                ("opendog", "shell")
            } else {
                ("shell", "opendog")
            },
        }
    }

    pub open spec fn commands(self, project_id: Seq<char>, project_command: Seq<char>) -> Seq<Seq<char>> {
        match self {
            ProjectReviewAction::ReviewUnusedFiles => seq![
                "opendog unused --id "@ + project_id,
                "rg \"<pattern>\" ."@,
                project_command,
            ],
            ProjectReviewAction::InspectHotFiles => seq![
                "opendog stats --id "@ + project_id,
                "git diff"@,
                "rg \"<pattern>\" ."@,
            ],
        }
    }

    pub fn suggested_commands(self, context: &ProjectReviewContext) -> (r: Vec<String>)
        ensures
            text_views(r@) == self.commands(context.project_id@, context.project_command@),
    {
        let pid = context.project_id.as_str();
        let r = match self {
            ProjectReviewAction::ReviewUnusedFiles => vec![
                cat("opendog unused --id ", pid),
                String::from_str("rg \"<pattern>\" ."),
                context.project_command.clone(),
            ],
            ProjectReviewAction::InspectHotFiles => vec![
                cat("opendog stats --id ", pid),
                String::from_str("git diff"),
                String::from_str("rg \"<pattern>\" ."),
            ],
        };
        assert(text_views(r@) =~= self.commands(context.project_id@, context.project_command@));
        r
    }
}

/// The evidence order of every review recommendation.
pub open spec fn review_priorities() -> Seq<Seq<char>> {
    seq!["activity_signals"@, "verification"@, "repository_risk"@]
}

/// A review recommendation: an action with the context it is built from.
#[derive(Debug)]
pub struct ProjectReviewRecommendation {
    pub action: ProjectReviewAction,
    pub context: ProjectReviewContext,
}

/// The recommendation record of a review action, from the views of what
/// its context holds.
pub open spec fn review_recommendation_view(
    action: ProjectReviewAction,
    project_id: Seq<char>,
    project_command: Seq<char>,
    reason: Seq<char>,
    confidence: Seq<char>,
    safe_for_cleanup: bool,
    safe_for_refactor: bool,
    gate_levels: JsonSpec,
    cleanup_blockers: Seq<JsonSpec>,
    refactor_blockers: Seq<JsonSpec>,
    repo_truth_gaps: JsonSpec,
    mandatory_shell_checks: JsonSpec,
) -> RecommendationSpec {
    let mode = action.mode(safe_for_cleanup, safe_for_refactor);
    let tools = action.tools(safe_for_refactor);
    RecommendationSpec {
        project_id: project_id,
        recommended_next_action: action.next_action(),
        recommended_flow: action.flow(),
        reason: reason,
        confidence: confidence,
        strategy_mode: mode,
        strategy_profile: strategy_profile_json(mode, tools.0, tools.1, review_priorities()),
        verification_gate_levels: gate_levels,
        cleanup_blockers: Some(JsonSpec::Arr(cleanup_blockers)),
        refactor_blockers: Some(JsonSpec::Arr(refactor_blockers)),
        repo_truth_gaps: repo_truth_gaps,
        mandatory_shell_checks: mandatory_shell_checks,
        suggested_commands: action.commands(project_id, project_command),
    }
}

/// The recommendation record of a review action.
pub open spec fn review_recommendation_spec(
    action: ProjectReviewAction,
    c: ProjectReviewContext,
) -> RecommendationSpec {
    review_recommendation_view(
        action,
        c.project_id@,
        c.project_command@,
        c.reason@,
        c.confidence@,
        c.safe_for_cleanup,
        c.safe_for_refactor,
        c.verification_gate_levels@,
        views(c.cleanup_blockers@),
        views(c.refactor_blockers@),
        c.repo_truth_gaps@,
        c.mandatory_shell_checks@,
    )
}

impl ProjectReviewRecommendation {
    pub fn new(action: ProjectReviewAction, context: ProjectReviewContext) -> (r: Self)
        ensures
            r.action == action,
            r.context == context,
    {
        ProjectReviewRecommendation { action, context }
    }

    pub fn into_recommendation(self) -> (r: Recommendation)
        ensures
            r@ == review_recommendation_spec(self.action, self.context),
    {
        let ProjectReviewRecommendation { action, context } = self;
        let mode = action.strategy_mode(&context);
        let (primary_tool, secondary_tool) = action.profile_tools(&context);
        let suggested_commands = action.suggested_commands(&context);
        let priorities = vec!["activity_signals", "verification", "repository_risk"];
        assert(priorities@.map_values(|s: &str| s@) =~= review_priorities());
        let profile = strategy_profile(mode, primary_tool, secondary_tool, priorities);
        Recommendation {
            project_id: context.project_id,
            recommended_next_action: String::from_str(action.recommended_next_action()),
            recommended_flow: action.recommended_flow(),
            reason: context.reason,
            confidence: context.confidence,
            strategy_mode: String::from_str(mode),
            strategy_profile: profile,
            verification_gate_levels: context.verification_gate_levels,
            cleanup_blockers: Some(jarr(context.cleanup_blockers)),
            refactor_blockers: Some(jarr(context.refactor_blockers)),
            repo_truth_gaps: context.repo_truth_gaps,
            mandatory_shell_checks: context.mandatory_shell_checks,
            suggested_commands,
        }
    }
}

} // verus!
