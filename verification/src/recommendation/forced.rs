//! Recommendations that override every other signal: failing verification
//! and a repository caught mid-operation.
use vstd::prelude::*;
use vstd::string::*;
use crate::json::{JsonSpec, JsonValue, jarr, views};
use crate::strategy::{strategy_profile, strategy_profile_json};
use crate::text::text_views;
use super::types::{Recommendation, RecommendationSpec, owned_texts};

verus! {

/// An action that is forced before any cleanup or refactor review.
#[derive(Debug, Clone, Copy, PartialEq, Eq, Structural)]
pub enum ForcedRecommendationAction {
    ReviewFailingVerification,
    StabilizeRepositoryState,
}

/// The forced action that an action name stands for, if any.
pub open spec fn forced_action_named(name: Seq<char>) -> Option<ForcedRecommendationAction> {
    if name == "review_failing_verification"@ {
        Some(ForcedRecommendationAction::ReviewFailingVerification)
    } else if name == "stabilize_repository_state"@ {
        Some(ForcedRecommendationAction::StabilizeRepositoryState)
    } else {
        None
    }
}

impl ForcedRecommendationAction {
    pub fn from_name(action: &str) -> (r: Option<Self>)
        ensures
            r == forced_action_named(action@),
    {
        if crate::text::str_eq(action, "review_failing_verification") {
            Some(ForcedRecommendationAction::ReviewFailingVerification)
        } else if crate::text::str_eq(action, "stabilize_repository_state") {
            Some(ForcedRecommendationAction::StabilizeRepositoryState)
        } else {
            None
        }
    }

    pub open spec fn next_action(self) -> Seq<char> {
        match self {
            ForcedRecommendationAction::ReviewFailingVerification => "review_failing_verification"@,
            ForcedRecommendationAction::StabilizeRepositoryState => "stabilize_repository_state"@,
        }
    }

    pub fn recommended_next_action(self) -> (r: &'static str)
        ensures
            r@ == self.next_action(),
    {
        match self {
            ForcedRecommendationAction::ReviewFailingVerification => "review_failing_verification",
            ForcedRecommendationAction::StabilizeRepositoryState => "stabilize_repository_state",
        }
    }

    pub open spec fn flow(self) -> Seq<Seq<char>> {
        match self {
            ForcedRecommendationAction::ReviewFailingVerification => seq![
                "Inspect the latest failing or uncertain verification evidence first."@,
                "Use shell diff and project-native verification commands to stabilize the project."@,
                "Return to cleanup or refactor review only after verification is passing again."@,
            ],
            ForcedRecommendationAction::StabilizeRepositoryState => seq![
                "Stabilize the repository before broader code changes."@,
                "Use git status and diff to understand the in-progress operation."@,
                "Only return to OPENDOG-guided cleanup or review after the repository state is stable."@,
            ],
        }
    }

    pub fn recommended_flow(self) -> (r: Vec<String>)
        ensures
            text_views(r@) == self.flow(),
    {
        let items = match self {
            ForcedRecommendationAction::ReviewFailingVerification => vec![
                "Inspect the latest failing or uncertain verification evidence first.",
                "Use shell diff and project-native verification commands to stabilize the project.",
                "Return to cleanup or refactor review only after verification is passing again.",
            ],
            ForcedRecommendationAction::StabilizeRepositoryState => vec![
                "Stabilize the repository before broader code changes.",
                "Use git status and diff to understand the in-progress operation.",
                "Only return to OPENDOG-guided cleanup or review after the repository state is stable.",
            ],
        };
        assert(items@.map_values(|s: &str| s@) =~= self.flow());
        owned_texts(items)
    }

    pub open spec fn reason_text(self) -> Seq<char> {
        match self {
            ForcedRecommendationAction::ReviewFailingVerification =>
                "Recent verification evidence includes failing or uncertain runs, so review and stabilize those results before broader cleanup or refactoring."@,
            ForcedRecommendationAction::StabilizeRepositoryState =>
                "The repository is mid-operation (merge/rebase/cherry-pick/bisect), so avoid broad modifications until that state is resolved."@,
        }
    }

    pub fn reason(self) -> (r: &'static str)
        ensures
            r@ == self.reason_text(),
    {
        match self {
            ForcedRecommendationAction::ReviewFailingVerification =>
                "Recent verification evidence includes failing or uncertain runs, so review and stabilize those results before broader cleanup or refactoring.",
            ForcedRecommendationAction::StabilizeRepositoryState =>
                "The repository is mid-operation (merge/rebase/cherry-pick/bisect), so avoid broad modifications until that state is resolved.",
        }
    }

    pub open spec fn mode(self) -> Seq<char> {
        match self {
            ForcedRecommendationAction::ReviewFailingVerification => "verify_before_modify"@,
            ForcedRecommendationAction::StabilizeRepositoryState => "stabilize_before_modify"@,
        }
    }

    pub fn strategy_mode(self) -> (r: &'static str)
        ensures
            r@ == self.mode(),
    {
        match self {
            ForcedRecommendationAction::ReviewFailingVerification => "verify_before_modify",
            ForcedRecommendationAction::StabilizeRepositoryState => "stabilize_before_modify",
        }
    }

    pub open spec fn priorities(self) -> Seq<Seq<char>> {
        match self {
            ForcedRecommendationAction::ReviewFailingVerification => seq![
                "verification"@,
                "repository_risk"@,
                "activity_signals"@,
            ],
            ForcedRecommendationAction::StabilizeRepositoryState => seq![
                "repository_risk"@,
                "verification"@,
                "activity_signals"@,
            ],
        }
    }

    pub fn evidence_priority(self) -> (r: Vec<&'static str>)
        ensures
            r@.map_values(|s: &str| s@) == self.priorities(),
    {
        let r = match self {
            ForcedRecommendationAction::ReviewFailingVerification => vec![
                "verification",
                "repository_risk",
                "activity_signals",
            ],
            ForcedRecommendationAction::StabilizeRepositoryState => vec![
                "repository_risk",
                "verification",
                "activity_signals",
            ],
        };
        assert(r@.map_values(|s: &str| s@) =~= self.priorities());
        r
    }

    pub open spec fn commands(self, primary_verification_command: Seq<char>) -> Seq<Seq<char>> {
        match self {
            ForcedRecommendationAction::ReviewFailingVerification => seq![
                "opendog verification --id <project>"@,
                primary_verification_command,
                "git diff"@,
            ],
            ForcedRecommendationAction::StabilizeRepositoryState => seq![
                "git status"@,
                "git diff"@,
                "opendog verification --id <project>"@,
            ],
        }
    }

    pub fn suggested_commands(self, primary_verification_command: &str) -> (r: Vec<String>)
        ensures
            text_views(r@) == self.commands(primary_verification_command@),
    {
        let r = match self {
            ForcedRecommendationAction::ReviewFailingVerification => vec![
                String::from_str("opendog verification --id <project>"),
                String::from_str(primary_verification_command),
                String::from_str("git diff"),
            ],
            ForcedRecommendationAction::StabilizeRepositoryState => vec![
                String::from_str("git status"),
                String::from_str("git diff"),
                String::from_str("opendog verification --id <project>"),
            ],
        };
        assert(text_views(r@) =~= self.commands(primary_verification_command@));
        r
    }
}

/// What a forced recommendation is built from.
#[derive(Debug)]
pub struct ForcedRecommendationContext {
    pub project_id: String,
    pub primary_verification_command: String,
    pub verification_gate_levels: JsonValue,
    pub cleanup_blockers: Vec<JsonValue>,
    pub refactor_blockers: Vec<JsonValue>,
    pub repo_truth_gaps: JsonValue,
    pub mandatory_shell_checks: JsonValue,
}

impl ForcedRecommendationContext {
    pub fn new(
        project_id: String,
        primary_verification_command: String,
        verification_gate_levels: JsonValue,
        cleanup_blockers: Vec<JsonValue>,
        refactor_blockers: Vec<JsonValue>,
        repo_truth_gaps: JsonValue,
        mandatory_shell_checks: JsonValue,
    ) -> (r: Self)
        ensures
            r.project_id == project_id,
            r.primary_verification_command == primary_verification_command,
            r.verification_gate_levels == verification_gate_levels,
            r.cleanup_blockers == cleanup_blockers,
            r.refactor_blockers == refactor_blockers,
            r.repo_truth_gaps == repo_truth_gaps,
            r.mandatory_shell_checks == mandatory_shell_checks,
    {
        ForcedRecommendationContext {
            project_id,
            primary_verification_command,
            verification_gate_levels,
            cleanup_blockers,
            refactor_blockers,
            repo_truth_gaps,
            mandatory_shell_checks,
        }
    }

    /// The same as `new`, from borrowed texts.
    pub fn for_test(
        project_id: &str,
        primary_verification_command: &str,
        verification_gate_levels: JsonValue,
        cleanup_blockers: Vec<JsonValue>,
        refactor_blockers: Vec<JsonValue>,
        repo_truth_gaps: JsonValue,
        mandatory_shell_checks: JsonValue,
    ) -> (r: Self)
        ensures
            r.project_id@ == project_id@,
            r.primary_verification_command@ == primary_verification_command@,
            r.verification_gate_levels == verification_gate_levels,
            r.cleanup_blockers == cleanup_blockers,
            r.refactor_blockers == refactor_blockers,
            r.repo_truth_gaps == repo_truth_gaps,
            r.mandatory_shell_checks == mandatory_shell_checks,
    {
        Self::new(
            String::from_str(project_id),
            String::from_str(primary_verification_command),
            verification_gate_levels,
            cleanup_blockers,
            refactor_blockers,
            repo_truth_gaps,
            mandatory_shell_checks,
        )
    }
}

/// A forced recommendation: an action with the context it is built from.
#[derive(Debug)]
pub struct ForcedProjectRecommendation {
    pub action: ForcedRecommendationAction,
    pub context: ForcedRecommendationContext,
}

/// The recommendation record of a forced action, from the views of what
/// its context holds.
pub open spec fn forced_recommendation_view(
    action: ForcedRecommendationAction,
    project_id: Seq<char>,
    primary_verification_command: Seq<char>,
    gate_levels: JsonSpec,
    cleanup_blockers: Seq<JsonSpec>,
    refactor_blockers: Seq<JsonSpec>,
    repo_truth_gaps: JsonSpec,
    mandatory_shell_checks: JsonSpec,
) -> RecommendationSpec {
    RecommendationSpec {
        project_id: project_id,
        recommended_next_action: action.next_action(),
        recommended_flow: action.flow(),
        reason: action.reason_text(),
        confidence: "high"@,
        strategy_mode: action.mode(),
        strategy_profile: strategy_profile_json(action.mode(), "shell"@, "opendog"@, action.priorities()),
        verification_gate_levels: gate_levels,
        cleanup_blockers: Some(JsonSpec::Arr(cleanup_blockers)),
        refactor_blockers: Some(JsonSpec::Arr(refactor_blockers)),
        repo_truth_gaps: repo_truth_gaps,
        mandatory_shell_checks: mandatory_shell_checks,
        suggested_commands: action.commands(primary_verification_command),
    }
}

/// The recommendation record of a forced action.
pub open spec fn forced_recommendation_spec(
    action: ForcedRecommendationAction,
    c: ForcedRecommendationContext,
) -> RecommendationSpec {
    forced_recommendation_view(
        action,
        c.project_id@,
        c.primary_verification_command@,
        c.verification_gate_levels@,
        views(c.cleanup_blockers@),
        views(c.refactor_blockers@),
        c.repo_truth_gaps@,
        c.mandatory_shell_checks@,
    )
}

impl ForcedProjectRecommendation {
    /// A forced recommendation exactly when the action name is a forced one.
    pub fn from_action(action: &str, context: ForcedRecommendationContext) -> (r: Option<Self>)
        ensures
            r is Some <==> forced_action_named(action@) is Some,
            r matches Some(f) ==> f.action == forced_action_named(action@)->0 && f.context == context,
    {
        match ForcedRecommendationAction::from_name(action) {
            Some(a) => Some(ForcedProjectRecommendation { action: a, context }),
            None => None,
        }
    }

    pub fn into_recommendation(self) -> (r: Recommendation)
        ensures
            r@ == forced_recommendation_spec(self.action, self.context),
    {
        let ForcedProjectRecommendation { action, context } = self;
        let suggested_commands = action.suggested_commands(context.primary_verification_command.as_str());
        let profile = strategy_profile(
            action.strategy_mode(),
            "shell",
            "opendog",
            action.evidence_priority(),
        );
        Recommendation {
            project_id: context.project_id,
            recommended_next_action: String::from_str(action.recommended_next_action()),
            recommended_flow: action.recommended_flow(),
            reason: String::from_str(action.reason()),
            confidence: String::from_str("high"),
            strategy_mode: String::from_str(action.strategy_mode()),
            strategy_profile: profile,
            verification_gate_levels: context.verification_gate_levels,
            cleanup_blockers: Some(jarr(context.cleanup_blockers)),
            refactor_blockers: Some(jarr(context.refactor_blockers)),
            repo_truth_gaps: context.repo_truth_gaps,
            mandatory_shell_checks: context.mandatory_shell_checks,
            suggested_commands,
        }
    }
}

} // verus!
