//! Recommendations that collect missing evidence first.
use vstd::prelude::*;
use vstd::string::*;
use crate::json::{JsonSpec, JsonValue};
use crate::strategy::{strategy_profile, strategy_profile_json};
use crate::text::{cat, text_views};
use super::types::{Recommendation, RecommendationSpec, owned_texts};

verus! {

/// Evidence that must be collected before review.
#[derive(Debug, Clone, Copy, PartialEq, Eq, Structural)]
pub enum EvidenceCollectionAction {
    StartMonitor,
    TakeSnapshot,
    GenerateActivityThenStats,
}

/// What an evidence recommendation is built from.
#[derive(Debug)]
pub struct EvidenceCollectionContext {
    pub project_id: String,
    pub project_command: String,
    pub snapshot_missing: bool,
    pub activity_missing: bool,
    pub verification_gate_levels: JsonValue,
    pub repo_truth_gaps: JsonValue,
    pub mandatory_shell_checks: JsonValue,
}

impl EvidenceCollectionAction {
    pub open spec fn next_action(self) -> Seq<char> {
        match self {
            EvidenceCollectionAction::StartMonitor => "start_monitor"@,
            EvidenceCollectionAction::TakeSnapshot => "take_snapshot"@,
            EvidenceCollectionAction::GenerateActivityThenStats => "generate_activity_then_stats"@,
        }
    }

    pub fn recommended_next_action(self) -> (r: &'static str)
        ensures
            r@ == self.next_action(),
    {
        match self {
            EvidenceCollectionAction::StartMonitor => "start_monitor",
            EvidenceCollectionAction::TakeSnapshot => "take_snapshot",
            EvidenceCollectionAction::GenerateActivityThenStats => "generate_activity_then_stats",
        }
    }

    pub open spec fn flow(self) -> Seq<Seq<char>> {
        match self {
            EvidenceCollectionAction::StartMonitor => seq![
                "Start monitoring because fresh activity evidence does not exist yet."@,
                "Let real workflow activity happen after monitoring is active."@,
                "Inspect stats only after OPENDOG has observed meaningful activity."@,
            ],
            EvidenceCollectionAction::TakeSnapshot => seq![
                "Take a snapshot to establish the project baseline."@,
                "Use stats only after the baseline inventory exists."@,
                "If monitoring is already active, keep it running so activity can accumulate after snapshot."@,
            ],
            EvidenceCollectionAction::GenerateActivityThenStats => seq![
                "Generate real project activity with edits, tests, or builds."@,
                "Avoid drawing hotspot or cleanup conclusions before activity exists."@,
                "Inspect stats after the observation window is meaningful."@,
            ],
        }
    }

    pub fn recommended_flow(self) -> (r: Vec<String>)
        ensures
            text_views(r@) == self.flow(),
    {
        let items = match self {
            EvidenceCollectionAction::StartMonitor => vec![
                "Start monitoring because fresh activity evidence does not exist yet.",
                "Let real workflow activity happen after monitoring is active.",
                "Inspect stats only after OPENDOG has observed meaningful activity.",
            ],
            EvidenceCollectionAction::TakeSnapshot => vec![
                "Take a snapshot to establish the project baseline.",
                "Use stats only after the baseline inventory exists.",
                "If monitoring is already active, keep it running so activity can accumulate after snapshot.",
            ],
            EvidenceCollectionAction::GenerateActivityThenStats => vec![
                "Generate real project activity with edits, tests, or builds.",
                "Avoid drawing hotspot or cleanup conclusions before activity exists.",
                "Inspect stats after the observation window is meaningful.",
            ],
        };
        assert(items@.map_values(|s: &str| s@) =~= self.flow());
        owned_texts(items)
    }

    pub open spec fn reason_text(self, snapshot_missing: bool, activity_missing: bool) -> Seq<char> {
        match self {
            EvidenceCollectionAction::StartMonitor =>
                "This project is not currently being monitored, so opendog cannot collect fresh activity data yet."@,
            EvidenceCollectionAction::TakeSnapshot => if snapshot_missing {
                "Monitoring is active but no snapshot data exists yet, so file inventory and stats are incomplete."@
            } else {
                "Snapshot evidence exists but is stale, so refresh the baseline before trusting cleanup or hotspot conclusions."@
            },
            EvidenceCollectionAction::GenerateActivityThenStats => if activity_missing {
                "Snapshot data exists, but no file access activity has been recorded yet."@
            } else {
                "Activity evidence exists but is stale, so generate fresh workflow activity before trusting current hotspot or cleanup signals."@
            },
        }
    }

    pub fn reason(self, context: &EvidenceCollectionContext) -> (r: &'static str)
        ensures
            r@ == self.reason_text(context.snapshot_missing, context.activity_missing),
    {
        match self {
            EvidenceCollectionAction::StartMonitor => {
                "This project is not currently being monitored, so opendog cannot collect fresh activity data yet."
            },
            EvidenceCollectionAction::TakeSnapshot => if context.snapshot_missing {
                "Monitoring is active but no snapshot data exists yet, so file inventory and stats are incomplete."
            } else {
                "Snapshot evidence exists but is stale, so refresh the baseline before trusting cleanup or hotspot conclusions."
            },
            EvidenceCollectionAction::GenerateActivityThenStats => if context.activity_missing {
                "Snapshot data exists, but no file access activity has been recorded yet."
            } else {
                "Activity evidence exists but is stale, so generate fresh workflow activity before trusting current hotspot or cleanup signals."
            },
        }
    }

    /// OPENDOG leads while monitoring or the baseline is missing; shell
    /// leads while activity has to be generated.
    pub open spec fn tools(self) -> (Seq<char>, Seq<char>) {
        match self {
            EvidenceCollectionAction::GenerateActivityThenStats => ("shell"@, "opendog"@),
            _ => ("opendog"@, "shell"@),
        }
    }

    pub fn profile_tools(self) -> (r: (&'static str, &'static str))
        ensures
            (r.0@, r.1@) == self.tools(),
    {
        match self {
            EvidenceCollectionAction::StartMonitor | EvidenceCollectionAction::TakeSnapshot => ("opendog", "shell"),
            EvidenceCollectionAction::GenerateActivityThenStats => ("shell", "opendog"),
        }
    }

    pub open spec fn priorities(self) -> Seq<Seq<char>> {
        match self {
            EvidenceCollectionAction::GenerateActivityThenStats => seq![
                "activity_signals"@,
                "verification"@,
                "repository_risk"@,
            ],
            _ => seq!["activity_signals"@, "repository_risk"@],
        }
    }

    pub fn evidence_priority(self) -> (r: Vec<&'static str>)
        ensures
            r@.map_values(|s: &str| s@) == self.priorities(),
    {
        let r = match self {
            EvidenceCollectionAction::StartMonitor | EvidenceCollectionAction::TakeSnapshot => vec![
                "activity_signals",
                "repository_risk",
            ],
            EvidenceCollectionAction::GenerateActivityThenStats => vec![
                "activity_signals",
                "verification",
                "repository_risk",
            ],
        };
        assert(r@.map_values(|s: &str| s@) =~= self.priorities());
        r
    }

    pub open spec fn commands(self, project_id: Seq<char>, project_command: Seq<char>) -> Seq<Seq<char>> {
        match self {
            EvidenceCollectionAction::StartMonitor => seq![
                "opendog start --id "@ + project_id,
                "opendog stats --id "@ + project_id,
            ],
            EvidenceCollectionAction::TakeSnapshot => seq![
                "opendog snapshot --id "@ + project_id,
                "opendog stats --id "@ + project_id,
            ],
            EvidenceCollectionAction::GenerateActivityThenStats => seq![
                project_command,
                "opendog stats --id "@ + project_id,
            ],
        }
    }

    pub fn suggested_commands(self, context: &EvidenceCollectionContext) -> (r: Vec<String>)
        ensures
            text_views(r@) == self.commands(context.project_id@, context.project_command@),
    {
        let pid = context.project_id.as_str();
        let r = match self {
            EvidenceCollectionAction::StartMonitor => vec![
                cat("opendog start --id ", pid),
                cat("opendog stats --id ", pid),
            ],
            EvidenceCollectionAction::TakeSnapshot => vec![
                cat("opendog snapshot --id ", pid),
                cat("opendog stats --id ", pid),
            ],
            EvidenceCollectionAction::GenerateActivityThenStats => vec![
                context.project_command.clone(),
                cat("opendog stats --id ", pid),
            ],
        };
        assert(text_views(r@) =~= self.commands(context.project_id@, context.project_command@));
        r
    }
}

/// An evidence-collection recommendation.
#[derive(Debug)]
pub struct EvidenceCollectionRecommendation {
    pub action: EvidenceCollectionAction,
    pub context: EvidenceCollectionContext,
}

/// The recommendation record of an evidence-collection action, from the
/// views of what its context holds.
pub open spec fn evidence_recommendation_view(
    action: EvidenceCollectionAction,
    project_id: Seq<char>,
    project_command: Seq<char>,
    snapshot_missing: bool,
    activity_missing: bool,
    gate_levels: JsonSpec,
    repo_truth_gaps: JsonSpec,
    mandatory_shell_checks: JsonSpec,
) -> RecommendationSpec {
    RecommendationSpec {
        project_id: project_id,
        recommended_next_action: action.next_action(),
        recommended_flow: action.flow(),
        reason: action.reason_text(snapshot_missing, activity_missing),
        confidence: "medium"@,
        strategy_mode: "collect_evidence_first"@,
        strategy_profile: strategy_profile_json(
            "collect_evidence_first"@,
            action.tools().0,
            action.tools().1,
            action.priorities(),
        ),
        verification_gate_levels: gate_levels,
        cleanup_blockers: None,
        refactor_blockers: None,
        repo_truth_gaps: repo_truth_gaps,
        mandatory_shell_checks: mandatory_shell_checks,
        suggested_commands: action.commands(project_id, project_command),
    }
}

/// The recommendation record of an evidence-collection action.
pub open spec fn evidence_recommendation_spec(
    action: EvidenceCollectionAction,
    c: EvidenceCollectionContext,
) -> RecommendationSpec {
    evidence_recommendation_view(
        action,
        c.project_id@,
        c.project_command@,
        c.snapshot_missing,
        c.activity_missing,
        c.verification_gate_levels@,
        c.repo_truth_gaps@,
        c.mandatory_shell_checks@,
    )
}

impl EvidenceCollectionRecommendation {
    pub fn new(action: EvidenceCollectionAction, context: EvidenceCollectionContext) -> (r: Self)
        ensures
            r.action == action,
            r.context == context,
    {
        EvidenceCollectionRecommendation { action, context }
    }

    pub fn into_recommendation(self) -> (r: Recommendation)
        ensures
            r@ == evidence_recommendation_spec(self.action, self.context),
    {
        let EvidenceCollectionRecommendation { action, context } = self;
        let reason = String::from_str(action.reason(&context));
        let suggested_commands = action.suggested_commands(&context);
        let (primary_tool, secondary_tool) = action.profile_tools();
        let profile = strategy_profile(
            "collect_evidence_first",
            primary_tool,
            secondary_tool,
            action.evidence_priority(),
        );
        Recommendation {
            project_id: context.project_id,
            recommended_next_action: String::from_str(action.recommended_next_action()),
            recommended_flow: action.recommended_flow(),
            reason,
            confidence: String::from_str("medium"),
            strategy_mode: String::from_str("collect_evidence_first"),
            strategy_profile: profile,
            verification_gate_levels: context.verification_gate_levels,
            cleanup_blockers: None,
            refactor_blockers: None,
            repo_truth_gaps: context.repo_truth_gaps,
            mandatory_shell_checks: context.mandatory_shell_checks,
            suggested_commands,
        }
    }
}

} // verus!
