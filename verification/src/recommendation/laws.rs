//! What holds of every recommendation, whichever builder made it.
use vstd::prelude::*;
use vstd::string::*;
use crate::json::{JsonSpec, lemma_lookup_at};
use crate::strategy::strategy_profile_json;
use super::evidence::{EvidenceCollectionAction, EvidenceCollectionContext, evidence_recommendation_spec};
use super::forced::{ForcedRecommendationAction, ForcedRecommendationContext, forced_recommendation_spec};
use super::review::{ProjectReviewAction, ProjectReviewContext, review_recommendation_spec};

verus! {

/// The strategy mode a profile names is the mode it was built with.
pub proof fn lemma_profile_mode(mode: Seq<char>, primary: Seq<char>, secondary: Seq<char>, priority: Seq<Seq<char>>)
    ensures
        strategy_profile_json(mode, primary, secondary, priority).field("strategy_mode"@) == JsonSpec::Str(mode),
{
    reveal_strlit("strategy_mode");
    reveal_strlit("preferred_primary_tool");
    reveal_strlit("preferred_secondary_tool");
    reveal_strlit("evidence_priority");
    let es = strategy_profile_json(mode, primary, secondary, priority)->Obj_0;
    assert forall|j: int| 0 < j < es.len() implies (#[trigger] es[j]).0 != "strategy_mode"@ by {
        assert(es[j].0.len() != 13);
    }
    lemma_lookup_at(es, "strategy_mode"@, 0);
}

/// Every recommendation states its strategy mode twice, in the record and
/// in its strategy profile, and the two agree.
pub proof fn law_recommendation_modes_agree(
    evidence_action: EvidenceCollectionAction,
    evidence_context: EvidenceCollectionContext,
    forced_action: ForcedRecommendationAction,
    forced_context: ForcedRecommendationContext,
    review_action: ProjectReviewAction,
    review_context: ProjectReviewContext,
)
    ensures
        evidence_recommendation_spec(evidence_action, evidence_context).strategy_profile.field("strategy_mode"@)
            == JsonSpec::Str(evidence_recommendation_spec(evidence_action, evidence_context).strategy_mode),
        forced_recommendation_spec(forced_action, forced_context).strategy_profile.field("strategy_mode"@)
            == JsonSpec::Str(forced_recommendation_spec(forced_action, forced_context).strategy_mode),
        review_recommendation_spec(review_action, review_context).strategy_profile.field("strategy_mode"@)
            == JsonSpec::Str(review_recommendation_spec(review_action, review_context).strategy_mode),
{
    let et = evidence_action.tools();
    lemma_profile_mode("collect_evidence_first"@, et.0, et.1, evidence_action.priorities());
    lemma_profile_mode(forced_action.mode(), "shell"@, "opendog"@, forced_action.priorities());
    let rm = review_action.mode(review_context.safe_for_cleanup, review_context.safe_for_refactor);
    let rt = review_action.tools(review_context.safe_for_refactor);
    lemma_profile_mode(rm, rt.0, rt.1, super::review::review_priorities());
}

} // verus!
