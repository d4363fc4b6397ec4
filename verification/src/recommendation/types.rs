//! The recommendation record every recommendation kind produces.
use vstd::prelude::*;
use crate::json::{JsonSpec, JsonValue, jobj, jstring, jstrings, str_array};
use crate::text::text_views;

verus! {

/// A recommended next action for one project.
#[derive(Debug)]
pub struct Recommendation {
    pub project_id: String,
    pub recommended_next_action: String,
    pub recommended_flow: Vec<String>,
    pub reason: String,
    pub confidence: String,
    pub strategy_mode: String,
    pub strategy_profile: JsonValue,
    pub verification_gate_levels: JsonValue,
    pub cleanup_blockers: Option<JsonValue>,
    pub refactor_blockers: Option<JsonValue>,
    pub repo_truth_gaps: JsonValue,
    pub mandatory_shell_checks: JsonValue,
    pub suggested_commands: Vec<String>,
}

/// The mathematical form of a recommendation.
pub struct RecommendationSpec {
    pub project_id: Seq<char>,
    pub recommended_next_action: Seq<char>,
    pub recommended_flow: Seq<Seq<char>>,
    pub reason: Seq<char>,
    pub confidence: Seq<char>,
    pub strategy_mode: Seq<char>,
    pub strategy_profile: JsonSpec,
    pub verification_gate_levels: JsonSpec,
    pub cleanup_blockers: Option<JsonSpec>,
    pub refactor_blockers: Option<JsonSpec>,
    pub repo_truth_gaps: JsonSpec,
    pub mandatory_shell_checks: JsonSpec,
    pub suggested_commands: Seq<Seq<char>>,
}

pub open spec fn opt_json(v: Option<JsonValue>) -> Option<JsonSpec> {
    match v {
        Some(x) => Some(x@),
        None => None,
    }
}

impl View for Recommendation {
    type V = RecommendationSpec;

    open spec fn view(&self) -> RecommendationSpec {
        RecommendationSpec {
            project_id: self.project_id@,
            recommended_next_action: self.recommended_next_action@,
            recommended_flow: text_views(self.recommended_flow@),
            reason: self.reason@,
            confidence: self.confidence@,
            strategy_mode: self.strategy_mode@,
            strategy_profile: self.strategy_profile@,
            verification_gate_levels: self.verification_gate_levels@,
            cleanup_blockers: opt_json(self.cleanup_blockers),
            refactor_blockers: opt_json(self.refactor_blockers),
            repo_truth_gaps: self.repo_truth_gaps@,
            mandatory_shell_checks: self.mandatory_shell_checks@,
            suggested_commands: text_views(self.suggested_commands@),
        }
    }
}

/// Owned strings from string literals.
pub fn owned_texts(items: Vec<&str>) -> (r: Vec<String>)
    ensures
        text_views(r@) == items@.map_values(|s: &str| s@),
{
    let mut r: Vec<String> = Vec::new();
    let mut i: usize = 0;
    while i < items.len()
        invariant
            i <= items@.len(),
            r@.len() == i,
            forall|j: int| 0 <= j < i ==> (#[trigger] r@[j])@ == items@[j]@,
        decreases items@.len() - i,
    {
        r.push(String::from_str(items[i]));
        i = i + 1;
    }
    assert(text_views(r@) =~= items@.map_values(|s: &str| s@));
    r
}

/// The JSON form of a recommendation: one field per member, the blocker
/// lists `null` when absent.
pub open spec fn recommendation_json(r: RecommendationSpec) -> JsonSpec {
    JsonSpec::Obj(seq![
        ("project_id"@, JsonSpec::Str(r.project_id)),
        ("recommended_next_action"@, JsonSpec::Str(r.recommended_next_action)),
        ("recommended_flow"@, str_array(r.recommended_flow)),
        ("reason"@, JsonSpec::Str(r.reason)),
        ("confidence"@, JsonSpec::Str(r.confidence)),
        ("strategy_mode"@, JsonSpec::Str(r.strategy_mode)),
        ("strategy_profile"@, r.strategy_profile),
        ("verification_gate_levels"@, r.verification_gate_levels),
        ("cleanup_blockers"@, opt_or_null(r.cleanup_blockers)),
        ("refactor_blockers"@, opt_or_null(r.refactor_blockers)),
        ("repo_truth_gaps"@, r.repo_truth_gaps),
        ("mandatory_shell_checks"@, r.mandatory_shell_checks),
        ("suggested_commands"@, str_array(r.suggested_commands)),
    ])
}

pub open spec fn opt_or_null(v: Option<JsonSpec>) -> JsonSpec {
    match v {
        Some(x) => x,
        None => JsonSpec::Null,
    }
}

fn copy_text_list(v: &Vec<String>) -> (r: Vec<String>)
    ensures
        text_views(r@) == text_views(v@),
{
    let mut r: Vec<String> = Vec::new();
    let mut i: usize = 0;
    while i < v.len()
        invariant
            i <= v@.len(),
            r@.len() == i,
            forall|j: int| 0 <= j < i ==> (#[trigger] r@[j])@ == v@[j]@,
        decreases v@.len() - i,
    {
        r.push(v[i].clone());
        i = i + 1;
    }
    assert(text_views(r@) =~= text_views(v@));
    r
}

fn text_list_json(v: &Vec<String>) -> (r: JsonValue)
    ensures
        r@ == str_array(text_views(v@)),
{
    let copy = copy_text_list(v);
    let r = jstrings(copy);
    assert(copy@.map_values(|s: String| s@) =~= text_views(copy@));
    r
}

fn opt_json_value(v: &Option<JsonValue>) -> (r: JsonValue)
    ensures
        r@ == opt_or_null(opt_json(*v)),
{
    match v {
        Some(x) => x.dup(),
        None => JsonValue::Null,
    }
}

impl Recommendation {
    /// The JSON form of the recommendation.
    pub fn to_json(&self) -> (r: JsonValue)
        ensures
            r@ == recommendation_json(self@),
    {
        let r = jobj(vec![
            ("project_id", jstring(self.project_id.clone())),
            ("recommended_next_action", jstring(self.recommended_next_action.clone())),
            ("recommended_flow", text_list_json(&self.recommended_flow)),
            ("reason", jstring(self.reason.clone())),
            ("confidence", jstring(self.confidence.clone())),
            ("strategy_mode", jstring(self.strategy_mode.clone())),
            ("strategy_profile", self.strategy_profile.dup()),
            ("verification_gate_levels", self.verification_gate_levels.dup()),
            ("cleanup_blockers", opt_json_value(&self.cleanup_blockers)),
            ("refactor_blockers", opt_json_value(&self.refactor_blockers)),
            ("repo_truth_gaps", self.repo_truth_gaps.dup()),
            ("mandatory_shell_checks", self.mandatory_shell_checks.dup()),
            ("suggested_commands", text_list_json(&self.suggested_commands)),
        ]);
        assert(r@->Obj_0 =~= recommendation_json(self@)->Obj_0);
        r
    }
}

} // verus!
