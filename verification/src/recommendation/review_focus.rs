//! Which family of candidates a review recommendation points at.
use vstd::prelude::*;
use vstd::string::*;
use crate::json::{JsonSpec, JsonValue, js, jobj, jstrs, str_array};
use crate::text::str_eq;
use super::scoring::{bool_field_or, str_field_or};

verus! {

/// The family of files a review looks at.
#[derive(Debug, Clone, Copy, PartialEq, Eq, Structural)]
pub enum ReviewFocusCandidateFamily {
    HotFile,
    UnusedCandidate,
}

impl ReviewFocusCandidateFamily {
    pub open spec fn name(self) -> Seq<char> {
        match self {
            ReviewFocusCandidateFamily::HotFile => "hot_file"@,
            ReviewFocusCandidateFamily::UnusedCandidate => "unused_candidate"@,
        }
    }

    pub fn as_str(self) -> (r: &'static str)
        ensures
            r@ == self.name(),
    {
        match self {
            ReviewFocusCandidateFamily::HotFile => "hot_file",
            ReviewFocusCandidateFamily::UnusedCandidate => "unused_candidate",
        }
    }

    pub open spec fn basis_names(self) -> Seq<Seq<char>> {
        match self {
            ReviewFocusCandidateFamily::HotFile => seq!["highest_access_activity"@, "activity_present"@],
            ReviewFocusCandidateFamily::UnusedCandidate => seq!["zero_recorded_access"@, "snapshot_present"@],
        }
    }

    pub fn basis(self) -> (r: Vec<&'static str>)
        ensures
            r@.map_values(|s: &str| s@) == self.basis_names(),
    {
        let r = match self {
            ReviewFocusCandidateFamily::HotFile => vec!["highest_access_activity", "activity_present"],
            ReviewFocusCandidateFamily::UnusedCandidate => vec!["zero_recorded_access", "snapshot_present"],
        };
        assert(r@.map_values(|s: &str| s@) =~= self.basis_names());
        r
    }
}

/// The review focus attached to a review recommendation.
#[derive(Debug)]
pub struct RecommendationReviewFocus {
    pub candidate_family: ReviewFocusCandidateFamily,
    pub candidate_risk_hints: Vec<&'static str>,
}

/// Repository risk is elevated when its level is other than "low" (a
/// missing level counts as "low") or the diff is large.
pub open spec fn repo_risk_elevated(repo_risk: JsonSpec) -> bool {
    repo_risk.field("risk_level"@).str_or("low"@) != "low"@
        || repo_risk.field("large_diff"@).bool_or(false)
}

/// The risk hints of a hot-file review.
pub open spec fn hot_file_hints(repo_risk: JsonSpec) -> Seq<Seq<char>> {
    if repo_risk_elevated(repo_risk) {
        seq!["repo_risk_elevated"@]
    } else {
        Seq::empty()
    }
}

/// The family that an action name asks to review, if any.
pub open spec fn focus_family_of(action: Seq<char>) -> Option<ReviewFocusCandidateFamily> {
    if action == "inspect_hot_files"@ {
        Some(ReviewFocusCandidateFamily::HotFile)
    } else if action == "review_unused_files"@ {
        Some(ReviewFocusCandidateFamily::UnusedCandidate)
    } else {
        None
    }
}

/// The risk hints of a family's focus.
pub open spec fn focus_hints(family: ReviewFocusCandidateFamily, repo_risk: JsonSpec) -> Seq<Seq<char>> {
    match family {
        ReviewFocusCandidateFamily::HotFile => hot_file_hints(repo_risk),
        ReviewFocusCandidateFamily::UnusedCandidate => Seq::empty(),
    }
}

/// The JSON form of a focus.
pub open spec fn focus_json(family: ReviewFocusCandidateFamily, hints: Seq<Seq<char>>) -> JsonSpec {
    JsonSpec::Obj(seq![
        ("candidate_family"@, JsonSpec::Str(family.name())),
        ("candidate_basis"@, str_array(family.basis_names())),
        ("candidate_risk_hints"@, str_array(hints)),
    ])
}

impl RecommendationReviewFocus {
    pub open spec fn hints(&self) -> Seq<Seq<char>> {
        self.candidate_risk_hints@.map_values(|s: &str| s@)
    }

    /// A focus for the two review actions, none for any other action.
    pub fn from_action(selected_action: &str, repo_risk: &JsonValue) -> (r: Option<Self>)
        ensures
            r is Some <==> focus_family_of(selected_action@) is Some,
            r matches Some(f) ==> {
                &&& f.candidate_family == focus_family_of(selected_action@)->0
                &&& f.hints() == focus_hints(f.candidate_family, repo_risk@)
            },
    {
        if str_eq(selected_action, "inspect_hot_files") {
            Some(RecommendationReviewFocus {
                candidate_family: ReviewFocusCandidateFamily::HotFile,
                candidate_risk_hints: Self::hot_file_risk_hints(repo_risk),
            })
        } else if str_eq(selected_action, "review_unused_files") {
            let hints: Vec<&'static str> = Vec::new();
            assert(hints@.map_values(|s: &str| s@) =~= Seq::<Seq<char>>::empty());
            Some(RecommendationReviewFocus {
                candidate_family: ReviewFocusCandidateFamily::UnusedCandidate,
                candidate_risk_hints: hints,
            })
        } else {
            None
        }
    }

    pub fn hot_file_risk_hints(repo_risk: &JsonValue) -> (r: Vec<&'static str>)
        ensures
            r@.map_values(|s: &str| s@) == hot_file_hints(repo_risk@),
    {
        let level = str_field_or(repo_risk, "risk_level", "low");
        let r: Vec<&'static str> = if !str_eq(level, "low") || bool_field_or(repo_risk, "large_diff", false) {
            vec!["repo_risk_elevated"]
        } else {
            Vec::new()
        };
        assert(r@.map_values(|s: &str| s@) =~= hot_file_hints(repo_risk@));
        r
    }

    pub fn candidate_family(&self) -> (r: ReviewFocusCandidateFamily)
        ensures
            r == self.candidate_family,
    {
        self.candidate_family
    }

    pub fn risk_hints(&self) -> (r: &Vec<&'static str>)
        ensures
            r == &self.candidate_risk_hints,
    {
        &self.candidate_risk_hints
    }

    pub fn to_json(&self) -> (r: JsonValue)
        ensures
            r@ == focus_json(self.candidate_family, self.hints()),
    {
        let mut hints: Vec<&str> = Vec::new();
        let mut i: usize = 0;
        while i < self.candidate_risk_hints.len()
            invariant
                i <= self.candidate_risk_hints@.len(),
                hints@ == self.candidate_risk_hints@.subrange(0, i as int),
            decreases self.candidate_risk_hints@.len() - i,
        {
            hints.push(self.candidate_risk_hints[i]);
            i = i + 1;
        }
        assert(hints@ =~= self.candidate_risk_hints@);
        let r = jobj(vec![
            ("candidate_family", js(self.candidate_family.as_str())),
            ("candidate_basis", jstrs(self.candidate_family.basis())),
            ("candidate_risk_hints", jstrs(hints)),
        ]);
        assert(r@->Obj_0 =~= focus_json(self.candidate_family, self.hints())->Obj_0);
        r
    }
}

/// The JSON focus of a selected action, `null` for actions without one.
pub open spec fn review_focus_json(selected_action: Seq<char>, repo_risk: JsonSpec) -> JsonSpec {
    match focus_family_of(selected_action) {
        Some(family) => focus_json(family, focus_hints(family, repo_risk)),
        None => JsonSpec::Null,
    }
}

pub fn review_focus_for_action(selected_action: &str, repo_risk: &JsonValue) -> (r: JsonValue)
    ensures
        r@ == review_focus_json(selected_action@, repo_risk@),
{
    match RecommendationReviewFocus::from_action(selected_action, repo_risk) {
        Some(focus) => focus.to_json(),
        None => JsonValue::Null,
    }
}

} // verus!
