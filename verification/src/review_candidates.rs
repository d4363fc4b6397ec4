//! Review candidates: one file put forward for review, with the evidence
//! behind it and the risks that weaken that evidence.
use vstd::prelude::*;
use vstd::string::*;
use crate::json::{JsonSpec, JsonValue, js, jobj, jstrings, jstrs, str_array, views};
use crate::recommendation::review_focus::repo_risk_elevated;
use crate::recommendation::scoring::{bool_field_or, str_field_or};
use crate::text::{str_eq, text_views};

verus! {

/// Whether the snapshot and the activity evidence are stale.
#[derive(Debug, Clone, Copy)]
pub struct CandidateFreshness {
    pub snapshot_stale: bool,
    pub activity_stale: bool,
}

impl Default for CandidateFreshness {
    fn default() -> (r: Self)
        ensures
            !r.snapshot_stale,
            !r.activity_stale,
    {
        CandidateFreshness { snapshot_stale: false, activity_stale: false }
    }
}

/// What every candidate of one review is judged against.
#[derive(Clone, Copy)]
pub struct ReviewCandidateContext<'a> {
    pub mock_summary: &'a JsonValue,
    pub freshness: CandidateFreshness,
    pub repo_risk: &'a JsonValue,
}

/// `summary[key]` is an array with an element whose `file_path` is the path.
pub open spec fn summary_has_path(summary: JsonSpec, key: Seq<char>, file_path: Seq<char>) -> bool {
    match summary.field(key) {
        JsonSpec::Arr(items) => exists|i: int|
            0 <= i < items.len() && #[trigger] items[i].field("file_path"@) == JsonSpec::Str(file_path),
        _ => false,
    }
}

pub fn summary_contains_path(summary: &JsonValue, key: &str, file_path: &str) -> (r: bool)
    ensures
        r == summary_has_path(summary@, key@, file_path@),
{
    match summary.get_array(key) {
        Some(items) => {
            let ghost spec_items = views(items@);
            let mut i: usize = 0;
            while i < items.len()
                invariant
                    i <= items@.len(),
                    spec_items == views(items@),
                    summary@.field(key@) == JsonSpec::Arr(spec_items),
                    forall|j: int| 0 <= j < i ==> #[trigger] spec_items[j].field("file_path"@) != JsonSpec::Str(file_path@),
                decreases items@.len() - i,
            {
                let found = match items[i].get_str("file_path") {
                    Some(path) => str_eq(path, file_path),
                    None => false,
                };
                if found {
                    assert(spec_items[i as int].field("file_path"@) == JsonSpec::Str(file_path@));
                    return true;
                }
                i = i + 1;
            }
            false
        },
        None => false,
    }
}

/// The evidence basis of a candidate kind; unknown kinds have none.
pub open spec fn kind_basis(kind: Seq<char>) -> Seq<Seq<char>> {
    if kind == "hot_file"@ {
        seq!["highest_access_activity"@, "activity_present"@]
    } else if kind == "unused_candidate"@ {
        seq!["zero_recorded_access"@, "snapshot_present"@]
    } else {
        Seq::empty()
    }
}

/// The basis of a candidate: its kind's basis, then the mock and hardcoded
/// data overlaps of the file, for known kinds only.
pub open spec fn candidate_basis(kind: Seq<char>, mock_summary: JsonSpec, file_path: Seq<char>) -> Seq<Seq<char>> {
    let base = kind_basis(kind);
    if base.len() == 0 {
        base
    } else {
        let with_mock = if summary_has_path(mock_summary, "mock_data_candidates"@, file_path) {
            base.push("mock_data_overlap"@)
        } else {
            base
        };
        if summary_has_path(mock_summary, "hardcoded_data_candidates"@, file_path) {
            with_mock.push("hardcoded_data_overlap"@)
        } else {
            with_mock
        }
    }
}

pub open spec fn texts_of(v: Seq<&str>) -> Seq<Seq<char>> {
    v.map_values(|s: &str| s@)
}

pub fn candidate_basis_for(kind: &str, mock_summary: &JsonValue, file_path: &str) -> (r: Vec<&'static str>)
    ensures
        texts_of(r@) == candidate_basis(kind@, mock_summary@, file_path@),
{
    let mut basis: Vec<&'static str> = if str_eq(kind, "hot_file") {
        vec!["highest_access_activity", "activity_present"]
    } else if str_eq(kind, "unused_candidate") {
        vec!["zero_recorded_access", "snapshot_present"]
    } else {
        Vec::new()
    };
    assert(texts_of(basis@) =~= kind_basis(kind@));
    if basis.len() == 0 {
        return basis;
    }
    if summary_contains_path(mock_summary, "mock_data_candidates", file_path) {
        basis.push("mock_data_overlap");
    }
    assert(texts_of(basis@) =~= (if summary_has_path(mock_summary@, "mock_data_candidates"@, file_path@) {
        kind_basis(kind@).push("mock_data_overlap"@)
    } else {
        kind_basis(kind@)
    }));
    if summary_contains_path(mock_summary, "hardcoded_data_candidates", file_path) {
        basis.push("hardcoded_data_overlap");
    }
    assert(texts_of(basis@) =~= candidate_basis(kind@, mock_summary@, file_path@));
    basis
}

/// The risk hints of a candidate, in this order: stale activity (hot
/// files), stale snapshot (unused candidates), elevated repository risk
/// (hot files).
pub open spec fn candidate_risk_hints(kind: Seq<char>, freshness: CandidateFreshness, repo_risk: JsonSpec) -> Seq<Seq<char>> {
    let hot = kind == "hot_file"@;
    let a: Seq<Seq<char>> = if hot && freshness.activity_stale {
        seq!["activity_evidence_stale"@]
    } else {
        Seq::empty()
    };
    let b = if kind == "unused_candidate"@ && freshness.snapshot_stale {
        a.push("snapshot_evidence_stale"@)
    } else {
        a
    };
    if hot && repo_risk_elevated(repo_risk) {
        b.push("repo_risk_elevated"@)
    } else {
        b
    }
}

pub fn candidate_risk_hints_for(kind: &str, freshness: CandidateFreshness, repo_risk: &JsonValue) -> (r: Vec<&'static str>)
    ensures
        texts_of(r@) == candidate_risk_hints(kind@, freshness, repo_risk@),
{
    let hot = str_eq(kind, "hot_file");
    let unused = str_eq(kind, "unused_candidate");
    let mut hints: Vec<&'static str> = Vec::new();
    if hot && freshness.activity_stale {
        hints.push("activity_evidence_stale");
    }
    let ghost a = texts_of(hints@);
    if unused && freshness.snapshot_stale {
        hints.push("snapshot_evidence_stale");
    }
    let ghost b = texts_of(hints@);
    if hot && (!str_eq(str_field_or(repo_risk, "risk_level", "low"), "low")
        || bool_field_or(repo_risk, "large_diff", false))
    {
        hints.push("repo_risk_elevated");
    }
    proof {
        let ea: Seq<Seq<char>> = if hot && freshness.activity_stale {
            seq!["activity_evidence_stale"@]
        } else {
            Seq::empty()
        };
        assert(a =~= ea);
        let eb = if unused && freshness.snapshot_stale { ea.push("snapshot_evidence_stale"@) } else { ea };
        assert(b =~= eb);
        assert(texts_of(hints@) =~= candidate_risk_hints(kind@, freshness, repo_risk@));
    }
    hints
}

/// The JSON form of a review candidate.
pub open spec fn review_candidate_json(
    kind: Seq<char>,
    file_path: Seq<char>,
    priority: Seq<char>,
    reason: Seq<char>,
    suggested_commands: Seq<Seq<char>>,
    mock_summary: JsonSpec,
    freshness: CandidateFreshness,
    repo_risk: JsonSpec,
) -> JsonSpec {
    JsonSpec::Obj(seq![
        ("kind"@, JsonSpec::Str(kind)),
        ("file_path"@, JsonSpec::Str(file_path)),
        ("reason"@, JsonSpec::Str(reason)),
        ("suggested_commands"@, str_array(suggested_commands)),
        ("candidate_basis"@, str_array(candidate_basis(kind, mock_summary, file_path))),
        ("candidate_risk_hints"@, str_array(candidate_risk_hints(kind, freshness, repo_risk))),
        ("candidate_priority"@, JsonSpec::Str(priority)),
    ])
}

pub fn build_review_candidate(
    kind: &str,
    file_path: &str,
    priority: &str,
    reason: &str,
    suggested_commands: Vec<String>,
    context: ReviewCandidateContext<'_>,
) -> (r: JsonValue)
    ensures
        r@ == review_candidate_json(
            kind@,
            file_path@,
            priority@,
            reason@,
            text_views(suggested_commands@),
            context.mock_summary@,
            context.freshness,
            context.repo_risk@,
        ),
{
    let ghost commands = text_views(suggested_commands@);
    let commands_json = jstrings(suggested_commands);
    assert(commands_json@ == str_array(commands)) by {
        assert(text_views(suggested_commands@) =~= suggested_commands@.map_values(|s: String| s@));
    }
    let basis = candidate_basis_for(kind, context.mock_summary, file_path);
    let hints = candidate_risk_hints_for(kind, context.freshness, context.repo_risk);
    let r = jobj(vec![
        ("kind", js(kind)),
        ("file_path", js(file_path)),
        ("reason", js(reason)),
        ("suggested_commands", commands_json),
        ("candidate_basis", jstrs(basis)),
        ("candidate_risk_hints", jstrs(hints)),
        ("candidate_priority", js(priority)),
    ]);
    assert(r@->Obj_0 =~= review_candidate_json(
        kind@,
        file_path@,
        priority@,
        reason@,
        commands,
        context.mock_summary@,
        context.freshness,
        context.repo_risk@,
    )->Obj_0);
    r
}

} // verus!
