//! The decisions of the stats and unused-file guidance: what the workspace
//! observation says, which files are put forward for review, and how a
//! path-classification filter is reported.
use vstd::prelude::*;
use vstd::string::*;
use crate::json::{JsonSpec, JsonValue, js, jbool, jusize, jobj, jstr_one, lemma_put_same_field, lemma_put_other_field};
use crate::json::views;
use crate::review_candidates::{CandidateFreshness, ReviewCandidateContext, build_review_candidate, review_candidate_json};
use crate::text::{cat3, str_eq, text_views};

verus! {

/// The counts every workspace observation of the stats guidance ends with.
pub open spec fn observed_counts(total: nat, accessed: nat, unused: nat) -> Seq<(Seq<char>, JsonSpec)> {
    seq![
        ("total_files"@, JsonSpec::Num(total as int)),
        ("accessed_files"@, JsonSpec::Num(accessed as int)),
        ("unused_files"@, JsonSpec::Num(unused as int)),
    ]
}

/// The workspace observation of the stats guidance: not ready without a
/// snapshot, short of activity without accesses, ready otherwise; a ready
/// observation with ranked files also asks for monitoring to stay fresh.
pub open spec fn stats_observation_spec(total: nat, accessed: nat, unused: nat, has_entries: bool) -> JsonSpec {
    let head = seq![("status"@, JsonSpec::Str("available"@))];
    JsonSpec::Obj(
        if total == 0 {
            head + seq![
                ("analysis_state"@, JsonSpec::Str("not_ready"@)),
                ("snapshot_available"@, JsonSpec::Bool(false)),
                ("activity_available"@, JsonSpec::Bool(false)),
            ] + observed_counts(total, accessed, unused)
        } else if accessed == 0 {
            head + seq![
                ("analysis_state"@, JsonSpec::Str("insufficient_activity"@)),
                ("snapshot_available"@, JsonSpec::Bool(true)),
                ("activity_available"@, JsonSpec::Bool(false)),
            ] + observed_counts(total, accessed, unused)
        } else if has_entries {
            head + seq![
                ("analysis_state"@, JsonSpec::Str("ready"@)),
                ("snapshot_available"@, JsonSpec::Bool(true)),
                ("monitoring_required_for_freshness"@, JsonSpec::Bool(true)),
                ("activity_available"@, JsonSpec::Bool(accessed > 0)),
            ] + observed_counts(total, accessed, unused)
        } else {
            head + seq![
                ("analysis_state"@, JsonSpec::Str("ready"@)),
                ("snapshot_available"@, JsonSpec::Bool(true)),
                ("activity_available"@, JsonSpec::Bool(accessed > 0)),
            ] + observed_counts(total, accessed, unused)
        },
    )
}

/// The workspace observation of the stats guidance for a project with
/// `total_files` recorded files, `accessed_files` of them accessed and
/// `unused_files` never accessed; `has_entries` tells whether any file
/// was ranked by activity.
pub fn stats_workspace_observation(
    total_files: usize,
    accessed_files: usize,
    unused_files: usize,
    has_entries: bool,
) -> (r: JsonValue)
    ensures
        r@ == stats_observation_spec(total_files as nat, accessed_files as nat, unused_files as nat, has_entries),
{
    let r = if total_files == 0 {
        jobj(vec![
            ("status", js("available")),
            ("analysis_state", js("not_ready")),
            ("snapshot_available", jbool(false)),
            ("activity_available", jbool(false)),
            ("total_files", jusize(total_files)),
            ("accessed_files", jusize(accessed_files)),
            ("unused_files", jusize(unused_files)),
        ])
    } else if accessed_files == 0 {
        jobj(vec![
            ("status", js("available")),
            ("analysis_state", js("insufficient_activity")),
            ("snapshot_available", jbool(true)),
            ("activity_available", jbool(false)),
            ("total_files", jusize(total_files)),
            ("accessed_files", jusize(accessed_files)),
            ("unused_files", jusize(unused_files)),
        ])
    } else if has_entries {
        jobj(vec![
            ("status", js("available")),
            ("analysis_state", js("ready")),
            ("snapshot_available", jbool(true)),
            ("monitoring_required_for_freshness", jbool(true)),
            ("activity_available", jbool(accessed_files > 0)),
            ("total_files", jusize(total_files)),
            ("accessed_files", jusize(accessed_files)),
            ("unused_files", jusize(unused_files)),
        ])
    } else {
        jobj(vec![
            ("status", js("available")),
            ("analysis_state", js("ready")),
            ("snapshot_available", jbool(true)),
            ("activity_available", jbool(accessed_files > 0)),
            ("total_files", jusize(total_files)),
            ("accessed_files", jusize(accessed_files)),
            ("unused_files", jusize(unused_files)),
        ])
    };
    assert(r@->Obj_0 =~= stats_observation_spec(
        total_files as nat,
        accessed_files as nat,
        unused_files as nat,
        has_entries,
    )->Obj_0);
    r
}

/// The workspace observation of the unused-file guidance: with no unused
/// file, only that count; otherwise also how many of them are source,
/// infrastructure and backup files.
pub open spec fn unused_observation_spec(unused: nat, source: nat, infrastructure: nat, backup: nat) -> JsonSpec {
    let head = seq![
        ("status"@, JsonSpec::Str("available"@)),
        ("analysis_state"@, JsonSpec::Str("ready"@)),
        ("snapshot_available"@, JsonSpec::Bool(true)),
        ("activity_available"@, JsonSpec::Bool(true)),
        ("unused_candidates"@, JsonSpec::Num(unused as int)),
    ];
    JsonSpec::Obj(
        if unused == 0 {
            head
        } else {
            head + seq![
                ("source_candidates"@, JsonSpec::Num(source as int)),
                ("infrastructure_candidates"@, JsonSpec::Num(infrastructure as int)),
                ("backup_candidates"@, JsonSpec::Num(backup as int)),
            ]
        },
    )
}

/// The workspace observation of the unused-file guidance.
pub fn unused_workspace_observation(
    unused_candidates: usize,
    source_candidates: usize,
    infrastructure_candidates: usize,
    backup_candidates: usize,
) -> (r: JsonValue)
    ensures
        r@ == unused_observation_spec(
            unused_candidates as nat,
            source_candidates as nat,
            infrastructure_candidates as nat,
            backup_candidates as nat,
        ),
{
    let r = if unused_candidates == 0 {
        jobj(vec![
            ("status", js("available")),
            ("analysis_state", js("ready")),
            ("snapshot_available", jbool(true)),
            ("activity_available", jbool(true)),
            ("unused_candidates", jusize(0)),
        ])
    } else {
        jobj(vec![
            ("status", js("available")),
            ("analysis_state", js("ready")),
            ("snapshot_available", jbool(true)),
            ("activity_available", jbool(true)),
            ("unused_candidates", jusize(unused_candidates)),
            ("source_candidates", jusize(source_candidates)),
            ("infrastructure_candidates", jusize(infrastructure_candidates)),
            ("backup_candidates", jusize(backup_candidates)),
        ])
    };
    assert(r@->Obj_0 =~= unused_observation_spec(
        unused_candidates as nat,
        source_candidates as nat,
        infrastructure_candidates as nat,
        backup_candidates as nat,
    )->Obj_0);
    r
}

/// How many of the first `n` classifications are `name`.
pub open spec fn count_named(classes: Seq<Seq<char>>, name: Seq<char>, n: nat) -> nat
    decreases n,
{
    if n == 0 {
        0
    } else {
        count_named(classes, name, (n - 1) as nat) + if classes[n - 1] == name {
            1nat
        } else {
            0nat
        }
    }
}

/// How many files have the classification `classification`, given the
/// classification of each file.
pub fn count_classification(classifications: &Vec<String>, classification: &str) -> (r: usize)
    ensures
        r == count_named(crate::text::text_views(classifications@), classification@, classifications@.len()),
{
    let ghost cs = crate::text::text_views(classifications@);
    let mut count: usize = 0;
    let mut i: usize = 0;
    while i < classifications.len()
        invariant
            i <= classifications@.len(),
            cs == crate::text::text_views(classifications@),
            count == count_named(cs, classification@, i as nat),
            count <= i,
        decreases classifications@.len() - i,
    {
        if str_eq(classifications[i].as_str(), classification) {
            count = count + 1;
        }
        i = i + 1;
    }
    count
}

/// The note that explains an empty filtered result.
pub open spec fn filter_note() -> Seq<char> {
    "selected path_classification filter returned no rows; this does not mean the project has no files or no unused candidates"@
}

/// `guidance["layers"][layer][key] = v`, each missing level made anew.
pub open spec fn put_layer_field(g: JsonSpec, layer: Seq<char>, key: Seq<char>, v: JsonSpec) -> JsonSpec {
    let layers = g.field("layers"@);
    g.put("layers"@, layers.put(layer, layers.field(layer).put(key, v)))
}

/// `guidance["layers"][layer]` can be written: each level is an object or
/// missing.
pub open spec fn layer_settable(g: JsonSpec, layer: Seq<char>) -> bool {
    &&& (g is Obj || g is Null)
    &&& (g.field("layers"@) is Obj || g.field("layers"@) is Null)
    &&& (g.field("layers"@).field(layer) is Obj || g.field("layers"@).field(layer) is Null)
}

/// A filter other than "all" is named in the workspace observation; when it
/// left no rows, a note says that this is no evidence of an empty project,
/// in the observation and as the only inference of the evidence layer.
pub open spec fn path_filter_spec(g: JsonSpec, filter: Option<Seq<char>>, filtered_rows: nat) -> JsonSpec {
    match filter {
        None => g,
        Some(name) => {
            let g1 = put_layer_field(g, "workspace_observation"@, "path_classification_filter"@, JsonSpec::Str(name));
            if filtered_rows == 0 {
                let g2 = put_layer_field(g1, "workspace_observation"@, "filter_note"@, JsonSpec::Str(filter_note()));
                put_layer_field(g2, "verification_evidence"@, "inferences"@, JsonSpec::Arr(seq![JsonSpec::Str(filter_note())]))
            } else {
                g1
            }
        },
    }
}

/// Writes `guidance["layers"][layer][key] = v`.
fn set_layer_field(guidance: &mut JsonValue, layer: &str, key: &str, v: JsonValue)
    requires
        layer_settable(old(guidance)@, layer@),
    ensures
        final(guidance)@ == put_layer_field(old(guidance)@, layer@, key@, v@),
{
    let mut layers = guidance.field("layers");
    let mut inner = layers.field(layer);
    inner.put(key, v);
    layers.put(layer, inner);
    guidance.put("layers", layers);
}

/// Reports a path-classification filter in the guidance; `filter` is
/// `None` for the filter that keeps every path, else the filter's name,
/// and `filtered_rows` is how many rows it kept.
pub fn apply_path_filter_observation(guidance: &mut JsonValue, filter: Option<&str>, filtered_rows: usize)
    requires
        filter is Some ==> layer_settable(old(guidance)@, "workspace_observation"@),
        filter is Some && filtered_rows == 0 ==> layer_settable(old(guidance)@, "verification_evidence"@),
    ensures
        final(guidance)@ == path_filter_spec(
            old(guidance)@,
            match filter {
                Some(f) => Some(f@),
                None => None,
            },
            filtered_rows as nat,
        ),
{
    let name = match filter {
        None => return,
        Some(name) => name,
    };
    proof {
        reveal_strlit("layers");
        reveal_strlit("workspace_observation");
        reveal_strlit("verification_evidence");
        assert("workspace_observation"@[0] != "verification_evidence"@[0]);
    }
    let ghost g0 = guidance@;
    set_layer_field(guidance, "workspace_observation", "path_classification_filter", js(name));
    if filtered_rows == 0 {
        let ghost g1 = guidance@;
        proof {
            let l0 = g0.field("layers"@);
            let w1 = l0.field("workspace_observation"@).put("path_classification_filter"@, JsonSpec::Str(name@));
            lemma_put_same_field(g0, "layers"@, l0.put("workspace_observation"@, w1));
            lemma_put_same_field(l0, "workspace_observation"@, w1);
            lemma_put_other_field(l0, "workspace_observation"@, w1, "verification_evidence"@);
        }
        let note = "selected path_classification filter returned no rows; this does not mean the project has no files or no unused candidates";
        proof {
            reveal_strlit("selected path_classification filter returned no rows; this does not mean the project has no files or no unused candidates");
        }
        set_layer_field(guidance, "workspace_observation", "filter_note", js(note));
        proof {
            let l1 = g1.field("layers"@);
            let w2 = l1.field("workspace_observation"@).put("filter_note"@, JsonSpec::Str(note@));
            lemma_put_same_field(g1, "layers"@, l1.put("workspace_observation"@, w2));
            lemma_put_other_field(l1, "workspace_observation"@, w2, "verification_evidence"@);
        }
        let inferences = jstr_one(note);
        assert(inferences@ == JsonSpec::Arr(seq![JsonSpec::Str(filter_note())])) by {
            assert(inferences@->Arr_0 =~= seq![JsonSpec::Str(filter_note())]);
        }
        set_layer_field(guidance, "verification_evidence", "inferences", inferences);
    }
}

/// A file of the snapshot with the number of accesses observed.
#[derive(Debug)]
pub struct FileActivity {
    pub file_path: String,
    pub access_count: i64,
}

/// The shell search for a file's path.
pub open spec fn search_command(path: Seq<char>) -> Seq<char> {
    "rg \""@ + path + "\" ."@
}

/// The first file, from index `i` on, that was never accessed.
pub open spec fn first_unaccessed_from(es: Seq<FileActivity>, i: int) -> Option<int>
    decreases es.len() - i,
{
    if i < 0 || i >= es.len() {
        None
    } else if es[i].access_count == 0 {
        Some(i)
    } else {
        first_unaccessed_from(es, i + 1)
    }
}

/// The files the stats guidance puts forward, hottest first: the hottest
/// file as the primary candidate and, when there is one, the first file
/// never accessed as the secondary one.
pub open spec fn stats_candidates_spec(
    es: Seq<FileActivity>,
    command: Seq<char>,
    mock: JsonSpec,
    freshness: CandidateFreshness,
    repo: JsonSpec,
) -> Seq<JsonSpec> {
    if es.len() == 0 {
        seq![]
    } else {
        let hot = es[0].file_path@;
        seq![review_candidate_json(
            "hot_file"@,
            hot,
            "primary"@,
            "This file currently has the highest observed access activity."@,
            seq![search_command(hot), "git diff"@, command],
            mock,
            freshness,
            repo,
        )] + match first_unaccessed_from(es, 0) {
            Some(i) => seq![review_candidate_json(
                "unused_candidate"@,
                es[i].file_path@,
                "secondary"@,
                "This file appears in the snapshot but has no recorded accesses yet."@,
                seq![search_command(es[i].file_path@), "git grep <symbol>"@, command],
                mock,
                freshness,
                repo,
            )],
            None => seq![],
        }
    }
}

/// The review candidates of the stats guidance, from the files ranked by
/// activity (hottest first) and the project's main command.
pub fn stats_file_recommendations(
    entries: &Vec<FileActivity>,
    project_command: &str,
    context: ReviewCandidateContext<'_>,
) -> (r: Vec<JsonValue>)
    ensures
        views(r@) == stats_candidates_spec(
            entries@,
            project_command@,
            context.mock_summary@,
            context.freshness,
            context.repo_risk@,
        ),
{
    proof {
        reveal_strlit("rg \"");
        reveal_strlit("\" .");
    }
    let mut r: Vec<JsonValue> = Vec::new();
    if entries.len() == 0 {
        assert(views(r@) =~= seq![]);
        return r;
    }
    let hot = entries[0].file_path.as_str();
    let commands = vec![cat3("rg \"", hot, "\" ."), String::from_str("git diff"), String::from_str(project_command)];
    assert(text_views(commands@) =~= seq![search_command(hot@), "git diff"@, project_command@]);
    r.push(build_review_candidate(
        "hot_file",
        hot,
        "primary",
        "This file currently has the highest observed access activity.",
        commands,
        context,
    ));
    let mut i: usize = 0;
    while i < entries.len()
        invariant
            i <= entries@.len(),
            first_unaccessed_from(entries@, 0) == first_unaccessed_from(entries@, i as int),
        ensures
            i <= entries@.len(),
            first_unaccessed_from(entries@, 0) == first_unaccessed_from(entries@, i as int),
            i < entries@.len() ==> entries@[i as int].access_count == 0,
        decreases entries@.len() - i,
    {
        if entries[i].access_count == 0 {
            break;
        }
        i = i + 1;
    }
    assert(first_unaccessed_from(entries@, i as int) == if i < entries@.len() {
        Some(i as int)
    } else {
        None::<int>
    });
    if i < entries.len() {
        let path = entries[i].file_path.as_str();
        let commands = vec![cat3("rg \"", path, "\" ."), String::from_str("git grep <symbol>"), String::from_str(project_command)];
        assert(text_views(commands@) =~= seq![search_command(path@), "git grep <symbol>"@, project_command@]);
        r.push(build_review_candidate(
            "unused_candidate",
            path,
            "secondary",
            "This file appears in the snapshot but has no recorded accesses yet.",
            commands,
            context,
        ));
    }
    assert(views(r@) =~= stats_candidates_spec(
        entries@,
        project_command@,
        context.mock_summary@,
        context.freshness,
        context.repo_risk@,
    ));
    r
}

/// The paths among the first `n` files whose flag is `want`, in order.
pub open spec fn paths_where(es: Seq<FileActivity>, flags: Seq<bool>, want: bool, n: nat) -> Seq<Seq<char>>
    decreases n,
{
    if n == 0 {
        seq![]
    } else {
        paths_where(es, flags, want, (n - 1) as nat) + if flags[n - 1] == want {
            seq![es[n - 1].file_path@]
        } else {
            seq![]
        }
    }
}

/// Unused files in review order: source files first, then the others,
/// each group in the order given.
pub open spec fn unused_review_order(es: Seq<FileActivity>, is_source: Seq<bool>) -> Seq<Seq<char>> {
    paths_where(es, is_source, true, es.len()) + paths_where(es, is_source, false, es.len())
}

/// The candidate for the unused file at place `idx` of the review order.
pub open spec fn unused_candidate_json(
    path: Seq<char>,
    idx: int,
    command: Seq<char>,
    mock: JsonSpec,
    freshness: CandidateFreshness,
    repo: JsonSpec,
) -> JsonSpec {
    review_candidate_json(
        "unused_candidate"@,
        path,
        if idx == 0 {
            "primary"@
        } else {
            "secondary"@
        },
        "This file has not been observed as accessed in the current snapshot window."@,
        seq![search_command(path), "git grep <symbol>"@, command],
        mock,
        freshness,
        repo,
    )
}

/// The first three unused files in review order, the first of them the
/// primary candidate.
pub open spec fn unused_candidates_spec(
    es: Seq<FileActivity>,
    is_source: Seq<bool>,
    command: Seq<char>,
    mock: JsonSpec,
    freshness: CandidateFreshness,
    repo: JsonSpec,
) -> Seq<JsonSpec> {
    let order = unused_review_order(es, is_source);
    let n = if order.len() < 3 {
        order.len()
    } else {
        3
    };
    Seq::new(n, |i: int| unused_candidate_json(order[i], i, command, mock, freshness, repo))
}

/// The review candidates of the unused-file guidance; `is_source` tells,
/// for each unused file, whether it is a source file.
pub fn unused_file_recommendations(
    entries: &Vec<FileActivity>,
    is_source: &Vec<bool>,
    project_command: &str,
    context: ReviewCandidateContext<'_>,
) -> (r: Vec<JsonValue>)
    requires
        is_source@.len() == entries@.len(),
    ensures
        views(r@) == unused_candidates_spec(
            entries@,
            is_source@,
            project_command@,
            context.mock_summary@,
            context.freshness,
            context.repo_risk@,
        ),
{
    proof {
        reveal_strlit("rg \"");
        reveal_strlit("\" .");
    }
    let ghost es = entries@;
    let ghost fs = is_source@;
    let mut order: Vec<String> = Vec::new();
    let mut i: usize = 0;
    while i < entries.len()
        invariant
            i <= es.len(),
            es == entries@,
            fs == is_source@,
            fs.len() == es.len(),
            text_views(order@) == paths_where(es, fs, true, i as nat),
            order@.len() <= i,
        decreases es.len() - i,
    {
        if is_source[i] {
            let ghost before = order@;
            order.push(String::from_str(entries[i].file_path.as_str()));
            assert(text_views(order@) =~= text_views(before).push(es[i as int].file_path@));
        }
        assert(paths_where(es, fs, true, (i + 1) as nat) =~= paths_where(es, fs, true, i as nat) + if fs[i as int] == true {
            seq![es[i as int].file_path@]
        } else {
            seq![]
        });
        i = i + 1;
    }
    let n = order.len();
    let mut k: usize = 0;
    while k < entries.len()
        invariant
            k <= es.len(),
            es == entries@,
            fs == is_source@,
            fs.len() == es.len(),
            n <= es.len(),
            text_views(order@) == paths_where(es, fs, true, es.len()) + paths_where(es, fs, false, k as nat),
            order@.len() <= n + k,
        decreases es.len() - k,
    {
        if !is_source[k] {
            let ghost before = order@;
            order.push(String::from_str(entries[k].file_path.as_str()));
            assert(text_views(order@) =~= text_views(before).push(es[k as int].file_path@));
        }
        assert(paths_where(es, fs, false, (k + 1) as nat) =~= paths_where(es, fs, false, k as nat) + if fs[k as int] == false {
            seq![es[k as int].file_path@]
        } else {
            seq![]
        });
        k = k + 1;
    }
    let ghost ord = unused_review_order(es, fs);
    assert(text_views(order@) == ord);
    let count: usize = if order.len() < 3 {
        order.len()
    } else {
        3
    };
    let mut r: Vec<JsonValue> = Vec::new();
    let mut j: usize = 0;
    while j < count
        invariant
            j <= count,
            count <= order@.len(),
            count == (if ord.len() < 3 { ord.len() } else { 3 }),
            text_views(order@) == ord,
            r@.len() == j,
            forall|m: int| 0 <= m < j ==> (#[trigger] r@[m])@ == unused_candidate_json(
                ord[m],
                m,
                project_command@,
                context.mock_summary@,
                context.freshness,
                context.repo_risk@,
            ),
        decreases count - j,
    {
        let path = order[j].as_str();
        assert(path@ == ord[j as int]);
        let priority = if j == 0 {
            "primary"
        } else {
            "secondary"
        };
        proof {
            reveal_strlit("primary");
            reveal_strlit("secondary");
        }
        let commands = vec![cat3("rg \"", path, "\" ."), String::from_str("git grep <symbol>"), String::from_str(project_command)];
        assert(text_views(commands@) =~= seq![search_command(path@), "git grep <symbol>"@, project_command@]);
        let candidate = build_review_candidate(
            "unused_candidate",
            path,
            priority,
            "This file has not been observed as accessed in the current snapshot window.",
            commands,
            context,
        );
        r.push(candidate);
        j = j + 1;
    }
    assert(views(r@) =~= unused_candidates_spec(
        es,
        fs,
        project_command@,
        context.mock_summary@,
        context.freshness,
        context.repo_risk@,
    ));
    r
}

} // verus!
