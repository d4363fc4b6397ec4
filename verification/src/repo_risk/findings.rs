//! Prioritized repository risk findings and the repository risk layer.
use vstd::prelude::*;
use vstd::string::*;
use crate::json::{
    JsonSpec, JsonValue, jarr, jbool, jempty_obj, jobj, js, jstring, jstrings, jusize, lookup, str_array, views,
};
use crate::lines::lex_less;
use crate::text::{cat, cat3, decimal, str_eq, text_views, usize_to_text};
use super::snapshot::{RepoRiskSnapshot, join, join_texts};

verus! {

/// Rank of a severity or confidence label: high 3, medium 2, low 1, else 0.
pub open spec fn level_rank(s: Seq<char>) -> int {
    if s == "high"@ {
        3
    } else if s == "medium"@ {
        2
    } else if s == "low"@ {
        1
    } else {
        0
    }
}

/// Rank of a priority label: immediate 4, high 3, medium 2, low 1, else 0.
pub open spec fn priority_rank(s: Seq<char>) -> int {
    if s == "immediate"@ {
        4
    } else {
        level_rank(s)
    }
}

/// Severity rank used to order findings.
pub fn risk_severity_priority(score: &str) -> (r: i32)
    ensures
        r == level_rank(score@),
{
    if str_eq(score, "high") {
        3
    } else if str_eq(score, "medium") {
        2
    } else if str_eq(score, "low") {
        1
    } else {
        0
    }
}

/// Priority rank used to order findings.
pub fn risk_priority_rank(priority: &str) -> (r: i32)
    ensures
        r == priority_rank(priority@),
{
    if str_eq(priority, "immediate") {
        4
    } else if str_eq(priority, "high") {
        3
    } else if str_eq(priority, "medium") {
        2
    } else if str_eq(priority, "low") {
        1
    } else {
        0
    }
}

/// Confidence rank used to order findings.
pub fn confidence_priority(score: &str) -> (r: i32)
    ensures
        r == level_rank(score@),
{
    risk_severity_priority(score)
}

/// A finding object.
pub open spec fn finding_obj(
    kind: Seq<char>,
    severity: Seq<char>,
    priority: Seq<char>,
    summary: Seq<char>,
    evidence: Seq<char>,
    source: Seq<char>,
) -> JsonSpec {
    JsonSpec::Obj(
        seq![
            ("kind"@, JsonSpec::Str(kind)),
            ("severity"@, JsonSpec::Str(severity)),
            ("priority"@, JsonSpec::Str(priority)),
            ("confidence"@, JsonSpec::Str("high"@)),
            ("summary"@, JsonSpec::Str(summary)),
            ("evidence"@, str_array(seq![evidence])),
            ("source"@, JsonSpec::Str(source)),
        ],
    )
}

/// The summary of a dependency drift finding.
pub open spec fn anomaly_summary(kind: Seq<char>, dir: Seq<char>) -> Seq<char> {
    if kind == "manifest_without_lockfile_change"@ {
        "Manifest changed without corresponding lockfile change in "@ + dir + "."@
    } else if kind == "lockfile_without_manifest_change"@ {
        "Lockfile changed without corresponding manifest change in "@ + dir + "."@
    } else {
        "Dependency lockfile anomaly detected in "@ + dir + "."@
    }
}

/// The finding for one lockfile anomaly.
pub open spec fn anomaly_finding(anomaly: JsonSpec) -> JsonSpec {
    let kind = anomaly.field("kind"@).str_or("lockfile_anomaly"@);
    let dir = anomaly.field("directory"@).str_or("."@);
    JsonSpec::Obj(
        finding_obj(
            "dependency_lockfile_anomaly"@,
            "medium"@,
            "high"@,
            anomaly_summary(kind, dir),
            "git status flagged dependency file drift in "@ + dir + "."@,
            "git_status"@,
        )->Obj_0.push(("details"@, anomaly)),
    )
}

pub open spec fn conflicted_finding(conflicted: nat) -> JsonSpec {
    finding_obj(
        "conflicted_paths"@,
        "high"@,
        "immediate"@,
        decimal(conflicted) + " conflicted paths detected in the working tree."@,
        "git status reported "@ + decimal(conflicted) + " conflicted paths."@,
        "git_status"@,
    )
}

pub open spec fn operation_finding(ops: Seq<Seq<char>>) -> JsonSpec {
    finding_obj(
        "repository_operation_in_progress"@,
        "high"@,
        "immediate"@,
        "Repository is mid-operation: "@ + join(ops, ", "@) + "."@,
        "Git metadata indicates an in-progress operation: "@ + join(ops, ", "@) + "."@,
        "git_metadata"@,
    )
}

pub open spec fn large_diff_finding(changed: nat) -> JsonSpec {
    finding_obj(
        "large_working_diff"@,
        "medium"@,
        "high"@,
        "Large working diff detected ("@ + decimal(changed) + " changed files)."@,
        "git status reported "@ + decimal(changed) + " changed files."@,
        "git_status"@,
    )
}

pub open spec fn local_changes_finding(changed: nat) -> JsonSpec {
    finding_obj(
        "local_working_tree_changes"@,
        "low"@,
        "medium"@,
        "Repository has local changes ("@ + decimal(changed)
            + " changed files) without a higher-risk signal."@,
        "git status reported "@ + decimal(changed) + " changed files."@,
        "git_status"@,
    )
}

/// The findings of a snapshot, highest priority first: conflicts, an
/// operation in progress, dependency drift, a large diff; local changes only
/// when nothing else was found.
pub open spec fn findings_spec(
    changed: nat,
    conflicted: nat,
    ops: Seq<Seq<char>>,
    large_diff: bool,
    anomalies: Seq<JsonSpec>,
) -> Seq<JsonSpec> {
    let c = if conflicted > 0 {
        seq![conflicted_finding(conflicted)]
    } else {
        seq![]
    };
    let o = if ops.len() > 0 {
        seq![operation_finding(ops)]
    } else {
        seq![]
    };
    let a = anomalies.map_values(|x: JsonSpec| anomaly_finding(x));
    let l = if large_diff {
        seq![large_diff_finding(changed)]
    } else {
        seq![]
    };
    let found = c + o + a + l;
    if changed > 0 && found.len() == 0 {
        seq![local_changes_finding(changed)]
    } else {
        found
    }
}

/// The findings of a snapshot.
pub open spec fn snapshot_findings(s: RepoRiskSnapshot) -> Seq<JsonSpec> {
    findings_spec(
        s.changed_file_count as nat,
        s.conflicted_count as nat,
        text_views(s.operation_states@),
        s.large_diff,
        views(s.lockfile_anomalies@),
    )
}

/// `a` sorts strictly before `b`: higher priority, then higher severity,
/// then higher confidence, then kind in `String` order.
pub open spec fn finding_before(a: JsonSpec, b: JsonSpec) -> bool {
    let pa = priority_rank(a.field("priority"@).str_or(""@));
    let pb = priority_rank(b.field("priority"@).str_or(""@));
    let sa = level_rank(a.field("severity"@).str_or(""@));
    let sb = level_rank(b.field("severity"@).str_or(""@));
    let ca = level_rank(a.field("confidence"@).str_or(""@));
    let cb = level_rank(b.field("confidence"@).str_or(""@));
    let ka = a.field("kind"@).str_or(""@);
    let kb = b.field("kind"@).str_or(""@);
    pa > pb || (pa == pb && (sa > sb || (sa == sb && (ca > cb || (ca == cb && lex_less(ka, kb))))))
}

/// No finding sorts strictly before one that precedes it.
pub open spec fn findings_sorted(f: Seq<JsonSpec>) -> bool {
    forall|i: int, j: int| 0 <= i < j < f.len() ==> !finding_before(#[trigger] f[j], #[trigger] f[i])
}

/// The sort keys of a finding: priority, severity, confidence ranks and kind.
pub open spec fn finding_key(f: JsonSpec) -> (int, int, int, Seq<char>) {
    (
        priority_rank(f.field("priority"@).str_or(""@)),
        level_rank(f.field("severity"@).str_or(""@)),
        level_rank(f.field("confidence"@).str_or(""@)),
        f.field("kind"@).str_or(""@),
    )
}

proof fn lemma_finding_key(
    kind: Seq<char>,
    severity: Seq<char>,
    priority: Seq<char>,
    summary: Seq<char>,
    evidence: Seq<char>,
    source: Seq<char>,
)
    ensures
        finding_obj(kind, severity, priority, summary, evidence, source).field("kind"@) == JsonSpec::Str(kind),
        finding_obj(kind, severity, priority, summary, evidence, source).field("severity"@) == JsonSpec::Str(severity),
        finding_obj(kind, severity, priority, summary, evidence, source).field("priority"@) == JsonSpec::Str(priority),
        finding_obj(kind, severity, priority, summary, evidence, source).field("confidence"@) == JsonSpec::Str("high"@),
{
    reveal_strlit("kind");
    reveal_strlit("severity");
    reveal_strlit("priority");
    reveal_strlit("confidence");
    reveal_strlit("summary");
    reveal_strlit("evidence");
    reveal_strlit("source");
    assert("kind"@.len() == 4);
    assert("severity"@.len() == 8);
    assert("priority"@.len() == 8);
    assert("confidence"@.len() == 10);
    assert("summary"@.len() == 7);
    assert("evidence"@.len() == 8);
    assert("source"@.len() == 6);
    assert("severity"@[0] != "priority"@[0]);
    assert("severity"@[0] != "evidence"@[0]);
    assert("priority"@[0] != "evidence"@[0]);
    assert("severity"@ != "priority"@);
    assert("severity"@ != "evidence"@);
    assert("priority"@ != "evidence"@);
    let e = finding_obj(kind, severity, priority, summary, evidence, source)->Obj_0;
    reveal_with_fuel(lookup, 8);
    assert(e.drop_last().last().0 == "evidence"@);
    assert(e.drop_last().drop_last().last().0 == "summary"@);
    assert(e.drop_last().drop_last().drop_last().last().0 == "confidence"@);
    assert(e.drop_last().drop_last().drop_last().drop_last().last().0 == "priority"@);
    assert(e.drop_last().drop_last().drop_last().drop_last().drop_last().last().0 == "severity"@);
}

proof fn lemma_anomaly_finding_key(a: JsonSpec)
    ensures
        finding_key(anomaly_finding(a)) == (3int, 2int, 3int, "dependency_lockfile_anomaly"@),
{
    let d = a.field("directory"@).str_or("."@);
    let k = a.field("kind"@).str_or("lockfile_anomaly"@);
    let base = finding_obj(
        "dependency_lockfile_anomaly"@,
        "medium"@,
        "high"@,
        anomaly_summary(k, d),
        "git status flagged dependency file drift in "@ + d + "."@,
        "git_status"@,
    );
    lemma_finding_key(
        "dependency_lockfile_anomaly"@,
        "medium"@,
        "high"@,
        anomaly_summary(k, d),
        "git status flagged dependency file drift in "@ + d + "."@,
        "git_status"@,
    );
    reveal_strlit("details");
    reveal_strlit("kind");
    reveal_strlit("severity");
    reveal_strlit("priority");
    reveal_strlit("confidence");
    reveal_strlit("high");
    reveal_strlit("medium");
    reveal_strlit("immediate");
    let e = base->Obj_0.push(("details"@, a));
    assert(e.drop_last() =~= base->Obj_0);
    assert("details"@.len() == 7);
    assert("kind"@.len() == 4);
    assert("severity"@.len() == 8);
    assert("priority"@.len() == 8);
    assert("confidence"@.len() == 10);
    assert(lookup(e, "kind"@) == lookup(base->Obj_0, "kind"@));
    assert(lookup(e, "severity"@) == lookup(base->Obj_0, "severity"@));
    assert(lookup(e, "priority"@) == lookup(base->Obj_0, "priority"@));
    assert(lookup(e, "confidence"@) == lookup(base->Obj_0, "confidence"@));
    lemma_ranks();
}

proof fn lemma_ranks()
    ensures
        priority_rank("immediate"@) == 4,
        priority_rank("high"@) == 3,
        priority_rank("medium"@) == 2,
        level_rank("high"@) == 3,
        level_rank("medium"@) == 2,
        level_rank("low"@) == 1,
{
    reveal_strlit("immediate");
    reveal_strlit("high");
    reveal_strlit("medium");
    reveal_strlit("low");
    assert("high"@.len() == 4);
    assert("immediate"@.len() == 9);
    assert("medium"@.len() == 6);
    assert("low"@.len() == 3);
    assert("high"@ != "immediate"@);
    assert("medium"@ != "immediate"@);
    assert("medium"@ != "high"@);
    assert("low"@ != "high"@);
    assert("low"@ != "medium"@);
}

proof fn lemma_kind_order()
    ensures
        lex_less("conflicted_paths"@, "repository_operation_in_progress"@),
        lex_less("dependency_lockfile_anomaly"@, "large_working_diff"@),
{
    reveal_strlit("conflicted_paths");
    reveal_strlit("repository_operation_in_progress");
    reveal_strlit("dependency_lockfile_anomaly");
    reveal_strlit("large_working_diff");
}

/// The findings list that `findings_spec` builds is sorted.
pub proof fn lemma_findings_sorted(
    changed: nat,
    conflicted: nat,
    ops: Seq<Seq<char>>,
    large_diff: bool,
    anomalies: Seq<JsonSpec>,
)
    ensures
        findings_sorted(findings_spec(changed, conflicted, ops, large_diff, anomalies)),
{
    let f = findings_spec(changed, conflicted, ops, large_diff, anomalies);
    lemma_ranks();
    lemma_kind_order();
    lemma_finding_key("conflicted_paths"@, "high"@, "immediate"@,
        decimal(conflicted) + " conflicted paths detected in the working tree."@,
        "git status reported "@ + decimal(conflicted) + " conflicted paths."@, "git_status"@);
    lemma_finding_key("repository_operation_in_progress"@, "high"@, "immediate"@,
        "Repository is mid-operation: "@ + join(ops, ", "@) + "."@,
        "Git metadata indicates an in-progress operation: "@ + join(ops, ", "@) + "."@, "git_metadata"@);
    lemma_finding_key("large_working_diff"@, "medium"@, "high"@,
        "Large working diff detected ("@ + decimal(changed) + " changed files)."@,
        "git status reported "@ + decimal(changed) + " changed files."@, "git_status"@);
    let c: Seq<JsonSpec> = if conflicted > 0 { seq![conflicted_finding(conflicted)] } else { seq![] };
    let o: Seq<JsonSpec> = if ops.len() > 0 { seq![operation_finding(ops)] } else { seq![] };
    let a = anomalies.map_values(|x: JsonSpec| anomaly_finding(x));
    let l: Seq<JsonSpec> = if large_diff { seq![large_diff_finding(changed)] } else { seq![] };
    let found = c + o + a + l;
    assert forall|i: int| 0 <= i < a.len() implies finding_key(#[trigger] a[i]) == (3int, 2int, 3int, "dependency_lockfile_anomaly"@) by {
        lemma_anomaly_finding_key(anomalies[i]);
    }
    if changed > 0 && found.len() == 0 {
        assert(f.len() == 1);
    } else {
        assert(f == found);
        // Group index: 0 conflicts, 1 operation, 2 anomalies, 3 large diff.
        let co = c.len() + o.len();
        let coa = co + a.len();
        assert forall|i: int| 0 <= i < found.len() implies #[trigger] finding_key(found[i]) == (
            if i < c.len() {
                (4int, 3int, 3int, "conflicted_paths"@)
            } else if i < co {
                (4int, 3int, 3int, "repository_operation_in_progress"@)
            } else if i < coa {
                (3int, 2int, 3int, "dependency_lockfile_anomaly"@)
            } else {
                (3int, 2int, 3int, "large_working_diff"@)
            }
        ) by {
            if i < c.len() {
                assert(found[i] == c[i]);
            } else if i < co {
                assert(found[i] == o[i - c.len()]);
            } else if i < coa {
                assert(found[i] == a[i - co]);
            } else {
                assert(found[i] == l[i - coa]);
            }
        }
        assert forall|i: int, j: int| 0 <= i < j < found.len() implies !finding_before(#[trigger] found[j], #[trigger] found[i]) by {
            let ki = finding_key(found[i]);
            let kj = finding_key(found[j]);
            assert(c.len() <= 1 && o.len() <= 1 && l.len() <= 1);
            if i < c.len() && j < co {
                assert(lex_less(ki.3, kj.3));
                crate::lines::lemma_lex_asymmetric(ki.3, kj.3);
            } else if co <= i && i < coa && j < coa {
                crate::lines::lemma_lex_irreflexive(ki.3);
            } else if co <= i && i < coa && j >= coa {
                crate::lines::lemma_lex_asymmetric(ki.3, kj.3);
            }
        }
    }
}

/// The kind a finding names.
pub open spec fn finding_kind(f: JsonSpec) -> Seq<char> {
    f.field("kind"@).str_or(""@)
}

/// Some finding of `f` is of kind `kind`.
pub open spec fn has_kind(f: Seq<JsonSpec>, kind: Seq<char>) -> bool {
    exists|i: int| 0 <= i < f.len() && finding_kind(#[trigger] f[i]) == kind
}

/// Local working-tree changes are reported only when nothing of higher
/// risk is: such a finding appears exactly when there are changes but no
/// conflicts, no operation in progress, no dependency drift and no large
/// diff, and then it is the only finding. Each higher-risk finding appears
/// exactly when its own signal is there, and nothing else is added.
pub proof fn law_local_changes_only_alone(
    changed: nat,
    conflicted: nat,
    ops: Seq<Seq<char>>,
    large_diff: bool,
    anomalies: Seq<JsonSpec>,
)
    ensures ({
        let f = findings_spec(changed, conflicted, ops, large_diff, anomalies);
        let quiet = conflicted == 0 && ops.len() == 0 && anomalies.len() == 0 && !large_diff;
        &&& has_kind(f, "local_working_tree_changes"@) <==> (changed > 0 && quiet)
        &&& has_kind(f, "local_working_tree_changes"@) ==> f.len() == 1
        &&& has_kind(f, "conflicted_paths"@) <==> conflicted > 0
        &&& has_kind(f, "repository_operation_in_progress"@) <==> ops.len() > 0
        &&& has_kind(f, "dependency_lockfile_anomaly"@) <==> anomalies.len() > 0
        &&& has_kind(f, "large_working_diff"@) <==> large_diff
        &&& !quiet ==> f.len() == (if conflicted > 0 { 1int } else { 0int }) + (if ops.len() > 0 { 1int } else { 0int })
            + anomalies.len() + (if large_diff { 1int } else { 0int })
    }),
{
    let f = findings_spec(changed, conflicted, ops, large_diff, anomalies);
    reveal_strlit("local_working_tree_changes");
    reveal_strlit("conflicted_paths");
    reveal_strlit("repository_operation_in_progress");
    reveal_strlit("dependency_lockfile_anomaly");
    reveal_strlit("large_working_diff");
    let k_local = "local_working_tree_changes"@;
    let k_conf = "conflicted_paths"@;
    let k_op = "repository_operation_in_progress"@;
    let k_anom = "dependency_lockfile_anomaly"@;
    let k_large = "large_working_diff"@;
    assert(k_local.len() == 26 && k_conf.len() == 16 && k_op.len() == 32 && k_anom.len() == 27 && k_large.len() == 18);
    lemma_finding_key("conflicted_paths"@, "high"@, "immediate"@,
        decimal(conflicted) + " conflicted paths detected in the working tree."@,
        "git status reported "@ + decimal(conflicted) + " conflicted paths."@, "git_status"@);
    lemma_finding_key("repository_operation_in_progress"@, "high"@, "immediate"@,
        "Repository is mid-operation: "@ + join(ops, ", "@) + "."@,
        "Git metadata indicates an in-progress operation: "@ + join(ops, ", "@) + "."@, "git_metadata"@);
    lemma_finding_key("large_working_diff"@, "medium"@, "high"@,
        "Large working diff detected ("@ + decimal(changed) + " changed files)."@,
        "git status reported "@ + decimal(changed) + " changed files."@, "git_status"@);
    lemma_finding_key("local_working_tree_changes"@, "low"@, "medium"@,
        "Repository has local changes ("@ + decimal(changed) + " changed files) without a higher-risk signal."@,
        "git status reported "@ + decimal(changed) + " changed files."@, "git_status"@);
    let c: Seq<JsonSpec> = if conflicted > 0 { seq![conflicted_finding(conflicted)] } else { seq![] };
    let o: Seq<JsonSpec> = if ops.len() > 0 { seq![operation_finding(ops)] } else { seq![] };
    let a = anomalies.map_values(|x: JsonSpec| anomaly_finding(x));
    let l: Seq<JsonSpec> = if large_diff { seq![large_diff_finding(changed)] } else { seq![] };
    let found = c + o + a + l;
    let co = c.len() + o.len();
    let coa = co + a.len();
    assert forall|i: int| 0 <= i < found.len() implies #[trigger] finding_kind(found[i]) == (
        if i < c.len() {
            k_conf
        } else if i < co {
            k_op
        } else if i < coa {
            k_anom
        } else {
            k_large
        }
    ) by {
        if i < c.len() {
            assert(found[i] == c[i]);
        } else if i < co {
            assert(found[i] == o[i - c.len()]);
        } else if i < coa {
            assert(found[i] == a[i - co]);
            lemma_anomaly_finding_key(anomalies[i - co]);
        } else {
            assert(found[i] == l[i - coa]);
        }
    }
    let quiet = conflicted == 0 && ops.len() == 0 && anomalies.len() == 0 && !large_diff;
    assert(found.len() == 0 <==> quiet);
    if changed > 0 && quiet {
        assert(f =~= seq![local_changes_finding(changed)]);
        assert(finding_kind(f[0]) == k_local);
        assert(!has_kind(f, k_conf));
        assert(!has_kind(f, k_op));
        assert(!has_kind(f, k_anom));
        assert(!has_kind(f, k_large));
    } else {
        assert(f == found);
        assert(!has_kind(f, k_local));
        if conflicted > 0 {
            assert(finding_kind(f[0]) == k_conf);
        }
        if ops.len() > 0 {
            assert(finding_kind(f[c.len() as int]) == k_op);
        }
        if anomalies.len() > 0 {
            assert(finding_kind(f[co as int]) == k_anom);
        }
        if large_diff {
            assert(finding_kind(f[coa as int]) == k_large);
        }
        if has_kind(f, k_conf) {
            let i = choose|i: int| 0 <= i < f.len() && finding_kind(#[trigger] f[i]) == k_conf;
            assert(i < c.len());
        }
        if has_kind(f, k_op) {
            let i = choose|i: int| 0 <= i < f.len() && finding_kind(#[trigger] f[i]) == k_op;
            assert(c.len() <= i < co);
        }
        if has_kind(f, k_anom) {
            let i = choose|i: int| 0 <= i < f.len() && finding_kind(#[trigger] f[i]) == k_anom;
            assert(co <= i < coa);
        }
        if has_kind(f, k_large) {
            let i = choose|i: int| 0 <= i < f.len() && finding_kind(#[trigger] f[i]) == k_large;
            assert(coa <= i);
        }
    }
}

fn finding_json(
    kind: &str,
    severity: &str,
    priority: &str,
    summary: String,
    evidence: String,
    source: &str,
) -> (r: JsonValue)
    ensures
        r@ == finding_obj(kind@, severity@, priority@, summary@, evidence@, source@),
{
    let ghost ev = evidence@;
    let evs = vec![evidence];
    assert(evs@.map_values(|s: String| s@) =~= seq![ev]);
    let r = jobj(
        vec![
            ("kind", js(kind)),
            ("severity", js(severity)),
            ("priority", js(priority)),
            ("confidence", js("high")),
            ("summary", jstring(summary)),
            ("evidence", jstrings(evs)),
            ("source", js(source)),
        ],
    );
    assert(seq![ev].map_values(|s: Seq<char>| JsonSpec::Str(s)) =~= seq![JsonSpec::Str(ev)]);
    assert(r@->Obj_0 =~= finding_obj(kind@, severity@, priority@, summary@, ev, source@)->Obj_0);
    r
}

fn anomaly_finding_json(anomaly: &JsonValue) -> (r: JsonValue)
    ensures
        r@ == anomaly_finding(anomaly@),
{
    let kind: &str = match anomaly.get_str("kind") {
        Some(k) => k,
        None => "lockfile_anomaly",
    };
    let dir: &str = match anomaly.get_str("directory") {
        Some(d) => d,
        None => ".",
    };
    let summary = if str_eq(kind, "manifest_without_lockfile_change") {
        cat3("Manifest changed without corresponding lockfile change in ", dir, ".")
    } else if str_eq(kind, "lockfile_without_manifest_change") {
        cat3("Lockfile changed without corresponding manifest change in ", dir, ".")
    } else {
        cat3("Dependency lockfile anomaly detected in ", dir, ".")
    };
    let evidence = cat3("git status flagged dependency file drift in ", dir, ".");
    let mut r = finding_json("dependency_lockfile_anomaly", "medium", "high", summary, evidence, "git_status");
    r.set("details", anomaly.dup());
    r
}

/// The risk findings of a snapshot, highest priority first.
pub fn repo_risk_findings(snapshot: &RepoRiskSnapshot) -> (r: Vec<JsonValue>)
    ensures
        views(r@) == snapshot_findings(*snapshot),
        findings_sorted(views(r@)),
{
    let mut findings: Vec<JsonValue> = Vec::new();
    let n = snapshot.changed_file_count;
    let ghost conflicted = snapshot.conflicted_count as nat;
    let ghost ops = text_views(snapshot.operation_states@);
    let ghost c: Seq<JsonSpec> = if conflicted > 0 { seq![conflicted_finding(conflicted)] } else { seq![] };
    let ghost o: Seq<JsonSpec> = if ops.len() > 0 { seq![operation_finding(ops)] } else { seq![] };
    let ghost a = views(snapshot.lockfile_anomalies@).map_values(|x: JsonSpec| anomaly_finding(x));
    let ghost l: Seq<JsonSpec> = if snapshot.large_diff { seq![large_diff_finding(n as nat)] } else { seq![] };
    if snapshot.conflicted_count > 0 {
        let c = usize_to_text(snapshot.conflicted_count);
        findings.push(
            finding_json(
                "conflicted_paths",
                "high",
                "immediate",
                cat(c.as_str(), " conflicted paths detected in the working tree."),
                cat3("git status reported ", c.as_str(), " conflicted paths."),
                "git_status",
            ),
        );
    }
    if snapshot.operation_states.len() > 0 {
        let joined = join_texts(&snapshot.operation_states, ", ");
        findings.push(
            finding_json(
                "repository_operation_in_progress",
                "high",
                "immediate",
                cat3("Repository is mid-operation: ", joined.as_str(), "."),
                cat3("Git metadata indicates an in-progress operation: ", joined.as_str(), "."),
                "git_metadata",
            ),
        );
    }
    assert(views(findings@) =~= c + o);
    let ghost base = views(findings@);
    let mut i: usize = 0;
    while i < snapshot.lockfile_anomalies.len()
        invariant
            i <= snapshot.lockfile_anomalies@.len(),
            views(findings@) == base + views(snapshot.lockfile_anomalies@).subrange(0, i as int).map_values(
                |x: JsonSpec| anomaly_finding(x),
            ),
        decreases snapshot.lockfile_anomalies@.len() - i,
    {
        let ghost before = views(findings@);
        findings.push(anomaly_finding_json(&snapshot.lockfile_anomalies[i]));
        proof {
            let av = views(snapshot.lockfile_anomalies@);
            assert(av.subrange(0, i + 1).map_values(|x: JsonSpec| anomaly_finding(x)) =~= av.subrange(
                0,
                i as int,
            ).map_values(|x: JsonSpec| anomaly_finding(x)).push(anomaly_finding(av[i as int])));
            assert(views(findings@) =~= before.push(anomaly_finding(av[i as int])));
        }
        i = i + 1;
    }
    assert(views(snapshot.lockfile_anomalies@).subrange(0, i as int) =~= views(snapshot.lockfile_anomalies@));
    assert(views(findings@) =~= c + o + a);
    if snapshot.large_diff {
        let c = usize_to_text(n);
        findings.push(
            finding_json(
                "large_working_diff",
                "medium",
                "high",
                cat3("Large working diff detected (", c.as_str(), " changed files)."),
                cat3("git status reported ", c.as_str(), " changed files."),
                "git_status",
            ),
        );
    }
    assert(views(findings@) =~= c + o + a + l);
    if n > 0 && findings.len() == 0 {
        let c = usize_to_text(n);
        findings.push(
            finding_json(
                "local_working_tree_changes",
                "low",
                "medium",
                cat3("Repository has local changes (", c.as_str(), " changed files) without a higher-risk signal."),
                cat3("git status reported ", c.as_str(), " changed files."),
                "git_status",
            ),
        );
    }
    proof {
        lemma_findings_sorted(
            n as nat,
            snapshot.conflicted_count as nat,
            text_views(snapshot.operation_states@),
            snapshot.large_diff,
            views(snapshot.lockfile_anomalies@),
        );
    }
    assert(views(findings@) =~= snapshot_findings(*snapshot));
    findings
}

/// Number of findings whose severity is the string `sev`.
pub open spec fn severity_count(f: Seq<JsonSpec>, sev: Seq<char>) -> nat
    decreases f.len(),
{
    if f.len() == 0 {
        0
    } else {
        severity_count(f.drop_last(), sev) + if f.last().field("severity"@) == JsonSpec::Str(sev) {
            1nat
        } else {
            0nat
        }
    }
}

/// Totals of a list of findings by severity.
pub open spec fn finding_counts_spec(f: Seq<JsonSpec>) -> JsonSpec {
    JsonSpec::Obj(
        seq![
            ("total"@, JsonSpec::Num(f.len() as int)),
            ("high"@, JsonSpec::Num(severity_count(f, "high"@) as int)),
            ("medium"@, JsonSpec::Num(severity_count(f, "medium"@) as int)),
            ("low"@, JsonSpec::Num(severity_count(f, "low"@) as int)),
        ],
    )
}

fn count_severity(findings: &Vec<JsonValue>, sev: &str) -> (r: usize)
    ensures
        r == severity_count(views(findings@), sev@),
{
    let ghost fv = views(findings@);
    let mut count: usize = 0;
    let mut i: usize = 0;
    while i < findings.len()
        invariant
            i <= findings@.len(),
            fv == views(findings@),
            count <= i,
            count == severity_count(fv.subrange(0, i as int), sev@),
        decreases findings@.len() - i,
    {
        proof {
            assert(fv.subrange(0, i + 1).drop_last() =~= fv.subrange(0, i as int));
            assert(fv.subrange(0, i + 1).last() == findings@[i as int]@);
        }
        let hit = match findings[i].get_str("severity") {
            Some(s) => str_eq(s, sev),
            None => false,
        };
        if hit {
            count = count + 1;
        }
        i = i + 1;
    }
    assert(fv.subrange(0, i as int) =~= fv);
    count
}

/// Totals of a list of findings by severity.
pub fn repo_risk_finding_counts(findings: &Vec<JsonValue>) -> (r: JsonValue)
    ensures
        r@ == finding_counts_spec(views(findings@)),
{
    let r = jobj(
        vec![
            ("total", jusize(findings.len())),
            ("high", jusize(count_severity(findings, "high"))),
            ("medium", jusize(count_severity(findings, "medium"))),
            ("low", jusize(count_severity(findings, "low"))),
        ],
    );
    assert(r@->Obj_0 =~= finding_counts_spec(views(findings@))->Obj_0);
    r
}

/// A directory ranking as JSON objects.
pub open spec fn top_dirs_json(top: Seq<(String, usize)>) -> JsonSpec {
    JsonSpec::Arr(
        top.map_values(
            |d: (String, usize)|
                JsonSpec::Obj(
                    seq![("directory"@, JsonSpec::Str(d.0@)), ("changed_files"@, JsonSpec::Num(d.1 as int))],
                ),
        ),
    )
}

/// The first finding, or `Null` when there is none.
pub open spec fn first_or_null(f: Seq<JsonSpec>) -> JsonSpec {
    if f.len() > 0 {
        f[0]
    } else {
        JsonSpec::Null
    }
}

/// The repository risk layer of an available snapshot.
pub open spec fn risk_layer_spec(s: RepoRiskSnapshot) -> JsonSpec {
    let f = snapshot_findings(s);
    JsonSpec::Obj(
        seq![
            ("status"@, JsonSpec::Str(s.status@)),
            ("risk_level"@, JsonSpec::Str(s.risk_level@)),
            ("branch"@, match s.branch {
                Some(b) => JsonSpec::Str(b@),
                None => JsonSpec::Null,
            }),
            ("is_dirty"@, JsonSpec::Bool(s.is_dirty)),
            ("changed_file_count"@, JsonSpec::Num(s.changed_file_count as int)),
            ("staged_count"@, JsonSpec::Num(s.staged_count as int)),
            ("unstaged_count"@, JsonSpec::Num(s.unstaged_count as int)),
            ("untracked_count"@, JsonSpec::Num(s.untracked_count as int)),
            ("conflicted_count"@, JsonSpec::Num(s.conflicted_count as int)),
            ("operation_states"@, str_array(text_views(s.operation_states@))),
            ("large_diff"@, JsonSpec::Bool(s.large_diff)),
            ("top_changed_directories"@, top_dirs_json(s.top_changed_directories@)),
            ("lockfile_anomalies"@, JsonSpec::Arr(views(s.lockfile_anomalies@))),
            ("evidence"@, str_array(text_views(s.evidence@))),
            ("risk_reasons"@, str_array(text_views(s.risk_reasons@))),
            ("risk_findings"@, JsonSpec::Arr(f)),
            ("highest_priority_finding"@, first_or_null(f)),
            ("finding_counts"@, finding_counts_spec(f)),
        ],
    )
}

fn copy_texts(v: &Vec<String>) -> (r: Vec<String>)
    ensures
        text_views(r@) == text_views(v@),
{
    let mut r: Vec<String> = Vec::new();
    let mut i: usize = 0;
    while i < v.len()
        invariant
            i <= v@.len(),
            r@.len() == i,
            forall|j: int| 0 <= j < i ==> (#[trigger] r@[j])@ == v@[j]@,
        decreases v@.len() - i,
    {
        r.push(v[i].clone());
        i = i + 1;
    }
    assert(text_views(r@) =~= text_views(v@));
    r
}

fn copy_values(v: &Vec<JsonValue>) -> (r: Vec<JsonValue>)
    ensures
        views(r@) == views(v@),
{
    let mut r: Vec<JsonValue> = Vec::new();
    let mut i: usize = 0;
    while i < v.len()
        invariant
            i <= v@.len(),
            r@.len() == i,
            forall|j: int| 0 <= j < i ==> (#[trigger] r@[j])@ == v@[j]@,
        decreases v@.len() - i,
    {
        r.push(v[i].dup());
        i = i + 1;
    }
    assert(views(r@) =~= views(v@));
    r
}

fn top_dirs_value(top: &Vec<(String, usize)>) -> (r: JsonValue)
    ensures
        r@ == top_dirs_json(top@),
{
    let mut items: Vec<JsonValue> = Vec::new();
    let mut i: usize = 0;
    while i < top.len()
        invariant
            i <= top@.len(),
            items@.len() == i,
            forall|j: int| 0 <= j < i ==> (#[trigger] items@[j])@ == JsonSpec::Obj(
                seq![("directory"@, JsonSpec::Str(top@[j].0@)), ("changed_files"@, JsonSpec::Num(top@[j].1 as int))],
            ),
        decreases top@.len() - i,
    {
        let o = jobj(vec![("directory", jstring(top[i].0.clone())), ("changed_files", jusize(top[i].1))]);
        assert(o@->Obj_0 =~= seq![("directory"@, JsonSpec::Str(top@[i as int].0@)), ("changed_files"@, JsonSpec::Num(top@[i as int].1 as int))]);
        items.push(o);
        i = i + 1;
    }
    let r = jarr(items);
    assert(r@->Arr_0 =~= top_dirs_json(top@)->Arr_0);
    r
}

/// The repository risk layer of an available snapshot.
pub fn repo_risk_layer(snapshot: &RepoRiskSnapshot) -> (r: JsonValue)
    ensures
        r@ == risk_layer_spec(*snapshot),
{
    let findings = repo_risk_findings(snapshot);
    let counts = repo_risk_finding_counts(&findings);
    let highest = if findings.len() > 0 {
        findings[0].dup()
    } else {
        JsonValue::Null
    };
    let branch = match &snapshot.branch {
        Some(b) => jstring(b.clone()),
        None => JsonValue::Null,
    };
    let r = jobj(
        vec![
            ("status", js(snapshot.status)),
            ("risk_level", js(snapshot.risk_level)),
            ("branch", branch),
            ("is_dirty", jbool(snapshot.is_dirty)),
            ("changed_file_count", jusize(snapshot.changed_file_count)),
            ("staged_count", jusize(snapshot.staged_count)),
            ("unstaged_count", jusize(snapshot.unstaged_count)),
            ("untracked_count", jusize(snapshot.untracked_count)),
            ("conflicted_count", jusize(snapshot.conflicted_count)),
            ("operation_states", jstrings(copy_texts(&snapshot.operation_states))),
            ("large_diff", jbool(snapshot.large_diff)),
            ("top_changed_directories", top_dirs_value(&snapshot.top_changed_directories)),
            ("lockfile_anomalies", jarr(copy_values(&snapshot.lockfile_anomalies))),
            ("evidence", jstrings(copy_texts(&snapshot.evidence))),
            ("risk_reasons", jstrings(copy_texts(&snapshot.risk_reasons))),
            ("risk_findings", jarr(findings)),
            ("highest_priority_finding", highest),
            ("finding_counts", counts),
        ],
    );
    assert(r@->Obj_0 =~= risk_layer_spec(*snapshot)->Obj_0);
    r
}

/// The zero finding totals reported when no snapshot exists.
pub open spec fn zero_counts() -> JsonSpec {
    JsonSpec::Obj(
        seq![
            ("total"@, JsonSpec::Num(0)),
            ("high"@, JsonSpec::Num(0)),
            ("medium"@, JsonSpec::Num(0)),
            ("low"@, JsonSpec::Num(0)),
        ],
    )
}

fn zero_counts_value() -> (r: JsonValue)
    ensures
        r@ == zero_counts(),
{
    let r = jobj(vec![("total", jusize(0)), ("high", jusize(0)), ("medium", jusize(0)), ("low", jusize(0))]);
    assert(r@->Obj_0 =~= zero_counts()->Obj_0);
    r
}

/// The layer reported when no risk snapshot could be collected for a
/// repository: the status, a summary, and (when git itself failed) the error.
pub open spec fn risk_layer_without_snapshot(status: Seq<char>, summary: Seq<char>, error: Option<Seq<char>>) -> JsonSpec {
    let head = seq![("status"@, JsonSpec::Str(status)), ("summary"@, JsonSpec::Str(summary))];
    let with_error = match error {
        Some(e) => head.push(("error"@, JsonSpec::Str(e))),
        None => head,
    };
    JsonSpec::Obj(
        with_error + seq![
            ("risk_findings"@, JsonSpec::Arr(seq![])),
            ("highest_priority_finding"@, JsonSpec::Null),
            ("finding_counts"@, zero_counts()),
        ],
    )
}

fn layer_without_snapshot(status: &str, summary: &str, error: Option<String>) -> (r: JsonValue)
    ensures
        r@ == risk_layer_without_snapshot(
            status@,
            summary@,
            match error {
                Some(e) => Some(e@),
                None => None,
            },
        ),
{
    let ghost ev = match &error {
        Some(e) => Some(e@),
        None => None,
    };
    let mut entries: Vec<(&str, JsonValue)> = vec![("status", js(status)), ("summary", js(summary))];
    match error {
        Some(e) => {
            entries.push(("error", jstring(e)));
        },
        None => {},
    }
    let empty: Vec<JsonValue> = Vec::new();
    assert(views(empty@) =~= seq![]);
    entries.push(("risk_findings", jarr(empty)));
    entries.push(("highest_priority_finding", JsonValue::Null));
    entries.push(("finding_counts", zero_counts_value()));
    let r = jobj(entries);
    assert(r@->Obj_0 =~= risk_layer_without_snapshot(status@, summary@, ev)->Obj_0);
    r
}

/// The layer when the root is a Git work tree but the snapshot failed.
pub fn repo_risk_layer_snapshot_failed() -> (r: JsonValue)
    ensures
        r@ == risk_layer_without_snapshot(
            "error"@,
            "Git repository detected, but OPENDOG could not collect a stable risk snapshot."@,
            None,
        ),
{
    layer_without_snapshot(
        "error",
        "Git repository detected, but OPENDOG could not collect a stable risk snapshot.",
        None,
    )
}

/// The layer when the root is not inside a Git work tree.
pub fn repo_risk_layer_not_git() -> (r: JsonValue)
    ensures
        r@ == risk_layer_without_snapshot(
            "not_git_repository"@,
            "The registered root is not inside a Git work tree, so repository risk signals are unavailable."@,
            None,
        ),
{
    layer_without_snapshot(
        "not_git_repository",
        "The registered root is not inside a Git work tree, so repository risk signals are unavailable.",
        None,
    )
}

/// The layer when `git` could not be executed; `error` is the failure text.
pub fn repo_risk_layer_git_failed(error: String) -> (r: JsonValue)
    ensures
        r@ == risk_layer_without_snapshot(
            "error"@,
            "Failed to execute git for repository risk collection."@,
            Some(error@),
        ),
{
    layer_without_snapshot("error", "Failed to execute git for repository risk collection.", Some(error))
}

/// What asking `git` for the work tree of a root gave.
#[derive(Debug)]
pub enum GitProbe {
    /// The root is inside a Git work tree.
    WorkTree,
    /// `git` ran, but the root is not inside a work tree.
    NotWorkTree,
    /// `git` could not be run; the failure text.
    Unavailable(String),
}

/// The repository layer of a root: the snapshot's layer inside a work
/// tree (an error when no snapshot could be collected there), and the
/// matching status otherwise.
pub open spec fn status_risk_layer_spec(probe: GitProbe, snapshot: Option<RepoRiskSnapshot>) -> JsonSpec {
    match probe {
        GitProbe::WorkTree => match snapshot {
            Some(s) => risk_layer_spec(s),
            None => risk_layer_without_snapshot(
                "error"@,
                "Git repository detected, but OPENDOG could not collect a stable risk snapshot."@,
                None,
            ),
        },
        GitProbe::NotWorkTree => risk_layer_without_snapshot(
            "not_git_repository"@,
            "The registered root is not inside a Git work tree, so repository risk signals are unavailable."@,
            None,
        ),
        GitProbe::Unavailable(e) => risk_layer_without_snapshot(
            "error"@,
            "Failed to execute git for repository risk collection."@,
            Some(e@),
        ),
    }
}

pub fn repo_status_risk_layer(probe: GitProbe, snapshot: Option<RepoRiskSnapshot>) -> (r: JsonValue)
    ensures
        r@ == status_risk_layer_spec(probe, snapshot),
{
    match probe {
        GitProbe::WorkTree => match snapshot {
            Some(s) => repo_risk_layer(&s),
            None => repo_risk_layer_snapshot_failed(),
        },
        GitProbe::NotWorkTree => repo_risk_layer_not_git(),
        GitProbe::Unavailable(e) => repo_risk_layer_git_failed(e),
    }
}

} // verus!
