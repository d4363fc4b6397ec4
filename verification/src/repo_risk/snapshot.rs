//! The repository risk snapshot assembled from parsed `git status` output.
use vstd::prelude::*;
use vstd::string::*;
use crate::json::{JsonValue, views};
use crate::text::{cat, cat3, cat5, decimal, text_views, usize_to_text};
use super::porcelain::{GitStatusEntry, EntrySpec, entry_specs};
use super::directories::{dir_count_views, is_dir_ranking, top_changed_directories};
use super::lockfiles::{detect_lockfile_anomalies, lockfile_anomalies_of};

verus! {

/// What `git status` and the repository metadata say about a work tree.
#[derive(Debug)]
pub struct RepoRiskSnapshot {
    pub status: &'static str,
    pub branch: Option<String>,
    pub is_dirty: bool,
    pub changed_file_count: usize,
    pub staged_count: usize,
    pub unstaged_count: usize,
    pub untracked_count: usize,
    pub conflicted_count: usize,
    pub operation_states: Vec<String>,
    pub top_changed_directories: Vec<(String, usize)>,
    pub large_diff: bool,
    pub lockfile_anomalies: Vec<JsonValue>,
    pub evidence: Vec<String>,
    pub risk_reasons: Vec<String>,
    pub risk_level: &'static str,
}

/// The texts joined with `sep` between them (`[String]::join`).
pub open spec fn join(items: Seq<Seq<char>>, sep: Seq<char>) -> Seq<char>
    decreases items.len(),
{
    if items.len() == 0 {
        Seq::empty()
    } else if items.len() == 1 {
        items[0]
    } else {
        join(items.drop_last(), sep) + sep + items.last()
    }
}

/// Joins texts with a separator.
pub fn join_texts(items: &Vec<String>, sep: &str) -> (r: String)
    ensures
        r@ == join(text_views(items@), sep@),
{
    let ghost iv = text_views(items@);
    let mut r = String::new();
    let mut i: usize = 0;
    while i < items.len()
        invariant
            i <= items@.len(),
            iv == text_views(items@),
            r@ == join(iv.subrange(0, i as int), sep@),
        decreases items@.len() - i,
    {
        proof {
            assert(iv.subrange(0, i + 1).drop_last() =~= iv.subrange(0, i as int));
            assert(iv.subrange(0, i + 1).last() == items@[i as int]@);
        }
        if i > 0 {
            r.append(sep);
        } else {
            assert(iv.subrange(0, 1) =~= seq![items@[0]@]);
        }
        r.append(items[i].as_str());
        i = i + 1;
    }
    assert(iv.subrange(0, i as int) =~= iv);
    r
}

/// Number of entries satisfying `p`.
pub open spec fn count_where(es: Seq<EntrySpec>, p: spec_fn(EntrySpec) -> bool) -> nat
    decreases es.len(),
{
    if es.len() == 0 {
        0
    } else {
        count_where(es.drop_last(), p) + if p(es.last()) {
            1nat
        } else {
            0nat
        }
    }
}

pub open spec fn is_staged(e: EntrySpec) -> bool {
    e.0 != ' ' && e.0 != '?'
}

pub open spec fn is_unstaged(e: EntrySpec) -> bool {
    e.1 != ' '
}

pub open spec fn is_untracked(e: EntrySpec) -> bool {
    e.0 == '?' && e.1 == '?'
}

pub open spec fn is_conflict_code(c: char) -> bool {
    c == 'U' || c == 'A' || c == 'D'
}

pub open spec fn is_conflicted(e: EntrySpec) -> bool {
    is_conflict_code(e.0) && is_conflict_code(e.1)
}

/// An untracked entry (staged code `?`) is never counted as staged, so no
/// entry is counted both as staged and as untracked: together the two
/// counts never exceed the number of entries.
pub proof fn law_untracked_is_not_staged(es: Seq<EntrySpec>)
    ensures
        forall|e: EntrySpec| e.0 == '?' ==> !is_staged(e),
        count_where(es, |e: EntrySpec| is_staged(e)) + count_where(es, |e: EntrySpec| is_untracked(e)) <= es.len(),
    decreases es.len(),
{
    if es.len() > 0 {
        law_untracked_is_not_staged(es.drop_last());
    }
}

/// Each conflicted entry is counted as staged and as unstaged, and each
/// untracked entry as unstaged.
pub proof fn law_conflicts_are_staged_and_unstaged(es: Seq<EntrySpec>)
    ensures
        count_where(es, |e: EntrySpec| is_conflicted(e)) <= count_where(es, |e: EntrySpec| is_staged(e)),
        count_where(es, |e: EntrySpec| is_conflicted(e)) <= count_where(es, |e: EntrySpec| is_unstaged(e)),
        count_where(es, |e: EntrySpec| is_untracked(e)) <= count_where(es, |e: EntrySpec| is_unstaged(e)),
    decreases es.len(),
{
    if es.len() > 0 {
        law_conflicts_are_staged_and_unstaged(es.drop_last());
    }
}

/// The evidence lines of a snapshot.
pub open spec fn evidence_spec(
    changed: nat,
    branch: Option<Seq<char>>,
    ops: Seq<Seq<char>>,
    top: Seq<(Seq<char>, nat)>,
) -> Seq<Seq<char>> {
    let first = seq!["Changed files observed via git status: "@ + decimal(changed) + "."@];
    let with_branch = match branch {
        Some(b) => first.push("Current branch: "@ + b + "."@),
        None => first,
    };
    let with_ops = if ops.len() > 0 {
        with_branch.push("Git operation in progress: "@ + join(ops, ", "@) + "."@)
    } else {
        with_branch
    };
    if top.len() > 0 {
        with_ops.push(
            "Most changed directory in current working state: "@ + top[0].0 + " ("@ + decimal(top[0].1)
                + " files)."@,
        )
    } else {
        with_ops
    }
}

/// The risk reasons of a snapshot.
pub open spec fn risk_reasons_spec(
    changed: nat,
    conflicted: nat,
    ops: Seq<Seq<char>>,
    large_diff: bool,
    anomaly_count: nat,
) -> Seq<Seq<char>> {
    let a = if conflicted > 0 {
        seq![decimal(conflicted) + " conflicted paths detected."@]
    } else {
        seq![]
    };
    let b = if ops.len() > 0 {
        a.push("Repository is mid-operation: "@ + join(ops, ", "@) + "."@)
    } else {
        a
    };
    let c = if large_diff {
        b.push("Large working diff detected ("@ + decimal(changed) + " changed files)."@)
    } else {
        b
    };
    let d = if anomaly_count > 0 {
        c.push(decimal(anomaly_count) + " dependency lock/manifest mismatch signals detected."@)
    } else {
        c
    };
    if changed > 0 && d.len() == 0 {
        seq!["Repository has local changes but no higher-risk signal was detected."@]
    } else {
        d
    }
}

/// The risk level: conflicts or an operation in progress are high; a large
/// diff or dependency drift medium; anything else low.
pub open spec fn risk_level_spec(conflicted: nat, op_count: nat, large_diff: bool, anomaly_count: nat) -> Seq<char> {
    if conflicted > 0 || op_count > 0 {
        "high"@
    } else if large_diff || anomaly_count > 0 {
        "medium"@
    } else {
        "low"@
    }
}

/// Counts of staged, unstaged, untracked and conflicted entries.
fn count_entries(entries: &Vec<GitStatusEntry>) -> (r: (usize, usize, usize, usize))
    ensures
        r.0 == count_where(entry_specs(entries@), |e: EntrySpec| is_staged(e)),
        r.1 == count_where(entry_specs(entries@), |e: EntrySpec| is_unstaged(e)),
        r.2 == count_where(entry_specs(entries@), |e: EntrySpec| is_untracked(e)),
        r.3 == count_where(entry_specs(entries@), |e: EntrySpec| is_conflicted(e)),
{
    let ghost es = entry_specs(entries@);
    let mut staged: usize = 0;
    let mut unstaged: usize = 0;
    let mut untracked: usize = 0;
    let mut conflicted: usize = 0;
    let mut i: usize = 0;
    while i < entries.len()
        invariant
            i <= entries@.len(),
            es == entry_specs(entries@),
            staged <= i && unstaged <= i && untracked <= i && conflicted <= i,
            staged == count_where(es.subrange(0, i as int), |e: EntrySpec| is_staged(e)),
            unstaged == count_where(es.subrange(0, i as int), |e: EntrySpec| is_unstaged(e)),
            untracked == count_where(es.subrange(0, i as int), |e: EntrySpec| is_untracked(e)),
            conflicted == count_where(es.subrange(0, i as int), |e: EntrySpec| is_conflicted(e)),
        decreases entries@.len() - i,
    {
        let s = entries[i].staged;
        let u = entries[i].unstaged;
        proof {
            assert(es.subrange(0, i + 1).drop_last() =~= es.subrange(0, i as int));
            assert(es.subrange(0, i + 1).last() == es[i as int]);
            assert(es[i as int] == (s, u, entries@[i as int].path@));
        }
        if s != ' ' && s != '?' {
            staged = staged + 1;
        }
        if u != ' ' {
            unstaged = unstaged + 1;
        }
        if s == '?' && u == '?' {
            untracked = untracked + 1;
        }
        if (s == 'U' || s == 'A' || s == 'D') && (u == 'U' || u == 'A' || u == 'D') {
            conflicted = conflicted + 1;
        }
        i = i + 1;
    }
    assert(es.subrange(0, i as int) =~= es);
    (staged, unstaged, untracked, conflicted)
}

fn evidence_lines(
    changed: usize,
    branch: &Option<String>,
    ops: &Vec<String>,
    top: &Vec<(String, usize)>,
) -> (r: Vec<String>)
    ensures
        text_views(r@) == evidence_spec(
            changed as nat,
            match branch {
                Some(b) => Some(b@),
                None => None,
            },
            text_views(ops@),
            dir_count_views(top@),
        ),
{
    let mut r: Vec<String> = Vec::new();
    r.push(cat3("Changed files observed via git status: ", usize_to_text(changed).as_str(), "."));
    match branch {
        Some(b) => {
            r.push(cat3("Current branch: ", b.as_str(), "."));
        },
        None => {},
    }
    if ops.len() > 0 {
        r.push(cat3("Git operation in progress: ", join_texts(ops, ", ").as_str(), "."));
    }
    if top.len() > 0 {
        let head = cat3(
            "Most changed directory in current working state: ",
            top[0].0.as_str(),
            " (",
        );
        r.push(cat3(head.as_str(), usize_to_text(top[0].1).as_str(), " files)."));
    }
    proof {
        let tv = dir_count_views(top@);
        if top@.len() > 0 {
            assert(tv[0] == (top@[0].0@, top@[0].1 as nat));
        }
    }
    assert(text_views(r@) =~= evidence_spec(
        changed as nat,
        match branch {
            Some(b) => Some(b@),
            None => None,
        },
        text_views(ops@),
        dir_count_views(top@),
    ));
    r
}

fn risk_reason_lines(
    changed: usize,
    conflicted: usize,
    ops: &Vec<String>,
    large_diff: bool,
    anomaly_count: usize,
) -> (r: Vec<String>)
    ensures
        text_views(r@) == risk_reasons_spec(
            changed as nat,
            conflicted as nat,
            text_views(ops@),
            large_diff,
            anomaly_count as nat,
        ),
{
    let mut r: Vec<String> = Vec::new();
    if conflicted > 0 {
        r.push(cat(usize_to_text(conflicted).as_str(), " conflicted paths detected."));
    }
    if ops.len() > 0 {
        r.push(cat3("Repository is mid-operation: ", join_texts(ops, ", ").as_str(), "."));
    }
    if large_diff {
        r.push(cat3("Large working diff detected (", usize_to_text(changed).as_str(), " changed files)."));
    }
    if anomaly_count > 0 {
        r.push(cat(usize_to_text(anomaly_count).as_str(), " dependency lock/manifest mismatch signals detected."));
    }
    if changed > 0 && r.len() == 0 {
        r.push(String::from_str("Repository has local changes but no higher-risk signal was detected."));
    }
    assert(text_views(r@) =~= risk_reasons_spec(
        changed as nat,
        conflicted as nat,
        text_views(ops@),
        large_diff,
        anomaly_count as nat,
    ));
    r
}

/// Assembles the risk snapshot of a work tree from its parsed status
/// (branch and entries) and the operations in progress.
pub fn assemble_repo_risk_snapshot(
    branch: Option<String>,
    entries: Vec<GitStatusEntry>,
    operation_states: Vec<String>,
) -> (r: RepoRiskSnapshot)
    ensures
        r.status@ == "available"@,
        r.branch == branch,
        r.changed_file_count == entries@.len(),
        r.is_dirty == (entries@.len() > 0),
        r.staged_count == count_where(entry_specs(entries@), |e: EntrySpec| is_staged(e)),
        r.unstaged_count == count_where(entry_specs(entries@), |e: EntrySpec| is_unstaged(e)),
        r.untracked_count == count_where(entry_specs(entries@), |e: EntrySpec| is_untracked(e)),
        r.conflicted_count == count_where(entry_specs(entries@), |e: EntrySpec| is_conflicted(e)),
        r.staged_count + r.untracked_count <= r.changed_file_count,
        r.operation_states == operation_states,
        is_dir_ranking(entry_specs(entries@), dir_count_views(r.top_changed_directories@), 5),
        r.large_diff == (entries@.len() >= 25),
        lockfile_anomalies_of(entry_specs(entries@), views(r.lockfile_anomalies@)),
        text_views(r.evidence@) == evidence_spec(
            entries@.len(),
            match branch {
                Some(b) => Some(b@),
                None => None,
            },
            text_views(operation_states@),
            dir_count_views(r.top_changed_directories@),
        ),
        text_views(r.risk_reasons@) == risk_reasons_spec(
            entries@.len(),
            r.conflicted_count as nat,
            text_views(operation_states@),
            r.large_diff,
            r.lockfile_anomalies@.len(),
        ),
        r.risk_level@ == risk_level_spec(
            r.conflicted_count as nat,
            operation_states@.len(),
            r.large_diff,
            r.lockfile_anomalies@.len(),
        ),
{
    let (staged_count, unstaged_count, untracked_count, conflicted_count) = count_entries(&entries);
    proof {
        law_untracked_is_not_staged(entry_specs(entries@));
    }
    let changed_file_count = entries.len();
    let top = top_changed_directories(&entries);
    let large_diff = changed_file_count >= 25;
    let anomalies = detect_lockfile_anomalies(&entries);
    let evidence = evidence_lines(changed_file_count, &branch, &operation_states, &top);
    let risk_reasons = risk_reason_lines(
        changed_file_count,
        conflicted_count,
        &operation_states,
        large_diff,
        anomalies.len(),
    );
    let risk_level: &'static str = if conflicted_count > 0 || operation_states.len() > 0 {
        "high"
    } else if large_diff || anomalies.len() > 0 {
        "medium"
    } else {
        "low"
    };
    RepoRiskSnapshot {
        status: "available",
        branch,
        is_dirty: changed_file_count > 0,
        changed_file_count,
        staged_count,
        unstaged_count,
        untracked_count,
        conflicted_count,
        operation_states,
        top_changed_directories: top,
        large_diff,
        lockfile_anomalies: anomalies,
        evidence,
        risk_reasons,
        risk_level,
    }
}

} // verus!
