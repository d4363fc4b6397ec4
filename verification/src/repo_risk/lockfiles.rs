//! Dependency manifest / lockfile drift among changed paths.
use vstd::prelude::*;
use crate::json::{JsonSpec, JsonValue, js, jstring, jobj, views};
use crate::lines::{lex_less, lemma_lex_asymmetric, lemma_lex_total, lemma_lex_transitive, lemma_sorted_same_members_equal, sorted_by, text_less};
use crate::paths::{path_file_name, path_file_name_of, path_parent, path_parent_of};
use crate::text::str_eq;
use super::porcelain::{GitStatusEntry, EntrySpec, entry_specs};

verus! {

/// `Path::parent` text of a changed path, empty when it has none.
pub open spec fn raw_dir(path: Seq<char>) -> Seq<char> {
    match path_parent_of(path) {
        Some(p) => p,
        None => Seq::empty(),
    }
}

/// `Path::file_name` text of a changed path, the whole path when it has none.
pub open spec fn base_name(path: Seq<char>) -> Seq<char> {
    match path_file_name_of(path) {
        Some(n) => n,
        None => path,
    }
}

/// Some changed path lies in directory `d`.
pub open spec fn dir_present(es: Seq<EntrySpec>, d: Seq<char>) -> bool {
    exists|k: int| 0 <= k < es.len() && raw_dir(#[trigger] es[k].2) == d
}

/// A file named `name` in directory `d` changed.
pub open spec fn file_changed(es: Seq<EntrySpec>, d: Seq<char>, name: Seq<char>) -> bool {
    exists|k: int| 0 <= k < es.len() && raw_dir(#[trigger] es[k].2) == d && base_name(es[k].2) == name
}

/// Strictly increasing in `String` order.
pub open spec fn lex_sorted(ds: Seq<Seq<char>>) -> bool {
    forall|i: int, j: int| 0 <= i < j < ds.len() ==> lex_less(#[trigger] ds[i], #[trigger] ds[j])
}

/// (lockfile, manifest) pairs that are expected to change together.
pub open spec fn lock_rules() -> Seq<(Seq<char>, Seq<char>)> {
    seq![
        ("Cargo.lock"@, "Cargo.toml"@),
        ("package-lock.json"@, "package.json"@),
        ("pnpm-lock.yaml"@, "package.json"@),
        ("yarn.lock"@, "package.json"@),
        ("poetry.lock"@, "pyproject.toml"@),
        ("Pipfile.lock"@, "Pipfile"@),
    ]
}

/// How a directory is shown: `.` for the empty directory.
pub open spec fn display_dir(d: Seq<char>) -> Seq<char> {
    if d.len() == 0 {
        "."@
    } else {
        d
    }
}

pub open spec fn lockfile_only_anomaly(d: Seq<char>, rule: (Seq<char>, Seq<char>)) -> JsonSpec {
    JsonSpec::Obj(
        seq![
            ("kind"@, JsonSpec::Str("lockfile_without_manifest_change"@)),
            ("directory"@, JsonSpec::Str(display_dir(d))),
            ("lockfile"@, JsonSpec::Str(rule.0)),
            ("expected_manifest"@, JsonSpec::Str(rule.1)),
        ],
    )
}

pub open spec fn manifest_only_anomaly(d: Seq<char>, rule: (Seq<char>, Seq<char>)) -> JsonSpec {
    JsonSpec::Obj(
        seq![
            ("kind"@, JsonSpec::Str("manifest_without_lockfile_change"@)),
            ("directory"@, JsonSpec::Str(display_dir(d))),
            ("manifest"@, JsonSpec::Str(rule.1)),
            ("expected_lockfile"@, JsonSpec::Str(rule.0)),
        ],
    )
}

/// The anomalies one rule yields for one directory.
pub open spec fn rule_anomalies(es: Seq<EntrySpec>, d: Seq<char>, rule: (Seq<char>, Seq<char>)) -> Seq<JsonSpec> {
    let lock = file_changed(es, d, rule.0);
    let manifest = file_changed(es, d, rule.1);
    (if lock && !manifest {
        seq![lockfile_only_anomaly(d, rule)]
    } else {
        seq![]
    }) + (if manifest && !lock {
        seq![manifest_only_anomaly(d, rule)]
    } else {
        seq![]
    })
}

/// The anomalies of a directory for the first `n` rules.
pub open spec fn dir_anomalies(es: Seq<EntrySpec>, d: Seq<char>, n: nat) -> Seq<JsonSpec>
    decreases n,
{
    if n == 0 {
        seq![]
    } else {
        dir_anomalies(es, d, (n - 1) as nat) + rule_anomalies(es, d, lock_rules()[n - 1])
    }
}

/// The anomalies of the given directories, in order.
pub open spec fn anomalies_for_dirs(es: Seq<EntrySpec>, ds: Seq<Seq<char>>) -> Seq<JsonSpec>
    decreases ds.len(),
{
    if ds.len() == 0 {
        seq![]
    } else {
        anomalies_for_dirs(es, ds.drop_last()) + dir_anomalies(es, ds.last(), 6)
    }
}

/// The anomalies of `es`: for each directory with changes, in `String`
/// order, each rule in turn.
pub open spec fn lockfile_anomalies_of(es: Seq<EntrySpec>, r: Seq<JsonSpec>) -> bool {
    exists|ds: Seq<Seq<char>>|
        lex_sorted(ds) && (forall|d: Seq<char>| #[trigger] ds.contains(d) <==> dir_present(es, d))
            && r == anomalies_for_dirs(es, ds)
}

/// The anomalies of a set of changed paths are one list: any two lists
/// that `lockfile_anomalies_of` accepts for the same entries are equal.
pub proof fn law_lockfile_anomalies_determined(es: Seq<EntrySpec>, r1: Seq<JsonSpec>, r2: Seq<JsonSpec>)
    requires
        lockfile_anomalies_of(es, r1),
        lockfile_anomalies_of(es, r2),
    ensures
        r1 == r2,
{
    let ds1 = choose|ds: Seq<Seq<char>>|
        lex_sorted(ds) && (forall|d: Seq<char>| #[trigger] ds.contains(d) <==> dir_present(es, d))
            && r1 == anomalies_for_dirs(es, ds);
    let ds2 = choose|ds: Seq<Seq<char>>|
        lex_sorted(ds) && (forall|d: Seq<char>| #[trigger] ds.contains(d) <==> dir_present(es, d))
            && r2 == anomalies_for_dirs(es, ds);
    let lt = |x: Seq<char>, y: Seq<char>| lex_less(x, y);
    assert forall|x: Seq<char>, y: Seq<char>| #[trigger] lt(x, y) implies !lt(y, x) by {
        lemma_lex_asymmetric(x, y);
    }
    assert(sorted_by(ds1, lt));
    assert(sorted_by(ds2, lt));
    assert forall|x: Seq<char>| ds1.contains(x) <==> ds2.contains(x) by {
        assert(ds1.contains(x) <==> dir_present(es, x));
        assert(ds2.contains(x) <==> dir_present(es, x));
    }
    lemma_sorted_same_members_equal(ds1, ds2, lt);
}

/// Inserts `x` into a strictly sorted list unless it is already there.
fn insert_sorted_text(v: &mut Vec<String>, x: String)
    requires
        lex_sorted(crate::text::text_views(old(v)@)),
    ensures
        lex_sorted(crate::text::text_views(final(v)@)),
        forall|d: Seq<char>| #[trigger] crate::text::text_views(final(v)@).contains(d) <==> (crate::text::text_views(old(v)@).contains(d) || d == x@),
{
    let ghost ov = crate::text::text_views(v@);
    let mut p: usize = 0;
    while p < v.len() && text_less(v[p].as_str(), x.as_str())
        invariant
            p <= v@.len(),
            ov == crate::text::text_views(v@),
            forall|q: int| 0 <= q < p ==> lex_less(#[trigger] ov[q], x@),
        decreases v@.len() - p,
    {
        p = p + 1;
    }
    if p < v.len() && str_eq(v[p].as_str(), x.as_str()) {
        proof {
            assert(ov[p as int] == x@);
            assert forall|d: Seq<char>| #[trigger] ov.contains(d) <==> (ov.contains(d) || d == x@) by {
                if d == x@ {
                    assert(ov[p as int] == d);
                }
            }
        }
        return;
    }
    proof {
        if p < ov.len() {
            lemma_lex_total(ov[p as int], x@);
            assert(lex_less(x@, ov[p as int]));
        }
    }
    let ghost xv = x@;
    v.insert(p, x);
    proof {
        let nv = crate::text::text_views(v@);
        assert(nv =~= ov.insert(p as int, xv));
        assert forall|i: int, j: int| 0 <= i < j < nv.len() implies lex_less(#[trigger] nv[i], #[trigger] nv[j]) by {
            if i < p && j < p {
            } else if i < p && j == p {
            } else if i < p && j > p {
                assert(lex_less(ov[i], ov[j - 1]));
            } else if i == p {
                if j - 1 > p {
                    lemma_lex_transitive(xv, ov[p as int], ov[j - 1]);
                }
            } else {
                assert(lex_less(ov[i - 1], ov[j - 1]));
            }
        }
        assert forall|d: Seq<char>| #[trigger] nv.contains(d) <==> (ov.contains(d) || d == xv) by {
            if nv.contains(d) {
                let i = choose|i: int| 0 <= i < nv.len() && nv[i] == d;
                if i < p {
                    assert(ov[i] == d);
                } else if i > p {
                    assert(ov[i - 1] == d);
                }
            }
            if ov.contains(d) {
                let i = choose|i: int| 0 <= i < ov.len() && ov[i] == d;
                if i < p {
                    assert(nv[i] == d);
                } else {
                    assert(nv[i + 1] == d);
                }
            }
            if d == xv {
                assert(nv[p as int] == d);
            }
        }
    }
}

/// Whether some changed path lies in `dir` and is named `name`.
fn any_changed(dirs: &Vec<(String, String)>, dir: &str, name: &str, Ghost(es): Ghost<Seq<EntrySpec>>) -> (r: bool)
    requires
        dirs@.len() == es.len(),
        forall|k: int| 0 <= k < es.len() ==> (#[trigger] dirs@[k]).0@ == raw_dir(es[k].2) && dirs@[k].1@ == base_name(es[k].2),
    ensures
        r == file_changed(es, dir@, name@),
{
    let mut k: usize = 0;
    while k < dirs.len()
        invariant
            k <= dirs@.len(),
            dirs@.len() == es.len(),
            forall|q: int| 0 <= q < es.len() ==> (#[trigger] dirs@[q]).0@ == raw_dir(es[q].2) && dirs@[q].1@ == base_name(es[q].2),
            forall|q: int| 0 <= q < k ==> !(raw_dir(#[trigger] es[q].2) == dir@ && base_name(es[q].2) == name@),
        decreases dirs@.len() - k,
    {
        if str_eq(dirs[k].0.as_str(), dir) && str_eq(dirs[k].1.as_str(), name) {
            assert(raw_dir(es[k as int].2) == dir@ && base_name(es[k as int].2) == name@);
            return true;
        }
        k = k + 1;
    }
    false
}

fn display_dir_text(dir: &str) -> (r: String)
    ensures
        r@ == display_dir(dir@),
{
    if dir.unicode_len() == 0 {
        String::from_str(".")
    } else {
        String::from_str(dir)
    }
}

fn lockfile_only_json(dir: &str, lockfile: &str, manifest: &str) -> (r: JsonValue)
    ensures
        r@ == lockfile_only_anomaly(dir@, (lockfile@, manifest@)),
{
    let entries = vec![
        ("kind", js("lockfile_without_manifest_change")),
        ("directory", jstring(display_dir_text(dir))),
        ("lockfile", js(lockfile)),
        ("expected_manifest", js(manifest)),
    ];
    let r = jobj(entries);
    assert(r@->Obj_0 =~= lockfile_only_anomaly(dir@, (lockfile@, manifest@))->Obj_0);
    r
}

fn manifest_only_json(dir: &str, lockfile: &str, manifest: &str) -> (r: JsonValue)
    ensures
        r@ == manifest_only_anomaly(dir@, (lockfile@, manifest@)),
{
    let entries = vec![
        ("kind", js("manifest_without_lockfile_change")),
        ("directory", jstring(display_dir_text(dir))),
        ("manifest", js(manifest)),
        ("expected_lockfile", js(lockfile)),
    ];
    let r = jobj(entries);
    assert(r@->Obj_0 =~= manifest_only_anomaly(dir@, (lockfile@, manifest@))->Obj_0);
    r
}

/// The anomalies one rule yields for one directory.
fn rule_anomalies_exec(
    dirs: &Vec<(String, String)>,
    dir: &str,
    lockfile: &str,
    manifest: &str,
    Ghost(es): Ghost<Seq<EntrySpec>>,
) -> (r: Vec<JsonValue>)
    requires
        dirs@.len() == es.len(),
        forall|k: int| 0 <= k < es.len() ==> (#[trigger] dirs@[k]).0@ == raw_dir(es[k].2) && dirs@[k].1@ == base_name(es[k].2),
    ensures
        views(r@) == rule_anomalies(es, dir@, (lockfile@, manifest@)),
{
    let lock_changed = any_changed(dirs, dir, lockfile, Ghost(es));
    let manifest_changed = any_changed(dirs, dir, manifest, Ghost(es));
    let mut out: Vec<JsonValue> = Vec::new();
    if lock_changed && !manifest_changed {
        out.push(lockfile_only_json(dir, lockfile, manifest));
    }
    if manifest_changed && !lock_changed {
        out.push(manifest_only_json(dir, lockfile, manifest));
    }
    assert(views(out@) =~= rule_anomalies(es, dir@, (lockfile@, manifest@)));
    out
}

/// Flags directories where a lockfile changed without its manifest, or a
/// manifest without its lockfile.
pub fn detect_lockfile_anomalies(entries: &Vec<GitStatusEntry>) -> (r: Vec<JsonValue>)
    ensures
        lockfile_anomalies_of(entry_specs(entries@), views(r@)),
{
    let ghost es = entry_specs(entries@);
    let mut dirs: Vec<(String, String)> = Vec::new();
    let mut sorted: Vec<String> = Vec::new();
    let mut i: usize = 0;
    while i < entries.len()
        invariant
            i <= entries@.len(),
            es == entry_specs(entries@),
            dirs@.len() == i,
            forall|k: int| 0 <= k < i ==> (#[trigger] dirs@[k]).0@ == raw_dir(es[k].2) && dirs@[k].1@ == base_name(es[k].2),
            lex_sorted(crate::text::text_views(sorted@)),
            forall|d: Seq<char>| #[trigger] crate::text::text_views(sorted@).contains(d) <==> exists|k: int| 0 <= k < i && raw_dir(#[trigger] es[k].2) == d,
        decreases entries@.len() - i,
    {
        let path = entries[i].path.as_str();
        assert(es[i as int].2 == path@);
        let dir = match path_parent(path) {
            Some(p) => p,
            None => String::new(),
        };
        let base = match path_file_name(path) {
            Some(n) => n,
            None => String::from_str(path),
        };
        let ghost dv = dir@;
        let ghost before = crate::text::text_views(sorted@);
        insert_sorted_text(&mut sorted, dir.clone());
        dirs.push((dir, base));
        proof {
            assert forall|d: Seq<char>| #[trigger] crate::text::text_views(sorted@).contains(d) <==> exists|k: int| 0 <= k < i + 1 && raw_dir(#[trigger] es[k].2) == d by {
                if d == dv {
                    assert(raw_dir(es[i as int].2) == d);
                }
                if exists|k: int| 0 <= k < i + 1 && raw_dir(#[trigger] es[k].2) == d {
                    let k = choose|k: int| 0 <= k < i + 1 && raw_dir(#[trigger] es[k].2) == d;
                    if k < i {
                        assert(before.contains(d));
                    }
                }
            }
        }
        i = i + 1;
    }
    let ghost ds = crate::text::text_views(sorted@);
    let ghost rules = lock_rules();
    let rule_list: Vec<(&str, &str)> = vec![
        ("Cargo.lock", "Cargo.toml"),
        ("package-lock.json", "package.json"),
        ("pnpm-lock.yaml", "package.json"),
        ("yarn.lock", "package.json"),
        ("poetry.lock", "pyproject.toml"),
        ("Pipfile.lock", "Pipfile"),
    ];
    assert(forall|q: int| 0 <= q < 6 ==> (#[trigger] rule_list@[q]).0@ == rules[q].0 && rule_list@[q].1@ == rules[q].1);
    let mut out: Vec<JsonValue> = Vec::new();
    let mut j: usize = 0;
    while j < sorted.len()
        invariant
            j <= sorted@.len(),
            ds == crate::text::text_views(sorted@),
            rules == lock_rules(),
            rule_list@.len() == 6,
            forall|q: int| 0 <= q < 6 ==> (#[trigger] rule_list@[q]).0@ == rules[q].0 && rule_list@[q].1@ == rules[q].1,
            dirs@.len() == es.len(),
            forall|k: int| 0 <= k < es.len() ==> (#[trigger] dirs@[k]).0@ == raw_dir(es[k].2) && dirs@[k].1@ == base_name(es[k].2),
            views(out@) == anomalies_for_dirs(es, ds.subrange(0, j as int)),
        decreases sorted@.len() - j,
    {
        let dir = sorted[j].as_str();
        assert(dir@ == ds[j as int]);
        let mut q: usize = 0;
        let ghost base = out@;
        while q < 6
            invariant
                q <= 6,
                rules == lock_rules(),
                rule_list@.len() == 6,
                forall|t: int| 0 <= t < 6 ==> (#[trigger] rule_list@[t]).0@ == rules[t].0 && rule_list@[t].1@ == rules[t].1,
                dirs@.len() == es.len(),
                forall|k: int| 0 <= k < es.len() ==> (#[trigger] dirs@[k]).0@ == raw_dir(es[k].2) && dirs@[k].1@ == base_name(es[k].2),
                views(out@) == views(base) + dir_anomalies(es, dir@, q as nat),
            decreases 6 - q,
        {
            let (lockfile, manifest) = rule_list[q];
            let found = rule_anomalies_exec(&dirs, dir, lockfile, manifest, Ghost(es));
            let ghost before = out@;
            let mut f = found;
            let ghost fv = views(f@);
            out.append(&mut f);
            proof {
                assert(views(out@) =~= views(before) + fv);
                assert(rules[q as int] == (lockfile@, manifest@));
                assert(views(out@) =~= views(base) + dir_anomalies(es, dir@, (q + 1) as nat));
            }
            q = q + 1;
        }
        proof {
            assert(ds.subrange(0, j + 1).drop_last() =~= ds.subrange(0, j as int));
            assert(ds.subrange(0, j + 1).last() == dir@);
        }
        j = j + 1;
    }
    proof {
        assert(ds.subrange(0, ds.len() as int) =~= ds);
        assert forall|d: Seq<char>| #[trigger] ds.contains(d) <==> dir_present(es, d) by {
            if ds.contains(d) {
                let k = choose|k: int| 0 <= k < es.len() && raw_dir(#[trigger] es[k].2) == d;
            }
        }
    }
    out
}

} // verus!
