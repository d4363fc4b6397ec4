//! Ranking of the directories that hold the most changed paths.
use vstd::prelude::*;
use crate::lines::{lex_less, lemma_lex_asymmetric, lemma_lex_total, lemma_lex_transitive, lemma_sorted_same_members_equal, sorted_by, text_less};
use crate::paths::{path_parent, path_parent_of};
use crate::text::str_eq;
use super::porcelain::{GitStatusEntry, EntrySpec, entry_specs};

verus! {

/// The directory a changed path is counted under: its parent, or `.` when
/// it has none or the parent is empty.
pub open spec fn change_dir(path: Seq<char>) -> Seq<char> {
    match path_parent_of(path) {
        Some(p) => if p.len() == 0 {
            "."@
        } else {
            p
        },
        None => "."@,
    }
}

/// Number of entries counted under directory `d`.
pub open spec fn dir_count(entries: Seq<EntrySpec>, d: Seq<char>) -> nat
    decreases entries.len(),
{
    if entries.len() == 0 {
        0
    } else {
        dir_count(entries.drop_last(), d) + if change_dir(entries.last().2) == d {
            1nat
        } else {
            0nat
        }
    }
}

/// `a` comes before `b`: more changed files first, then by directory name.
pub open spec fn ranks_before(a: (Seq<char>, nat), b: (Seq<char>, nat)) -> bool {
    a.1 > b.1 || (a.1 == b.1 && lex_less(a.0, b.0))
}

/// `r` lists, in rank order and without repeats, the first `limit`
/// directories of `entries` with their counts.
pub open spec fn is_dir_ranking(entries: Seq<EntrySpec>, r: Seq<(Seq<char>, nat)>, limit: nat) -> bool {
    &&& r.len() <= limit
    &&& forall|i: int| 0 <= i < r.len() ==> (#[trigger] r[i]).1 == dir_count(entries, r[i].0) && r[i].1 > 0
    &&& strictly_ranked(r)
    &&& forall|d: Seq<char>|
        #![trigger dir_count(entries, d)]
        dir_count(entries, d) > 0 && !(exists|i: int| 0 <= i < r.len() && r[i].0 == d) ==> {
            &&& r.len() == limit
            &&& forall|i: int| 0 <= i < r.len() ==> ranks_before(#[trigger] r[i], (d, dir_count(entries, d)))
        }
}

pub open spec fn dir_count_views(v: Seq<(String, usize)>) -> Seq<(Seq<char>, nat)> {
    v.map_values(|x: (String, usize)| (x.0@, x.1 as nat))
}

proof fn lemma_ranks_total(a: (Seq<char>, nat), b: (Seq<char>, nat))
    requires
        a.0 != b.0,
    ensures
        ranks_before(a, b) || ranks_before(b, a),
{
    lemma_lex_total(a.0, b.0);
}

proof fn lemma_ranks_transitive(a: (Seq<char>, nat), b: (Seq<char>, nat), c: (Seq<char>, nat))
    requires
        ranks_before(a, b),
        ranks_before(b, c),
    ensures
        ranks_before(a, c),
{
    if a.1 == b.1 && b.1 == c.1 {
        lemma_lex_transitive(a.0, b.0, c.0);
    }
}

proof fn lemma_ranks_asymmetric(a: (Seq<char>, nat), b: (Seq<char>, nat))
    ensures
        !(ranks_before(a, b) && ranks_before(b, a)),
{
    lemma_lex_asymmetric(a.0, b.0);
}

/// An entry of a ranking that is not in a second ranking of the same
/// entries cannot exist: the second would be full and rank all its entries
/// before it, and each of those would then be in the first as well.
proof fn lemma_ranking_members_in(entries: Seq<EntrySpec>, r1: Seq<(Seq<char>, nat)>, r2: Seq<(Seq<char>, nat)>, limit: nat, i: int)
    requires
        is_dir_ranking(entries, r1, limit),
        is_dir_ranking(entries, r2, limit),
        0 <= i < r1.len(),
    ensures
        r2.contains(r1[i]),
{
    let x = r1[i];
    assert(x.1 == dir_count(entries, x.0) && x.1 > 0);
    if exists|j: int| 0 <= j < r2.len() && r2[j].0 == x.0 {
        let j = choose|j: int| 0 <= j < r2.len() && r2[j].0 == x.0;
        assert(r2[j].1 == dir_count(entries, r2[j].0));
        assert(r2[j] == x);
    } else {
        assert(dir_count(entries, x.0) > 0);
        assert(r2.len() == limit);
        assert forall|j: int| 0 <= j < r2.len() implies r1.contains(#[trigger] r2[j]) by {
            let y = r2[j];
            assert(ranks_before(r2[j], (x.0, dir_count(entries, x.0))));
            assert(y.1 == dir_count(entries, y.0) && y.1 > 0);
            if exists|k: int| 0 <= k < r1.len() && r1[k].0 == y.0 {
                let k = choose|k: int| 0 <= k < r1.len() && r1[k].0 == y.0;
                assert(r1[k].1 == dir_count(entries, r1[k].0));
                assert(r1[k] == y);
            } else {
                assert(dir_count(entries, y.0) > 0);
                assert(ranks_before(r1[i], (y.0, dir_count(entries, y.0))));
                lemma_ranks_asymmetric(x, y);
                assert(false);
            }
        }
        // r2 holds no repeats, so its set has `limit` members, all in r1
        // and none equal to x; r1 would need more than `limit` members.
        assert(r2.no_duplicates()) by {
            assert forall|a: int, b: int| 0 <= a < r2.len() && 0 <= b < r2.len() && a != b
                implies r2[a] != r2[b] by {
                if a < b {
                    assert(ranks_before(r2[a], r2[b]));
                } else {
                    assert(ranks_before(r2[b], r2[a]));
                }
                lemma_lex_asymmetric(r2[a].0, r2[b].0);
                crate::lines::lemma_lex_irreflexive(r2[a].0);
            }
        }
        assert(r1.no_duplicates()) by {
            assert forall|a: int, b: int| 0 <= a < r1.len() && 0 <= b < r1.len() && a != b
                implies r1[a] != r1[b] by {
                if a < b {
                    assert(ranks_before(r1[a], r1[b]));
                } else {
                    assert(ranks_before(r1[b], r1[a]));
                }
                crate::lines::lemma_lex_irreflexive(r1[a].0);
            }
        }
        r2.unique_seq_to_set();
        r1.unique_seq_to_set();
        let s1 = r1.to_set().remove(x);
        assert(r1.to_set().contains(x)) by {
            assert(r1.contains(x));
        }
        assert(r1.to_set().finite()) by {
            vstd::seq_lib::seq_to_set_is_finite(r1);
        }
        assert forall|y: (Seq<char>, nat)| r2.to_set().contains(y) implies s1.contains(y) by {
            assert(r2.contains(y));
            let j = choose|j: int| 0 <= j < r2.len() && r2[j] == y;
            assert(r1.contains(r2[j]));
            if y == x {
                assert(exists|jj: int| 0 <= jj < r2.len() && r2[jj].0 == x.0);
            }
        }
        vstd::set_lib::lemma_len_subset(r2.to_set(), s1);
        assert(false);
    }
}

/// The ranking of the changed directories is one list: any two lists that
/// `is_dir_ranking` accepts for the same entries and limit are equal.
pub proof fn law_dir_ranking_determined(entries: Seq<EntrySpec>, r1: Seq<(Seq<char>, nat)>, r2: Seq<(Seq<char>, nat)>, limit: nat)
    requires
        is_dir_ranking(entries, r1, limit),
        is_dir_ranking(entries, r2, limit),
    ensures
        r1 == r2,
{
    let lt = |a: (Seq<char>, nat), b: (Seq<char>, nat)| ranks_before(a, b);
    assert forall|a: (Seq<char>, nat), b: (Seq<char>, nat)| #[trigger] lt(a, b) implies !lt(b, a) by {
        lemma_ranks_asymmetric(a, b);
    }
    assert(sorted_by(r1, lt));
    assert(sorted_by(r2, lt));
    assert forall|x: (Seq<char>, nat)| r1.contains(x) <==> r2.contains(x) by {
        if r1.contains(x) {
            let i = choose|i: int| 0 <= i < r1.len() && r1[i] == x;
            lemma_ranking_members_in(entries, r1, r2, limit, i);
        }
        if r2.contains(x) {
            let i = choose|i: int| 0 <= i < r2.len() && r2[i] == x;
            lemma_ranking_members_in(entries, r2, r1, limit, i);
        }
    }
    lemma_sorted_same_members_equal(r1, r2, lt);
}

/// The directory a changed path is counted under.
pub fn change_dir_of(path: &str) -> (r: String)
    ensures
        r@ == change_dir(path@),
{
    match path_parent(path) {
        Some(p) => if p.unicode_len() == 0 {
            String::from_str(".")
        } else {
            p
        },
        None => String::from_str("."),
    }
}

/// Counts of entries per directory, directories in first-seen order.
fn count_dirs(entries: &Vec<GitStatusEntry>) -> (r: Vec<(String, usize)>)
    ensures
        forall|i: int| 0 <= i < r@.len() ==> (#[trigger] r@[i]).1 as nat == dir_count(entry_specs(entries@), r@[i].0@) && r@[i].1 > 0,
        forall|i: int, j: int| 0 <= i < j < r@.len() ==> (#[trigger] r@[i]).0@ != (#[trigger] r@[j]).0@,
        forall|d: Seq<char>| #![trigger dir_count(entry_specs(entries@), d)]
            dir_count(entry_specs(entries@), d) > 0 ==> exists|i: int| 0 <= i < r@.len() && (#[trigger] r@[i]).0@ == d,
{
    let ghost es = entry_specs(entries@);
    let mut counts: Vec<(String, usize)> = Vec::new();
    let mut i: usize = 0;
    while i < entries.len()
        invariant
            i <= entries@.len(),
            es == entry_specs(entries@),
            forall|k: int| 0 <= k < counts@.len() ==> (#[trigger] counts@[k]).1 as nat == dir_count(es.subrange(0, i as int), counts@[k].0@) && counts@[k].1 > 0 && counts@[k].1 <= i,
            forall|k: int, l: int| 0 <= k < l < counts@.len() ==> (#[trigger] counts@[k]).0@ != (#[trigger] counts@[l]).0@,
            forall|d: Seq<char>| #![trigger dir_count(es.subrange(0, i as int), d)]
                dir_count(es.subrange(0, i as int), d) > 0 ==> exists|k: int| 0 <= k < counts@.len() && (#[trigger] counts@[k]).0@ == d,
        decreases entries@.len() - i,
    {
        let dir = change_dir_of(entries[i].path.as_str());
        let ghost pre = es.subrange(0, i as int);
        let ghost post = es.subrange(0, i + 1);
        proof {
            assert(post.drop_last() =~= pre);
            assert(post.last() == es[i as int]);
            assert(es[i as int].2 == entries@[i as int].path@);
            assert forall|d: Seq<char>| #[trigger] dir_count(post, d) == dir_count(pre, d) + if d == dir@ { 1nat } else { 0nat } by {}
        }
        let mut k: usize = 0;
        while k < counts.len() && !str_eq(counts[k].0.as_str(), dir.as_str())
            invariant
                k <= counts@.len(),
                forall|q: int| 0 <= q < k ==> (#[trigger] counts@[q]).0@ != dir@,
            decreases counts@.len() - k,
        {
            k = k + 1;
        }
        if k < counts.len() {
            let ghost old_counts = counts@;
            let c = counts[k].1;
            let name = counts[k].0.clone();
            counts.set(k, (name, c + 1));
            proof {
                assert forall|q: int| 0 <= q < counts@.len() implies (#[trigger] counts@[q]).1 as nat == dir_count(post, counts@[q].0@) && counts@[q].1 > 0 && counts@[q].1 <= i + 1 by {
                    if q == k {
                    } else {
                        assert(counts@[q] == old_counts[q]);
                        assert(old_counts[q].0@ != old_counts[k as int].0@);
                    }
                }
                assert forall|q: int, l: int| 0 <= q < l < counts@.len() implies (#[trigger] counts@[q]).0@ != (#[trigger] counts@[l]).0@ by {
                    assert(counts@[q].0@ == old_counts[q].0@);
                    assert(counts@[l].0@ == old_counts[l].0@);
                }
                assert forall|d: Seq<char>| #![trigger dir_count(post, d)] dir_count(post, d) > 0 implies exists|q: int| 0 <= q < counts@.len() && (#[trigger] counts@[q]).0@ == d by {
                    if d == dir@ {
                        assert(counts@[k as int].0@ == d);
                    } else {
                        assert(dir_count(pre, d) > 0);
                        let q = choose|q: int| 0 <= q < old_counts.len() && (#[trigger] old_counts[q]).0@ == d;
                        assert(counts@[q].0@ == d);
                    }
                }
            }
        } else {
            let ghost old_counts = counts@;
            proof {
                assert(dir_count(pre, dir@) == 0) by {
                    if dir_count(pre, dir@) > 0 {
                        let q = choose|q: int| 0 <= q < old_counts.len() && (#[trigger] old_counts[q]).0@ == dir@;
                    }
                }
            }
            counts.push((dir, 1));
            proof {
                assert forall|q: int| 0 <= q < counts@.len() implies (#[trigger] counts@[q]).1 as nat == dir_count(post, counts@[q].0@) && counts@[q].1 > 0 && counts@[q].1 <= i + 1 by {
                    if q < old_counts.len() {
                        assert(counts@[q] == old_counts[q]);
                    }
                }
                assert forall|d: Seq<char>| #![trigger dir_count(post, d)] dir_count(post, d) > 0 implies exists|q: int| 0 <= q < counts@.len() && (#[trigger] counts@[q]).0@ == d by {
                    if d == counts@[old_counts.len() as int].0@ {
                    } else {
                        assert(dir_count(pre, d) > 0);
                        let q = choose|q: int| 0 <= q < old_counts.len() && (#[trigger] old_counts[q]).0@ == d;
                        assert(counts@[q] == old_counts[q]);
                    }
                }
            }
        }
        i = i + 1;
    }
    assert(es.subrange(0, i as int) =~= es);
    counts
}

/// `a` ranks before `b` (executable form of `ranks_before`).
fn ranks_before_exec(a: &(String, usize), b: &(String, usize)) -> (r: bool)
    ensures
        r == ranks_before((a.0@, a.1 as nat), (b.0@, b.1 as nat)),
{
    a.1 > b.1 || (a.1 == b.1 && text_less(a.0.as_str(), b.0.as_str()))
}

/// `v` is in strict rank order.
pub open spec fn strictly_ranked(v: Seq<(Seq<char>, nat)>) -> bool {
    forall|i: int, j: int| 0 <= i < j < v.len() ==> ranks_before(#[trigger] v[i], #[trigger] v[j])
}

/// Inserts `x` at its place in a rank-ordered list of other directories.
fn insert_ranked(sorted: &mut Vec<(String, usize)>, x: (String, usize)) -> (p: usize)
    requires
        strictly_ranked(dir_count_views(old(sorted)@)),
        forall|q: int| 0 <= q < old(sorted)@.len() ==> (#[trigger] old(sorted)@[q]).0@ != x.0@,
    ensures
        p <= old(sorted)@.len(),
        final(sorted)@ == old(sorted)@.insert(p as int, x),
        strictly_ranked(dir_count_views(final(sorted)@)),
{
    let ghost xv = (x.0@, x.1 as nat);
    let ghost ov = dir_count_views(sorted@);
    let mut p: usize = 0;
    while p < sorted.len() && ranks_before_exec(&sorted[p], &x)
        invariant
            p <= sorted@.len(),
            xv == (x.0@, x.1 as nat),
            ov == dir_count_views(sorted@),
            forall|q: int| 0 <= q < p ==> ranks_before(#[trigger] ov[q], xv),
        decreases sorted@.len() - p,
    {
        assert(ov[p as int] == (sorted@[p as int].0@, sorted@[p as int].1 as nat));
        p = p + 1;
    }
    let ghost old_sorted = sorted@;
    proof {
        if p < old_sorted.len() {
            assert(ov[p as int] == (old_sorted[p as int].0@, old_sorted[p as int].1 as nat));
            assert(ov[p as int].0 != xv.0);
            lemma_ranks_total(ov[p as int], xv);
            assert(ranks_before(xv, ov[p as int]));
        }
    }
    sorted.insert(p, x);
    proof {
        let nv = dir_count_views(sorted@);
        assert forall|i: int| 0 <= i < sorted@.len() implies #[trigger] nv[i] == if i < p { ov[i] } else if i == p { xv } else { ov[i - 1] } by {}
        assert forall|i: int, j: int| 0 <= i < j < sorted@.len() implies ranks_before(#[trigger] nv[i], #[trigger] nv[j]) by {
            assert(nv[i] == if i < p { ov[i] } else if i == p { xv } else { ov[i - 1] });
            assert(nv[j] == if j < p { ov[j] } else if j == p { xv } else { ov[j - 1] });
            if i < p && j < p {
                assert(ranks_before(ov[i], ov[j]));
            } else if i < p && j == p {
            } else if i < p && j > p {
                assert(ranks_before(ov[i], ov[j - 1]));
            } else if i == p {
                if j - 1 > p {
                    assert(ranks_before(ov[p as int], ov[j - 1]));
                    lemma_ranks_transitive(xv, ov[p as int], ov[j - 1]);
                }
            } else {
                assert(ranks_before(ov[i - 1], ov[j - 1]));
            }
        }
    }
    p
}

/// `a` and `b` hold the same elements.
pub open spec fn same_members<T>(a: Seq<T>, b: Seq<T>) -> bool {
    &&& forall|i: int| 0 <= i < a.len() ==> b.contains(#[trigger] a[i])
    &&& forall|j: int| 0 <= j < b.len() ==> a.contains(#[trigger] b[j])
}

proof fn lemma_same_members_insert<T>(a: Seq<T>, b: Seq<T>, p: int, x: T)
    requires
        same_members(a, b),
        0 <= p <= a.len(),
    ensures
        same_members(a.insert(p, x), b.push(x)),
{
    let na = a.insert(p, x);
    let nb = b.push(x);
    assert forall|i: int| 0 <= i < na.len() implies nb.contains(#[trigger] na[i]) by {
        if i < p {
            assert(b.contains(a[i]));
            let j = choose|j: int| 0 <= j < b.len() && b[j] == a[i];
            assert(nb[j] == na[i]);
        } else if i == p {
            assert(nb[b.len() as int] == x);
        } else {
            assert(b.contains(a[i - 1]));
            let j = choose|j: int| 0 <= j < b.len() && b[j] == a[i - 1];
            assert(nb[j] == na[i]);
        }
    }
    assert forall|j: int| 0 <= j < nb.len() implies na.contains(#[trigger] nb[j]) by {
        if j < b.len() {
            assert(a.contains(b[j]));
            let i = choose|i: int| 0 <= i < a.len() && a[i] == b[j];
            if i < p {
                assert(na[i] == nb[j]);
            } else {
                assert(na[i + 1] == nb[j]);
            }
        } else {
            assert(na[p] == nb[j]);
        }
    }
}

/// Sorts distinct directory counts into rank order.
fn rank_dirs(counts: Vec<(String, usize)>) -> (r: Vec<(String, usize)>)
    requires
        forall|i: int, j: int| 0 <= i < j < counts@.len() ==> (#[trigger] counts@[i]).0@ != (#[trigger] counts@[j]).0@,
    ensures
        r@.len() == counts@.len(),
        strictly_ranked(dir_count_views(r@)),
        same_members(r@, counts@),
{
    let ghost orig = counts@;
    let mut sorted: Vec<(String, usize)> = Vec::new();
    let mut rest = counts;
    while rest.len() > 0
        invariant
            sorted@.len() + rest@.len() == orig.len(),
            rest@ == orig.subrange(sorted@.len() as int, orig.len() as int),
            forall|i: int, j: int| 0 <= i < j < orig.len() ==> (#[trigger] orig[i]).0@ != (#[trigger] orig[j]).0@,
            strictly_ranked(dir_count_views(sorted@)),
            same_members(sorted@, orig.subrange(0, sorted@.len() as int)),
        decreases rest@.len(),
    {
        let ghost n_done = sorted@.len();
        let x = rest.remove(0);
        assert(x == orig[n_done as int]);
        let ghost old_sorted = sorted@;
        proof {
            assert forall|q: int| 0 <= q < old_sorted.len() implies (#[trigger] old_sorted[q]).0@ != x.0@ by {
                assert(orig.subrange(0, n_done as int).contains(old_sorted[q]));
                let j = choose|j: int| 0 <= j < n_done && orig.subrange(0, n_done as int)[j] == old_sorted[q];
                assert(orig[j].0@ != orig[n_done as int].0@);
            }
        }
        let p = insert_ranked(&mut sorted, x);
        proof {
            lemma_same_members_insert(old_sorted, orig.subrange(0, n_done as int), p as int, x);
            assert(orig.subrange(0, n_done as int).push(x) =~= orig.subrange(0, (n_done + 1) as int));
            assert(rest@ =~= orig.subrange(sorted@.len() as int, orig.len() as int));
        }
    }
    assert(orig.subrange(0, orig.len() as int) =~= orig);
    sorted
}

/// The (at most five) directories with the most changed paths, most first,
/// ties broken by directory name.
pub fn top_changed_directories(entries: &Vec<GitStatusEntry>) -> (r: Vec<(String, usize)>)
    ensures
        is_dir_ranking(entry_specs(entries@), dir_count_views(r@), 5),
{
    let ghost es = entry_specs(entries@);
    let counts = count_dirs(entries);
    let ghost cv = counts@;
    let mut ranked = rank_dirs(counts);
    let ghost all = ranked@;
    if ranked.len() > 5 {
        ranked.truncate(5);
    }
    proof {
        let rv = dir_count_views(ranked@);
        let av = dir_count_views(all);
        assert(ranked@ == all.subrange(0, ranked@.len() as int));
        assert forall|i: int| 0 <= i < rv.len() implies (#[trigger] rv[i]).1 == dir_count(es, rv[i].0) && rv[i].1 > 0 by {
            assert(cv.contains(all[i]));
            assert(ranked@[i] == all[i]);
        }
        assert forall|i: int, j: int| 0 <= i < j < rv.len() implies ranks_before(#[trigger] rv[i], #[trigger] rv[j]) by {
            assert(rv[i] == av[i] && rv[j] == av[j]);
        }
        assert forall|d: Seq<char>| #![trigger dir_count(es, d)]
            dir_count(es, d) > 0 && !(exists|i: int| 0 <= i < rv.len() && rv[i].0 == d) implies {
                &&& rv.len() == 5
                &&& forall|i: int| 0 <= i < rv.len() ==> ranks_before(#[trigger] rv[i], (d, dir_count(es, d)))
            } by {
            let j = choose|j: int| 0 <= j < cv.len() && (#[trigger] cv[j]).0@ == d;
            assert(all.contains(cv[j]));
            let k = choose|k: int| 0 <= k < all.len() && all[k] == cv[j];
            assert(av[k] == (d, dir_count(es, d)));
            if k < rv.len() {
                assert(rv[k].0 == d);
            }
            assert(k >= rv.len());
            assert forall|i: int| 0 <= i < rv.len() implies ranks_before(#[trigger] rv[i], (d, dir_count(es, d))) by {
                assert(rv[i] == av[i]);
                assert(ranks_before(av[i], av[k]));
            }
        }
    }
    ranked
}

} // verus!
