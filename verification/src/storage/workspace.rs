//! Storage maintenance across the projects of a workspace.
use vstd::prelude::*;
use vstd::string::*;
use crate::json::{JsonSpec, JsonValue, jarr, jbool, ji64, jobj, js, jusize, views};
use crate::recommendation::scoring::bool_field_or;

verus! {

/// The storage picture of one project, read from its overview.
#[derive(Debug)]
pub struct StorageMaintenanceProjectSummary {
    /// The position of the project's overview in the input.
    pub source_index: usize,
    pub project_id: Option<String>,
    pub status: Option<String>,
    pub maintenance_candidate: bool,
    pub vacuum_candidate: bool,
    pub cleanup_review_candidate: bool,
    pub approx_db_size_bytes: i64,
    pub approx_reclaimable_bytes: i64,
    pub suggested_mode: Option<String>,
    pub summary: Option<String>,
}

/// The mathematical form of a project summary.
pub struct ProjectSummarySpec {
    pub source_index: nat,
    pub project_id: Option<Seq<char>>,
    pub status: Option<Seq<char>>,
    pub maintenance_candidate: bool,
    pub vacuum_candidate: bool,
    pub cleanup_review_candidate: bool,
    pub approx_db_size_bytes: int,
    pub approx_reclaimable_bytes: int,
    pub suggested_mode: Option<Seq<char>>,
    pub summary: Option<Seq<char>>,
}

pub open spec fn opt_text(s: Option<String>) -> Option<Seq<char>> {
    match s {
        Some(t) => Some(t@),
        None => None,
    }
}

impl View for StorageMaintenanceProjectSummary {
    type V = ProjectSummarySpec;

    open spec fn view(&self) -> ProjectSummarySpec {
        ProjectSummarySpec {
            source_index: self.source_index as nat,
            project_id: opt_text(self.project_id),
            status: opt_text(self.status),
            maintenance_candidate: self.maintenance_candidate,
            vacuum_candidate: self.vacuum_candidate,
            cleanup_review_candidate: self.cleanup_review_candidate,
            approx_db_size_bytes: self.approx_db_size_bytes as int,
            approx_reclaimable_bytes: self.approx_reclaimable_bytes as int,
            suggested_mode: opt_text(self.suggested_mode),
            summary: opt_text(self.summary),
        }
    }
}

/// `value[key].as_str()`, owned.
pub open spec fn text_field(v: JsonSpec, key: Seq<char>) -> Option<Seq<char>> {
    v.field(key).str_of()
}

/// The summary of the overview at position `idx`: flags default to false
/// and sizes to 0.
pub open spec fn project_summary_of(overview: JsonSpec, idx: nat) -> ProjectSummarySpec {
    let storage = overview.field("storage_maintenance"@);
    ProjectSummarySpec {
        source_index: idx,
        project_id: text_field(overview, "project_id"@),
        status: text_field(overview, "status"@),
        maintenance_candidate: storage.field("maintenance_candidate"@).bool_or(false),
        vacuum_candidate: storage.field("vacuum_candidate"@).bool_or(false),
        cleanup_review_candidate: storage.field("cleanup_review_candidate"@).bool_or(false),
        approx_db_size_bytes: storage.field("approx_db_size_bytes"@).i64_or(0),
        approx_reclaimable_bytes: storage.field("approx_reclaimable_bytes"@).i64_or(0),
        suggested_mode: text_field(storage, "suggested_mode"@),
        summary: text_field(storage, "summary"@),
    }
}

pub fn string_field(source: &JsonValue, field: &str) -> (r: Option<String>)
    ensures
        opt_text(r) == text_field(source@, field@),
{
    match source.get_str(field) {
        Some(s) => Some(String::from_str(s)),
        None => None,
    }
}

fn i64_field_or_zero(source: &JsonValue, field: &str) -> (r: i64)
    ensures
        r as int == source@.field(field@).i64_or(0),
{
    match source.get_i64(field) {
        Some(n) => n,
        None => 0,
    }
}

impl StorageMaintenanceProjectSummary {
    pub fn from_project_overview(project: &JsonValue, source_index: usize) -> (r: Self)
        ensures
            r@ == project_summary_of(project@, source_index as nat),
    {
        let storage = project.field("storage_maintenance");
        StorageMaintenanceProjectSummary {
            source_index,
            project_id: string_field(project, "project_id"),
            status: string_field(project, "status"),
            maintenance_candidate: bool_field_or(&storage, "maintenance_candidate", false),
            vacuum_candidate: bool_field_or(&storage, "vacuum_candidate", false),
            cleanup_review_candidate: bool_field_or(&storage, "cleanup_review_candidate", false),
            approx_db_size_bytes: i64_field_or_zero(&storage, "approx_db_size_bytes"),
            approx_reclaimable_bytes: i64_field_or_zero(&storage, "approx_reclaimable_bytes"),
            suggested_mode: string_field(&storage, "suggested_mode"),
            summary: string_field(&storage, "summary"),
        }
    }
}

/// `Some(text)` as a JSON string, `None` as `null`.
pub open spec fn opt_str_json(s: Option<Seq<char>>) -> JsonSpec {
    match s {
        Some(t) => JsonSpec::Str(t),
        None => JsonSpec::Null,
    }
}

fn opt_string_json(s: &Option<String>) -> (r: JsonValue)
    ensures
        r@ == opt_str_json(opt_text(*s)),
{
    match s {
        Some(t) => js(t.as_str()),
        None => JsonValue::Null,
    }
}

/// The JSON form of a priority project. The float reclaim ratio is not
/// part of it; the caller adds it from the overview at `source_index`.
pub open spec fn priority_project_json_spec(s: ProjectSummarySpec) -> JsonSpec {
    JsonSpec::Obj(seq![
        ("project_id"@, opt_str_json(s.project_id)),
        ("status"@, opt_str_json(s.status)),
        ("vacuum_candidate"@, JsonSpec::Bool(s.vacuum_candidate)),
        ("cleanup_review_candidate"@, JsonSpec::Bool(s.cleanup_review_candidate)),
        ("approx_db_size_bytes"@, JsonSpec::Num(s.approx_db_size_bytes)),
        ("approx_reclaimable_bytes"@, JsonSpec::Num(s.approx_reclaimable_bytes)),
        ("suggested_mode"@, opt_str_json(s.suggested_mode)),
        ("summary"@, opt_str_json(s.summary)),
    ])
}

impl StorageMaintenanceProjectSummary {
    pub fn priority_project_json(&self) -> (r: JsonValue)
        ensures
            r@ == priority_project_json_spec(self@),
    {
        let r = jobj(vec![
            ("project_id", opt_string_json(&self.project_id)),
            ("status", opt_string_json(&self.status)),
            ("vacuum_candidate", jbool(self.vacuum_candidate)),
            ("cleanup_review_candidate", jbool(self.cleanup_review_candidate)),
            ("approx_db_size_bytes", ji64(self.approx_db_size_bytes)),
            ("approx_reclaimable_bytes", ji64(self.approx_reclaimable_bytes)),
            ("suggested_mode", opt_string_json(&self.suggested_mode)),
            ("summary", opt_string_json(&self.summary)),
        ]);
        assert(r@->Obj_0 =~= priority_project_json_spec(self@)->Obj_0);
        r
    }
}

/// `a` comes before `b` among priority projects: vacuum candidates first,
/// then more reclaimable bytes, then larger databases, then input order.
pub open spec fn ranks_before(a: ProjectSummarySpec, b: ProjectSummarySpec) -> bool {
    if a.vacuum_candidate != b.vacuum_candidate {
        a.vacuum_candidate
    } else if a.approx_reclaimable_bytes != b.approx_reclaimable_bytes {
        a.approx_reclaimable_bytes > b.approx_reclaimable_bytes
    } else if a.approx_db_size_bytes != b.approx_db_size_bytes {
        a.approx_db_size_bytes > b.approx_db_size_bytes
    } else {
        a.source_index < b.source_index
    }
}

pub open spec fn strictly_ranked(v: Seq<ProjectSummarySpec>) -> bool {
    forall|i: int, j: int| 0 <= i < j < v.len() ==> ranks_before(#[trigger] v[i], #[trigger] v[j])
}

pub open spec fn summary_views(v: Seq<StorageMaintenanceProjectSummary>) -> Seq<ProjectSummarySpec> {
    v.map_values(|s: StorageMaintenanceProjectSummary| s@)
}

/// The summaries of all overviews, in input order.
pub open spec fn project_summaries(overviews: Seq<JsonSpec>) -> Seq<ProjectSummarySpec> {
    Seq::new(overviews.len(), |i: int| project_summary_of(overviews[i], i as nat))
}

/// `r` is the ranking of the (at most `limit`) first maintenance candidates
/// among `all`: each a candidate of `all`, in rank order, and every
/// candidate left out ranks after all of them, with the list full.
pub open spec fn is_priority_ranking(all: Seq<ProjectSummarySpec>, r: Seq<ProjectSummarySpec>, limit: nat) -> bool {
    &&& r.len() <= limit
    &&& forall|i: int| 0 <= i < r.len() ==> {
        &&& (#[trigger] r[i]).source_index < all.len()
        &&& r[i] == all[r[i].source_index as int]
        &&& r[i].maintenance_candidate
    }
    &&& strictly_ranked(r)
    &&& forall|k: int| 0 <= k < all.len() && (#[trigger] all[k]).maintenance_candidate
        && !(exists|i: int| 0 <= i < r.len() && r[i].source_index == k) ==> {
            &&& r.len() == limit
            &&& forall|i: int| 0 <= i < r.len() ==> ranks_before(#[trigger] r[i], all[k])
        }
}

/// The number of summaries with a property.
pub open spec fn count_candidates(v: Seq<ProjectSummarySpec>, vacuum: bool) -> nat
    decreases v.len(),
{
    if v.len() == 0 {
        0
    } else {
        count_candidates(v.drop_last(), vacuum) + if (if vacuum { v.last().vacuum_candidate } else { v.last().maintenance_candidate }) {
            1nat
        } else {
            0nat
        }
    }
}

/// The sum of the database sizes (or of the reclaimable bytes).
pub open spec fn total_bytes(v: Seq<ProjectSummarySpec>, reclaimable: bool) -> int
    decreases v.len(),
{
    if v.len() == 0 {
        0
    } else {
        total_bytes(v.drop_last(), reclaimable) + if reclaimable {
            v.last().approx_reclaimable_bytes
        } else {
            v.last().approx_db_size_bytes
        }
    }
}

/// Every partial sum of sizes and of reclaimable bytes fits in 64 bits.
pub open spec fn totals_fit(v: Seq<ProjectSummarySpec>) -> bool {
    forall|k: int| 0 <= k <= v.len() ==> {
        &&& i64::MIN <= #[trigger] total_bytes(v.subrange(0, k), false) <= i64::MAX
        &&& i64::MIN <= total_bytes(v.subrange(0, k), true) <= i64::MAX
    }
}

/// The storage picture of a workspace.
#[derive(Debug)]
pub struct StorageMaintenanceWorkspaceSummary {
    pub projects_with_candidates: usize,
    pub projects_with_vacuum_candidates: usize,
    pub total_approx_db_size_bytes: i64,
    pub total_approx_reclaimable_bytes: i64,
    pub priority_projects: Vec<StorageMaintenanceProjectSummary>,
}

/// The workspace summary of the overviews: candidate counts, byte totals,
/// and the five maintenance candidates that need attention first.
pub open spec fn workspace_summary_matches(s: StorageMaintenanceWorkspaceSummary, overviews: Seq<JsonSpec>) -> bool {
    let all = project_summaries(overviews);
    &&& s.projects_with_candidates == count_candidates(all, false)
    &&& s.projects_with_vacuum_candidates == count_candidates(all, true)
    &&& s.total_approx_db_size_bytes == total_bytes(all, false)
    &&& s.total_approx_reclaimable_bytes == total_bytes(all, true)
    &&& is_priority_ranking(all, summary_views(s.priority_projects@), 5)
}

fn ranks_before_exec(a: &StorageMaintenanceProjectSummary, b: &StorageMaintenanceProjectSummary) -> (r: bool)
    ensures
        r == ranks_before(a@, b@),
{
    if a.vacuum_candidate != b.vacuum_candidate {
        a.vacuum_candidate
    } else if a.approx_reclaimable_bytes != b.approx_reclaimable_bytes {
        a.approx_reclaimable_bytes > b.approx_reclaimable_bytes
    } else if a.approx_db_size_bytes != b.approx_db_size_bytes {
        a.approx_db_size_bytes > b.approx_db_size_bytes
    } else {
        a.source_index < b.source_index
    }
}

proof fn lemma_ranks_total(a: ProjectSummarySpec, b: ProjectSummarySpec)
    requires
        a.source_index != b.source_index,
    ensures
        ranks_before(a, b) || ranks_before(b, a),
{
}

proof fn lemma_ranks_transitive(a: ProjectSummarySpec, b: ProjectSummarySpec, c: ProjectSummarySpec)
    requires
        ranks_before(a, b),
        ranks_before(b, c),
    ensures
        ranks_before(a, c),
{
}

/// Inserts a summary at its place in a ranked list of other projects.
fn insert_ranked(sorted: &mut Vec<StorageMaintenanceProjectSummary>, x: StorageMaintenanceProjectSummary) -> (p: usize)
    requires
        strictly_ranked(summary_views(old(sorted)@)),
        forall|q: int| 0 <= q < old(sorted)@.len() ==> (#[trigger] old(sorted)@[q]).source_index != x.source_index,
    ensures
        p <= old(sorted)@.len(),
        final(sorted)@ == old(sorted)@.insert(p as int, x),
        strictly_ranked(summary_views(final(sorted)@)),
{
    let ghost xv = x@;
    let ghost ov = summary_views(sorted@);
    let mut p: usize = 0;
    while p < sorted.len() && ranks_before_exec(&sorted[p], &x)
        invariant
            p <= sorted@.len(),
            xv == x@,
            ov == summary_views(sorted@),
            forall|q: int| 0 <= q < p ==> ranks_before(#[trigger] ov[q], xv),
        decreases sorted@.len() - p,
    {
        assert(ov[p as int] == sorted@[p as int]@);
        p = p + 1;
    }
    let ghost old_sorted = sorted@;
    proof {
        if p < old_sorted.len() {
            assert(ov[p as int] == old_sorted[p as int]@);
            lemma_ranks_total(ov[p as int], xv);
        }
    }
    sorted.insert(p, x);
    proof {
        let nv = summary_views(sorted@);
        assert forall|i: int| 0 <= i < sorted@.len() implies #[trigger] nv[i] == if i < p { ov[i] } else if i == p { xv } else { ov[i - 1] } by {}
        assert forall|i: int, j: int| 0 <= i < j < sorted@.len() implies ranks_before(#[trigger] nv[i], #[trigger] nv[j]) by {
            assert(nv[i] == if i < p { ov[i] } else if i == p { xv } else { ov[i - 1] });
            assert(nv[j] == if j < p { ov[j] } else if j == p { xv } else { ov[j - 1] });
            if i < p && j < p {
                assert(ranks_before(ov[i], ov[j]));
            } else if i < p && j == p {
            } else if i < p && j > p {
                assert(ranks_before(ov[i], ov[j - 1]));
            } else if i == p {
                if j - 1 > p {
                    assert(ranks_before(ov[p as int], ov[j - 1]));
                    lemma_ranks_transitive(xv, ov[p as int], ov[j - 1]);
                }
            } else {
                assert(ranks_before(ov[i - 1], ov[j - 1]));
            }
        }
    }
    p
}

impl StorageMaintenanceWorkspaceSummary {
    pub fn from_project_overviews(project_overviews: &[JsonValue]) -> (r: Self)
        requires
            totals_fit(project_summaries(views(project_overviews@))),
        ensures
            workspace_summary_matches(r, views(project_overviews@)),
    {
        let ghost ovs = views(project_overviews@);
        let ghost all = project_summaries(ovs);
        let n = project_overviews.len();
        let mut with_candidates: usize = 0;
        let mut with_vacuum: usize = 0;
        let mut total_size: i64 = 0;
        let mut total_reclaimable: i64 = 0;
        let mut sorted: Vec<StorageMaintenanceProjectSummary> = Vec::new();
        let mut i: usize = 0;
        while i < n
            invariant
                n == project_overviews@.len(),
                ovs == views(project_overviews@),
                all == project_summaries(ovs),
                totals_fit(all),
                i <= n,
                with_candidates == count_candidates(all.subrange(0, i as int), false),
                with_vacuum == count_candidates(all.subrange(0, i as int), true),
                with_candidates <= i,
                with_vacuum <= i,
                total_size == total_bytes(all.subrange(0, i as int), false),
                total_reclaimable == total_bytes(all.subrange(0, i as int), true),
                strictly_ranked(summary_views(sorted@)),
                forall|q: int| 0 <= q < sorted@.len() ==> {
                    &&& (#[trigger] sorted@[q])@.source_index < i
                    &&& sorted@[q]@ == all[sorted@[q]@.source_index as int]
                    &&& sorted@[q]@.maintenance_candidate
                },
                forall|k: int| 0 <= k < i && (#[trigger] all[k]).maintenance_candidate ==>
                    exists|q: int| 0 <= q < sorted@.len() && sorted@[q]@.source_index == k,
            decreases n - i,
        {
            let summary = StorageMaintenanceProjectSummary::from_project_overview(&project_overviews[i], i);
            let ghost pre = all.subrange(0, i as int);
            let ghost post = all.subrange(0, i + 1);
            proof {
                assert(post.drop_last() =~= pre);
                assert(all[i as int] == summary@);
                assert(post.last() == summary@);
                assert(all.subrange(0, i + 1) == post);
                assert(total_bytes(post, false) == total_bytes(pre, false) + summary@.approx_db_size_bytes);
                assert(total_bytes(post, true) == total_bytes(pre, true) + summary@.approx_reclaimable_bytes);
                assert(i64::MIN <= total_bytes(all.subrange(0, i + 1), false) <= i64::MAX);
                assert(i64::MIN <= total_bytes(all.subrange(0, i + 1), true) <= i64::MAX);
            }
            if summary.maintenance_candidate {
                with_candidates = with_candidates + 1;
            }
            if summary.vacuum_candidate {
                with_vacuum = with_vacuum + 1;
            }
            total_size = total_size + summary.approx_db_size_bytes;
            total_reclaimable = total_reclaimable + summary.approx_reclaimable_bytes;
            if summary.maintenance_candidate {
                let ghost old_sorted = sorted@;
                proof {
                    assert forall|q: int| 0 <= q < old_sorted.len() implies (#[trigger] old_sorted[q]).source_index != summary.source_index by {
                        assert(old_sorted[q]@.source_index < i);
                    }
                }
                let p = insert_ranked(&mut sorted, summary);
                proof {
                    assert forall|q: int| 0 <= q < sorted@.len() implies {
                        &&& (#[trigger] sorted@[q])@.source_index < i + 1
                        &&& sorted@[q]@ == all[sorted@[q]@.source_index as int]
                        &&& sorted@[q]@.maintenance_candidate
                    } by {
                        if q < p {
                            assert(sorted@[q] == old_sorted[q]);
                        } else if q > p {
                            assert(sorted@[q] == old_sorted[q - 1]);
                        }
                    }
                    assert forall|k: int| 0 <= k < i + 1 && (#[trigger] all[k]).maintenance_candidate implies
                        exists|q: int| 0 <= q < sorted@.len() && sorted@[q]@.source_index == k by {
                        if k == i {
                            assert(sorted@[p as int]@.source_index == k);
                        } else {
                            let q = choose|q: int| 0 <= q < old_sorted.len() && old_sorted[q]@.source_index == k;
                            if q < p {
                                assert(sorted@[q] == old_sorted[q]);
                            } else {
                                assert(sorted@[q + 1] == old_sorted[q]);
                            }
                        }
                    }
                }
            }
            i = i + 1;
        }
        proof {
            assert(all.subrange(0, n as int) =~= all);
        }
        let ghost full = sorted@;
        if sorted.len() > 5 {
            sorted.truncate(5);
        }
        proof {
            let rv = summary_views(sorted@);
            let fv = summary_views(full);
            assert(sorted@ == full.subrange(0, sorted@.len() as int));
            assert forall|q: int| 0 <= q < rv.len() implies {
                &&& (#[trigger] rv[q]).source_index < all.len()
                &&& rv[q] == all[rv[q].source_index as int]
                &&& rv[q].maintenance_candidate
            } by {
                assert(rv[q] == full[q]@);
            }
            assert forall|a: int, b: int| 0 <= a < b < rv.len() implies ranks_before(#[trigger] rv[a], #[trigger] rv[b]) by {
                assert(rv[a] == fv[a] && rv[b] == fv[b]);
            }
            assert forall|k: int| 0 <= k < all.len() && (#[trigger] all[k]).maintenance_candidate
                && !(exists|q: int| 0 <= q < rv.len() && rv[q].source_index == k) implies {
                    &&& rv.len() == 5
                    &&& forall|q: int| 0 <= q < rv.len() ==> ranks_before(#[trigger] rv[q], all[k])
                } by {
                let j = choose|j: int| 0 <= j < full.len() && full[j]@.source_index == k;
                if j < rv.len() {
                    assert(rv[j] == full[j]@);
                }
                assert forall|q: int| 0 <= q < rv.len() implies ranks_before(#[trigger] rv[q], all[k]) by {
                    assert(rv[q] == fv[q]);
                    assert(fv[j] == all[k]);
                    assert(ranks_before(fv[q], fv[j]));
                }
            }
        }
        StorageMaintenanceWorkspaceSummary {
            projects_with_candidates: with_candidates,
            projects_with_vacuum_candidates: with_vacuum,
            total_approx_db_size_bytes: total_size,
            total_approx_reclaimable_bytes: total_reclaimable,
            priority_projects: sorted,
        }
    }

    pub fn priority_projects_json(&self) -> (r: Vec<JsonValue>)
        ensures
            views(r@) == summary_views(self.priority_projects@).map_values(|s: ProjectSummarySpec| priority_project_json_spec(s)),
    {
        let mut out: Vec<JsonValue> = Vec::new();
        let mut i: usize = 0;
        while i < self.priority_projects.len()
            invariant
                i <= self.priority_projects@.len(),
                views(out@) == summary_views(self.priority_projects@).map_values(|s: ProjectSummarySpec| priority_project_json_spec(s)).subrange(0, i as int),
            decreases self.priority_projects@.len() - i,
        {
            let t = self.priority_projects[i].priority_project_json();
            let ghost before = out@;
            out.push(t);
            assert(views(out@) =~= views(before).push(t@));
            assert(views(out@) =~= summary_views(self.priority_projects@).map_values(|s: ProjectSummarySpec| priority_project_json_spec(s)).subrange(0, i + 1));
            i = i + 1;
        }
        assert(summary_views(self.priority_projects@).map_values(|s: ProjectSummarySpec| priority_project_json_spec(s)).subrange(0, i as int)
            =~= summary_views(self.priority_projects@).map_values(|s: ProjectSummarySpec| priority_project_json_spec(s)));
        out
    }
}

/// The storage maintenance layer of a workspace.
pub open spec fn storage_layer_json(s: StorageMaintenanceWorkspaceSummary) -> JsonSpec {
    JsonSpec::Obj(seq![
        ("status"@, JsonSpec::Str("available"@)),
        ("projects_with_candidates"@, JsonSpec::Num(s.projects_with_candidates as int)),
        ("projects_with_vacuum_candidates"@, JsonSpec::Num(s.projects_with_vacuum_candidates as int)),
        ("total_approx_db_size_bytes"@, JsonSpec::Num(s.total_approx_db_size_bytes as int)),
        ("total_approx_reclaimable_bytes"@, JsonSpec::Num(s.total_approx_reclaimable_bytes as int)),
        ("priority_projects"@, JsonSpec::Arr(
            summary_views(s.priority_projects@).map_values(|p: ProjectSummarySpec| priority_project_json_spec(p)),
        )),
    ])
}

/// The layer together with the summary it was built from (whose
/// `source_index`es tell where each priority project came from).
pub fn storage_maintenance_layer(project_overviews: &[JsonValue]) -> (r: (JsonValue, StorageMaintenanceWorkspaceSummary))
    requires
        totals_fit(project_summaries(views(project_overviews@))),
    ensures
        workspace_summary_matches(r.1, views(project_overviews@)),
        r.0@ == storage_layer_json(r.1),
{
    let summary = StorageMaintenanceWorkspaceSummary::from_project_overviews(project_overviews);
    let priority = summary.priority_projects_json();
    let ghost pv = summary_views(summary.priority_projects@).map_values(|p: ProjectSummarySpec| priority_project_json_spec(p));
    let r = jobj(vec![
        ("status", js("available")),
        ("projects_with_candidates", jusize(summary.projects_with_candidates)),
        ("projects_with_vacuum_candidates", jusize(summary.projects_with_vacuum_candidates)),
        ("total_approx_db_size_bytes", ji64(summary.total_approx_db_size_bytes)),
        ("total_approx_reclaimable_bytes", ji64(summary.total_approx_reclaimable_bytes)),
        ("priority_projects", jarr(priority)),
    ]);
    assert(r@->Obj_0 =~= storage_layer_json(summary)->Obj_0);
    (r, summary)
}

} // verus!
