//! What the command templates read back from a maintenance report.
use vstd::prelude::*;
use vstd::string::*;
use crate::json::{JsonSpec, JsonValue, jarr, jobj, js, views};
use crate::text::str_eq;
use super::policy::RetentionPolicy;

verus! {

/// The evidence a cleanup covers.
#[derive(Debug, Clone, Copy, PartialEq, Eq, Structural)]
pub enum StorageCleanupScope {
    Activity,
    Snapshots,
    Verification,
    All,
}

/// The scope a name stands for.
pub open spec fn scope_of(name: Seq<char>) -> Option<StorageCleanupScope> {
    if name == "activity"@ {
        Some(StorageCleanupScope::Activity)
    } else if name == "snapshots"@ {
        Some(StorageCleanupScope::Snapshots)
    } else if name == "verification"@ {
        Some(StorageCleanupScope::Verification)
    } else if name == "all"@ {
        Some(StorageCleanupScope::All)
    } else {
        None
    }
}

impl StorageCleanupScope {
    pub fn from_str(scope: &str) -> (r: Option<Self>)
        ensures
            r == scope_of(scope@),
    {
        if str_eq(scope, "activity") {
            Some(StorageCleanupScope::Activity)
        } else if str_eq(scope, "snapshots") {
            Some(StorageCleanupScope::Snapshots)
        } else if str_eq(scope, "verification") {
            Some(StorageCleanupScope::Verification)
        } else if str_eq(scope, "all") {
            Some(StorageCleanupScope::All)
        } else {
            None
        }
    }

    pub open spec fn name(self) -> Seq<char> {
        match self {
            StorageCleanupScope::Activity => "activity"@,
            StorageCleanupScope::Snapshots => "snapshots"@,
            StorageCleanupScope::Verification => "verification"@,
            StorageCleanupScope::All => "all"@,
        }
    }

    pub fn as_str(self) -> (r: &'static str)
        ensures
            r@ == self.name(),
    {
        match self {
            StorageCleanupScope::Activity => "activity",
            StorageCleanupScope::Snapshots => "snapshots",
            StorageCleanupScope::Verification => "verification",
            StorageCleanupScope::All => "all",
        }
    }

    /// Verification keeps its own age; every other scope uses the activity age.
    pub open spec fn default_days(self, p: RetentionPolicy) -> i64 {
        match self {
            StorageCleanupScope::Verification => p.verification_retention_days,
            _ => p.activity_retention_days,
        }
    }

    pub fn default_older_than_days(self, policy: &RetentionPolicy) -> (r: i64)
        ensures
            r == self.default_days(*policy),
    {
        match self {
            StorageCleanupScope::Verification => policy.verification_retention_days,
            StorageCleanupScope::Activity | StorageCleanupScope::All => policy.activity_retention_days,
            StorageCleanupScope::Snapshots => policy.activity_retention_days,
        }
    }
}

/// `value.as_i64()` as an optional machine integer.
pub open spec fn opt_i64(v: JsonSpec) -> Option<i64> {
    match v.i64_of() {
        Some(n) => Some(n as i64),
        None => None,
    }
}

/// A scope-specific cleanup recommendation.
#[derive(Debug, Clone, Copy, PartialEq, Eq)]
pub struct StorageCleanupRecommendation {
    pub scope: StorageCleanupScope,
    pub older_than_days: Option<i64>,
    pub keep_snapshot_runs: Option<i64>,
}

/// The recommendation a JSON value describes: one with a known scope other
/// than "all".
pub open spec fn recommendation_of(v: JsonSpec) -> Option<StorageCleanupRecommendation> {
    match v.field("scope"@) {
        JsonSpec::Str(name) => match scope_of(name) {
            Some(scope) => if scope == StorageCleanupScope::All {
                None
            } else {
                Some(StorageCleanupRecommendation {
                    scope,
                    older_than_days: opt_i64(v.field("older_than_days"@)),
                    keep_snapshot_runs: opt_i64(v.field("keep_snapshot_runs"@)),
                })
            },
            None => None,
        },
        _ => None,
    }
}

pub fn field_i64(v: &JsonValue, key: &str) -> (r: Option<i64>)
    ensures
        r == opt_i64(v@.field(key@)),
{
    v.get_i64(key)
}

impl StorageCleanupRecommendation {
    pub fn from_value(recommendation: &JsonValue) -> (r: Option<Self>)
        ensures
            r == recommendation_of(recommendation@),
    {
        let name = match recommendation.get_str("scope") {
            Some(s) => s,
            None => return None,
        };
        let scope = match StorageCleanupScope::from_str(name) {
            Some(s) => s,
            None => return None,
        };
        if scope == StorageCleanupScope::All {
            return None;
        }
        Some(StorageCleanupRecommendation {
            scope,
            older_than_days: field_i64(recommendation, "older_than_days"),
            keep_snapshot_runs: field_i64(recommendation, "keep_snapshot_runs"),
        })
    }

    pub open spec fn days(self, p: RetentionPolicy) -> i64 {
        match self.older_than_days {
            Some(n) => n,
            None => self.scope.default_days(p),
        }
    }

    pub fn older_than_days_or_default(&self, policy: &RetentionPolicy) -> (r: i64)
        ensures
            r == self.days(*policy),
    {
        match self.older_than_days {
            Some(n) => n,
            None => self.scope.default_older_than_days(policy),
        }
    }

    pub open spec fn keep_runs(self, p: RetentionPolicy) -> i64 {
        match self.keep_snapshot_runs {
            Some(n) => n,
            None => p.keep_snapshot_runs,
        }
    }

    pub fn keep_snapshot_runs_or_default(&self, policy: &RetentionPolicy) -> (r: i64)
        ensures
            r == self.keep_runs(*policy),
    {
        match self.keep_snapshot_runs {
            Some(n) => n,
            None => policy.keep_snapshot_runs,
        }
    }
}

/// A confirmed execution step of a cleanup plan.
#[derive(Debug, Clone, Copy, PartialEq, Eq)]
pub struct StorageCleanupPlanStep {
    pub scope: StorageCleanupScope,
    pub older_than_days: Option<i64>,
    pub keep_snapshot_runs: Option<i64>,
}

/// A parameter of a plan step: at the top level, else among its
/// retention parameters.
pub open spec fn step_param(v: JsonSpec, key: Seq<char>) -> Option<i64> {
    match opt_i64(v.field(key)) {
        Some(n) => Some(n),
        None => opt_i64(v.field("retention_parameters"@).field(key)),
    }
}

/// The execution step a JSON value describes: one in the
/// "execute_cleanup" phase with a known scope.
pub open spec fn plan_step_of(v: JsonSpec) -> Option<StorageCleanupPlanStep> {
    if v.field("phase"@) != JsonSpec::Str("execute_cleanup"@) {
        None
    } else {
        match v.field("scope"@) {
            JsonSpec::Str(name) => match scope_of(name) {
                Some(scope) => Some(StorageCleanupPlanStep {
                    scope,
                    older_than_days: step_param(v, "older_than_days"@),
                    keep_snapshot_runs: step_param(v, "keep_snapshot_runs"@),
                }),
                None => None,
            },
            _ => None,
        }
    }
}

pub fn plan_step_param(v: &JsonValue, key: &str) -> (r: Option<i64>)
    ensures
        r == step_param(v@, key@),
{
    match field_i64(v, key) {
        Some(n) => Some(n),
        None => {
            let params = v.field("retention_parameters");
            field_i64(&params, key)
        },
    }
}

impl StorageCleanupPlanStep {
    pub fn from_value(plan_step: &JsonValue) -> (r: Option<Self>)
        ensures
            r == plan_step_of(plan_step@),
    {
        let is_execute = match plan_step.get_str("phase") {
            Some(phase) => str_eq(phase, "execute_cleanup"),
            None => false,
        };
        if !is_execute {
            return None;
        }
        let name = match plan_step.get_str("scope") {
            Some(s) => s,
            None => return None,
        };
        let scope = match StorageCleanupScope::from_str(name) {
            Some(s) => s,
            None => return None,
        };
        Some(StorageCleanupPlanStep {
            scope,
            older_than_days: plan_step_param(plan_step, "older_than_days"),
            keep_snapshot_runs: plan_step_param(plan_step, "keep_snapshot_runs"),
        })
    }

    pub open spec fn days(self, p: RetentionPolicy) -> i64 {
        match self.older_than_days {
            Some(n) => n,
            None => self.scope.default_days(p),
        }
    }

    pub fn older_than_days_or_default(&self, policy: &RetentionPolicy) -> (r: i64)
        ensures
            r == self.days(*policy),
    {
        match self.older_than_days {
            Some(n) => n,
            None => self.scope.default_older_than_days(policy),
        }
    }

    pub open spec fn keep_runs(self, p: RetentionPolicy) -> i64 {
        match self.keep_snapshot_runs {
            Some(n) => n,
            None => p.keep_snapshot_runs,
        }
    }

    pub fn keep_snapshot_runs_or_default(&self, policy: &RetentionPolicy) -> (r: i64)
        ensures
            r == self.keep_runs(*policy),
    {
        match self.keep_snapshot_runs {
            Some(n) => n,
            None => policy.keep_snapshot_runs,
        }
    }
}

/// The recommendations a JSON array describes, in order.
pub open spec fn recommendations_of(items: Seq<JsonSpec>) -> Seq<StorageCleanupRecommendation>
    decreases items.len(),
{
    if items.len() == 0 {
        Seq::empty()
    } else {
        let rest = recommendations_of(items.drop_last());
        match recommendation_of(items.last()) {
            Some(r) => rest.push(r),
            None => rest,
        }
    }
}

/// The execution steps a JSON array describes, in order.
pub open spec fn plan_steps_of(items: Seq<JsonSpec>) -> Seq<StorageCleanupPlanStep>
    decreases items.len(),
{
    if items.len() == 0 {
        Seq::empty()
    } else {
        let rest = plan_steps_of(items.drop_last());
        match plan_step_of(items.last()) {
            Some(s) => rest.push(s),
            None => rest,
        }
    }
}

/// What the command templates of one maintenance report are built from.
#[derive(Debug)]
pub struct StorageMaintenanceTemplateContext {
    pub project_id_value: String,
    pub project_placeholder_required: bool,
    pub maintenance_candidate: bool,
    pub vacuum_candidate: bool,
    pub approx_reclaimable_bytes: i64,
    pub cleanup_recommendations: Vec<StorageCleanupRecommendation>,
    pub cleanup_plan_steps: Vec<StorageCleanupPlanStep>,
}

pub open spec fn opt_str(s: Option<&str>) -> Option<Seq<char>> {
    match s {
        Some(t) => Some(t@),
        None => None,
    }
}

/// The project id, or the placeholder `<project>` without one.
pub open spec fn project_value(project_id: Option<Seq<char>>) -> Seq<char> {
    match project_id {
        Some(id) => id,
        None => "<project>"@,
    }
}

/// The context read from a maintenance report: flags default to false, the
/// reclaimable bytes to 0, and the recommendations and execution steps are
/// those the report's arrays describe.
pub open spec fn context_matches(c: StorageMaintenanceTemplateContext, project_id: Option<Seq<char>>, sm: JsonSpec) -> bool {
    &&& c.project_id_value@ == project_value(project_id)
    &&& c.project_placeholder_required == (project_id is None)
    &&& c.maintenance_candidate == sm.field("maintenance_candidate"@).bool_or(false)
    &&& c.vacuum_candidate == sm.field("vacuum_candidate"@).bool_or(false)
    &&& c.approx_reclaimable_bytes == sm.field("approx_reclaimable_bytes"@).i64_or(0)
    &&& c.cleanup_recommendations@ == match sm.field("cleanup_recommendations"@) {
        JsonSpec::Arr(items) => recommendations_of(items),
        _ => Seq::empty(),
    }
    &&& c.cleanup_plan_steps@ == match sm.field("cleanup_plan"@).field("steps"@) {
        JsonSpec::Arr(items) => plan_steps_of(items),
        _ => Seq::empty(),
    }
}

/// The placeholder hints: one for the project id when it is missing.
pub open spec fn placeholder_hint_json(required: bool) -> JsonSpec {
    if required {
        JsonSpec::Arr(seq![JsonSpec::Obj(seq![
            ("field"@, JsonSpec::Str("id"@)),
            ("placeholder"@, JsonSpec::Str("<project>"@)),
            ("description"@, JsonSpec::Str("replace with a registered OPENDOG project id"@)),
        ])])
    } else {
        JsonSpec::Arr(Seq::empty())
    }
}

fn parse_recommendations(items: &Vec<JsonValue>) -> (r: Vec<StorageCleanupRecommendation>)
    ensures
        r@ == recommendations_of(views(items@)),
{
    let ghost spec_items = views(items@);
    let mut out: Vec<StorageCleanupRecommendation> = Vec::new();
    let mut i: usize = 0;
    while i < items.len()
        invariant
            i <= items@.len(),
            spec_items == views(items@),
            out@ == recommendations_of(spec_items.subrange(0, i as int)),
        decreases items@.len() - i,
    {
        proof {
            assert(spec_items.subrange(0, i + 1).drop_last() =~= spec_items.subrange(0, i as int));
        }
        match StorageCleanupRecommendation::from_value(&items[i]) {
            Some(r) => out.push(r),
            None => {},
        }
        i = i + 1;
    }
    assert(spec_items.subrange(0, items@.len() as int) =~= spec_items);
    out
}

fn parse_plan_steps(items: &Vec<JsonValue>) -> (r: Vec<StorageCleanupPlanStep>)
    ensures
        r@ == plan_steps_of(views(items@)),
{
    let ghost spec_items = views(items@);
    let mut out: Vec<StorageCleanupPlanStep> = Vec::new();
    let mut i: usize = 0;
    while i < items.len()
        invariant
            i <= items@.len(),
            spec_items == views(items@),
            out@ == plan_steps_of(spec_items.subrange(0, i as int)),
        decreases items@.len() - i,
    {
        proof {
            assert(spec_items.subrange(0, i + 1).drop_last() =~= spec_items.subrange(0, i as int));
        }
        match StorageCleanupPlanStep::from_value(&items[i]) {
            Some(s) => out.push(s),
            None => {},
        }
        i = i + 1;
    }
    assert(spec_items.subrange(0, items@.len() as int) =~= spec_items);
    out
}

impl StorageMaintenanceTemplateContext {
    pub fn from_inputs(project_id: Option<&str>, storage_maintenance: &JsonValue) -> (r: Self)
        ensures
            context_matches(r, opt_str(project_id), storage_maintenance@),
    {
        let project_id_value = match project_id {
            Some(id) => String::from_str(id),
            None => String::from_str("<project>"),
        };
        let cleanup_recommendations = match storage_maintenance.get_array("cleanup_recommendations") {
            Some(items) => parse_recommendations(items),
            None => Vec::new(),
        };
        let plan = storage_maintenance.field("cleanup_plan");
        let cleanup_plan_steps = match plan.get_array("steps") {
            Some(items) => parse_plan_steps(items),
            None => Vec::new(),
        };
        let maintenance_candidate = match storage_maintenance.get_bool("maintenance_candidate") {
            Some(b) => b,
            None => false,
        };
        let vacuum_candidate = match storage_maintenance.get_bool("vacuum_candidate") {
            Some(b) => b,
            None => false,
        };
        let approx_reclaimable_bytes = match storage_maintenance.get_i64("approx_reclaimable_bytes") {
            Some(n) => n,
            None => 0,
        };
        StorageMaintenanceTemplateContext {
            project_id_value,
            project_placeholder_required: project_id.is_none(),
            maintenance_candidate,
            vacuum_candidate,
            approx_reclaimable_bytes,
            cleanup_recommendations,
            cleanup_plan_steps,
        }
    }

    pub fn should_emit_templates(&self) -> (r: bool)
        ensures
            r == self.maintenance_candidate,
    {
        self.maintenance_candidate
    }

    pub fn project_id_value(&self) -> (r: &str)
        ensures
            r@ == self.project_id_value@,
    {
        self.project_id_value.as_str()
    }

    pub fn project_placeholder_required(&self) -> (r: bool)
        ensures
            r == self.project_placeholder_required,
    {
        self.project_placeholder_required
    }

    pub fn project_placeholder_hint_json(&self) -> (r: JsonValue)
        ensures
            r@ == placeholder_hint_json(self.project_placeholder_required),
    {
        if self.project_placeholder_required {
            let hint = jobj(vec![
                ("field", js("id")),
                ("placeholder", js("<project>")),
                ("description", js("replace with a registered OPENDOG project id")),
            ]);
            assert(hint@->Obj_0 =~= seq![
                ("field"@, JsonSpec::Str("id"@)),
                ("placeholder"@, JsonSpec::Str("<project>"@)),
                ("description"@, JsonSpec::Str("replace with a registered OPENDOG project id"@)),
            ]);
            let r = jarr(vec![hint]);
            assert(r@->Arr_0 =~= placeholder_hint_json(true)->Arr_0);
            r
        } else {
            let r = jarr(Vec::new());
            assert(r@->Arr_0 =~= placeholder_hint_json(false)->Arr_0);
            r
        }
    }
}

} // verus!
