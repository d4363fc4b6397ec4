//! The read-only resources the server publishes, addressed by URI.
use vstd::prelude::*;
use vstd::string::*;
use crate::text::{contains_char, ends_with, has_prefix, has_suffix, slice, starts_with, str_eq};

verus! {

/// The MIME type of every resource.
pub const JSON_MIME_TYPE: &'static str = "application/json";
/// The URI of the project list.
pub const PROJECTS_URI: &'static str = "opendog://projects";
/// The URI template of one project's verification evidence.
pub const PROJECT_VERIFICATION_TEMPLATE: &'static str = "opendog://project/{id}/verification";

/// A resource that a URI names.
#[derive(Debug, Clone, PartialEq, Eq)]
pub enum ResourceKind {
    Projects,
    ProjectVerification { id: String },
}

/// The mathematical form of a resource kind.
pub enum ResourceKindSpec {
    Projects,
    ProjectVerification { id: Seq<char> },
}

pub open spec fn kind_view(k: Option<ResourceKind>) -> Option<ResourceKindSpec> {
    match k {
        Some(ResourceKind::Projects) => Some(ResourceKindSpec::Projects),
        Some(ResourceKind::ProjectVerification { id }) => Some(ResourceKindSpec::ProjectVerification { id: id@ }),
        None => None,
    }
}

pub open spec fn project_prefix() -> Seq<char> {
    "opendog://project/"@
}

pub open spec fn verification_suffix() -> Seq<char> {
    "/verification"@
}

/// The resource a URI names: the project list for its exact URI, one
/// project's verification for `opendog://project/<id>/verification` with a
/// non-empty `<id>` free of `/`, and nothing otherwise.
pub open spec fn resource_kind_of(uri: Seq<char>) -> Option<ResourceKindSpec> {
    let p = project_prefix();
    let s = verification_suffix();
    if uri == "opendog://projects"@ {
        Some(ResourceKindSpec::Projects)
    } else if has_prefix(uri, p) && uri.len() >= p.len() + s.len()
        && has_suffix(uri.subrange(p.len() as int, uri.len() as int), s) {
        let id = uri.subrange(p.len() as int, uri.len() - s.len());
        if id.len() > 0 && !id.contains('/') {
            Some(ResourceKindSpec::ProjectVerification { id })
        } else {
            None
        }
    } else {
        None
    }
}

pub fn read_resource_kind(uri: &str) -> (r: Option<ResourceKind>)
    ensures
        kind_view(r) == resource_kind_of(uri@),
{
    proof {
        reveal_strlit("opendog://project/");
        reveal_strlit("/verification");
    }
    if str_eq(uri, PROJECTS_URI) {
        return Some(ResourceKind::Projects);
    }
    if !starts_with(uri, "opendog://project/") {
        return None;
    }
    let n = uri.unicode_len();
    let p: usize = 18;
    let suffix_len: usize = 13;
    if n < p + suffix_len {
        proof {
            let rest = uri@.subrange(p as int, n as int);
            assert(!has_suffix(rest, verification_suffix()));
        }
        return None;
    }
    let rest = slice(uri, p, n);
    if !ends_with(rest.as_str(), "/verification") {
        return None;
    }
    let id = slice(uri, p, n - suffix_len);
    if id.unicode_len() == 0 || contains_char(id.as_str(), '/') {
        return None;
    }
    Some(ResourceKind::ProjectVerification { id })
}

/// The URI of one project's verification resource.
pub open spec fn verification_uri(id: Seq<char>) -> Seq<char> {
    project_prefix() + id + verification_suffix()
}

/// A project's verification URI names that project's verification again,
/// for every id that is non-empty and free of `/`.
pub proof fn law_verification_uri_round_trip(id: Seq<char>)
    requires
        id.len() > 0,
        !id.contains('/'),
    ensures
        resource_kind_of(verification_uri(id)) == Some(ResourceKindSpec::ProjectVerification { id }),
{
    reveal_strlit("opendog://project/");
    reveal_strlit("/verification");
    reveal_strlit("opendog://projects");
    let p = project_prefix();
    let s = verification_suffix();
    let uri = verification_uri(id);
    assert(uri.len() == p.len() + id.len() + s.len());
    assert(uri[17] == '/');
    assert("opendog://projects"@[17] == 's');
    assert(uri != "opendog://projects"@);
    assert(uri.subrange(0, p.len() as int) =~= p);
    let rest = uri.subrange(p.len() as int, uri.len() as int);
    assert(rest =~= id + s);
    assert(rest.subrange(rest.len() - s.len(), rest.len() as int) =~= s);
    assert(uri.subrange(p.len() as int, uri.len() - s.len()) =~= id);
}

/// What an MCP client is told of a resource or resource template.
#[derive(Debug, Clone, PartialEq, Eq)]
pub struct ResourceDescriptor {
    pub uri: String,
    pub name: String,
    pub title: String,
    pub description: String,
    pub mime_type: String,
}

/// The mathematical form of a descriptor: uri, name, title, description,
/// MIME type.
pub open spec fn descriptor_view(d: ResourceDescriptor) -> (Seq<char>, Seq<char>, Seq<char>, Seq<char>, Seq<char>) {
    (d.uri@, d.name@, d.title@, d.description@, d.mime_type@)
}

pub open spec fn projects_descriptor() -> (Seq<char>, Seq<char>, Seq<char>, Seq<char>, Seq<char>) {
    (
        "opendog://projects"@,
        "opendog.projects"@,
        "OpenDog Projects"@,
        "Registered OpenDog projects as a stable read-only JSON resource."@,
        "application/json"@,
    )
}

pub open spec fn verification_descriptor() -> (Seq<char>, Seq<char>, Seq<char>, Seq<char>, Seq<char>) {
    (
        "opendog://project/{id}/verification"@,
        "opendog.project.verification"@,
        "OpenDog Project Verification"@,
        "Latest recorded test/lint/build evidence for one project as read-only JSON."@,
        "application/json"@,
    )
}

fn descriptor(uri: &str, name: &str, title: &str, description: &str, mime_type: &str) -> (r: ResourceDescriptor)
    ensures
        descriptor_view(r) == (uri@, name@, title@, description@, mime_type@),
{
    ResourceDescriptor {
        uri: String::from_str(uri),
        name: String::from_str(name),
        title: String::from_str(title),
        description: String::from_str(description),
        mime_type: String::from_str(mime_type),
    }
}

/// The resource templates: the project list and one project's
/// verification evidence.
pub fn mcp_resource_templates() -> (r: Vec<ResourceDescriptor>)
    ensures
        r@.len() == 2,
        descriptor_view(r@[0]) == projects_descriptor(),
        descriptor_view(r@[1]) == verification_descriptor(),
{
    vec![
        descriptor(
            PROJECTS_URI,
            "opendog.projects",
            "OpenDog Projects",
            "Registered OpenDog projects as a stable read-only JSON resource.",
            JSON_MIME_TYPE,
        ),
        descriptor(
            PROJECT_VERIFICATION_TEMPLATE,
            "opendog.project.verification",
            "OpenDog Project Verification",
            "Latest recorded test/lint/build evidence for one project as read-only JSON.",
            JSON_MIME_TYPE,
        ),
    ]
}

/// The concrete resources: the project list only.
pub fn mcp_resources() -> (r: Vec<ResourceDescriptor>)
    ensures
        r@.len() == 1,
        descriptor_view(r@[0]) == projects_descriptor(),
{
    vec![descriptor(
        PROJECTS_URI,
        "opendog.projects",
        "OpenDog Projects",
        "Registered OpenDog projects as a stable read-only JSON resource.",
        JSON_MIME_TYPE,
    )]
}

} // verus!
