use opendog::resources::{mcp_resource_templates, mcp_resources, read_resource_kind, ResourceKind};

#[test]
fn resource_kind_projects_uri() {
    assert_eq!(
        read_resource_kind("opendog://projects"),
        Some(ResourceKind::Projects)
    );
}

#[test]
fn resource_kind_project_verification() {
    let kind = read_resource_kind("opendog://project/my-app/verification").unwrap();
    assert_eq!(
        kind,
        ResourceKind::ProjectVerification {
            id: "my-app".to_string()
        }
    );
}

#[test]
fn resource_kind_project_verification_with_dashes() {
    let kind = read_resource_kind("opendog://project/my-cool-app/verification").unwrap();
    assert_eq!(
        kind,
        ResourceKind::ProjectVerification {
            id: "my-cool-app".to_string()
        }
    );
}

#[test]
fn resource_kind_empty_id_rejected() {
    assert_eq!(read_resource_kind("opendog://project//verification"), None);
}

#[test]
fn resource_kind_slash_in_id_rejected() {
    assert_eq!(
        read_resource_kind("opendog://project/a/b/verification"),
        None
    );
}

#[test]
fn resource_kind_unknown_uri() {
    assert_eq!(read_resource_kind("opendog://unknown"), None);
    assert_eq!(read_resource_kind("http://example.com"), None);
    assert_eq!(read_resource_kind(""), None);
}

#[test]
fn resource_kind_partial_verification_path() {
    assert_eq!(read_resource_kind("opendog://project/demo/verify"), None);
    assert_eq!(read_resource_kind("opendog://project/demo"), None);
}

#[test]
fn verification_uri_round_trips_for_unicode_ids() {
    let kind = read_resource_kind("opendog://project/проект-1/verification").unwrap();
    assert_eq!(
        kind,
        ResourceKind::ProjectVerification {
            id: "проект-1".to_string()
        }
    );
}

#[test]
fn suffix_alone_is_no_project() {
    assert_eq!(read_resource_kind("opendog://project/verification"), None);
}

#[test]
fn resource_catalog_lists_projects_and_verification() {
    let templates = mcp_resource_templates();
    assert_eq!(templates.len(), 2);
    assert_eq!(templates[0].uri, "opendog://projects");
    assert_eq!(templates[0].name, "opendog.projects");
    assert_eq!(templates[1].uri, "opendog://project/{id}/verification");
    assert_eq!(templates[1].mime_type, "application/json");
    let resources = mcp_resources();
    assert_eq!(resources, vec![templates[0].clone()]);
}
