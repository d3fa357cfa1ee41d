use specs_v::content::SpecContentTemplate;
use specs_v::http::{error_envelope, project_to_response, spec_to_response};
use specs_v::mcp::{
    attach_error_metadata, conflict_error, internal_error, map_spec_repo_error, not_found_error,
    project_to_output, projects_to_output, spec_to_output, specs_to_output, tool_error, validation_error,
};
use specs_v::project::Project;
use specs_v::service::AppError;
use specs_v::spec::{RepoError, Spec};
use specs_v::tag::SpecTag;

fn sample_project(id: i64) -> Project {
    Project {
        id,
        name: format!("p{}", id),
        description: Some("d".to_string()),
        created_at: "2024-01-01 00:00:00".to_string(),
        updated_at: "2024-01-02 00:00:00".to_string(),
    }
}

fn sample_spec(tag: SpecTag) -> Spec {
    Spec {
        id: 3,
        project_id: 12,
        tag,
        content: SpecContentTemplate {
            summary: "s".to_string(),
            goals: vec![],
            requirements: vec![],
            acceptance_criteria: vec![],
            notes: None,
        },
        created_at: "c".to_string(),
        updated_at: "u".to_string(),
    }
}

fn meta(error_type: &str, code: u64, cid: &str) -> serde_json::Value {
    let mut m = serde_json::Map::new();
    m.insert("error_type".to_string(), serde_json::Value::String(error_type.to_string()));
    m.insert("http_code".to_string(), serde_json::Value::from(code));
    m.insert("correlation_id".to_string(), serde_json::Value::String(cid.to_string()));
    serde_json::Value::Object(m)
}

#[test]
fn project_response_copies_fields() {
    let r = project_to_response(sample_project(5));
    assert_eq!(r.id, 5);
    assert_eq!(r.name, "p5");
    assert_eq!(r.description.as_deref(), Some("d"));
    assert_eq!(r.created_at, "2024-01-01 00:00:00");
    assert_eq!(r.updated_at, "2024-01-02 00:00:00");
}

#[test]
fn spec_response_names_the_tag() {
    let r = spec_to_response(sample_spec(SpecTag::Qa));
    assert_eq!(r.project_id, 12);
    assert_eq!(r.tag, "qa");
    assert_eq!(r.content.summary, "s");
    assert_eq!(spec_to_output(sample_spec(SpecTag::Architecture)).tag, "architecture");
}

#[test]
fn error_envelope_carries_status_and_message() {
    let e = error_envelope(AppError::new(404, "spec not found"));
    assert_eq!(e.error.code, 404);
    assert_eq!(e.error.message, "spec not found");
}

#[test]
fn tool_errors_carry_class_code_and_correlation_id() {
    let v = validation_error("invalid spec tag", "cid-1");
    assert_eq!(v.code.0, -32602);
    assert_eq!(v.message, "invalid spec tag");
    assert_eq!(v.data, Some(meta("validation", 400, "cid-1")));
    let n = not_found_error("project not found", "c");
    assert_eq!(n.code.0, -32002);
    assert_eq!(n.data, Some(meta("not_found", 404, "c")));
    let c = conflict_error("dup", "c");
    assert_eq!(c.code.0, -32600);
    assert_eq!(c.data, Some(meta("conflict", 409, "c")));
    let i = internal_error("failed to acquire database lock", "c");
    assert_eq!(i.code.0, -32603);
    assert_eq!(i.message, "failed to acquire database lock");
    assert_eq!(i.data, Some(meta("internal", 500, "c")));
}

#[test]
fn metadata_is_merged_into_object_data() {
    let mut existing = serde_json::Map::new();
    existing.insert("hint".to_string(), serde_json::Value::String("h".to_string()));
    existing.insert("error_type".to_string(), serde_json::Value::String("old".to_string()));
    let e = rmcp::ErrorData::invalid_params("m", Some(serde_json::Value::Object(existing)));
    let out = attach_error_metadata(e, "validation", 400, "x");
    let mut expected = match meta("validation", 400, "x") {
        serde_json::Value::Object(m) => m,
        _ => unreachable!(),
    };
    expected.insert("hint".to_string(), serde_json::Value::String("h".to_string()));
    assert_eq!(out.data, Some(serde_json::Value::Object(expected)));
    assert_eq!(out.message, "m");
}

#[test]
fn other_data_is_kept_under_details() {
    let e = rmcp::ErrorData::internal_error("m", Some(serde_json::Value::String("why".to_string())));
    let out = attach_error_metadata(e, "internal", 500, "x");
    let mut expected = match meta("internal", 500, "x") {
        serde_json::Value::Object(m) => m,
        _ => unreachable!(),
    };
    expected.insert("details".to_string(), serde_json::Value::String("why".to_string()));
    assert_eq!(out.data, Some(serde_json::Value::Object(expected)));
    assert_eq!(out.code.0, -32603);
}

#[test]
fn app_errors_become_tool_errors_by_status() {
    assert_eq!(tool_error(AppError::new(400, "a"), "c").code.0, -32602);
    assert_eq!(tool_error(AppError::new(404, "b"), "c").code.0, -32002);
    assert_eq!(tool_error(AppError::new(409, "d"), "c").code.0, -32600);
    let e = tool_error(AppError::new(500, "e"), "c");
    assert_eq!(e.code.0, -32603);
    assert_eq!(e.message, "e");
    assert_eq!(e.data, Some(meta("internal", 500, "c")));
}

#[test]
fn duplicate_spec_tool_error_is_conflict() {
    let e = map_spec_repo_error(RepoError::UniqueConstraint, "z");
    assert_eq!(e.code.0, -32600);
    assert_eq!(e.message, "a spec with this tag already exists for the project");
    assert_eq!(e.data, Some(meta("conflict", 409, "z")));
}

#[test]
fn list_outputs_keep_order() {
    let out = projects_to_output(vec![sample_project(1), sample_project(2), sample_project(3)]);
    let ids: Vec<i64> = out.projects.iter().map(|p| p.id).collect();
    assert_eq!(ids, vec![1, 2, 3]);
    assert_eq!(project_to_output(sample_project(9)).name, "p9");
    let specs = specs_to_output(vec![sample_spec(SpecTag::Qa), sample_spec(SpecTag::Business)]);
    let tags: Vec<String> = specs.specs.iter().map(|s| s.tag.clone()).collect();
    assert_eq!(tags, vec!["qa".to_string(), "business".to_string()]);
    assert!(projects_to_output(vec![]).projects.is_empty());
}
