use specs_v::content::SpecContentTemplate;
use specs_v::db::init_connection;
use specs_v::project::{NewProject, Project, ProjectRepository};
use specs_v::service::{
    answer_project_create, answer_project_list, answer_project_lookup, answer_project_presence,
    answer_spec_lookup, answer_spec_repo, create_project, create_project_spec, get_project, get_project_spec_by_tag, list_project_specs,
    list_projects, map_spec_repo_error, validate_new_project, validate_new_spec, validate_spec_tag, AppError,
};
use specs_v::spec::{RepoError, SpecRepository};
use specs_v::tag::SpecTag;

fn content(summary: &str) -> SpecContentTemplate {
    SpecContentTemplate {
        summary: summary.to_string(),
        goals: vec!["Define ownership".to_string()],
        requirements: vec!["Document API boundaries".to_string()],
        acceptance_criteria: vec!["Boundary diagram approved".to_string()],
        notes: None,
    }
}

fn is(e: &AppError, status: u16, message: &str) -> bool {
    e.status == status && e.message == message
}

fn project(name: &str) -> NewProject {
    NewProject { name: name.to_string(), description: None }
}

#[test]
fn blank_project_name_is_refused() {
    let conn = init_connection(":memory:").unwrap();
    for name in ["", "   ", "\t\n", "\u{3000}"] {
        let e = create_project(&mut ProjectRepository::new(&conn), project(name)).unwrap_err();
        assert!(is(&e, 400, "name must not be empty"));
    }
    assert!(list_projects(&mut ProjectRepository::new(&conn)).unwrap().is_empty());
    assert!(validate_new_project(" x ").is_ok());
}

#[test]
fn created_project_is_listed_and_fetched() {
    let conn = init_connection(":memory:").unwrap();
    let p = create_project(&mut ProjectRepository::new(&conn), NewProject { name: "specs".to_string(), description: Some("d".to_string()) }).unwrap();
    assert_eq!(p.name, "specs");
    let all = list_projects(&mut ProjectRepository::new(&conn)).unwrap();
    assert_eq!(all.len(), 1);
    assert_eq!(all[0].id, p.id);
    let got = get_project(&mut ProjectRepository::new(&conn), p.id).unwrap();
    assert_eq!(got.description.as_deref(), Some("d"));
}

#[test]
fn missing_project_is_not_found() {
    let conn = init_connection(":memory:").unwrap();
    let e = get_project(&mut ProjectRepository::new(&conn), 42).unwrap_err();
    assert!(is(&e, 404, "project not found"));
}

#[test]
fn spec_by_unknown_tag_is_bad_request() {
    let conn = init_connection(":memory:").unwrap();
    let e = get_project_spec_by_tag(&mut ProjectRepository::new(&conn), &mut SpecRepository::new(&conn), 1, "legal").unwrap_err();
    assert!(is(&e, 400, "invalid spec tag"));
}

#[test]
fn spec_of_missing_project_is_not_found() {
    let conn = init_connection(":memory:").unwrap();
    let e = get_project_spec_by_tag(&mut ProjectRepository::new(&conn), &mut SpecRepository::new(&conn), 12, "architecture").unwrap_err();
    assert!(is(&e, 404, "project not found"));
    let e = create_project_spec(&mut ProjectRepository::new(&conn), &mut SpecRepository::new(&conn), 12, "architecture", content("s")).unwrap_err();
    assert!(is(&e, 404, "project not found"));
}

#[test]
fn missing_spec_is_not_found() {
    let conn = init_connection(":memory:").unwrap();
    let p = create_project(&mut ProjectRepository::new(&conn), project("p")).unwrap();
    let e = get_project_spec_by_tag(&mut ProjectRepository::new(&conn), &mut SpecRepository::new(&conn), p.id, "qa").unwrap_err();
    assert!(is(&e, 404, "spec not found"));
}

#[test]
fn spec_create_then_get_by_tag_gives_it_back() {
    let conn = init_connection(":memory:").unwrap();
    let p = create_project(&mut ProjectRepository::new(&conn), project("p")).unwrap();
    let created = create_project_spec(&mut ProjectRepository::new(&conn), &mut SpecRepository::new(&conn), p.id, "Architecture", content("Service boundaries and data flow")).unwrap();
    assert_eq!(created.tag, SpecTag::Architecture);
    let got = get_project_spec_by_tag(&mut ProjectRepository::new(&conn), &mut SpecRepository::new(&conn), p.id, "architecture").unwrap();
    assert_eq!(got.id, created.id);
    assert_eq!(got.content.summary, "Service boundaries and data flow");
    assert_eq!(list_project_specs(&mut SpecRepository::new(&conn), p.id).unwrap().len(), 1);
}

#[test]
fn duplicate_spec_is_conflict() {
    let conn = init_connection(":memory:").unwrap();
    let p = create_project(&mut ProjectRepository::new(&conn), project("p")).unwrap();
    create_project_spec(&mut ProjectRepository::new(&conn), &mut SpecRepository::new(&conn), p.id, "security", content("Threat model baseline")).unwrap();
    let e = create_project_spec(&mut ProjectRepository::new(&conn), &mut SpecRepository::new(&conn), p.id, "SECURITY", content("again")).unwrap_err();
    assert!(is(&e, 409, "a spec with this tag already exists for the project"));
}

#[test]
fn blank_summary_is_refused_after_the_tag() {
    let conn = init_connection(":memory:").unwrap();
    let p = create_project(&mut ProjectRepository::new(&conn), project("p")).unwrap();
    let e = create_project_spec(&mut ProjectRepository::new(&conn), &mut SpecRepository::new(&conn), p.id, "qa", content("  ")).unwrap_err();
    assert!(is(&e, 400, "content.summary must not be empty"));
    let e = create_project_spec(&mut ProjectRepository::new(&conn), &mut SpecRepository::new(&conn), p.id, "nope", content("  ")).unwrap_err();
    assert!(is(&e, 400, "invalid spec tag"));
    assert!(list_project_specs(&mut SpecRepository::new(&conn), p.id).unwrap().is_empty());
}

#[test]
fn validators_report_the_parsed_tag() {
    assert_eq!(validate_spec_tag("Qa").unwrap(), SpecTag::Qa);
    assert!(is(&validate_spec_tag("q a").unwrap_err(), 400, "invalid spec tag"));
    assert_eq!(validate_new_spec("business", &content("x")).unwrap(), SpecTag::Business);
}

#[test]
fn spec_list_of_unknown_project_is_empty() {
    let conn = init_connection(":memory:").unwrap();
    assert!(list_project_specs(&mut SpecRepository::new(&conn), 77).unwrap().is_empty());
}

#[test]
fn repository_errors_map_to_statuses() {
    assert!(is(&map_spec_repo_error(RepoError::UniqueConstraint), 409, "a spec with this tag already exists for the project"));
    assert!(is(&map_spec_repo_error(RepoError::InvalidTag("x".to_string())), 400, "invalid spec tag"));
    assert!(is(&map_spec_repo_error(RepoError::JsonEncode("x".to_string())), 500, "spec content serialization error"));
    assert!(is(&map_spec_repo_error(RepoError::JsonDecode("x".to_string())), 500, "spec content serialization error"));
    assert!(is(&map_spec_repo_error(RepoError::Sqlite(rusqlite::Error::QueryReturnedNoRows)), 500, "database error"));
    let fk = rusqlite::Error::SqliteFailure(rusqlite::ffi::Error::new(787), None);
    assert!(is(&map_spec_repo_error(RepoError::Sqlite(fk)), 404, "project not found"));
    let busy = rusqlite::Error::SqliteFailure(rusqlite::ffi::Error::new(5), None);
    assert!(is(&map_spec_repo_error(RepoError::Sqlite(busy)), 500, "database error"));
}

fn stored_project() -> Project {
    Project {
        id: 3,
        name: "p".to_string(),
        description: None,
        created_at: "c".to_string(),
        updated_at: "u".to_string(),
    }
}

#[test]
fn project_lookup_answers_each_repository_result() {
    assert_eq!(answer_project_lookup(Ok(Some(stored_project()))).unwrap().id, 3);
    assert!(is(&answer_project_lookup(Ok(None)).unwrap_err(), 404, "project not found"));
    let e = answer_project_lookup(Err(rusqlite::Error::QueryReturnedNoRows)).unwrap_err();
    assert!(is(&e, 500, "failed to fetch project"));
    assert!(answer_project_presence(Ok(Some(stored_project()))).is_ok());
    assert!(is(&answer_project_presence(Ok(None)).unwrap_err(), 404, "project not found"));
    let e = answer_project_presence(Err(rusqlite::Error::QueryReturnedNoRows)).unwrap_err();
    assert!(is(&e, 500, "failed to fetch project"));
}

#[test]
fn project_list_and_create_answer_failures_as_internal() {
    assert_eq!(answer_project_list(Ok(vec![stored_project()])).unwrap().len(), 1);
    let e = answer_project_list(Err(rusqlite::Error::QueryReturnedNoRows)).unwrap_err();
    assert!(is(&e, 500, "failed to list projects"));
    assert_eq!(answer_project_create(Ok(stored_project())).unwrap().name, "p");
    let e = answer_project_create(Err(rusqlite::Error::QueryReturnedNoRows)).unwrap_err();
    assert!(is(&e, 500, "failed to create project"));
}

#[test]
fn spec_lookup_answers_missing_spec_and_repository_errors() {
    assert!(is(&answer_spec_lookup(Ok(None)).unwrap_err(), 404, "spec not found"));
    let e = answer_spec_lookup(Err(RepoError::InvalidTag("bad".to_string()))).unwrap_err();
    assert!(is(&e, 400, "invalid spec tag"));
    let e = answer_spec_lookup(Err(RepoError::JsonDecode("bad".to_string()))).unwrap_err();
    assert!(is(&e, 500, "spec content serialization error"));
    let e = answer_spec_repo::<Vec<u8>>(Err(RepoError::UniqueConstraint)).unwrap_err();
    assert!(is(&e, 409, "a spec with this tag already exists for the project"));
    assert_eq!(answer_spec_repo::<Vec<u8>>(Ok(vec![1, 2])).unwrap(), vec![1, 2]);
}
