use specs_v::spec::presence_flag;
use specs_v::content::SpecContentTemplate;
use specs_v::db::init_connection;
use specs_v::project::{NewProject, Project, ProjectRepository};
use specs_v::spec::{NewSpec, RepoError, Spec, SpecRepository};
use specs_v::sqlite::SqlCell;
use specs_v::tag::SpecTag;

fn content(summary: &str) -> SpecContentTemplate {
    SpecContentTemplate {
        summary: summary.to_string(),
        goals: vec!["g".to_string()],
        requirements: vec!["r".to_string()],
        acceptance_criteria: vec!["a".to_string()],
        notes: None,
    }
}

fn new_project(name: &str) -> NewProject {
    NewProject { name: name.to_string(), description: Some(format!("about {}", name)) }
}

#[test]
fn project_create_then_find_gives_it_back() {
    let conn = init_connection(":memory:").unwrap();
    let mut repo = ProjectRepository::new(&conn);
    let created = repo.create(&new_project("alpha")).unwrap();
    assert_eq!(created.name, "alpha");
    assert_eq!(created.description.as_deref(), Some("about alpha"));
    assert!(!created.created_at.is_empty());
    let found = repo.find_by_id(created.id).unwrap().unwrap();
    assert_eq!(found.id, created.id);
    assert_eq!(found.name, "alpha");
    assert!(repo.find_by_id(created.id + 1000).unwrap().is_none());
}

#[test]
fn project_without_description_stores_null() {
    let conn = init_connection(":memory:").unwrap();
    let mut repo = ProjectRepository::new(&conn);
    let p = repo.create(&NewProject { name: "n".to_string(), description: None }).unwrap();
    assert_eq!(p.description, None);
}

#[test]
fn project_list_holds_every_project() {
    let conn = init_connection(":memory:").unwrap();
    let mut repo = ProjectRepository::new(&conn);
    assert!(repo.list().unwrap().is_empty());
    repo.create(&new_project("a")).unwrap();
    repo.create(&new_project("b")).unwrap();
    let all = repo.list().unwrap();
    let mut names: Vec<String> = all.iter().map(|p| p.name.clone()).collect();
    names.sort();
    assert_eq!(names, vec!["a".to_string(), "b".to_string()]);
}

#[test]
fn spec_create_then_find_gives_it_back() {
    let conn = init_connection(":memory:").unwrap();
    let p = ProjectRepository::new(&conn).create(&new_project("p")).unwrap();
    let mut repo = SpecRepository::new(&conn);
    let s = repo.create(&NewSpec { project_id: p.id, tag: SpecTag::Qa, content: content("tests") }).unwrap();
    assert_eq!(s.project_id, p.id);
    assert_eq!(s.tag, SpecTag::Qa);
    assert_eq!(s.content.summary, "tests");
    let found = repo.find_by_project_and_tag(p.id, SpecTag::Qa).unwrap().unwrap();
    assert_eq!(found.id, s.id);
    assert_eq!(found.content.goals, vec!["g".to_string()]);
    assert!(repo.find_by_project_and_tag(p.id, SpecTag::Security).unwrap().is_none());
    let raw: String = conn.query_row("SELECT tag FROM specs WHERE id = ?1", [s.id], |r| r.get(0)).unwrap();
    assert_eq!(raw, "qa");
}

#[test]
fn spec_list_by_project_keeps_projects_apart() {
    let conn = init_connection(":memory:").unwrap();
    let mut projects = ProjectRepository::new(&conn);
    let p1 = projects.create(&new_project("one")).unwrap();
    let p2 = projects.create(&new_project("two")).unwrap();
    let mut repo = SpecRepository::new(&conn);
    repo.create(&NewSpec { project_id: p1.id, tag: SpecTag::Qa, content: content("q") }).unwrap();
    repo.create(&NewSpec { project_id: p1.id, tag: SpecTag::Business, content: content("b") }).unwrap();
    repo.create(&NewSpec { project_id: p2.id, tag: SpecTag::Qa, content: content("q2") }).unwrap();
    let specs = repo.list_by_project(p1.id).unwrap();
    assert_eq!(specs.len(), 2);
    assert!(specs.iter().all(|s| s.project_id == p1.id));
    assert_eq!(repo.list_by_project(p2.id).unwrap().len(), 1);
    assert!(repo.list_by_project(p2.id + 10).unwrap().is_empty());
}

#[test]
fn second_spec_for_a_tag_is_a_unique_constraint_error() {
    let conn = init_connection(":memory:").unwrap();
    let p = ProjectRepository::new(&conn).create(&new_project("p")).unwrap();
    let mut repo = SpecRepository::new(&conn);
    repo.create(&NewSpec { project_id: p.id, tag: SpecTag::Security, content: content("1") }).unwrap();
    let again = repo.create(&NewSpec { project_id: p.id, tag: SpecTag::Security, content: content("2") });
    assert!(matches!(again, Err(RepoError::UniqueConstraint)));
}

#[test]
fn init_schema_is_idempotent_and_adds_missing_foreign_key() {
    let conn = rusqlite::Connection::open_in_memory().unwrap();
    conn.execute("PRAGMA foreign_keys = ON", []).unwrap();
    ProjectRepository::new(&conn).init_schema().unwrap();
    conn.execute(
        "CREATE TABLE specs (id INTEGER PRIMARY KEY AUTOINCREMENT, project_id INTEGER NOT NULL, tag TEXT NOT NULL, content TEXT NOT NULL, created_at TEXT NOT NULL DEFAULT CURRENT_TIMESTAMP, updated_at TEXT NOT NULL DEFAULT CURRENT_TIMESTAMP)",
        [],
    )
    .unwrap();
    conn.execute("INSERT INTO projects (name) VALUES ('p')", []).unwrap();
    conn.execute(
        "INSERT INTO specs (project_id, tag, content) VALUES (1, 'qa', '{\"summary\":\"s\",\"goals\":[],\"requirements\":[],\"acceptance_criteria\":[]}')",
        [],
    )
    .unwrap();
    let fk_count = |c: &rusqlite::Connection| -> i64 {
        c.query_row("SELECT COUNT(*) FROM pragma_foreign_key_list('specs')", [], |r| r.get(0)).unwrap()
    };
    assert_eq!(fk_count(&conn), 0);
    let mut repo = SpecRepository::new(&conn);
    repo.init_schema().unwrap();
    assert_eq!(fk_count(&conn), 1);
    let kept = repo.find_by_project_and_tag(1, SpecTag::Qa).unwrap().unwrap();
    assert_eq!(kept.content.summary, "s");
    repo.init_schema().unwrap();
    assert_eq!(fk_count(&conn), 1);
}

#[test]
fn stored_row_with_unknown_tag_is_invalid_tag_error() {
    let conn = init_connection(":memory:").unwrap();
    ProjectRepository::new(&conn).create(&new_project("p")).unwrap();
    conn.execute(
        "INSERT INTO specs (project_id, tag, content) VALUES (1, 'legal', '{}')",
        [],
    )
    .unwrap();
    let r = SpecRepository::new(&conn).list_by_project(1);
    match r {
        Err(RepoError::InvalidTag(msg)) => assert_eq!(msg, "invalid spec tag: legal"),
        _ => panic!("expected an invalid tag error"),
    }
}

#[test]
fn stored_row_with_bad_content_is_json_decode_error() {
    let conn = init_connection(":memory:").unwrap();
    ProjectRepository::new(&conn).create(&new_project("p")).unwrap();
    conn.execute("INSERT INTO specs (project_id, tag, content) VALUES (1, 'qa', 'nope')", []).unwrap();
    let r = SpecRepository::new(&conn).find_by_project_and_tag(1, SpecTag::Qa);
    assert!(matches!(r, Err(RepoError::JsonDecode(_))));
}

fn text(s: &str) -> SqlCell {
    SqlCell::Text(s.to_string())
}

#[test]
fn project_from_row_reads_cells() {
    let cells = vec![SqlCell::Integer(7), text("n"), SqlCell::Null, text("c"), text("u")];
    let p: Project = Project::from_row(cells).unwrap();
    assert_eq!(p.id, 7);
    assert_eq!(p.name, "n");
    assert_eq!(p.description, None);
    assert_eq!(p.created_at, "c");
    assert_eq!(p.updated_at, "u");
    let bad = vec![text("7"), text("n"), SqlCell::Null, text("c"), text("u")];
    match Project::from_row(bad) {
        Err(rusqlite::Error::InvalidColumnType(0, name, rusqlite::types::Type::Text)) => assert_eq!(name, "id"),
        other => panic!("unexpected {:?}", other.map(|p| p.id)),
    }
    let real = vec![SqlCell::Integer(7), text("n"), SqlCell::Real, text("c"), text("u")];
    assert!(Project::from_row(real).is_err());
}

#[test]
fn spec_from_row_checks_fields_in_order() {
    let good = "{\"summary\":\"s\",\"goals\":[],\"requirements\":[],\"acceptance_criteria\":[],\"notes\":\"n\"}";
    let cells = vec![SqlCell::Integer(1), SqlCell::Integer(2), text("Business"), text(good), text("c"), text("u")];
    let s: Spec = Spec::from_row(cells).unwrap();
    assert_eq!((s.id, s.project_id, s.tag), (1, 2, SpecTag::Business));
    assert_eq!(s.content.notes.as_deref(), Some("n"));
    let bad_tag_and_content = vec![SqlCell::Integer(1), SqlCell::Integer(2), text("x"), text("y"), text("c"), text("u")];
    assert!(matches!(Spec::from_row(bad_tag_and_content), Err(RepoError::InvalidTag(_))));
    let bad_content = vec![SqlCell::Integer(1), SqlCell::Integer(2), text("qa"), text("y"), text("c"), text("u")];
    assert!(matches!(Spec::from_row(bad_content), Err(RepoError::JsonDecode(_))));
    let tag_not_text = vec![SqlCell::Integer(1), SqlCell::Integer(2), SqlCell::Integer(3), text(good), text("c"), text("u")];
    assert!(matches!(Spec::from_row(tag_not_text), Err(RepoError::Sqlite(_))));
    let bad_timestamp = vec![SqlCell::Integer(1), SqlCell::Integer(2), text("qa"), text(good), SqlCell::Null, text("u")];
    assert!(matches!(Spec::from_row(bad_timestamp), Err(RepoError::Sqlite(_))));
}

#[test]
fn init_connection_fails_for_unreachable_path() {
    assert!(init_connection("/nonexistent-dir-for-specs/sub/specs.db").is_err());
}

#[test]
fn presence_flag_reads_exists_result() {
    assert_eq!(presence_flag(vec![SqlCell::Integer(1)]).unwrap(), true);
    assert_eq!(presence_flag(vec![SqlCell::Integer(0)]).unwrap(), false);
    assert!(presence_flag(vec![text("1")]).is_err());
}

#[test]
fn unreadable_cell_gives_its_own_error_in_column_order() {
    let utf8 = std::str::from_utf8(&[0xffu8]).unwrap_err();
    let cells = vec![SqlCell::Integer(7), text("n"), SqlCell::Null, SqlCell::Unreadable(rusqlite::Error::Utf8Error(3, utf8)), text("u")];
    assert!(matches!(Project::from_row(cells), Err(rusqlite::Error::Utf8Error(3, _))));
    let good = "{\"summary\":\"s\",\"goals\":[],\"requirements\":[],\"acceptance_criteria\":[],\"notes\":null}";
    let bad_tag_late_unreadable = vec![
        SqlCell::Integer(1), SqlCell::Integer(2), text("x"), text(good),
        SqlCell::Unreadable(rusqlite::Error::InvalidColumnName("created_at".to_string())), text("u"),
    ];
    assert!(matches!(Spec::from_row(bad_tag_late_unreadable), Err(RepoError::InvalidTag(_))));
    let unreadable_tag = vec![
        SqlCell::Integer(1), SqlCell::Integer(2), SqlCell::Unreadable(rusqlite::Error::InvalidColumnName("tag".to_string())),
        text(good), text("c"), text("u"),
    ];
    match Spec::from_row(unreadable_tag) {
        Err(RepoError::Sqlite(rusqlite::Error::InvalidColumnName(n))) => assert_eq!(n, "tag"),
        other => panic!("unexpected {:?}", other.map(|s| s.id)),
    }
}

#[test]
fn stored_row_with_bad_tag_and_non_utf8_timestamp_reports_the_tag() {
    let conn = init_connection(":memory:").unwrap();
    ProjectRepository::new(&conn).create(&new_project("p")).unwrap();
    let good = "{\"summary\":\"s\",\"goals\":[],\"requirements\":[],\"acceptance_criteria\":[],\"notes\":null}";
    conn.execute(
        "INSERT INTO specs (project_id, tag, content, created_at) VALUES (1, 'x', ?1, CAST(X'FF' AS TEXT))",
        [good],
    )
    .unwrap();
    let r = SpecRepository::new(&conn).list_by_project(1);
    assert!(matches!(r, Err(RepoError::InvalidTag(_))));
}

#[test]
fn stored_content_in_array_form_is_read() {
    let conn = init_connection(":memory:").unwrap();
    ProjectRepository::new(&conn).create(&new_project("p")).unwrap();
    conn.execute(
        "INSERT INTO specs (project_id, tag, content) VALUES (1, 'qa', '[\"s\",[\"g\"],[],[\"a\"],null]')",
        [],
    )
    .unwrap();
    let s = SpecRepository::new(&conn).find_by_project_and_tag(1, SpecTag::Qa).unwrap().unwrap();
    assert_eq!(s.content.summary, "s");
    assert_eq!(s.content.goals, vec!["g".to_string()]);
    assert!(s.content.requirements.is_empty());
    assert_eq!(s.content.acceptance_criteria, vec!["a".to_string()]);
    assert_eq!(s.content.notes, None);
}

#[test]
fn spec_for_missing_project_breaks_the_foreign_key_not_uniqueness() {
    let conn = init_connection(":memory:").unwrap();
    let new_spec = NewSpec { project_id: 99, tag: SpecTag::Qa, content: content("s") };
    match SpecRepository::new(&conn).create(&new_spec) {
        Err(RepoError::Sqlite(e)) => {
            assert_eq!(e.sqlite_error().map(|f| f.extended_code), Some(787));
            let reported = specs_v::service::map_spec_repo_error(RepoError::Sqlite(e));
            assert_eq!((reported.status, reported.message.as_str()), (404, "project not found"));
        }
        other => panic!("unexpected {:?}", other.map(|s| s.id)),
    }
}

#[test]
fn stored_content_giving_a_field_twice_is_a_decode_error() {
    let conn = init_connection(":memory:").unwrap();
    ProjectRepository::new(&conn).create(&new_project("p")).unwrap();
    conn.execute(
        "INSERT INTO specs (project_id, tag, content) VALUES (1, 'qa', '{\"summary\":\"a\",\"summary\":\"b\",\"goals\":[],\"requirements\":[],\"acceptance_criteria\":[]}')",
        [],
    )
    .unwrap();
    let r = SpecRepository::new(&conn).find_by_project_and_tag(1, SpecTag::Qa);
    assert!(matches!(r, Err(RepoError::JsonDecode(_))));
}
