//! The operations the HTTP routes and the MCP tools offer, with their validation rules
//! and error classes.
use vstd::prelude::*;
use vstd::string::*;
use crate::content::SpecContentTemplate;
use crate::project::{NewProject, Project, ProjectRepository, project_created, project_found, projects_listed};
use crate::spec::{
    NewSpec, RepoError, Spec, SpecRepository, SQLITE_CONSTRAINT_FOREIGNKEY, select_spec_by_project_and_tag_sql, spec_by_project_and_tag_args, spec_created,
    spec_found, specs_listed,
};
use crate::sqlite::{SqlEvent, failure_codes, sqlite_failure};
use crate::tag::{SpecTag, parse_tag};
use crate::text::{is_blank, is_blank_text};

verus! {

/// `400`: the request is invalid.
pub const STATUS_BAD_REQUEST: u16 = 400;
/// `404`: the project or spec does not exist.
pub const STATUS_NOT_FOUND: u16 = 404;
/// `409`: the spec already exists.
pub const STATUS_CONFLICT: u16 = 409;
/// `500`: the database or the server failed.
pub const STATUS_INTERNAL: u16 = 500;

/// A failed operation: an HTTP-like status and a message for the client.
#[derive(Debug)]
pub struct AppError {
    pub status: u16,
    pub message: String,
}

impl AppError {
    pub fn new(status: u16, message: &str) -> (r: AppError)
        ensures
            r.status == status,
            r.message@ == message@,
    {
        AppError { status, message: String::from_str(message) }
    }
}

/// An error with the given status and message.
pub open spec fn is_error(e: AppError, status: u16, message: Seq<char>) -> bool {
    e.status == status && e.message@ == message
}

/// The error that the spec repository's error is reported as: a duplicate spec is a
/// conflict, a broken foreign key means the project is missing, a bad stored tag is
/// invalid input, and every other failure is internal.
pub open spec fn spec_repo_error_reported(error: RepoError, e: AppError) -> bool {
    match error {
        RepoError::UniqueConstraint => is_error(e, STATUS_CONFLICT, "a spec with this tag already exists for the project"@),
        RepoError::Sqlite(s) => if sqlite_failure(s) matches Some(c) && c.extended_code == SQLITE_CONSTRAINT_FOREIGNKEY {
            is_error(e, STATUS_NOT_FOUND, "project not found"@)
        } else {
            is_error(e, STATUS_INTERNAL, "database error"@)
        },
        RepoError::InvalidTag(_) => is_error(e, STATUS_BAD_REQUEST, "invalid spec tag"@),
        RepoError::JsonEncode(_) | RepoError::JsonDecode(_) => is_error(e, STATUS_INTERNAL, "spec content serialization error"@),
    }
}

/// One of the errors that `map_spec_repo_error` reports.
pub open spec fn is_spec_repo_report(e: AppError) -> bool {
    ||| is_error(e, STATUS_CONFLICT, "a spec with this tag already exists for the project"@)
    ||| is_error(e, STATUS_NOT_FOUND, "project not found"@)
    ||| is_error(e, STATUS_INTERNAL, "database error"@)
    ||| is_error(e, STATUS_BAD_REQUEST, "invalid spec tag"@)
    ||| is_error(e, STATUS_INTERNAL, "spec content serialization error"@)
}

/// Reports a spec repository error to the client.
pub fn map_spec_repo_error(error: RepoError) -> (r: AppError)
    ensures
        spec_repo_error_reported(error, r),
        is_spec_repo_report(r),
{
    match error {
        RepoError::UniqueConstraint => AppError::new(STATUS_CONFLICT, "a spec with this tag already exists for the project"),
        RepoError::Sqlite(s) => match failure_codes(&s) {
            Some(c) => if c.extended_code == SQLITE_CONSTRAINT_FOREIGNKEY {
                AppError::new(STATUS_NOT_FOUND, "project not found")
            } else {
                AppError::new(STATUS_INTERNAL, "database error")
            },
            None => AppError::new(STATUS_INTERNAL, "database error"),
        },
        RepoError::InvalidTag(_) => AppError::new(STATUS_BAD_REQUEST, "invalid spec tag"),
        RepoError::JsonEncode(_) | RepoError::JsonDecode(_) => AppError::new(STATUS_INTERNAL, "spec content serialization error"),
    }
}

/// The request to create a project is refused: its name is blank.
pub fn validate_new_project(name: &str) -> (r: Result<(), AppError>)
    ensures
        is_blank_text(name@) ==> (r matches Err(e) && is_error(e, STATUS_BAD_REQUEST, "name must not be empty"@)),
        !is_blank_text(name@) ==> r is Ok,
{
    if is_blank(name) {
        Err(AppError::new(STATUS_BAD_REQUEST, "name must not be empty"))
    } else {
        Ok(())
    }
}

/// The outcome of checking a request for a spec by tag: the tag it names, or the
/// refusal.
pub open spec fn tag_request_checked(tag: Seq<char>, r: Result<SpecTag, AppError>) -> bool {
    match parse_tag(tag) {
        Some(t) => r == Ok::<SpecTag, AppError>(t),
        None => r matches Err(e) && is_error(e, STATUS_BAD_REQUEST, "invalid spec tag"@),
    }
}

/// Reads the tag of a request; an unknown tag is invalid input.
pub fn validate_spec_tag(tag: &str) -> (r: Result<SpecTag, AppError>)
    ensures
        tag_request_checked(tag@, r),
{
    match SpecTag::from_str(tag) {
        Ok(t) => Ok(t),
        Err(_) => Err(AppError::new(STATUS_BAD_REQUEST, "invalid spec tag")),
    }
}

/// The outcome of checking a request to create a spec: the tag is checked first, then
/// the summary of the content must not be blank.
pub open spec fn create_spec_request_checked(tag: Seq<char>, summary: Seq<char>, r: Result<SpecTag, AppError>) -> bool {
    match parse_tag(tag) {
        None => r matches Err(e) && is_error(e, STATUS_BAD_REQUEST, "invalid spec tag"@),
        Some(t) => if is_blank_text(summary) {
            r matches Err(e) && is_error(e, STATUS_BAD_REQUEST, "content.summary must not be empty"@)
        } else {
            r == Ok::<SpecTag, AppError>(t)
        },
    }
}

/// Checks a request to create a spec: a known tag and a summary that is not blank.
pub fn validate_new_spec(tag: &str, content: &SpecContentTemplate) -> (r: Result<SpecTag, AppError>)
    ensures
        create_spec_request_checked(tag@, content.summary@, r),
{
    let parsed = match validate_spec_tag(tag) {
        Ok(t) => t,
        Err(e) => return Err(e),
    };
    if is_blank(content.summary.as_str()) {
        return Err(AppError::new(STATUS_BAD_REQUEST, "content.summary must not be empty"));
    }
    Ok(parsed)
}

/// What listing projects is answered with: the projects, or an internal error.
pub open spec fn project_list_answer(listed: Result<Vec<Project>, rusqlite::Error>, r: Result<Vec<Project>, AppError>) -> bool {
    match listed {
        Ok(ps) => r == Ok::<Vec<Project>, AppError>(ps),
        Err(_) => r matches Err(e) && is_error(e, STATUS_INTERNAL, "failed to list projects"@),
    }
}

/// Answers the result of listing projects.
pub fn answer_project_list(listed: Result<Vec<Project>, rusqlite::Error>) -> (r: Result<Vec<Project>, AppError>)
    ensures
        project_list_answer(listed, r),
{
    match listed {
        Ok(ps) => Ok(ps),
        Err(_) => Err(AppError::new(STATUS_INTERNAL, "failed to list projects")),
    }
}

/// What creating a project is answered with: the stored project, or an internal error.
pub open spec fn project_create_answer(created: Result<Project, rusqlite::Error>, r: Result<Project, AppError>) -> bool {
    match created {
        Ok(p) => r == Ok::<Project, AppError>(p),
        Err(_) => r matches Err(e) && is_error(e, STATUS_INTERNAL, "failed to create project"@),
    }
}

/// Answers the result of inserting a project.
pub fn answer_project_create(created: Result<Project, rusqlite::Error>) -> (r: Result<Project, AppError>)
    ensures
        project_create_answer(created, r),
{
    match created {
        Ok(p) => Ok(p),
        Err(_) => Err(AppError::new(STATUS_INTERNAL, "failed to create project")),
    }
}

/// What a lookup of a project is answered with: the project; "project not found" when
/// there is none; an internal error when the lookup failed.
pub open spec fn project_lookup_answer(found: Result<Option<Project>, rusqlite::Error>, r: Result<Project, AppError>) -> bool {
    match found {
        Ok(Some(p)) => r == Ok::<Project, AppError>(p),
        Ok(None) => r matches Err(e) && is_error(e, STATUS_NOT_FOUND, "project not found"@),
        Err(_) => r matches Err(e) && is_error(e, STATUS_INTERNAL, "failed to fetch project"@),
    }
}

/// Answers the result of looking up a project.
pub fn answer_project_lookup(found: Result<Option<Project>, rusqlite::Error>) -> (r: Result<Project, AppError>)
    ensures
        project_lookup_answer(found, r),
{
    match found {
        Ok(Some(p)) => Ok(p),
        Ok(None) => Err(AppError::new(STATUS_NOT_FOUND, "project not found")),
        Err(_) => Err(AppError::new(STATUS_INTERNAL, "failed to fetch project")),
    }
}

/// What the check that a project exists is answered with: nothing when it exists, else
/// the error a lookup of it is answered with.
pub open spec fn project_presence_answer(found: Result<Option<Project>, rusqlite::Error>, r: Result<(), AppError>) -> bool {
    match found {
        Ok(Some(_)) => r is Ok,
        Ok(None) => r matches Err(e) && is_error(e, STATUS_NOT_FOUND, "project not found"@),
        Err(_) => r matches Err(e) && is_error(e, STATUS_INTERNAL, "failed to fetch project"@),
    }
}

/// Answers the result of looking up the project an operation on specs needs.
pub fn answer_project_presence(found: Result<Option<Project>, rusqlite::Error>) -> (r: Result<(), AppError>)
    ensures
        project_presence_answer(found, r),
{
    match found {
        Ok(Some(_)) => Ok(()),
        Ok(None) => Err(AppError::new(STATUS_NOT_FOUND, "project not found")),
        Err(_) => Err(AppError::new(STATUS_INTERNAL, "failed to fetch project")),
    }
}

/// What a lookup of a spec is answered with: the spec; "spec not found" when there is
/// none; the repository's error as `map_spec_repo_error` reports it.
pub open spec fn spec_lookup_answer(found: Result<Option<Spec>, RepoError>, r: Result<Spec, AppError>) -> bool {
    match found {
        Ok(Some(s)) => r == Ok::<Spec, AppError>(s),
        Ok(None) => r matches Err(e) && is_error(e, STATUS_NOT_FOUND, "spec not found"@),
        Err(error) => r matches Err(e) && spec_repo_error_reported(error, e),
    }
}

/// Answers the result of looking up a spec.
pub fn answer_spec_lookup(found: Result<Option<Spec>, RepoError>) -> (r: Result<Spec, AppError>)
    ensures
        spec_lookup_answer(found, r),
{
    match found {
        Ok(Some(s)) => Ok(s),
        Ok(None) => Err(AppError::new(STATUS_NOT_FOUND, "spec not found")),
        Err(error) => Err(map_spec_repo_error(error)),
    }
}

/// What a spec repository result is answered with: its value, or its error as
/// `map_spec_repo_error` reports it.
pub open spec fn spec_repo_answer<T>(result: Result<T, RepoError>, r: Result<T, AppError>) -> bool {
    match result {
        Ok(v) => r == Ok::<T, AppError>(v),
        Err(error) => r matches Err(e) && spec_repo_error_reported(error, e),
    }
}

/// Answers the result of a spec repository operation.
pub fn answer_spec_repo<T>(result: Result<T, RepoError>) -> (r: Result<T, AppError>)
    ensures
        spec_repo_answer(result, r),
{
    match result {
        Ok(v) => Ok(v),
        Err(error) => Err(map_spec_repo_error(error)),
    }
}

/// What an operation on the specs of a project is answered with, from the lookup of the
/// project and the answer of the operation itself: the project must exist first.
pub open spec fn with_project_answer<T>(present: Result<Option<Project>, rusqlite::Error>, answer: bool, r: Result<T, AppError>) -> bool {
    match present {
        Ok(Some(_)) => answer,
        Ok(None) => r matches Err(e) && is_error(e, STATUS_NOT_FOUND, "project not found"@),
        Err(_) => r matches Err(e) && is_error(e, STATUS_INTERNAL, "failed to fetch project"@),
    }
}

/// What a request for the spec of project `project_id` and tag `tag` is answered with,
/// from the events of both repositories: the project is looked up by its id; if it
/// exists, the spec is looked up by the project id and the tag; the answers follow
/// `project_presence_answer` and `spec_lookup_answer`.
pub open spec fn spec_by_tag_answer(
    projects_before: Seq<SqlEvent>,
    projects_after: Seq<SqlEvent>,
    specs_before: Seq<SqlEvent>,
    specs_after: Seq<SqlEvent>,
    project_id: i64,
    tag: SpecTag,
    present: Result<Option<Project>, rusqlite::Error>,
    found: Result<Option<Spec>, RepoError>,
    r: Result<Spec, AppError>,
) -> bool {
    &&& project_found(projects_before, projects_after, project_id, present)
    &&& match present {
        Ok(Some(_)) => spec_found(specs_before, specs_after, select_spec_by_project_and_tag_sql(),
            spec_by_project_and_tag_args(project_id, tag), found)
            && spec_lookup_answer(found, r),
        _ => specs_after == specs_before && with_project_answer(present, true, r),
    }
}

/// What a valid request to create spec `s` is answered with, from the events of both
/// repositories: the project is looked up by its id; if it exists, the spec is created;
/// the answers follow `project_presence_answer` and `spec_repo_answer`.
pub open spec fn spec_creation_answer(
    projects_before: Seq<SqlEvent>,
    projects_after: Seq<SqlEvent>,
    specs_before: Seq<SqlEvent>,
    specs_after: Seq<SqlEvent>,
    s: NewSpec,
    present: Result<Option<Project>, rusqlite::Error>,
    created: Result<Spec, RepoError>,
    r: Result<Spec, AppError>,
) -> bool {
    &&& project_found(projects_before, projects_after, s.project_id, present)
    &&& match present {
        Ok(Some(_)) => spec_created(specs_before, specs_after, s, created) && spec_repo_answer(created, r),
        _ => specs_after == specs_before && with_project_answer(present, true, r),
    }
}

/// All projects; a database failure is an internal error.
pub fn list_projects(projects: &mut ProjectRepository) -> (r: Result<Vec<Project>, AppError>)
    ensures
        exists|listed: Result<Vec<Project>, rusqlite::Error>| #[trigger] project_list_answer(listed, r)
            && projects_listed(old(projects).events(), final(projects).events(), listed),
{
    let listed = projects.list();
    let ghost l = listed;
    let r = answer_project_list(listed);
    assert(project_list_answer(l, r));
    r
}

/// Creates a project; a blank name is refused before the database is touched.
pub fn create_project(projects: &mut ProjectRepository, payload: NewProject) -> (r: Result<Project, AppError>)
    ensures
        is_blank_text(payload.name@) ==> (r matches Err(e) && is_error(e, STATUS_BAD_REQUEST, "name must not be empty"@))
            && final(projects).events() == old(projects).events(),
        !is_blank_text(payload.name@) ==> exists|created: Result<Project, rusqlite::Error>|
            #[trigger] project_create_answer(created, r)
            && project_created(old(projects).events(), final(projects).events(), payload, created),
{
    match validate_new_project(payload.name.as_str()) {
        Ok(()) => {},
        Err(e) => return Err(e),
    }
    let created = projects.create(&payload);
    let ghost c = created;
    let r = answer_project_create(created);
    assert(project_create_answer(c, r));
    r
}

/// One project; a missing one is reported as not found.
pub fn get_project(projects: &mut ProjectRepository, id: i64) -> (r: Result<Project, AppError>)
    ensures
        exists|found: Result<Option<Project>, rusqlite::Error>| #[trigger] project_lookup_answer(found, r)
            && project_found(old(projects).events(), final(projects).events(), id, found),
{
    let found = projects.find_by_id(id);
    let ghost f = found;
    let r = answer_project_lookup(found);
    assert(project_lookup_answer(f, r));
    r
}

/// All specs of a project; a repository failure is reported as `map_spec_repo_error`
/// reports it.
pub fn list_project_specs(specs: &mut SpecRepository, project_id: i64) -> (r: Result<Vec<Spec>, AppError>)
    ensures
        exists|listed: Result<Vec<Spec>, RepoError>| #[trigger] spec_repo_answer(listed, r)
            && specs_listed(old(specs).events(), final(specs).events(), project_id, listed),
{
    let listed = specs.list_by_project(project_id);
    let ghost l = listed;
    let r = answer_spec_repo(listed);
    assert(spec_repo_answer(l, r));
    r
}

/// The spec of a project for a tag. An unknown tag is refused before the database is
/// touched; then the project must exist, then the spec.
pub fn get_project_spec_by_tag(
    projects: &mut ProjectRepository,
    specs: &mut SpecRepository,
    project_id: i64,
    tag: &str,
) -> (r: Result<Spec, AppError>)
    ensures
        parse_tag(tag@) is None ==> (r matches Err(e) && is_error(e, STATUS_BAD_REQUEST, "invalid spec tag"@))
            && final(projects).events() == old(projects).events() && final(specs).events() == old(specs).events(),
        parse_tag(tag@) matches Some(t) ==> exists|present: Result<Option<Project>, rusqlite::Error>, found: Result<Option<Spec>, RepoError>|
            #[trigger] spec_by_tag_answer(old(projects).events(), final(projects).events(), old(specs).events(),
                final(specs).events(), project_id, t, present, found, r),
{
    let parsed = match validate_spec_tag(tag) {
        Ok(t) => t,
        Err(e) => return Err(e),
    };
    let ghost p_before = projects.events();
    let ghost s_before = specs.events();
    let present = projects.find_by_id(project_id);
    let ghost p = present;
    let ghost none: Result<Option<Spec>, RepoError> = Ok(None);
    match answer_project_presence(present) {
        Ok(()) => {},
        Err(e) => {
            let r = Err(e);
            assert(spec_by_tag_answer(p_before, projects.events(), s_before, specs.events(), project_id, parsed, p, none, r));
            return r;
        },
    }
    let found = specs.find_by_project_and_tag(project_id, parsed);
    let ghost f = found;
    let r = answer_spec_lookup(found);
    assert(spec_by_tag_answer(p_before, projects.events(), s_before, specs.events(), project_id, parsed, p, f, r));
    r
}

/// Creates the spec of a project for a tag. The request is checked first (a known tag,
/// a summary that is not blank); then the project must exist; a second spec for the
/// same tag is a conflict.
pub fn create_project_spec(
    projects: &mut ProjectRepository,
    specs: &mut SpecRepository,
    project_id: i64,
    tag: &str,
    content: SpecContentTemplate,
) -> (r: Result<Spec, AppError>)
    ensures
        parse_tag(tag@) is None ==> (r matches Err(e) && is_error(e, STATUS_BAD_REQUEST, "invalid spec tag"@)),
        parse_tag(tag@) is Some && is_blank_text(content.summary@) ==> (r matches Err(e)
            && is_error(e, STATUS_BAD_REQUEST, "content.summary must not be empty"@)),
        parse_tag(tag@) is None || is_blank_text(content.summary@) ==>
            final(projects).events() == old(projects).events() && final(specs).events() == old(specs).events(),
        parse_tag(tag@) matches Some(t) ==> (!is_blank_text(content.summary@) ==> exists|
            present: Result<Option<Project>, rusqlite::Error>,
            created: Result<Spec, RepoError>,
        | #[trigger] spec_creation_answer(old(projects).events(), final(projects).events(), old(specs).events(),
            final(specs).events(), (NewSpec { project_id, tag: t, content }), present, created, r)),
{
    let parsed = match validate_new_spec(tag, &content) {
        Ok(t) => t,
        Err(e) => return Err(e),
    };
    let ghost p_before = projects.events();
    let ghost s_before = specs.events();
    let present = projects.find_by_id(project_id);
    let ghost p = present;
    let ghost failed: Result<Spec, RepoError> = Err(RepoError::UniqueConstraint);
    let new_spec = NewSpec { project_id, tag: parsed, content };
    match answer_project_presence(present) {
        Ok(()) => {},
        Err(e) => {
            let r = Err(e);
            assert(spec_creation_answer(p_before, projects.events(), s_before, specs.events(), new_spec, p, failed, r));
            return r;
        },
    }
    let created = specs.create(&new_spec);
    let ghost c = created;
    let r = answer_spec_repo(created);
    assert(spec_creation_answer(p_before, projects.events(), s_before, specs.events(), new_spec, p, c, r));
    r
}

/// Every error a spec repository failure is reported as has one of the four statuses,
/// and a duplicate spec is always a conflict.
pub proof fn lemma_spec_repo_reports_are_classified(error: RepoError, e: AppError)
    requires
        spec_repo_error_reported(error, e),
    ensures
        e.status == STATUS_BAD_REQUEST || e.status == STATUS_NOT_FOUND || e.status == STATUS_CONFLICT
            || e.status == STATUS_INTERNAL,
        error is UniqueConstraint <==> e.status == STATUS_CONFLICT,
{
}

} // verus!
