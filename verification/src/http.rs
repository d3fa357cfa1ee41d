//! The bodies the HTTP routes send.
use vstd::prelude::*;
use vstd::string::*;
use crate::content::SpecContentTemplate;
use crate::project::Project;
use crate::service::AppError;
use crate::spec::Spec;
use crate::tag::tag_name;

verus! {

/// Response body returned by project endpoints.
#[derive(Debug)]
pub struct ProjectResponse {
    pub id: i64,
    pub name: String,
    pub description: Option<String>,
    pub created_at: String,
    pub updated_at: String,
}

/// Response body returned by spec endpoints.
#[derive(Debug)]
pub struct SpecResponse {
    pub project_id: i64,
    pub tag: String,
    pub content: SpecContentTemplate,
}

/// The `error` member of an error response.
#[derive(Debug)]
pub struct ErrorBody {
    pub code: u16,
    pub message: String,
}

/// The body of an error response: `{"error": {"code": .., "message": ..}}`.
#[derive(Debug)]
pub struct ErrorEnvelope {
    pub error: ErrorBody,
}

/// The body that describes a project.
pub fn project_to_response(project: Project) -> (r: ProjectResponse)
    ensures
        r.id == project.id,
        r.name == project.name,
        r.description == project.description,
        r.created_at == project.created_at,
        r.updated_at == project.updated_at,
{
    ProjectResponse {
        id: project.id,
        name: project.name,
        description: project.description,
        created_at: project.created_at,
        updated_at: project.updated_at,
    }
}

/// The body that describes a spec: its project, its tag's name and its content.
pub fn spec_to_response(spec: Spec) -> (r: SpecResponse)
    ensures
        r.project_id == spec.project_id,
        r.tag@ == tag_name(spec.tag),
        r.content == spec.content,
{
    SpecResponse {
        project_id: spec.project_id,
        tag: String::from_str(spec.tag.as_str()),
        content: spec.content,
    }
}

/// The body of the response to a failed request: the error's status as `code` and its
/// message.
pub fn error_envelope(error: AppError) -> (r: ErrorEnvelope)
    ensures
        r.error.code == error.status,
        r.error.message == error.message,
{
    ErrorEnvelope { error: ErrorBody { code: error.status, message: error.message } }
}

} // verus!
