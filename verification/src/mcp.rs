//! What the MCP tools return: their outputs and their errors, in `rmcp`'s error type.
use vstd::prelude::*;
use vstd::string::*;
use crate::content::SpecContentTemplate;
use crate::json::{
    JsonTree, json_tree, json_text, json_u64, json_object, json_object_insert, json_is_object,
    entry_trees, keys_distinct, entries_map,
};
use crate::project::Project;
use crate::service::{AppError, STATUS_BAD_REQUEST, STATUS_NOT_FOUND, STATUS_CONFLICT};
use crate::spec::{RepoError, Spec};
use crate::tag::tag_name;

verus! {

#[verifier::external_type_specification]
#[verifier::external_body]
pub struct ExMcpError(rmcp::ErrorData);

/// The parts of an MCP error: its JSON-RPC code, message and data.
pub struct McpErrorParts {
    pub code: i32,
    pub message: Seq<char>,
    pub data: Option<JsonTree>,
}

/// The parts an `rmcp::ErrorData` holds (its `code.0`, `message` and `data`).
pub uninterp spec fn mcp_error_parts(e: rmcp::ErrorData) -> McpErrorParts;

/// JSON-RPC code of `invalid_params`.
pub const CODE_INVALID_PARAMS: i32 = -32602;
/// JSON-RPC code of `resource_not_found`.
pub const CODE_RESOURCE_NOT_FOUND: i32 = -32002;
/// JSON-RPC code of `invalid_request`.
pub const CODE_INVALID_REQUEST: i32 = -32600;
/// JSON-RPC code of `internal_error`.
pub const CODE_INTERNAL_ERROR: i32 = -32603;

/// An invalid-parameters error (`ErrorData::invalid_params`, code `-32602`).
#[verifier::external_body]
fn mcp_invalid_params(message: String, data: Option<serde_json::Value>) -> (r: rmcp::ErrorData)
    ensures
        mcp_error_parts(r).code == CODE_INVALID_PARAMS,
        mcp_error_parts(r).message == message@,
        mcp_error_parts(r).data == (match data { Some(d) => Some(json_tree(d)), None => None }),
{
    rmcp::ErrorData::invalid_params(message, data)
}

/// A resource-not-found error (`ErrorData::resource_not_found`, code `-32002`).
#[verifier::external_body]
fn mcp_resource_not_found(message: String, data: Option<serde_json::Value>) -> (r: rmcp::ErrorData)
    ensures
        mcp_error_parts(r).code == CODE_RESOURCE_NOT_FOUND,
        mcp_error_parts(r).message == message@,
        mcp_error_parts(r).data == (match data { Some(d) => Some(json_tree(d)), None => None }),
{
    rmcp::ErrorData::resource_not_found(message, data)
}

/// An invalid-request error (`ErrorData::invalid_request`, code `-32600`).
#[verifier::external_body]
fn mcp_invalid_request(message: String, data: Option<serde_json::Value>) -> (r: rmcp::ErrorData)
    ensures
        mcp_error_parts(r).code == CODE_INVALID_REQUEST,
        mcp_error_parts(r).message == message@,
        mcp_error_parts(r).data == (match data { Some(d) => Some(json_tree(d)), None => None }),
{
    rmcp::ErrorData::invalid_request(message, data)
}

/// An internal error (`ErrorData::internal_error`, code `-32603`).
#[verifier::external_body]
fn mcp_internal_error(message: String, data: Option<serde_json::Value>) -> (r: rmcp::ErrorData)
    ensures
        mcp_error_parts(r).code == CODE_INTERNAL_ERROR,
        mcp_error_parts(r).message == message@,
        mcp_error_parts(r).data == (match data { Some(d) => Some(json_tree(d)), None => None }),
{
    rmcp::ErrorData::internal_error(message, data)
}

/// Takes the data out of an error (`Option::take` on `data`), leaving none.
#[verifier::external_body]
fn mcp_take_data(e: &mut rmcp::ErrorData) -> (r: Option<serde_json::Value>)
    ensures
        mcp_error_parts(*final(e)).code == mcp_error_parts(*old(e)).code,
        mcp_error_parts(*final(e)).message == mcp_error_parts(*old(e)).message,
        mcp_error_parts(*final(e)).data is None,
        (match r { Some(d) => Some(json_tree(d)), None => None }) == mcp_error_parts(*old(e)).data,
{
    e.data.take()
}

/// Sets the data of an error.
#[verifier::external_body]
fn mcp_set_data(e: &mut rmcp::ErrorData, data: serde_json::Value)
    ensures
        mcp_error_parts(*final(e)).code == mcp_error_parts(*old(e)).code,
        mcp_error_parts(*final(e)).message == mcp_error_parts(*old(e)).message,
        mcp_error_parts(*final(e)).data == Some(json_tree(data)),
{
    e.data = Some(data);
}

/// The keys of the metadata object.
pub open spec fn key_error_type() -> Seq<char> { "error_type"@ }
pub open spec fn key_http_code() -> Seq<char> { "http_code"@ }
pub open spec fn key_correlation_id() -> Seq<char> { "correlation_id"@ }
pub open spec fn key_details() -> Seq<char> { "details"@ }

/// The metadata every tool error carries: its class, its HTTP-like code and the
/// correlation id of the invocation.
pub open spec fn error_metadata(error_type: Seq<char>, http_code: u16, correlation_id: Seq<char>) -> Map<Seq<char>, JsonTree> {
    Map::empty()
        .insert(key_error_type(), JsonTree::Text(error_type))
        .insert(key_http_code(), JsonTree::Integer(http_code as int))
        .insert(key_correlation_id(), JsonTree::Text(correlation_id))
}

/// The data of an error once the metadata is attached: an object's keys are kept and the
/// metadata keys set; any other data is kept under `details`; no data becomes the
/// metadata alone.
pub open spec fn data_with_metadata(data: Option<JsonTree>, meta: Map<Seq<char>, JsonTree>) -> JsonTree {
    match data {
        Some(JsonTree::Object(m)) => JsonTree::Object(m.union_prefer_right(meta)),
        Some(other) => JsonTree::Object(meta.insert(key_details(), other)),
        None => JsonTree::Object(meta),
    }
}

proof fn lemma_metadata_keys_distinct()
    ensures
        key_error_type() != key_http_code(),
        key_error_type() != key_correlation_id(),
        key_http_code() != key_correlation_id(),
        key_details() != key_error_type(),
        key_details() != key_http_code(),
        key_details() != key_correlation_id(),
{
    reveal_strlit("error_type");
    reveal_strlit("http_code");
    reveal_strlit("correlation_id");
    reveal_strlit("details");
    assert(key_error_type().len() != key_http_code().len());
    assert(key_error_type().len() != key_correlation_id().len());
    assert(key_http_code().len() != key_correlation_id().len());
    assert(key_details().len() != key_error_type().len());
    assert(key_details().len() != key_http_code().len());
    assert(key_details().len() != key_correlation_id().len());
}

/// Attaches the metadata to an error's data; code and message stay as they are.
pub fn attach_error_metadata(
    error: rmcp::ErrorData,
    error_type: &str,
    http_code: u16,
    correlation_id: &str,
) -> (r: rmcp::ErrorData)
    ensures
        mcp_error_parts(r).code == mcp_error_parts(error).code,
        mcp_error_parts(r).message == mcp_error_parts(error).message,
        mcp_error_parts(r).data == Some(data_with_metadata(
            mcp_error_parts(error).data,
            error_metadata(error_type@, http_code, correlation_id@),
        )),
{
    let mut error = error;
    let ghost old_parts = mcp_error_parts(error);
    let ghost meta = error_metadata(error_type@, http_code, correlation_id@);
    proof {
        lemma_metadata_keys_distinct();
    }
    match mcp_take_data(&mut error) {
        Some(existing) => {
            if json_is_object(&existing) {
                let mut existing = existing;
                let ghost m = json_tree(existing)->Object_0;
                json_object_insert(&mut existing, String::from_str("error_type"), json_text(String::from_str(error_type)));
                json_object_insert(&mut existing, String::from_str("http_code"), json_u64(http_code as u64));
                json_object_insert(&mut existing, String::from_str("correlation_id"), json_text(String::from_str(correlation_id)));
                assert(json_tree(existing)->Object_0 =~= m.union_prefer_right(meta));
                mcp_set_data(&mut error, existing);
            } else {
                let ghost other = json_tree(existing);
                let mut entries: Vec<(String, serde_json::Value)> = Vec::new();
                entries.push((String::from_str("details"), existing));
                entries.push((String::from_str("error_type"), json_text(String::from_str(error_type))));
                entries.push((String::from_str("http_code"), json_u64(http_code as u64)));
                entries.push((String::from_str("correlation_id"), json_text(String::from_str(correlation_id))));
                proof {
                    let es = entry_trees(entries@);
                    assert(es[0].0 == key_details());
                    assert(es[1].0 == key_error_type());
                    assert(es[2].0 == key_http_code());
                    assert(es[3].0 == key_correlation_id());
                    assert(keys_distinct(es));
                    assert(es.drop_last().drop_last().drop_last().drop_last() =~= Seq::empty());
                    reveal_with_fuel(entries_map, 5);
                    assert(entries_map(es) =~= meta.insert(key_details(), other));
                }
                let data = json_object(entries);
                mcp_set_data(&mut error, data);
            }
        },
        None => {
            let mut entries: Vec<(String, serde_json::Value)> = Vec::new();
            entries.push((String::from_str("error_type"), json_text(String::from_str(error_type))));
            entries.push((String::from_str("http_code"), json_u64(http_code as u64)));
            entries.push((String::from_str("correlation_id"), json_text(String::from_str(correlation_id))));
            proof {
                let es = entry_trees(entries@);
                assert(es[0].0 == key_error_type());
                assert(es[1].0 == key_http_code());
                assert(es[2].0 == key_correlation_id());
                assert(keys_distinct(es));
                assert(es.drop_last().drop_last().drop_last() =~= Seq::empty());
                reveal_with_fuel(entries_map, 4);
                assert(entries_map(es) =~= meta);
            }
            let data = json_object(entries);
            mcp_set_data(&mut error, data);
        },
    }
    error
}

/// The error of a tool call with invalid input: `invalid_params`, class `validation`, `400`.
pub fn validation_error(message: &str, correlation_id: &str) -> (r: rmcp::ErrorData)
    ensures
        mcp_error_parts(r).code == CODE_INVALID_PARAMS,
        mcp_error_parts(r).message == message@,
        mcp_error_parts(r).data == Some(JsonTree::Object(error_metadata("validation"@, 400, correlation_id@))),
{
    attach_error_metadata(mcp_invalid_params(String::from_str(message), None), "validation", 400, correlation_id)
}

/// The error of a tool call for something missing: `resource_not_found`, class
/// `not_found`, `404`.
pub fn not_found_error(message: &str, correlation_id: &str) -> (r: rmcp::ErrorData)
    ensures
        mcp_error_parts(r).code == CODE_RESOURCE_NOT_FOUND,
        mcp_error_parts(r).message == message@,
        mcp_error_parts(r).data == Some(JsonTree::Object(error_metadata("not_found"@, 404, correlation_id@))),
{
    attach_error_metadata(mcp_resource_not_found(String::from_str(message), None), "not_found", 404, correlation_id)
}

/// The error of a tool call that conflicts with what exists: `invalid_request`, class
/// `conflict`, `409`.
pub fn conflict_error(message: &str, correlation_id: &str) -> (r: rmcp::ErrorData)
    ensures
        mcp_error_parts(r).code == CODE_INVALID_REQUEST,
        mcp_error_parts(r).message == message@,
        mcp_error_parts(r).data == Some(JsonTree::Object(error_metadata("conflict"@, 409, correlation_id@))),
{
    attach_error_metadata(mcp_invalid_request(String::from_str(message), None), "conflict", 409, correlation_id)
}

/// The error of a tool call that failed inside the server: `internal_error`, class
/// `internal`, `500`.
pub fn internal_error(message: &str, correlation_id: &str) -> (r: rmcp::ErrorData)
    ensures
        mcp_error_parts(r).code == CODE_INTERNAL_ERROR,
        mcp_error_parts(r).message == message@,
        mcp_error_parts(r).data == Some(JsonTree::Object(error_metadata("internal"@, 500, correlation_id@))),
{
    attach_error_metadata(mcp_internal_error(String::from_str(message), None), "internal", 500, correlation_id)
}

/// The class, JSON-RPC code and HTTP-like code of a tool error for a given status:
/// `400` is a validation error, `404` not found, `409` a conflict, anything else internal.
pub open spec fn tool_error_class(status: u16) -> (Seq<char>, i32, u16) {
    if status == STATUS_BAD_REQUEST {
        ("validation"@, CODE_INVALID_PARAMS, 400u16)
    } else if status == STATUS_NOT_FOUND {
        ("not_found"@, CODE_RESOURCE_NOT_FOUND, 404u16)
    } else if status == STATUS_CONFLICT {
        ("conflict"@, CODE_INVALID_REQUEST, 409u16)
    } else {
        ("internal"@, CODE_INTERNAL_ERROR, 500u16)
    }
}

/// The MCP form of an operation's error, for the invocation with the given correlation id.
pub open spec fn is_tool_error_for(e: AppError, correlation_id: Seq<char>, r: rmcp::ErrorData) -> bool {
    let (class, code, http) = tool_error_class(e.status);
    &&& mcp_error_parts(r).code == code
    &&& mcp_error_parts(r).message == e.message@
    &&& mcp_error_parts(r).data == Some(JsonTree::Object(error_metadata(class, http, correlation_id)))
}

/// Reports an operation's error to the MCP client, keeping its message and class.
pub fn tool_error(e: AppError, correlation_id: &str) -> (r: rmcp::ErrorData)
    ensures
        is_tool_error_for(e, correlation_id@, r),
{
    if e.status == STATUS_BAD_REQUEST {
        validation_error(e.message.as_str(), correlation_id)
    } else if e.status == STATUS_NOT_FOUND {
        not_found_error(e.message.as_str(), correlation_id)
    } else if e.status == STATUS_CONFLICT {
        conflict_error(e.message.as_str(), correlation_id)
    } else {
        internal_error(e.message.as_str(), correlation_id)
    }
}

/// Reports a spec repository error to the MCP client, as the HTTP routes report it.
pub fn map_spec_repo_error(error: RepoError, correlation_id: &str) -> (r: rmcp::ErrorData)
    ensures
        exists|e: AppError| crate::service::spec_repo_error_reported(error, e) && #[trigger] is_tool_error_for(e, correlation_id@, r),
{
    let ghost reported = error;
    let e = crate::service::map_spec_repo_error(error);
    let ghost g = e;
    let r = tool_error(e, correlation_id);
    assert(crate::service::spec_repo_error_reported(reported, g) && is_tool_error_for(g, correlation_id@, r));
    r
}

/// A project as a tool returns it.
#[derive(Debug)]
pub struct ProjectOutput {
    pub id: i64,
    pub name: String,
    pub description: Option<String>,
    pub created_at: String,
    pub updated_at: String,
}

/// A spec as a tool returns it.
#[derive(Debug)]
pub struct SpecOutput {
    pub project_id: i64,
    pub tag: String,
    pub content: SpecContentTemplate,
}

/// The output of `list_projects`.
#[derive(Debug)]
pub struct ProjectsListOutput {
    pub projects: Vec<ProjectOutput>,
}

/// The output of `get_project` and `create_project`.
#[derive(Debug)]
pub struct ProjectToolOutput {
    pub project: ProjectOutput,
}

/// The output of `list_project_specs`.
#[derive(Debug)]
pub struct SpecsListOutput {
    pub specs: Vec<SpecOutput>,
}

/// The output of `get_project_spec_by_tag` and `create_project_spec`.
#[derive(Debug)]
pub struct SpecToolOutput {
    pub spec: SpecOutput,
}

/// The output of `health_check`.
#[derive(Debug)]
pub struct HealthCheckOutput {
    pub status: String,
}

/// The output that describes a project.
pub fn project_to_output(project: Project) -> (r: ProjectOutput)
    ensures
        r.id == project.id,
        r.name == project.name,
        r.description == project.description,
        r.created_at == project.created_at,
        r.updated_at == project.updated_at,
{
    ProjectOutput {
        id: project.id,
        name: project.name,
        description: project.description,
        created_at: project.created_at,
        updated_at: project.updated_at,
    }
}

/// The output that describes a spec: its project, its tag's name and its content.
pub fn spec_to_output(spec: Spec) -> (r: SpecOutput)
    ensures
        r.project_id == spec.project_id,
        r.tag@ == tag_name(spec.tag),
        r.content == spec.content,
{
    SpecOutput {
        project_id: spec.project_id,
        tag: String::from_str(spec.tag.as_str()),
        content: spec.content,
    }
}

/// The output describes the project field for field.
pub open spec fn describes_project(o: ProjectOutput, p: Project) -> bool {
    &&& o.id == p.id
    &&& o.name == p.name
    &&& o.description == p.description
    &&& o.created_at == p.created_at
    &&& o.updated_at == p.updated_at
}

/// The outputs that describe projects, in order.
pub fn projects_to_output(projects: Vec<Project>) -> (r: ProjectsListOutput)
    ensures
        r.projects@.len() == projects@.len(),
        forall|i: int| 0 <= i < projects@.len() ==> describes_project(#[trigger] r.projects@[i], projects@[i]),
{
    let ghost orig = projects@;
    let mut out: Vec<ProjectOutput> = Vec::new();
    for item in it: projects.into_iter()
        invariant
            it.seq() == orig,
            out@.len() == it.index(),
            forall|i: int| 0 <= i < out@.len() ==> describes_project(#[trigger] out@[i], orig[i]),
    {
        out.push(project_to_output(item));
    }
    ProjectsListOutput { projects: out }
}

/// The output describes the spec: its project, its tag's name and its content.
pub open spec fn describes_spec(o: SpecOutput, s: Spec) -> bool {
    &&& o.project_id == s.project_id
    &&& o.tag@ == tag_name(s.tag)
    &&& o.content == s.content
}

/// The outputs that describe specs, in order.
pub fn specs_to_output(specs: Vec<Spec>) -> (r: SpecsListOutput)
    ensures
        r.specs@.len() == specs@.len(),
        forall|i: int| 0 <= i < specs@.len() ==> describes_spec(#[trigger] r.specs@[i], specs@[i]),
{
    let ghost orig = specs@;
    let mut out: Vec<SpecOutput> = Vec::new();
    for item in it: specs.into_iter()
        invariant
            it.seq() == orig,
            out@.len() == it.index(),
            forall|i: int| 0 <= i < out@.len() ==> describes_spec(#[trigger] out@[i], orig[i]),
    {
        out.push(spec_to_output(item));
    }
    SpecsListOutput { specs: out }
}

/// The output of `health_check`: status `ok`.
pub fn health_check() -> (r: HealthCheckOutput)
    ensures
        r.status@ == "ok"@,
{
    HealthCheckOutput { status: String::from_str("ok") }
}

/// A tool error carries, as its `http_code`, the status the HTTP API answers the same
/// failure with, for each of the four statuses the operations report.
pub proof fn lemma_tool_error_keeps_http_status(e: AppError, correlation_id: Seq<char>, r: rmcp::ErrorData)
    requires
        e.status == 400 || e.status == 404 || e.status == 409 || e.status == 500,
        is_tool_error_for(e, correlation_id, r),
    ensures
        mcp_error_parts(r).message == e.message@,
        mcp_error_parts(r).data matches Some(JsonTree::Object(m))
            && m[key_http_code()] == JsonTree::Integer(e.status as int)
            && m[key_correlation_id()] == JsonTree::Text(correlation_id),
{
    lemma_metadata_keys_distinct();
}

} // verus!
