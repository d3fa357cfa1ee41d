//! Specs (one per project and tag) and their SQLite repository.
use vstd::prelude::*;
use vstd::string::*;
use crate::statement::{
    Column, Stmt, StmtView, Store, Table, render, render_spec, rows_of, fits_filter, cells_show, cell_shows, write_done,
    first_answer_done, fitting_rows, insert_then_lookup_answered, lookup_answered, listing_answered, cells_of_rows,
    all_answers_done, row_inserted, with_row, lemma_fitting_rows_bounded,
};
use crate::tag::lemma_tag_name_round_trip;
use crate::content::{SpecContentTemplate, ContentView, content_of_text, content_tree, content_to_json_text, content_from_json_text};
use crate::json::parsed_json;
use crate::sqlite::{
    SqlArg, SqlCell, SqlEvent, SqlSession, SqlValue, sqlite_failure, cell_read_error, sql_args, row_events,
    query_started, query_failed, failure_of,
    failure_codes, no_rows_error, cell_i64, cell_text,
};
use crate::text::text_eq;
use crate::tag::{SpecTag, parse_tag, tag_name, invalid_tag_message};

verus! {

/// Persisted specification record for a project and tag pair.
#[derive(Debug, Clone)]
pub struct Spec {
    pub id: i64,
    pub project_id: i64,
    pub tag: SpecTag,
    pub content: SpecContentTemplate,
    pub created_at: String,
    pub updated_at: String,
}

/// The content of a spec record.
pub struct SpecView {
    pub id: i64,
    pub project_id: i64,
    pub tag: SpecTag,
    pub content: ContentView,
    pub created_at: Seq<char>,
    pub updated_at: Seq<char>,
}

impl View for Spec {
    type V = SpecView;

    open spec fn view(&self) -> SpecView {
        SpecView {
            id: self.id,
            project_id: self.project_id,
            tag: self.tag,
            content: self.content@,
            created_at: self.created_at@,
            updated_at: self.updated_at@,
        }
    }
}

/// Payload used to create a new spec row.
#[derive(Debug, Clone)]
pub struct NewSpec {
    pub project_id: i64,
    pub tag: SpecTag,
    pub content: SpecContentTemplate,
}

/// Why a spec operation failed.
#[derive(Debug)]
pub enum RepoError {
    Sqlite(rusqlite::Error),
    UniqueConstraint,
    InvalidTag(String),
    JsonEncode(String),
    JsonDecode(String),
}

impl From<rusqlite::Error> for RepoError {
    fn from(value: rusqlite::Error) -> (r: Self) {
        RepoError::Sqlite(value)
    }
}

impl vstd::std_specs::convert::FromSpecImpl<rusqlite::Error> for RepoError {
    open spec fn obeys_from_spec() -> bool {
        true
    }

    open spec fn from_spec(v: rusqlite::Error) -> RepoError {
        RepoError::Sqlite(v)
    }
}

/// What reading a spec row gives.
pub enum SpecRowOutcome {
    Decoded(SpecView),
    /// The cell of the given column could not be read as its column's kind.
    ColumnType(int),
    /// The stored tag is not one of the four tags; the message quotes it.
    InvalidTag(Seq<char>),
    /// The stored content is not the JSON of a template.
    InvalidContent,
}

/// Reading a spec from the cells `id, project_id, tag, content, created_at, updated_at`,
/// in the order the fields are checked: the tag and content text, the ids, the tag name,
/// the content JSON, then the timestamps.
pub open spec fn spec_row_outcome(cells: Seq<SqlCell>) -> SpecRowOutcome {
    if !(cells[2] is Text) {
        SpecRowOutcome::ColumnType(2)
    } else if !(cells[3] is Text) {
        SpecRowOutcome::ColumnType(3)
    } else if !(cells[0] is Integer) {
        SpecRowOutcome::ColumnType(0)
    } else if !(cells[1] is Integer) {
        SpecRowOutcome::ColumnType(1)
    } else {
        let tag_text = cells[2]->Text_0@;
        let content_text = cells[3]->Text_0@;
        match parse_tag(tag_text) {
            None => SpecRowOutcome::InvalidTag(invalid_tag_message(tag_text)),
            Some(tag) => match content_of_text(content_text) {
                None => SpecRowOutcome::InvalidContent,
                Some(content) => if !(cells[4] is Text) {
                    SpecRowOutcome::ColumnType(4)
                } else if !(cells[5] is Text) {
                    SpecRowOutcome::ColumnType(5)
                } else {
                    SpecRowOutcome::Decoded(SpecView {
                        id: cells[0]->Integer_0,
                        project_id: cells[1]->Integer_0,
                        tag,
                        content,
                        created_at: cells[4]->Text_0@,
                        updated_at: cells[5]->Text_0@,
                    })
                },
            },
        }
    }
}

/// The error a failed insert of a spec is reported as: a uniqueness violation becomes
/// `UniqueConstraint`, anything else is passed on.
pub open spec fn insert_failure(e: rusqlite::Error) -> RepoError {
    if is_unique_violation_error(e) {
        RepoError::UniqueConstraint
    } else {
        RepoError::Sqlite(e)
    }
}

/// An error that reading spec rows can give: a database or column error, a stored tag that
/// is not one of the tags (the message quotes it), or stored content that is not the JSON
/// of a template.
pub open spec fn is_read_error(e: RepoError) -> bool {
    match e {
        RepoError::Sqlite(_) => true,
        RepoError::InvalidTag(m) => exists|t: Seq<char>| m@ == #[trigger] invalid_tag_message(t),
        RepoError::JsonDecode(_) => true,
        _ => false,
    }
}

/// SQLite's extended result code for a broken foreign key (`SQLITE_CONSTRAINT_FOREIGNKEY`).
pub const SQLITE_CONSTRAINT_FOREIGNKEY: i32 = 787;

/// An error is a violation of the uniqueness of a spec: SQLite reported a broken
/// constraint that is not a broken foreign key (a missing project).
pub open spec fn is_unique_violation_error(e: rusqlite::Error) -> bool {
    sqlite_failure(e) matches Some(c) && c.constraint_violation && c.extended_code != SQLITE_CONSTRAINT_FOREIGNKEY
}

/// The values the insert of a spec binds, its content stored as `json`: the project id,
/// the tag's name, the content text.
pub open spec fn spec_insert_args(s: NewSpec, json: Seq<char>) -> Seq<SqlArg> {
    seq![SqlArg::Integer(s.project_id), SqlArg::Text(tag_name(s.tag)), SqlArg::Text(json)]
}

/// Whether a row of `PRAGMA foreign_key_list(specs)` is the link from `specs.project_id`
/// to `projects.id`.
pub open spec fn is_project_link(table: Seq<char>, from: Seq<char>, to: Seq<char>) -> bool {
    table == "projects"@ && from == "project_id"@ && to == "id"@
}

/// What `init_schema` does to the `specs` table.
#[derive(Clone, Copy, PartialEq, Eq, Structural)]
pub enum SchemaStep {
    /// No table yet: create it with its foreign key.
    CreateTable,
    /// The table has its foreign key: nothing to do.
    UpToDate,
    /// The table lacks its foreign key: rebuild it with one, keeping its rows.
    AddForeignKey,
}

/// The step for a table that exists or not, and has the project link or not.
pub open spec fn schema_step_for(table_exists: bool, has_project_fk: bool) -> SchemaStep {
    if !table_exists {
        SchemaStep::CreateTable
    } else if has_project_fk {
        SchemaStep::UpToDate
    } else {
        SchemaStep::AddForeignKey
    }
}

/// Chooses what `init_schema` does to the `specs` table.
pub fn schema_step(table_exists: bool, has_project_fk: bool) -> (r: SchemaStep)
    ensures
        r == schema_step_for(table_exists, has_project_fk),
{
    if !table_exists {
        SchemaStep::CreateTable
    } else if has_project_fk {
        SchemaStep::UpToDate
    } else {
        SchemaStep::AddForeignKey
    }
}

/// Whether a failed statement broke the uniqueness of a spec (a broken constraint other
/// than a foreign key).
pub fn is_unique_violation(e: &rusqlite::Error) -> (r: bool)
    ensures
        r == is_unique_violation_error(*e),
{
    match failure_codes(e) {
        Some(c) => c.constraint_violation && c.extended_code != SQLITE_CONSTRAINT_FOREIGNKEY,
        None => false,
    }
}

/// The error reported for a failed insert: a uniqueness violation becomes
/// `UniqueConstraint`, anything else is passed on.
pub fn insert_error(e: rusqlite::Error) -> (r: RepoError)
    ensures
        r == insert_failure(e),
{
    if is_unique_violation(&e) {
        RepoError::UniqueConstraint
    } else {
        RepoError::Sqlite(e)
    }
}

/// The parameters that insert `s` with its content stored as `json`.
pub fn insert_params(s: &NewSpec, json: String) -> (r: Vec<SqlValue>)
    ensures
        sql_args(r@) == spec_insert_args(*s, json@),
{
    let mut params: Vec<SqlValue> = Vec::new();
    params.push(SqlValue::Integer(s.project_id));
    params.push(SqlValue::Text(String::from_str(s.tag.as_str())));
    params.push(SqlValue::Text(json));
    assert(sql_args(params@) =~= spec_insert_args(*s, json@));
    params
}

/// Reading a spec from the cells of a row, as `Spec::from_row` does.
pub open spec fn spec_row_read(cells: Seq<SqlCell>, r: Result<Spec, RepoError>) -> bool {
    cells.len() == 6 && match spec_row_outcome(cells) {
        SpecRowOutcome::Decoded(s) => r matches Ok(t) && t@ == s,
        SpecRowOutcome::ColumnType(i) => r matches Err(RepoError::Sqlite(e)) && cell_read_error(cells[i], e),
        SpecRowOutcome::InvalidTag(msg) => r matches Err(RepoError::InvalidTag(m)) && m@ == msg,
        SpecRowOutcome::InvalidContent => r matches Err(RepoError::JsonDecode(_)),
    }
}

impl Spec {
    /// Reads a spec from the cells of a result row (`id, project_id, tag, content,
    /// created_at, updated_at`).
    pub fn from_row(cells: Vec<SqlCell>) -> (r: Result<Spec, RepoError>)
        requires
            cells@.len() == 6,
        ensures
            spec_row_read(cells@, r),
            r matches Err(e) ==> is_read_error(e),
    {
        let mut cells = cells;
        let tag = match cell_text(&mut cells, 2, "tag") {
            Ok(v) => v,
            Err(e) => return Err(RepoError::Sqlite(e)),
        };
        let raw_content = match cell_text(&mut cells, 3, "content") {
            Ok(v) => v,
            Err(e) => return Err(RepoError::Sqlite(e)),
        };
        let id = match cell_i64(&mut cells, 0, "id") {
            Ok(v) => v,
            Err(e) => return Err(RepoError::Sqlite(e)),
        };
        let project_id = match cell_i64(&mut cells, 1, "project_id") {
            Ok(v) => v,
            Err(e) => return Err(RepoError::Sqlite(e)),
        };
        let tag = match SpecTag::from_str(tag.as_str()) {
            Ok(t) => t,
            Err(msg) => {
                assert(msg@ == invalid_tag_message(tag@));
                return Err(RepoError::InvalidTag(msg));
            },
        };
        let content = match content_from_json_text(raw_content.as_str()) {
            Ok(c) => c,
            Err(msg) => return Err(RepoError::JsonDecode(msg)),
        };
        let created_at = match cell_text(&mut cells, 4, "created_at") {
            Ok(v) => v,
            Err(e) => return Err(RepoError::Sqlite(e)),
        };
        let updated_at = match cell_text(&mut cells, 5, "updated_at") {
            Ok(v) => v,
            Err(e) => return Err(RepoError::Sqlite(e)),
        };
        Ok(Spec { id, project_id, tag, content, created_at, updated_at })
    }
}

/// Reading a row of `PRAGMA foreign_key_list(specs)`, as `fk_row_is_project_link` does.
pub open spec fn fk_row_read(cells: Seq<SqlCell>, r: Result<bool, rusqlite::Error>) -> bool {
    &&& cells.len() == 3
    &&& cells[0] is Text && cells[1] is Text && cells[2] is Text ==> r == Ok::<bool, rusqlite::Error>(
        is_project_link(cells[0]->Text_0@, cells[1]->Text_0@, cells[2]->Text_0@))
    &&& !(cells[0] is Text) ==> (r matches Err(e) && cell_read_error(cells[0], e))
    &&& cells[0] is Text && !(cells[1] is Text) ==> (r matches Err(e) && cell_read_error(cells[1], e))
    &&& cells[0] is Text && cells[1] is Text && !(cells[2] is Text) ==> (r matches Err(e) && cell_read_error(cells[2], e))
}

/// Reading the row of `SELECT EXISTS(..) AS present`, as `presence_flag` does.
pub open spec fn presence_read(cells: Seq<SqlCell>, r: Result<bool, rusqlite::Error>) -> bool {
    cells.len() == 1 && match cells[0] {
        SqlCell::Integer(i) => r == Ok::<bool, rusqlite::Error>(i == 1),
        c => r matches Err(e) && cell_read_error(c, e),
    }
}

/// Reads a row of `PRAGMA foreign_key_list(specs)` (cells `table, from, to`) and tells
/// whether it is the link from `specs.project_id` to `projects.id`.
pub fn fk_row_is_project_link(cells: Vec<SqlCell>) -> (r: Result<bool, rusqlite::Error>)
    requires
        cells@.len() == 3,
    ensures
        fk_row_read(cells@, r),
{
    let mut cells = cells;
    let table = match cell_text(&mut cells, 0, "table") {
        Ok(v) => v,
        Err(e) => return Err(e),
    };
    let from = match cell_text(&mut cells, 1, "from") {
        Ok(v) => v,
        Err(e) => return Err(e),
    };
    let to = match cell_text(&mut cells, 2, "to") {
        Ok(v) => v,
        Err(e) => return Err(e),
    };
    Ok(text_eq(table.as_str(), "projects") && text_eq(from.as_str(), "project_id") && text_eq(to.as_str(), "id"))
}

/// Reads the row of `SELECT EXISTS(..) AS present` (one cell): the table is present when
/// the flag is `1`; a cell that is not an integer is a column type error.
pub fn presence_flag(cells: Vec<SqlCell>) -> (r: Result<bool, rusqlite::Error>)
    requires
        cells@.len() == 1,
    ensures
        presence_read(cells@, r),
{
    let mut cells = cells;
    match cell_i64(&mut cells, 0, "present") {
        Ok(exists) => Ok(exists == 1),
        Err(e) => Err(e),
    }
}

/// The query telling whether a table exists.
pub open spec fn table_exists_sql() -> Seq<char> {
    "SELECT EXISTS(SELECT 1 FROM sqlite_master WHERE type = 'table' AND name = ?1) AS present"@
}

/// The query for the foreign keys of the `specs` table.
pub open spec fn specs_foreign_keys_sql() -> Seq<char> {
    "PRAGMA foreign_key_list(specs)"@
}

/// The statement that creates the `specs` table, with its foreign key to `projects` and
/// one spec per project and tag, unless it exists.
pub open spec fn create_specs_table_sql() -> Seq<char> {
    "CREATE TABLE IF NOT EXISTS specs (id INTEGER PRIMARY KEY AUTOINCREMENT, project_id INTEGER NOT NULL, tag TEXT NOT NULL, content TEXT NOT NULL, created_at TEXT NOT NULL DEFAULT CURRENT_TIMESTAMP, updated_at TEXT NOT NULL DEFAULT CURRENT_TIMESTAMP, FOREIGN KEY (project_id) REFERENCES projects(id) ON DELETE CASCADE, UNIQUE(project_id, tag))"@
}

/// The batch that rebuilds the `specs` table with its foreign key, keeping its rows, in
/// one transaction.
pub open spec fn migrate_specs_table_sql() -> Seq<char> {
    "BEGIN IMMEDIATE; CREATE TABLE specs_new (id INTEGER PRIMARY KEY AUTOINCREMENT, project_id INTEGER NOT NULL, tag TEXT NOT NULL, content TEXT NOT NULL, created_at TEXT NOT NULL DEFAULT CURRENT_TIMESTAMP, updated_at TEXT NOT NULL DEFAULT CURRENT_TIMESTAMP, FOREIGN KEY (project_id) REFERENCES projects(id) ON DELETE CASCADE, UNIQUE(project_id, tag)); INSERT INTO specs_new (id, project_id, tag, content, created_at, updated_at) SELECT id, project_id, tag, content, created_at, updated_at FROM specs; DROP TABLE specs; ALTER TABLE specs_new RENAME TO specs; COMMIT;"@
}

/// The columns a spec is read from, in order.
pub open spec fn spec_columns() -> Seq<Column> {
    seq![Column::Id, Column::ProjectId, Column::Tag, Column::Content, Column::CreatedAt, Column::UpdatedAt]
}

/// The insert of a spec: its project id, tag and content.
pub open spec fn insert_spec_stmt() -> StmtView {
    StmtView::Insert(Table::Specs, seq![Column::ProjectId, Column::Tag, Column::Content])
}

/// The query for the spec of a project and tag.
pub open spec fn select_spec_by_project_and_tag_stmt() -> StmtView {
    StmtView::Select(Table::Specs, spec_columns(), seq![Column::ProjectId, Column::Tag], false)
}

/// The query for the specs of a project, oldest first.
pub open spec fn select_specs_by_project_stmt() -> StmtView {
    StmtView::Select(Table::Specs, spec_columns(), seq![Column::ProjectId], true)
}

/// The query for the spec with a given id.
pub open spec fn select_spec_by_id_stmt() -> StmtView {
    StmtView::Select(Table::Specs, spec_columns(), seq![Column::Id], false)
}

/// The statement that inserts a spec.
pub open spec fn insert_spec_sql() -> Seq<char> {
    render_spec(insert_spec_stmt())
}

/// The query for the spec of a project and tag.
pub open spec fn select_spec_by_project_and_tag_sql() -> Seq<char> {
    render_spec(select_spec_by_project_and_tag_stmt())
}

/// The query for the specs of a project, oldest first.
pub open spec fn select_specs_by_project_sql() -> Seq<char> {
    render_spec(select_specs_by_project_stmt())
}

/// The query for the spec with a given id.
pub open spec fn select_spec_by_id_sql() -> Seq<char> {
    render_spec(select_spec_by_id_stmt())
}

fn spec_columns_vec() -> (r: Vec<Column>)
    ensures
        r@ == spec_columns(),
{
    let mut cols: Vec<Column> = Vec::new();
    cols.push(Column::Id);
    cols.push(Column::ProjectId);
    cols.push(Column::Tag);
    cols.push(Column::Content);
    cols.push(Column::CreatedAt);
    cols.push(Column::UpdatedAt);
    assert(cols@ =~= spec_columns());
    cols
}

/// The SQL text of the insert of a spec.
fn insert_spec_text() -> (r: String)
    ensures
        r@ == insert_spec_sql(),
{
    let mut cols: Vec<Column> = Vec::new();
    cols.push(Column::ProjectId);
    cols.push(Column::Tag);
    cols.push(Column::Content);
    assert(cols@ =~= seq![Column::ProjectId, Column::Tag, Column::Content]);
    render(&Stmt::Insert(Table::Specs, cols))
}

/// The SQL text of a query for specs filtered by the given columns.
fn select_specs_text(filter: Vec<Column>, oldest_first: bool) -> (r: String)
    requires
        filter@.len() <= 9,
    ensures
        r@ == render_spec(StmtView::Select(Table::Specs, spec_columns(), filter@, oldest_first)),
{
    render(&Stmt::Select(Table::Specs, spec_columns_vec(), filter, oldest_first))
}

/// The SQL text of the query for the spec of a project and tag.
fn select_spec_by_project_and_tag_text() -> (r: String)
    ensures
        r@ == select_spec_by_project_and_tag_sql(),
{
    let mut filter: Vec<Column> = Vec::new();
    filter.push(Column::ProjectId);
    filter.push(Column::Tag);
    assert(filter@ =~= seq![Column::ProjectId, Column::Tag]);
    select_specs_text(filter, false)
}

/// The SQL text of the query for the specs of a project.
fn select_specs_by_project_text() -> (r: String)
    ensures
        r@ == select_specs_by_project_sql(),
{
    let mut filter: Vec<Column> = Vec::new();
    filter.push(Column::ProjectId);
    assert(filter@ =~= seq![Column::ProjectId]);
    select_specs_text(filter, true)
}

/// The SQL text of the query for a spec by id.
fn select_spec_by_id_text() -> (r: String)
    ensures
        r@ == select_spec_by_id_sql(),
{
    let mut filter: Vec<Column> = Vec::new();
    filter.push(Column::Id);
    assert(filter@ =~= seq![Column::Id]);
    select_specs_text(filter, false)
}

/// The values the lookup of the spec of project `project_id` and tag `tag` binds.
pub open spec fn spec_by_project_and_tag_args(project_id: i64, tag: SpecTag) -> Seq<SqlArg> {
    seq![SqlArg::Integer(project_id), SqlArg::Text(tag_name(tag))]
}

/// A lookup of at most one spec by the query `sql` with `args` bound, from the events
/// `before` to `after`. The query is compiled and started; then the first row SQLite
/// hands back is read as the spec returned, and no row means no spec. Each failure of
/// SQLite, or a row that cannot be read, is the error returned.
pub open spec fn spec_found(before: Seq<SqlEvent>, after: Seq<SqlEvent>, sql: Seq<char>, args: Seq<SqlArg>, r: Result<Option<Spec>, RepoError>) -> bool {
    let started = before + query_started(sql, args);
    ||| r matches Err(RepoError::Sqlite(e)) && query_failed(before, after, sql, args, e)
    ||| r matches Ok(None) && after == started.push(SqlEvent::Done)
    ||| r matches Err(RepoError::Sqlite(e)) && after == started.push(SqlEvent::StepFailed(e))
    ||| after.last() matches SqlEvent::Row(cells) && after == started.push(after.last()) && match r {
        Ok(Some(s)) => spec_row_read(cells, Ok(s)),
        Ok(None) => false,
        Err(e) => spec_row_read(cells, Err(e)),
    }
}

/// Reading the rows of a listing of specs, from `started` (the query started) to
/// `after`: the rows SQLite handed back each read as the spec at the same place in the
/// list, up to the end of the rows (or `u64::MAX` rows); a failed step or a row that
/// cannot be read is the error returned.
pub open spec fn specs_read(started: Seq<SqlEvent>, rows: Seq<Seq<SqlCell>>, after: Seq<SqlEvent>, r: Result<Vec<Spec>, RepoError>) -> bool {
    let read = started + row_events(rows);
    &&& forall|i: int| 0 <= i < rows.len() ==> rows[i].len() == 6 && #[trigger] spec_row_outcome(rows[i]) is Decoded
    &&& match r {
        Ok(specs) => {
            &&& specs@.len() == rows.len()
            &&& forall|i: int| 0 <= i < rows.len() ==> spec_row_outcome(rows[i]) == SpecRowOutcome::Decoded(#[trigger] specs@[i]@)
            &&& (after == read.push(SqlEvent::Done) || (after == read && rows.len() == u64::MAX))
        },
        Err(e) => after == read.push(after.last()) && match after.last() {
            SqlEvent::StepFailed(se) => e == RepoError::Sqlite(se),
            SqlEvent::Row(bad) => spec_row_read(bad, Err(e)),
            _ => false,
        },
    }
}

/// A listing of the specs of project `project_id`, from the events `before` to `after`:
/// the query compiled and started with the project id bound, then its rows read as
/// `specs_read` says; a failure to compile or start it is the error returned.
pub open spec fn specs_listed(before: Seq<SqlEvent>, after: Seq<SqlEvent>, project_id: i64, r: Result<Vec<Spec>, RepoError>) -> bool {
    let sql = select_specs_by_project_sql();
    let args = seq![SqlArg::Integer(project_id)];
    ||| r matches Err(RepoError::Sqlite(e)) && query_failed(before, after, sql, args, e)
    ||| exists|rows: Seq<Seq<SqlCell>>| #[trigger] specs_read(before + query_started(sql, args), rows, after, r)
}

/// A creation of spec `s` with its content stored as the text `json`, from the events
/// `before` to `after`: the insert with the project id, the tag's name and `json` bound;
/// if it failed, its error as `insert_failure` reports it; else the rowid SQLite reports,
/// then the lookup of that row, whose spec is returned (a missing row is a "no rows"
/// error).
pub open spec fn spec_created_as(before: Seq<SqlEvent>, after: Seq<SqlEvent>, s: NewSpec, json: Seq<char>, r: Result<Spec, RepoError>) -> bool {
    let sql = insert_spec_sql();
    let args = spec_insert_args(s, json);
    ||| after.last() matches SqlEvent::Statement(q, a, Some(ie)) && after == before.push(after.last())
        && q == sql && a == args && r == Err::<Spec, RepoError>(insert_failure(ie))
    ||| exists|rowid: i64, found: Result<Option<Spec>, RepoError>| {
        &&& #[trigger] spec_found(before.push(SqlEvent::Statement(sql, args, None)).push(SqlEvent::Rowid(rowid)), after,
            select_spec_by_id_sql(), seq![SqlArg::Integer(rowid)], found)
        &&& match found {
            Ok(Some(t)) => r == Ok::<Spec, RepoError>(t),
            Ok(None) => r matches Err(RepoError::Sqlite(e)) && sqlite_failure(e) is None,
            Err(e) => r == Err::<Spec, RepoError>(e),
        }
    }
}

/// A creation of spec `s`: as `spec_created_as` says, its content stored as a JSON text
/// that reads back as the content.
pub open spec fn spec_created(before: Seq<SqlEvent>, after: Seq<SqlEvent>, s: NewSpec, r: Result<Spec, RepoError>) -> bool {
    exists|json: Seq<char>| #[trigger] content_of_text(json) == Some(s.content@) && spec_created_as(before, after, s, json, r)
}

/// A check whether the table `name` exists, from the events `before` to `after`: the
/// query compiled and started with the name bound, then its one row read as the flag
/// returned; no row is a "no rows" error.
pub open spec fn table_probed(before: Seq<SqlEvent>, after: Seq<SqlEvent>, name: Seq<char>, r: Result<bool, rusqlite::Error>) -> bool {
    let sql = table_exists_sql();
    let args = seq![SqlArg::Text(name)];
    let started = before + query_started(sql, args);
    ||| r matches Err(e) && query_failed(before, after, sql, args, e)
    ||| r matches Err(e) && after == started.push(SqlEvent::StepFailed(e))
    ||| r matches Err(e) && sqlite_failure(e) is None && after == started.push(SqlEvent::Done)
    ||| after.last() matches SqlEvent::Row(cells) && after == started.push(after.last()) && presence_read(cells, r)
}

/// Reading the foreign-key rows of `specs`, from `started` (the query started) to
/// `after`: every row read before the last is not the project link; the answer is `true`
/// at the first row that is, `false` at the end of the rows (or after `u64::MAX` rows); a
/// failed step or a row that cannot be read is the error returned.
pub open spec fn fk_rows_read(started: Seq<SqlEvent>, rows: Seq<Seq<SqlCell>>, after: Seq<SqlEvent>, r: Result<bool, rusqlite::Error>) -> bool {
    let read = started + row_events(rows);
    &&& forall|i: int| 0 <= i < rows.len() ==> #[trigger] fk_row_read(rows[i], Ok(false))
    &&& match r {
        Ok(true) => after.last() matches SqlEvent::Row(link) && after == read.push(after.last()) && fk_row_read(link, Ok(true)),
        Ok(false) => after == read.push(SqlEvent::Done) || (after == read && rows.len() == u64::MAX),
        Err(e) => after == read.push(after.last()) && match after.last() {
            SqlEvent::StepFailed(se) => e == se,
            SqlEvent::Row(bad) => fk_row_read(bad, Err(e)),
            _ => false,
        },
    }
}

/// A check of the foreign keys of `specs`, from the events `before` to `after`: the query
/// compiled and started, then its rows read as `fk_rows_read` says; a failure to compile
/// or start it is the error returned.
pub open spec fn fk_checked(before: Seq<SqlEvent>, after: Seq<SqlEvent>, r: Result<bool, rusqlite::Error>) -> bool {
    let sql = specs_foreign_keys_sql();
    let args = Seq::<SqlArg>::empty();
    ||| r matches Err(e) && query_failed(before, after, sql, args, e)
    ||| exists|rows: Seq<Seq<SqlCell>>| #[trigger] fk_rows_read(before + query_started(sql, args), rows, after, r)
}

/// Bringing the `specs` table up to date, from the events `before` to `after`: the check
/// whether `specs` exists; if not, the statement that creates it; if so, the check of its
/// foreign keys and, when it lacks the link to `projects`, the migration. The first
/// failure is the error returned.
pub open spec fn specs_schema_updated(before: Seq<SqlEvent>, after: Seq<SqlEvent>, r: Result<(), rusqlite::Error>) -> bool {
    exists|probed: Seq<SqlEvent>, present: Result<bool, rusqlite::Error>| {
        &&& #[trigger] table_probed(before, probed, "specs"@, present)
        &&& match present {
            Err(e) => r == Err::<(), rusqlite::Error>(e) && after == probed,
            Ok(false) => after == probed.push(SqlEvent::Statement(create_specs_table_sql(), Seq::empty(), failure_of(r))),
            Ok(true) => exists|checked: Seq<SqlEvent>, has_fk: Result<bool, rusqlite::Error>| {
                &&& #[trigger] fk_checked(probed, checked, has_fk)
                &&& match has_fk {
                    Err(e) => r == Err::<(), rusqlite::Error>(e) && after == checked,
                    Ok(true) => r is Ok && after == checked,
                    Ok(false) => after == checked.push(SqlEvent::Statement(migrate_specs_table_sql(), Seq::empty(), failure_of(r))),
                }
            },
        }
    }
}

/// SQLite-backed repository for CRUD-like operations on specs.
pub struct SpecRepository<'a> {
    session: SqlSession<'a>,
}

impl<'a> SpecRepository<'a> {
    /// What the repository has handed to SQLite, and what it got back.
    pub closed spec fn events(self) -> Seq<SqlEvent> {
        self.session.events()
    }

    /// The connection the repository works on.
    pub closed spec fn connection(self) -> &'a rusqlite::Connection {
        self.session.connection()
    }

    pub fn new(conn: &'a rusqlite::Connection) -> (r: Self)
        ensures
            r.events() == Seq::<SqlEvent>::empty(),
            r.connection() == conn,
    {
        Self { session: SqlSession::new(conn) }
    }

    /// Brings the `specs` table up to date: creates it if missing, and rebuilds it with
    /// its foreign key to `projects` if it lacks one.
    pub fn init_schema(&mut self) -> (r: Result<(), rusqlite::Error>)
        ensures
            specs_schema_updated(old(self).events(), final(self).events(), r),
    {
        let ghost before = self.events();
        let present = self.table_exists("specs");
        let ghost probed = self.events();
        let ghost p = present;
        let table_present = match present {
            Ok(b) => b,
            Err(e) => {
                let r = Err(e);
                assert(table_probed(before, probed, "specs"@, p));
                return r;
            },
        };
        let has_fk = if table_present {
            let checked = self.specs_has_project_fk();
            let ghost c = checked;
            let ghost after_check = self.events();
            match checked {
                Ok(b) => {
                    assert(fk_checked(probed, after_check, c));
                    b
                },
                Err(e) => {
                    let r = Err(e);
                    assert(fk_checked(probed, after_check, c));
                    assert(table_probed(before, probed, "specs"@, p));
                    return r;
                },
            }
        } else {
            false
        };
        let ghost checked_events = self.events();
        let r = match schema_step(table_present, has_fk) {
            SchemaStep::CreateTable => self.create_specs_table_with_fk(),
            SchemaStep::UpToDate => Ok(()),
            SchemaStep::AddForeignKey => self.migrate_specs_table_add_project_fk(),
        };
        assert(table_probed(before, probed, "specs"@, p));
        if table_present {
            assert(fk_checked(probed, checked_events, Ok::<bool, rusqlite::Error>(has_fk)));
        }
        r
    }

    /// Stores a new spec, its content as JSON text, and reads back the row SQLite stored.
    /// A second spec for the same project and tag is refused with `UniqueConstraint`.
    pub fn create(&mut self, new_spec: &NewSpec) -> (r: Result<Spec, RepoError>)
        ensures
            spec_created(old(self).events(), final(self).events(), *new_spec, r),
    {
        let ghost before = self.events();
        let content_json = match content_to_json_text(&new_spec.content) {
            Ok(j) => j,
            Err(error) => return Err(RepoError::JsonEncode(error.to_string())),
        };
        let ghost json = content_json@;
        let params = insert_params(new_spec, content_json);
        let sql = insert_spec_text();
        let inserted = self.session.run(sql.as_str(), params.as_slice());
        match inserted {
            Ok(_) => {},
            Err(error) => {
                let r = Err(insert_error(error));
                assert(spec_created_as(before, self.events(), *new_spec, json, r));
                return r;
            },
        }
        let id = self.session.last_insert_rowid();
        let ghost mid = self.events();
        let stored = self.find_by_id(id);
        let ghost f = stored;
        let r = match stored {
            Ok(Some(s)) => Ok(s),
            Ok(None) => Err(RepoError::Sqlite(no_rows_error())),
            Err(e) => Err(e),
        };
        assert(spec_found(mid, self.events(), select_spec_by_id_sql(), seq![SqlArg::Integer(id)], f));
        assert(spec_created_as(before, self.events(), *new_spec, json, r));
        r
    }

    /// The spec of a project for a tag, if there is one.
    pub fn find_by_project_and_tag(&mut self, project_id: i64, tag: SpecTag) -> (r: Result<Option<Spec>, RepoError>)
        ensures
            spec_found(old(self).events(), final(self).events(), select_spec_by_project_and_tag_sql(),
                spec_by_project_and_tag_args(project_id, tag), r),
    {
        let params: Vec<SqlValue> = vec![SqlValue::Integer(project_id), SqlValue::Text(String::from_str(tag.as_str()))];
        assert(sql_args(params@) =~= spec_by_project_and_tag_args(project_id, tag));
        let sql = select_spec_by_project_and_tag_text();
        self.find_one(sql.as_str(), params)
    }

    /// All specs of a project, oldest first. The read stops after `u64::MAX` rows.
    pub fn list_by_project(&mut self, project_id: i64) -> (r: Result<Vec<Spec>, RepoError>)
        ensures
            specs_listed(old(self).events(), final(self).events(), project_id, r),
    {
        let ghost before = self.events();
        let sql = select_specs_by_project_text();
        let mut stmt = match self.session.prepare(sql.as_str()) {
            Ok(s) => s,
            Err(e) => return Err(RepoError::Sqlite(e)),
        };
        let params: Vec<SqlValue> = vec![SqlValue::Integer(project_id)];
        assert(sql_args(params@) =~= seq![SqlArg::Integer(project_id)]);
        let mut rows = match self.session.start_query(&mut stmt, params.as_slice()) {
            Ok(r) => r,
            Err(e) => return Err(RepoError::Sqlite(e)),
        };
        let ghost started = self.events();
        assert(started =~= before + query_started(select_specs_by_project_sql(), seq![SqlArg::Integer(project_id)]));
        let columns: [&str; 6] = ["id", "project_id", "tag", "content", "created_at", "updated_at"];
        let mut specs: Vec<Spec> = Vec::new();
        let ghost mut read: Seq<Seq<SqlCell>> = Seq::empty();
        let mut count: u64 = 0;
        assert(started + row_events(read) =~= started);
        while count < u64::MAX
            invariant
                before == old(self).events(),
                columns@.len() == 6,
                started == before + query_started(select_specs_by_project_sql(), seq![SqlArg::Integer(project_id)]),
                self.events() == started + row_events(read),
                read.len() == specs@.len(),
                read.len() == count,
                forall|i: int| 0 <= i < read.len() ==> read[i].len() == 6 && #[trigger] spec_row_outcome(read[i]) is Decoded,
                forall|i: int| 0 <= i < read.len() ==> spec_row_outcome(read[i]) == SpecRowOutcome::Decoded(#[trigger] specs@[i]@),
            decreases u64::MAX - count,
        {
            match self.session.read_row(&mut rows, columns.as_slice()) {
                Ok(Some(cells)) => {
                    let ghost row = cells@;
                    match Spec::from_row(cells) {
                        Ok(s) => {
                            proof {
                                assert(row_events(read.push(row)) =~= row_events(read).push(SqlEvent::Row(row)));
                                read = read.push(row);
                            }
                            specs.push(s);
                            assert(self.events() =~= started + row_events(read));
                            assert(spec_row_outcome(read[read.len() - 1]) == SpecRowOutcome::Decoded(specs@[specs@.len() - 1]@));
                        },
                        Err(e) => {
                            assert(specs_read(started, read, self.events(), Err(e)));
                            return Err(e);
                        },
                    }
                },
                Ok(None) => {
                    assert(specs_read(started, read, self.events(), Ok(specs)));
                    return Ok(specs);
                },
                Err(e) => {
                    let r = Err(RepoError::Sqlite(e));
                    assert(specs_read(started, read, self.events(), r));
                    return r;
                },
            }
            count = count + 1;
        }
        assert(specs_read(started, read, self.events(), Ok(specs)));
        Ok(specs)
    }

    fn find_by_id(&mut self, id: i64) -> (r: Result<Option<Spec>, RepoError>)
        ensures
            spec_found(old(self).events(), final(self).events(), select_spec_by_id_sql(), seq![SqlArg::Integer(id)], r),
    {
        let params: Vec<SqlValue> = vec![SqlValue::Integer(id)];
        assert(sql_args(params@) =~= seq![SqlArg::Integer(id)]);
        let sql = select_spec_by_id_text();
        self.find_one(sql.as_str(), params)
    }

    /// Runs a query for at most one spec and reads its row.
    fn find_one(&mut self, sql: &str, params: Vec<SqlValue>) -> (r: Result<Option<Spec>, RepoError>)
        ensures
            spec_found(old(self).events(), final(self).events(), sql@, sql_args(params@), r),
    {
        let ghost before = self.events();
        let mut stmt = match self.session.prepare(sql) {
            Ok(s) => s,
            Err(e) => return Err(RepoError::Sqlite(e)),
        };
        let mut rows = match self.session.start_query(&mut stmt, params.as_slice()) {
            Ok(r) => r,
            Err(e) => return Err(RepoError::Sqlite(e)),
        };
        assert(self.events() =~= before + query_started(sql@, sql_args(params@)));
        let columns: [&str; 6] = ["id", "project_id", "tag", "content", "created_at", "updated_at"];
        match self.session.read_row(&mut rows, columns.as_slice()) {
            Ok(Some(cells)) => match Spec::from_row(cells) {
                Ok(s) => Ok(Some(s)),
                Err(e) => Err(e),
            },
            Ok(None) => Ok(None),
            Err(e) => Err(RepoError::Sqlite(e)),
        }
    }

    /// Whether the named table exists.
    fn table_exists(&mut self, table_name: &str) -> (r: Result<bool, rusqlite::Error>)
        ensures
            table_probed(old(self).events(), final(self).events(), table_name@, r),
    {
        let ghost before = self.events();
        let mut stmt = match self.session.prepare("SELECT EXISTS(SELECT 1 FROM sqlite_master WHERE type = 'table' AND name = ?1) AS present") {
            Ok(s) => s,
            Err(e) => return Err(e),
        };
        let params: Vec<SqlValue> = vec![SqlValue::Text(String::from_str(table_name))];
        assert(sql_args(params@) =~= seq![SqlArg::Text(table_name@)]);
        let mut rows = match self.session.start_query(&mut stmt, params.as_slice()) {
            Ok(r) => r,
            Err(e) => return Err(e),
        };
        assert(self.events() =~= before + query_started(table_exists_sql(), seq![SqlArg::Text(table_name@)]));
        let columns: [&str; 1] = ["present"];
        match self.session.read_row(&mut rows, columns.as_slice()) {
            Ok(Some(cells)) => presence_flag(cells),
            Ok(None) => Err(no_rows_error()),
            Err(e) => Err(e),
        }
    }

    /// Whether the `specs` table has its foreign key to `projects`: some row of its
    /// foreign-key list is the link. The read stops after `u64::MAX` rows.
    fn specs_has_project_fk(&mut self) -> (r: Result<bool, rusqlite::Error>)
        ensures
            fk_checked(old(self).events(), final(self).events(), r),
    {
        let ghost before = self.events();
        let mut stmt = match self.session.prepare("PRAGMA foreign_key_list(specs)") {
            Ok(s) => s,
            Err(e) => return Err(e),
        };
        let none: [SqlValue; 0] = [];
        assert(sql_args(none@) =~= Seq::<SqlArg>::empty());
        let mut rows = match self.session.start_query(&mut stmt, none.as_slice()) {
            Ok(r) => r,
            Err(e) => return Err(e),
        };
        let ghost started = self.events();
        assert(started =~= before + query_started(specs_foreign_keys_sql(), Seq::<SqlArg>::empty()));
        let columns: [&str; 3] = ["table", "from", "to"];
        let ghost mut read: Seq<Seq<SqlCell>> = Seq::empty();
        let mut count: u64 = 0;
        assert(started + row_events(read) =~= started);
        while count < u64::MAX
            invariant
                before == old(self).events(),
                columns@.len() == 3,
                started == before + query_started(specs_foreign_keys_sql(), Seq::<SqlArg>::empty()),
                self.events() == started + row_events(read),
                read.len() == count,
                forall|i: int| 0 <= i < read.len() ==> #[trigger] fk_row_read(read[i], Ok(false)),
            decreases u64::MAX - count,
        {
            match self.session.read_row(&mut rows, columns.as_slice()) {
                Ok(Some(cells)) => {
                    let ghost row = cells@;
                    let link = fk_row_is_project_link(cells);
                    match link {
                        Ok(true) => {
                            assert(fk_rows_read(started, read, self.events(), link));
                            return link;
                        },
                        Ok(false) => {
                            proof {
                                assert(row_events(read.push(row)) =~= row_events(read).push(SqlEvent::Row(row)));
                                read = read.push(row);
                            }
                            assert(self.events() =~= started + row_events(read));
                            assert(fk_row_read(read[read.len() - 1], Ok(false)));
                        },
                        Err(_) => {
                            assert(fk_rows_read(started, read, self.events(), link));
                            return link;
                        },
                    }
                },
                Ok(None) => {
                    assert(fk_rows_read(started, read, self.events(), Ok(false)));
                    return Ok(false);
                },
                Err(e) => {
                    let r = Err(e);
                    assert(fk_rows_read(started, read, self.events(), r));
                    return r;
                },
            }
            count = count + 1;
        }
        assert(fk_rows_read(started, read, self.events(), Ok(false)));
        Ok(false)
    }

    fn create_specs_table_with_fk(&mut self) -> (r: Result<(), rusqlite::Error>)
        ensures
            final(self).events() == old(self).events().push(
                SqlEvent::Statement(create_specs_table_sql(), Seq::empty(), failure_of(r))),
    {
        let none: [SqlValue; 0] = [];
        assert(sql_args(none@) =~= Seq::<SqlArg>::empty());
        match self.session.run(
            "CREATE TABLE IF NOT EXISTS specs (id INTEGER PRIMARY KEY AUTOINCREMENT, project_id INTEGER NOT NULL, tag TEXT NOT NULL, content TEXT NOT NULL, created_at TEXT NOT NULL DEFAULT CURRENT_TIMESTAMP, updated_at TEXT NOT NULL DEFAULT CURRENT_TIMESTAMP, FOREIGN KEY (project_id) REFERENCES projects(id) ON DELETE CASCADE, UNIQUE(project_id, tag))",
            none.as_slice(),
        ) {
            Ok(_) => Ok(()),
            Err(e) => Err(e),
        }
    }

    fn migrate_specs_table_add_project_fk(&mut self) -> (r: Result<(), rusqlite::Error>)
        ensures
            final(self).events() == old(self).events().push(
                SqlEvent::Statement(migrate_specs_table_sql(), Seq::empty(), failure_of(r))),
    {
        self.session.run_batch(
            "BEGIN IMMEDIATE; CREATE TABLE specs_new (id INTEGER PRIMARY KEY AUTOINCREMENT, project_id INTEGER NOT NULL, tag TEXT NOT NULL, content TEXT NOT NULL, created_at TEXT NOT NULL DEFAULT CURRENT_TIMESTAMP, updated_at TEXT NOT NULL DEFAULT CURRENT_TIMESTAMP, FOREIGN KEY (project_id) REFERENCES projects(id) ON DELETE CASCADE, UNIQUE(project_id, tag)); INSERT INTO specs_new (id, project_id, tag, content, created_at, updated_at) SELECT id, project_id, tag, content, created_at, updated_at FROM specs; DROP TABLE specs; ALTER TABLE specs_new RENAME TO specs; COMMIT;",
        )
    }
}

/// A created spec is the one asked for: whenever SQLite carried out the insert and the
/// lookup of the row it reported as SQL says, starting from any tables, the spec returned
/// has the requested project, tag and content (its notes included).
pub proof fn law_created_spec_is_the_request(db: Store, before: Seq<SqlEvent>, after: Seq<SqlEvent>, s: NewSpec, r: Result<Spec, RepoError>)
    requires
        spec_created(before, after, s, r),
        insert_then_lookup_answered(db, before, after),
    ensures
        r matches Ok(t) ==> t.project_id == s.project_id && t.tag == s.tag && t.content@ == s.content@,
{
    if let Ok(t) = r {
        let json = choose|json: Seq<char>| #[trigger] content_of_text(json) == Some(s.content@) && spec_created_as(before, after, s, json, r);
        let ins = insert_spec_sql();
        let args = spec_insert_args(s, json);
        let (rowid, found) = choose|rowid: i64, found: Result<Option<Spec>, RepoError>| {
            &&& #[trigger] spec_found(before.push(SqlEvent::Statement(ins, args, None)).push(SqlEvent::Rowid(rowid)), after,
                select_spec_by_id_sql(), seq![SqlArg::Integer(rowid)], found)
            &&& match found {
                Ok(Some(t)) => r == Ok::<Spec, RepoError>(t),
                Ok(None) => r matches Err(RepoError::Sqlite(e)) && sqlite_failure(e) is None,
                Err(e) => r == Err::<Spec, RepoError>(e),
            }
        };
        let mid = before.push(SqlEvent::Statement(ins, args, None)).push(SqlEvent::Rowid(rowid));
        let sel = select_spec_by_id_sql();
        let sel_args = seq![SqlArg::Integer(rowid)];
        let started = mid + query_started(sel, sel_args);
        assert(found == Ok::<Option<Spec>, RepoError>(Some(t)));
        let cells = after.last()->Row_0;
        assert(after == started.push(SqlEvent::Row(cells)));
        assert(spec_row_read(cells, Ok(t)));
        let evs = after.subrange(before.len() as int, after.len() as int);
        assert(evs =~= seq![SqlEvent::Statement(ins, args, None), SqlEvent::Rowid(rowid), SqlEvent::Prepare(sel, None),
            SqlEvent::Statement(sel, sel_args, None), SqlEvent::Row(cells)]);
        let db2 = choose|d: Store| #[trigger] write_done(db, ins, args, rowid, d) && first_answer_done(d, sel, sel_args, Some(cells));
        assert(render_spec(insert_spec_stmt()) == ins);
        let cols = seq![Column::ProjectId, Column::Tag, Column::Content];
        let row = choose|row: Map<Column, SqlArg>| row_inserted(row, cols, args, rowid) && db2 == #[trigger] with_row(db, Table::Specs, row);
        assert(render_spec(select_spec_by_id_stmt()) == sel);
        let k = choose|k: int| 0 <= k < rows_of(db2, Table::Specs).len()
            && fits_filter(#[trigger] rows_of(db2, Table::Specs)[k], seq![Column::Id], sel_args)
            && cells_show(cells, rows_of(db2, Table::Specs)[k], spec_columns());
        assert(db2.specs == db.specs.push(row));
        if k < db.specs.len() {
            assert(db2.specs[k] == db.specs[k]);
            assert(fits_filter(db2.specs[k], seq![Column::Id], sel_args));
            assert(seq![Column::Id][0] == Column::Id);
            assert(rows_of(db, Table::Specs)[k].contains_key(Column::Id));
            assert(false);
        }
        assert(db2.specs[k] == row);
        assert(cols[0] == Column::ProjectId && cols[1] == Column::Tag && cols[2] == Column::Content);
        assert(row[Column::ProjectId] == args[0] && row[Column::Tag] == args[1] && row[Column::Content] == args[2]);
        assert(spec_columns()[1] == Column::ProjectId && spec_columns()[2] == Column::Tag && spec_columns()[3] == Column::Content);
        assert(cell_shows(cells[1], row[spec_columns()[1]]));
        assert(cell_shows(cells[2], row[spec_columns()[2]]));
        assert(cell_shows(cells[3], row[spec_columns()[3]]));
        lemma_tag_name_round_trip(s.tag);
    }
}

/// A lookup of a project's spec by tag finds that project's spec for that tag: whenever
/// SQLite answered the query as SQL says on any tables, a spec returned has the project id
/// and tag asked for, and no spec is returned only when no stored spec has them.
pub proof fn law_lookup_finds_that_project_and_tag(db: Store, before: Seq<SqlEvent>, after: Seq<SqlEvent>, project_id: i64, tag: SpecTag, r: Result<Option<Spec>, RepoError>)
    requires
        spec_found(before, after, select_spec_by_project_and_tag_sql(), spec_by_project_and_tag_args(project_id, tag), r),
        lookup_answered(db, before, after),
    ensures
        r matches Ok(Some(s)) ==> s.project_id == project_id && s.tag == tag,
        r matches Ok(None) ==> forall|k: int| 0 <= k < db.specs.len() ==> !(#[trigger] db.specs[k].contains_key(Column::ProjectId)
            && db.specs[k][Column::ProjectId] == SqlArg::Integer(project_id) && db.specs[k].contains_key(Column::Tag)
            && db.specs[k][Column::Tag] == SqlArg::Text(tag_name(tag))),
{
    let sel = select_spec_by_project_and_tag_sql();
    let args = spec_by_project_and_tag_args(project_id, tag);
    let started = before + query_started(sel, args);
    let filter = seq![Column::ProjectId, Column::Tag];
    assert(render_spec(select_spec_by_project_and_tag_stmt()) == sel);
    let evs = after.subrange(before.len() as int, after.len() as int);
    match r {
        Ok(Some(s)) => {
            let cells = after.last()->Row_0;
            assert(after == started.push(SqlEvent::Row(cells)));
            assert(evs =~= seq![SqlEvent::Prepare(sel, None), SqlEvent::Statement(sel, args, None), SqlEvent::Row(cells)]);
            assert(first_answer_done(db, sel, args, Some(cells)));
            let k = choose|k: int| 0 <= k < rows_of(db, Table::Specs).len()
                && fits_filter(#[trigger] rows_of(db, Table::Specs)[k], filter, args)
                && cells_show(cells, rows_of(db, Table::Specs)[k], spec_columns());
            let row = db.specs[k];
            assert(filter[0] == Column::ProjectId && filter[1] == Column::Tag);
            assert(row[Column::ProjectId] == args[0] && row[Column::Tag] == args[1]);
            assert(spec_columns()[1] == Column::ProjectId && spec_columns()[2] == Column::Tag);
            assert(cell_shows(cells[1], row[spec_columns()[1]]));
            assert(cell_shows(cells[2], row[spec_columns()[2]]));
            assert(spec_row_read(cells, Ok(s)));
            lemma_tag_name_round_trip(tag);
        },
        Ok(None) => {
            assert(after == started.push(SqlEvent::Done));
            assert(evs =~= seq![SqlEvent::Prepare(sel, None), SqlEvent::Statement(sel, args, None), SqlEvent::Done]);
            assert(first_answer_done(db, sel, args, None));
            assert forall|k: int| 0 <= k < db.specs.len() implies !(#[trigger] db.specs[k].contains_key(Column::ProjectId)
                && db.specs[k][Column::ProjectId] == SqlArg::Integer(project_id) && db.specs[k].contains_key(Column::Tag)
                && db.specs[k][Column::Tag] == SqlArg::Text(tag_name(tag))) by {
                assert(!fits_filter(rows_of(db, Table::Specs)[k], filter, args));
                assert(filter[0] == Column::ProjectId && filter[1] == Column::Tag);
            }
        },
        Err(_) => {},
    }
}

/// A listing of a project's specs holds every stored spec of that project and no other:
/// whenever SQLite answered the query as SQL says on any tables (with fewer than
/// `u64::MAX` specs), the list has one spec for each row of `specs` whose project id is the
/// one asked for, and each spec listed has that project id.
pub proof fn law_listing_holds_every_spec_of_the_project(db: Store, before: Seq<SqlEvent>, after: Seq<SqlEvent>, project_id: i64, r: Result<Vec<Spec>, RepoError>)
    requires
        specs_listed(before, after, project_id, r),
        listing_answered(db, before, after),
        db.specs.len() < u64::MAX,
    ensures
        r matches Ok(v) ==> v@.len() == fitting_rows(db, Table::Specs, seq![Column::ProjectId], seq![SqlArg::Integer(project_id)]).len()
            && forall|i: int| 0 <= i < v@.len() ==> (#[trigger] v@[i]).project_id == project_id,
{
    if let Ok(v) = r {
        let sel = select_specs_by_project_sql();
        let args = seq![SqlArg::Integer(project_id)];
        let filter = seq![Column::ProjectId];
        let started = before + query_started(sel, args);
        let rows = choose|rows: Seq<Seq<SqlCell>>| #[trigger] specs_read(started, rows, after, r);
        let read = started + row_events(rows);
        let evs = after.subrange(before.len() as int, after.len() as int);
        assert(render_spec(select_specs_by_project_stmt()) == sel);
        lemma_fitting_rows_bounded(db, Table::Specs, filter, args);
        let tail = evs.subrange(2, evs.len() as int);
        assert(evs[1] == SqlEvent::Statement(sel, args, None));
        let ended = after == read.push(SqlEvent::Done);
        if ended {
            assert(tail =~= row_events(rows).push(SqlEvent::Done));
            assert(tail.drop_last() =~= row_events(rows));
        } else {
            assert(tail =~= row_events(rows));
            assert(rows.len() > 0);
            assert(tail.last() == SqlEvent::Row(rows.last()));
        }
        assert(cells_of_rows(row_events(rows)) =~= rows);
        assert(all_answers_done(db, sel, args, rows, ended));
        assert forall|i: int| 0 <= i < v@.len() implies (#[trigger] v@[i]).project_id == project_id by {
            let k = choose|k: int| 0 <= k < rows_of(db, Table::Specs).len()
                && fits_filter(#[trigger] rows_of(db, Table::Specs)[k], filter, args) && cells_show(rows[i], rows_of(db, Table::Specs)[k], spec_columns());
            let row = db.specs[k];
            assert(filter[0] == Column::ProjectId);
            assert(spec_columns()[1] == Column::ProjectId);
            assert(cell_shows(rows[i][1], row[spec_columns()[1]]));
            assert(spec_row_outcome(rows[i]) == SpecRowOutcome::Decoded(v@[i]@));
        }
    }
}

} // verus!
