//! Projects and their SQLite repository.
use vstd::prelude::*;
use vstd::string::*;
use crate::statement::{
    Column, Stmt, StmtView, Store, Table, render, render_spec, rows_of, fits_filter, cells_show, write_done,
    first_answer_done, fitting_rows, insert_then_lookup_answered, lookup_answered, listing_answered, cells_of_rows,
    all_answers_done,
    row_inserted, with_row, lemma_no_filter_fits_all, lemma_fitting_rows_bounded,
};
use crate::sqlite::{
    SqlArg, SqlCell, SqlEvent, SqlSession, SqlValue, cell_read_error, sql_args, row_events, sqlite_failure,
    query_started, query_failed, failure_of, no_rows_error, cell_i64, cell_text, cell_opt_text,
};

verus! {

/// Persisted project record loaded from the `projects` table.
#[derive(Debug, Clone)]
pub struct Project {
    pub id: i64,
    pub name: String,
    pub description: Option<String>,
    pub created_at: String,
    pub updated_at: String,
}

/// The content of a project record.
pub struct ProjectView {
    pub id: i64,
    pub name: Seq<char>,
    pub description: Option<Seq<char>>,
    pub created_at: Seq<char>,
    pub updated_at: Seq<char>,
}

impl View for Project {
    type V = ProjectView;

    open spec fn view(&self) -> ProjectView {
        ProjectView {
            id: self.id,
            name: self.name@,
            description: match self.description {
                Some(d) => Some(d@),
                None => None,
            },
            created_at: self.created_at@,
            updated_at: self.updated_at@,
        }
    }
}

/// Payload used to insert a new project into persistence.
#[derive(Debug, Clone)]
pub struct NewProject {
    pub name: String,
    pub description: Option<String>,
}

/// The text of a cell that holds text.
pub open spec fn cell_text_of(c: SqlCell) -> Option<Seq<char>> {
    match c {
        SqlCell::Text(s) => Some(s@),
        _ => None,
    }
}

/// The project a result row describes, read from its cells `id, name, description,
/// created_at, updated_at`: an integer id, text name and timestamps, and a description
/// that is text or `NULL`. `None` where a cell holds another kind of value.
pub open spec fn project_of_cells(cells: Seq<SqlCell>) -> Option<ProjectView> {
    if cells.len() == 5 && cells[0] is Integer && cells[1] is Text
        && (cells[2] is Null || cells[2] is Text) && cells[3] is Text && cells[4] is Text {
        Some(ProjectView {
            id: cells[0]->Integer_0,
            name: cells[1]->Text_0@,
            description: cell_text_of(cells[2]),
            created_at: cells[3]->Text_0@,
            updated_at: cells[4]->Text_0@,
        })
    } else {
        None
    }
}

/// The values the insert of a new project binds: its name, then its description or
/// `NULL`.
pub open spec fn project_insert_args(p: NewProject) -> Seq<SqlArg> {
    seq![
        SqlArg::Text(p.name@),
        match p.description {
            Some(d) => SqlArg::Text(d@),
            None => SqlArg::Null,
        },
    ]
}

/// Whether cell `c` can be read as column `i` of a project row.
pub open spec fn project_cell_fits(i: int, c: SqlCell) -> bool {
    if i == 0 {
        c is Integer
    } else if i == 2 {
        c is Null || c is Text
    } else {
        c is Text
    }
}

/// The first cell of a project row, in column order, that cannot be read.
pub open spec fn first_unfit_project_cell(cells: Seq<SqlCell>) -> int {
    if !project_cell_fits(0, cells[0]) {
        0
    } else if !project_cell_fits(1, cells[1]) {
        1
    } else if !project_cell_fits(2, cells[2]) {
        2
    } else if !project_cell_fits(3, cells[3]) {
        3
    } else {
        4
    }
}

/// Reading a project from the cells of a row, as `Project::from_row` does: the project
/// the cells describe, else the error of the first cell, in column order, that cannot be
/// read as its column.
pub open spec fn project_row_read(cells: Seq<SqlCell>, r: Result<Project, rusqlite::Error>) -> bool {
    cells.len() == 5 && match project_of_cells(cells) {
        Some(p) => r matches Ok(q) && q@ == p,
        None => r matches Err(e) && cell_read_error(cells[first_unfit_project_cell(cells)], e),
    }
}

impl Project {
    /// Reads a project from the cells of a result row (`id, name, description,
    /// created_at, updated_at`), column by column; the first cell that cannot be read as
    /// its column gives the error.
    pub fn from_row(cells: Vec<SqlCell>) -> (r: Result<Project, rusqlite::Error>)
        requires
            cells@.len() == 5,
        ensures
            project_row_read(cells@, r),
    {
        let mut cells = cells;
        let id = match cell_i64(&mut cells, 0, "id") {
            Ok(v) => v,
            Err(e) => return Err(e),
        };
        let name = match cell_text(&mut cells, 1, "name") {
            Ok(v) => v,
            Err(e) => return Err(e),
        };
        let description = match cell_opt_text(&mut cells, 2, "description") {
            Ok(v) => v,
            Err(e) => return Err(e),
        };
        let created_at = match cell_text(&mut cells, 3, "created_at") {
            Ok(v) => v,
            Err(e) => return Err(e),
        };
        let updated_at = match cell_text(&mut cells, 4, "updated_at") {
            Ok(v) => v,
            Err(e) => return Err(e),
        };
        Ok(Project { id, name, description, created_at, updated_at })
    }
}

/// The parameters that insert `p`.
pub fn insert_params(p: &NewProject) -> (r: Vec<SqlValue>)
    ensures
        sql_args(r@) == project_insert_args(*p),
{
    let mut params: Vec<SqlValue> = Vec::new();
    params.push(SqlValue::Text(p.name.clone()));
    match &p.description {
        Some(d) => params.push(SqlValue::Text(d.clone())),
        None => params.push(SqlValue::Null),
    }
    params
}

/// The statement that creates the `projects` table unless it exists.
pub open spec fn create_projects_table_sql() -> Seq<char> {
    "CREATE TABLE IF NOT EXISTS projects (id INTEGER PRIMARY KEY AUTOINCREMENT, name TEXT NOT NULL, description TEXT, created_at TEXT NOT NULL DEFAULT CURRENT_TIMESTAMP, updated_at TEXT NOT NULL DEFAULT CURRENT_TIMESTAMP)"@
}

/// The columns a project is read from, in order.
pub open spec fn project_columns() -> Seq<Column> {
    seq![Column::Id, Column::Name, Column::Description, Column::CreatedAt, Column::UpdatedAt]
}

/// The insert of a project: its name and description.
pub open spec fn insert_project_stmt() -> StmtView {
    StmtView::Insert(Table::Projects, seq![Column::Name, Column::Description])
}

/// The query for the project with a given id.
pub open spec fn select_project_by_id_stmt() -> StmtView {
    StmtView::Select(Table::Projects, project_columns(), seq![Column::Id], false)
}

/// The query for all projects, oldest first.
pub open spec fn select_projects_stmt() -> StmtView {
    StmtView::Select(Table::Projects, project_columns(), Seq::empty(), true)
}

/// The statement that inserts a project.
pub open spec fn insert_project_sql() -> Seq<char> {
    render_spec(insert_project_stmt())
}

/// The query for the project with a given id.
pub open spec fn select_project_by_id_sql() -> Seq<char> {
    render_spec(select_project_by_id_stmt())
}

/// The query for all projects, oldest first.
pub open spec fn select_projects_sql() -> Seq<char> {
    render_spec(select_projects_stmt())
}

fn project_columns_vec() -> (r: Vec<Column>)
    ensures
        r@ == project_columns(),
{
    let mut cols: Vec<Column> = Vec::new();
    cols.push(Column::Id);
    cols.push(Column::Name);
    cols.push(Column::Description);
    cols.push(Column::CreatedAt);
    cols.push(Column::UpdatedAt);
    assert(cols@ =~= project_columns());
    cols
}

/// The SQL text of the insert of a project.
fn insert_project_text() -> (r: String)
    ensures
        r@ == insert_project_sql(),
{
    let mut cols: Vec<Column> = Vec::new();
    cols.push(Column::Name);
    cols.push(Column::Description);
    assert(cols@ =~= seq![Column::Name, Column::Description]);
    let stmt = Stmt::Insert(Table::Projects, cols);
    render(&stmt)
}

/// The SQL text of the query for a project by id.
fn select_project_by_id_text() -> (r: String)
    ensures
        r@ == select_project_by_id_sql(),
{
    let mut filter: Vec<Column> = Vec::new();
    filter.push(Column::Id);
    assert(filter@ =~= seq![Column::Id]);
    let stmt = Stmt::Select(Table::Projects, project_columns_vec(), filter, false);
    render(&stmt)
}

/// The SQL text of the query for all projects.
fn select_projects_text() -> (r: String)
    ensures
        r@ == select_projects_sql(),
{
    let none: Vec<Column> = Vec::new();
    assert(none@ =~= Seq::<Column>::empty());
    let stmt = Stmt::Select(Table::Projects, project_columns_vec(), none, true);
    render(&stmt)
}

/// A lookup of the project with id `id`, from the events `before` to `after`. The query
/// is compiled and started with the id bound; then the first row SQLite hands back is
/// read as the project returned, and no row means no project. Each failure of SQLite,
/// or a row that cannot be read, is the error returned.
pub open spec fn project_found(before: Seq<SqlEvent>, after: Seq<SqlEvent>, id: i64, r: Result<Option<Project>, rusqlite::Error>) -> bool {
    let sql = select_project_by_id_sql();
    let args = seq![SqlArg::Integer(id)];
    let started = before + query_started(sql, args);
    ||| r matches Err(e) && query_failed(before, after, sql, args, e)
    ||| r matches Ok(None) && after == started.push(SqlEvent::Done)
    ||| r matches Err(e) && after == started.push(SqlEvent::StepFailed(e))
    ||| after.last() matches SqlEvent::Row(cells) && after == started.push(after.last()) && match r {
        Ok(Some(p)) => project_row_read(cells, Ok(p)),
        Ok(None) => false,
        Err(e) => project_row_read(cells, Err(e)),
    }
}

/// A creation of project `p`, from the events `before` to `after`: the insert with the
/// project's name and description bound; if it failed, its error; else the rowid SQLite
/// reports for it, then the lookup of that row, whose project is returned (a missing row
/// is a "no rows" error).
pub open spec fn project_created(before: Seq<SqlEvent>, after: Seq<SqlEvent>, p: NewProject, r: Result<Project, rusqlite::Error>) -> bool {
    let sql = insert_project_sql();
    let args = project_insert_args(p);
    ||| r matches Err(e) && after == before.push(SqlEvent::Statement(sql, args, Some(e)))
    ||| exists|rowid: i64, found: Result<Option<Project>, rusqlite::Error>| {
        &&& #[trigger] project_found(before.push(SqlEvent::Statement(sql, args, None)).push(SqlEvent::Rowid(rowid)), after, rowid, found)
        &&& match found {
            Ok(Some(q)) => r == Ok::<Project, rusqlite::Error>(q),
            Ok(None) => r matches Err(e) && sqlite_failure(e) is None,
            Err(e) => r == Err::<Project, rusqlite::Error>(e),
        }
    }
}

/// Reading the rows of a listing, from `started` (the query started) to `after`: the
/// rows SQLite handed back each read as the project at the same place in the list, up to
/// the end of the rows (or `u64::MAX` rows); a failed step or a row that cannot be read
/// is the error returned.
pub open spec fn projects_read(started: Seq<SqlEvent>, rows: Seq<Seq<SqlCell>>, after: Seq<SqlEvent>, r: Result<Vec<Project>, rusqlite::Error>) -> bool {
    let read = started + row_events(rows);
    &&& forall|i: int| 0 <= i < rows.len() ==> rows[i].len() == 5 && #[trigger] project_of_cells(rows[i]) is Some
    &&& match r {
        Ok(ps) => {
            &&& ps@.len() == rows.len()
            &&& forall|i: int| 0 <= i < rows.len() ==> project_of_cells(rows[i]) == Some(#[trigger] ps@[i]@)
            &&& (after == read.push(SqlEvent::Done) || (after == read && rows.len() == u64::MAX))
        },
        Err(e) => {
            ||| after == read.push(SqlEvent::StepFailed(e))
            ||| after.last() matches SqlEvent::Row(bad) && after == read.push(after.last()) && project_row_read(bad, Err(e))
        },
    }
}

/// A listing of all projects, from the events `before` to `after`: the query compiled
/// and started, then its rows read as `projects_read` says; a failure to compile or
/// start it is the error returned.
pub open spec fn projects_listed(before: Seq<SqlEvent>, after: Seq<SqlEvent>, r: Result<Vec<Project>, rusqlite::Error>) -> bool {
    let sql = select_projects_sql();
    let args = Seq::<SqlArg>::empty();
    ||| r matches Err(e) && query_failed(before, after, sql, args, e)
    ||| exists|rows: Seq<Seq<SqlCell>>| #[trigger] projects_read(before + query_started(sql, args), rows, after, r)
}

/// SQLite-backed repository for project persistence operations.
pub struct ProjectRepository<'a> {
    session: SqlSession<'a>,
}

impl<'a> ProjectRepository<'a> {
    /// What the repository has handed to SQLite, and what it got back.
    pub closed spec fn events(self) -> Seq<SqlEvent> {
        self.session.events()
    }

    /// The connection the repository works on.
    pub closed spec fn connection(self) -> &'a rusqlite::Connection {
        self.session.connection()
    }

    pub fn new(conn: &'a rusqlite::Connection) -> (r: Self)
        ensures
            r.events() == Seq::<SqlEvent>::empty(),
            r.connection() == conn,
    {
        Self { session: SqlSession::new(conn) }
    }

    /// Creates the `projects` table unless it exists.
    pub fn init_schema(&mut self) -> (r: Result<(), rusqlite::Error>)
        ensures
            final(self).events() == old(self).events().push(
                SqlEvent::Statement(create_projects_table_sql(), Seq::empty(), failure_of(r))),
    {
        let none: [SqlValue; 0] = [];
        assert(sql_args(none@) =~= Seq::<SqlArg>::empty());
        match self.session.run(
            "CREATE TABLE IF NOT EXISTS projects (id INTEGER PRIMARY KEY AUTOINCREMENT, name TEXT NOT NULL, description TEXT, created_at TEXT NOT NULL DEFAULT CURRENT_TIMESTAMP, updated_at TEXT NOT NULL DEFAULT CURRENT_TIMESTAMP)",
            none.as_slice(),
        ) {
            Ok(_) => Ok(()),
            Err(e) => Err(e),
        }
    }

    /// Inserts a project and reads back the row SQLite stored for it.
    pub fn create(&mut self, new_project: &NewProject) -> (r: Result<Project, rusqlite::Error>)
        ensures
            project_created(old(self).events(), final(self).events(), *new_project, r),
    {
        let params = insert_params(new_project);
        let sql = insert_project_text();
        match self.session.run(sql.as_str(), params.as_slice()) {
            Ok(_) => {},
            Err(e) => return Err(e),
        }
        let id = self.session.last_insert_rowid();
        let ghost mid = self.events();
        let found = self.find_by_id(id);
        let ghost f = found;
        let r = match found {
            Ok(Some(p)) => Ok(p),
            Ok(None) => Err(no_rows_error()),
            Err(e) => Err(e),
        };
        assert(project_found(mid, self.events(), id, f));
        r
    }

    /// The project with the given id, if there is one.
    pub fn find_by_id(&mut self, id: i64) -> (r: Result<Option<Project>, rusqlite::Error>)
        ensures
            project_found(old(self).events(), final(self).events(), id, r),
    {
        let ghost before = self.events();
        let ghost started = before + query_started(select_project_by_id_sql(), seq![SqlArg::Integer(id)]);
        let sql = select_project_by_id_text();
        let mut stmt = match self.session.prepare(sql.as_str()) {
            Ok(s) => s,
            Err(e) => return Err(e),
        };
        let params: Vec<SqlValue> = vec![SqlValue::Integer(id)];
        assert(sql_args(params@) =~= seq![SqlArg::Integer(id)]);
        let mut rows = match self.session.start_query(&mut stmt, params.as_slice()) {
            Ok(r) => r,
            Err(e) => return Err(e),
        };
        assert(self.events() =~= started);
        let columns: [&str; 5] = ["id", "name", "description", "created_at", "updated_at"];
        match self.session.read_row(&mut rows, columns.as_slice()) {
            Ok(Some(cells)) => match Project::from_row(cells) {
                Ok(p) => Ok(Some(p)),
                Err(e) => Err(e),
            },
            Ok(None) => Ok(None),
            Err(e) => Err(e),
        }
    }

    /// All projects, oldest first. The read stops after `u64::MAX` rows.
    pub fn list(&mut self) -> (r: Result<Vec<Project>, rusqlite::Error>)
        ensures
            projects_listed(old(self).events(), final(self).events(), r),
    {
        let ghost before = self.events();
        let sql = select_projects_text();
        let mut stmt = match self.session.prepare(sql.as_str()) {
            Ok(s) => s,
            Err(e) => return Err(e),
        };
        let none: [SqlValue; 0] = [];
        assert(sql_args(none@) =~= Seq::<SqlArg>::empty());
        let mut rows = match self.session.start_query(&mut stmt, none.as_slice()) {
            Ok(r) => r,
            Err(e) => return Err(e),
        };
        let ghost started = self.events();
        assert(started =~= before + query_started(select_projects_sql(), Seq::<SqlArg>::empty()));
        let columns: [&str; 5] = ["id", "name", "description", "created_at", "updated_at"];
        let mut projects: Vec<Project> = Vec::new();
        let ghost mut read: Seq<Seq<SqlCell>> = Seq::empty();
        let mut count: u64 = 0;
        assert(started + row_events(read) =~= started);
        while count < u64::MAX
            invariant
                before == old(self).events(),
                columns@.len() == 5,
                started == before + query_started(select_projects_sql(), Seq::<SqlArg>::empty()),
                self.events() == started + row_events(read),
                read.len() == projects@.len(),
                read.len() == count,
                forall|i: int| 0 <= i < read.len() ==> read[i].len() == 5 && #[trigger] project_of_cells(read[i]) is Some,
                forall|i: int| 0 <= i < read.len() ==> project_of_cells(read[i]) == Some(#[trigger] projects@[i]@),
            decreases u64::MAX - count,
        {
            let ghost at = self.events();
            match self.session.read_row(&mut rows, columns.as_slice()) {
                Ok(Some(cells)) => {
                    let ghost row = cells@;
                    match Project::from_row(cells) {
                        Ok(p) => {
                            proof {
                                assert(row_events(read.push(row)) =~= row_events(read).push(SqlEvent::Row(row)));
                                read = read.push(row);
                            }
                            projects.push(p);
                            assert(self.events() =~= started + row_events(read));
                            assert(project_of_cells(read[read.len() - 1]) == Some(projects@[projects@.len() - 1]@));
                        },
                        Err(e) => {
                            assert(projects_read(started, read, self.events(), Err(e)));
                            return Err(e);
                        },
                    }
                },
                Ok(None) => {
                    assert(projects_read(started, read, self.events(), Ok(projects)));
                    return Ok(projects);
                },
                Err(e) => {
                    assert(projects_read(started, read, self.events(), Err(e)));
                    return Err(e);
                },
            }
            count = count + 1;
        }
        assert(projects_read(started, read, self.events(), Ok(projects)));
        Ok(projects)
    }
}

/// Cell `j` shows the `j`-th listed column of a row.
pub open spec fn cell_shows_at(cells: Seq<SqlCell>, row: Map<Column, SqlArg>, cols: Seq<Column>, j: int) -> bool {
    crate::statement::cell_shows(cells[j], row[cols[j]])
}

/// The description a new project asks for.
pub open spec fn requested_description(p: NewProject) -> Option<Seq<char>> {
    match p.description {
        Some(d) => Some(d@),
        None => None,
    }
}

/// A created project is the one asked for: whenever SQLite carried out the insert and the
/// lookup of the row it reported as SQL says, starting from any tables, the project
/// returned has the requested name and description.
pub proof fn law_created_project_is_the_request(db: Store, before: Seq<SqlEvent>, after: Seq<SqlEvent>, p: NewProject, r: Result<Project, rusqlite::Error>)
    requires
        project_created(before, after, p, r),
        insert_then_lookup_answered(db, before, after),
    ensures
        r matches Ok(q) ==> q.name@ == p.name@ && q@.description == requested_description(p),
{
    if let Ok(q) = r {
        let ins = insert_project_sql();
        let args = project_insert_args(p);
        let (rowid, found) = choose|rowid: i64, found: Result<Option<Project>, rusqlite::Error>| {
            &&& #[trigger] project_found(before.push(SqlEvent::Statement(ins, args, None)).push(SqlEvent::Rowid(rowid)), after, rowid, found)
            &&& match found {
                Ok(Some(q)) => r == Ok::<Project, rusqlite::Error>(q),
                Ok(None) => r matches Err(e) && sqlite_failure(e) is None,
                Err(e) => r == Err::<Project, rusqlite::Error>(e),
            }
        };
        let mid = before.push(SqlEvent::Statement(ins, args, None)).push(SqlEvent::Rowid(rowid));
        let sel = select_project_by_id_sql();
        let sel_args = seq![SqlArg::Integer(rowid)];
        let started = mid + query_started(sel, sel_args);
        assert(found == Ok::<Option<Project>, rusqlite::Error>(Some(q)));
        let cells = after.last()->Row_0;
        assert(after == started.push(SqlEvent::Row(cells)));
        assert(project_row_read(cells, Ok(q)));
        let evs = after.subrange(before.len() as int, after.len() as int);
        assert(evs =~= seq![SqlEvent::Statement(ins, args, None), SqlEvent::Rowid(rowid), SqlEvent::Prepare(sel, None),
            SqlEvent::Statement(sel, sel_args, None), SqlEvent::Row(cells)]);
        let db2 = choose|d: Store| #[trigger] write_done(db, ins, args, rowid, d) && first_answer_done(d, sel, sel_args, Some(cells));
        assert(render_spec(insert_project_stmt()) == ins);
        let cols = seq![Column::Name, Column::Description];
        let row = choose|row: Map<Column, SqlArg>| row_inserted(row, cols, args, rowid) && db2 == #[trigger] with_row(db, Table::Projects, row);
        assert(render_spec(select_project_by_id_stmt()) == sel);
        let k = choose|k: int| 0 <= k < rows_of(db2, Table::Projects).len()
            && fits_filter(#[trigger] rows_of(db2, Table::Projects)[k], seq![Column::Id], sel_args)
            && cells_show(cells, rows_of(db2, Table::Projects)[k], project_columns());
        assert(db2.projects == db.projects.push(row));
        if k < db.projects.len() {
            assert(db2.projects[k] == db.projects[k]);
            assert(fits_filter(db2.projects[k], seq![Column::Id], sel_args));
            assert(seq![Column::Id][0] == Column::Id);
            assert(rows_of(db, Table::Projects)[k].contains_key(Column::Id));
            assert(false);
        }
        assert(db2.projects[k] == row);
        assert(cols[0] == Column::Name && cols[1] == Column::Description);
        assert(row[Column::Name] == args[0]);
        assert(row[Column::Description] == args[1]);
        assert(project_columns()[1] == Column::Name && project_columns()[2] == Column::Description);
        assert(cell_shows_at(cells, row, project_columns(), 1));
        assert(cell_shows_at(cells, row, project_columns(), 2));
    }
}

/// A listing of projects holds every stored project: whenever SQLite answered the query
/// as SQL says on any tables (with fewer than `u64::MAX` projects), the list has exactly
/// one project for each row of `projects`.
pub proof fn law_listing_holds_every_project(db: Store, before: Seq<SqlEvent>, after: Seq<SqlEvent>, r: Result<Vec<Project>, rusqlite::Error>)
    requires
        projects_listed(before, after, r),
        listing_answered(db, before, after),
        db.projects.len() < u64::MAX,
    ensures
        r matches Ok(ps) ==> ps@.len() == db.projects.len(),
{
    if let Ok(ps) = r {
        let sel = select_projects_sql();
        let started = before + query_started(sel, Seq::<SqlArg>::empty());
        let rows = choose|rows: Seq<Seq<SqlCell>>| #[trigger] projects_read(started, rows, after, r);
        let read = started + row_events(rows);
        let evs = after.subrange(before.len() as int, after.len() as int);
        assert(render_spec(select_projects_stmt()) == sel);
        lemma_no_filter_fits_all(db, Table::Projects);
        lemma_fitting_rows_bounded(db, Table::Projects, Seq::empty(), Seq::empty());
        let tail = evs.subrange(2, evs.len() as int);
        assert(evs[1] == SqlEvent::Statement(sel, Seq::<SqlArg>::empty(), None));
        if after == read.push(SqlEvent::Done) {
            assert(tail =~= row_events(rows).push(SqlEvent::Done));
            assert(tail.drop_last() =~= row_events(rows));
            assert(cells_of_rows(row_events(rows)) =~= rows);
            assert(all_answers_done(db, sel, Seq::empty(), rows, true));
        } else {
            assert(tail =~= row_events(rows));
            assert(rows.len() > 0);
            assert(tail.last() == SqlEvent::Row(rows.last()));
            assert(cells_of_rows(row_events(rows)) =~= rows);
            assert(all_answers_done(db, sel, Seq::empty(), rows, false));
        }
    }
}

/// A lookup of a project by id finds that project: whenever SQLite answered the query as
/// SQL says on any tables, a project returned has the id asked for, and no project is
/// returned only when no stored project has that id.
pub proof fn law_lookup_finds_that_project(db: Store, before: Seq<SqlEvent>, after: Seq<SqlEvent>, id: i64, r: Result<Option<Project>, rusqlite::Error>)
    requires
        project_found(before, after, id, r),
        lookup_answered(db, before, after),
    ensures
        r matches Ok(Some(p)) ==> p.id == id,
        r matches Ok(None) ==> forall|k: int| 0 <= k < db.projects.len() ==> !(#[trigger] db.projects[k].contains_key(Column::Id)
            && db.projects[k][Column::Id] == SqlArg::Integer(id)),
{
    let sel = select_project_by_id_sql();
    let args = seq![SqlArg::Integer(id)];
    let started = before + query_started(sel, args);
    let filter = seq![Column::Id];
    assert(render_spec(select_project_by_id_stmt()) == sel);
    let evs = after.subrange(before.len() as int, after.len() as int);
    match r {
        Ok(Some(p)) => {
            let cells = after.last()->Row_0;
            assert(after == started.push(SqlEvent::Row(cells)));
            assert(evs =~= seq![SqlEvent::Prepare(sel, None), SqlEvent::Statement(sel, args, None), SqlEvent::Row(cells)]);
            assert(first_answer_done(db, sel, args, Some(cells)));
            let k = choose|k: int| 0 <= k < rows_of(db, Table::Projects).len()
                && fits_filter(#[trigger] rows_of(db, Table::Projects)[k], filter, args)
                && cells_show(cells, rows_of(db, Table::Projects)[k], project_columns());
            let row = db.projects[k];
            assert(filter[0] == Column::Id);
            assert(row[Column::Id] == args[0]);
            assert(project_columns()[0] == Column::Id);
            assert(cell_shows_at(cells, row, project_columns(), 0));
            assert(project_row_read(cells, Ok(p)));
        },
        Ok(None) => {
            assert(after == started.push(SqlEvent::Done));
            assert(evs =~= seq![SqlEvent::Prepare(sel, None), SqlEvent::Statement(sel, args, None), SqlEvent::Done]);
            assert(first_answer_done(db, sel, args, None));
            assert forall|k: int| 0 <= k < db.projects.len() implies !(#[trigger] db.projects[k].contains_key(Column::Id)
                && db.projects[k][Column::Id] == SqlArg::Integer(id)) by {
                assert(!fits_filter(rows_of(db, Table::Projects)[k], filter, args));
                assert(filter[0] == Column::Id);
            }
        },
        Err(_) => {},
    }
}

} // verus!
