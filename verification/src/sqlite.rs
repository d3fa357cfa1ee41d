//! The SQLite calls the repositories make, through `rusqlite`.
use vstd::prelude::*;
use rusqlite::types::Value;

verus! {

#[verifier::external_type_specification]
#[verifier::external_body]
pub struct ExConnection(rusqlite::Connection);

#[verifier::external_type_specification]
#[verifier::external_body]
pub struct ExSqlError(rusqlite::Error);

#[verifier::external_type_specification]
#[verifier::external_body]
pub struct ExStatement<'conn>(rusqlite::Statement<'conn>);

#[verifier::external_type_specification]
#[verifier::external_body]
pub struct ExRows<'stmt>(rusqlite::Rows<'stmt>);

/// A value bound to a `?N` parameter of a statement.
pub enum SqlValue {
    Null,
    Integer(i64),
    Text(String),
}

/// A value read from a column of a result row.
pub enum SqlCell {
    Null,
    Integer(i64),
    /// A floating-point value; the library never reads one, so its value is not kept.
    Real,
    Text(String),
    Blob(Vec<u8>),
    /// A cell whose value could not be read (`Row::get` failed, as for text that is not
    /// UTF-8); the error it gave.
    Unreadable(rusqlite::Error),
}

/// The storage class of a cell, as SQLite reports it in type errors.
#[derive(Clone, Copy, PartialEq, Eq, Structural)]
pub enum CellKind {
    Null,
    Integer,
    Real,
    Text,
    Blob,
}

/// The storage class of a cell (a cell that could not be read counts as `NULL`; no error
/// names its class).
pub open spec fn cell_kind(c: SqlCell) -> CellKind {
    match c {
        SqlCell::Null => CellKind::Null,
        SqlCell::Integer(_) => CellKind::Integer,
        SqlCell::Real => CellKind::Real,
        SqlCell::Text(_) => CellKind::Text,
        SqlCell::Blob(_) => CellKind::Blob,
        SqlCell::Unreadable(_) => CellKind::Null,
    }
}

/// The error that reading cell `c` as a value of another kind gives: the error the cell
/// carries if it could not be read, else a column type error.
pub open spec fn cell_read_error(c: SqlCell, e: rusqlite::Error) -> bool {
    match c {
        SqlCell::Unreadable(u) => e == u,
        _ => sqlite_failure(e) is None,
    }
}

/// The codes of an error that SQLite itself reported (`Error::SqliteFailure`).
#[derive(Clone, Copy)]
pub struct SqliteFailureCodes {
    /// The primary result code is `SQLITE_CONSTRAINT` (`ErrorCode::ConstraintViolation`).
    pub constraint_violation: bool,
    /// The extended result code.
    pub extended_code: i32,
}

/// The SQLite result codes an error carries, `None` for an error that did not come from
/// SQLite itself.
pub uninterp spec fn sqlite_failure(e: rusqlite::Error) -> Option<SqliteFailureCodes>;

/// Opens (creating it if needed) the database file at `path` (`Connection::open`).
#[verifier::external_body]
pub(crate) fn open_connection(path: &str) -> (r: Result<rusqlite::Connection, rusqlite::Error>)
{
    rusqlite::Connection::open(path)
}

#[verifier::external_type_specification]
#[verifier::external_body]
pub struct ExSqlParam(rusqlite::types::Value);

/// The `rusqlite` value a parameter is bound as, variant for variant.
#[verifier::external_body]
fn to_sql_value(p: &SqlValue) -> rusqlite::types::Value {
    match p {
        SqlValue::Null => rusqlite::types::Value::Null,
        SqlValue::Integer(i) => rusqlite::types::Value::Integer(*i),
        SqlValue::Text(s) => rusqlite::types::Value::Text(s.clone()),
    }
}

/// Runs one statement with its parameters and returns the number of rows it changed
/// (`Connection::execute`).
#[verifier::external_body]
pub(crate) fn execute(conn: &rusqlite::Connection, sql: &str, params: &[SqlValue]) -> (r: Result<usize, rusqlite::Error>)
{
    conn.execute(sql, rusqlite::params_from_iter(params.iter().map(to_sql_value)))
}

/// Runs a batch of statements without parameters (`Connection::execute_batch`).
#[verifier::external_body]
pub(crate) fn execute_batch(conn: &rusqlite::Connection, sql: &str) -> (r: Result<(), rusqlite::Error>)
{
    conn.execute_batch(sql)
}

/// The rowid of the most recent successful insert on the connection
/// (`Connection::last_insert_rowid`).
#[verifier::external_body]
pub(crate) fn last_insert_rowid(conn: &rusqlite::Connection) -> (r: i64)
{
    conn.last_insert_rowid()
}

/// Compiles one statement (`Connection::prepare`).
#[verifier::external_body]
pub(crate) fn prepare<'conn>(conn: &'conn rusqlite::Connection, sql: &str) -> (r: Result<rusqlite::Statement<'conn>, rusqlite::Error>)
{
    conn.prepare(sql)
}

/// Binds the parameters and starts the query (`Statement::query`).
#[verifier::external_body]
pub(crate) fn query<'stmt>(stmt: &'stmt mut rusqlite::Statement<'_>, params: &[SqlValue]) -> (r: Result<rusqlite::Rows<'stmt>, rusqlite::Error>)
{
    stmt.query(rusqlite::params_from_iter(params.iter().map(to_sql_value)))
}

/// Steps the cursor (`Rows::next`) and hands the row out as the cells of the named
/// columns, in order (`Row::get` of each as a `Value`; a cell whose read failed carries
/// the error, which is never one SQLite reported); `None` once every row has been handed
/// out.
#[verifier::external_body]
pub(crate) fn next_row(rows: &mut rusqlite::Rows<'_>, columns: &[&str]) -> (r: Result<Option<Vec<SqlCell>>, rusqlite::Error>)
    ensures
        r matches Ok(Some(cells)) ==> cells@.len() == columns@.len()
            && forall|i: int| 0 <= i < cells@.len() ==> (#[trigger] cells@[i] matches SqlCell::Unreadable(e) ==> sqlite_failure(e) is None),
{
    match rows.next()? {
        None => Ok(None),
        Some(row) => Ok(Some(columns.iter().map(|c| match row.get::<_, Value>(*c) {
            Ok(Value::Null) => SqlCell::Null,
            Ok(Value::Integer(i)) => SqlCell::Integer(i),
            Ok(Value::Real(_)) => SqlCell::Real,
            Ok(Value::Text(s)) => SqlCell::Text(s),
            Ok(Value::Blob(b)) => SqlCell::Blob(b),
            Err(e) => SqlCell::Unreadable(e),
        }).collect())),
    }
}

/// The result codes of an error that SQLite reported; `None` for any other error.
#[verifier::external_body]
pub(crate) fn failure_codes(e: &rusqlite::Error) -> (r: Option<SqliteFailureCodes>)
    ensures
        r == sqlite_failure(*e),
{
    match e {
        rusqlite::Error::SqliteFailure(f, _) => Some(SqliteFailureCodes {
            constraint_violation: f.code == rusqlite::ErrorCode::ConstraintViolation,
            extended_code: f.extended_code,
        }),
        _ => None,
    }
}

/// The error for a query that found no row (`Error::QueryReturnedNoRows`).
#[verifier::external_body]
pub(crate) fn no_rows_error() -> (r: rusqlite::Error)
    ensures
        sqlite_failure(r) is None,
{
    rusqlite::Error::QueryReturnedNoRows
}

/// The error for a column whose value cannot be read as the requested type
/// (`Error::InvalidColumnType`).
#[verifier::external_body]
pub(crate) fn invalid_column_type(index: usize, name: &str, kind: CellKind) -> (r: rusqlite::Error)
    ensures
        sqlite_failure(r) is None,
{
    rusqlite::Error::InvalidColumnType(index, name.to_string(), match kind {
        CellKind::Null => rusqlite::types::Type::Null,
        CellKind::Integer => rusqlite::types::Type::Integer,
        CellKind::Real => rusqlite::types::Type::Real,
        CellKind::Text => rusqlite::types::Type::Text,
        CellKind::Blob => rusqlite::types::Type::Blob,
    })
}

fn kind_of(c: &SqlCell) -> (k: CellKind)
    ensures
        k == cell_kind(*c),
{
    match c {
        SqlCell::Null => CellKind::Null,
        SqlCell::Integer(_) => CellKind::Integer,
        SqlCell::Real => CellKind::Real,
        SqlCell::Text(_) => CellKind::Text,
        SqlCell::Blob(_) => CellKind::Blob,
        SqlCell::Unreadable(_) => CellKind::Null,
    }
}

/// Takes the cell at `index` out of the row, leaving `NULL` in its place.
fn take_cell(cells: &mut Vec<SqlCell>, index: usize) -> (c: SqlCell)
    requires
        index < old(cells)@.len(),
    ensures
        c == old(cells)@[index as int],
        final(cells)@ == old(cells)@.update(index as int, SqlCell::Null),
{
    let mut taken = SqlCell::Null;
    std::mem::swap(&mut taken, &mut cells[index]);
    taken
}

/// The error for a cell that cannot be read as the requested kind: the error the cell
/// carries if it could not be read at all, else a column type error naming its kind.
fn unfit_cell_error(c: SqlCell, index: usize, name: &str) -> (e: rusqlite::Error)
    ensures
        cell_read_error(c, e),
{
    match c {
        SqlCell::Unreadable(e) => e,
        other => invalid_column_type(index, name, kind_of(&other)),
    }
}

/// Reads an `INTEGER` cell as `i64`; any other cell is a read error. On success the row
/// is left as it was.
pub fn cell_i64(cells: &mut Vec<SqlCell>, index: usize, name: &str) -> (r: Result<i64, rusqlite::Error>)
    requires
        index < old(cells)@.len(),
    ensures
        match old(cells)@[index as int] {
            SqlCell::Integer(i) => r == Ok::<i64, rusqlite::Error>(i),
            c => r matches Err(e) && cell_read_error(c, e),
        },
        r is Ok ==> final(cells)@ == old(cells)@,
{
    if let SqlCell::Integer(i) = &cells[index] {
        return Ok(*i);
    }
    Err(unfit_cell_error(take_cell(cells, index), index, name))
}

/// Reads a `TEXT` cell as a string; any other cell is a read error. On success the row
/// is left as it was.
pub fn cell_text(cells: &mut Vec<SqlCell>, index: usize, name: &str) -> (r: Result<String, rusqlite::Error>)
    requires
        index < old(cells)@.len(),
    ensures
        match old(cells)@[index as int] {
            SqlCell::Text(s) => r matches Ok(t) && t@ == s@,
            c => r matches Err(e) && cell_read_error(c, e),
        },
        r is Ok ==> final(cells)@ == old(cells)@,
{
    if let SqlCell::Text(s) = &cells[index] {
        return Ok(s.clone());
    }
    Err(unfit_cell_error(take_cell(cells, index), index, name))
}

/// Reads a nullable `TEXT` cell; `NULL` reads as `None`, any other non-text cell is a
/// read error. On success the row is left as it was.
pub fn cell_opt_text(cells: &mut Vec<SqlCell>, index: usize, name: &str) -> (r: Result<Option<String>, rusqlite::Error>)
    requires
        index < old(cells)@.len(),
    ensures
        match old(cells)@[index as int] {
            SqlCell::Null => r matches Ok(None),
            SqlCell::Text(s) => r matches Ok(Some(t)) && t@ == s@,
            c => r matches Err(e) && cell_read_error(c, e),
        },
        r is Ok ==> final(cells)@ == old(cells)@,
{
    match &cells[index] {
        SqlCell::Null => return Ok(None),
        SqlCell::Text(s) => return Ok(Some(s.clone())),
        _ => {},
    }
    Err(unfit_cell_error(take_cell(cells, index), index, name))
}

/// A parameter value as the library binds it.
pub enum SqlArg {
    Null,
    Integer(i64),
    Text(Seq<char>),
}

/// The value a parameter is bound as.
pub open spec fn sql_arg(v: SqlValue) -> SqlArg {
    match v {
        SqlValue::Null => SqlArg::Null,
        SqlValue::Integer(i) => SqlArg::Integer(i),
        SqlValue::Text(s) => SqlArg::Text(s@),
    }
}

/// The values a list of parameters is bound as.
pub open spec fn sql_args(params: Seq<SqlValue>) -> Seq<SqlArg> {
    params.map_values(|v: SqlValue| sql_arg(v))
}

/// The error a result carries, `None` for success.
pub open spec fn failure_of<T>(r: Result<T, rusqlite::Error>) -> Option<rusqlite::Error> {
    match r {
        Ok(_) => None,
        Err(e) => Some(e),
    }
}

/// What passes between the library and SQLite on a connection.
pub enum SqlEvent {
    /// A statement handed to SQLite to compile, with the error if it did not compile.
    Prepare(Seq<char>, Option<rusqlite::Error>),
    /// A statement run, or a query started, with its bound parameters and the error if
    /// it failed.
    Statement(Seq<char>, Seq<SqlArg>, Option<rusqlite::Error>),
    /// The rowid SQLite reported for the last insert.
    Rowid(i64),
    /// A result row SQLite handed back for the query last started.
    Row(Seq<SqlCell>),
    /// SQLite reported that the query has no more rows.
    Done,
    /// Stepping the query failed with this error.
    StepFailed(rusqlite::Error),
}

/// The events of compiling `sql` and starting it with `args`, both succeeding.
pub open spec fn query_started(sql: Seq<char>, args: Seq<SqlArg>) -> Seq<SqlEvent> {
    seq![SqlEvent::Prepare(sql, None), SqlEvent::Statement(sql, args, None)]
}

/// From `before` to `after`, compiling `sql` or starting it with `args` failed with `e`.
pub open spec fn query_failed(before: Seq<SqlEvent>, after: Seq<SqlEvent>, sql: Seq<char>, args: Seq<SqlArg>, e: rusqlite::Error) -> bool {
    ||| after == before.push(SqlEvent::Prepare(sql, Some(e)))
    ||| after == before.push(SqlEvent::Prepare(sql, None)).push(SqlEvent::Statement(sql, args, Some(e)))
}

/// The events of reading the given rows, in order.
pub open spec fn row_events(rows: Seq<Seq<SqlCell>>) -> Seq<SqlEvent> {
    rows.map_values(|cells: Seq<SqlCell>| SqlEvent::Row(cells))
}

/// A connection together with the record of what the library has handed to SQLite on it
/// and what SQLite handed back.
pub struct SqlSession<'a> {
    conn: &'a rusqlite::Connection,
    events: Ghost<Seq<SqlEvent>>,
}

/// A compiled statement and the text it was compiled from.
pub struct Prepared<'a> {
    stmt: rusqlite::Statement<'a>,
    sql: Ghost<Seq<char>>,
}

impl<'a> Prepared<'a> {
    /// The text the statement was compiled from.
    pub closed spec fn sql(self) -> Seq<char> {
        self.sql@
    }
}

impl<'a> SqlSession<'a> {
    /// Everything handed to and from SQLite through this session, in order.
    pub closed spec fn events(self) -> Seq<SqlEvent> {
        self.events@
    }

    /// The connection the session works on.
    pub closed spec fn connection(self) -> &'a rusqlite::Connection {
        self.conn
    }

    /// A session on a connection, with nothing handed to SQLite yet.
    pub fn new(conn: &'a rusqlite::Connection) -> (r: Self)
        ensures
            r.events() == Seq::<SqlEvent>::empty(),
            r.connection() == conn,
    {
        SqlSession { conn, events: Ghost(Seq::empty()) }
    }

    /// Runs one statement with its parameters and returns the number of rows it changed.
    pub fn run(&mut self, sql: &str, params: &[SqlValue]) -> (r: Result<usize, rusqlite::Error>)
        ensures
            final(self).events() == old(self).events().push(SqlEvent::Statement(sql@, sql_args(params@), failure_of(r))),
    {
        let r = execute(self.conn, sql, params);
        proof {
            self.events@ = self.events@.push(SqlEvent::Statement(sql@, sql_args(params@), failure_of(r)));
        }
        r
    }

    /// Runs a batch of statements without parameters.
    pub fn run_batch(&mut self, sql: &str) -> (r: Result<(), rusqlite::Error>)
        ensures
            final(self).events() == old(self).events().push(SqlEvent::Statement(sql@, Seq::empty(), failure_of(r))),
    {
        let r = execute_batch(self.conn, sql);
        proof {
            self.events@ = self.events@.push(SqlEvent::Statement(sql@, Seq::empty(), failure_of(r)));
        }
        r
    }

    /// The rowid of the most recent successful insert on the connection.
    pub fn last_insert_rowid(&mut self) -> (r: i64)
        ensures
            final(self).events() == old(self).events().push(SqlEvent::Rowid(r)),
    {
        let r = last_insert_rowid(self.conn);
        proof {
            self.events@ = self.events@.push(SqlEvent::Rowid(r));
        }
        r
    }

    /// Compiles one statement; nothing runs yet.
    pub fn prepare(&mut self, sql: &str) -> (r: Result<Prepared<'a>, rusqlite::Error>)
        ensures
            final(self).events() == old(self).events().push(SqlEvent::Prepare(sql@, failure_of(r))),
            r matches Ok(p) ==> p.sql() == sql@,
    {
        match prepare(self.conn, sql) {
            Ok(stmt) => {
                proof {
                    self.events@ = self.events@.push(SqlEvent::Prepare(sql@, None));
                }
                Ok(Prepared { stmt, sql: Ghost(sql@) })
            },
            Err(e) => {
                proof {
                    self.events@ = self.events@.push(SqlEvent::Prepare(sql@, Some(e)));
                }
                Err(e)
            },
        }
    }

    /// Binds the parameters to a compiled statement and starts the query.
    pub fn start_query<'s>(&mut self, p: &'s mut Prepared<'a>, params: &[SqlValue]) -> (r: Result<rusqlite::Rows<'s>, rusqlite::Error>)
        ensures
            final(self).events() == old(self).events().push(SqlEvent::Statement(old(p).sql(), sql_args(params@), failure_of(r))),
    {
        let ghost sql = p.sql@;
        let r = query(&mut p.stmt, params);
        proof {
            self.events@ = self.events@.push(SqlEvent::Statement(sql, sql_args(params@), failure_of(r)));
        }
        r
    }

    /// The next row of the query, as the cells of the named columns; `None` once every
    /// row has been handed out.
    pub fn read_row(&mut self, rows: &mut rusqlite::Rows<'_>, columns: &[&str]) -> (r: Result<Option<Vec<SqlCell>>, rusqlite::Error>)
        ensures
            match r {
                Ok(Some(cells)) => {
                    &&& final(self).events() == old(self).events().push(SqlEvent::Row(cells@))
                    &&& cells@.len() == columns@.len()
                    &&& forall|i: int| 0 <= i < cells@.len() ==> (#[trigger] cells@[i] matches SqlCell::Unreadable(e) ==> sqlite_failure(e) is None)
                },
                Ok(None) => final(self).events() == old(self).events().push(SqlEvent::Done),
                Err(e) => final(self).events() == old(self).events().push(SqlEvent::StepFailed(e)),
            },
    {
        let r = next_row(rows, columns);
        let ghost g = r;
        proof {
            match g {
                Ok(Some(cells)) => {
                    self.events@ = self.events@.push(SqlEvent::Row(cells@));
                },
                Ok(None) => {
                    self.events@ = self.events@.push(SqlEvent::Done);
                },
                Err(e) => {
                    self.events@ = self.events@.push(SqlEvent::StepFailed(e));
                },
            }
        }
        r
    }
}

} // verus!
