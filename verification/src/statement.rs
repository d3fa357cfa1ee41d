//! The SQL statements that read and write rows, as syntax the library renders to text,
//! and what SQL says they do to the tables and which rows they answer.
use vstd::prelude::*;
use crate::sqlite::{SqlArg, SqlCell, SqlEvent};
use crate::text::push_char;

verus! {

/// A table of the database.
#[derive(Clone, Copy, PartialEq, Eq, Structural)]
pub enum Table {
    Projects,
    Specs,
}

/// A column of a table.
#[derive(Clone, Copy, PartialEq, Eq, Structural)]
pub enum Column {
    Id,
    Name,
    Description,
    ProjectId,
    Tag,
    Content,
    CreatedAt,
    UpdatedAt,
}

/// A statement that writes or reads rows.
pub enum Stmt {
    /// `INSERT INTO table (c1, .., cn) VALUES (?1, .., ?n)`: a row whose columns hold the
    /// bound values, in order.
    Insert(Table, Vec<Column>),
    /// `SELECT c1, .. FROM table [WHERE f1 = ?1 AND ..] [ORDER BY created_at ASC]`: the
    /// listed columns of the rows whose filter columns hold the bound values, oldest first
    /// when asked.
    Select(Table, Vec<Column>, Vec<Column>, bool),
}

/// The syntax of a statement.
pub enum StmtView {
    Insert(Table, Seq<Column>),
    Select(Table, Seq<Column>, Seq<Column>, bool),
}

impl View for Stmt {
    type V = StmtView;

    open spec fn view(&self) -> StmtView {
        match self {
            Stmt::Insert(t, cols) => StmtView::Insert(*t, cols@),
            Stmt::Select(t, cols, filter, oldest_first) => StmtView::Select(*t, cols@, filter@, *oldest_first),
        }
    }
}

/// The name of a table.
pub open spec fn table_name(t: Table) -> Seq<char> {
    match t {
        Table::Projects => "projects"@,
        Table::Specs => "specs"@,
    }
}

/// The name of a column.
pub open spec fn column_name(c: Column) -> Seq<char> {
    match c {
        Column::Id => "id"@,
        Column::Name => "name"@,
        Column::Description => "description"@,
        Column::ProjectId => "project_id"@,
        Column::Tag => "tag"@,
        Column::Content => "content"@,
        Column::CreatedAt => "created_at"@,
        Column::UpdatedAt => "updated_at"@,
    }
}

/// The names of columns, separated by `, `.
pub open spec fn column_list(cols: Seq<Column>) -> Seq<char>
    decreases cols.len(),
{
    if cols.len() == 0 {
        Seq::empty()
    } else if cols.len() == 1 {
        column_name(cols[0])
    } else {
        column_list(cols.drop_last()) + ", "@ + column_name(cols.last())
    }
}

/// The digit of a parameter number from 1 to 9.
pub open spec fn digit(i: nat) -> char {
    if i == 1 { '1' } else if i == 2 { '2' } else if i == 3 { '3' } else if i == 4 { '4' } else if i == 5 { '5' }
    else if i == 6 { '6' } else if i == 7 { '7' } else if i == 8 { '8' } else { '9' }
}

/// The placeholder of the `i`-th bound value, `?i`.
pub open spec fn placeholder(i: nat) -> Seq<char> {
    seq!['?', digit(i)]
}

/// The placeholders `?1, .., ?n`.
pub open spec fn placeholders(n: nat) -> Seq<char>
    decreases n,
{
    if n == 0 {
        Seq::empty()
    } else if n == 1 {
        placeholder(1)
    } else {
        placeholders((n - 1) as nat) + ", "@ + placeholder(n)
    }
}

/// The conditions `f1 = ?1 AND .. AND fn = ?n`.
pub open spec fn conditions(filter: Seq<Column>) -> Seq<char>
    decreases filter.len(),
{
    if filter.len() == 0 {
        Seq::empty()
    } else if filter.len() == 1 {
        column_name(filter[0]) + " = "@ + placeholder(1)
    } else {
        conditions(filter.drop_last()) + " AND "@ + column_name(filter.last()) + " = "@ + placeholder(filter.len())
    }
}

/// The SQL text of a statement.
pub open spec fn render_spec(s: StmtView) -> Seq<char> {
    match s {
        StmtView::Insert(t, cols) => "INSERT INTO "@ + table_name(t) + " ("@ + column_list(cols) + ") VALUES ("@
            + placeholders(cols.len()) + ")"@,
        StmtView::Select(t, cols, filter, oldest_first) => "SELECT "@ + column_list(cols) + " FROM "@ + table_name(t)
            + (if filter.len() > 0 { " WHERE "@ + conditions(filter) } else { Seq::empty() })
            + (if oldest_first { " ORDER BY created_at ASC"@ } else { Seq::empty() }),
    }
}

/// Appends a text to a string.
fn push_text(out: &mut String, s: &str)
    ensures
        final(out)@ == old(out)@ + s@,
{
    let n = s.unicode_len();
    let mut i: usize = 0;
    while i < n
        invariant
            n == s@.len(),
            i <= n,
            out@ == old(out)@ + s@.subrange(0, i as int),
        decreases n - i,
    {
        let c = s.get_char(i);
        push_char(out, c);
        assert(s@.subrange(0, i as int + 1) =~= s@.subrange(0, i as int).push(c));
        i = i + 1;
    }
    assert(s@.subrange(0, n as int) =~= s@);
}

fn table_text(t: Table) -> (r: &'static str)
    ensures
        r@ == table_name(t),
{
    match t {
        Table::Projects => "projects",
        Table::Specs => "specs",
    }
}

fn column_text(c: Column) -> (r: &'static str)
    ensures
        r@ == column_name(c),
{
    match c {
        Column::Id => "id",
        Column::Name => "name",
        Column::Description => "description",
        Column::ProjectId => "project_id",
        Column::Tag => "tag",
        Column::Content => "content",
        Column::CreatedAt => "created_at",
        Column::UpdatedAt => "updated_at",
    }
}

fn digit_char(i: usize) -> (r: char)
    requires
        1 <= i <= 9,
    ensures
        r == digit(i as nat),
{
    if i == 1 { '1' } else if i == 2 { '2' } else if i == 3 { '3' } else if i == 4 { '4' } else if i == 5 { '5' }
    else if i == 6 { '6' } else if i == 7 { '7' } else if i == 8 { '8' } else { '9' }
}

fn push_placeholder(out: &mut String, i: usize)
    requires
        1 <= i <= 9,
    ensures
        final(out)@ == old(out)@ + placeholder(i as nat),
{
    push_char(out, '?');
    push_char(out, digit_char(i));
    assert(old(out)@.push('?').push(digit(i as nat)) =~= old(out)@ + placeholder(i as nat));
}

fn push_column_list(out: &mut String, cols: &Vec<Column>)
    ensures
        final(out)@ == old(out)@ + column_list(cols@),
{
    let mut i: usize = 0;
    assert(cols@.subrange(0, 0) =~= Seq::<Column>::empty());
    assert(out@ =~= old(out)@ + column_list(cols@.subrange(0, 0)));
    while i < cols.len()
        invariant
            i <= cols@.len(),
            out@ == old(out)@ + column_list(cols@.subrange(0, i as int)),
        decreases cols.len() - i,
    {
        let ghost prefix = cols@.subrange(0, i as int + 1);
        assert(prefix.drop_last() =~= cols@.subrange(0, i as int));
        if i > 0 {
            push_text(out, ", ");
        }
        push_text(out, column_text(cols[i]));
        proof {
            if i == 0 {
                assert(column_list(prefix) == column_name(cols@[0]));
            }
        }
        assert(out@ =~= old(out)@ + column_list(prefix));
        i = i + 1;
    }
    assert(cols@.subrange(0, cols@.len() as int) =~= cols@);
}

fn push_placeholders(out: &mut String, n: usize)
    requires
        n <= 9,
    ensures
        final(out)@ == old(out)@ + placeholders(n as nat),
{
    let mut i: usize = 0;
    assert(out@ =~= old(out)@ + placeholders(0));
    while i < n
        invariant
            i <= n <= 9,
            out@ == old(out)@ + placeholders(i as nat),
        decreases n - i,
    {
        if i > 0 {
            push_text(out, ", ");
        }
        push_placeholder(out, i + 1);
        assert(out@ =~= old(out)@ + placeholders(i as nat + 1));
        i = i + 1;
    }
}

fn push_conditions(out: &mut String, filter: &Vec<Column>)
    requires
        filter@.len() <= 9,
    ensures
        final(out)@ == old(out)@ + conditions(filter@),
{
    let mut i: usize = 0;
    assert(filter@.subrange(0, 0) =~= Seq::<Column>::empty());
    assert(out@ =~= old(out)@ + conditions(filter@.subrange(0, 0)));
    while i < filter.len()
        invariant
            i <= filter@.len() <= 9,
            out@ == old(out)@ + conditions(filter@.subrange(0, i as int)),
        decreases filter.len() - i,
    {
        let ghost prefix = filter@.subrange(0, i as int + 1);
        assert(prefix.drop_last() =~= filter@.subrange(0, i as int));
        if i > 0 {
            push_text(out, " AND ");
        }
        push_text(out, column_text(filter[i]));
        push_text(out, " = ");
        push_placeholder(out, i + 1);
        assert(out@ =~= old(out)@ + conditions(prefix));
        i = i + 1;
    }
    assert(filter@.subrange(0, filter@.len() as int) =~= filter@);
}

/// Renders a statement as SQL text.
pub fn render(s: &Stmt) -> (r: String)
    requires
        match s@ {
            StmtView::Insert(_, cols) => cols.len() <= 9,
            StmtView::Select(_, _, filter, _) => filter.len() <= 9,
        },
    ensures
        r@ == render_spec(s@),
{
    let mut out = String::new();
    match s {
        Stmt::Insert(t, cols) => {
            push_text(&mut out, "INSERT INTO ");
            push_text(&mut out, table_text(*t));
            push_text(&mut out, " (");
            push_column_list(&mut out, cols);
            push_text(&mut out, ") VALUES (");
            push_placeholders(&mut out, cols.len());
            push_text(&mut out, ")");
        },
        Stmt::Select(t, cols, filter, oldest_first) => {
            push_text(&mut out, "SELECT ");
            push_column_list(&mut out, cols);
            push_text(&mut out, " FROM ");
            push_text(&mut out, table_text(*t));
            let ghost head = out@;
            if filter.len() > 0 {
                push_text(&mut out, " WHERE ");
                push_conditions(&mut out, filter);
            }
            let ghost filtered = out@;
            if *oldest_first {
                push_text(&mut out, " ORDER BY created_at ASC");
            }
            assert(filtered =~= head + (if filter@.len() > 0 { " WHERE "@ + conditions(filter@) } else { Seq::empty() }));
        },
    }
    assert(out@ =~= render_spec(s@));
    out
}

/// A row: the values of its columns.
pub type Row = Map<Column, SqlArg>;

/// The rows of the two tables.
pub struct Store {
    pub projects: Seq<Row>,
    pub specs: Seq<Row>,
}

/// The rows of a table.
pub open spec fn rows_of(db: Store, t: Table) -> Seq<Row> {
    match t {
        Table::Projects => db.projects,
        Table::Specs => db.specs,
    }
}

/// The store with a row added to a table.
pub open spec fn with_row(db: Store, t: Table, row: Row) -> Store {
    match t {
        Table::Projects => Store { projects: db.projects.push(row), ..db },
        Table::Specs => Store { specs: db.specs.push(row), ..db },
    }
}

/// A row whose filter columns hold the bound values, in order.
pub open spec fn fits_filter(row: Row, filter: Seq<Column>, args: Seq<SqlArg>) -> bool {
    forall|i: int| 0 <= i < filter.len() ==> row.contains_key(#[trigger] filter[i]) && i < args.len() && row[filter[i]] == args[i]
}

/// A cell shows a value.
pub open spec fn cell_shows(c: SqlCell, v: SqlArg) -> bool {
    match v {
        SqlArg::Null => c is Null,
        SqlArg::Integer(i) => c == SqlCell::Integer(i),
        SqlArg::Text(s) => c matches SqlCell::Text(t) && t@ == s,
    }
}

/// The cells of an answered row show the listed columns of a stored row.
pub open spec fn cells_show(cells: Seq<SqlCell>, row: Row, cols: Seq<Column>) -> bool {
    cells.len() == cols.len() && forall|j: int| 0 <= j < cols.len() ==> row.contains_key(#[trigger] cols[j])
        && cell_shows(cells[j], row[cols[j]])
}

/// No row of a table has the given id.
pub open spec fn fresh_id(db: Store, t: Table, id: i64) -> bool {
    forall|k: int| 0 <= k < rows_of(db, t).len() ==> !(#[trigger] rows_of(db, t)[k].contains_key(Column::Id)
        && rows_of(db, t)[k][Column::Id] == SqlArg::Integer(id))
}

/// A row written by an insert of `cols` with `args` bound, under the rowid `id`.
pub open spec fn row_inserted(row: Row, cols: Seq<Column>, args: Seq<SqlArg>, id: i64) -> bool {
    &&& row.contains_key(Column::Id) && row[Column::Id] == SqlArg::Integer(id)
    &&& forall|i: int| 0 <= i < cols.len() ==> row.contains_key(#[trigger] cols[i]) && i < args.len() && row[cols[i]] == args[i]
}

/// SQLite carried out the statement `text` with `args` bound, on `db`, reporting the rowid
/// `id`, and the tables became `after`: an insert adds a row under that rowid, which no
/// row of the table had, whose columns hold the bound values.
pub open spec fn write_done(db: Store, text: Seq<char>, args: Seq<SqlArg>, id: i64, after: Store) -> bool {
    forall|st: StmtView| #[trigger] render_spec(st) == text ==> match st {
        StmtView::Insert(t, cols) => fresh_id(db, t, id) && exists|row: Row| row_inserted(row, cols, args, id)
            && after == #[trigger] with_row(db, t, row),
        StmtView::Select(..) => after == db,
    }
}

/// SQLite's first answer to the query `text` with `args` bound, on `db`: a row shows the
/// selected columns of a stored row that fits the filter; "no rows" means none fits.
pub open spec fn first_answer_done(db: Store, text: Seq<char>, args: Seq<SqlArg>, answer: Option<Seq<SqlCell>>) -> bool {
    forall|st: StmtView| #[trigger] render_spec(st) == text ==> match st {
        StmtView::Select(t, cols, filter, _) => match answer {
            Some(cells) => exists|k: int| 0 <= k < rows_of(db, t).len() && fits_filter(#[trigger] rows_of(db, t)[k], filter, args)
                && cells_show(cells, rows_of(db, t)[k], cols),
            None => forall|k: int| 0 <= k < rows_of(db, t).len() ==> !fits_filter(#[trigger] rows_of(db, t)[k], filter, args),
        },
        StmtView::Insert(..) => true,
    }
}

/// The stored rows of a table that fit a filter.
pub open spec fn fitting_rows(db: Store, t: Table, filter: Seq<Column>, args: Seq<SqlArg>) -> Seq<Row> {
    rows_of(db, t).filter(|row: Row| fits_filter(row, filter, args))
}

/// SQLite's answers to the query `text` with `args` bound, on `db`, read up to the end of
/// the rows when `ended`: each row shows the selected columns of a stored row that fits
/// the filter, there are no more rows than fit, and at the end exactly as many.
pub open spec fn all_answers_done(db: Store, text: Seq<char>, args: Seq<SqlArg>, rows: Seq<Seq<SqlCell>>, ended: bool) -> bool {
    forall|st: StmtView| #[trigger] render_spec(st) == text ==> match st {
        StmtView::Select(t, cols, filter, _) => {
            &&& rows.len() <= fitting_rows(db, t, filter, args).len()
            &&& ended ==> rows.len() == fitting_rows(db, t, filter, args).len()
            &&& forall|i: int| 0 <= i < rows.len() ==> exists|k: int| 0 <= k < rows_of(db, t).len()
                && fits_filter(#[trigger] rows_of(db, t)[k], filter, args) && cells_show(#[trigger] rows[i], rows_of(db, t)[k], cols)
        },
        StmtView::Insert(..) => true,
    }
}

/// SQLite answered an insert and then the lookup of the row it reported as SQL says,
/// starting from the tables `db`: the events from `before` to `after` are the insert, its
/// rowid, and the lookup answered with a row.
pub open spec fn insert_then_lookup_answered(db: Store, before: Seq<SqlEvent>, after: Seq<SqlEvent>) -> bool {
    let evs = after.subrange(before.len() as int, after.len() as int);
    if evs.len() == 5 {
        match (evs[0], evs[1], evs[3], evs[4]) {
            (SqlEvent::Statement(text, args, None), SqlEvent::Rowid(id), SqlEvent::Statement(q, qargs, None), SqlEvent::Row(cells)) =>
                exists|after_write: Store| #[trigger] write_done(db, text, args, id, after_write)
                    && first_answer_done(after_write, q, qargs, Some(cells)),
            _ => true,
        }
    } else {
        true
    }
}

/// SQLite answered a lookup as SQL says, on the tables `db`: the events from `before` to
/// `after` are the query compiled, started, and answered with a row or with no rows.
pub open spec fn lookup_answered(db: Store, before: Seq<SqlEvent>, after: Seq<SqlEvent>) -> bool {
    let evs = after.subrange(before.len() as int, after.len() as int);
    if evs.len() == 3 {
        match (evs[1], evs[2]) {
            (SqlEvent::Statement(q, qargs, None), SqlEvent::Row(cells)) => first_answer_done(db, q, qargs, Some(cells)),
            (SqlEvent::Statement(q, qargs, None), SqlEvent::Done) => first_answer_done(db, q, qargs, None),
            _ => true,
        }
    } else {
        true
    }
}

/// The rows of row events.
pub open spec fn cells_of_rows(evs: Seq<SqlEvent>) -> Seq<Seq<SqlCell>> {
    evs.map_values(|e: SqlEvent| e->Row_0)
}

/// SQLite answered a listing as SQL says, on the tables `db`: the events from `before` to
/// `after` are the query compiled, started, then rows, up to the end of the rows or not.
pub open spec fn listing_answered(db: Store, before: Seq<SqlEvent>, after: Seq<SqlEvent>) -> bool {
    let evs = after.subrange(before.len() as int, after.len() as int);
    if evs.len() >= 2 {
        match evs[1] {
            SqlEvent::Statement(q, qargs, None) => {
                let tail = evs.subrange(2, evs.len() as int);
                let ended = tail.len() > 0 && tail.last() is Done;
                let rows = if ended { tail.drop_last() } else { tail };
                (forall|i: int| 0 <= i < rows.len() ==> #[trigger] rows[i] is Row)
                    ==> all_answers_done(db, q, qargs, cells_of_rows(rows), ended)
            },
            _ => true,
        }
    } else {
        true
    }
}

/// A filter that every row fits keeps every row.
pub proof fn lemma_filter_keeps_all(rows: Seq<Row>, pred: spec_fn(Row) -> bool)
    requires
        forall|i: int| 0 <= i < rows.len() ==> pred(#[trigger] rows[i]),
    ensures
        rows.filter(pred) == rows,
    decreases rows.len(),
{
    reveal(Seq::filter);
    if rows.len() > 0 {
        assert forall|i: int| 0 <= i < rows.drop_last().len() implies pred(#[trigger] rows.drop_last()[i]) by {
            assert(rows.drop_last()[i] == rows[i]);
        }
        lemma_filter_keeps_all(rows.drop_last(), pred);
        assert(pred(rows[rows.len() - 1]));
        assert(rows.drop_last().push(rows.last()) =~= rows);
        assert(rows.filter(pred) == rows.drop_last().filter(pred).push(rows.last()));
    }
}

/// With no filter, every row of the table fits.
pub proof fn lemma_no_filter_fits_all(db: Store, t: Table)
    ensures
        fitting_rows(db, t, Seq::empty(), Seq::empty()) == rows_of(db, t),
{
    let pred = |row: Row| fits_filter(row, Seq::<Column>::empty(), Seq::<SqlArg>::empty());
    assert forall|i: int| 0 <= i < rows_of(db, t).len() implies pred(#[trigger] rows_of(db, t)[i]) by {}
    lemma_filter_keeps_all(rows_of(db, t), pred);
}

/// No more rows fit a filter than the table holds.
pub proof fn lemma_fitting_rows_bounded(db: Store, t: Table, filter: Seq<Column>, args: Seq<SqlArg>)
    ensures
        fitting_rows(db, t, filter, args).len() <= rows_of(db, t).len(),
{
    rows_of(db, t).lemma_filter_len(|row: Row| fits_filter(row, filter, args));
}

} // verus!
