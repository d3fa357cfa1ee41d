//! Opening the database.
use vstd::prelude::*;
use crate::project::{ProjectRepository, create_projects_table_sql};
use crate::spec::{SpecRepository, specs_schema_updated};
use crate::sqlite::{SqlArg, SqlEvent, SqlSession, SqlValue, open_connection, sql_args};

verus! {

/// The statement that makes SQLite enforce foreign keys on the connection.
pub open spec fn enable_foreign_keys_sql() -> Seq<char> {
    "PRAGMA foreign_keys = ON"@
}

/// Readies an open database: enables foreign keys, then creates the `projects` table
/// unless it exists, then brings the `specs` table up to date. Each step runs only if the
/// one before succeeded, and the first failure is the error returned.
pub fn prepare_database(session: &mut SqlSession, projects: &mut ProjectRepository, specs: &mut SpecRepository) -> (r: Result<(), rusqlite::Error>)
    ensures
        final(session).events() == old(session).events().push(final(session).events().last()),
        final(session).events().last() matches SqlEvent::Statement(sql, args, pragma_failure) && sql == enable_foreign_keys_sql()
            && args == Seq::<SqlArg>::empty() && match pragma_failure {
            Some(e) => r == Err::<(), rusqlite::Error>(e) && final(projects).events() == old(projects).events()
                && final(specs).events() == old(specs).events(),
            None => {
                &&& final(projects).events() == old(projects).events().push(final(projects).events().last())
                &&& final(projects).events().last() matches SqlEvent::Statement(q, a, table_failure)
                &&& q == create_projects_table_sql() && a == Seq::<SqlArg>::empty()
                &&& match table_failure {
                    Some(e) => r == Err::<(), rusqlite::Error>(e) && final(specs).events() == old(specs).events(),
                    None => specs_schema_updated(old(specs).events(), final(specs).events(), r),
                }
            },
        },
{
    let none: [SqlValue; 0] = [];
    assert(sql_args(none@) =~= Seq::<SqlArg>::empty());
    match session.run("PRAGMA foreign_keys = ON", none.as_slice()) {
        Ok(_) => {},
        Err(e) => return Err(e),
    }
    match projects.init_schema() {
        Ok(()) => {},
        Err(e) => return Err(e),
    }
    specs.init_schema()
}

/// Opens a SQLite connection, enables foreign keys, and initializes schema.
pub fn init_connection(db_path: &str) -> (r: Result<rusqlite::Connection, rusqlite::Error>) {
    let conn = match open_connection(db_path) {
        Ok(c) => c,
        Err(e) => return Err(e),
    };
    let ready = {
        let mut session = SqlSession::new(&conn);
        let mut projects = ProjectRepository::new(&conn);
        let mut specs = SpecRepository::new(&conn);
        prepare_database(&mut session, &mut projects, &mut specs)
    };
    match ready {
        Ok(()) => Ok(conn),
        Err(e) => Err(e),
    }
}

} // verus!
