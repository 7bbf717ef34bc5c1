//! The boundary to `rusqlite`.
//!
//! Nothing in this file is proved. Each function makes exactly one call into
//! `rusqlite`; what the call returns depends on the contents of the store, so
//! no function here promises anything about its result. Callers decide on
//! whatever comes back.

use vstd::prelude::*;
use rusqlite::Row as SqlRow;

verus! {

/// `rusqlite::Connection`: an open handle to one SQLite store.
#[verifier::external_type_specification]
#[verifier::external_body]
pub struct ExConnection(rusqlite::Connection);

/// `rusqlite::Error`: any failure reported by the driver or by SQLite.
#[verifier::external_type_specification]
#[verifier::external_body]
pub struct ExSqlFailure(rusqlite::Error);

/// `rusqlite::Statement`: a prepared statement, tied to its connection.
#[verifier::external_type_specification]
#[verifier::external_body]
pub struct ExStatement<'conn>(rusqlite::Statement<'conn>);

/// `rusqlite::Rows`: the cursor over the rows of a running query.
#[verifier::external_type_specification]
#[verifier::external_body]
pub struct ExRows<'stmt>(rusqlite::Rows<'stmt>);

/// `rusqlite::Row`, under the name `SqlRow` in this file: the row the cursor
/// currently stands on.
#[verifier::external_type_specification]
#[verifier::external_body]
pub struct ExSqlRow<'stmt>(SqlRow<'stmt>);

/// `rusqlite::Transaction`: an open transaction, rolled back when dropped
/// without a commit.
#[verifier::external_type_specification]
#[verifier::external_body]
pub struct ExTransaction<'conn>(rusqlite::Transaction<'conn>);

/// Calls `rusqlite::Connection::open`. Nothing is claimed of the outcome: the
/// call fails when the path cannot be opened as a store.
#[verifier::external_body]
pub(crate) fn open_connection(path: &str) -> (r: Result<rusqlite::Connection, rusqlite::Error>) {
    rusqlite::Connection::open(path)
}

/// Calls `rusqlite::Connection::prepare`. Nothing is claimed of the outcome:
/// the call fails when SQLite rejects the statement text.
#[verifier::external_body]
pub(crate) fn prepare<'a>(conn: &'a rusqlite::Connection, sql: &str) -> (r: Result<
    rusqlite::Statement<'a>,
    rusqlite::Error,
>) {
    conn.prepare(sql)
}

/// Calls `rusqlite::Statement::raw_bind_parameter` with a text value for the
/// parameter at the one-based `index`. Nothing is claimed of the outcome: an
/// index the statement does not have is reported as an error.
#[verifier::external_body]
pub(crate) fn bind_text(stmt: &mut rusqlite::Statement<'_>, index: usize, value: &str) -> (r:
    Result<(), rusqlite::Error>) {
    stmt.raw_bind_parameter(index, value)
}

/// Calls `rusqlite::Statement::raw_bind_parameter` with a signed integer for
/// the parameter at the one-based `index`. Nothing is claimed of the outcome.
#[verifier::external_body]
pub(crate) fn bind_integer(stmt: &mut rusqlite::Statement<'_>, index: usize, value: i64) -> (r:
    Result<(), rusqlite::Error>) {
    stmt.raw_bind_parameter(index, value)
}

/// Calls `rusqlite::Statement::raw_bind_parameter` with an unsigned integer
/// for the parameter at the one-based `index`. Nothing is claimed of the
/// outcome: a value that SQLite's signed column cannot hold is reported as an
/// error.
#[verifier::external_body]
pub(crate) fn bind_unsigned(stmt: &mut rusqlite::Statement<'_>, index: usize, value: u64) -> (r:
    Result<(), rusqlite::Error>) {
    stmt.raw_bind_parameter(index, value)
}

/// Calls `rusqlite::Statement::raw_bind_parameter` with a byte string for the
/// parameter at the one-based `index`. Nothing is claimed of the outcome.
#[verifier::external_body]
pub(crate) fn bind_blob(stmt: &mut rusqlite::Statement<'_>, index: usize, value: &Vec<u8>) -> (r:
    Result<(), rusqlite::Error>) {
    stmt.raw_bind_parameter(index, value)
}

/// Calls `rusqlite::Statement::raw_execute`, which runs a statement that
/// returns no rows and reports how many rows it changed. Nothing is claimed
/// of the outcome.
#[verifier::external_body]
pub(crate) fn run(stmt: &mut rusqlite::Statement<'_>) -> (r: Result<usize, rusqlite::Error>) {
    stmt.raw_execute()
}

/// Calls `rusqlite::Statement::raw_query`, which hands out the cursor of a
/// query whose parameters are bound. Nothing is claimed of the cursor.
#[verifier::external_body]
pub(crate) fn rows_of<'a>(stmt: &'a mut rusqlite::Statement<'_>) -> (r: rusqlite::Rows<'a>) {
    stmt.raw_query()
}

/// Calls `rusqlite::Rows::next`: the next row, `None` once the rows are
/// exhausted, or the failure of the step. Nothing is claimed of the outcome.
#[verifier::external_body]
pub(crate) fn next_row<'a, 's>(rows: &'a mut rusqlite::Rows<'s>) -> (r: Result<
    Option<&'a SqlRow<'s>>,
    rusqlite::Error,
>) {
    rows.next()
}

/// Calls `rusqlite::Row::get` for a signed integer in the zero-based column
/// `index`. Nothing is claimed of the outcome: a column that is missing or
/// holds no integer is reported as an error.
#[verifier::external_body]
pub(crate) fn column_integer(row: &SqlRow<'_>, index: usize) -> (r: Result<
    i64,
    rusqlite::Error,
>) {
    row.get(index)
}

/// Calls `rusqlite::Row::get` for an unsigned integer in the zero-based
/// column `index`. Nothing is claimed of the outcome: a negative value is
/// reported as an error.
#[verifier::external_body]
pub(crate) fn column_unsigned(row: &SqlRow<'_>, index: usize) -> (r: Result<
    u64,
    rusqlite::Error,
>) {
    row.get(index)
}

/// Calls `rusqlite::Row::get` for a text value in the zero-based column
/// `index`. Nothing is claimed of the outcome.
#[verifier::external_body]
pub(crate) fn column_text(row: &SqlRow<'_>, index: usize) -> (r: Result<
    String,
    rusqlite::Error,
>) {
    row.get(index)
}

/// Calls `rusqlite::Row::get` for a byte string in the zero-based column
/// `index`. Nothing is claimed of the outcome.
#[verifier::external_body]
pub(crate) fn column_blob(row: &SqlRow<'_>, index: usize) -> (r: Result<
    Vec<u8>,
    rusqlite::Error,
>) {
    row.get(index)
}

/// Calls `rusqlite::Connection::last_insert_rowid`: the row id of the most
/// recent successful insert on this connection. Nothing is claimed of it.
#[verifier::external_body]
pub(crate) fn last_rowid(conn: &rusqlite::Connection) -> (r: i64) {
    conn.last_insert_rowid()
}

/// Calls `rusqlite::Connection::transaction`, which opens a transaction that
/// rolls back unless it is committed. Nothing is claimed of the outcome.
#[verifier::external_body]
pub(crate) fn begin<'a>(conn: &'a mut rusqlite::Connection) -> (r: Result<
    rusqlite::Transaction<'a>,
    rusqlite::Error,
>) {
    conn.transaction()
}

/// Calls `Deref::deref` of `rusqlite::Transaction`: the connection that the
/// transaction runs on.
#[verifier::external_body]
pub(crate) fn connection_of<'a>(tx: &'a rusqlite::Transaction<'_>) -> (r:
    &'a rusqlite::Connection) {
    std::ops::Deref::deref(tx)
}

/// Calls `rusqlite::Transaction::commit`. Nothing is claimed of the outcome.
#[verifier::external_body]
pub(crate) fn commit(tx: rusqlite::Transaction<'_>) -> (r: Result<(), rusqlite::Error>) {
    tx.commit()
}

} // verus!
