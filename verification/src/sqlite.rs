//! The calls into the SQLite driver.
//!
//! What a statement does depends on what the database holds, so none of these
//! contracts says how a call ends: the callers are verified for every reply.

use vstd::prelude::*;
use crate::todo::Todo;

verus! {

/// `rusqlite::Connection`, a connection to a database. Nothing of what it
/// holds is visible here.
#[verifier::external_type_specification]
#[verifier::external_body]
pub struct ExConnection(rusqlite::Connection);

/// `rusqlite::Error`, the driver's error. Nothing of what it holds is visible
/// here.
#[verifier::external_type_specification]
#[verifier::external_body]
pub struct ExError(rusqlite::Error);

/// A value bound to a placeholder of a statement.
#[derive(Debug)]
pub enum Param {
    /// No value.
    Null,
    /// A whole number.
    Integer(i64),
    /// A text.
    Text(String),
}

/// `rusqlite::Connection::open_in_memory`: a connection to a new in-memory
/// database, or the driver's error. Nothing is claimed of which.
#[verifier::external_body]
pub(crate) fn open_in_memory() -> (r: Result<rusqlite::Connection, rusqlite::Error>) {
    rusqlite::Connection::open_in_memory()
}

/// `rusqlite::Connection::execute_batch`: runs the statements of `sql`, which
/// take no parameters, one after the other. Nothing is claimed of the result.
#[verifier::external_body]
pub(crate) fn execute_batch(db: &rusqlite::Connection, sql: &str) -> (r: Result<
    (),
    rusqlite::Error,
>) {
    db.execute_batch(sql)
}

/// `rusqlite::Statement::execute` on the cached statement for `sql`, with
/// `params` bound in order: the number of rows changed, or the driver's error.
/// Nothing is claimed of which.
#[verifier::external_body]
pub(crate) fn execute(db: &rusqlite::Connection, sql: &str, params: &Vec<Param>) -> (r: Result<
    usize,
    rusqlite::Error,
>) {
    let values = params.iter().map(|p| match p {
        Param::Null => rusqlite::types::Value::Null,
        Param::Integer(i) => rusqlite::types::Value::Integer(*i),
        Param::Text(t) => rusqlite::types::Value::Text(t.clone()),
    });
    db.prepare_cached(sql)?.execute(rusqlite::params_from_iter(values))
}

/// `rusqlite::Statement::query_row` on the cached statement for `sql`, with
/// `params` bound in order: the first column of the first row as an integer, or
/// the driver's error, which it also is when there is no row. Nothing is
/// claimed of which.
#[verifier::external_body]
pub(crate) fn query_integer(db: &rusqlite::Connection, sql: &str, params: &Vec<Param>) -> (r:
    Result<i64, rusqlite::Error>) {
    let values = params.iter().map(|p| match p {
        Param::Null => rusqlite::types::Value::Null,
        Param::Integer(i) => rusqlite::types::Value::Integer(*i),
        Param::Text(t) => rusqlite::types::Value::Text(t.clone()),
    });
    db.prepare_cached(sql)?.query_row(rusqlite::params_from_iter(values), |row| row.get(0))
}

/// `rusqlite::Statement::query_map` on the cached statement for `sql`, with
/// `params` bound in order: every row of the result, its seven columns read in
/// order as a todo's identifier, title, path, scheduled, deadline, opened and
/// closed, or the driver's first error. Nothing is claimed of which.
#[verifier::external_body]
pub(crate) fn query_todos(db: &rusqlite::Connection, sql: &str, params: &Vec<Param>) -> (r: Result<
    Vec<Todo>,
    rusqlite::Error,
>) {
    let values = params.iter().map(|p| match p {
        Param::Null => rusqlite::types::Value::Null,
        Param::Integer(i) => rusqlite::types::Value::Integer(*i),
        Param::Text(t) => rusqlite::types::Value::Text(t.clone()),
    });
    db.prepare_cached(sql)?.query_map(rusqlite::params_from_iter(values), |row| {
        Ok(Todo::from_columns(
            row.get(0)?, row.get(1)?, row.get(2)?, row.get(3)?, row.get(4)?, row.get(5)?, row.get(6)?,
        ))
    })?.collect()
}

/// The `Display` text of a `rusqlite::Error`. Nothing is claimed of the text.
#[verifier::external_body]
pub(crate) fn describe(error: &rusqlite::Error) -> (text: String) {
    error.to_string()
}

} // verus!
