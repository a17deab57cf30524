//! The boundary to the embedded store: the items of `rusqlite`, and of
//! `std::path`, that the logger calls. Verus does not read them. Of each
//! call it is believed that it returns; of what it answers nothing is
//! claimed, since that depends on the database file and on the engine behind
//! it. The callers are verified for every answer.

use vstd::prelude::*;
use crate::row::LogRow;

verus! {

/// `rusqlite::Connection`, one open connection to a SQLite database. Nothing
/// of what it holds is visible to the proofs.
#[verifier::external_type_specification]
#[verifier::external_body]
pub struct ExConnection(rusqlite::Connection);

/// `rusqlite::Error`, the reason why a call into the store failed. Nothing
/// of what it holds is visible to the proofs.
#[verifier::external_type_specification]
#[verifier::external_body]
pub struct ExStoreError(rusqlite::Error);

/// `rusqlite::CachedStatement`, a prepared statement that goes back into its
/// connection's cache when it is dropped. Nothing of what it holds is
/// visible to the proofs.
#[verifier::external_type_specification]
#[verifier::external_body]
pub struct ExCachedStatement<'conn>(rusqlite::CachedStatement<'conn>);

/// `std::path::PathBuf`, an owned file system path. Nothing of what it holds
/// is visible to the proofs.
#[verifier::external_type_specification]
#[verifier::external_body]
pub struct ExPathBuf(std::path::PathBuf);

/// Calls `std::path::Path::join`, which extends `directory` by `name`.
/// Nothing is claimed of the path that comes back.
#[verifier::external_body]
pub(crate) fn join_path(directory: &std::path::PathBuf, name: &str) -> (file: std::path::PathBuf) {
    directory.join(name)
}

/// Calls `rusqlite::Connection::open`, which opens the database at `file`
/// for reading and writing and creates it where there is none. Nothing is
/// claimed of the answer: it may be a connection or an error.
#[verifier::external_body]
pub(crate) fn open_connection(file: &std::path::PathBuf) -> (answer: Result<
    rusqlite::Connection,
    rusqlite::Error,
>) {
    rusqlite::Connection::open(file)
}

/// Calls `rusqlite::Connection::execute` without parameters, which prepares
/// and runs the one statement `sql` and answers with the number of rows
/// changed. Nothing is claimed of the answer.
#[verifier::external_body]
pub(crate) fn execute_statement(connection: &rusqlite::Connection, sql: &str) -> (answer: Result<
    usize,
    rusqlite::Error,
>) {
    connection.execute(sql, ())
}

/// `rusqlite::Connection::execute_batch`, which runs the statements of `sql`
/// one after the other and stops at the first that fails. Nothing is claimed
/// of the answer.
pub assume_specification[ rusqlite::Connection::execute_batch ](
    connection: &rusqlite::Connection,
    sql: &str,
) -> (answer: Result<(), rusqlite::Error>)
;

/// `rusqlite::Connection::prepare_cached`, which hands out the prepared form
/// of `sql`, out of the connection's cache where it is there. Nothing is
/// claimed of the answer.
pub assume_specification<'conn>[ rusqlite::Connection::prepare_cached ](
    connection: &'conn rusqlite::Connection,
    sql: &str,
) -> (answer: Result<rusqlite::CachedStatement<'conn>, rusqlite::Error>)
;

/// Calls `rusqlite::Statement::execute` with the two values of `row` as its
/// parameters, the severity code first and the message second: it binds
/// them, runs the statement and answers with the number of rows changed.
/// Nothing is claimed of the answer.
#[verifier::external_body]
pub(crate) fn execute_insert(statement: &mut rusqlite::CachedStatement<'_>, row: &LogRow) -> (answer:
    Result<usize, rusqlite::Error>) {
    statement.execute((row.severity, row.message.as_str()))
}

} // verus!
