//! Bootstrap: the store file is opened, the log table made sure of, and the
//! first transaction begun.

use vstd::prelude::*;
use crate::error::{answered, LogError, Stage};
use crate::logdb::{LogDB, LOG_INSERT_STATEMENT};
use crate::session::Session;
use crate::store::{execute_statement, join_path, open_connection};

verus! {

/// The name of the store file inside the directory given to [`setup_logger`].
pub const LOG_FILE_NAME: &'static str = "log.sqlite";

/// The statement that creates the log table where there is none: an integer
/// key that the store assigns, the severity code, and the message.
pub const CREATE_LOG_TABLE: &'static str =
    "CREATE TABLE IF NOT EXISTS log (id INTEGER PRIMARY KEY, type INTEGER, message TEXT NOT NULL)";

/// The statement that begins a transaction.
pub const BEGIN: &'static str = "BEGIN";

/// Whether bootstrap can fail at this step.
pub open spec fn bootstrap_stage(stage: Stage) -> bool {
    stage == Stage::Schema || stage == Stage::Prepare || stage == Stage::Begin
}

/// Prepares a connection for logging and gives it a controller: the log
/// table is created unless it exists, the insert statement is prepared once,
/// so that the first event finds it in the cache, and a transaction is begun.
pub fn bootstrap(connection: rusqlite::Connection, threshold: usize) -> (outcome: Result<
    LogDB,
    LogError,
>)
    ensures
        match outcome {
            Ok(db) => db@ == Session::fresh(threshold as nat) && db.store() == connection,
            Err(refusal) => bootstrap_stage(refusal.stage),
        },
{
    match answered(Stage::Schema, execute_statement(&connection, CREATE_LOG_TABLE)) {
        Ok(_) => {},
        Err(refusal) => {
            return Err(refusal);
        },
    }
    match answered(Stage::Prepare, connection.prepare_cached(LOG_INSERT_STATEMENT)) {
        Ok(_) => {},
        Err(refusal) => {
            return Err(refusal);
        },
    }
    match answered(Stage::Begin, execute_statement(&connection, BEGIN)) {
        Ok(_) => {},
        Err(refusal) => {
            return Err(refusal);
        },
    }
    Ok(LogDB::new(connection, threshold))
}

/// Opens the store file `log.sqlite` in the directory `path`, creating it
/// where there is none, and bootstraps a controller with the given threshold
/// on it. Rows that the file already holds are kept.
pub fn setup_logger(path: std::path::PathBuf, threshold: usize) -> (outcome: Result<
    LogDB,
    LogError,
>)
    ensures
        match outcome {
            Ok(db) => db@ == Session::fresh(threshold as nat),
            Err(refusal) => refusal.stage == Stage::Open || bootstrap_stage(refusal.stage),
        },
{
    let log_file = join_path(&path, LOG_FILE_NAME);
    match answered(Stage::Open, open_connection(&log_file)) {
        Ok(connection) => bootstrap(connection, threshold),
        Err(refusal) => Err(refusal),
    }
}

} // verus!
