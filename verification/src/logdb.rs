//! The batching commit controller: it owns the connection and its one open
//! transaction, writes each row into it, and commits once the batch is full.

use vstd::prelude::*;
use crate::batch::BatchState;
use crate::error::{answered, LogError, Stage};
use crate::row::LogRow;
use crate::session::Session;
use crate::store::execute_insert;

verus! {

/// The statement that writes one row.
pub const LOG_INSERT_STATEMENT: &'static str = "INSERT INTO log (type, message) VALUES (?, ?)";

/// The statements that end the open transaction and begin the next.
pub const COMMIT_AND_BEGIN: &'static str = "COMMIT; BEGIN";

/// A controller on one connection. Its view is the session so far: the rows
/// that the store has taken, those that a commit has covered, and the
/// counter.
pub struct LogDB {
    connection: rusqlite::Connection,
    state: BatchState,
}

impl View for LogDB {
    type V = Session;

    closed spec fn view(&self) -> Session {
        self.state@
    }
}

impl LogDB {
    /// What holds of every controller: its counter is below its threshold,
    /// or 0.
    #[verifier::type_invariant]
    pub open spec fn wf(self) -> bool {
        self@.wf()
    }

    /// The connection that the controller writes to.
    pub closed spec fn store(&self) -> rusqlite::Connection {
        self.connection
    }

    /// A controller for a connection on which a transaction has been begun.
    /// The threshold is fixed from here on.
    pub fn new(connection: rusqlite::Connection, threshold: usize) -> (db: LogDB)
        ensures
            db@ == Session::fresh(threshold as nat),
            db.store() == connection,
    {
        LogDB { connection, state: BatchState::new(threshold) }
    }

    /// A controller with another threshold on the same connection, in place
    /// of this one. Its counter starts at 0; the transaction stays open with
    /// the rows that it holds.
    pub fn with_threshold(self, threshold: usize) -> (db: LogDB)
        ensures
            db@ == self@.with_threshold(threshold as nat),
            db.store() == self.store(),
    {
        LogDB { connection: self.connection, state: self.state.with_threshold(threshold) }
    }

    /// Asks the store to write `row`: the insert statement is taken from the
    /// connection's cache and run with the row's two values.
    fn write(&self, row: &LogRow) -> (answer: Result<usize, LogError>)
        ensures
            answer matches Err(refusal) ==> refusal.stage == Stage::Prepare || refusal.stage
                == Stage::Insert,
    {
        match answered(Stage::Prepare, self.connection.prepare_cached(LOG_INSERT_STATEMENT)) {
            Ok(mut statement) => answered(Stage::Insert, execute_insert(&mut statement, row)),
            Err(refusal) => Err(refusal),
        }
    }

    /// Asks the store to commit the open transaction and to begin the next.
    fn commit(&self) -> (answer: Result<(), LogError>)
        ensures
            answer matches Err(refusal) ==> refusal.stage == Stage::Commit,
    {
        answered(Stage::Commit, self.connection.execute_batch(COMMIT_AND_BEGIN))
    }

    /// Records one row: writes it into the open transaction, counts it, and
    /// where it fills the batch commits the transaction and begins the next.
    /// Answers whether it committed.
    ///
    /// A row that the store refuses is dropped and not counted. The counter
    /// is cleared before the commit is asked for: where the store refuses the
    /// commit, the rows stay in the open transaction and the counter starts
    /// again at 0.
    pub fn add(&mut self, row: &LogRow) -> (outcome: Result<bool, LogError>)
        ensures
            final(self).store() == old(self).store(),
            match outcome {
                Ok(committed) => {
                    &&& committed == old(self)@.commit_due()
                    &&& final(self)@ == old(self)@.record(row@)
                },
                Err(refusal) => {
                    ||| {
                        &&& refusal.stage == Stage::Prepare || refusal.stage == Stage::Insert
                        &&& final(self)@ == old(self)@
                    }
                    ||| {
                        &&& refusal.stage == Stage::Commit
                        &&& old(self)@.commit_due()
                        &&& final(self)@ == old(self)@.write(row@)
                    }
                },
            },
    {
        proof {
            use_type_invariant(&*self);
        }
        let written = self.write(row);
        let due = match self.state.inserted(row, written) {
            Ok(due) => due,
            Err(refusal) => {
                return Err(refusal);
            },
        };
        if due {
            let closed = self.commit();
            match self.state.committed(closed) {
                Ok(()) => {},
                Err(refusal) => {
                    return Err(refusal);
                },
            }
        }
        Ok(due)
    }

    /// Commits the open transaction and begins the next, whatever the counter
    /// says. The counter is not touched: a flush in the middle of a batch
    /// leaves it counting rows that are already committed, and the next
    /// commit comes as many rows early.
    pub fn flush(&mut self) -> (outcome: Result<(), LogError>)
        ensures
            final(self).store() == old(self).store(),
            match outcome {
                Ok(_) => final(self)@ == old(self)@.flush(),
                Err(refusal) => refusal.stage == Stage::Commit && final(self)@ == old(self)@,
            },
    {
        proof {
            use_type_invariant(&*self);
        }
        let closed = self.commit();
        self.state.committed(closed)
    }

    /// The number of rows counted since the counter was last cleared.
    pub fn pending_count(&self) -> (count: usize)
        ensures
            count == self@.pending,
    {
        self.state.pending_count()
    }

    /// The number of rows that fills a batch.
    pub fn threshold(&self) -> (threshold: usize)
        ensures
            threshold == self@.threshold,
    {
        self.state.threshold()
    }

    /// The connection, for reading what has been written.
    pub fn connection(&self) -> (connection: &rusqlite::Connection)
        ensures
            *connection == self.store(),
    {
        &self.connection
    }

    /// Gives the connection back, with its transaction as it stands.
    pub fn into_connection(self) -> (connection: rusqlite::Connection)
        ensures
            connection == self.store(),
    {
        self.connection
    }
}

} // verus!
