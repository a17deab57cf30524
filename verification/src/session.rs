//! The model of one logging session: which rows the store has taken from a
//! controller, in which order, and which of them a commit has covered. The
//! store is taken at its word: a row that it has acknowledged is in the open
//! transaction, and a commit that it has acknowledged covers every row of
//! that transaction.

use vstd::prelude::*;
use crate::row::RowModel;

verus! {

/// Whether a row written while `pending` rows are counted fills the batch.
pub open spec fn commit_due(pending: nat, threshold: nat) -> bool {
    pending + 1 >= threshold
}

/// The counter after one more row: cleared where that row fills the batch.
pub open spec fn pending_after(pending: nat, threshold: nat) -> nat {
    if commit_due(pending, threshold) {
        0
    } else {
        pending + 1
    }
}

/// One call on a controller.
pub enum Command {
    Record(RowModel),
    Flush,
}

/// The state of a session between two calls.
#[verifier::ext_equal]
pub struct Session {
    /// The number of rows that fills a batch.
    pub threshold: nat,
    /// The rows counted since the counter was last cleared.
    pub pending: nat,
    /// The rows that a commit has covered, oldest first.
    pub committed: Seq<RowModel>,
    /// The rows written into the open transaction, oldest first.
    pub open: Seq<RowModel>,
    /// The number of commits that the store has acknowledged.
    pub commits: nat,
}

impl Session {
    /// The session of a new controller: an open transaction without rows.
    pub open spec fn fresh(threshold: nat) -> Session {
        Session {
            threshold,
            pending: 0,
            committed: Seq::empty(),
            open: Seq::empty(),
            commits: 0,
        }
    }

    /// The session as a controller with another threshold takes it over: the
    /// counter starts again at 0, and the rows stay where they are.
    pub open spec fn with_threshold(self, threshold: nat) -> Session {
        Session { threshold, pending: 0, ..self }
    }

    /// The counter is below the threshold, or 0 where the threshold is 0.
    pub open spec fn wf(self) -> bool {
        self.pending == 0 || self.pending < self.threshold
    }

    /// Whether the next row fills the batch.
    pub open spec fn commit_due(self) -> bool {
        commit_due(self.pending, self.threshold)
    }

    /// The row is written into the open transaction and counted.
    pub open spec fn write(self, row: RowModel) -> Session {
        Session {
            pending: pending_after(self.pending, self.threshold),
            open: self.open.push(row),
            ..self
        }
    }

    /// The open transaction is committed and a new one begun. The counter is
    /// left as it is.
    pub open spec fn commit(self) -> Session {
        Session {
            committed: self.committed + self.open,
            open: Seq::empty(),
            commits: self.commits + 1,
            ..self
        }
    }

    /// One row is recorded: written, counted, and committed together with
    /// the rows before it where it fills the batch.
    pub open spec fn record(self, row: RowModel) -> Session {
        if self.commit_due() {
            self.write(row).commit()
        } else {
            self.write(row)
        }
    }

    /// An explicit flush: a commit whatever the counter says, which does not
    /// touch the counter.
    pub open spec fn flush(self) -> Session {
        self.commit()
    }

    /// The session after one call.
    pub open spec fn step(self, command: Command) -> Session {
        match command {
            Command::Record(row) => self.record(row),
            Command::Flush => self.flush(),
        }
    }

    /// The session after the calls of `commands`, first to last.
    pub open spec fn run(self, commands: Seq<Command>) -> Session
        decreases commands.len(),
    {
        if commands.len() == 0 {
            self
        } else {
            self.run(commands.drop_last()).step(commands.last())
        }
    }

    /// Every row handed to the store, oldest first.
    pub open spec fn rows(self) -> Seq<RowModel> {
        self.committed + self.open
    }
}

/// The rows that the calls of `commands` record, first to last.
pub open spec fn recorded(commands: Seq<Command>) -> Seq<RowModel>
    decreases commands.len(),
{
    if commands.len() == 0 {
        Seq::empty()
    } else {
        match commands.last() {
            Command::Record(row) => recorded(commands.drop_last()).push(row),
            Command::Flush => recorded(commands.drop_last()),
        }
    }
}

/// The number of flushes among `commands`.
pub open spec fn flushes(commands: Seq<Command>) -> nat
    decreases commands.len(),
{
    if commands.len() == 0 {
        0
    } else {
        match commands.last() {
            Command::Record(_) => flushes(commands.drop_last()),
            Command::Flush => flushes(commands.drop_last()) + 1,
        }
    }
}

/// One record call for each row of `rows`.
pub open spec fn records(rows: Seq<RowModel>) -> Seq<Command> {
    Seq::new(rows.len(), |i: int| Command::Record(rows[i]))
}

/// One call in the order in which the controller took the calls of several
/// producers.
pub struct Call {
    /// The producer that made the call.
    pub producer: nat,
    /// What it called for.
    pub command: Command,
}

/// The commands of `calls`, in their order.
pub open spec fn commands_of(calls: Seq<Call>) -> Seq<Command> {
    Seq::new(calls.len(), |i: int| calls[i].command)
}

/// The rows that one producer records among `calls`, in its own order.
pub open spec fn recorded_by(calls: Seq<Call>, producer: nat) -> Seq<RowModel>
    decreases calls.len(),
{
    if calls.len() == 0 {
        Seq::empty()
    } else {
        match calls.last().command {
            Command::Record(row) if calls.last().producer == producer => recorded_by(
                calls.drop_last(),
                producer,
            ).push(row),
            _ => recorded_by(calls.drop_last(), producer),
        }
    }
}

/// Whether the rows of `part` all stand in `whole`, in the order of `part`,
/// with any rows between them.
pub open spec fn is_subsequence(part: Seq<RowModel>, whole: Seq<RowModel>) -> bool
    decreases whole.len(),
{
    if part.len() == 0 {
        true
    } else if whole.len() == 0 {
        false
    } else {
        ||| (part.last() == whole.last() && is_subsequence(part.drop_last(), whole.drop_last()))
        ||| is_subsequence(part, whole.drop_last())
    }
}

} // verus!
