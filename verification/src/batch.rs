//! The batching policy, free of any store: a counter of the rows written
//! since it was last cleared, told of each answer of the store, and telling
//! when a commit is due.

use vstd::prelude::*;
use crate::error::LogError;
use crate::row::{LogRow, RowModel};
use crate::session::Session;

verus! {

/// The rows that the store has acknowledged.
struct Ledger {
    committed: Seq<RowModel>,
    open: Seq<RowModel>,
    commits: nat,
}

/// The state of one controller. Its view is the session so far: the counter
/// and the threshold, which is fixed when the state is made, and the rows
/// that the store has acknowledged.
pub struct BatchState {
    pending_count: usize,
    threshold: usize,
    ledger: Ghost<Ledger>,
}

impl View for BatchState {
    type V = Session;

    closed spec fn view(&self) -> Session {
        Session {
            threshold: self.threshold as nat,
            pending: self.pending_count as nat,
            committed: self.ledger@.committed,
            open: self.ledger@.open,
            commits: self.ledger@.commits,
        }
    }
}

impl BatchState {
    /// What holds of every state: the counter is below the threshold, or 0.
    #[verifier::type_invariant]
    pub open spec fn wf(self) -> bool {
        self@.wf()
    }

    /// The state of a new session: nothing counted, an open transaction
    /// without rows.
    pub fn new(threshold: usize) -> (state: BatchState)
        ensures
            state@ == Session::fresh(threshold as nat),
    {
        BatchState {
            pending_count: 0,
            threshold,
            ledger: Ghost(Ledger { committed: Seq::empty(), open: Seq::empty(), commits: 0 }),
        }
    }

    /// The state of a controller that takes the session over with another
    /// threshold: nothing counted, and the rows that the store has
    /// acknowledged as they stand.
    pub fn with_threshold(self, threshold: usize) -> (state: BatchState)
        ensures
            state@ == self@.with_threshold(threshold as nat),
    {
        BatchState { pending_count: 0, threshold, ledger: self.ledger }
    }

    /// Takes the store's answer to the insert of `row`.
    ///
    /// Where the store has written the row, the row is counted; the result is
    /// `true`, and the counter cleared, where it brings the count up to the
    /// threshold: the caller then owes the store a commit. Where the store
    /// has refused, the refusal is handed on: the row is dropped and not
    /// counted.
    pub fn inserted(&mut self, row: &LogRow, answer: Result<usize, LogError>) -> (outcome: Result<
        bool,
        LogError,
    >)
        ensures
            match answer {
                Ok(_) => {
                    &&& outcome == Ok::<bool, LogError>(old(self)@.commit_due())
                    &&& final(self)@ == old(self)@.write(row@)
                },
                Err(refusal) => {
                    &&& outcome == Err::<bool, LogError>(refusal)
                    &&& final(self)@ == old(self)@
                },
            },
        no_unwind
    {
        proof {
            use_type_invariant(&*self);
        }
        match answer {
            Ok(_) => {
                self.ledger = Ghost(Ledger { open: self.ledger@.open.push(row@), ..self.ledger@ });
                if self.pending_count + 1 >= self.threshold {
                    self.pending_count = 0;
                    Ok(true)
                } else {
                    self.pending_count = self.pending_count + 1;
                    Ok(false)
                }
            },
            Err(refusal) => Err(refusal),
        }
    }

    /// Takes the store's answer to a commit, asked for because a batch was
    /// full or by a flush.
    ///
    /// Where the store has committed, the rows of the open transaction count
    /// as committed and the new transaction has none. The counter is not
    /// touched. Where the store has refused, the refusal is handed on and
    /// the rows stay in the open transaction.
    pub fn committed(&mut self, answer: Result<(), LogError>) -> (outcome: Result<(), LogError>)
        ensures
            match answer {
                Ok(_) => {
                    &&& outcome is Ok
                    &&& final(self)@ == old(self)@.commit()
                },
                Err(refusal) => {
                    &&& outcome == Err::<(), LogError>(refusal)
                    &&& final(self)@ == old(self)@
                },
            },
        no_unwind
    {
        proof {
            use_type_invariant(&*self);
        }
        match answer {
            Ok(_) => {
                self.ledger = Ghost(
                    Ledger {
                        committed: self.ledger@.committed + self.ledger@.open,
                        open: Seq::empty(),
                        commits: self.ledger@.commits + 1,
                    },
                );
                Ok(())
            },
            Err(refusal) => Err(refusal),
        }
    }

    /// The number of rows counted since the counter was last cleared.
    pub fn pending_count(&self) -> (count: usize)
        ensures
            count == self@.pending,
    {
        self.pending_count
    }

    /// The number of rows that fills a batch.
    pub fn threshold(&self) -> (threshold: usize)
        ensures
            threshold == self@.threshold,
    {
        self.threshold
    }
}

} // verus!
