//! What can go wrong between the logger and its store.

use vstd::prelude::*;

verus! {

/// The step at which the store refused.
#[derive(Clone, Copy, Debug, PartialEq, Eq, Structural)]
pub enum Stage {
    /// The store file could not be opened or created.
    Open,
    /// The log table could not be created.
    Schema,
    /// The first transaction could not be begun.
    Begin,
    /// The insert statement could not be prepared.
    Prepare,
    /// The insert statement was prepared and did not run.
    Insert,
    /// The open transaction could not be committed, or none begun after it.
    Commit,
}

/// A refusal of the store. Nothing is retried: the caller decides whether to
/// drop the event, try again or give up.
#[derive(Debug)]
pub struct LogError {
    /// The step that failed.
    pub stage: Stage,
    /// The store's own words.
    pub detail: String,
}

/// Turns the store's answer to the step `stage` into the logger's own: what
/// the store gave is handed on as it is, and an error of the store becomes a
/// refusal at that step, with the store's description of it.
pub fn answered<T>(stage: Stage, answer: Result<T, rusqlite::Error>) -> (outcome: Result<
    T,
    LogError,
>)
    ensures
        match answer {
            Ok(given) => outcome == Ok::<T, LogError>(given),
            Err(error) => {
                &&& outcome matches Err(refusal)
                &&& refusal.stage == stage
                &&& vstd::string::to_string_from_display_ensures::<rusqlite::Error>(
                    &error,
                    refusal.detail,
                )
            },
        },
{
    match answer {
        Ok(given) => Ok(given),
        Err(refusal) => Err(LogError { stage, detail: refusal.to_string() }),
    }
}

} // verus!
