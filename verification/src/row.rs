//! The row format: one severity code and one rendered message per log event.

use vstd::prelude::*;
use crate::facade::{level_of, record_message, record_severity};

verus! {

/// The ordered classification of a log event, most severe first.
#[derive(Clone, Copy, Debug, PartialEq, Eq, Structural)]
pub enum Severity {
    Error,
    Warn,
    Info,
    Debug,
    Trace,
}

impl Severity {
    /// The integer code of a severity: 1 for `Error` up to 5 for `Trace`, the
    /// numbering by which the `log` facade compares its own levels.
    pub open spec fn code(self) -> nat {
        match self {
            Severity::Error => 1,
            Severity::Warn => 2,
            Severity::Info => 3,
            Severity::Debug => 4,
            Severity::Trace => 5,
        }
    }

    /// The integer code stored for this severity.
    pub fn rank(self) -> (code: usize)
        ensures
            code == self.code(),
    {
        match self {
            Severity::Error => 1,
            Severity::Warn => 2,
            Severity::Info => 3,
            Severity::Debug => 4,
            Severity::Trace => 5,
        }
    }
}

/// What a stored row is, mathematically: a severity code and the characters
/// of the message.
pub struct RowModel {
    pub severity: nat,
    pub message: Seq<char>,
}

/// The two values bound into one insert.
#[derive(Debug)]
pub struct LogRow {
    /// The severity code; see [`Severity::code`].
    pub severity: usize,
    /// The fully rendered text of the event.
    pub message: String,
}

impl View for LogRow {
    type V = RowModel;

    open spec fn view(&self) -> RowModel {
        RowModel { severity: self.severity as nat, message: self.message@ }
    }
}

impl LogRow {
    /// Encodes one event: the severity becomes its integer code and the
    /// message is stored character for character, whatever its length.
    pub fn encode(severity: Severity, message: &str) -> (row: LogRow)
        ensures
            row@ == (RowModel { severity: severity.code(), message: message@ }),
    {
        LogRow { severity: severity.rank(), message: message.to_owned() }
    }

    /// Makes the row of an event from its severity and from what rendering
    /// its message gave: the row with that text, or nothing where the
    /// message could not be rendered.
    pub fn of_rendered(severity: Severity, message: Option<String>) -> (outcome: Option<LogRow>)
        ensures
            match message {
                Some(text) => outcome matches Some(row) && row@ == (RowModel {
                    severity: severity.code(),
                    message: text@,
                }),
                None => outcome is None,
            },
    {
        match message {
            Some(text) => Some(LogRow { severity: severity.rank(), message: text }),
            None => None,
        }
    }

    /// Encodes one event of the `log` facade: its level, by the code that the
    /// facade itself gives it, and its message as the facade renders it.
    ///
    /// There is no row where a `Display` implementation among the arguments
    /// of the message reports an error. Of the text nothing is stated: it is
    /// what those implementations write, which the event alone does not
    /// settle.
    pub fn of_record(record: &log::Record<'_>) -> (outcome: Option<LogRow>)
        ensures
            outcome matches Some(row) ==> row@.severity == level_of(*record).code(),
    {
        let severity = record_severity(record);
        let message = record_message(record);
        LogRow::of_rendered(severity, message)
    }
}

} // verus!
