//! The boundary to the `log` facade: the items of `log`, and of `smol_str`,
//! through which an event of the facade is read. Verus does not read them.
//! Of each call it is believed that it returns, and of the level that it is
//! the event's own; nothing is claimed of the text of a message.

use vstd::prelude::*;
use crate::row::Severity;

verus! {

/// `log::Record`, one event as the facade hands it to its destination.
/// Nothing of what it holds is visible to the proofs.
#[verifier::external_type_specification]
#[verifier::external_body]
pub struct ExRecord<'a>(log::Record<'a>);

/// The level that an event carries, `log::Record::level`, named by the
/// severity that stands for it.
pub uninterp spec fn level_of(record: log::Record<'_>) -> Severity;

/// Calls `log::Record::level` and names the level of the facade by the
/// severity that stands for it, variant for variant. Believed of it: that
/// the level it reads is the one that the event carries, [`level_of`].
#[verifier::external_body]
pub(crate) fn record_severity(record: &log::Record<'_>) -> (severity: Severity)
    ensures
        severity == level_of(*record),
{
    match record.level() {
        log::Level::Error => Severity::Error,
        log::Level::Warn => Severity::Warn,
        log::Level::Info => Severity::Info,
        log::Level::Debug => Severity::Debug,
        log::Level::Trace => Severity::Trace,
    }
}

/// Renders the message of the event, `log::Record::args`, with its arguments
/// filled in: `core::fmt::Write::write_fmt` writes it into a
/// `smol_str::SmolStrBuilder`, and `SmolStrBuilder::finish` gives the text.
/// The answer is `None` where a `Display` implementation among the arguments
/// reports an error. Nothing is claimed of the answer: what such an
/// implementation writes is its own affair, and need not depend on the
/// event alone.
#[verifier::external_body]
pub(crate) fn record_message(record: &log::Record<'_>) -> (message: Option<String>) {
    let mut builder = smol_str::SmolStrBuilder::new();
    match core::fmt::Write::write_fmt(&mut builder, *record.args()) {
        Ok(()) => Some(String::from(builder.finish())),
        Err(_) => None,
    }
}

} // verus!
