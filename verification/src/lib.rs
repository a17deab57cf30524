//! A batched logger: log rows are written into an embedded relational store
//! inside one open transaction, which is committed once a configured number
//! of rows has accumulated.
//!
//! [`row`] encodes an event as the two values of a row. [`batch`] is the
//! batching policy, free of any store, and [`logdb`] the controller that
//! drives a connection by it. [`bootstrap`] opens the store and prepares it,
//! and [`bench`] sends the same events through controllers of growing batch
//! size. [`session`] is the model that the contracts speak of, and [`laws`]
//! holds what is proved of it. [`store`], [`facade`] and [`clock`] declare
//! the outside items that the rest calls.

pub mod batch;
pub mod bench;
pub mod bootstrap;
pub mod clock;
pub mod error;
pub mod facade;
pub mod laws;
pub mod logdb;
pub mod row;
pub mod session;
pub mod store;
pub mod text;

pub use crate::batch::BatchState;
pub use crate::bench::{emit_events, test_in_dir, test_path, BenchRun, BENCH_EVENTS};
pub use crate::bootstrap::{bootstrap, setup_logger, LOG_FILE_NAME};
pub use crate::error::{answered, LogError, Stage};
pub use crate::logdb::LogDB;
pub use crate::row::{LogRow, Severity};
