//! Fee and compute-budget telemetry for decoded transactions.
//!
//! A transaction is scanned for the instructions that address the
//! compute-budget program; from them the compute-unit limit, the
//! compute-unit price and the resulting fee are derived, and one record
//! line is rendered for the log sink.

pub mod budget;
pub mod estimate;
pub mod laws;
pub mod model;
pub mod program;
pub mod record;
pub mod text;

pub use crate::record::log_tx;
