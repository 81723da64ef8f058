//! Estimates the throughput and the remaining time of a long-running
//! operation from periodic progress reports.
//!
//! The tracker keeps a short window of timestamped progress samples. Time
//! comes from a caller-supplied [`GetTimestamp`] source, in a unit of the
//! caller's choosing.

pub mod binary64;
pub mod context;
pub mod history;
pub mod laws;
pub mod numeric;
pub mod state;
pub mod timer;

pub use binary64::Binary64;
pub use context::TimeContext;
pub use history::{History, Sample, WINDOW};
pub use state::{SpeedTerm, State, Update};
pub use timer::{GetTimestamp, TestTimer};
