//! Keeps track of the usages of named objects and estimates how often an
//! object will be used within a time frame.
//!
//! The registry, its usage histories and the decisions of the persistence
//! protocol are verified with Verus; functions of the `chrono` crate are
//! reached through a small number of trusted wrappers, each documented where
//! it stands.

pub mod dates;
pub mod error;
pub mod estimate;
pub mod format;
pub mod listing;
pub mod names;
pub mod operations;
pub mod storage;
pub mod time_frame;
pub mod timestamp;
pub mod usage_information;
pub mod usages;

pub use error::UsageTrackerError;
pub use estimate::UsageEstimate;
pub use format::FileFormat;
pub use timestamp::{Elapsed, Timestamp};
pub use usage_information::UsageInformation;
pub use usages::Usages;
