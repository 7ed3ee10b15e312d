//! The typed records the API's resource endpoints decode to.
//!
//! These are plain data: every field is a value the rest of the library can
//! reason about directly. Timestamps are carried as milliseconds since the
//! Unix epoch; durations the same way.

pub mod builds;
pub mod patch;
pub mod stats;
pub mod task;
pub mod test;
pub mod version;
