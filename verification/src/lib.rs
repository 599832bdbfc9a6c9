//! A wall-clock estimate kept in step with remote time servers.
//!
//! The crate holds the decisions of a synchronized clock: how a server's reply
//! becomes a time sample, how a sample is folded into the clock's anchor, how
//! the clock extrapolates between samples along a monotonic reading, and how
//! the periodic refresh loop reacts to a shutdown request. Network exchanges,
//! threads and sleeping are left to the caller.

pub mod time;
pub mod stats;
pub mod wire;
pub mod refresh;
pub mod clock;


pub use crate::clock::Clock;
pub use crate::stats::{Percent, SyncStats};
pub use crate::time::{default_time, Monotonic, Span, Timestamp};
