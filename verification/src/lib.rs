//! Recording engine for a desktop activity monitor.
//!
//! The engine is fed samples of keyboard and pointer, turns every change into
//! a stamped action of the running session, and queues two CSV logs for
//! storage: one row for each session, and one row for each action of the
//! latest session.

pub mod clock;
pub mod detector;
pub mod monitor;
pub mod sink;
pub mod text;
pub mod types;

pub use monitor::ActivityMonitor;
pub use types::{Action, DetailedEvent, Session};
