//! A monitor object: one owned value behind a mutual-exclusion lock, paired
//! with a condition variable that is only ever used together with that lock.
//!
//! The blocking work is done by `parking_lot`; this library composes its
//! mutex and condition variable so that every guard handed out carries the
//! condition variable of the monitor it came from.

mod primitives;
pub mod monitor;

pub use monitor::{Monitor, MonitorGuard};
