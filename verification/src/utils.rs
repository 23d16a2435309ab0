//! Building blocks: value cells, the clock, fixed durations and the stop signal.

pub mod atomic;
pub mod common;
pub mod constants;
pub mod notify;
