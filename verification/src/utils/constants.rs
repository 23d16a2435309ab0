//! Fixed durations of the simulation.

use vstd::prelude::*;

verus! {

/// Seconds after which an open door is closed again.
pub const MAX_DOOR_OPEN_SECS: u64 = 5;

/// Milliseconds between two passes of an elevator's background loop.
pub const ELEVATOR_SELF_CHECK_MS: u64 = 20;

/// Milliseconds of travel after which a moving car has passed one floor.
pub const FLOOR_TRAVEL_MS: u64 = 600;

} // verus!
