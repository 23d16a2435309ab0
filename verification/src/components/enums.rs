//! Directions of travel and the door and motion statuses of a car.

use vstd::prelude::*;
use vstd::std_specs::convert::FromSpecImpl;

verus! {

/// The direction of an outside call.
#[derive(Debug, Clone, Copy, PartialEq, Eq, Structural, PartialOrd, Ord)]
pub enum Direction {
    Up,
    Down,
}

/// Whether the doors of a car are closed or open.
#[derive(Debug, Clone, Copy, PartialEq, Eq, Structural, PartialOrd, Ord)]
pub enum DoorStatus {
    Close,
    Open,
}

/// The current direction of travel of a car; `Idle` while it stands still.
#[derive(Debug, Clone, Copy, PartialEq, Eq, Structural, PartialOrd, Ord)]
pub enum MovingStatus {
    Idle,
    Up,
    Down,
}

impl Default for DoorStatus {
    fn default() -> (status: Self)
        ensures
            status == DoorStatus::Close,
    {
        DoorStatus::Close
    }
}

impl Default for MovingStatus {
    fn default() -> (status: Self)
        ensures
            status == MovingStatus::Idle,
    {
        MovingStatus::Idle
    }
}

impl DoorStatus {
    /// The status that a flag stands for: open for `true`, closed for `false`.
    pub open spec fn of(open: bool) -> DoorStatus {
        if open {
            DoorStatus::Open
        } else {
            DoorStatus::Close
        }
    }
}

impl From<bool> for DoorStatus {
    fn from(value: bool) -> (status: Self) {
        if value {
            DoorStatus::Open
        } else {
            DoorStatus::Close
        }
    }
}

impl FromSpecImpl<bool> for DoorStatus {
    open spec fn obeys_from_spec() -> bool {
        true
    }

    open spec fn from_spec(value: bool) -> Self {
        DoorStatus::of(value)
    }
}

} // verus!
