//! What an elevator is asked to do, and what becomes of its background task.

use crate::components::enums::MovingStatus;
use crate::utils::atomic::{Atomic, AtomicValue, I16};
use vstd::prelude::*;

verus! {

/// A request from a floor panel to reset one of its buttons.
#[derive(Debug, Clone, Copy, PartialEq, Eq, Structural)]
pub enum PanelRequest {
    ResetUpButton,
    ResetDownButton,
}

/// An action queued for an elevator. `cancel` records that the request
/// repeated one that was pending; the elevator serves the floor either way.
#[derive(Debug, Clone, Copy, PartialEq, Eq, Structural)]
pub enum ElevatorAction {
    Request { floor: u8, cancel: bool },
}

impl ElevatorAction {
    /// The floor that the action sends the car to.
    pub open spec fn target(self) -> u8 {
        match self {
            ElevatorAction::Request { floor, cancel } => floor,
        }
    }

    /// The floor that the action sends the car to.
    pub fn floor(&self) -> (floor: u8)
        ensures
            floor == self.target(),
    {
        match self {
            ElevatorAction::Request { floor, cancel: _ } => *floor,
        }
    }
}

/// What the display of a floor panel shows: the floor of the car as the
/// display numbers it, and the direction in which the car moves.
#[derive(Debug)]
pub struct PanelDisplay {
    pub elevator_floor: I16,
    pub elevator_status: Atomic<MovingStatus>,
}

impl Default for PanelDisplay {
    fn default() -> (display: Self)
        ensures
            display.elevator_floor.value() == 0,
            display.elevator_status.value() == MovingStatus::Idle,
    {
        PanelDisplay { elevator_floor: I16::new(0), elevator_status: Atomic::new(MovingStatus::Idle) }
    }
}

/// The background task of an elevator, as far as the elevator knows of it.
#[derive(Debug, Clone, Copy, PartialEq, Eq, Structural)]
pub enum TaskStatus {
    /// The task was spawned and has not ended.
    Running,
    /// The task has ended: it saw the stop signal, or it was aborted.
    Finished,
}

/// What the background loop does after a pass.
#[derive(Debug, Clone, Copy, PartialEq, Eq, Structural)]
pub enum LoopControl {
    /// Sleep for this many milliseconds, then make the next pass.
    Sleep(u64),
    /// End the task.
    Exit,
}

} // verus!
