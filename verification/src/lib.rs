//! A multi-elevator building simulation: per-floor call buttons, elevators that
//! queue and service requests, and a controller that owns the fleet.
//!
//! An elevator is a state machine. Its state is a plain mathematical value,
//! [`ElevatorState`], and every operation, as well as every pass of its
//! background loop, is a function from state to state; the contracts of
//! [`Elevator`] say that the executable code computes exactly these functions,
//! and the laws of the machine are proved of them.
//!
//! The library owns no task and no clock of its own beyond reading the time.
//! Whoever runs an elevator calls [`Elevator::start`], then makes the turns of
//! the loop with [`Elevator::cycle`], sleeping as each turn says, until a turn
//! says to end. To share a building between tasks, put it behind a lock.

pub mod action;
pub mod button;
pub mod components;
pub mod controller;
pub mod elevator;
pub mod elevator_api;
pub mod laws;
pub mod machine;
pub mod utils;

pub use action::{ElevatorAction, LoopControl, PanelDisplay, PanelRequest, TaskStatus};
pub use button::{CheckFloor, InSideButton, OutSideButton};
pub use controller::{ElevatorController, FleetState};
pub use elevator::Elevator;
pub use machine::ElevatorState;
