//! Shared vocabulary of the simulation: directions, statuses and errors, and
//! the building with its floors.

pub mod enums;
pub mod error;
pub mod model;
