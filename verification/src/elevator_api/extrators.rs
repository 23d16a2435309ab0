//! The parameters of the two kinds of request.

use vstd::prelude::*;

verus! {

/// Parameters of a request to move a door: `status` is true to open it.
#[derive(Debug, Clone, Copy, PartialEq, Eq, Structural)]
pub struct DoorControlQuery {
    pub elevator_id: u8,
    pub status: bool,
}

/// Parameters of a request for an elevator. With a direction it is a call
/// from outside the car on `floor`, without one a selection of `floor` inside.
#[derive(Debug, PartialEq, Eq)]
pub struct RequestQuery {
    pub elevator_id: u8,
    pub floor: u8,
    pub direction: Option<String>,
    pub cancel: Option<bool>,
}

} // verus!
