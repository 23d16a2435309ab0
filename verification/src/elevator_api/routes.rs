//! The two requests that change the building: one for an elevator, one for a
//! door.

use crate::action::ElevatorAction;
use crate::components::enums::{Direction, DoorStatus};
use crate::components::error::{BuildingError, ElevatorControllerError};
use crate::components::model::Building;
use crate::controller::FleetState;
use crate::elevator_api::extrators::{DoorControlQuery, RequestQuery};
use crate::elevator_api::utils::{fail, map_json_result, JsonResult, Reply};
use crate::utils::common::timestamp;
use vstd::prelude::*;
use vstd::string::StringExecFns;

verus! {

/// What `str::to_lowercase` makes of a text.
pub uninterp spec fn lowercase(text: Seq<char>) -> Seq<char>;

/// What `str::trim` leaves of a text.
pub uninterp spec fn trimmed(text: Seq<char>) -> Seq<char>;

/// `str::to_lowercase` gives the text in lower case, by the Unicode rules
/// for lower case; the result is a function of the text alone.
pub assume_specification[ str::to_lowercase ](text: &str) -> (lowered: String)
    ensures
        lowered@ == lowercase(text@),
;

/// `str::trim` gives the text without the white space at its two ends, by
/// the Unicode property of white space; the result is a function of the text
/// alone.
pub assume_specification<'a>[ str::trim ](text: &'a str) -> (core: &'a str)
    ensures
        core@ == trimmed(text@),
;

/// The direction that a word names: `up` or `down`, and no other.
pub open spec fn direction_of(word: Seq<char>) -> Option<Direction> {
    if word == "up"@ {
        Some(Direction::Up)
    } else if word == "down"@ {
        Some(Direction::Down)
    } else {
        None
    }
}

/// The direction that a parameter names, if it is there and names one: its
/// text is taken in lower case and without white space at its ends.
pub open spec fn direction_in(parameter: Option<String>) -> Option<Direction> {
    match parameter {
        Some(text) => direction_of(trimmed(lowercase(text@))),
        None => None,
    }
}

/// The direction that `word` names, if it is `up` or `down` exactly.
pub fn direction_named(word: &str) -> (direction: Option<Direction>)
    ensures
        direction == direction_of(word@),
{
    let owned = word.to_owned();
    if owned == String::from_str("up") {
        Some(Direction::Up)
    } else if owned == String::from_str("down") {
        Some(Direction::Down)
    } else {
        None
    }
}

/// The direction that `text` names once it is in lower case and without
/// white space at its ends.
pub fn parse_direction(text: &str) -> (direction: Option<Direction>)
    ensures
        direction == direction_of(trimmed(lowercase(text@))),
{
    let lowered = text.to_lowercase();
    direction_named(lowered.as_str().trim())
}

/// The request that a selection inside the car queues.
pub open spec fn selection(floor: u8, cancel: Option<bool>) -> ElevatorAction {
    ElevatorAction::Request {
        floor,
        cancel: match cancel {
            Some(cancel) => cancel,
            None => false,
        },
    }
}

/// The answer to a request for an elevator, given the direction that it
/// names, if any.
pub open spec fn request_reply(
    fleet: FleetState,
    elevator_id: u8,
    floor: u8,
    direction: Option<Direction>,
    cancel: Option<bool>,
) -> Reply {
    match direction {
        Some(direction) => if !fleet.has(elevator_id) {
            Reply::Fail(
                BuildingError::ElevatorControllerError(
                    ElevatorControllerError::GetElevatorError,
                ).message_spec(),
            )
        } else {
            match fleet.elevators[elevator_id as int].call_outcome(floor, direction) {
                Ok(()) => Reply::Success,
                Err(refused) => Reply::Fail(refused.message_spec()),
            }
        },
        None => match fleet.request_outcome(elevator_id, selection(floor, cancel)) {
            Ok(()) => Reply::Success,
            Err(refused) => Reply::Fail(refused.message_spec()),
        },
    }
}

/// The fleet after a request for an elevator.
pub open spec fn after_request(
    fleet: FleetState,
    elevator_id: u8,
    floor: u8,
    direction: Option<Direction>,
    cancel: Option<bool>,
) -> FleetState {
    match direction {
        Some(direction) => fleet.after_call(elevator_id, floor, direction),
        None => fleet.after_request(elevator_id, selection(floor, cancel)),
    }
}

/// Serves a request for an elevator. With a direction it is a call from
/// outside the car; without one, or with a text that names none, it is a
/// selection inside the car. A request that fails changes nothing.
pub fn request(building: &mut Building, query: &RequestQuery) -> (answer: JsonResult)
    requires
        old(building).wf(),
    ensures
        final(building).wf(),
        final(building).floors == old(building).floors,
        answer@ == request_reply(
            old(building).controller@,
            query.elevator_id,
            query.floor,
            direction_in(query.direction),
            query.cancel,
        ),
        final(building).controller@ == after_request(
            old(building).controller@,
            query.elevator_id,
            query.floor,
            direction_in(query.direction),
            query.cancel,
        ),
{
    let direction = match &query.direction {
        Some(text) => parse_direction(text.as_str()),
        None => None,
    };
    request_in(building, query.elevator_id, query.floor, direction, query.cancel)
}

/// Serves a request for an elevator whose direction was read already.
pub fn request_in(
    building: &mut Building,
    elevator_id: u8,
    floor: u8,
    direction: Option<Direction>,
    cancel: Option<bool>,
) -> (answer: JsonResult)
    requires
        old(building).wf(),
    ensures
        final(building).wf(),
        final(building).floors == old(building).floors,
        answer@ == request_reply(old(building).controller@, elevator_id, floor, direction, cancel),
        final(building).controller@ == after_request(
            old(building).controller@,
            elevator_id,
            floor,
            direction,
            cancel,
        ),
{
    match direction {
        Some(direction) => {
            match building.controller.call_elevator(elevator_id, floor, direction) {
                Ok(()) => JsonResult::Success,
                Err(ElevatorControllerError::GetElevatorError) => fail(
                    BuildingError::ElevatorControllerError(
                        ElevatorControllerError::GetElevatorError,
                    ).message(),
                ),
                Err(ElevatorControllerError::ElevatorError(refused)) => fail(refused.message()),
            }
        },
        None => {
            let action = ElevatorAction::Request {
                floor,
                cancel: match cancel {
                    Some(cancel) => cancel,
                    None => false,
                },
            };
            match building.controller.request_elevator(elevator_id, action) {
                Ok(()) => JsonResult::Success,
                Err(refused) => fail(refused.message()),
            }
        },
    }
}

/// The answer to a request to move the door of elevator `elevator_id`.
pub open spec fn door_reply(fleet: FleetState, elevator_id: u8) -> Reply {
    if fleet.has(elevator_id) {
        Reply::Success
    } else {
        Reply::Fail(ElevatorControllerError::GetElevatorError.message_spec())
    }
}

/// Serves a request to move a door, at time `now`: the door is told to open
/// where `status` is true and to close where it is false. It fails where
/// the fleet has no such elevator, and succeeds otherwise, whether or not
/// the door obeys.
pub fn door_control_at(building: &mut Building, query: &DoorControlQuery, now: u64) -> (answer:
    JsonResult)
    requires
        old(building).wf(),
    ensures
        final(building).wf(),
        final(building).floors == old(building).floors,
        answer@ == door_reply(old(building).controller@, query.elevator_id),
        final(building).controller@ == old(building).controller@.after_door_control(
            query.elevator_id,
            DoorStatus::of(query.status),
            now,
        ),
{
    let status = DoorStatus::from(query.status);
    match building.controller.door_control_at(query.elevator_id, status, now) {
        Ok(()) => map_json_result(Ok(())),
        Err(refused) => map_json_result(Err(refused.message())),
    }
}

/// Serves a request to move a door, at the time that the clock shows.
pub fn door_control(building: &mut Building, query: &DoorControlQuery) -> (answer: JsonResult)
    requires
        old(building).wf(),
    ensures
        final(building).wf(),
        final(building).floors == old(building).floors,
        answer@ == door_reply(old(building).controller@, query.elevator_id),
        exists|now: u64|
            final(building).controller@ == old(building).controller@.after_door_control(
                query.elevator_id,
                DoorStatus::of(query.status),
                now,
            ),
{
    let now: u64 = timestamp();
    door_control_at(building, query, now)
}

} // verus!
