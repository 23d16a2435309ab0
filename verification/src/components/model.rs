//! The building: its floors, from which elevators are called, and the
//! controller of its elevators.

use crate::button::OutSideButton;
use crate::components::enums::Direction;
use crate::components::error::{
    BuildingError, ElevatorControllerError, ElevatorError, FloorError,
};
use crate::controller::{ElevatorController, FleetState};
use crate::elevator::Elevator;
use crate::utils::atomic::AtomicValue;
use vstd::prelude::*;

verus! {

/// One floor of the building.
#[derive(Debug, Clone, Copy, PartialEq, Eq, Structural)]
pub struct Floor {
    pub id: u8,
}

impl Floor {
    /// The floor `id`.
    pub fn new(id: u8) -> (floor: Self)
        ensures
            floor.id == id,
    {
        Floor { id }
    }

    /// What a call from this floor for elevator `elevator_id` answers.
    pub open spec fn call_outcome(self, fleet: FleetState, elevator_id: u8, direction: Direction)
        -> Result<(), FloorError> {
        match fleet.call_outcome(elevator_id, self.id, direction) {
            Ok(()) => Ok(()),
            Err(ElevatorControllerError::GetElevatorError) => Err(
                FloorError::ElevatorControllerError(ElevatorControllerError::GetElevatorError),
            ),
            Err(ElevatorControllerError::ElevatorError(refused)) => Err(
                FloorError::ElevatorError(refused),
            ),
        }
    }

    /// Calls elevator `elevator_id` to this floor, to travel in `direction`.
    /// The call is refused where the fleet has no such elevator, or where
    /// that elevator refuses it, and then nothing changes.
    pub fn call_elevator(
        &self,
        controller: &mut ElevatorController,
        elevator_id: u8,
        direction: Direction,
    ) -> (outcome: Result<(), FloorError>)
        requires
            old(controller).wf(),
        ensures
            final(controller).wf(),
            outcome == self.call_outcome(old(controller)@, elevator_id, direction),
            final(controller)@ == old(controller)@.after_call(elevator_id, self.id, direction),
    {
        match controller.call_elevator(elevator_id, self.id, direction) {
            Ok(()) => Ok(()),
            Err(ElevatorControllerError::GetElevatorError) => Err(
                FloorError::ElevatorControllerError(ElevatorControllerError::GetElevatorError),
            ),
            Err(ElevatorControllerError::ElevatorError(refused)) => Err(
                FloorError::ElevatorError(refused),
            ),
        }
    }

    /// The buttons of elevator `elevator_id` on this floor, if the fleet has
    /// the elevator and its building this floor.
    pub fn get_outside_button<'a>(&self, controller: &'a ElevatorController, elevator_id: u8) -> (found:
        Result<&'a OutSideButton, FloorError>)
        requires
            controller.wf(),
        ensures
            found is Ok <==> controller@.has(elevator_id) && self.id
                <= controller@.elevators[elevator_id as int].top_floor,
            found is Ok ==> {
                let button = found->Ok_0;
                let elevator = controller@.elevators[elevator_id as int];
                &&& button.floor.value() == self.id
                &&& button.top_floor.value() == elevator.top_floor
                &&& button.up.value() == elevator.up[self.id as int]
                &&& button.down.value() == elevator.down[self.id as int]
            },
            !controller@.has(elevator_id) ==> found == Err::<&OutSideButton, FloorError>(
                FloorError::ElevatorControllerError(ElevatorControllerError::GetElevatorError),
            ),
            controller@.has(elevator_id) && self.id
                > controller@.elevators[elevator_id as int].top_floor ==> found == Err::<
                &OutSideButton,
                FloorError,
            >(
                FloorError::ElevatorControllerError(
                    ElevatorControllerError::ElevatorError(ElevatorError::FloorButtonNotExists),
                ),
            ),
    {
        match controller.get_outside_button(elevator_id, self.id) {
            Ok(button) => Ok(button),
            Err(refused) => Err(FloorError::ElevatorControllerError(refused)),
        }
    }
}

/// A building: its floors by id, and the controller of its elevators.
#[derive(Debug)]
pub struct Building {
    pub floors: Vec<Floor>,
    pub controller: ElevatorController,
}

impl Building {
    /// The building is well formed: its floors are numbered from 0 up, and
    /// its controller is well formed.
    pub open spec fn wf(&self) -> bool {
        &&& self.floors@.len() <= 255
        &&& forall|i: int| 0 <= i < self.floors@.len() ==> (#[trigger] self.floors@[i]).id == i
        &&& self.controller.wf()
    }

    /// A building of `num_floors` floors around `controller`.
    pub fn new(num_floors: u8, controller: ElevatorController) -> (building: Self)
        requires
            controller.wf(),
        ensures
            building.wf(),
            building.floors@.len() == num_floors,
            building.controller == controller,
    {
        let mut floors: Vec<Floor> = Vec::new();
        let mut id: u8 = 0;
        while id < num_floors
            invariant
                id <= num_floors,
                floors@.len() == id,
                forall|i: int| 0 <= i < id ==> (#[trigger] floors@[i]).id == i,
            decreases num_floors - id,
        {
            floors.push(Floor::new(id));
            id = id + 1;
        }
        Building { floors, controller }
    }

    /// The floor `floor`, if the building has it.
    pub fn get_floor(&self, floor: u8) -> (found: Result<&Floor, BuildingError>)
        requires
            self.wf(),
        ensures
            floor < self.floors@.len() ==> found == Ok::<&Floor, BuildingError>(
                &self.floors@[floor as int],
            ) && self.floors@[floor as int].id == floor,
            floor >= self.floors@.len() ==> found == Err::<&Floor, BuildingError>(
                BuildingError::GetFloorError,
            ),
    {
        if floor as usize >= self.floors.len() {
            return Err(BuildingError::GetFloorError);
        }
        Ok(&self.floors[floor as usize])
    }

    /// The elevator `elevator_id`, if the building has it.
    pub fn get_eleavtor(&self, elevator_id: u8) -> (found: Result<&Elevator, BuildingError>)
        requires
            self.wf(),
        ensures
            !self.controller@.has(elevator_id) ==> found == Err::<&Elevator, BuildingError>(
                BuildingError::ElevatorControllerError(ElevatorControllerError::GetElevatorError),
            ),
            self.controller@.has(elevator_id) ==> found is Ok && {
                let elevator = found->Ok_0;
                &&& elevator.wf()
                &&& elevator@ == self.controller@.elevators[elevator_id as int]
            },
    {
        match self.controller.get_elevator(elevator_id) {
            Ok(elevator) => Ok(elevator),
            Err(unknown) => Err(BuildingError::ElevatorControllerError(unknown)),
        }
    }
}

} // verus!
