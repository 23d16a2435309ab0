use elevator_core::components::enums::{Direction, DoorStatus};
use elevator_core::components::error::{
    BuildingError, ElevatorControllerError, ElevatorError, FloorError,
};
use elevator_core::components::model::{Building, Floor};
use elevator_core::utils::atomic::AtomicValue;
use elevator_core::{ElevatorAction, ElevatorController, LoopControl, TaskStatus};

const DISPLAY_OFFSET: i16 = 1;
const NUM_FLOORS: u8 = 10;
const INIT_FLOOR: u8 = 0;
const NUM_ELEVATORS: u8 = 2;

#[test]
fn test_1() {
    let controller = ElevatorController::new(DISPLAY_OFFSET, NUM_FLOORS, INIT_FLOOR, NUM_ELEVATORS);
    let mut building = Building::new(NUM_FLOORS, controller);
    assert_eq!(building.floors.len(), 10);
    assert_eq!(building.controller.num_elevators(), 2);

    building.controller.start_all_elevators();

    let floor_0 = *building.get_floor(0).unwrap();
    let floor_1 = *building.get_floor(1).unwrap();
    assert_eq!(floor_1.id, 1);
    let elevator_1 = building.controller.get_elevator(0).unwrap();
    assert_eq!(elevator_1.id(), 0);

    assert!(floor_0
        .call_elevator(&mut building.controller, 0, Direction::Down)
        .is_err());
    assert!(!floor_0
        .get_outside_button(&building.controller, 0)
        .unwrap()
        .is_down());

    floor_0
        .call_elevator(&mut building.controller, 0, Direction::Up)
        .unwrap();
    assert!(floor_0
        .get_outside_button(&building.controller, 0)
        .unwrap()
        .is_up());
}

#[test]
fn controller_numbers_its_elevators_from_zero() {
    let controller = ElevatorController::new(-3, 4, 2, 3);
    assert_eq!(controller.display_offset(), -3);
    assert_eq!(controller.num_elevators(), 3);
    for id in 0..3u8 {
        let elevator = controller.get_elevator(id).unwrap();
        assert_eq!(elevator.id(), id);
        assert_eq!(elevator.top_floor(), 3);
        assert_eq!(elevator.floor(), 2);
    }
    assert_eq!(
        controller.get_elevator(3).err(),
        Some(ElevatorControllerError::GetElevatorError)
    );
    let empty = ElevatorController::new(0, 1, 0, 0);
    assert_eq!(
        empty.get_elevator(0).err(),
        Some(ElevatorControllerError::GetElevatorError)
    );
}

#[test]
fn controller_finds_outside_buttons() {
    let controller = ElevatorController::new(0, 4, 0, 1);
    let button = controller.get_outside_button(0, 3).unwrap();
    assert_eq!(button.floor.val(), 3);
    assert_eq!(button.top_floor.val(), 3);
    assert_eq!(
        controller.get_outside_button(1, 0).err(),
        Some(ElevatorControllerError::GetElevatorError)
    );
    assert_eq!(
        controller.get_outside_button(0, 4).err(),
        Some(ElevatorControllerError::ElevatorError(
            ElevatorError::FloorButtonNotExists
        ))
    );
}

#[test]
fn request_elevator_reaches_the_named_elevator_only() {
    let mut controller = ElevatorController::new(0, 4, 0, 2);
    let action = ElevatorAction::Request { floor: 2, cancel: false };
    assert_eq!(controller.request_elevator(1, action), Ok(()));
    assert!(controller.get_elevator(1).unwrap().inside_button(2).unwrap().active.val());
    assert_eq!(controller.get_elevator(1).unwrap().pending(), vec![action]);
    assert!(controller.get_elevator(0).unwrap().pending().is_empty());
    assert!(!controller.get_elevator(0).unwrap().inside_button(2).unwrap().active.val());
    assert_eq!(
        controller.request_elevator(2, action),
        Err(ElevatorControllerError::GetElevatorError)
    );
    assert_eq!(
        controller.request_elevator(0, ElevatorAction::Request { floor: 4, cancel: false }),
        Err(ElevatorControllerError::ElevatorError(
            ElevatorError::FloorButtonNotExists
        ))
    );
    assert!(controller.get_elevator(0).unwrap().pending().is_empty());
}

#[test]
fn call_elevator_reports_what_the_elevator_refuses() {
    let mut controller = ElevatorController::new(0, 4, 0, 1);
    assert_eq!(controller.call_elevator(0, 1, Direction::Up), Ok(()));
    assert_eq!(
        controller.call_elevator(0, 3, Direction::Up),
        Err(ElevatorControllerError::ElevatorError(
            ElevatorError::AlreadyMaxFloor
        ))
    );
    assert_eq!(
        controller.call_elevator(0, 0, Direction::Down),
        Err(ElevatorControllerError::ElevatorError(
            ElevatorError::AlreadyMinFloor
        ))
    );
    assert_eq!(
        controller.call_elevator(5, 1, Direction::Up),
        Err(ElevatorControllerError::GetElevatorError)
    );
}

#[test]
fn controller_moves_doors_by_id() {
    let mut controller = ElevatorController::new(0, 4, 0, 2);
    assert_eq!(controller.door_control_at(1, DoorStatus::Open, 55), Ok(()));
    assert!(controller.get_elevator(1).unwrap().is_door_open());
    assert_eq!(controller.get_elevator(1).unwrap().door_last_open(), 55);
    assert!(!controller.get_elevator(0).unwrap().is_door_open());
    assert_eq!(
        controller.door_control_at(2, DoorStatus::Open, 55),
        Err(ElevatorControllerError::GetElevatorError)
    );
    assert_eq!(controller.door_control(0, DoorStatus::Open), Ok(()));
    assert!(controller.get_elevator(0).unwrap().is_door_open());
    assert_eq!(
        controller.door_control(9, DoorStatus::Close),
        Err(ElevatorControllerError::GetElevatorError)
    );
}

#[test]
fn fleet_starts_runs_and_stops() {
    let mut controller = ElevatorController::new(0, 3, 0, 2);
    assert_eq!(controller.cycle_elevator(0), LoopControl::Exit);
    controller.start_all_elevators();
    assert!(controller.get_elevator(0).unwrap().is_started());
    assert!(controller.get_elevator(1).unwrap().is_started());
    assert_eq!(controller.call_elevator(1, 2, Direction::Down), Ok(()));
    let mut passes = 0;
    while controller.get_elevator(1).unwrap().floor() != 2
        || !controller.get_elevator(1).unwrap().is_door_open()
    {
        assert_eq!(controller.cycle_elevator(1), LoopControl::Sleep(20));
        passes += 1;
        assert!(passes < 1000);
    }
    assert_eq!(passes, 63);
    assert_eq!(controller.get_elevator(0).unwrap().floor(), 0);
    assert_eq!(controller.cycle_elevator(7), LoopControl::Exit);
    controller.stop_all_elevators();
    assert_eq!(controller.cycle_elevator(0), LoopControl::Exit);
    assert_eq!(controller.cycle_elevator(1), LoopControl::Exit);
    assert!(!controller.get_elevator(0).unwrap().is_started());
    assert!(!controller.get_elevator(1).unwrap().is_started());
    controller.start_all_elevators();
    assert!(controller.get_elevator(0).unwrap().is_started());
}

#[test]
fn tick_elevator_makes_one_pass_on_the_named_elevator() {
    let mut controller = ElevatorController::new(0, 3, 0, 2);
    assert_eq!(controller.call_elevator(0, 1, Direction::Up), Ok(()));
    assert_eq!(controller.call_elevator(1, 1, Direction::Up), Ok(()));
    assert_eq!(controller.tick_elevator(0, 0), Ok(()));
    assert!(controller.get_elevator(0).unwrap().is_moving_up());
    assert!(controller.get_elevator(1).unwrap().is_idle());
    assert_eq!(
        controller.tick_elevator(2, 0),
        Err(ElevatorControllerError::GetElevatorError)
    );
}

#[test]
fn building_finds_floors_and_elevators() {
    let building = Building::new(3, ElevatorController::new(0, 3, 0, 1));
    assert_eq!(building.get_floor(2).unwrap().id, 2);
    assert_eq!(
        building.get_floor(3).err(),
        Some(BuildingError::GetFloorError)
    );
    assert_eq!(building.get_eleavtor(0).unwrap().id(), 0);
    assert_eq!(
        building.get_eleavtor(1).err(),
        Some(BuildingError::ElevatorControllerError(
            ElevatorControllerError::GetElevatorError
        ))
    );
}

#[test]
fn floor_calls_report_floor_errors() {
    let mut controller = ElevatorController::new(0, 3, 0, 1);
    let top = Floor::new(2);
    assert_eq!(
        top.call_elevator(&mut controller, 0, Direction::Up),
        Err(FloorError::ElevatorError(ElevatorError::AlreadyMaxFloor))
    );
    assert_eq!(
        top.call_elevator(&mut controller, 1, Direction::Down),
        Err(FloorError::ElevatorControllerError(
            ElevatorControllerError::GetElevatorError
        ))
    );
    let beyond = Floor::new(3);
    assert_eq!(
        beyond.call_elevator(&mut controller, 0, Direction::Down),
        Err(FloorError::ElevatorError(ElevatorError::FloorButtonNotExists))
    );
    assert_eq!(
        beyond.get_outside_button(&controller, 0).err(),
        Some(FloorError::ElevatorControllerError(
            ElevatorControllerError::ElevatorError(ElevatorError::FloorButtonNotExists)
        ))
    );
    assert_eq!(
        top.get_outside_button(&controller, 4).err(),
        Some(FloorError::ElevatorControllerError(
            ElevatorControllerError::GetElevatorError
        ))
    );
    assert_eq!(top.call_elevator(&mut controller, 0, Direction::Down), Ok(()));
    assert!(top.get_outside_button(&controller, 0).unwrap().is_down());
}

#[test]
fn lists_of_buttons_and_elevators_are_in_order() {
    let mut controller = ElevatorController::new(0, 3, 1, 2);
    assert_eq!(controller.call_elevator(1, 2, Direction::Down), Ok(()));
    let elevators = controller.elevators();
    assert_eq!(elevators.len(), 2);
    assert_eq!(elevators[0].id(), 0);
    assert_eq!(elevators[1].id(), 1);
    let outside = elevators[1].outside_buttons();
    assert_eq!(outside.len(), 3);
    assert_eq!(outside[2].floor.val(), 2);
    assert!(outside[2].is_down());
    assert!(outside[1].is_idle());
    let inside = elevators[1].inside_buttons();
    assert_eq!(inside.len(), 3);
    assert_eq!(inside[0].floor.val(), 0);
    assert!(!inside[2].active.val());
}

#[test]
fn start_all_starts_the_rest_beside_one_that_runs() {
    let mut controller = ElevatorController::new(0, 3, 0, 3);
    assert_eq!(controller.start_elevator(1), Ok(()));
    assert_eq!(controller.call_elevator(1, 1, Direction::Up), Ok(()));
    assert_eq!(controller.cycle_elevator(1), LoopControl::Sleep(20));
    controller.start_all_elevators();
    for id in 0..3u8 {
        assert!(controller.get_elevator(id).unwrap().is_started());
    }
    assert!(controller.get_elevator(1).unwrap().is_moving_up());
    controller.start_all_elevators();
    assert!(controller.get_elevator(2).unwrap().is_started());
}

#[test]
fn stop_all_stops_the_rest_beside_one_never_started() {
    let mut controller = ElevatorController::new(0, 3, 0, 3);
    controller.stop_all_elevators();
    assert!(controller.get_elevator(0).unwrap().signal().is_none());
    assert_eq!(controller.start_elevator(0), Ok(()));
    assert_eq!(controller.start_elevator(2), Ok(()));
    controller.stop_all_elevators();
    assert!(controller.get_elevator(1).unwrap().signal().is_none());
    assert_eq!(controller.cycle_elevator(0), LoopControl::Exit);
    assert_eq!(controller.cycle_elevator(2), LoopControl::Exit);
    assert!(!controller.get_elevator(0).unwrap().is_started());
    assert!(!controller.get_elevator(2).unwrap().is_started());
}

#[test]
fn one_elevator_of_the_fleet_starts_stops_and_aborts() {
    let mut controller = ElevatorController::new(0, 3, 0, 2);
    assert_eq!(
        controller.stop_elevator(0),
        Err(ElevatorControllerError::ElevatorError(
            ElevatorError::SignalNotExists
        ))
    );
    assert_eq!(controller.start_elevator(0), Ok(()));
    assert!(controller.get_elevator(0).unwrap().is_started());
    assert!(!controller.get_elevator(1).unwrap().is_started());
    assert_eq!(
        controller.start_elevator(0),
        Err(ElevatorControllerError::ElevatorError(
            ElevatorError::AlreadyStarted
        ))
    );
    assert_eq!(controller.stop_elevator(0), Ok(()));
    assert_eq!(controller.cycle_elevator(0), LoopControl::Exit);
    assert_eq!(controller.start_elevator(0), Ok(()));
    assert_eq!(controller.abort_elevator(0), Ok(()));
    assert_eq!(
        controller.get_elevator(0).unwrap().handle(),
        Some(TaskStatus::Finished)
    );
    assert_eq!(controller.abort_elevator(1), Ok(()));
    assert_eq!(controller.get_elevator(1).unwrap().handle(), None);
    for id in [2u8, 255u8] {
        assert_eq!(
            controller.start_elevator(id),
            Err(ElevatorControllerError::GetElevatorError)
        );
        assert_eq!(
            controller.stop_elevator(id),
            Err(ElevatorControllerError::GetElevatorError)
        );
        assert_eq!(
            controller.abort_elevator(id),
            Err(ElevatorControllerError::GetElevatorError)
        );
    }
}

#[test]
fn submit_elevator_queues_without_touching_a_button() {
    let mut controller = ElevatorController::new(0, 3, 0, 2);
    let action = ElevatorAction::Request { floor: 2, cancel: true };
    assert_eq!(controller.submit_elevator(1, action), Ok(()));
    assert_eq!(controller.get_elevator(1).unwrap().pending(), vec![action]);
    assert!(!controller.get_elevator(1).unwrap().inside_button(2).unwrap().active.val());
    assert!(controller.get_elevator(0).unwrap().pending().is_empty());
    assert_eq!(
        controller.submit_elevator(2, action),
        Err(ElevatorControllerError::GetElevatorError)
    );
}

#[test]
fn controller_for_no_floors_builds_one_floor() {
    let controller = ElevatorController::new(0, 0, 7, 2);
    for id in 0..2u8 {
        let elevator = controller.get_elevator(id).unwrap();
        assert_eq!(elevator.top_floor(), 0);
        assert_eq!(elevator.floor(), 0);
        assert_eq!(elevator.outside_buttons().len(), 1);
    }
    let above = ElevatorController::new(0, 4, 9, 1);
    assert_eq!(above.get_elevator(0).unwrap().floor(), 3);
}
