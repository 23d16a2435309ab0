use elevator_core::components::enums::Direction;
use elevator_core::components::model::Building;
use elevator_core::elevator_api::extrators::{DoorControlQuery, RequestQuery};
use elevator_core::elevator_api::routes::{
    direction_named, door_control, door_control_at, parse_direction, request, request_in,
};
use elevator_core::elevator_api::utils::{fail, map_json_result, JsonResult};
use elevator_core::utils::atomic::AtomicValue;
use elevator_core::{ElevatorAction, ElevatorController};

fn building() -> Building {
    Building::new(4, ElevatorController::new(0, 4, 0, 2))
}

fn query(elevator_id: u8, floor: u8, direction: Option<&str>, cancel: Option<bool>) -> RequestQuery {
    RequestQuery {
        elevator_id,
        floor,
        direction: direction.map(String::from),
        cancel,
    }
}

fn failure(message: &str) -> JsonResult {
    JsonResult::Fail { error: String::from(message) }
}

#[test]
fn direction_words_are_exact() {
    assert_eq!(direction_named("up"), Some(Direction::Up));
    assert_eq!(direction_named("down"), Some(Direction::Down));
    assert_eq!(direction_named("Up"), None);
    assert_eq!(direction_named(" up"), None);
    assert_eq!(direction_named(""), None);
    assert_eq!(direction_named("upward"), None);
}

#[test]
fn directions_are_read_in_any_case_and_with_space_around() {
    assert_eq!(parse_direction("up"), Some(Direction::Up));
    assert_eq!(parse_direction("UP"), Some(Direction::Up));
    assert_eq!(parse_direction(" up "), Some(Direction::Up));
    assert_eq!(parse_direction("\u{a0}down\u{3000}"), Some(Direction::Down));
    assert_eq!(parse_direction("  Down\t\n"), Some(Direction::Down));
    assert_eq!(parse_direction("dOwN"), Some(Direction::Down));
    assert_eq!(parse_direction("u p"), None);
    assert_eq!(parse_direction("sideways"), None);
    assert_eq!(parse_direction(""), None);
}

#[test]
fn results_map_to_answers() {
    assert_eq!(map_json_result(Ok(())), JsonResult::Success);
    assert_eq!(
        map_json_result(Err(String::from("already started"))),
        failure("already started")
    );
    assert_eq!(fail(String::from("x")), failure("x"));
}

#[test]
fn request_with_a_direction_is_a_call_from_outside() {
    let mut building = building();
    assert_eq!(
        request(&mut building, &query(1, 2, Some(" Up "), Some(true))),
        JsonResult::Success
    );
    let elevator = building.get_eleavtor(1).unwrap();
    assert!(elevator.outside_button(2).unwrap().is_up());
    assert!(!elevator.inside_button(2).unwrap().active.val());
    assert_eq!(
        elevator.pending(),
        vec![ElevatorAction::Request { floor: 2, cancel: false }]
    );
    assert!(building.get_eleavtor(0).unwrap().pending().is_empty());
}

#[test]
fn request_without_a_direction_is_a_selection_inside() {
    let mut building = building();
    assert_eq!(
        request(&mut building, &query(0, 3, None, None)),
        JsonResult::Success
    );
    assert_eq!(
        request(&mut building, &query(0, 1, Some("sideways"), Some(true))),
        JsonResult::Success
    );
    let elevator = building.get_eleavtor(0).unwrap();
    assert!(elevator.inside_button(3).unwrap().active.val());
    assert!(elevator.inside_button(1).unwrap().active.val());
    assert!(elevator.outside_button(1).unwrap().is_idle());
    assert_eq!(
        elevator.pending(),
        vec![
            ElevatorAction::Request { floor: 3, cancel: false },
            ElevatorAction::Request { floor: 1, cancel: true },
        ]
    );
}

#[test]
fn failed_requests_answer_with_the_message() {
    let mut building = building();
    assert_eq!(
        request(&mut building, &query(0, 3, Some("up"), None)),
        failure("already max floor")
    );
    assert_eq!(
        request(&mut building, &query(0, 0, Some("DOWN"), None)),
        failure("already min floor")
    );
    assert_eq!(
        request(&mut building, &query(0, 4, Some("down"), None)),
        failure("floor button not exists")
    );
    assert_eq!(
        request(&mut building, &query(2, 1, Some("up"), None)),
        failure("ElevatorControllerError: invalid elevator id")
    );
    assert_eq!(
        request(&mut building, &query(2, 1, None, None)),
        failure("invalid elevator id")
    );
    assert_eq!(
        request(&mut building, &query(0, 4, None, None)),
        failure("ElevatorError: floor button not exists")
    );
    assert_eq!(
        request_in(&mut building, 0, 9, Some(Direction::Up), None),
        failure("floor button not exists")
    );
    assert!(building.get_eleavtor(0).unwrap().pending().is_empty());
    assert!(building.get_eleavtor(1).unwrap().pending().is_empty());
}

#[test]
fn door_requests_open_and_close() {
    let mut building = building();
    let open = DoorControlQuery { elevator_id: 1, status: true };
    let close = DoorControlQuery { elevator_id: 1, status: false };
    assert_eq!(door_control_at(&mut building, &open, 30), JsonResult::Success);
    assert!(building.get_eleavtor(1).unwrap().is_door_open());
    assert_eq!(building.get_eleavtor(1).unwrap().door_last_open(), 30);
    assert_eq!(door_control_at(&mut building, &close, 31), JsonResult::Success);
    assert!(!building.get_eleavtor(1).unwrap().is_door_open());
    assert_eq!(door_control(&mut building, &open), JsonResult::Success);
    assert!(building.get_eleavtor(1).unwrap().is_door_open());
    let unknown = DoorControlQuery { elevator_id: 2, status: true };
    assert_eq!(
        door_control_at(&mut building, &unknown, 0),
        failure("invalid elevator id")
    );
    assert_eq!(
        door_control(&mut building, &unknown),
        failure("invalid elevator id")
    );
}

#[test]
fn door_request_succeeds_though_a_moving_car_does_not_obey() {
    let mut building = building();
    assert_eq!(
        request(&mut building, &query(0, 2, None, None)),
        JsonResult::Success
    );
    assert_eq!(building.controller.tick_elevator(0, 0), Ok(()));
    let open = DoorControlQuery { elevator_id: 0, status: true };
    assert_eq!(door_control_at(&mut building, &open, 5), JsonResult::Success);
    assert!(!building.get_eleavtor(0).unwrap().is_door_open());
}
