use elevator_core::components::enums::{Direction, DoorStatus, MovingStatus};
use elevator_core::components::error::ElevatorError;
use elevator_core::utils::atomic::AtomicValue;
use elevator_core::utils::constants::{
    ELEVATOR_SELF_CHECK_MS, FLOOR_TRAVEL_MS, MAX_DOOR_OPEN_SECS,
};
use elevator_core::utils::notify::Wait;
use elevator_core::{CheckFloor, Elevator, ElevatorAction, LoopControl, TaskStatus};

fn request(floor: u8, cancel: bool) -> ElevatorAction {
    ElevatorAction::Request { floor, cancel }
}

#[test]
fn new_elevator_is_idle_and_closed() {
    let elevator = Elevator::new(7, 4, 2);
    assert_eq!(elevator.id(), 7);
    assert_eq!(elevator.top_floor(), 3);
    assert_eq!(elevator.floor(), 2);
    assert_eq!(elevator.moving_status(), MovingStatus::Idle);
    assert_eq!(elevator.door_status(), DoorStatus::Close);
    assert_eq!(elevator.door_last_open(), 0);
    assert_eq!(elevator.current_action(), None);
    assert!(elevator.pending().is_empty());
    assert!(elevator.is_idle());
    assert!(!elevator.is_moving_up());
    assert!(!elevator.is_moving_down());
    assert!(!elevator.is_door_open());
    assert!(!elevator.is_started());
    assert!(!elevator.is_min_floor());
    assert!(!elevator.is_max_floor());
    assert_eq!(elevator.handle(), None);
    assert!(elevator.signal().is_none());
    for floor in 0..4u8 {
        let outside = elevator.outside_button(floor).unwrap();
        assert_eq!(outside.floor.val(), floor);
        assert_eq!(outside.top_floor.val(), 3);
        assert!(outside.is_idle());
        let inside = elevator.inside_button(floor).unwrap();
        assert_eq!(inside.floor.val(), floor);
        assert!(!inside.active.val());
    }
}

#[test]
fn single_floor_building_is_both_ends() {
    let mut elevator = Elevator::new(0, 1, 0);
    assert!(elevator.is_min_floor());
    assert!(elevator.is_max_floor());
    assert_eq!(elevator.call(0, Direction::Up), Err(ElevatorError::AlreadyMaxFloor));
    assert_eq!(elevator.call(0, Direction::Down), Err(ElevatorError::AlreadyMinFloor));
    assert!(elevator.pending().is_empty());
}

#[test]
fn buttons_beyond_the_top_floor_do_not_exist() {
    let elevator = Elevator::new(0, 3, 0);
    assert_eq!(
        elevator.outside_button(3).err(),
        Some(ElevatorError::FloorButtonNotExists)
    );
    assert_eq!(
        elevator.inside_button(255).err(),
        Some(ElevatorError::FloorButtonNotExists)
    );
}

#[test]
fn call_up_sets_flag_and_second_call_takes_it_back() {
    for floor in 0..4u8 {
        let mut elevator = Elevator::new(0, 5, 0);
        assert_eq!(elevator.call(floor, Direction::Up), Ok(()));
        assert!(elevator.outside_button(floor).unwrap().is_up());
        assert!(!elevator.outside_button(floor).unwrap().is_down());
        assert_eq!(elevator.pending(), vec![request(floor, false)]);
        assert_eq!(elevator.call(floor, Direction::Up), Ok(()));
        assert!(!elevator.outside_button(floor).unwrap().is_up());
        assert_eq!(
            elevator.pending(),
            vec![request(floor, false), request(floor, true)]
        );
        assert_eq!(elevator.call(floor, Direction::Up), Ok(()));
        assert!(elevator.outside_button(floor).unwrap().is_up());
        assert_eq!(elevator.pending().len(), 3);
        assert_eq!(elevator.pending()[2], request(floor, false));
    }
}

#[test]
fn call_down_sets_flag_and_second_call_takes_it_back() {
    let mut elevator = Elevator::new(0, 5, 0);
    assert_eq!(elevator.call(4, Direction::Down), Ok(()));
    assert!(elevator.outside_button(4).unwrap().is_down());
    assert!(!elevator.outside_button(4).unwrap().is_up());
    assert_eq!(elevator.call(4, Direction::Down), Ok(()));
    assert!(!elevator.outside_button(4).unwrap().is_down());
    assert_eq!(
        elevator.pending(),
        vec![request(4, false), request(4, true)]
    );
}

#[test]
fn call_at_the_ends_fails_and_changes_nothing() {
    let mut elevator = Elevator::new(0, 3, 1);
    assert_eq!(elevator.call(2, Direction::Up), Err(ElevatorError::AlreadyMaxFloor));
    assert!(!elevator.outside_button(2).unwrap().is_up());
    assert_eq!(elevator.call(0, Direction::Down), Err(ElevatorError::AlreadyMinFloor));
    assert!(!elevator.outside_button(0).unwrap().is_down());
    assert_eq!(elevator.call(3, Direction::Up), Err(ElevatorError::FloorButtonNotExists));
    assert_eq!(elevator.call(3, Direction::Down), Err(ElevatorError::FloorButtonNotExists));
    assert!(elevator.pending().is_empty());
    assert_eq!(elevator.call(2, Direction::Down), Ok(()));
    assert_eq!(elevator.call(2, Direction::Up), Err(ElevatorError::AlreadyMaxFloor));
    assert!(elevator.outside_button(2).unwrap().is_down());
    assert_eq!(elevator.pending(), vec![request(2, false)]);
}

#[test]
fn request_inside_sets_selection_and_queues() {
    let mut elevator = Elevator::new(0, 3, 0);
    assert_eq!(elevator.request_inside(request(2, true)), Ok(()));
    assert!(elevator.inside_button(2).unwrap().active.val());
    assert!(elevator.outside_button(2).unwrap().is_idle());
    assert_eq!(elevator.pending(), vec![request(2, true)]);
    assert_eq!(
        elevator.request_inside(request(3, false)),
        Err(ElevatorError::FloorButtonNotExists)
    );
    assert_eq!(elevator.pending(), vec![request(2, true)]);
}

#[test]
fn submit_queues_in_arrival_order() {
    let mut elevator = Elevator::new(0, 4, 0);
    elevator.submit(request(3, false));
    elevator.submit(request(1, true));
    elevator.submit(request(3, false));
    assert_eq!(
        elevator.pending(),
        vec![request(3, false), request(1, true), request(3, false)]
    );
    assert!(!elevator.inside_button(3).unwrap().active.val());
    elevator.tick(0);
    assert_eq!(elevator.current_action(), Some(request(3, false)));
    assert_eq!(
        elevator.pending(),
        vec![request(1, true), request(3, false)]
    );
}

#[test]
fn door_obeys_only_while_standing() {
    let mut elevator = Elevator::new(0, 3, 0);
    elevator.door_control_at(DoorStatus::Open, 100);
    assert!(elevator.is_door_open());
    assert_eq!(elevator.door_last_open(), 100);
    elevator.door_control_at(DoorStatus::Close, 200);
    assert!(!elevator.is_door_open());
    assert_eq!(elevator.door_last_open(), 100);
    elevator.submit(request(2, false));
    elevator.tick(300);
    assert!(elevator.is_moving_up());
    elevator.door_control_at(DoorStatus::Open, 400);
    assert!(!elevator.is_door_open());
    assert_eq!(elevator.door_last_open(), 100);
}

#[test]
fn opening_twice_keeps_the_door_open_and_records_the_second_time() {
    let mut elevator = Elevator::new(0, 3, 0);
    elevator.door_control_at(DoorStatus::Open, 10);
    assert_eq!(elevator.door_status(), DoorStatus::Open);
    assert_eq!(elevator.door_last_open(), 10);
    elevator.door_control_at(DoorStatus::Open, 12);
    assert_eq!(elevator.door_status(), DoorStatus::Open);
    assert_eq!(elevator.door_last_open(), 12);
}

#[test]
fn door_control_by_the_clock_records_a_present_time() {
    let mut elevator = Elevator::new(0, 3, 0);
    elevator.door_control(DoorStatus::Open);
    assert!(elevator.is_door_open());
    assert!(elevator.door_last_open() > 1_600_000_000);
    elevator.door_control(DoorStatus::Close);
    assert!(!elevator.is_door_open());
}

#[test]
fn open_door_closes_after_the_timeout_only() {
    let mut elevator = Elevator::new(0, 3, 0);
    elevator.door_control_at(DoorStatus::Open, 1000);
    elevator.tick(1000 + MAX_DOOR_OPEN_SECS);
    assert!(elevator.is_door_open());
    elevator.tick(999);
    assert!(elevator.is_door_open());
    elevator.tick(1000 + MAX_DOOR_OPEN_SECS + 1);
    assert!(!elevator.is_door_open());
    assert_eq!(elevator.door_last_open(), 1000);
}

#[test]
fn travel_takes_a_floors_worth_of_passes() {
    assert_eq!(ELEVATOR_SELF_CHECK_MS, 20);
    assert_eq!(FLOOR_TRAVEL_MS, 600);
    let mut elevator = Elevator::new(0, 3, 0);
    assert_eq!(elevator.call(1, Direction::Up), Ok(()));
    elevator.tick(0);
    assert_eq!(elevator.current_action(), Some(request(1, false)));
    assert!(elevator.pending().is_empty());
    assert!(elevator.is_moving_up());
    assert_eq!(elevator.floor(), 0);
    for _ in 1..30 {
        elevator.tick(0);
        assert_eq!(elevator.floor(), 0);
    }
    elevator.tick(0);
    assert_eq!(elevator.floor(), 1);
    assert!(elevator.is_moving_up());
    assert!(!elevator.is_door_open());
    assert!(elevator.outside_button(1).unwrap().is_up());
    elevator.tick(42);
    assert_eq!(elevator.floor(), 1);
    assert!(elevator.is_idle());
    assert!(elevator.is_door_open());
    assert_eq!(elevator.door_last_open(), 42);
    assert_eq!(elevator.current_action(), None);
    assert!(elevator.outside_button(1).unwrap().is_idle());
    assert!(!elevator.inside_button(1).unwrap().active.val());
}

#[test]
fn pending_request_is_served_in_the_end() {
    for target in 0..5u8 {
        for start in 0..5u8 {
            let mut elevator = Elevator::new(0, 5, start);
            assert_eq!(elevator.request_inside(request(target, false)), Ok(()));
            if target < 4 {
                assert_eq!(elevator.call(target, Direction::Up), Ok(()));
                assert_eq!(elevator.call(target, Direction::Up), Ok(()));
            }
            let mut passes = 0;
            while !(elevator.pending().is_empty() && elevator.current_action().is_none()) {
                elevator.tick(7);
                passes += 1;
                assert!(passes < 1000);
            }
            assert_eq!(elevator.floor(), target);
            assert_eq!(elevator.moving_status(), MovingStatus::Idle);
            assert_eq!(elevator.door_status(), DoorStatus::Open);
            assert!(elevator.outside_button(target).unwrap().is_idle());
            assert!(!elevator.inside_button(target).unwrap().active.val());
        }
    }
}

#[test]
fn arrival_clears_all_three_flags_of_the_floor_only() {
    let mut elevator = Elevator::new(0, 4, 2);
    assert_eq!(elevator.call(2, Direction::Up), Ok(()));
    assert_eq!(elevator.call(2, Direction::Down), Ok(()));
    assert_eq!(elevator.call(1, Direction::Up), Ok(()));
    elevator.submit(request(2, false));
    elevator.tick(9);
    assert!(elevator.outside_button(2).unwrap().is_idle());
    assert!(elevator.outside_button(1).unwrap().is_up());
    assert!(elevator.is_door_open());
    assert_eq!(elevator.door_last_open(), 9);
    assert_eq!(elevator.floor(), 2);
    assert_eq!(elevator.pending().len(), 3);
}

#[test]
fn moving_down_reaches_the_floor_below() {
    let mut elevator = Elevator::new(0, 3, 2);
    assert_eq!(elevator.call(1, Direction::Down), Ok(()));
    elevator.tick(0);
    assert!(elevator.is_moving_down());
    for _ in 0..30 {
        elevator.tick(0);
    }
    assert_eq!(elevator.floor(), 1);
    elevator.tick(0);
    assert!(elevator.is_idle());
    assert!(elevator.is_door_open());
    assert!(!elevator.outside_button(1).unwrap().is_down());
}

#[test]
fn requests_are_served_first_come_first_served() {
    let mut elevator = Elevator::new(0, 4, 0);
    assert_eq!(elevator.request_inside(request(3, false)), Ok(()));
    assert_eq!(elevator.request_inside(request(1, false)), Ok(()));
    let mut passes = 0;
    while elevator.floor() != 3 {
        elevator.tick(0);
        passes += 1;
        assert!(passes < 1000);
        assert_eq!(elevator.current_action(), Some(request(3, false)));
    }
    assert!(elevator.inside_button(1).unwrap().active.val());
    elevator.tick(0);
    assert_eq!(elevator.current_action(), None);
    elevator.tick(0);
    assert_eq!(elevator.current_action(), Some(request(1, false)));
    assert!(elevator.is_moving_down());
}

#[test]
fn start_twice_and_stop_before_start() {
    let mut elevator = Elevator::new(0, 3, 0);
    assert_eq!(elevator.stop(), Err(ElevatorError::SignalNotExists));
    assert_eq!(elevator.start(), Ok(()));
    assert!(elevator.is_started());
    assert_eq!(elevator.handle(), Some(TaskStatus::Running));
    assert!(elevator.signal().is_some());
    assert_eq!(elevator.start(), Err(ElevatorError::AlreadyStarted));
    assert!(elevator.is_started());
}

#[test]
fn stop_ends_the_loop_and_restart_resumes() {
    let mut elevator = Elevator::new(0, 3, 0);
    assert_eq!(elevator.cycle(), LoopControl::Exit);
    assert_eq!(elevator.start(), Ok(()));
    assert_eq!(elevator.call(1, Direction::Up), Ok(()));
    assert_eq!(elevator.cycle(), LoopControl::Sleep(ELEVATOR_SELF_CHECK_MS));
    assert!(elevator.is_moving_up());
    assert_eq!(elevator.stop(), Ok(()));
    assert_eq!(elevator.stop(), Ok(()));
    assert!(elevator.is_started());
    assert_eq!(elevator.start(), Err(ElevatorError::AlreadyStarted));
    assert_eq!(elevator.cycle(), LoopControl::Exit);
    assert!(!elevator.is_started());
    assert_eq!(elevator.handle(), Some(TaskStatus::Finished));
    assert_eq!(elevator.cycle(), LoopControl::Exit);
    assert_eq!(elevator.start(), Ok(()));
    assert!(elevator.is_started());
    let mut passes = 0;
    while elevator.current_action().is_some() {
        assert_eq!(elevator.cycle(), LoopControl::Sleep(ELEVATOR_SELF_CHECK_MS));
        passes += 1;
        assert!(passes < 1000);
    }
    assert_eq!(elevator.floor(), 1);
    assert!(elevator.is_idle());
    assert!(elevator.is_door_open());
    assert!(elevator.outside_button(1).unwrap().is_idle());
}

#[test]
fn suspend_sleeps_until_stopped() {
    let mut elevator = Elevator::new(0, 3, 0);
    assert_eq!(elevator.suspend(), LoopControl::Exit);
    assert_eq!(elevator.start(), Ok(()));
    assert_eq!(elevator.suspend(), LoopControl::Sleep(20));
    assert_eq!(elevator.stop(), Ok(()));
    assert_eq!(elevator.suspend(), LoopControl::Exit);
    assert!(!elevator.is_started());
}

#[test]
fn abort_ends_a_task_that_exists() {
    let mut elevator = Elevator::new(0, 3, 0);
    elevator.abort();
    assert_eq!(elevator.handle(), None);
    assert_eq!(elevator.start(), Ok(()));
    elevator.abort();
    assert_eq!(elevator.handle(), Some(TaskStatus::Finished));
    assert!(!elevator.is_started());
    assert_eq!(elevator.start(), Ok(()));
    assert!(elevator.is_started());
}

#[test]
fn three_floor_scenario() {
    let mut elevator = Elevator::new(0, 3, 0);
    assert_eq!(elevator.call(0, Direction::Down), Err(ElevatorError::AlreadyMinFloor));
    assert!(elevator.outside_button(0).unwrap().is_idle());
    assert_eq!(elevator.call(1, Direction::Up), Ok(()));
    assert_eq!(elevator.start(), Ok(()));
    let mut passes = 0;
    while !(elevator.floor() == 1 && elevator.is_door_open()) {
        assert_eq!(elevator.cycle(), LoopControl::Sleep(ELEVATOR_SELF_CHECK_MS));
        passes += 1;
        assert!(passes < 1000);
    }
    assert_eq!(passes, 32);
    assert!(!elevator.outside_button(1).unwrap().is_up());
    assert!(!elevator.outside_button(1).unwrap().is_down());
    assert!(!elevator.inside_button(1).unwrap().active.val());
}

#[test]
fn building_without_floors_is_built_with_one() {
    let mut elevator = Elevator::new(3, 0, 0);
    assert_eq!(elevator.top_floor(), 0);
    assert_eq!(elevator.floor(), 0);
    assert_eq!(elevator.outside_buttons().len(), 1);
    assert_eq!(elevator.inside_buttons().len(), 1);
    assert_eq!(elevator.call(0, Direction::Up), Err(ElevatorError::AlreadyMaxFloor));
    assert_eq!(elevator.call(1, Direction::Down), Err(ElevatorError::FloorButtonNotExists));
    assert_eq!(elevator.request_inside(request(0, false)), Ok(()));
    elevator.tick(4);
    assert!(elevator.is_door_open());
    assert_eq!(elevator.floor(), 0);
}

#[test]
fn car_asked_to_stand_above_the_top_stands_at_the_top() {
    let elevator = Elevator::new(0, 3, 200);
    assert_eq!(elevator.top_floor(), 2);
    assert_eq!(elevator.floor(), 2);
    assert!(elevator.is_max_floor());
    let highest = Elevator::new(0, 255, 255);
    assert_eq!(highest.top_floor(), 254);
    assert_eq!(highest.floor(), 254);
    assert_eq!(highest.outside_buttons().len(), 255);
    let none = Elevator::new(0, 0, 9);
    assert_eq!(none.floor(), 0);
}

#[test]
fn door_closes_when_the_car_sets_out() {
    let mut elevator = Elevator::new(0, 3, 0);
    elevator.door_control_at(DoorStatus::Open, 100);
    assert_eq!(elevator.call(1, Direction::Up), Ok(()));
    assert_eq!(elevator.start(), Ok(()));
    assert!(elevator.is_door_open());
    elevator.tick(100);
    assert!(elevator.is_moving_up());
    assert!(!elevator.is_door_open());
    assert_eq!(elevator.door_last_open(), 100);
    let mut passes = 0;
    while !elevator.is_idle() {
        assert!(!elevator.is_door_open());
        elevator.tick(100);
        passes += 1;
        assert!(passes < 1000);
    }
    assert!(elevator.is_door_open());
    assert_eq!(elevator.floor(), 1);
}

#[test]
fn door_is_never_open_while_the_car_moves() {
    let mut elevator = Elevator::new(0, 4, 3);
    assert_eq!(elevator.request_inside(request(0, false)), Ok(()));
    assert_eq!(elevator.request_inside(request(2, false)), Ok(()));
    assert_eq!(elevator.request_inside(request(2, false)), Ok(()));
    assert_eq!(elevator.request_inside(request(3, false)), Ok(()));
    for now in 0..400u64 {
        elevator.tick(now / 50);
        if now % 7 == 0 {
            elevator.door_control_at(DoorStatus::Open, now / 50);
        }
        assert!(elevator.is_idle() || !elevator.is_door_open());
        assert!(elevator.floor() <= 3);
    }
    assert_eq!(elevator.floor(), 3);
    assert!(elevator.pending().is_empty());
}

#[test]
fn action_for_a_floor_that_does_not_exist_is_dropped_in_its_turn() {
    let mut elevator = Elevator::new(0, 3, 1);
    elevator.submit(request(9, false));
    elevator.submit(request(3, true));
    elevator.submit(request(2, false));
    assert_eq!(
        elevator.pending(),
        vec![request(9, false), request(3, true), request(2, false)]
    );
    elevator.tick(0);
    assert_eq!(elevator.current_action(), None);
    assert_eq!(elevator.pending(), vec![request(3, true), request(2, false)]);
    assert!(elevator.is_idle());
    assert_eq!(elevator.floor(), 1);
    elevator.tick(0);
    assert_eq!(elevator.current_action(), None);
    assert_eq!(elevator.pending(), vec![request(2, false)]);
    elevator.tick(0);
    assert_eq!(elevator.current_action(), Some(request(2, false)));
    assert!(elevator.is_moving_up());
    let mut passes = 0;
    while elevator.current_action().is_some() {
        elevator.tick(0);
        passes += 1;
        assert!(passes < 1000);
        assert!(elevator.floor() <= 2);
    }
    assert_eq!(elevator.floor(), 2);
}

#[test]
fn the_signal_of_the_elevator_shows_the_stop() {
    let mut elevator = Elevator::new(0, 3, 0);
    assert!(elevator.signal().is_none());
    assert_eq!(elevator.start(), Ok(()));
    assert_eq!(elevator.signal().unwrap().wait_signal(), Wait::Pending);
    assert_eq!(elevator.stop(), Ok(()));
    assert_eq!(elevator.signal().unwrap().wait_signal(), Wait::Ready);
    assert_eq!(elevator.cycle(), LoopControl::Exit);
    assert_eq!(elevator.start(), Ok(()));
    assert_eq!(elevator.signal().unwrap().wait_signal(), Wait::Pending);
}
