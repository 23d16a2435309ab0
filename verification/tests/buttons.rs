use elevator_core::components::enums::Direction;
use elevator_core::components::error::ElevatorError;
use elevator_core::utils::atomic::AtomicValue;
use elevator_core::OutSideButton;

#[test]
fn outside_button_toggles_and_reports_repeats() {
    let mut button = OutSideButton::new(1, 3);
    assert!(button.is_idle());
    assert_eq!(button.call(Direction::Up), Ok(false));
    assert!(button.is_up());
    assert_eq!(button.call(Direction::Up), Ok(true));
    assert!(!button.is_up());
    assert_eq!(button.call(Direction::Down), Ok(false));
    assert!(button.is_down());
    assert_eq!(button.floor.val(), 1);
    assert_eq!(button.top_floor.val(), 3);
}

#[test]
fn outside_button_refuses_at_the_ends() {
    let mut top = OutSideButton::new(3, 3);
    assert_eq!(top.call(Direction::Up), Err(ElevatorError::AlreadyMaxFloor));
    assert!(!top.is_up());
    let mut bottom = OutSideButton::new(0, 3);
    assert_eq!(bottom.call(Direction::Down), Err(ElevatorError::AlreadyMinFloor));
    assert!(!bottom.is_down());
}
