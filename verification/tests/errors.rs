use elevator_core::components::enums::{DoorStatus, MovingStatus};
use elevator_core::components::error::{
    BuildingError, ElevatorControllerError, ElevatorError, FloorError,
};

#[test]
fn elevator_error_messages() {
    assert_eq!(ElevatorError::RequestError.message(), "request error");
    assert_eq!(
        ElevatorError::CannotControlDoor.message(),
        "cannot control the door while running"
    );
    assert_eq!(ElevatorError::AlreadyStarted.message(), "already started");
    assert_eq!(ElevatorError::SignalNotExists.message(), "signal not exists");
    assert_eq!(ElevatorError::AlreadyMaxFloor.message(), "already max floor");
    assert_eq!(ElevatorError::AlreadyMinFloor.message(), "already min floor");
    assert_eq!(
        ElevatorError::FloorButtonNotExists.message(),
        "floor button not exists"
    );
}

#[test]
fn wrapped_error_messages_carry_a_prefix() {
    assert_eq!(
        ElevatorControllerError::GetElevatorError.message(),
        "invalid elevator id"
    );
    assert_eq!(
        ElevatorControllerError::ElevatorError(ElevatorError::AlreadyMaxFloor).message(),
        "ElevatorError: already max floor"
    );
    assert_eq!(FloorError::GetPanelError.message(), "invalid elevator id");
    assert_eq!(
        FloorError::ElevatorError(ElevatorError::AlreadyMinFloor).message(),
        "ElevatorError: already min floor"
    );
    assert_eq!(
        FloorError::ElevatorControllerError(ElevatorControllerError::GetElevatorError).message(),
        "ElevatorControllerError: invalid elevator id"
    );
    assert_eq!(BuildingError::GetFloorError.message(), "invalid floor number");
    assert_eq!(
        BuildingError::FloorError(FloorError::ElevatorError(ElevatorError::SignalNotExists))
            .message(),
        "FloorError: ElevatorError: signal not exists"
    );
    assert_eq!(
        BuildingError::ElevatorControllerError(ElevatorControllerError::ElevatorError(
            ElevatorError::FloorButtonNotExists
        ))
        .message(),
        "ElevatorControllerError: ElevatorError: floor button not exists"
    );
}

#[test]
fn errors_convert_into_the_errors_that_wrap_them() {
    assert_eq!(
        ElevatorControllerError::from(ElevatorError::AlreadyStarted),
        ElevatorControllerError::ElevatorError(ElevatorError::AlreadyStarted)
    );
    assert_eq!(
        FloorError::from(ElevatorError::AlreadyStarted),
        FloorError::ElevatorError(ElevatorError::AlreadyStarted)
    );
    assert_eq!(
        FloorError::from(ElevatorControllerError::GetElevatorError),
        FloorError::ElevatorControllerError(ElevatorControllerError::GetElevatorError)
    );
    assert_eq!(
        BuildingError::from(FloorError::GetPanelError),
        BuildingError::FloorError(FloorError::GetPanelError)
    );
    assert_eq!(
        BuildingError::from(ElevatorControllerError::GetElevatorError),
        BuildingError::ElevatorControllerError(ElevatorControllerError::GetElevatorError)
    );
}

#[test]
fn statuses_have_their_defaults() {
    assert_eq!(DoorStatus::default(), DoorStatus::Close);
    assert_eq!(MovingStatus::default(), MovingStatus::Idle);
    assert_eq!(DoorStatus::from(true), DoorStatus::Open);
    assert_eq!(DoorStatus::from(false), DoorStatus::Close);
}
