//! Errors of the elevators, the controller, the floors and the building, each
//! with the message shown to a caller.

use vstd::prelude::*;
use vstd::std_specs::convert::FromSpecImpl;
use vstd::string::StringExecFns;

verus! {

/// What an elevator refuses.
#[derive(Debug, Clone, Copy, PartialEq, Eq, Structural)]
pub enum ElevatorError {
    RequestError,
    CannotControlDoor,
    AlreadyStarted,
    SignalNotExists,
    AlreadyMaxFloor,
    AlreadyMinFloor,
    FloorButtonNotExists,
}

/// What the controller refuses: an unknown elevator, or what that elevator refused.
#[derive(Debug, Clone, Copy, PartialEq, Eq, Structural)]
pub enum ElevatorControllerError {
    GetElevatorError,
    ElevatorError(ElevatorError),
}

/// What a floor refuses.
#[derive(Debug, Clone, Copy, PartialEq, Eq, Structural)]
pub enum FloorError {
    GetPanelError,
    ElevatorError(ElevatorError),
    ElevatorControllerError(ElevatorControllerError),
}

/// What the building refuses.
#[derive(Debug, Clone, Copy, PartialEq, Eq, Structural)]
pub enum BuildingError {
    GetFloorError,
    FloorError(FloorError),
    ElevatorControllerError(ElevatorControllerError),
}

impl ElevatorError {
    /// The message of this error, as a sequence of characters.
    pub open spec fn message_spec(self) -> Seq<char> {
        match self {
            ElevatorError::RequestError => "request error"@,
            ElevatorError::CannotControlDoor => "cannot control the door while running"@,
            ElevatorError::AlreadyStarted => "already started"@,
            ElevatorError::SignalNotExists => "signal not exists"@,
            ElevatorError::AlreadyMaxFloor => "already max floor"@,
            ElevatorError::AlreadyMinFloor => "already min floor"@,
            ElevatorError::FloorButtonNotExists => "floor button not exists"@,
        }
    }

    /// The message of this error.
    pub fn message(&self) -> (text: String)
        ensures
            text@ == self.message_spec(),
    {
        match self {
            ElevatorError::RequestError => String::from_str("request error"),
            ElevatorError::CannotControlDoor => String::from_str(
                "cannot control the door while running",
            ),
            ElevatorError::AlreadyStarted => String::from_str("already started"),
            ElevatorError::SignalNotExists => String::from_str("signal not exists"),
            ElevatorError::AlreadyMaxFloor => String::from_str("already max floor"),
            ElevatorError::AlreadyMinFloor => String::from_str("already min floor"),
            ElevatorError::FloorButtonNotExists => String::from_str("floor button not exists"),
        }
    }
}

impl ElevatorControllerError {
    /// The message of this error: its own, or the elevator's behind a prefix.
    pub open spec fn message_spec(self) -> Seq<char> {
        match self {
            ElevatorControllerError::GetElevatorError => "invalid elevator id"@,
            ElevatorControllerError::ElevatorError(e) => "ElevatorError: "@ + e.message_spec(),
        }
    }

    /// The message of this error.
    pub fn message(&self) -> (text: String)
        ensures
            text@ == self.message_spec(),
    {
        match self {
            ElevatorControllerError::GetElevatorError => String::from_str("invalid elevator id"),
            ElevatorControllerError::ElevatorError(e) => {
                let inner = e.message();
                String::from_str("ElevatorError: ").concat(inner.as_str())
            },
        }
    }
}

impl FloorError {
    /// The message of this error: its own, or the cause's behind a prefix.
    pub open spec fn message_spec(self) -> Seq<char> {
        match self {
            FloorError::GetPanelError => "invalid elevator id"@,
            FloorError::ElevatorError(e) => "ElevatorError: "@ + e.message_spec(),
            FloorError::ElevatorControllerError(e) => "ElevatorControllerError: "@
                + e.message_spec(),
        }
    }

    /// The message of this error.
    pub fn message(&self) -> (text: String)
        ensures
            text@ == self.message_spec(),
    {
        match self {
            FloorError::GetPanelError => String::from_str("invalid elevator id"),
            FloorError::ElevatorError(e) => {
                let inner = e.message();
                String::from_str("ElevatorError: ").concat(inner.as_str())
            },
            FloorError::ElevatorControllerError(e) => {
                let inner = e.message();
                String::from_str("ElevatorControllerError: ").concat(inner.as_str())
            },
        }
    }
}

impl BuildingError {
    /// The message of this error: its own, or the cause's behind a prefix.
    pub open spec fn message_spec(self) -> Seq<char> {
        match self {
            BuildingError::GetFloorError => "invalid floor number"@,
            BuildingError::FloorError(e) => "FloorError: "@ + e.message_spec(),
            BuildingError::ElevatorControllerError(e) => "ElevatorControllerError: "@
                + e.message_spec(),
        }
    }

    /// The message of this error.
    pub fn message(&self) -> (text: String)
        ensures
            text@ == self.message_spec(),
    {
        match self {
            BuildingError::GetFloorError => String::from_str("invalid floor number"),
            BuildingError::FloorError(e) => {
                let inner = e.message();
                String::from_str("FloorError: ").concat(inner.as_str())
            },
            BuildingError::ElevatorControllerError(e) => {
                let inner = e.message();
                String::from_str("ElevatorControllerError: ").concat(inner.as_str())
            },
        }
    }
}

impl From<ElevatorError> for ElevatorControllerError {
    fn from(error: ElevatorError) -> (wrapped: Self) {
        ElevatorControllerError::ElevatorError(error)
    }
}

impl FromSpecImpl<ElevatorError> for ElevatorControllerError {
    open spec fn obeys_from_spec() -> bool {
        true
    }

    open spec fn from_spec(error: ElevatorError) -> Self {
        ElevatorControllerError::ElevatorError(error)
    }
}

impl From<ElevatorError> for FloorError {
    fn from(error: ElevatorError) -> (wrapped: Self) {
        FloorError::ElevatorError(error)
    }
}

impl FromSpecImpl<ElevatorError> for FloorError {
    open spec fn obeys_from_spec() -> bool {
        true
    }

    open spec fn from_spec(error: ElevatorError) -> Self {
        FloorError::ElevatorError(error)
    }
}

impl From<ElevatorControllerError> for FloorError {
    fn from(error: ElevatorControllerError) -> (wrapped: Self) {
        FloorError::ElevatorControllerError(error)
    }
}

impl FromSpecImpl<ElevatorControllerError> for FloorError {
    open spec fn obeys_from_spec() -> bool {
        true
    }

    open spec fn from_spec(error: ElevatorControllerError) -> Self {
        FloorError::ElevatorControllerError(error)
    }
}

impl From<FloorError> for BuildingError {
    fn from(error: FloorError) -> (wrapped: Self) {
        BuildingError::FloorError(error)
    }
}

impl FromSpecImpl<FloorError> for BuildingError {
    open spec fn obeys_from_spec() -> bool {
        true
    }

    open spec fn from_spec(error: FloorError) -> Self {
        BuildingError::FloorError(error)
    }
}

impl From<ElevatorControllerError> for BuildingError {
    fn from(error: ElevatorControllerError) -> (wrapped: Self) {
        BuildingError::ElevatorControllerError(error)
    }
}

impl FromSpecImpl<ElevatorControllerError> for BuildingError {
    open spec fn obeys_from_spec() -> bool {
        true
    }

    open spec fn from_spec(error: ElevatorControllerError) -> Self {
        BuildingError::ElevatorControllerError(error)
    }
}

} // verus!
