//! The call buttons of one floor: the directional pair outside the car and the
//! floor selection inside it.

use crate::components::enums::Direction;
use crate::components::error::ElevatorError;
use crate::utils::atomic::{AtomicValue, Bool, U8};
use vstd::prelude::*;

verus! {

/// Whether something stands at the lowest or at the highest floor.
pub trait CheckFloor {
    /// It stands at floor 0.
    spec fn at_min_floor(&self) -> bool;

    /// It stands at the top floor.
    spec fn at_max_floor(&self) -> bool;

    fn is_min_floor(&self) -> (at_min: bool)
        ensures
            at_min == self.at_min_floor(),
    ;

    fn is_max_floor(&self) -> (at_max: bool)
        ensures
            at_max == self.at_max_floor(),
    ;
}

/// The floor selection inside the car for one floor.
#[derive(Debug)]
pub struct InSideButton {
    pub floor: U8,
    pub active: Bool,
}

impl InSideButton {
    /// The button of `floor`, not pressed.
    pub fn new(floor: u8) -> (button: Self)
        ensures
            button.floor.value() == floor,
            !button.active.value(),
    {
        InSideButton { floor: U8::new(floor), active: Bool::new(false) }
    }
}

impl Clone for InSideButton {
    fn clone(&self) -> (copy: Self)
        ensures
            copy.floor.value() == self.floor.value(),
            copy.active.value() == self.active.value(),
    {
        InSideButton { floor: self.floor.clone(), active: self.active.clone() }
    }
}

/// The pair of call buttons outside the car on one floor.
#[derive(Debug)]
pub struct OutSideButton {
    pub floor: U8,
    pub top_floor: U8,
    pub up: Bool,
    pub down: Bool,
}

impl CheckFloor for OutSideButton {
    open spec fn at_min_floor(&self) -> bool {
        self.floor.value() == 0
    }

    open spec fn at_max_floor(&self) -> bool {
        self.floor.value() == self.top_floor.value()
    }

    fn is_min_floor(&self) -> (at_min: bool) {
        self.floor.val() == 0
    }

    fn is_max_floor(&self) -> (at_max: bool) {
        self.floor.val() == self.top_floor.val()
    }
}

impl OutSideButton {
    /// The buttons of `floor` in a building whose highest floor is `top_floor`,
    /// neither of them pressed.
    pub fn new(floor: u8, top_floor: u8) -> (button: Self)
        ensures
            button.floor.value() == floor,
            button.top_floor.value() == top_floor,
            !button.up.value(),
            !button.down.value(),
    {
        OutSideButton {
            floor: U8::new(floor),
            top_floor: U8::new(top_floor),
            up: Bool::new(false),
            down: Bool::new(false),
        }
    }

    /// Whether a call upwards is pending.
    pub fn is_up(&self) -> (pending: bool)
        ensures
            pending == self.up.value(),
    {
        self.up.val()
    }

    /// Whether a call downwards is pending.
    pub fn is_down(&self) -> (pending: bool)
        ensures
            pending == self.down.value(),
    {
        self.down.val()
    }

    /// Whether no call is pending.
    pub fn is_idle(&self) -> (idle: bool)
        ensures
            idle == (!self.up.value() && !self.down.value()),
    {
        !self.is_up() && !self.is_down()
    }

    /// What a call in `direction` answers: an error at the floor from which
    /// that direction leads nowhere, and otherwise whether such a call was
    /// pending already.
    pub open spec fn call_outcome(&self, direction: Direction) -> Result<bool, ElevatorError> {
        match direction {
            Direction::Up => if self.at_max_floor() {
                Err(ElevatorError::AlreadyMaxFloor)
            } else {
                Ok(self.up.value())
            },
            Direction::Down => if self.at_min_floor() {
                Err(ElevatorError::AlreadyMinFloor)
            } else {
                Ok(self.down.value())
            },
        }
    }

    /// Presses the button of `direction`. A refused call changes nothing. An
    /// accepted call flips the flag of its direction, so that a second call
    /// takes back the first, and reports whether it repeated a pending call.
    pub fn call(&mut self, direction: Direction) -> (outcome: Result<bool, ElevatorError>)
        ensures
            outcome == old(self).call_outcome(direction),
            final(self).floor == old(self).floor,
            final(self).top_floor == old(self).top_floor,
            outcome is Err ==> *final(self) == *old(self),
            outcome is Ok && direction == Direction::Up ==> {
                &&& final(self).up.value() == !old(self).up.value()
                &&& final(self).down == old(self).down
            },
            outcome is Ok && direction == Direction::Down ==> {
                &&& final(self).down.value() == !old(self).down.value()
                &&& final(self).up == old(self).up
            },
    {
        match direction {
            Direction::Up => {
                if self.is_max_floor() {
                    return Err(ElevatorError::AlreadyMaxFloor);
                }
                let repeated: bool = self.is_up();
                self.up.toggle();
                Ok(repeated)
            },
            Direction::Down => {
                if self.is_min_floor() {
                    return Err(ElevatorError::AlreadyMinFloor);
                }
                let repeated: bool = self.is_down();
                self.down.toggle();
                Ok(repeated)
            },
        }
    }
}

impl Clone for OutSideButton {
    fn clone(&self) -> (copy: Self)
        ensures
            copy.floor.value() == self.floor.value(),
            copy.top_floor.value() == self.top_floor.value(),
            copy.up.value() == self.up.value(),
            copy.down.value() == self.down.value(),
    {
        OutSideButton {
            floor: self.floor.clone(),
            top_floor: self.top_floor.clone(),
            up: self.up.clone(),
            down: self.down.clone(),
        }
    }
}

} // verus!
