//! The elevator as a state machine: its state as plain mathematical values, and
//! each operation and each step of the background loop as a function from
//! state to state.

use crate::action::{ElevatorAction, LoopControl, TaskStatus};
use crate::components::enums::{Direction, DoorStatus, MovingStatus};
use crate::components::error::ElevatorError;
use crate::utils::constants::{ELEVATOR_SELF_CHECK_MS, FLOOR_TRAVEL_MS, MAX_DOOR_OPEN_SECS};
use vstd::prelude::*;

verus! {

/// All that an elevator holds.
pub struct ElevatorState {
    pub id: u8,
    /// The highest floor; the floors are `0 ..= top_floor`.
    pub top_floor: u8,
    /// Where the car is.
    pub floor: u8,
    pub moving_status: MovingStatus,
    pub door_status: DoorStatus,
    /// Seconds since the epoch at which the door was last opened.
    pub door_last_open: u64,
    /// The request being served.
    pub current_action: Option<ElevatorAction>,
    /// The requests waiting, oldest first.
    pub queue: Seq<ElevatorAction>,
    /// By floor: a call upwards is pending.
    pub up: Seq<bool>,
    /// By floor: a call downwards is pending.
    pub down: Seq<bool>,
    /// By floor: the floor was selected inside the car.
    pub active: Seq<bool>,
    /// Milliseconds travelled since the car last passed a floor.
    pub distance: u64,
    /// The background task, if one was ever spawned.
    pub task: Option<TaskStatus>,
    /// The stop signal of the latest task, with whether it was triggered.
    pub signal: Option<bool>,
}

impl ElevatorState {
    /// What holds of every elevator: the car is at one of the floors, every
    /// floor has its buttons, the door is open only while the car stands, the
    /// request being served names one of the floors, the car moves only while
    /// it serves a request, and never away from the floor that the request
    /// names, and a task that was spawned has a stop signal.
    pub open spec fn valid(self) -> bool {
        &&& self.floor <= self.top_floor
        &&& self.door_status == DoorStatus::Open ==> self.moving_status == MovingStatus::Idle
        &&& self.task is Some ==> self.signal is Some
        &&& self.up.len() == self.top_floor + 1
        &&& self.down.len() == self.top_floor + 1
        &&& self.active.len() == self.top_floor + 1
        &&& match self.current_action {
            Some(action) => {
                &&& action.target() <= self.top_floor
                &&& self.moving_status == MovingStatus::Up ==> self.floor <= action.target()
                &&& self.moving_status == MovingStatus::Down ==> action.target() <= self.floor
            },
            None => self.moving_status == MovingStatus::Idle,
        }
    }

    /// The top floor of a building of `num_floors` floors. A building has at
    /// least one floor: a count of 0 is taken as 1.
    pub open spec fn top_of(num_floors: u8) -> u8 {
        if num_floors == 0 {
            0
        } else {
            (num_floors - 1) as u8
        }
    }

    /// The floor at which a new car stands that was asked to stand at
    /// `init_floor`: that floor, or the top floor if that floor lies above it.
    pub open spec fn start_of(num_floors: u8, init_floor: u8) -> u8 {
        if init_floor > Self::top_of(num_floors) {
            Self::top_of(num_floors)
        } else {
            init_floor
        }
    }

    /// The state of a new elevator that stands at `floor`.
    pub open spec fn initial(id: u8, top_floor: u8, floor: u8) -> ElevatorState {
        ElevatorState {
            id,
            top_floor,
            floor,
            moving_status: MovingStatus::Idle,
            door_status: DoorStatus::Close,
            door_last_open: 0,
            current_action: None,
            queue: Seq::empty(),
            up: Seq::new((top_floor + 1) as nat, |i: int| false),
            down: Seq::new((top_floor + 1) as nat, |i: int| false),
            active: Seq::new((top_floor + 1) as nat, |i: int| false),
            distance: 0,
            task: None,
            signal: None,
        }
    }

    /// The background task is running.
    pub open spec fn is_started(self) -> bool {
        self.task == Some(TaskStatus::Running)
    }

    /// What a call from outside the car, on `floor` and in `direction`, answers.
    pub open spec fn call_outcome(self, floor: u8, direction: Direction) -> Result<
        (),
        ElevatorError,
    > {
        if floor > self.top_floor {
            Err(ElevatorError::FloorButtonNotExists)
        } else if direction == Direction::Up && floor == self.top_floor {
            Err(ElevatorError::AlreadyMaxFloor)
        } else if direction == Direction::Down && floor == 0 {
            Err(ElevatorError::AlreadyMinFloor)
        } else {
            Ok(())
        }
    }

    /// The state after a call from outside the car. A refused call changes
    /// nothing. An accepted call flips the flag of its direction and queues a
    /// request for the floor, marked `cancel` where the flag was set before.
    pub open spec fn after_call(self, floor: u8, direction: Direction) -> ElevatorState {
        if self.call_outcome(floor, direction) is Err {
            self
        } else {
            match direction {
                Direction::Up => ElevatorState {
                    up: self.up.update(floor as int, !self.up[floor as int]),
                    queue: self.queue.push(
                        ElevatorAction::Request { floor, cancel: self.up[floor as int] },
                    ),
                    ..self
                },
                Direction::Down => ElevatorState {
                    down: self.down.update(floor as int, !self.down[floor as int]),
                    queue: self.queue.push(
                        ElevatorAction::Request { floor, cancel: self.down[floor as int] },
                    ),
                    ..self
                },
            }
        }
    }

    /// What a request from inside the car answers.
    pub open spec fn request_outcome(self, action: ElevatorAction) -> Result<(), ElevatorError> {
        if action.target() > self.top_floor {
            Err(ElevatorError::FloorButtonNotExists)
        } else {
            Ok(())
        }
    }

    /// The state after a request from inside the car: the floor's selection is
    /// set and the action is queued, unless the floor does not exist.
    pub open spec fn after_request(self, action: ElevatorAction) -> ElevatorState {
        if self.request_outcome(action) is Err {
            self
        } else {
            ElevatorState {
                active: self.active.update(action.target() as int, true),
                queue: self.queue.push(action),
                ..self
            }
        }
    }

    /// The state after `action` was queued behind the requests that wait.
    pub open spec fn after_submit(self, action: ElevatorAction) -> ElevatorState {
        ElevatorState { queue: self.queue.push(action), ..self }
    }

    /// The state after the door was told to take `status` at time `now`.
    /// While the car moves the door does not obey; opening it records the time.
    pub open spec fn after_door_control(self, status: DoorStatus, now: u64) -> ElevatorState {
        if self.moving_status != MovingStatus::Idle {
            self
        } else if status == DoorStatus::Open {
            ElevatorState { door_status: status, door_last_open: now, ..self }
        } else {
            ElevatorState { door_status: status, ..self }
        }
    }

    /// What starting the background task answers.
    pub open spec fn start_outcome(self) -> Result<(), ElevatorError> {
        if self.is_started() {
            Err(ElevatorError::AlreadyStarted)
        } else {
            Ok(())
        }
    }

    /// The state after a start: a running task with a fresh stop signal and
    /// no distance travelled, unless a task was running.
    pub open spec fn after_start(self) -> ElevatorState {
        if self.is_started() {
            self
        } else {
            ElevatorState {
                task: Some(TaskStatus::Running),
                signal: Some(false),
                distance: 0,
                ..self
            }
        }
    }

    /// What stopping the background task answers.
    pub open spec fn stop_outcome(self) -> Result<(), ElevatorError> {
        if self.signal is None {
            Err(ElevatorError::SignalNotExists)
        } else {
            Ok(())
        }
    }

    /// The state after a stop: the stop signal is triggered, if there is one.
    pub open spec fn after_stop(self) -> ElevatorState {
        if self.signal is None {
            self
        } else {
            ElevatorState { signal: Some(true), ..self }
        }
    }

    /// The state after the task was aborted: a task that exists has ended.
    pub open spec fn after_abort(self) -> ElevatorState {
        if self.task is None {
            self
        } else {
            ElevatorState { task: Some(TaskStatus::Finished), ..self }
        }
    }

    /// The door has been open for longer than it may be at time `now`.
    pub open spec fn door_timed_out(self, now: u64) -> bool {
        self.door_status == DoorStatus::Open && now - self.door_last_open > MAX_DOOR_OPEN_SECS
    }

    /// First step of a pass: a door open for too long is told to close.
    pub open spec fn auto_close(self, now: u64) -> ElevatorState {
        if self.door_timed_out(now) {
            self.after_door_control(DoorStatus::Close, now)
        } else {
            self
        }
    }

    /// Second step: with no request being served, the oldest waiting request
    /// leaves the queue. It is taken up if it names one of the floors, and
    /// dropped if it names a floor that the building does not have.
    pub open spec fn intake(self) -> ElevatorState {
        if self.current_action is None && self.queue.len() > 0 {
            ElevatorState {
                current_action: if self.queue[0].target() <= self.top_floor {
                    Some(self.queue[0])
                } else {
                    None
                },
                queue: self.queue.subrange(1, self.queue.len() as int),
                ..self
            }
        } else {
            self
        }
    }

    /// The state after the car has answered the floor it stands at: no
    /// request is being served, the car stands still, the door was told to
    /// open, and the three flags of the floor are clear.
    pub open spec fn arrive(self, now: u64) -> ElevatorState {
        let stopped = ElevatorState {
            current_action: None,
            moving_status: MovingStatus::Idle,
            ..self
        };
        let opened = stopped.after_door_control(DoorStatus::Open, now);
        ElevatorState {
            up: self.up.update(self.floor as int, false),
            down: self.down.update(self.floor as int, false),
            active: self.active.update(self.floor as int, false),
            ..opened
        }
    }

    /// Third step: the car heads for the floor of the request being served,
    /// with its door closed, or answers that floor if it stands there.
    pub open spec fn progress(self, now: u64) -> ElevatorState {
        match self.current_action {
            Some(action) => if action.target() > self.floor {
                ElevatorState {
                    moving_status: MovingStatus::Up,
                    door_status: DoorStatus::Close,
                    ..self
                }
            } else if action.target() < self.floor {
                ElevatorState {
                    moving_status: MovingStatus::Down,
                    door_status: DoorStatus::Close,
                    ..self
                }
            } else {
                self.arrive(now)
            },
            None => self,
        }
    }

    /// The floor one further in the direction of travel.
    pub open spec fn next_floor(self) -> u8 {
        match self.moving_status {
            MovingStatus::Up => self.floor.wrapping_add(1),
            MovingStatus::Down => self.floor.wrapping_sub(1),
            MovingStatus::Idle => self.floor,
        }
    }

    /// Fourth step: once a floor's worth of travel has been covered the
    /// distance starts over and the car is one floor further; short of that
    /// a moving car covers one interval more.
    pub open spec fn motion(self) -> ElevatorState {
        if self.distance >= FLOOR_TRAVEL_MS {
            ElevatorState { distance: 0, floor: self.next_floor(), ..self }
        } else if self.moving_status != MovingStatus::Idle {
            ElevatorState { distance: (self.distance + ELEVATOR_SELF_CHECK_MS) as u64, ..self }
        } else {
            self
        }
    }

    /// One pass of the background loop at time `now`.
    pub open spec fn after_tick(self, now: u64) -> ElevatorState {
        self.auto_close(now).intake().progress(now).motion()
    }

    /// The stop signal was triggered.
    pub open spec fn stop_requested(self) -> bool {
        self.signal == Some(true)
    }

    /// The point at which the loop suspends: a running task that finds its
    /// stop signal triggered ends there.
    pub open spec fn after_suspend(self) -> ElevatorState {
        if self.is_started() && self.stop_requested() {
            ElevatorState { task: Some(TaskStatus::Finished), ..self }
        } else {
            self
        }
    }

    /// What the loop does at the point of suspension: a running task that was
    /// not told to stop sleeps for one interval, any other ends.
    pub open spec fn cycle_control(self) -> LoopControl {
        if self.is_started() && !self.stop_requested() {
            LoopControl::Sleep(ELEVATOR_SELF_CHECK_MS)
        } else {
            LoopControl::Exit
        }
    }

    /// One turn of the background loop at time `now`: a pass and the point of
    /// suspension, for a task that is running.
    pub open spec fn after_cycle(self, now: u64) -> ElevatorState {
        if self.is_started() {
            self.after_tick(now).after_suspend()
        } else {
            self
        }
    }
}

impl ElevatorState {
    /// A pass of the background loop keeps a valid state valid: the car stays
    /// within the floors of the building.
    pub proof fn lemma_tick_keeps_valid(self, now: u64)
        requires
            self.valid(),
        ensures
            self.after_tick(now).valid(),
    {
    }
}

} // verus!
