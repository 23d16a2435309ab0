//! One elevator: its buttons, its car, its queue of requests and the life of
//! its background task.

use crate::action::{ElevatorAction, LoopControl, TaskStatus};
use crate::button::{CheckFloor, InSideButton, OutSideButton};
use crate::components::enums::{Direction, DoorStatus, MovingStatus};
use crate::components::error::ElevatorError;
use crate::machine::ElevatorState;
use crate::utils::atomic::{Atomic, AtomicOperation, AtomicOption, AtomicValue, U64, U8};
use crate::utils::common::timestamp;
use crate::utils::constants::{ELEVATOR_SELF_CHECK_MS, FLOOR_TRAVEL_MS, MAX_DOOR_OPEN_SECS};
use crate::utils::notify::{SignalHandle, Wait};
use std::collections::VecDeque;
use vstd::prelude::*;

verus! {

/// An elevator. Its state, as the contracts speak of it, is its view.
#[derive(Debug)]
pub struct Elevator {
    id: U8,
    top_floor: U8,
    outside_buttons: Vec<OutSideButton>,
    inside_buttons: Vec<InSideButton>,
    floor: U8,
    moving_status: Atomic<MovingStatus>,
    door_status: Atomic<DoorStatus>,
    door_last_open: U64,
    current_action: AtomicOption<ElevatorAction>,
    action_queue: VecDeque<ElevatorAction>,
    distance: U64,
    handle: AtomicOption<TaskStatus>,
    signal: Option<SignalHandle>,
}

impl View for Elevator {
    type V = ElevatorState;

    closed spec fn view(&self) -> ElevatorState {
        ElevatorState {
            id: self.id.value(),
            top_floor: self.top_floor.value(),
            floor: self.floor.value(),
            moving_status: self.moving_status.value(),
            door_status: self.door_status.value(),
            door_last_open: self.door_last_open.value(),
            current_action: self.current_action.value(),
            queue: self.action_queue@,
            up: Seq::new(self.outside_buttons@.len(), |i: int| self.outside_buttons@[i].up.value()),
            down: Seq::new(
                self.outside_buttons@.len(),
                |i: int| self.outside_buttons@[i].down.value(),
            ),
            active: Seq::new(
                self.inside_buttons@.len(),
                |i: int| self.inside_buttons@[i].active.value(),
            ),
            distance: self.distance.value(),
            task: self.handle.value(),
            signal: match self.signal {
                Some(signal) => Some(signal.is_triggered()),
                None => None,
            },
        }
    }
}

impl CheckFloor for Elevator {
    open spec fn at_min_floor(&self) -> bool {
        self@.floor == 0
    }

    open spec fn at_max_floor(&self) -> bool {
        self@.floor == self@.top_floor
    }

    fn is_min_floor(&self) -> (at_min: bool) {
        self.floor.val() == 0
    }

    fn is_max_floor(&self) -> (at_max: bool) {
        self.floor.val() == self.top_floor.val()
    }
}

impl Elevator {
    /// Every floor has its buttons, and each button knows its floor.
    pub closed spec fn inv(&self) -> bool {
        &&& self.outside_buttons@.len() == self.top_floor.value() + 1
        &&& self.inside_buttons@.len() == self.top_floor.value() + 1
        &&& forall|i: int|
            0 <= i < self.outside_buttons@.len() ==> {
                &&& (#[trigger] self.outside_buttons@[i]).floor.value() == i
                &&& self.outside_buttons@[i].top_floor.value() == self.top_floor.value()
            }
        &&& forall|i: int|
            0 <= i < self.inside_buttons@.len() ==> (#[trigger] self.inside_buttons@[i]).floor.value()
                == i
    }

    /// The elevator is well formed: its buttons are in place and its state is
    /// valid.
    pub open spec fn wf(&self) -> bool {
        &&& self.inv()
        &&& self@.valid()
    }

    /// An elevator for a building of `num_floors` floors, standing at
    /// `init_floor` with its door closed, nothing pending and no task. A
    /// building has at least one floor, so a count of 0 is taken as 1; a car
    /// asked to stand above the top floor stands at the top floor.
    pub fn new(id: u8, num_floors: u8, init_floor: u8) -> (elevator: Self)
        ensures
            elevator.wf(),
            elevator@ == ElevatorState::initial(
                id,
                ElevatorState::top_of(num_floors),
                ElevatorState::start_of(num_floors, init_floor),
            ),
    {
        let top_floor: u8 = if num_floors == 0 {
            0
        } else {
            num_floors - 1
        };
        let init_floor: u8 = if init_floor > top_floor {
            top_floor
        } else {
            init_floor
        };
        let mut outside_buttons: Vec<OutSideButton> = Vec::new();
        let mut inside_buttons: Vec<InSideButton> = Vec::new();
        let mut floor: u8 = 0;
        while floor <= top_floor
            invariant
                floor <= top_floor + 1,
                top_floor <= 254,
                outside_buttons@.len() == floor,
                inside_buttons@.len() == floor,
                forall|i: int|
                    0 <= i < floor ==> {
                        &&& (#[trigger] outside_buttons@[i]).floor.value() == i
                        &&& outside_buttons@[i].top_floor.value() == top_floor
                        &&& !outside_buttons@[i].up.value()
                        &&& !outside_buttons@[i].down.value()
                    },
                forall|i: int|
                    0 <= i < floor ==> {
                        &&& (#[trigger] inside_buttons@[i]).floor.value() == i
                        &&& !inside_buttons@[i].active.value()
                    },
            decreases top_floor + 1 - floor,
        {
            outside_buttons.push(OutSideButton::new(floor, top_floor));
            inside_buttons.push(InSideButton::new(floor));
            floor = floor + 1;
        }
        let elevator = Elevator {
            id: U8::new(id),
            top_floor: U8::new(top_floor),
            outside_buttons,
            inside_buttons,
            floor: U8::new(init_floor),
            moving_status: Atomic::new(MovingStatus::Idle),
            door_status: Atomic::new(DoorStatus::Close),
            door_last_open: U64::new(0),
            current_action: AtomicOption::from_option(None),
            action_queue: VecDeque::new(),
            distance: U64::new(0),
            handle: AtomicOption::from_option(None),
            signal: None,
        };
        proof {
            let initial = ElevatorState::initial(id, top_floor, init_floor);
            assert(elevator@.up =~= initial.up);
            assert(elevator@.down =~= initial.down);
            assert(elevator@.active =~= initial.active);
            assert(elevator@.queue =~= initial.queue);
        }
        elevator
    }

    /// Whether the background task is running.
    pub fn is_started(&self) -> (started: bool)
        ensures
            started == self@.is_started(),
    {
        match self.handle.val() {
            Some(TaskStatus::Running) => true,
            _ => false,
        }
    }

    /// Whether the car is moving up.
    pub fn is_moving_up(&self) -> (up: bool)
        ensures
            up == (self@.moving_status == MovingStatus::Up),
    {
        self.moving_status.val() == MovingStatus::Up
    }

    /// Whether the car is moving down.
    pub fn is_moving_down(&self) -> (down: bool)
        ensures
            down == (self@.moving_status == MovingStatus::Down),
    {
        self.moving_status.val() == MovingStatus::Down
    }

    /// Whether the car stands still.
    pub fn is_idle(&self) -> (idle: bool)
        ensures
            idle == (self@.moving_status == MovingStatus::Idle),
    {
        self.moving_status.val() == MovingStatus::Idle
    }

    /// Whether the door is open.
    pub fn is_door_open(&self) -> (open: bool)
        ensures
            open == (self@.door_status == DoorStatus::Open),
    {
        self.door_status.val() == DoorStatus::Open
    }

    /// The buttons outside the car on `floor`, if the building has that floor.
    pub fn outside_button(&self, floor: u8) -> (button: Result<&OutSideButton, ElevatorError>)
        requires
            self.wf(),
        ensures
            floor > self@.top_floor ==> button == Err::<&OutSideButton, ElevatorError>(
                ElevatorError::FloorButtonNotExists,
            ),
            floor <= self@.top_floor ==> button is Ok && {
                let found = button->Ok_0;
                &&& found.floor.value() == floor
                &&& found.top_floor.value() == self@.top_floor
                &&& found.up.value() == self@.up[floor as int]
                &&& found.down.value() == self@.down[floor as int]
            },
    {
        if floor as usize >= self.outside_buttons.len() {
            return Err(ElevatorError::FloorButtonNotExists);
        }
        Ok(&self.outside_buttons[floor as usize])
    }

    /// The button inside the car for `floor`, if the building has that floor.
    pub fn inside_button(&self, floor: u8) -> (button: Result<&InSideButton, ElevatorError>)
        requires
            self.wf(),
        ensures
            floor > self@.top_floor ==> button == Err::<&InSideButton, ElevatorError>(
                ElevatorError::FloorButtonNotExists,
            ),
            floor <= self@.top_floor ==> button is Ok && {
                let found = button->Ok_0;
                &&& found.floor.value() == floor
                &&& found.active.value() == self@.active[floor as int]
            },
    {
        if floor as usize >= self.inside_buttons.len() {
            return Err(ElevatorError::FloorButtonNotExists);
        }
        Ok(&self.inside_buttons[floor as usize])
    }

    /// Queues `action` behind the requests that wait, whatever floor it
    /// names. An action for a floor that the building does not have is
    /// dropped when its turn comes.
    pub fn submit(&mut self, action: ElevatorAction)
        requires
            old(self).wf(),
        ensures
            final(self).wf(),
            final(self)@ == old(self)@.after_submit(action),
    {
        self.action_queue.push_back(action);
        assert(self@ =~= old(self)@.after_submit(action));
    }

    /// A call from outside the car, on `floor` and in `direction`. It is
    /// refused where the floor does not exist or the direction leads nowhere
    /// from it, and then nothing changes. Otherwise the floor's flag of that
    /// direction is flipped and a request for the floor is queued, marked
    /// `cancel` where the call repeated a pending one.
    pub fn call(&mut self, floor: u8, direction: Direction) -> (outcome: Result<
        (),
        ElevatorError,
    >)
        requires
            old(self).wf(),
        ensures
            final(self).wf(),
            outcome == old(self)@.call_outcome(floor, direction),
            final(self)@ == old(self)@.after_call(floor, direction),
    {
        if floor as usize >= self.outside_buttons.len() {
            return Err(ElevatorError::FloorButtonNotExists);
        }
        let pressed = self.outside_buttons[floor as usize].call(direction);
        proof {
            let before = old(self).outside_buttons@[floor as int];
            assert(pressed == before.call_outcome(direction));
            assert(self.outside_buttons@ =~= old(self).outside_buttons@.update(
                floor as int,
                self.outside_buttons@[floor as int],
            ));
        }
        match pressed {
            Err(refused) => {
                proof {
                    assert(self@.up =~= old(self)@.up);
                    assert(self@.down =~= old(self)@.down);
                    assert(self@.active =~= old(self)@.active);
                }
                Err(refused)
            },
            Ok(cancel) => {
                self.action_queue.push_back(ElevatorAction::Request { floor, cancel });
                proof {
                    let after = old(self)@.after_call(floor, direction);
                    assert(self@.up =~= after.up);
                    assert(self@.down =~= after.down);
                    assert(self@.active =~= after.active);
                    assert(self@.queue =~= after.queue);
                }
                Ok(())
            },
        }
    }

    /// A request from inside the car. It is refused where the floor of
    /// `action` does not exist, and then nothing changes. Otherwise the
    /// floor's selection is set and `action` is queued.
    pub fn request_inside(&mut self, action: ElevatorAction) -> (outcome: Result<(), ElevatorError>)
        requires
            old(self).wf(),
        ensures
            final(self).wf(),
            outcome == old(self)@.request_outcome(action),
            final(self)@ == old(self)@.after_request(action),
    {
        let floor: u8 = action.floor();
        if floor as usize >= self.inside_buttons.len() {
            return Err(ElevatorError::FloorButtonNotExists);
        }
        self.inside_buttons[floor as usize].active.set_true();
        self.action_queue.push_back(action);
        proof {
            let after = old(self)@.after_request(action);
            assert(self.inside_buttons@ =~= old(self).inside_buttons@.update(
                floor as int,
                self.inside_buttons@[floor as int],
            ));
            assert(self@.up =~= after.up);
            assert(self@.down =~= after.down);
            assert(self@.active =~= after.active);
            assert(self@.queue =~= after.queue);
        }
        Ok(())
    }

    /// Tells the door to take `status`, at time `now`. While the car moves
    /// the door does not obey.
    pub fn door_control_at(&mut self, status: DoorStatus, now: u64)
        requires
            old(self).wf(),
        ensures
            final(self).wf(),
            final(self)@ == old(self)@.after_door_control(status, now),
    {
        self.move_door(status, now);
    }

    /// Tells the door to take `status`, at the time that the clock shows.
    /// While the car moves the door does not obey.
    pub fn door_control(&mut self, status: DoorStatus)
        requires
            old(self).wf(),
        ensures
            final(self).wf(),
            exists|now: u64| final(self)@ == old(self)@.after_door_control(status, now),
    {
        let now: u64 = timestamp();
        self.door_control_at(status, now);
    }

    fn move_door(&mut self, status: DoorStatus, now: u64)
        ensures
            final(self)@ == old(self)@.after_door_control(status, now),
            old(self).inv() ==> final(self).inv(),
    {
        if self.moving_status.val() != MovingStatus::Idle {
            return ;
        }
        self.door_status.set(status);
        if status == DoorStatus::Open {
            self.door_last_open.set(now);
        }
        assert(self@ =~= old(self)@.after_door_control(status, now));
    }

    /// Starts the background task, unless it is running. On success the
    /// caller spawns the loop, which makes its passes until one says to end.
    pub fn start(&mut self) -> (outcome: Result<(), ElevatorError>)
        requires
            old(self).wf(),
        ensures
            final(self).wf(),
            outcome == old(self)@.start_outcome(),
            final(self)@ == old(self)@.after_start(),
    {
        if self.is_started() {
            return Err(ElevatorError::AlreadyStarted);
        }
        self.signal = Some(SignalHandle::new());
        self.distance.set(0);
        self.handle.set(Some(TaskStatus::Running));
        assert(self@ =~= old(self)@.after_start());
        Ok(())
    }

    /// Triggers the stop signal. An elevator that was never started has none.
    pub fn stop(&mut self) -> (outcome: Result<(), ElevatorError>)
        requires
            old(self).wf(),
        ensures
            final(self).wf(),
            outcome == old(self)@.stop_outcome(),
            final(self)@ == old(self)@.after_stop(),
    {
        match &mut self.signal {
            Some(signal) => {
                signal.trigger();
            },
            None => {
                return Err(ElevatorError::SignalNotExists);
            },
        }
        assert(self@ =~= old(self)@.after_stop());
        Ok(())
    }

    /// Ends the background task at once, if there is one.
    pub fn abort(&mut self)
        requires
            old(self).wf(),
        ensures
            final(self).wf(),
            final(self)@ == old(self)@.after_abort(),
    {
        if self.handle.val().is_some() {
            self.handle.set(Some(TaskStatus::Finished));
        }
        assert(self@ =~= old(self)@.after_abort());
    }

    /// What is known of the background task, if one was ever spawned.
    pub fn handle(&self) -> (task: Option<TaskStatus>)
        ensures
            task == self@.task,
    {
        self.handle.val()
    }

    /// The stop signal, if the elevator was ever started.
    pub fn signal(&self) -> (signal: Option<&SignalHandle>)
        ensures
            match signal {
                Some(handle) => self@.signal == Some(handle.is_triggered()),
                None => self@.signal is None,
            },
    {
        self.signal.as_ref()
    }
}

impl Elevator {
    /// First step of a pass: a door open for too long is told to close.
    fn auto_close(&mut self, now: u64)
        ensures
            final(self)@ == old(self)@.auto_close(now),
            old(self).inv() ==> final(self).inv(),
    {
        let last_open: u64 = self.door_last_open.val();
        if self.is_door_open() && now > last_open && now - last_open > MAX_DOOR_OPEN_SECS {
            self.move_door(DoorStatus::Close, now);
        }
    }

    /// Second step: with no request being served, the oldest waiting request
    /// leaves the queue, and is taken up if the building has its floor.
    fn intake(&mut self)
        ensures
            final(self)@ == old(self)@.intake(),
            old(self).inv() ==> final(self).inv(),
    {
        if self.current_action.val().is_none() {
            match self.action_queue.pop_front() {
                Some(action) => {
                    if action.floor() <= self.top_floor.val() {
                        self.current_action.set(Some(action));
                    }
                },
                None => {},
            }
        }
        proof {
            let after = old(self)@.intake();
            assert(self@.queue =~= after.queue);
            assert(self@.up =~= after.up);
            assert(self@.down =~= after.down);
            assert(self@.active =~= after.active);
        }
    }

    /// The car answers the floor it stands at.
    fn arrive(&mut self, now: u64)
        requires
            old(self).inv(),
            old(self)@.floor <= old(self)@.top_floor,
        ensures
            final(self)@ == old(self)@.arrive(now),
            final(self).inv(),
    {
        let current_floor: u8 = self.floor.val();
        self.current_action.set(None);
        if !self.is_idle() {
            self.moving_status.set(MovingStatus::Idle);
        }
        self.move_door(DoorStatus::Open, now);
        self.outside_buttons[current_floor as usize].down.set_false();
        self.outside_buttons[current_floor as usize].up.set_false();
        self.inside_buttons[current_floor as usize].active.set_false();
        proof {
            let after = old(self)@.arrive(now);
            assert(self@.up =~= after.up);
            assert(self@.down =~= after.down);
            assert(self@.active =~= after.active);
        }
    }

    /// Third step: the car heads for the floor of the request being served,
    /// with its door closed, or answers that floor if it stands there.
    fn progress(&mut self, now: u64)
        requires
            old(self).inv(),
            old(self)@.floor <= old(self)@.top_floor,
        ensures
            final(self)@ == old(self)@.progress(now),
            final(self).inv(),
    {
        let current_floor: u8 = self.floor.val();
        match self.current_action.val() {
            Some(action) => {
                let target: u8 = action.floor();
                if target > current_floor {
                    self.door_status.set(DoorStatus::Close);
                    if !self.is_moving_up() {
                        self.moving_status.set(MovingStatus::Up);
                    }
                } else if target < current_floor {
                    self.door_status.set(DoorStatus::Close);
                    if !self.is_moving_down() {
                        self.moving_status.set(MovingStatus::Down);
                    }
                } else {
                    self.arrive(now);
                }
            },
            None => {},
        }
    }

    /// Fourth step: the car covers one interval more of its way, or is one
    /// floor further once it has covered a floor's worth.
    fn motion(&mut self)
        ensures
            final(self)@ == old(self)@.motion(),
            old(self).inv() ==> final(self).inv(),
    {
        let distance: u64 = self.distance.val();
        if distance >= FLOOR_TRAVEL_MS {
            self.distance.set(0);
            match self.moving_status.val() {
                MovingStatus::Up => {
                    self.floor.add(1);
                },
                MovingStatus::Down => {
                    self.floor.sub(1);
                },
                MovingStatus::Idle => {},
            }
        } else if self.moving_status.val() != MovingStatus::Idle {
            self.distance.set(distance + ELEVATOR_SELF_CHECK_MS);
        }
    }

    /// One pass of the background loop at time `now`: a door open for too
    /// long closes, the next request is taken up, the car heads for its floor
    /// with its door closed or answers it, and the car moves on.
    pub fn tick(&mut self, now: u64)
        requires
            old(self).wf(),
        ensures
            final(self).wf(),
            final(self)@ == old(self)@.after_tick(now),
    {
        self.auto_close(now);
        self.intake();
        self.progress(now);
        self.motion();
        proof {
            old(self)@.lemma_tick_keeps_valid(now);
        }
    }

    /// The point at which the loop suspends: a running task whose stop signal
    /// was triggered ends, any other sleeps until the next pass is due.
    pub fn suspend(&mut self) -> (control: LoopControl)
        requires
            old(self).wf(),
        ensures
            final(self).wf(),
            final(self)@ == old(self)@.after_suspend(),
            control == old(self)@.cycle_control(),
    {
        if !self.is_started() {
            return LoopControl::Exit;
        }
        let wait = match &self.signal {
            Some(signal) => signal.wait_signal(),
            None => Wait::Pending,
        };
        if wait == Wait::Ready {
            self.handle.set(Some(TaskStatus::Finished));
            assert(self@ =~= old(self)@.after_suspend());
            LoopControl::Exit
        } else {
            LoopControl::Sleep(ELEVATOR_SELF_CHECK_MS)
        }
    }

    /// One turn of the background loop by the clock: a pass at the time that
    /// the clock shows, then the point of suspension. A task that is not
    /// running makes no pass.
    pub fn cycle(&mut self) -> (control: LoopControl)
        requires
            old(self).wf(),
        ensures
            final(self).wf(),
            control == old(self)@.cycle_control(),
            exists|now: u64| final(self)@ == old(self)@.after_cycle(now),
    {
        if !self.is_started() {
            assert(self@ == old(self)@.after_cycle(0));
            return LoopControl::Exit;
        }
        let now: u64 = timestamp();
        self.tick(now);
        let control = self.suspend();
        assert(self@ == old(self)@.after_cycle(now));
        control
    }
}

impl Elevator {
    /// The id of the elevator.
    pub fn id(&self) -> (id: u8)
        ensures
            id == self@.id,
    {
        self.id.val()
    }

    /// The highest floor of the building.
    pub fn top_floor(&self) -> (top_floor: u8)
        ensures
            top_floor == self@.top_floor,
    {
        self.top_floor.val()
    }

    /// The floor at which the car is.
    pub fn floor(&self) -> (floor: u8)
        ensures
            floor == self@.floor,
    {
        self.floor.val()
    }

    /// The direction in which the car moves, if it does.
    pub fn moving_status(&self) -> (status: MovingStatus)
        ensures
            status == self@.moving_status,
    {
        self.moving_status.val()
    }

    /// Whether the door is closed or open.
    pub fn door_status(&self) -> (status: DoorStatus)
        ensures
            status == self@.door_status,
    {
        self.door_status.val()
    }

    /// Seconds since the epoch at which the door was last opened.
    pub fn door_last_open(&self) -> (seconds: u64)
        ensures
            seconds == self@.door_last_open,
    {
        self.door_last_open.val()
    }

    /// The request being served, if any.
    pub fn current_action(&self) -> (action: Option<ElevatorAction>)
        ensures
            action == self@.current_action,
    {
        self.current_action.val()
    }

    /// The buttons outside the car, by floor.
    pub fn outside_buttons(&self) -> (buttons: &Vec<OutSideButton>)
        requires
            self.wf(),
        ensures
            buttons@.len() == self@.top_floor + 1,
            forall|i: int|
                0 <= i < buttons@.len() ==> {
                    &&& (#[trigger] buttons@[i]).floor.value() == i
                    &&& buttons@[i].top_floor.value() == self@.top_floor
                    &&& buttons@[i].up.value() == self@.up[i]
                    &&& buttons@[i].down.value() == self@.down[i]
                },
    {
        &self.outside_buttons
    }

    /// The buttons inside the car, by floor.
    pub fn inside_buttons(&self) -> (buttons: &Vec<InSideButton>)
        requires
            self.wf(),
        ensures
            buttons@.len() == self@.top_floor + 1,
            forall|i: int|
                0 <= i < buttons@.len() ==> {
                    &&& (#[trigger] buttons@[i]).floor.value() == i
                    &&& buttons@[i].active.value() == self@.active[i]
                },
    {
        &self.inside_buttons
    }

    /// The requests that wait, oldest first.
    pub fn pending(&self) -> (waiting: Vec<ElevatorAction>)
        ensures
            waiting@ == self@.queue,
    {
        let mut waiting: Vec<ElevatorAction> = Vec::new();
        let count: usize = self.action_queue.len();
        let mut index: usize = 0;
        while index < count
            invariant
                index <= count,
                count == self.action_queue@.len(),
                waiting@ == self.action_queue@.subrange(0, index as int),
            decreases count - index,
        {
            waiting.push(self.action_queue[index]);
            assert(waiting@ =~= self.action_queue@.subrange(0, index + 1));
            index = index + 1;
        }
        assert(waiting@ =~= self.action_queue@);
        waiting
    }
}

} // verus!
