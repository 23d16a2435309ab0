//! The controller: a fixed fleet of elevators, each reached by its id.

use crate::action::{ElevatorAction, LoopControl};
use crate::button::OutSideButton;
use crate::components::enums::{Direction, DoorStatus};
use crate::components::error::{ElevatorControllerError, ElevatorError};
use crate::elevator::Elevator;
use crate::machine::ElevatorState;
use crate::utils::atomic::{AtomicValue, I16};
use crate::utils::common::timestamp;
use vstd::prelude::*;

verus! {

/// All that a controller holds: the offset by which floors are numbered on
/// displays, and the state of each elevator, by id.
pub struct FleetState {
    pub display_offset: i16,
    pub elevators: Seq<ElevatorState>,
}

impl FleetState {
    /// Every elevator is valid and sits at the place of its id.
    pub open spec fn valid(self) -> bool {
        &&& self.elevators.len() <= 255
        &&& forall|i: int|
            0 <= i < self.elevators.len() ==> {
                &&& (#[trigger] self.elevators[i]).valid()
                &&& self.elevators[i].id == i
            }
    }

    /// The fleet has an elevator `id`.
    pub open spec fn has(self, id: u8) -> bool {
        id < self.elevators.len()
    }

    /// The fleet with the state of elevator `id` replaced.
    pub open spec fn with(self, id: u8, state: ElevatorState) -> FleetState {
        FleetState { elevators: self.elevators.update(id as int, state), ..self }
    }

    /// What the fleet answers to something asked of elevator `id`, given what
    /// that elevator answers.
    pub open spec fn outcome_of(self, id: u8, answer: Result<(), ElevatorError>) -> Result<
        (),
        ElevatorControllerError,
    > {
        if !self.has(id) {
            Err(ElevatorControllerError::GetElevatorError)
        } else {
            match answer {
                Ok(()) => Ok(()),
                Err(refused) => Err(ElevatorControllerError::ElevatorError(refused)),
            }
        }
    }

    /// What a request from inside the car of elevator `id` answers.
    pub open spec fn request_outcome(self, id: u8, action: ElevatorAction) -> Result<
        (),
        ElevatorControllerError,
    > {
        if !self.has(id) {
            Err(ElevatorControllerError::GetElevatorError)
        } else {
            self.outcome_of(id, self.elevators[id as int].request_outcome(action))
        }
    }

    /// The fleet after a request from inside the car of elevator `id`.
    pub open spec fn after_request(self, id: u8, action: ElevatorAction) -> FleetState {
        if !self.has(id) {
            self
        } else {
            self.with(id, self.elevators[id as int].after_request(action))
        }
    }

    /// What a call from outside the car of elevator `id` answers.
    pub open spec fn call_outcome(self, id: u8, floor: u8, direction: Direction) -> Result<
        (),
        ElevatorControllerError,
    > {
        if !self.has(id) {
            Err(ElevatorControllerError::GetElevatorError)
        } else {
            self.outcome_of(id, self.elevators[id as int].call_outcome(floor, direction))
        }
    }

    /// The fleet after a call from outside the car of elevator `id`.
    pub open spec fn after_call(self, id: u8, floor: u8, direction: Direction) -> FleetState {
        if !self.has(id) {
            self
        } else {
            self.with(id, self.elevators[id as int].after_call(floor, direction))
        }
    }

    /// The fleet after the door of elevator `id` was told to take `status`.
    pub open spec fn after_door_control(self, id: u8, status: DoorStatus, now: u64) -> FleetState {
        if !self.has(id) {
            self
        } else {
            self.with(id, self.elevators[id as int].after_door_control(status, now))
        }
    }

    /// The fleet after a pass of the background loop of elevator `id`.
    pub open spec fn after_tick(self, id: u8, now: u64) -> FleetState {
        if !self.has(id) {
            self
        } else {
            self.with(id, self.elevators[id as int].after_tick(now))
        }
    }

    /// The fleet after one turn of the background loop of elevator `id`.
    pub open spec fn after_cycle(self, id: u8, now: u64) -> FleetState {
        if !self.has(id) {
            self
        } else {
            self.with(id, self.elevators[id as int].after_cycle(now))
        }
    }

    /// What the background loop of elevator `id` does after that turn.
    pub open spec fn cycle_control(self, id: u8) -> LoopControl {
        if !self.has(id) {
            LoopControl::Exit
        } else {
            self.elevators[id as int].cycle_control()
        }
    }

    /// What starting elevator `id` answers.
    pub open spec fn start_outcome(self, id: u8) -> Result<(), ElevatorControllerError> {
        if !self.has(id) {
            Err(ElevatorControllerError::GetElevatorError)
        } else {
            self.outcome_of(id, self.elevators[id as int].start_outcome())
        }
    }

    /// The fleet after elevator `id` was started.
    pub open spec fn after_start(self, id: u8) -> FleetState {
        if !self.has(id) {
            self
        } else {
            self.with(id, self.elevators[id as int].after_start())
        }
    }

    /// What stopping elevator `id` answers.
    pub open spec fn stop_outcome(self, id: u8) -> Result<(), ElevatorControllerError> {
        if !self.has(id) {
            Err(ElevatorControllerError::GetElevatorError)
        } else {
            self.outcome_of(id, self.elevators[id as int].stop_outcome())
        }
    }

    /// The fleet after elevator `id` was stopped.
    pub open spec fn after_stop(self, id: u8) -> FleetState {
        if !self.has(id) {
            self
        } else {
            self.with(id, self.elevators[id as int].after_stop())
        }
    }

    /// The fleet after the task of elevator `id` was aborted.
    pub open spec fn after_abort(self, id: u8) -> FleetState {
        if !self.has(id) {
            self
        } else {
            self.with(id, self.elevators[id as int].after_abort())
        }
    }

    /// The fleet after `action` was queued for elevator `id`.
    pub open spec fn after_submit(self, id: u8, action: ElevatorAction) -> FleetState {
        if !self.has(id) {
            self
        } else {
            self.with(id, self.elevators[id as int].after_submit(action))
        }
    }

    /// The fleet after every elevator was started: each that was not running
    /// runs, each that was running is as it was.
    pub open spec fn after_start_all(self) -> FleetState {
        FleetState {
            elevators: Seq::new(self.elevators.len(), |i: int| self.elevators[i].after_start()),
            ..self
        }
    }

    /// The fleet after every elevator was stopped: each that has a stop signal
    /// has it triggered, each that was never started is as it was.
    pub open spec fn after_stop_all(self) -> FleetState {
        FleetState {
            elevators: Seq::new(self.elevators.len(), |i: int| self.elevators[i].after_stop()),
            ..self
        }
    }
}

/// The controller of a fleet of elevators. The fleet is fixed when the
/// controller is made.
#[derive(Debug)]
pub struct ElevatorController {
    display_offset: I16,
    elevators: Vec<Elevator>,
}

impl View for ElevatorController {
    type V = FleetState;

    closed spec fn view(&self) -> FleetState {
        FleetState {
            display_offset: self.display_offset.value(),
            elevators: Seq::new(self.elevators@.len(), |i: int| self.elevators@[i]@),
        }
    }
}

impl ElevatorController {
    /// Every elevator of the fleet has its buttons in place.
    pub closed spec fn inv(&self) -> bool {
        forall|i: int| 0 <= i < self.elevators@.len() ==> (#[trigger] self.elevators@[i]).inv()
    }

    /// The controller is well formed: its elevators are, and each sits at the
    /// place of its id.
    pub open spec fn wf(&self) -> bool {
        &&& self.inv()
        &&& self@.valid()
    }

    /// A controller of `num_elevators` elevators with the ids from 0 up, each
    /// new, for `num_floors` floors and standing at `init_floor`. A count of
    /// 0 floors is taken as 1, and cars asked to stand above the top floor
    /// stand at the top floor.
    pub fn new(display_offset: i16, num_floors: u8, init_floor: u8, num_elevators: u8) -> (controller:
        Self)
        ensures
            controller.wf(),
            controller@.display_offset == display_offset,
            controller@.elevators.len() == num_elevators,
            forall|i: int|
                0 <= i < num_elevators ==> #[trigger] controller@.elevators[i]
                    == ElevatorState::initial(
                    i as u8,
                    ElevatorState::top_of(num_floors),
                    ElevatorState::start_of(num_floors, init_floor),
                ),
    {
        let mut elevators: Vec<Elevator> = Vec::new();
        let mut id: u8 = 0;
        while id < num_elevators
            invariant
                id <= num_elevators,
                elevators@.len() == id,
                forall|i: int|
                    0 <= i < id ==> {
                        &&& (#[trigger] elevators@[i]).wf()
                        &&& elevators@[i]@ == ElevatorState::initial(
                            i as u8,
                            ElevatorState::top_of(num_floors),
                            ElevatorState::start_of(num_floors, init_floor),
                        )
                    },
            decreases num_elevators - id,
        {
            elevators.push(Elevator::new(id, num_floors, init_floor));
            id = id + 1;
        }
        ElevatorController { display_offset: I16::new(display_offset), elevators }
    }

    /// The offset by which floors are numbered on displays.
    pub fn display_offset(&self) -> (offset: i16)
        ensures
            offset == self@.display_offset,
    {
        self.display_offset.val()
    }

    /// How many elevators the fleet has.
    pub fn num_elevators(&self) -> (count: usize)
        ensures
            count == self@.elevators.len(),
    {
        self.elevators.len()
    }

    /// The elevators of the fleet, by id.
    pub fn elevators(&self) -> (elevators: &Vec<Elevator>)
        requires
            self.wf(),
        ensures
            elevators@.len() == self@.elevators.len(),
            forall|i: int|
                0 <= i < elevators@.len() ==> {
                    &&& (#[trigger] elevators@[i]).wf()
                    &&& elevators@[i]@ == self@.elevators[i]
                },
    {
        proof {
            assert forall|i: int| 0 <= i < self.elevators@.len() implies {
                &&& (#[trigger] self.elevators@[i]).wf()
                &&& self.elevators@[i]@ == self@.elevators[i]
            } by {
                self.lemma_member(i);
            }
        }
        &self.elevators
    }

    /// The elevator `elevator_id`, if the fleet has it.
    pub fn get_elevator(&self, elevator_id: u8) -> (found: Result<
        &Elevator,
        ElevatorControllerError,
    >)
        requires
            self.wf(),
        ensures
            !self@.has(elevator_id) ==> found == Err::<&Elevator, ElevatorControllerError>(
                ElevatorControllerError::GetElevatorError,
            ),
            self@.has(elevator_id) ==> found is Ok && {
                let elevator = found->Ok_0;
                &&& elevator.wf()
                &&& elevator@ == self@.elevators[elevator_id as int]
            },
    {
        if elevator_id as usize >= self.elevators.len() {
            return Err(ElevatorControllerError::GetElevatorError);
        }
        proof {
            self.lemma_member(elevator_id as int);
        }
        Ok(&self.elevators[elevator_id as usize])
    }

    /// The buttons outside the car of elevator `elevator_id` on `floor`, if
    /// the fleet has the elevator and the building the floor.
    pub fn get_outside_button(&self, elevator_id: u8, floor: u8) -> (found: Result<
        &OutSideButton,
        ElevatorControllerError,
    >)
        requires
            self.wf(),
        ensures
            !self@.has(elevator_id) ==> found == Err::<&OutSideButton, ElevatorControllerError>(
                ElevatorControllerError::GetElevatorError,
            ),
            self@.has(elevator_id) && floor > self@.elevators[elevator_id as int].top_floor
                ==> found == Err::<&OutSideButton, ElevatorControllerError>(
                ElevatorControllerError::ElevatorError(ElevatorError::FloorButtonNotExists),
            ),
            self@.has(elevator_id) && floor <= self@.elevators[elevator_id as int].top_floor
                ==> found is Ok && {
                let button = found->Ok_0;
                let elevator = self@.elevators[elevator_id as int];
                &&& button.floor.value() == floor
                &&& button.top_floor.value() == elevator.top_floor
                &&& button.up.value() == elevator.up[floor as int]
                &&& button.down.value() == elevator.down[floor as int]
            },
    {
        match self.get_elevator(elevator_id) {
            Err(unknown) => Err(unknown),
            Ok(elevator) => match elevator.outside_button(floor) {
                Err(refused) => Err(ElevatorControllerError::ElevatorError(refused)),
                Ok(button) => Ok(button),
            },
        }
    }

    /// A request from inside the car of elevator `elevator_id`. It is refused
    /// where the fleet has no such elevator or the building not the floor of
    /// `action`, and then nothing changes. Otherwise the floor's selection is
    /// set in that elevator and `action` is queued there.
    pub fn request_elevator(&mut self, elevator_id: u8, action: ElevatorAction) -> (outcome: Result<
        (),
        ElevatorControllerError,
    >)
        requires
            old(self).wf(),
        ensures
            final(self).wf(),
            outcome == old(self)@.request_outcome(elevator_id, action),
            final(self)@ == old(self)@.after_request(elevator_id, action),
    {
        if elevator_id as usize >= self.elevators.len() {
            return Err(ElevatorControllerError::GetElevatorError);
        }
        proof {
            self.lemma_member(elevator_id as int);
        }
        let answer = self.elevators[elevator_id as usize].request_inside(action);
        proof {
            self.lemma_replaced(*old(self), elevator_id);
        }
        match answer {
            Ok(()) => Ok(()),
            Err(refused) => Err(ElevatorControllerError::ElevatorError(refused)),
        }
    }

    /// A call from outside the car of elevator `elevator_id`, on `floor` and
    /// in `direction`. It is refused where the fleet has no such elevator, or
    /// where that elevator refuses it, and then nothing changes.
    pub fn call_elevator(&mut self, elevator_id: u8, floor: u8, direction: Direction) -> (outcome:
        Result<(), ElevatorControllerError>)
        requires
            old(self).wf(),
        ensures
            final(self).wf(),
            outcome == old(self)@.call_outcome(elevator_id, floor, direction),
            final(self)@ == old(self)@.after_call(elevator_id, floor, direction),
    {
        if elevator_id as usize >= self.elevators.len() {
            return Err(ElevatorControllerError::GetElevatorError);
        }
        proof {
            self.lemma_member(elevator_id as int);
        }
        let answer = self.elevators[elevator_id as usize].call(floor, direction);
        proof {
            self.lemma_replaced(*old(self), elevator_id);
        }
        match answer {
            Ok(()) => Ok(()),
            Err(refused) => Err(ElevatorControllerError::ElevatorError(refused)),
        }
    }

    /// Tells the door of elevator `id` to take `status`, at time `now`. It is
    /// refused where the fleet has no such elevator. A door that does not
    /// obey because its car moves is no error.
    pub fn door_control_at(&mut self, id: u8, status: DoorStatus, now: u64) -> (outcome: Result<
        (),
        ElevatorControllerError,
    >)
        requires
            old(self).wf(),
        ensures
            final(self).wf(),
            outcome == old(self)@.outcome_of(id, Ok(())),
            final(self)@ == old(self)@.after_door_control(id, status, now),
    {
        if id as usize >= self.elevators.len() {
            return Err(ElevatorControllerError::GetElevatorError);
        }
        proof {
            self.lemma_member(id as int);
        }
        self.elevators[id as usize].door_control_at(status, now);
        proof {
            self.lemma_replaced(*old(self), id);
        }
        Ok(())
    }

    /// Tells the door of elevator `id` to take `status`, at the time that the
    /// clock shows.
    pub fn door_control(&mut self, id: u8, status: DoorStatus) -> (outcome: Result<
        (),
        ElevatorControllerError,
    >)
        requires
            old(self).wf(),
        ensures
            final(self).wf(),
            outcome == old(self)@.outcome_of(id, Ok(())),
            exists|now: u64| final(self)@ == old(self)@.after_door_control(id, status, now),
    {
        let now: u64 = timestamp();
        self.door_control_at(id, status, now)
    }

    /// Starts the background task of elevator `id`. It is refused where the
    /// fleet has no such elevator or its task is running, and then nothing
    /// changes.
    pub fn start_elevator(&mut self, id: u8) -> (outcome: Result<(), ElevatorControllerError>)
        requires
            old(self).wf(),
        ensures
            final(self).wf(),
            outcome == old(self)@.start_outcome(id),
            final(self)@ == old(self)@.after_start(id),
    {
        if id as usize >= self.elevators.len() {
            return Err(ElevatorControllerError::GetElevatorError);
        }
        proof {
            self.lemma_member(id as int);
        }
        let answer = self.elevators[id as usize].start();
        proof {
            self.lemma_replaced(*old(self), id);
        }
        match answer {
            Ok(()) => Ok(()),
            Err(refused) => Err(ElevatorControllerError::ElevatorError(refused)),
        }
    }

    /// Triggers the stop signal of elevator `id`. It is refused where the
    /// fleet has no such elevator or the elevator was never started, and then
    /// nothing changes.
    pub fn stop_elevator(&mut self, id: u8) -> (outcome: Result<(), ElevatorControllerError>)
        requires
            old(self).wf(),
        ensures
            final(self).wf(),
            outcome == old(self)@.stop_outcome(id),
            final(self)@ == old(self)@.after_stop(id),
    {
        if id as usize >= self.elevators.len() {
            return Err(ElevatorControllerError::GetElevatorError);
        }
        proof {
            self.lemma_member(id as int);
        }
        let answer = self.elevators[id as usize].stop();
        proof {
            self.lemma_replaced(*old(self), id);
        }
        match answer {
            Ok(()) => Ok(()),
            Err(refused) => Err(ElevatorControllerError::ElevatorError(refused)),
        }
    }

    /// Ends the background task of elevator `id` at once, if there is one. It
    /// is refused where the fleet has no such elevator.
    pub fn abort_elevator(&mut self, id: u8) -> (outcome: Result<(), ElevatorControllerError>)
        requires
            old(self).wf(),
        ensures
            final(self).wf(),
            outcome == old(self)@.outcome_of(id, Ok(())),
            final(self)@ == old(self)@.after_abort(id),
    {
        if id as usize >= self.elevators.len() {
            return Err(ElevatorControllerError::GetElevatorError);
        }
        proof {
            self.lemma_member(id as int);
        }
        self.elevators[id as usize].abort();
        proof {
            self.lemma_replaced(*old(self), id);
        }
        Ok(())
    }

    /// Queues `action` for elevator `id` behind the requests that wait there,
    /// without touching a button. It is refused where the fleet has no such
    /// elevator.
    pub fn submit_elevator(&mut self, id: u8, action: ElevatorAction) -> (outcome: Result<
        (),
        ElevatorControllerError,
    >)
        requires
            old(self).wf(),
        ensures
            final(self).wf(),
            outcome == old(self)@.outcome_of(id, Ok(())),
            final(self)@ == old(self)@.after_submit(id, action),
    {
        if id as usize >= self.elevators.len() {
            return Err(ElevatorControllerError::GetElevatorError);
        }
        proof {
            self.lemma_member(id as int);
        }
        self.elevators[id as usize].submit(action);
        proof {
            self.lemma_replaced(*old(self), id);
        }
        Ok(())
    }

    /// One pass of the background loop of elevator `id` at time `now`.
    pub fn tick_elevator(&mut self, id: u8, now: u64) -> (outcome: Result<
        (),
        ElevatorControllerError,
    >)
        requires
            old(self).wf(),
        ensures
            final(self).wf(),
            outcome == old(self)@.outcome_of(id, Ok(())),
            final(self)@ == old(self)@.after_tick(id, now),
    {
        if id as usize >= self.elevators.len() {
            return Err(ElevatorControllerError::GetElevatorError);
        }
        proof {
            self.lemma_member(id as int);
        }
        self.elevators[id as usize].tick(now);
        proof {
            self.lemma_replaced(*old(self), id);
        }
        Ok(())
    }

    /// One turn of the background loop of elevator `id` by the clock. With no
    /// such elevator the loop ends.
    pub fn cycle_elevator(&mut self, id: u8) -> (control: LoopControl)
        requires
            old(self).wf(),
        ensures
            final(self).wf(),
            control == old(self)@.cycle_control(id),
            exists|now: u64| final(self)@ == old(self)@.after_cycle(id, now),
    {
        if id as usize >= self.elevators.len() {
            assert(self@ == old(self)@.after_cycle(id, 0));
            return LoopControl::Exit;
        }
        proof {
            self.lemma_member(id as int);
        }
        let control = self.elevators[id as usize].cycle();
        proof {
            self.lemma_replaced(*old(self), id);
            let now: u64 = choose|now: u64|
                self.elevators@[id as int]@ == old(self)@.elevators[id as int].after_cycle(now);
            assert(self@ == old(self)@.after_cycle(id, now));
        }
        control
    }

    /// Starts the background task of every elevator that is not running, in
    /// the order of the ids. An elevator that is running stays as it is and
    /// does not keep the others from starting.
    pub fn start_all_elevators(&mut self)
        requires
            old(self).wf(),
        ensures
            final(self).wf(),
            final(self)@ == old(self)@.after_start_all(),
    {
        let count: usize = self.elevators.len();
        let mut index: usize = 0;
        proof {
            assert forall|i: int| 0 <= i < count implies (#[trigger] self.elevators@[i]).wf() by {
                self.lemma_member(i);
            }
        }
        while index < count
            invariant
                index <= count,
                count == self.elevators@.len(),
                count == old(self).elevators@.len(),
                self.display_offset == old(self).display_offset,
                old(self).wf(),
                forall|i: int|
                    0 <= i < count ==> {
                        &&& (#[trigger] self.elevators@[i]).wf()
                        &&& self.elevators@[i]@ == if i < index {
                            old(self).elevators@[i]@.after_start()
                        } else {
                            old(self).elevators@[i]@
                        }
                    },
            decreases count - index,
        {
            let ghost before = self.elevators@;
            let _ = self.elevators[index].start();
            assert(self.elevators@ =~= before.update(index as int, self.elevators@[index as int]));
            index = index + 1;
        }
        assert(self@.elevators =~= old(self)@.after_start_all().elevators);
    }

    /// Triggers the stop signal of every elevator that has one, in the order
    /// of the ids. An elevator that was never started stays as it is and does
    /// not keep the others from stopping.
    pub fn stop_all_elevators(&mut self)
        requires
            old(self).wf(),
        ensures
            final(self).wf(),
            final(self)@ == old(self)@.after_stop_all(),
    {
        let count: usize = self.elevators.len();
        let mut index: usize = 0;
        proof {
            assert forall|i: int| 0 <= i < count implies (#[trigger] self.elevators@[i]).wf() by {
                self.lemma_member(i);
            }
        }
        while index < count
            invariant
                index <= count,
                count == self.elevators@.len(),
                count == old(self).elevators@.len(),
                self.display_offset == old(self).display_offset,
                old(self).wf(),
                forall|i: int|
                    0 <= i < count ==> {
                        &&& (#[trigger] self.elevators@[i]).wf()
                        &&& self.elevators@[i]@ == if i < index {
                            old(self).elevators@[i]@.after_stop()
                        } else {
                            old(self).elevators@[i]@
                        }
                    },
            decreases count - index,
        {
            let ghost before = self.elevators@;
            let _ = self.elevators[index].stop();
            assert(self.elevators@ =~= before.update(index as int, self.elevators@[index as int]));
            index = index + 1;
        }
        assert(self@.elevators =~= old(self)@.after_stop_all().elevators);
    }

    /// In a well formed fleet each elevator is well formed and has the id of
    /// its place.
    proof fn lemma_member(&self, id: int)
        requires
            self.wf(),
            0 <= id < self.elevators@.len(),
        ensures
            self.elevators@[id].wf(),
            self.elevators@[id]@ == self@.elevators[id],
            self.elevators@[id]@.id == id,
    {
        assert(self@.elevators[id].valid());
    }

    /// Where one elevator of a well formed fleet was replaced by a well
    /// formed elevator of the same id, the fleet is well formed, and its
    /// state is the former with that elevator's state replaced.
    proof fn lemma_replaced(&self, before: ElevatorController, id: u8)
        requires
            before.wf(),
            before@.has(id),
            self.display_offset == before.display_offset,
            self.elevators@ == before.elevators@.update(id as int, self.elevators@[id as int]),
            self.elevators@[id as int].wf(),
            self.elevators@[id as int]@.id == id,
        ensures
            self.wf(),
            self@ == before@.with(id, self.elevators@[id as int]@),
    {
        assert forall|i: int| 0 <= i < self@.elevators.len() implies {
            &&& (#[trigger] self@.elevators[i]).valid()
            &&& self@.elevators[i].id == i
        } by {
            if i != id {
                before.lemma_member(i);
            }
        }
        assert(self@.elevators =~= before@.with(id, self.elevators@[id as int]@).elevators);
    }
}

} // verus!
