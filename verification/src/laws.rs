//! Laws of the elevator's state machine, each proved of every valid state.

use crate::action::{ElevatorAction, LoopControl, TaskStatus};
use crate::components::enums::{Direction, DoorStatus, MovingStatus};
use crate::components::error::ElevatorError;
use crate::machine::ElevatorState;
use crate::utils::constants::{ELEVATOR_SELF_CHECK_MS, FLOOR_TRAVEL_MS};
use vstd::prelude::*;

verus! {

impl ElevatorState {
    /// The state after `calls` calls from outside the car in a row, all on
    /// `floor` and in `direction`.
    pub open spec fn after_calls(self, floor: u8, direction: Direction, calls: nat) -> ElevatorState
        decreases calls,
    {
        if calls == 0 {
            self
        } else {
            self.after_calls(floor, direction, (calls - 1) as nat).after_call(floor, direction)
        }
    }

    /// The flag that a call in `direction` on `floor` flips.
    pub open spec fn flag(self, floor: u8, direction: Direction) -> bool {
        match direction {
            Direction::Up => self.up[floor as int],
            Direction::Down => self.down[floor as int],
        }
    }

    /// The state after `passes` passes of the background loop, of which the
    /// first is pass number `from` and each is made at the time that `clock`
    /// gives for its number.
    pub open spec fn run(self, clock: spec_fn(nat) -> u64, from: nat, passes: nat) -> ElevatorState
        decreases passes,
    {
        if passes == 0 {
            self
        } else {
            self.after_tick(clock(from)).run(clock, from + 1, (passes - 1) as nat)
        }
    }

    /// One request, for `target`, is pending and nothing else: it is being
    /// served with none waiting, or it waits alone with none being served.
    pub open spec fn pending_only(self, target: u8) -> bool {
        match self.current_action {
            Some(action) => action.target() == target && self.queue.len() == 0,
            None => self.queue.len() == 1 && self.queue[0].target() == target,
        }
    }

    /// The car has answered `target`: it stands there with its door open,
    /// the three flags of that floor are clear, and nothing is pending.
    pub open spec fn served(self, target: u8) -> bool {
        &&& self.floor == target
        &&& self.moving_status == MovingStatus::Idle
        &&& self.door_status == DoorStatus::Open
        &&& !self.up[target as int]
        &&& !self.down[target as int]
        &&& !self.active[target as int]
        &&& self.current_action is None
        &&& self.queue.len() == 0
    }

    /// How many floors lie between the car and `target`.
    pub open spec fn floors_to(self, target: u8) -> nat {
        if self.floor <= target {
            (target - self.floor) as nat
        } else {
            (self.floor - target) as nat
        }
    }

    /// How much of a floor's worth of travel is still to cover.
    pub open spec fn travel_left(self) -> nat {
        if self.distance >= FLOOR_TRAVEL_MS {
            0
        } else {
            (FLOOR_TRAVEL_MS - self.distance) as nat
        }
    }

    /// Every operation keeps a valid state valid: whatever is called and
    /// whatever is queued, the car stays within the floors, the buttons stay in
    /// place, and the door is open only while the car stands.
    pub proof fn law_operations_keep_valid(
        self,
        floor: u8,
        direction: Direction,
        action: ElevatorAction,
        status: DoorStatus,
        now: u64,
    )
        requires
            self.valid(),
        ensures
            self.after_call(floor, direction).valid(),
            self.after_request(action).valid(),
            self.after_submit(action).valid(),
            self.after_door_control(status, now).valid(),
            self.after_start().valid(),
            self.after_stop().valid(),
            self.after_abort().valid(),
            self.after_tick(now).valid(),
            self.after_suspend().valid(),
            self.after_cycle(now).valid(),
    {
        self.lemma_tick_keeps_valid(now);
    }

    /// A new elevator is valid, and stopping it fails for want of a signal.
    pub proof fn law_new_elevator(id: u8, top_floor: u8, floor: u8)
        requires
            floor <= top_floor,
        ensures
            ElevatorState::initial(id, top_floor, floor).valid(),
            !ElevatorState::initial(id, top_floor, floor).is_started(),
            ElevatorState::initial(id, top_floor, floor).stop_outcome() == Err::<(), ElevatorError>(
                ElevatorError::SignalNotExists,
            ),
    {
    }

    /// A call on a floor below the top in direction up, or above the bottom
    /// in direction down, is accepted. Where the flag was clear it is set and
    /// the queued request is not marked `cancel`; a second call is accepted
    /// too, its request is marked `cancel`, and it sets the flag back.
    pub proof fn law_call_then_repeat(self, floor: u8, direction: Direction)
        requires
            self.valid(),
            floor <= self.top_floor,
            direction == Direction::Up ==> floor < self.top_floor,
            direction == Direction::Down ==> floor > 0,
            !self.flag(floor, direction),
        ensures
            self.call_outcome(floor, direction) is Ok,
            self.after_call(floor, direction).flag(floor, direction),
            self.after_call(floor, direction).queue == self.queue.push(
                ElevatorAction::Request { floor, cancel: false },
            ),
            self.after_call(floor, direction).call_outcome(floor, direction) is Ok,
            !self.after_call(floor, direction).after_call(floor, direction).flag(floor, direction),
            self.after_call(floor, direction).after_call(floor, direction).queue == self.queue.push(
                ElevatorAction::Request { floor, cancel: false },
            ).push(ElevatorAction::Request { floor, cancel: true }),
    {
    }

    /// After any number of accepted calls on one floor in one direction the
    /// flag differs from what it was exactly if the number is odd, and every
    /// call has queued one request.
    pub proof fn law_call_parity(self, floor: u8, direction: Direction, calls: nat)
        requires
            self.valid(),
            self.call_outcome(floor, direction) is Ok,
        ensures
            self.after_calls(floor, direction, calls).valid(),
            self.after_calls(floor, direction, calls).flag(floor, direction) == (self.flag(
                floor,
                direction,
            ) != (calls % 2 == 1)),
            self.after_calls(floor, direction, calls).queue.len() == self.queue.len() + calls,
        decreases calls,
    {
        if calls > 0 {
            self.law_call_parity(floor, direction, (calls - 1) as nat);
            self.lemma_calls_keep_floors(floor, direction, (calls - 1) as nat);
        }
    }

    /// Calls do not change which floors the building has.
    proof fn lemma_calls_keep_floors(self, floor: u8, direction: Direction, calls: nat)
        ensures
            self.after_calls(floor, direction, calls).top_floor == self.top_floor,
        decreases calls,
    {
        if calls > 0 {
            self.lemma_calls_keep_floors(floor, direction, (calls - 1) as nat);
        }
    }

    /// A call upwards on the top floor fails as already at the highest floor,
    /// a call downwards on floor 0 as already at the lowest, and neither
    /// changes anything.
    pub proof fn law_call_at_the_ends(self)
        ensures
            self.call_outcome(self.top_floor, Direction::Up) == Err::<(), ElevatorError>(
                ElevatorError::AlreadyMaxFloor,
            ),
            self.after_call(self.top_floor, Direction::Up) == self,
            self.call_outcome(0, Direction::Down) == Err::<(), ElevatorError>(
                ElevatorError::AlreadyMinFloor,
            ),
            self.after_call(0, Direction::Down) == self,
    {
    }

    /// Starting an elevator whose task is not running succeeds, and starting
    /// it again right away fails as already started and changes nothing.
    pub proof fn law_start_twice(self)
        requires
            !self.is_started(),
        ensures
            self.start_outcome() is Ok,
            self.after_start().is_started(),
            self.after_start().start_outcome() == Err::<(), ElevatorError>(
                ElevatorError::AlreadyStarted,
            ),
            self.after_start().after_start() == self.after_start(),
    {
    }

    /// An elevator that was never started stays so under every operation but
    /// a start, and stopping it fails for want of a signal.
    pub proof fn law_stop_before_start(
        self,
        floor: u8,
        direction: Direction,
        action: ElevatorAction,
        status: DoorStatus,
        now: u64,
    )
        requires
            self.signal is None,
        ensures
            self.stop_outcome() == Err::<(), ElevatorError>(ElevatorError::SignalNotExists),
            self.after_stop() == self,
            self.after_call(floor, direction).signal is None,
            self.after_request(action).signal is None,
            self.after_submit(action).signal is None,
            self.after_door_control(status, now).signal is None,
            self.after_abort().signal is None,
            self.after_tick(now).signal is None,
            self.after_cycle(now).signal is None,
    {
    }

    /// A running task that was not told to stop makes a pass at every turn of
    /// its loop, sleeps, and is still running afterwards.
    pub proof fn law_running_loop_makes_passes(self, now: u64)
        requires
            self.is_started(),
            !self.stop_requested(),
        ensures
            self.after_cycle(now) == self.after_tick(now),
            self.cycle_control() == LoopControl::Sleep(ELEVATOR_SELF_CHECK_MS),
            self.after_cycle(now).is_started(),
            !self.after_cycle(now).stop_requested(),
    {
    }

    /// Stopping a running elevator succeeds; its loop ends at the next point
    /// of suspension; a start then succeeds and gives a running task with a
    /// fresh signal and no distance travelled, and leaves all else as the
    /// last pass left it.
    pub proof fn law_stop_then_restart(self, now: u64)
        requires
            self.valid(),
            self.is_started(),
        ensures
            self.stop_outcome() is Ok,
            self.after_stop().cycle_control() == LoopControl::Exit,
            !self.after_stop().after_cycle(now).is_started(),
            self.after_stop().after_cycle(now).start_outcome() is Ok,
            self.after_stop().after_cycle(now).after_start() == (ElevatorState {
                task: Some(TaskStatus::Running),
                signal: Some(false),
                distance: 0,
                ..self.after_tick(now)
            }),
            self.after_stop().after_cycle(now).after_start().valid(),
    {
        self.lemma_tick_keeps_valid(now);
    }

    /// Telling the door of a standing car to open, twice, leaves it open both
    /// times and records the time of the second telling.
    pub proof fn law_open_twice(self, first: u64, second: u64)
        requires
            self.moving_status == MovingStatus::Idle,
        ensures
            self.after_door_control(DoorStatus::Open, first).door_status == DoorStatus::Open,
            self.after_door_control(DoorStatus::Open, first).door_last_open == first,
            self.after_door_control(DoorStatus::Open, first).after_door_control(
                DoorStatus::Open,
                second,
            ) == self.after_door_control(DoorStatus::Open, second),
            self.after_door_control(DoorStatus::Open, second).door_status == DoorStatus::Open,
            self.after_door_control(DoorStatus::Open, second).door_last_open == second,
    {
    }

    /// The door is never open while the car moves. That holds of a new
    /// elevator and after every operation and every pass: a moving car's door
    /// does not obey, and a car that sets out closes its door.
    pub proof fn law_door_is_closed_while_moving(
        self,
        floor: u8,
        direction: Direction,
        action: ElevatorAction,
        status: DoorStatus,
        now: u64,
    )
        requires
            self.valid(),
        ensures
            self.moving_status != MovingStatus::Idle ==> self.door_status == DoorStatus::Close,
            self.moving_status != MovingStatus::Idle ==> self.after_door_control(status, now)
                == self,
            self.after_door_control(status, now).moving_status != MovingStatus::Idle
                ==> self.after_door_control(status, now).door_status == DoorStatus::Close,
            self.after_tick(now).moving_status != MovingStatus::Idle ==> self.after_tick(
                now,
            ).door_status == DoorStatus::Close,
            self.after_cycle(now).moving_status != MovingStatus::Idle ==> self.after_cycle(
                now,
            ).door_status == DoorStatus::Close,
            self.after_call(floor, direction).moving_status != MovingStatus::Idle
                ==> self.after_call(floor, direction).door_status == DoorStatus::Close,
            self.after_request(action).moving_status != MovingStatus::Idle ==> self.after_request(
                action,
            ).door_status == DoorStatus::Close,
            self.after_submit(action).moving_status != MovingStatus::Idle ==> self.after_submit(
                action,
            ).door_status == DoorStatus::Close,
    {
        self.law_operations_keep_valid(floor, direction, action, status, now);
    }

    /// An elevator with one pending request, for one of the building's
    /// floors, and nothing else answers it: after the number of passes that
    /// this proof gives, whatever the clock shows at each, the car stands at
    /// the request's floor with its door open, the three flags of that floor
    /// are clear, and nothing is pending.
    pub proof fn law_pending_request_is_served(
        self,
        clock: spec_fn(nat) -> u64,
        from: nat,
        target: u8,
    ) -> (passes: nat)
        requires
            self.valid(),
            self.pending_only(target),
            target <= self.top_floor,
        ensures
            passes >= 1,
            self.run(clock, from, passes).served(target),
            self.run(clock, from, passes).valid(),
        decreases self.floors_to(target), self.travel_left(),
    {
        let now = clock(from);
        let next = self.after_tick(now);
        self.lemma_tick_keeps_valid(now);
        if self.floor == target {
            assert(next.run(clock, from + 1, 0) == next);
            1
        } else {
            let rest = next.law_pending_request_is_served(clock, from + 1, target);
            rest + 1
        }
    }

    /// Requests leave the queue in the order in which they came: a call, a
    /// request from inside and a submitted action each join at the back; a
    /// pass takes the one at the front, and only while none is being served.
    /// What it takes is served, unless it names a floor that the building
    /// does not have: that one is dropped.
    pub proof fn law_first_come_first_served(
        self,
        floor: u8,
        direction: Direction,
        action: ElevatorAction,
        now: u64,
    )
        requires
            self.valid(),
        ensures
            self.call_outcome(floor, direction) is Ok ==> self.after_call(
                floor,
                direction,
            ).queue.drop_last() == self.queue,
            self.request_outcome(action) is Ok ==> self.after_request(action).queue
                == self.queue.push(action),
            self.after_submit(action).queue == self.queue.push(action),
            self.current_action is Some ==> self.after_tick(now).queue == self.queue,
            self.current_action is None && self.queue.len() > 0 ==> {
                &&& self.after_tick(now).queue == self.queue.drop_first()
                &&& self.after_tick(now).current_action == if self.queue[0].target()
                    == self.floor || self.queue[0].target() > self.top_floor {
                    None
                } else {
                    Some(self.queue[0])
                }
            },
    {
        if self.call_outcome(floor, direction) is Ok {
            assert(self.after_call(floor, direction).queue.drop_last() =~= self.queue);
        }
    }

    /// An elevator with nothing pending stays where it is: a pass leaves the
    /// car at its floor, standing, and the flags as they were.
    pub proof fn law_idle_elevator_stays(self, now: u64)
        requires
            self.valid(),
            self.current_action is None,
            self.queue.len() == 0,
        ensures
            self.after_tick(now).floor == self.floor,
            self.after_tick(now).moving_status == MovingStatus::Idle,
            self.after_tick(now).up == self.up,
            self.after_tick(now).down == self.down,
            self.after_tick(now).active == self.active,
            self.after_tick(now).current_action is None,
            self.after_tick(now).queue.len() == 0,
    {
    }
}

} // verus!
