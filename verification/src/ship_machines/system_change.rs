//! The system transfer: a ship on its way through a wormhole to its home
//! system.

use crate::clock::utc_now;
use crate::cargo::{first_goods, has_goods, next_to_sell};
use crate::shared::{same_ship, FlightPlanData, Ship, Timestamp};
use crate::ship_machines::trader::{Trader, TraderPhase, TraderState};
use crate::ship_machines::voyage::{
    spec_voyage_request, voyage_request, voyage_step, voyage_transition, VoyagePhase,
    VoyageProgress,
};
use crate::ship_machines::{
    failure_of, spec_failure_of, Event, MachineType, PollResult, Request, StepError, StepResult,
};
use vstd::prelude::*;

verus! {

/// The states of a system transfer.
#[derive(Debug, Clone, Copy, PartialEq, Eq, Structural)]
pub enum SystemChangeState {
    InitializeShip,
    WaitForArrival,
    MoveToWormhole,
    WaitForArrivalAtWormhole,
    Warp,
    WaitForWarp,
}

/// The machine of a ship that changes systems.
#[derive(Debug, Clone, PartialEq, Eq)]
pub struct SystemChange {
    pub user_id: String,
    pub username: String,
    pub ship: Ship,
    /// The system the ship is bound for.
    pub system: String,
    pub state: SystemChangeState,
    pub voyage: VoyagePhase,
    /// The wormhole that leads to the system, once the store has named it.
    pub wormhole: Option<String>,
    pub arrival_time: Timestamp,
    pub flight_plan: Option<FlightPlanData>,
}

/// A trader that has just been set up for `ship` in `system`.
pub open spec fn fresh_trader(
    machine: Trader,
    user_id: String,
    username: String,
    system: String,
    ship: Ship,
    now: Timestamp,
) -> bool {
    &&& machine.user_id == user_id
    &&& machine.username == username
    &&& machine.system == system
    &&& same_ship(machine.ship, ship)
    &&& machine.policy.excluded_sell_location@ == "OE-XV-91-2"@
    &&& machine.policy.minimum_purchase_quantity == 500
    &&& machine.state == TraderState::InitializeShip
    &&& machine.phase == TraderPhase::Start
    &&& machine.arrival_time == now
    &&& machine.route is None
    &&& machine.flight_plan is None
    &&& machine.destination is None
}

impl SystemChange {
    /// A transfer that has just been set up for `ship`, bound for `system`.
    pub open spec fn fresh(
        self,
        user_id: String,
        username: String,
        system: String,
        ship: Ship,
        now: Timestamp,
    ) -> bool {
        &&& self.user_id == user_id
        &&& self.username == username
        &&& self.system == system
        &&& same_ship(self.ship, ship)
        &&& self.state == SystemChangeState::InitializeShip
        &&& self.voyage == VoyagePhase::LookUpFuel
        &&& self.wormhole is None
        &&& self.arrival_time == now
        &&& self.flight_plan is None
    }

    /// A transfer of `ship` to `system`, set up at time `now`.
    pub fn new(user_id: String, username: String, system: String, ship: Ship, now: Timestamp) -> (machine:
        SystemChange)
        ensures
            machine.fresh(user_id, username, system, ship, now),
            machine.ship == ship,
    {
        SystemChange {
            user_id,
            username,
            ship,
            system,
            state: SystemChangeState::InitializeShip,
            voyage: VoyagePhase::LookUpFuel,
            wormhole: None,
            arrival_time: now,
            flight_plan: None,
        }
    }

    /// The transfer that takes a trader's ship to the system `home`.
    pub fn from(trader: &Trader, home: String, now: Timestamp) -> (machine: SystemChange)
        ensures
            machine.fresh(trader.user_id, trader.username, home, trader.ship, now),
    {
        SystemChange::new(
            trader.user_id.clone(),
            trader.username.clone(),
            home,
            trader.ship.replica(),
            now,
        )
    }

    /// The id of the transfer's ship.
    pub fn get_ship_id(&self) -> (id: String)
        ensures
            id == self.ship.id,
    {
        self.ship.id.clone()
    }

    /// The sell order for the first cargo entry that holds anything.
    pub open spec fn sell_request(self) -> Request {
        let entry = self.ship.cargo@[first_goods(self.ship.cargo@)];
        Request::CreateSellOrder {
            user_id: self.user_id,
            ship_id: self.ship.id,
            good: entry.good,
            quantity: entry.quantity,
        }
    }

    /// The outside work that the transfer's state calls for.
    pub open spec fn spec_request(self) -> Request {
        match self.state {
            SystemChangeState::InitializeShip => if self.ship.location is None {
                Request::GetActiveFlightPlan { ship_id: self.ship.id }
            } else {
                Request::Nothing
            },
            SystemChangeState::MoveToWormhole => match self.ship.location {
                None => Request::Nothing,
                Some(location) => if has_goods(self.ship.cargo@) {
                    self.sell_request()
                } else {
                    match self.wormhole {
                        None => Request::GetWormhole { location, system: self.system },
                        Some(wormhole) => spec_voyage_request(
                            self.voyage,
                            self.ship,
                            self.user_id,
                            location,
                            wormhole,
                        ),
                    }
                },
            },
            SystemChangeState::Warp => Request::AttemptWarpJump { ship_id: self.ship.id },
            _ => Request::Nothing,
        }
    }

    /// The outside work that the transfer's state calls for. The driver
    /// performs it and answers with the matching event.
    pub fn request(&self) -> (request: Request)
        ensures
            request == self.spec_request(),
    {
        match self.state {
            SystemChangeState::InitializeShip => {
                if self.ship.location.is_none() {
                    Request::GetActiveFlightPlan { ship_id: self.ship.id.clone() }
                } else {
                    Request::Nothing
                }
            },
            SystemChangeState::MoveToWormhole => match &self.ship.location {
                None => Request::Nothing,
                Some(location) => match next_to_sell(&self.ship) {
                    Some(entry) => Request::CreateSellOrder {
                        user_id: self.user_id.clone(),
                        ship_id: self.ship.id.clone(),
                        good: entry.good,
                        quantity: entry.quantity,
                    },
                    None => match &self.wormhole {
                        None => Request::GetWormhole {
                            location: location.clone(),
                            system: self.system.clone(),
                        },
                        Some(wormhole) => voyage_request(
                            self.voyage,
                            &self.ship,
                            &self.user_id,
                            location,
                            wormhole,
                        ),
                    },
                },
            },
            SystemChangeState::Warp => Request::AttemptWarpJump { ship_id: self.ship.id.clone() },
            _ => Request::Nothing,
        }
    }

    /// The step failed and left the transfer as it was.
    pub open spec fn stays_with(
        self,
        next: SystemChange,
        result: StepResult,
        error: StepError,
    ) -> bool {
        next == self && result == Err::<Option<PollResult>, StepError>(error)
    }

    /// The step moved the transfer to `next` and reported nothing.
    pub open spec fn moves_to(expected: SystemChange, next: SystemChange, result: StepResult) -> bool {
        next == expected && result == Ok::<Option<PollResult>, StepError>(None)
    }

    /// The transfer with its ship landed where its plan led, in state `state`.
    /// Without a plan the ship stays where it is held to be.
    pub open spec fn landed(self, state: SystemChangeState) -> SystemChange {
        match self.flight_plan {
            Some(plan) => SystemChange {
                ship: Ship { location: Some(plan.destination), ..self.ship },
                state,
                ..self
            },
            None => SystemChange { state, ..self },
        }
    }

    /// The step in `InitializeShip`: a ship under way waits for the arrival
    /// its stored plan names; a docked ship sets out for the wormhole.
    pub open spec fn initialize_transition(
        self,
        event: Event,
        next: SystemChange,
        result: StepResult,
    ) -> bool {
        if self.ship.location is None {
            match event {
                Event::ActiveFlightPlan(Some(plan)) => Self::moves_to(
                    SystemChange {
                        arrival_time: plan.arrives_at,
                        flight_plan: Some(plan),
                        state: SystemChangeState::WaitForArrival,
                        ..self
                    },
                    next,
                    result,
                ),
                Event::ActiveFlightPlan(None) => self.stays_with(
                    next,
                    result,
                    StepError::NoActiveFlightPlan,
                ),
                _ => self.stays_with(next, result, spec_failure_of(event)),
            }
        } else {
            match event {
                Event::Tick => Self::moves_to(
                    SystemChange {
                        state: SystemChangeState::MoveToWormhole,
                        voyage: VoyagePhase::LookUpFuel,
                        wormhole: None,
                        ..self
                    },
                    next,
                    result,
                ),
                _ => self.stays_with(next, result, spec_failure_of(event)),
            }
        }
    }

    /// The step in one of the waiting states: once the arrival time has come
    /// the ship has landed and the transfer goes on in state `then`.
    pub open spec fn wait_transition(
        self,
        then: SystemChangeState,
        now: Timestamp,
        event: Event,
        next: SystemChange,
        result: StepResult,
    ) -> bool {
        match event {
            Event::Tick => if now >= self.arrival_time {
                Self::moves_to(self.landed(then), next, result)
            } else {
                Self::moves_to(self, next, result)
            },
            _ => self.stays_with(next, result, spec_failure_of(event)),
        }
    }

    /// The step in `MoveToWormhole`: sell what is in the hold, ask the store
    /// for the wormhole that leads to the system, prepare the flight there
    /// and leave. A ship found to be under way makes the transfer start over.
    pub open spec fn approach_transition(
        self,
        event: Event,
        next: SystemChange,
        result: StepResult,
    ) -> bool {
        if self.ship.location is None {
            match event {
                Event::Tick => Self::moves_to(
                    SystemChange { state: SystemChangeState::InitializeShip, ..self },
                    next,
                    result,
                ),
                _ => self.stays_with(next, result, spec_failure_of(event)),
            }
        } else if has_goods(self.ship.cargo@) {
            match event {
                Event::Order(order) => {
                    &&& next == SystemChange { ship: order.ship, ..self }
                    &&& result == Ok::<Option<PollResult>, StepError>(
                        Some(PollResult::UpdateCredits(order.credits)),
                    )
                },
                _ => self.stays_with(next, result, spec_failure_of(event)),
            }
        } else if self.wormhole is None {
            match event {
                Event::Wormhole(wormhole) => Self::moves_to(
                    SystemChange {
                        wormhole: Some(wormhole),
                        voyage: VoyagePhase::LookUpFuel,
                        ..self
                    },
                    next,
                    result,
                ),
                _ => self.stays_with(next, result, spec_failure_of(event)),
            }
        } else {
            exists|next_phase: VoyagePhase, progress: Result<VoyageProgress, StepError>|
                {
                    &&& #[trigger] voyage_transition(
                        self.voyage,
                        self.ship,
                        event,
                        next_phase,
                        next.ship,
                        progress,
                    )
                    &&& match progress {
                        Err(error) => {
                            &&& next == SystemChange { ship: next.ship, ..self }
                            &&& result == Err::<Option<PollResult>, StepError>(error)
                        },
                        Ok(VoyageProgress::Departed(plan)) => {
                            &&& next == SystemChange {
                                ship: next.ship,
                                arrival_time: plan.arrives_at,
                                flight_plan: Some(plan),
                                state: SystemChangeState::WaitForArrivalAtWormhole,
                                ..self
                            }
                            &&& result == Ok::<Option<PollResult>, StepError>(None)
                        },
                        Ok(VoyageProgress::Paid(credits)) => {
                            &&& next == SystemChange { ship: next.ship, voyage: next_phase, ..self }
                            &&& result == Ok::<Option<PollResult>, StepError>(
                                Some(PollResult::UpdateCredits(credits)),
                            )
                        },
                        Ok(VoyageProgress::Waiting) => {
                            &&& next == SystemChange { ship: next.ship, voyage: next_phase, ..self }
                            &&& result == Ok::<Option<PollResult>, StepError>(None)
                        },
                    }
                }
        }
    }

    /// The step in `Warp`: the jump is under way on the plan the server
    /// answers with.
    pub open spec fn warp_transition(self, event: Event, next: SystemChange, result: StepResult) -> bool {
        match event {
            Event::FlightPlan(plan) => Self::moves_to(
                SystemChange {
                    ship: Ship { location: None, ..self.ship },
                    arrival_time: plan.flight_plan.arrives_at,
                    flight_plan: Some(plan.flight_plan),
                    state: SystemChangeState::WaitForWarp,
                    ..self
                },
                next,
                result,
            ),
            _ => self.stays_with(next, result, spec_failure_of(event)),
        }
    }

    /// The step in `WaitForWarp`: once the ship has come out of the wormhole
    /// a trader takes it over.
    pub open spec fn arrive_transition(
        self,
        now: Timestamp,
        event: Event,
        next: SystemChange,
        result: StepResult,
    ) -> bool {
        match event {
            Event::Tick => if now >= self.arrival_time {
                &&& next == self.landed(SystemChangeState::WaitForWarp)
                &&& result matches Ok(
                    Some(PollResult::ConvertToNewMachine(MachineType::Trader(machine))),
                )
                &&& fresh_trader(machine, self.user_id, self.username, self.system, next.ship, now)
            } else {
                Self::moves_to(self, next, result)
            },
            _ => self.stays_with(next, result, spec_failure_of(event)),
        }
    }

    /// One step of the transfer: what becomes of it on `event` at time `now`,
    /// and what it reports.
    pub open spec fn transition(
        self,
        now: Timestamp,
        event: Event,
        next: SystemChange,
        result: StepResult,
    ) -> bool {
        match self.state {
            SystemChangeState::InitializeShip => self.initialize_transition(event, next, result),
            SystemChangeState::WaitForArrival => self.wait_transition(
                SystemChangeState::MoveToWormhole,
                now,
                event,
                next,
                result,
            ),
            SystemChangeState::MoveToWormhole => self.approach_transition(event, next, result),
            SystemChangeState::WaitForArrivalAtWormhole => self.wait_transition(
                SystemChangeState::Warp,
                now,
                event,
                next,
                result,
            ),
            SystemChangeState::Warp => self.warp_transition(event, next, result),
            SystemChangeState::WaitForWarp => self.arrive_transition(now, event, next, result),
        }
    }

    fn land(&mut self, state: SystemChangeState)
        ensures
            *final(self) == old(self).landed(state),
    {
        match &self.flight_plan {
            Some(plan) => {
                self.ship.location = Some(plan.destination.clone());
            },
            None => {},
        }
        self.state = state;
    }

    fn step_initialize(&mut self, event: Event) -> (result: StepResult)
        ensures
            old(self).initialize_transition(event, *final(self), result),
    {
        if self.ship.location.is_none() {
            match event {
                Event::ActiveFlightPlan(Some(plan)) => {
                    self.arrival_time = plan.arrives_at;
                    self.flight_plan = Some(plan);
                    self.state = SystemChangeState::WaitForArrival;
                    Ok(None)
                },
                Event::ActiveFlightPlan(None) => Err(StepError::NoActiveFlightPlan),
                other => Err(failure_of(other)),
            }
        } else {
            match event {
                Event::Tick => {
                    self.state = SystemChangeState::MoveToWormhole;
                    self.voyage = VoyagePhase::LookUpFuel;
                    self.wormhole = None;
                    Ok(None)
                },
                other => Err(failure_of(other)),
            }
        }
    }

    fn step_wait(&mut self, then: SystemChangeState, now: Timestamp, event: Event) -> (result:
        StepResult)
        ensures
            old(self).wait_transition(then, now, event, *final(self), result),
    {
        match event {
            Event::Tick => {
                if now >= self.arrival_time {
                    self.land(then);
                }
                Ok(None)
            },
            other => Err(failure_of(other)),
        }
    }

    fn step_approach(&mut self, event: Event) -> (result: StepResult)
        ensures
            old(self).approach_transition(event, *final(self), result),
    {
        if self.ship.location.is_none() {
            return match event {
                Event::Tick => {
                    self.state = SystemChangeState::InitializeShip;
                    Ok(None)
                },
                other => Err(failure_of(other)),
            };
        }
        if next_to_sell(&self.ship).is_some() {
            return match event {
                Event::Order(order) => {
                    self.ship = order.ship;
                    Ok(Some(PollResult::UpdateCredits(order.credits)))
                },
                other => Err(failure_of(other)),
            };
        }
        if self.wormhole.is_none() {
            return match event {
                Event::Wormhole(wormhole) => {
                    self.wormhole = Some(wormhole);
                    self.voyage = VoyagePhase::LookUpFuel;
                    Ok(None)
                },
                other => Err(failure_of(other)),
            };
        }
        let mut next_phase = self.voyage;
        let progress = voyage_step(&mut next_phase, &mut self.ship, event);
        let ghost checked = progress;
        let result = match progress {
            Err(error) => Err(error),
            Ok(VoyageProgress::Departed(plan)) => {
                self.arrival_time = plan.arrives_at;
                self.flight_plan = Some(plan);
                self.state = SystemChangeState::WaitForArrivalAtWormhole;
                Ok(None)
            },
            Ok(VoyageProgress::Paid(credits)) => {
                self.voyage = next_phase;
                Ok(Some(PollResult::UpdateCredits(credits)))
            },
            Ok(VoyageProgress::Waiting) => {
                self.voyage = next_phase;
                Ok(None)
            },
        };
        assert(voyage_transition(
            old(self).voyage,
            old(self).ship,
            event,
            next_phase,
            self.ship,
            checked,
        ));
        result
    }

    fn step_warp(&mut self, event: Event) -> (result: StepResult)
        ensures
            old(self).warp_transition(event, *final(self), result),
    {
        match event {
            Event::FlightPlan(plan) => {
                self.ship.location = None;
                self.arrival_time = plan.flight_plan.arrives_at;
                self.flight_plan = Some(plan.flight_plan);
                self.state = SystemChangeState::WaitForWarp;
                Ok(None)
            },
            other => Err(failure_of(other)),
        }
    }

    fn step_arrive(&mut self, now: Timestamp, event: Event) -> (result: StepResult)
        ensures
            old(self).arrive_transition(now, event, *final(self), result),
    {
        match event {
            Event::Tick => {
                if now >= self.arrival_time {
                    self.land(SystemChangeState::WaitForWarp);
                    let machine = Trader::new(
                        self.user_id.clone(),
                        self.username.clone(),
                        self.system.clone(),
                        self.ship.replica(),
                        now,
                    );
                    Ok(Some(PollResult::ConvertToNewMachine(MachineType::Trader(machine))))
                } else {
                    Ok(None)
                }
            },
            other => Err(failure_of(other)),
        }
    }

    /// Takes one step on `event` at the time on the system clock.
    pub fn poll(&mut self, event: Event) -> (result: StepResult)
        ensures
            exists|now: Timestamp| #[trigger] old(self).transition(now, event, *final(self), result),
    {
        let now = utc_now();
        self.step(now, event)
    }

    /// Takes one step on `event` at time `now`.
    pub fn step(&mut self, now: Timestamp, event: Event) -> (result: StepResult)
        ensures
            old(self).transition(now, event, *final(self), result),
    {
        match self.state {
            SystemChangeState::InitializeShip => self.step_initialize(event),
            SystemChangeState::WaitForArrival => self.step_wait(
                SystemChangeState::MoveToWormhole,
                now,
                event,
            ),
            SystemChangeState::MoveToWormhole => self.step_approach(event),
            SystemChangeState::WaitForArrivalAtWormhole => self.step_wait(
                SystemChangeState::Warp,
                now,
                event,
            ),
            SystemChangeState::Warp => self.step_warp(event),
            SystemChangeState::WaitForWarp => self.step_arrive(now, event),
        }
    }

    /// Forgets the cargo and starts over. The driver has the cargo thrown
    /// overboard first, entry by entry.
    pub fn reset(&mut self)
        ensures
            final(self).ship.cargo@ == Seq::<crate::shared::Cargo>::empty(),
            *final(self) == (SystemChange {
                ship: Ship { cargo: final(self).ship.cargo, ..old(self).ship },
                state: SystemChangeState::InitializeShip,
                ..*old(self)
            }),
    {
        self.ship.cargo.clear();
        self.state = SystemChangeState::InitializeShip;
    }
}

impl SystemChange {
    /// A transfer hands its ship over to a trader exactly when the ship has
    /// come out of the wormhole: in `WaitForWarp`, once the arrival time has
    /// come. The trader starts afresh with the ship as it has landed.
    pub proof fn lemma_morphs_on_arrival(
        self,
        now: Timestamp,
        event: Event,
        next: SystemChange,
        result: StepResult,
    )
        requires
            self.transition(now, event, next, result),
        ensures
            (result matches Ok(Some(PollResult::ConvertToNewMachine(_)))) <==> ({
                &&& self.state == SystemChangeState::WaitForWarp
                &&& event is Tick
                &&& now >= self.arrival_time
            }),
            result matches Ok(Some(PollResult::ConvertToNewMachine(successor)))
                ==> successor matches MachineType::Trader(machine) && fresh_trader(
                machine,
                self.user_id,
                self.username,
                self.system,
                next.ship,
                now,
            ),
    {
    }

    /// A transfer files a flight plan only for a docked ship, and only to
    /// the wormhole that the store has named.
    pub proof fn lemma_departs_for_wormhole(self)
        requires
            self.spec_request() is CreateFlightPlan,
        ensures
            self.ship.location is Some,
            self.wormhole matches Some(wormhole) && self.spec_request()
                ->CreateFlightPlan_destination == wormhole,
    {
    }
}

} // verus!
