//! The scout: a ship that sits at one location and records its market.

use crate::arith::{clamp_i64, later};
use crate::clock::utc_now;
use crate::cargo::{first_goods, has_goods, next_to_sell};
use crate::shared::{same_ship, FlightPlanData, MarketplaceData, Ship, Timestamp};
use crate::ship_machines::voyage::{
    spec_voyage_request, voyage_request, voyage_step, voyage_transition, VoyagePhase,
    VoyageProgress,
};
use crate::ship_machines::{
    failure_of, spec_failure_of, Event, PollResult, Request, StepError, StepResult,
};
use crate::text::holds_text;
use vstd::prelude::*;

verus! {

/// The states of a scout.
#[derive(Debug, Clone, Copy, PartialEq, Eq, Structural)]
pub enum ScoutState {
    InitializeShip,
    WaitForArrival,
    MoveToLocation,
    CheckForCorrectLocation,
    HarvestMarketData,
    Wait,
}

/// The machine of a scouting ship.
#[derive(Debug, Clone, PartialEq, Eq)]
pub struct Scout {
    pub user_id: String,
    pub username: String,
    pub ship: Ship,
    pub system: String,
    /// The location whose market the scout records.
    pub location: String,
    pub state: ScoutState,
    pub voyage: VoyagePhase,
    /// The market data that was fetched and is not stored yet.
    pub harvest: Option<Vec<MarketplaceData>>,
    pub arrival_time: Timestamp,
    pub next_harvest_time: Timestamp,
    pub flight_plan: Option<FlightPlanData>,
}

/// The time between two harvests: three minutes, in milliseconds.
pub const HARVEST_INTERVAL: i64 = 180_000;

impl Scout {
    /// A scout that has just been set up for `ship`, assigned to `location`.
    pub open spec fn fresh(
        self,
        user_id: String,
        username: String,
        system: String,
        location: String,
        ship: Ship,
        now: Timestamp,
    ) -> bool {
        &&& self.user_id == user_id
        &&& self.username == username
        &&& self.system == system
        &&& self.location == location
        &&& same_ship(self.ship, ship)
        &&& self.state == ScoutState::InitializeShip
        &&& self.voyage == VoyagePhase::LookUpFuel
        &&& self.harvest is None
        &&& self.arrival_time == now
        &&& self.next_harvest_time == now
        &&& self.flight_plan is None
    }

    /// A scout for `ship`, assigned to `location`, set up at time `now`.
    pub fn new(
        user_id: String,
        username: String,
        system: String,
        location: String,
        ship: Ship,
        now: Timestamp,
    ) -> (machine: Scout)
        ensures
            machine == (Scout {
                user_id,
                username,
                ship,
                system,
                location,
                state: ScoutState::InitializeShip,
                voyage: VoyagePhase::LookUpFuel,
                harvest: None,
                arrival_time: now,
                next_harvest_time: now,
                flight_plan: None,
            }),
    {
        Scout {
            user_id,
            username,
            ship,
            system,
            location,
            state: ScoutState::InitializeShip,
            voyage: VoyagePhase::LookUpFuel,
            harvest: None,
            arrival_time: now,
            next_harvest_time: now,
            flight_plan: None,
        }
    }

    /// The id of the scout's ship.
    pub fn get_ship_id(&self) -> (id: String)
        ensures
            id == self.ship.id,
    {
        self.ship.id.clone()
    }

    /// The ship is docked at the location the scout is assigned to.
    pub open spec fn on_station(self) -> bool {
        self.ship.location matches Some(place) && place@ == self.location@
    }

    /// The sell order for the first cargo entry that holds anything.
    pub open spec fn sell_request(self) -> Request {
        let entry = self.ship.cargo@[first_goods(self.ship.cargo@)];
        Request::CreateSellOrder {
            user_id: self.user_id,
            ship_id: self.ship.id,
            good: entry.good,
            quantity: entry.quantity,
        }
    }

    /// The outside work that the scout's state calls for.
    pub open spec fn spec_request(self) -> Request {
        match self.state {
            ScoutState::InitializeShip => if self.ship.location is None {
                Request::GetActiveFlightPlan { ship_id: self.ship.id }
            } else if has_goods(self.ship.cargo@) {
                self.sell_request()
            } else {
                Request::Nothing
            },
            ScoutState::WaitForArrival => Request::Nothing,
            ScoutState::CheckForCorrectLocation => Request::Nothing,
            ScoutState::MoveToLocation => match self.ship.location {
                Some(origin) => spec_voyage_request(
                    self.voyage,
                    self.ship,
                    self.user_id,
                    origin,
                    self.location,
                ),
                None => Request::Nothing,
            },
            ScoutState::HarvestMarketData => match self.harvest {
                None => Request::GetLocationMarketplace { location: self.location },
                Some(found) => if found@.len() > 0 {
                    Request::PersistMarketData { location: self.location, datum: found@[0] }
                } else {
                    Request::Nothing
                },
            },
            ScoutState::Wait => Request::Nothing,
        }
    }

    /// The outside work that the scout's state calls for. The driver
    /// performs it and answers with the matching event.
    pub fn request(&self) -> (request: Request)
        ensures
            request == self.spec_request(),
    {
        match self.state {
            ScoutState::InitializeShip => {
                if self.ship.location.is_none() {
                    Request::GetActiveFlightPlan { ship_id: self.ship.id.clone() }
                } else {
                    match next_to_sell(&self.ship) {
                        Some(entry) => Request::CreateSellOrder {
                            user_id: self.user_id.clone(),
                            ship_id: self.ship.id.clone(),
                            good: entry.good,
                            quantity: entry.quantity,
                        },
                        None => Request::Nothing,
                    }
                }
            },
            ScoutState::WaitForArrival => Request::Nothing,
            ScoutState::CheckForCorrectLocation => Request::Nothing,
            ScoutState::MoveToLocation => match &self.ship.location {
                Some(origin) => voyage_request(
                    self.voyage,
                    &self.ship,
                    &self.user_id,
                    origin,
                    &self.location,
                ),
                None => Request::Nothing,
            },
            ScoutState::HarvestMarketData => match &self.harvest {
                None => Request::GetLocationMarketplace { location: self.location.clone() },
                Some(found) => {
                    if found.len() > 0 {
                        Request::PersistMarketData {
                            location: self.location.clone(),
                            datum: found[0],
                        }
                    } else {
                        Request::Nothing
                    }
                },
            },
            ScoutState::Wait => Request::Nothing,
        }
    }

    /// The step failed and left the scout as it was.
    pub open spec fn stays_with(self, next: Scout, result: StepResult, error: StepError) -> bool {
        next == self && result == Err::<Option<PollResult>, StepError>(error)
    }

    /// The step moved the scout to `next` and reported nothing.
    pub open spec fn moves_to(expected: Scout, next: Scout, result: StepResult) -> bool {
        next == expected && result == Ok::<Option<PollResult>, StepError>(None)
    }

    /// The scout as it is once a harvest is stored: it waits, and the next
    /// harvest is due three minutes after `now`.
    pub open spec fn rests(self, now: Timestamp) -> Scout {
        Scout {
            state: ScoutState::Wait,
            harvest: None,
            next_harvest_time: clamp_i64(now + HARVEST_INTERVAL) as i64,
            ..self
        }
    }

    /// The step in `InitializeShip`: a ship under way waits for the arrival
    /// its stored plan names; a docked ship sells what it holds and then
    /// checks where it is.
    pub open spec fn initialize_transition(self, event: Event, next: Scout, result: StepResult) -> bool {
        if self.ship.location is None {
            match event {
                Event::ActiveFlightPlan(Some(plan)) => Self::moves_to(
                    Scout {
                        arrival_time: plan.arrives_at,
                        flight_plan: Some(plan),
                        state: ScoutState::WaitForArrival,
                        ..self
                    },
                    next,
                    result,
                ),
                Event::ActiveFlightPlan(None) => self.stays_with(
                    next,
                    result,
                    StepError::NoActiveFlightPlan,
                ),
                _ => self.stays_with(next, result, spec_failure_of(event)),
            }
        } else if has_goods(self.ship.cargo@) {
            match event {
                Event::Order(order) => {
                    &&& next == Scout { ship: order.ship, ..self }
                    &&& result == Ok::<Option<PollResult>, StepError>(
                        Some(PollResult::UpdateCredits(order.credits)),
                    )
                },
                _ => self.stays_with(next, result, spec_failure_of(event)),
            }
        } else {
            match event {
                Event::Tick => Self::moves_to(
                    Scout { state: ScoutState::CheckForCorrectLocation, ..self },
                    next,
                    result,
                ),
                _ => self.stays_with(next, result, spec_failure_of(event)),
            }
        }
    }

    /// The place the ship is at once it has arrived: the destination of the
    /// plan it flew on, or its station where no plan is known.
    pub open spec fn landing_place(self) -> String {
        match self.flight_plan {
            Some(plan) => plan.destination,
            None => self.location,
        }
    }

    /// The step in `WaitForArrival`: once the arrival time has come the ship
    /// has landed, and the scout checks where it is.
    pub open spec fn wait_transition(
        self,
        now: Timestamp,
        event: Event,
        next: Scout,
        result: StepResult,
    ) -> bool {
        match event {
            Event::Tick => if now >= self.arrival_time {
                Self::moves_to(
                    Scout {
                        ship: Ship { location: Some(self.landing_place()), ..self.ship },
                        state: ScoutState::CheckForCorrectLocation,
                        ..self
                    },
                    next,
                    result,
                )
            } else {
                Self::moves_to(self, next, result)
            },
            _ => self.stays_with(next, result, spec_failure_of(event)),
        }
    }

    /// The step in `CheckForCorrectLocation`: on station the scout harvests,
    /// elsewhere it sets out for its station.
    pub open spec fn check_transition(self, event: Event, next: Scout, result: StepResult) -> bool {
        match event {
            Event::Tick => if self.on_station() {
                Self::moves_to(
                    Scout { state: ScoutState::HarvestMarketData, harvest: None, ..self },
                    next,
                    result,
                )
            } else {
                Self::moves_to(
                    Scout {
                        state: ScoutState::MoveToLocation,
                        voyage: VoyagePhase::LookUpFuel,
                        ..self
                    },
                    next,
                    result,
                )
            },
            _ => self.stays_with(next, result, spec_failure_of(event)),
        }
    }

    /// The step in `MoveToLocation`: the flight preparations, one at a time;
    /// after the departure the scout waits for the arrival. A ship found to
    /// be under way makes the scout start over.
    pub open spec fn move_transition(self, event: Event, next: Scout, result: StepResult) -> bool {
        if self.ship.location is None {
            match event {
                Event::Tick => Self::moves_to(
                    Scout { state: ScoutState::InitializeShip, ..self },
                    next,
                    result,
                ),
                _ => self.stays_with(next, result, spec_failure_of(event)),
            }
        } else {
            exists|next_phase: VoyagePhase, progress: Result<VoyageProgress, StepError>|
                {
                    &&& #[trigger] voyage_transition(
                        self.voyage,
                        self.ship,
                        event,
                        next_phase,
                        next.ship,
                        progress,
                    )
                    &&& match progress {
                        Err(error) => {
                            &&& next == Scout { ship: next.ship, ..self }
                            &&& result == Err::<Option<PollResult>, StepError>(error)
                        },
                        Ok(VoyageProgress::Departed(plan)) => {
                            &&& next == Scout {
                                ship: next.ship,
                                arrival_time: plan.arrives_at,
                                flight_plan: Some(plan),
                                state: ScoutState::WaitForArrival,
                                ..self
                            }
                            &&& result == Ok::<Option<PollResult>, StepError>(None)
                        },
                        Ok(VoyageProgress::Paid(credits)) => {
                            &&& next == Scout { ship: next.ship, voyage: next_phase, ..self }
                            &&& result == Ok::<Option<PollResult>, StepError>(
                                Some(PollResult::UpdateCredits(credits)),
                            )
                        },
                        Ok(VoyageProgress::Waiting) => {
                            &&& next == Scout { ship: next.ship, voyage: next_phase, ..self }
                            &&& result == Ok::<Option<PollResult>, StepError>(None)
                        },
                    }
                }
        }
    }

    /// The step in `HarvestMarketData`: fetch the marketplace of the station,
    /// store one snapshot per good, then rest.
    pub open spec fn harvest_transition(
        self,
        now: Timestamp,
        event: Event,
        next: Scout,
        result: StepResult,
    ) -> bool {
        match self.harvest {
            None => match event {
                Event::Marketplace(found) => if found@.len() == 0 {
                    Self::moves_to(self.rests(now), next, result)
                } else {
                    Self::moves_to(Scout { harvest: Some(found), ..self }, next, result)
                },
                _ => self.stays_with(next, result, spec_failure_of(event)),
            },
            Some(found) => if found@.len() == 0 {
                match event {
                    Event::Tick => Self::moves_to(self.rests(now), next, result),
                    _ => self.stays_with(next, result, spec_failure_of(event)),
                }
            } else {
                match event {
                    Event::Persisted => if found@.len() == 1 {
                        Self::moves_to(self.rests(now), next, result)
                    } else {
                        &&& next.harvest matches Some(rest)
                        &&& rest@ == found@.drop_first()
                        &&& next == Scout { harvest: next.harvest, ..self }
                        &&& result == Ok::<Option<PollResult>, StepError>(None)
                    },
                    _ => self.stays_with(next, result, spec_failure_of(event)),
                }
            },
        }
    }

    /// The step in `Wait`: once the next harvest is due, harvest.
    pub open spec fn rest_transition(
        self,
        now: Timestamp,
        event: Event,
        next: Scout,
        result: StepResult,
    ) -> bool {
        match event {
            Event::Tick => if now >= self.next_harvest_time {
                Self::moves_to(
                    Scout { state: ScoutState::HarvestMarketData, harvest: None, ..self },
                    next,
                    result,
                )
            } else {
                Self::moves_to(self, next, result)
            },
            _ => self.stays_with(next, result, spec_failure_of(event)),
        }
    }

    /// One step of the scout: what becomes of it on `event` at time `now`,
    /// and what it reports.
    pub open spec fn transition(
        self,
        now: Timestamp,
        event: Event,
        next: Scout,
        result: StepResult,
    ) -> bool {
        match self.state {
            ScoutState::InitializeShip => self.initialize_transition(event, next, result),
            ScoutState::WaitForArrival => self.wait_transition(now, event, next, result),
            ScoutState::CheckForCorrectLocation => self.check_transition(event, next, result),
            ScoutState::MoveToLocation => self.move_transition(event, next, result),
            ScoutState::HarvestMarketData => self.harvest_transition(now, event, next, result),
            ScoutState::Wait => self.rest_transition(now, event, next, result),
        }
    }

    fn step_initialize(&mut self, event: Event) -> (result: StepResult)
        ensures
            old(self).initialize_transition(event, *final(self), result),
    {
        if self.ship.location.is_none() {
            match event {
                Event::ActiveFlightPlan(Some(plan)) => {
                    self.arrival_time = plan.arrives_at;
                    self.flight_plan = Some(plan);
                    self.state = ScoutState::WaitForArrival;
                    Ok(None)
                },
                Event::ActiveFlightPlan(None) => Err(StepError::NoActiveFlightPlan),
                other => Err(failure_of(other)),
            }
        } else if next_to_sell(&self.ship).is_some() {
            match event {
                Event::Order(order) => {
                    self.ship = order.ship;
                    Ok(Some(PollResult::UpdateCredits(order.credits)))
                },
                other => Err(failure_of(other)),
            }
        } else {
            match event {
                Event::Tick => {
                    self.state = ScoutState::CheckForCorrectLocation;
                    Ok(None)
                },
                other => Err(failure_of(other)),
            }
        }
    }

    fn step_wait(&mut self, now: Timestamp, event: Event) -> (result: StepResult)
        ensures
            old(self).wait_transition(now, event, *final(self), result),
    {
        match event {
            Event::Tick => {
                if now >= self.arrival_time {
                    let place = match &self.flight_plan {
                        Some(plan) => plan.destination.clone(),
                        None => self.location.clone(),
                    };
                    self.ship.location = Some(place);
                    self.state = ScoutState::CheckForCorrectLocation;
                }
                Ok(None)
            },
            other => Err(failure_of(other)),
        }
    }

    fn step_check(&mut self, event: Event) -> (result: StepResult)
        ensures
            old(self).check_transition(event, *final(self), result),
    {
        match event {
            Event::Tick => {
                if holds_text(&self.ship.location, &self.location) {
                    self.state = ScoutState::HarvestMarketData;
                    self.harvest = None;
                } else {
                    self.state = ScoutState::MoveToLocation;
                    self.voyage = VoyagePhase::LookUpFuel;
                }
                Ok(None)
            },
            other => Err(failure_of(other)),
        }
    }

    fn step_move(&mut self, event: Event) -> (result: StepResult)
        ensures
            old(self).move_transition(event, *final(self), result),
    {
        if self.ship.location.is_none() {
            return match event {
                Event::Tick => {
                    self.state = ScoutState::InitializeShip;
                    Ok(None)
                },
                other => Err(failure_of(other)),
            };
        }
        let mut next_phase = self.voyage;
        let progress = voyage_step(&mut next_phase, &mut self.ship, event);
        let ghost checked = progress;
        let result = match progress {
            Err(error) => Err(error),
            Ok(VoyageProgress::Departed(plan)) => {
                self.arrival_time = plan.arrives_at;
                self.flight_plan = Some(plan);
                self.state = ScoutState::WaitForArrival;
                Ok(None)
            },
            Ok(VoyageProgress::Paid(credits)) => {
                self.voyage = next_phase;
                Ok(Some(PollResult::UpdateCredits(credits)))
            },
            Ok(VoyageProgress::Waiting) => {
                self.voyage = next_phase;
                Ok(None)
            },
        };
        assert(voyage_transition(
            old(self).voyage,
            old(self).ship,
            event,
            next_phase,
            self.ship,
            checked,
        ));
        result
    }

    fn rest(&mut self, now: Timestamp)
        ensures
            *final(self) == old(self).rests(now),
    {
        self.state = ScoutState::Wait;
        self.harvest = None;
        self.next_harvest_time = later(now, HARVEST_INTERVAL);
    }

    fn step_harvest(&mut self, now: Timestamp, event: Event) -> (result: StepResult)
        ensures
            old(self).harvest_transition(now, event, *final(self), result),
    {
        let waiting = match &self.harvest {
            None => None,
            Some(found) => Some(found.len()),
        };
        match waiting {
            None => match event {
                Event::Marketplace(found) => {
                    if found.len() == 0 {
                        self.rest(now);
                    } else {
                        self.harvest = Some(found);
                    }
                    Ok(None)
                },
                other => Err(failure_of(other)),
            },
            Some(count) => {
                if count == 0 {
                    match event {
                        Event::Tick => {
                            self.rest(now);
                            Ok(None)
                        },
                        other => Err(failure_of(other)),
                    }
                } else {
                    match event {
                        Event::Persisted => {
                            if count == 1 {
                                self.rest(now);
                            } else {
                                let mut rest = self.harvest.take().unwrap();
                                rest.remove(0);
                                assert(rest@ =~= old(self).harvest->0@.drop_first());
                                self.harvest = Some(rest);
                            }
                            Ok(None)
                        },
                        other => Err(failure_of(other)),
                    }
                }
            },
        }
    }

    fn step_rest(&mut self, now: Timestamp, event: Event) -> (result: StepResult)
        ensures
            old(self).rest_transition(now, event, *final(self), result),
    {
        match event {
            Event::Tick => {
                if now >= self.next_harvest_time {
                    self.state = ScoutState::HarvestMarketData;
                    self.harvest = None;
                }
                Ok(None)
            },
            other => Err(failure_of(other)),
        }
    }

    /// Takes one step on `event` at the time on the system clock.
    pub fn poll(&mut self, event: Event) -> (result: StepResult)
        ensures
            exists|now: Timestamp| #[trigger] old(self).transition(now, event, *final(self), result),
    {
        let now = utc_now();
        self.step(now, event)
    }

    /// Takes one step on `event` at time `now`.
    pub fn step(&mut self, now: Timestamp, event: Event) -> (result: StepResult)
        ensures
            old(self).transition(now, event, *final(self), result),
    {
        match self.state {
            ScoutState::InitializeShip => self.step_initialize(event),
            ScoutState::WaitForArrival => self.step_wait(now, event),
            ScoutState::CheckForCorrectLocation => self.step_check(event),
            ScoutState::MoveToLocation => self.step_move(event),
            ScoutState::HarvestMarketData => self.step_harvest(now, event),
            ScoutState::Wait => self.step_rest(now, event),
        }
    }

    /// Forgets the cargo and starts over. The driver has the cargo thrown
    /// overboard first, entry by entry.
    pub fn reset(&mut self)
        ensures
            final(self).ship.cargo@ == Seq::<crate::shared::Cargo>::empty(),
            *final(self) == (Scout {
                ship: Ship { cargo: final(self).ship.cargo, ..old(self).ship },
                state: ScoutState::InitializeShip,
                ..*old(self)
            }),
    {
        self.ship.cargo.clear();
        self.state = ScoutState::InitializeShip;
    }
}

} // verus!
