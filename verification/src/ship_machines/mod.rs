//! The per-ship state machines and the protocol by which they are driven.
//!
//! A machine never talks to the outside itself. Its state determines one
//! [`Request`]; the driver performs it and hands the answer back as an
//! [`Event`], on which the machine takes one step.

pub mod builder;
pub mod scout;
pub mod system_change;
pub mod trader;
pub mod voyage;

use crate::clock::utc_now;
use crate::db::{DbRoute, DbShip};
use crate::errors::ClientError;
use crate::fuel_message::FuelMessageError;
use crate::responses::{FlightPlan, PurchaseOrder};
use crate::shared::{Cargo, FlightPlanData, Good, MarketplaceData, Ship, Timestamp};
use crate::ship_machines::trader::choose_one;
use crate::ship_machines::scout::Scout;
use crate::ship_machines::system_change::SystemChange;
use crate::ship_machines::trader::Trader;
use vstd::prelude::*;

verus! {

/// What a ship is for.
#[derive(Debug, Clone, Copy, PartialEq, Eq, Structural)]
pub enum ShipAssignment {
    Trader,
    Scout,
    SystemChange,
}

/// The outside work a machine asks for next.
#[derive(Debug, Clone, PartialEq, Eq)]
pub enum Request {
    /// Nothing outside: the step is a timed check or a local move, answered
    /// by [`Event::Tick`].
    Nothing,
    /// The stored flight plan of the ship that has not arrived yet.
    GetActiveFlightPlan { ship_id: String },
    /// The stored row of the ship, which names its home system.
    GetShip { user_id: String, ship_id: String },
    /// The ranked trade routes out of a location.
    GetRoutes { location: String, ship_speed: i32 },
    /// The locations of the system that a location lies in.
    GetSystemLocations { location: String },
    /// The fuel that an earlier flight of this ship type burned on the trip.
    GetFuelRequired { origin: String, destination: String, ship_type: String },
    /// The wormhole of the location's system that leads to `system`.
    GetWormhole { location: String, system: String },
    /// A flight plan that is meant to be refused for want of fuel.
    ProbeFlightPlan { ship_id: String, destination: String },
    /// A sell order, recorded as a transaction once it is through.
    CreateSellOrder { user_id: String, ship_id: String, good: Good, quantity: i32 },
    /// A purchase order, recorded as a transaction once it is through.
    CreatePurchaseOrder { user_id: String, ship_id: String, good: Good, quantity: i32 },
    /// A flight plan, stored once it is accepted.
    CreateFlightPlan { user_id: String, ship_id: String, destination: String },
    /// The marketplace of a location.
    GetLocationMarketplace { location: String },
    /// One market snapshot, appended to the store.
    PersistMarketData { location: String, datum: MarketplaceData },
    /// A warp jump through the wormhole the ship is docked at.
    AttemptWarpJump { ship_id: String },
    /// Cargo thrown overboard.
    JettisonCargo { ship_id: String, good: Good, quantity: i32 },
}

/// What came of a request.
#[derive(Debug, Clone, PartialEq, Eq)]
pub enum Event {
    /// Answers [`Request::Nothing`].
    Tick,
    ActiveFlightPlan(Option<FlightPlanData>),
    ShipRow(DbShip),
    Routes(Vec<DbRoute>),
    SystemLocations(Vec<String>),
    FuelRequired(Option<i32>),
    Wormhole(String),
    Order(PurchaseOrder),
    FlightPlan(FlightPlan),
    Marketplace(Vec<MarketplaceData>),
    Persisted,
    Jettisoned,
    /// The gateway to the game server failed.
    ClientFailed(ClientError),
    /// The store failed.
    PersistenceFailed(String),
}

/// Why a step made no progress.
#[derive(Debug, Clone, PartialEq, Eq)]
pub enum StepError {
    /// The gateway's error, as it came.
    Client(ClientError),
    /// The store's error, as it came.
    Persistence(String),
    /// The event answers no request of the machine's state.
    UnexpectedEvent,
    /// The ship is under way and the store holds no plan that is still active.
    NoActiveFlightPlan,
    /// The flight plan that was to be refused for want of fuel was accepted.
    ProbeSucceeded,
    /// The server's refusal could not be read for a fuel shortfall.
    FuelMessage(FuelMessageError),
    /// An order of no positive quantity was called for.
    RefusedEmptyOrder,
}

/// What a step hands to the supervisor.
#[derive(Debug, Clone, PartialEq, Eq)]
pub enum PollResult {
    /// A transaction went through; the account now holds this many credits.
    UpdateCredits(i32),
    /// The ship is to be driven by another machine from now on.
    ConvertToNewMachine(MachineType),
}

/// A machine of one of the three kinds.
#[derive(Debug, Clone, PartialEq, Eq)]
pub enum MachineType {
    Trader(Trader),
    Scout(Scout),
    SystemChange(SystemChange),
}

/// The error that an event stands for where it is no answer the machine waits
/// for: a failure is passed on, anything else is out of turn.
pub open spec fn spec_failure_of(event: Event) -> StepError {
    match event {
        Event::ClientFailed(e) => StepError::Client(e),
        Event::PersistenceFailed(text) => StepError::Persistence(text),
        _ => StepError::UnexpectedEvent,
    }
}

/// The error that an event stands for where it is no answer the machine
/// waits for.
pub fn failure_of(event: Event) -> (error: StepError)
    ensures
        error == spec_failure_of(event),
{
    match event {
        Event::ClientFailed(e) => StepError::Client(e),
        Event::PersistenceFailed(text) => StepError::Persistence(text),
        _ => StepError::UnexpectedEvent,
    }
}

/// The result type of a step.
pub type StepResult = Result<Option<PollResult>, StepError>;

/// The machine that drives one ship, whichever its kind, with what identifies
/// the ship.
#[derive(Debug, Clone, PartialEq, Eq)]
pub struct ShipMachine {
    pub machine: MachineType,
    pub user_id: String,
    pub username: String,
    pub ship_id: String,
    pub system: String,
    pub location: String,
}

/// The requests that throw a ship's whole cargo overboard, one per entry.
pub open spec fn spec_jettison_requests(ship: Ship) -> Seq<Request> {
    Seq::new(
        ship.cargo@.len(),
        |i: int|
            Request::JettisonCargo {
                ship_id: ship.id,
                good: ship.cargo@[i].good,
                quantity: ship.cargo@[i].quantity,
            },
    )
}

/// Lists the requests that throw a ship's whole cargo overboard.
pub fn jettison_requests(ship: &Ship) -> (requests: Vec<Request>)
    ensures
        requests@ == spec_jettison_requests(*ship),
{
    let mut requests: Vec<Request> = Vec::new();
    let mut i: usize = 0;
    while i < ship.cargo.len()
        invariant
            i <= ship.cargo.len(),
            requests@.len() == i,
            forall|k: int| 0 <= k < i ==> requests@[k] == spec_jettison_requests(*ship)[k],
        decreases ship.cargo.len() - i,
    {
        let entry: Cargo = ship.cargo[i];
        requests.push(
            Request::JettisonCargo {
                ship_id: ship.id.clone(),
                good: entry.good,
                quantity: entry.quantity,
            },
        );
        i = i + 1;
    }
    assert(requests@ =~= spec_jettison_requests(*ship));
    requests
}

impl MachineType {
    /// The ship that the machine drives.
    pub open spec fn ship(self) -> Ship {
        match self {
            MachineType::Trader(m) => m.ship,
            MachineType::Scout(m) => m.ship,
            MachineType::SystemChange(m) => m.ship,
        }
    }

    /// The outside work that the machine's state calls for.
    pub open spec fn spec_request(self) -> Request {
        match self {
            MachineType::Trader(m) => m.spec_request(),
            MachineType::Scout(m) => m.spec_request(),
            MachineType::SystemChange(m) => m.spec_request(),
        }
    }

    /// One step of the machine, whichever its kind. `pick` is the place
    /// picked at random for a trader that moves on; it plays no part
    /// otherwise.
    pub open spec fn transition(
        self,
        now: Timestamp,
        event: Event,
        pick: Option<String>,
        next: MachineType,
        result: StepResult,
    ) -> bool {
        match self {
            MachineType::Trader(m) => next matches MachineType::Trader(n) && m.transition(
                now,
                event,
                pick,
                n,
                result,
            ),
            MachineType::Scout(m) => next matches MachineType::Scout(n) && m.transition(
                now,
                event,
                n,
                result,
            ),
            MachineType::SystemChange(m) => next matches MachineType::SystemChange(n)
                && m.transition(now, event, n, result),
        }
    }

    /// The machine after a reset: of the same kind, in its first state, with
    /// an empty hold.
    pub open spec fn is_reset_of(self, before: MachineType) -> bool {
        match (before, self) {
            (MachineType::Trader(m), MachineType::Trader(n)) => {
                &&& n.ship.cargo@.len() == 0
                &&& n == (Trader {
                    ship: Ship { cargo: n.ship.cargo, ..m.ship },
                    state: crate::ship_machines::trader::TraderState::InitializeShip,
                    phase: crate::ship_machines::trader::TraderPhase::Start,
                    ..m
                })
            },
            (MachineType::Scout(m), MachineType::Scout(n)) => {
                &&& n.ship.cargo@.len() == 0
                &&& n == (Scout {
                    ship: Ship { cargo: n.ship.cargo, ..m.ship },
                    state: crate::ship_machines::scout::ScoutState::InitializeShip,
                    ..m
                })
            },
            (MachineType::SystemChange(m), MachineType::SystemChange(n)) => {
                &&& n.ship.cargo@.len() == 0
                &&& n == (SystemChange {
                    ship: Ship { cargo: n.ship.cargo, ..m.ship },
                    state: crate::ship_machines::system_change::SystemChangeState::InitializeShip,
                    ..m
                })
            },
            _ => false,
        }
    }
}

impl ShipMachine {
    /// The id of the ship that the machine drives.
    pub fn get_ship_id(&self) -> (id: &str)
        ensures
            id@ == self.ship_id@,
    {
        self.ship_id.as_str()
    }

    /// The outside work that the machine's state calls for. The driver
    /// performs it and answers with the matching event.
    pub fn request(&self) -> (request: Request)
        ensures
            request == self.machine.spec_request(),
    {
        match &self.machine {
            MachineType::Trader(m) => m.request(),
            MachineType::Scout(m) => m.request(),
            MachineType::SystemChange(m) => m.request(),
        }
    }

    /// One step of the ship's machine. Where the machine hands the ship over
    /// to a machine of another kind, that machine takes its place and
    /// nothing is reported; otherwise the machine's own step stands.
    pub open spec fn transition(
        self,
        now: Timestamp,
        event: Event,
        pick: Option<String>,
        next: ShipMachine,
        result: StepResult,
    ) -> bool {
        exists|stepped: MachineType, reported: StepResult|
            {
                &&& #[trigger] self.machine.transition(now, event, pick, stepped, reported)
                &&& match reported {
                    Ok(Some(PollResult::ConvertToNewMachine(successor))) => {
                        &&& next == ShipMachine { machine: successor, ..self }
                        &&& result == Ok::<Option<PollResult>, StepError>(None)
                    },
                    _ => {
                        &&& next == ShipMachine { machine: stepped, ..self }
                        &&& result == reported
                    },
                }
            }
    }

    /// Takes one step on `event`, with `pick` as the place picked at random
    /// where a trader is to move on.
    pub fn step_with(&mut self, now: Timestamp, event: Event, pick: Option<String>) -> (result:
        StepResult)
        ensures
            old(self).transition(now, event, pick, *final(self), result),
    {
        let reported = match &mut self.machine {
            MachineType::Trader(m) => m.step_with(now, event, pick),
            MachineType::Scout(m) => m.step(now, event),
            MachineType::SystemChange(m) => m.step(now, event),
        };
        let ghost stepped = self.machine;
        let ghost seen = reported;
        assert(old(self).machine.transition(now, event, pick, stepped, seen));
        match reported {
            Ok(Some(PollResult::ConvertToNewMachine(successor))) => {
                self.machine = successor;
                Ok(None)
            },
            other => other,
        }
    }

    /// Takes one step on `event` at the time on the system clock. Where a
    /// trader is to move on, the place is picked at random from the
    /// locations the event lists.
    pub fn poll(&mut self, event: Event) -> (result: StepResult)
        ensures
            exists|now: Timestamp, pick: Option<String>|
                Trader::pick_allowed(event, pick) && #[trigger] old(self).transition(
                    now,
                    event,
                    pick,
                    *final(self),
                    result,
                ),
    {
        let now = utc_now();
        let pick = match &event {
            Event::SystemLocations(places) => choose_one(places),
            _ => None,
        };
        assert(Trader::pick_allowed(event, pick));
        self.step_with(now, event, pick)
    }

    /// The requests that throw the ship's whole cargo overboard; the driver
    /// performs them before a reset.
    pub fn jettison_requests(&self) -> (requests: Vec<Request>)
        ensures
            requests@ == spec_jettison_requests(self.machine.ship()),
    {
        match &self.machine {
            MachineType::Trader(m) => jettison_requests(&m.ship),
            MachineType::Scout(m) => jettison_requests(&m.ship),
            MachineType::SystemChange(m) => jettison_requests(&m.ship),
        }
    }

    /// Forgets the cargo and puts the machine back into its first state.
    pub fn reset(&mut self)
        ensures
            final(self).machine.is_reset_of(old(self).machine),
            *final(self) == (ShipMachine { machine: final(self).machine, ..*old(self) }),
    {
        match &mut self.machine {
            MachineType::Trader(m) => m.reset(),
            MachineType::Scout(m) => m.reset(),
            MachineType::SystemChange(m) => m.reset(),
        }
    }
}

impl MachineType {
    /// Whenever a machine reports new credits, an order has gone through,
    /// and the machine holds what the server reports of it: the credits are
    /// the reported ones and the ship is the reported ship, cargo and all.
    pub proof fn lemma_order_is_adopted(
        self,
        now: Timestamp,
        event: Event,
        pick: Option<String>,
        next: MachineType,
        result: StepResult,
        credits: i32,
    )
        requires
            self.transition(now, event, pick, next, result),
            result == Ok::<Option<PollResult>, StepError>(Some(PollResult::UpdateCredits(credits))),
        ensures
            event matches Event::Order(order) && order.credits == credits && next.ship()
                == order.ship,
    {
    }

    /// No machine files a flight plan for a ship that is under way: the
    /// request for a plan comes only from a machine whose ship is docked.
    pub proof fn lemma_departs_docked(self)
        requires
            self.spec_request() is CreateFlightPlan,
        ensures
            self.ship().location is Some,
    {
    }
}

} // verus!
