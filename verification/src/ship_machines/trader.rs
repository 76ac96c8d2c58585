//! The trader: a ship that buys where goods are cheap and sells where they
//! are dear, along the best route out of wherever it is.

use crate::clock::utc_now;
use crate::db::DbRoute;
use crate::cargo::{first_goods, has_goods, next_to_sell};
use crate::routes::ranking::descends;
use crate::routes::score::{score_positive, spec_score_exceeds, spec_score_positive};
use crate::shared::{FlightPlanData, Ship, Timestamp};
use crate::ship_machines::system_change::SystemChange;
use crate::ship_machines::voyage::{
    spec_voyage_request, voyage_request, voyage_step, voyage_transition, VoyagePhase,
    VoyageProgress,
};
use crate::ship_machines::{
    failure_of, spec_failure_of, Event, MachineType, PollResult, Request, StepError, StepResult,
};
use crate::text::same_text;
use rand::seq::SliceRandom;
use vstd::prelude::*;

verus! {

/// The states of a trader.
#[derive(Debug, Clone, Copy, PartialEq, Eq, Structural)]
pub enum TraderState {
    InitializeShip,
    WaitForArrival,
    PickBestTrade,
    ExecuteTrade,
    MoveToRandomLocation,
}

/// How far the trader has come within its state.
#[derive(Debug, Clone, Copy, PartialEq, Eq, Structural)]
pub enum TraderPhase {
    /// The state has just been entered.
    Start,
    /// `PickBestTrade`: the ship is where it belongs; rank the routes.
    Rank,
    /// `ExecuteTrade`, `MoveToRandomLocation`: the ship prepares to leave.
    Voyage(VoyagePhase),
    /// `ExecuteTrade`: the fuel is on board; fill the hold with the good.
    BuyGoods,
}

/// Which routes a trader takes.
#[derive(Debug, Clone, PartialEq, Eq)]
pub struct TradePolicy {
    /// A place at which the trader never sells.
    pub excluded_sell_location: String,
    /// The trader buys only where more than this many units are on offer.
    pub minimum_purchase_quantity: i32,
}

/// The machine of a trading ship.
#[derive(Debug, Clone, PartialEq, Eq)]
pub struct Trader {
    pub user_id: String,
    pub username: String,
    pub system: String,
    pub ship: Ship,
    pub policy: TradePolicy,
    pub state: TraderState,
    pub phase: TraderPhase,
    pub arrival_time: Timestamp,
    pub route: Option<DbRoute>,
    pub flight_plan: Option<FlightPlanData>,
    pub destination: Option<String>,
}

/// The route is one the policy lets a trader take: it does not end at the
/// excluded place, enough is on offer, and its score is positive.
pub open spec fn qualifies(route: DbRoute, policy: TradePolicy) -> bool {
    &&& route.sell_location@ != policy.excluded_sell_location@
    &&& route.purchase_quantity > policy.minimum_purchase_quantity
    &&& spec_score_positive(route)
}

/// Some route of the ranking qualifies.
pub open spec fn has_qualifying(routes: Seq<DbRoute>, policy: TradePolicy) -> bool {
    exists|i: int| 0 <= i < routes.len() && qualifies(#[trigger] routes[i], policy)
}

/// The position of the first route of the ranking that qualifies.
pub open spec fn first_qualifying(routes: Seq<DbRoute>, policy: TradePolicy) -> int
    recommends
        has_qualifying(routes, policy),
{
    choose|i: int|
        0 <= i < routes.len() && qualifies(#[trigger] routes[i], policy) && forall|j: int|
            0 <= j < i ==> !qualifies(#[trigger] routes[j], policy)
}

/// Decides whether the policy lets a trader take the route.
pub fn route_qualifies(route: &DbRoute, policy: &TradePolicy) -> (ok: bool)
    ensures
        ok == qualifies(*route, *policy),
{
    !same_text(&route.sell_location, &policy.excluded_sell_location) && route.purchase_quantity
        > policy.minimum_purchase_quantity && score_positive(route)
}

/// Takes the first route of the ranking that qualifies.
pub fn pick_route(ranking: Vec<DbRoute>, policy: &TradePolicy) -> (picked: Option<DbRoute>)
    ensures
        picked is Some == has_qualifying(ranking@, *policy),
        picked matches Some(route) ==> route == ranking@[first_qualifying(ranking@, *policy)],
{
    let ghost all = ranking@;
    let mut routes = ranking;
    let mut i: usize = 0;
    while i < routes.len()
        invariant
            i <= routes.len(),
            routes@ == all,
            all == ranking@,
            forall|j: int| 0 <= j < i ==> !qualifies(#[trigger] all[j], *policy),
        decreases routes.len() - i,
    {
        if route_qualifies(&routes[i], policy) {
            proof {
                let w = first_qualifying(all, *policy);
                assert(0 <= i < all.len() && qualifies(all[i as int], *policy) && forall|j: int|
                    0 <= j < i ==> !qualifies(#[trigger] all[j], *policy));
                assert(w == i as int) by {
                    if w < i {
                        assert(!qualifies(all[w], *policy));
                    }
                    if i < w {
                        assert(!qualifies(all[i as int], *policy));
                    }
                }
            }
            return Some(routes.remove(i));
        }
        i = i + 1;
    }
    None
}

/// The number of units of a good that fill the room in the hold.
pub open spec fn goods_order_quantity(space_available: int, volume_per_unit: int) -> int {
    if volume_per_unit > 0 && space_available > 0 {
        space_available / volume_per_unit
    } else {
        0
    }
}

/// Works out the number of units of a good that fill the room in the hold.
pub fn goods_quantity(space_available: i32, volume_per_unit: i32) -> (quantity: i32)
    ensures
        quantity as int == goods_order_quantity(space_available as int, volume_per_unit as int),
        0 <= quantity,
{
    if volume_per_unit > 0 && space_available > 0 {
        let quantity: i32 = space_available / volume_per_unit;
        assert(0 <= space_available as int / volume_per_unit as int <= space_available as int)
            by (nonlinear_arith)
            requires
                space_available > 0,
                volume_per_unit > 0,
        ;
        quantity
    } else {
        0
    }
}

/// One of `items`, picked at random with `rand::seq::SliceRandom::choose` on
/// the thread's generator, `rand::thread_rng`: nothing where the list is
/// empty, else a copy of one of its entries. Which one is not said.
/// `thread_rng` stops the process where the system has nothing to seed the
/// generator with.
#[verifier::external_body]
pub(crate) fn choose_one(items: &Vec<String>) -> (picked: Option<String>)
    ensures
        picked is None <==> items@.len() == 0,
        picked matches Some(text) ==> exists|i: int|
            0 <= i < items@.len() && (#[trigger] items@[i])@ == text@,
{
    items.choose(&mut rand::thread_rng()).cloned()
}

impl TradePolicy {
    /// The policy in force: never sell at `OE-XV-91-2`, buy only where more
    /// than 500 units are on offer.
    pub fn standard() -> (policy: TradePolicy)
        ensures
            policy.excluded_sell_location@ == "OE-XV-91-2"@,
            policy.minimum_purchase_quantity == 500,
    {
        TradePolicy {
            excluded_sell_location: String::from_str("OE-XV-91-2"),
            minimum_purchase_quantity: 500,
        }
    }
}

impl Trader {
    /// A trader for `ship` in `system`, set up at time `now` under the
    /// standard policy.
    pub fn new(user_id: String, username: String, system: String, ship: Ship, now: Timestamp) -> (machine:
        Trader)
        ensures
            machine.user_id == user_id,
            machine.username == username,
            machine.system == system,
            machine.ship == ship,
            machine.policy.excluded_sell_location@ == "OE-XV-91-2"@,
            machine.policy.minimum_purchase_quantity == 500,
            machine.state == TraderState::InitializeShip,
            machine.phase == TraderPhase::Start,
            machine.arrival_time == now,
            machine.route is None,
            machine.flight_plan is None,
            machine.destination is None,
    {
        Trader {
            user_id,
            username,
            system,
            ship,
            policy: TradePolicy::standard(),
            state: TraderState::InitializeShip,
            phase: TraderPhase::Start,
            arrival_time: now,
            route: None,
            flight_plan: None,
            destination: None,
        }
    }

    /// The id of the trader's ship.
    pub fn get_ship_id(&self) -> (id: String)
        ensures
            id == self.ship.id,
    {
        self.ship.id.clone()
    }

    /// The sell order for the first cargo entry that holds anything.
    pub open spec fn sell_request(self) -> Request {
        let entry = self.ship.cargo@[first_goods(self.ship.cargo@)];
        Request::CreateSellOrder {
            user_id: self.user_id,
            ship_id: self.ship.id,
            good: entry.good,
            quantity: entry.quantity,
        }
    }

    /// The units of the route's good that the trader orders.
    pub open spec fn trade_quantity(self) -> int
        recommends
            self.route is Some,
    {
        goods_order_quantity(
            self.ship.space_available as int,
            self.route->0.volume_per_unit as int,
        )
    }

    /// The outside work that the trader's state calls for.
    pub open spec fn spec_request(self) -> Request {
        match self.state {
            TraderState::InitializeShip => if self.ship.location is None {
                Request::GetActiveFlightPlan { ship_id: self.ship.id }
            } else if has_goods(self.ship.cargo@) {
                self.sell_request()
            } else {
                Request::Nothing
            },
            TraderState::WaitForArrival => Request::Nothing,
            TraderState::PickBestTrade => match (self.ship.location, self.phase) {
                (Some(_), TraderPhase::Start) => if has_goods(self.ship.cargo@) {
                    self.sell_request()
                } else {
                    Request::GetShip { user_id: self.user_id, ship_id: self.ship.id }
                },
                (Some(location), TraderPhase::Rank) => Request::GetRoutes {
                    location,
                    ship_speed: self.ship.speed,
                },
                _ => Request::Nothing,
            },
            TraderState::MoveToRandomLocation => match (
                self.ship.location,
                self.phase,
                self.destination,
            ) {
                (Some(location), TraderPhase::Start, _) => Request::GetSystemLocations { location },
                (Some(location), TraderPhase::Voyage(phase), Some(destination)) => {
                    spec_voyage_request(phase, self.ship, self.user_id, location, destination)
                },
                _ => Request::Nothing,
            },
            TraderState::ExecuteTrade => match (self.ship.location, self.route, self.phase) {
                (Some(_), Some(route), TraderPhase::Voyage(phase)) => spec_voyage_request(
                    phase,
                    self.ship,
                    self.user_id,
                    route.purchase_location,
                    route.sell_location,
                ),
                (Some(_), Some(route), TraderPhase::BuyGoods) => if self.trade_quantity() > 0 {
                    Request::CreatePurchaseOrder {
                        user_id: self.user_id,
                        ship_id: self.ship.id,
                        good: route.good,
                        quantity: self.trade_quantity() as i32,
                    }
                } else {
                    Request::Nothing
                },
                _ => Request::Nothing,
            },
        }
    }

    fn make_sell_request(&self) -> (request: Request)
        requires
            has_goods(self.ship.cargo@),
        ensures
            request == self.sell_request(),
    {
        match next_to_sell(&self.ship) {
            Some(entry) => Request::CreateSellOrder {
                user_id: self.user_id.clone(),
                ship_id: self.ship.id.clone(),
                good: entry.good,
                quantity: entry.quantity,
            },
            None => Request::Nothing,
        }
    }

    /// The outside work that the trader's state calls for. The driver
    /// performs it and answers with the matching event.
    pub fn request(&self) -> (request: Request)
        ensures
            request == self.spec_request(),
    {
        match self.state {
            TraderState::InitializeShip => {
                if self.ship.location.is_none() {
                    Request::GetActiveFlightPlan { ship_id: self.ship.id.clone() }
                } else if next_to_sell(&self.ship).is_some() {
                    self.make_sell_request()
                } else {
                    Request::Nothing
                }
            },
            TraderState::WaitForArrival => Request::Nothing,
            TraderState::PickBestTrade => match (&self.ship.location, self.phase) {
                (Some(_), TraderPhase::Start) => {
                    if next_to_sell(&self.ship).is_some() {
                        self.make_sell_request()
                    } else {
                        Request::GetShip {
                            user_id: self.user_id.clone(),
                            ship_id: self.ship.id.clone(),
                        }
                    }
                },
                (Some(location), TraderPhase::Rank) => Request::GetRoutes {
                    location: location.clone(),
                    ship_speed: self.ship.speed,
                },
                _ => Request::Nothing,
            },
            TraderState::MoveToRandomLocation => match (
                &self.ship.location,
                self.phase,
                &self.destination,
            ) {
                (Some(location), TraderPhase::Start, _) => Request::GetSystemLocations {
                    location: location.clone(),
                },
                (Some(location), TraderPhase::Voyage(phase), Some(destination)) => voyage_request(
                    phase,
                    &self.ship,
                    &self.user_id,
                    location,
                    destination,
                ),
                _ => Request::Nothing,
            },
            TraderState::ExecuteTrade => match (&self.ship.location, &self.route, self.phase) {
                (Some(_), Some(route), TraderPhase::Voyage(phase)) => voyage_request(
                    phase,
                    &self.ship,
                    &self.user_id,
                    &route.purchase_location,
                    &route.sell_location,
                ),
                (Some(_), Some(route), TraderPhase::BuyGoods) => {
                    let quantity = goods_quantity(self.ship.space_available, route.volume_per_unit);
                    if quantity > 0 {
                        Request::CreatePurchaseOrder {
                            user_id: self.user_id.clone(),
                            ship_id: self.ship.id.clone(),
                            good: route.good,
                            quantity,
                        }
                    } else {
                        Request::Nothing
                    }
                },
                _ => Request::Nothing,
            },
        }
    }
}

impl Trader {
    /// The step failed and left the trader as it was.
    pub open spec fn stays_with(self, next: Trader, result: StepResult, error: StepError) -> bool {
        next == self && result == Err::<Option<PollResult>, StepError>(error)
    }

    /// The step moved the trader to `next` and reported nothing.
    pub open spec fn moves_to(expected: Trader, next: Trader, result: StepResult) -> bool {
        next == expected && result == Ok::<Option<PollResult>, StepError>(None)
    }

    /// The step in `InitializeShip`: a ship under way waits for the arrival
    /// its stored plan names; a docked ship sells what it holds, entry by
    /// entry, and then looks for a trade.
    pub open spec fn initialize_transition(
        self,
        event: Event,
        next: Trader,
        result: StepResult,
    ) -> bool {
        if self.ship.location is None {
            match event {
                Event::ActiveFlightPlan(Some(plan)) => Self::moves_to(
                    Trader {
                        arrival_time: plan.arrives_at,
                        flight_plan: Some(plan),
                        state: TraderState::WaitForArrival,
                        phase: TraderPhase::Start,
                        ..self
                    },
                    next,
                    result,
                ),
                Event::ActiveFlightPlan(None) => self.stays_with(
                    next,
                    result,
                    StepError::NoActiveFlightPlan,
                ),
                _ => self.stays_with(next, result, spec_failure_of(event)),
            }
        } else if has_goods(self.ship.cargo@) {
            match event {
                Event::Order(order) => {
                    &&& next == Trader { ship: order.ship, ..self }
                    &&& result == Ok::<Option<PollResult>, StepError>(
                        Some(PollResult::UpdateCredits(order.credits)),
                    )
                },
                _ => self.stays_with(next, result, spec_failure_of(event)),
            }
        } else {
            match event {
                Event::Tick => Self::moves_to(
                    Trader { state: TraderState::PickBestTrade, phase: TraderPhase::Start, ..self },
                    next,
                    result,
                ),
                _ => self.stays_with(next, result, spec_failure_of(event)),
            }
        }
    }

    /// The step in `WaitForArrival`: once the arrival time has come the ship
    /// is at its plan's destination and looks for a trade. A trader that
    /// waits without a plan starts over.
    pub open spec fn wait_transition(
        self,
        now: Timestamp,
        event: Event,
        next: Trader,
        result: StepResult,
    ) -> bool {
        match event {
            Event::Tick => if now >= self.arrival_time {
                match self.flight_plan {
                    Some(plan) => Self::moves_to(
                        Trader {
                            ship: Ship { location: Some(plan.destination), ..self.ship },
                            state: TraderState::PickBestTrade,
                            phase: TraderPhase::Start,
                            ..self
                        },
                        next,
                        result,
                    ),
                    None => Self::moves_to(
                        Trader {
                            state: TraderState::InitializeShip,
                            phase: TraderPhase::Start,
                            ..self
                        },
                        next,
                        result,
                    ),
                }
            } else {
                Self::moves_to(self, next, result)
            },
            _ => self.stays_with(next, result, spec_failure_of(event)),
        }
    }

    /// The step in `PickBestTrade`: sell what is left in the hold; hand the
    /// ship over to a system transfer, bound for the ship's stored home
    /// system, where that is not the trader's; else take the first route of the ranking that qualifies, or
    /// move on at random where none does.
    pub open spec fn pick_transition(
        self,
        now: Timestamp,
        event: Event,
        next: Trader,
        result: StepResult,
    ) -> bool {
        match (self.ship.location, self.phase) {
            (Some(_), TraderPhase::Start) => if has_goods(self.ship.cargo@) {
                match event {
                    Event::Order(order) => {
                        &&& next == Trader { ship: order.ship, ..self }
                        &&& result == Ok::<Option<PollResult>, StepError>(
                            Some(PollResult::UpdateCredits(order.credits)),
                        )
                    },
                    _ => self.stays_with(next, result, spec_failure_of(event)),
                }
            } else {
                match event {
                    Event::ShipRow(row) => if row.system@ != self.system@ {
                        &&& next == self
                        &&& result matches Ok(
                            Some(
                                PollResult::ConvertToNewMachine(MachineType::SystemChange(machine)),
                            ),
                        )
                        &&& machine.fresh(
                            self.user_id,
                            self.username,
                            row.system,
                            self.ship,
                            now,
                        )
                    } else {
                        Self::moves_to(Trader { phase: TraderPhase::Rank, ..self }, next, result)
                    },
                    _ => self.stays_with(next, result, spec_failure_of(event)),
                }
            },
            (Some(_), TraderPhase::Rank) => match event {
                Event::Routes(ranking) => if has_qualifying(ranking@, self.policy) {
                    Self::moves_to(
                        Trader {
                            route: Some(ranking@[first_qualifying(ranking@, self.policy)]),
                            state: TraderState::ExecuteTrade,
                            phase: TraderPhase::Voyage(VoyagePhase::LookUpFuel),
                            ..self
                        },
                        next,
                        result,
                    )
                } else {
                    Self::moves_to(
                        Trader {
                            state: TraderState::MoveToRandomLocation,
                            phase: TraderPhase::Start,
                            ..self
                        },
                        next,
                        result,
                    )
                },
                _ => self.stays_with(next, result, spec_failure_of(event)),
            },
            (Some(_), _) => match event {
                Event::Tick => Self::moves_to(
                    Trader { phase: TraderPhase::Start, ..self },
                    next,
                    result,
                ),
                _ => self.stays_with(next, result, spec_failure_of(event)),
            },
            (None, _) => match event {
                Event::Tick => Self::moves_to(
                    Trader {
                        state: TraderState::InitializeShip,
                        phase: TraderPhase::Start,
                        ..self
                    },
                    next,
                    result,
                ),
                _ => self.stays_with(next, result, spec_failure_of(event)),
            },
        }
    }

    /// What a step of the flight preparations means for the trader: the ship
    /// and the phase move on; a purchase is reported; a departure makes the
    /// trader wait for the arrival. `hold` says whether the trader has still
    /// to fill its hold before it may leave.
    pub open spec fn voyage_outcome(
        self,
        phase: VoyagePhase,
        hold: bool,
        event: Event,
        next: Trader,
        result: StepResult,
    ) -> bool {
        exists|next_phase: VoyagePhase, progress: Result<VoyageProgress, StepError>|
            {
                &&& #[trigger] voyage_transition(
                    phase,
                    self.ship,
                    event,
                    next_phase,
                    next.ship,
                    progress,
                )
                &&& match progress {
                    Err(error) => {
                        &&& next == Trader { ship: next.ship, ..self }
                        &&& result == Err::<Option<PollResult>, StepError>(error)
                    },
                    Ok(VoyageProgress::Departed(plan)) => {
                        &&& next == Trader {
                            ship: next.ship,
                            arrival_time: plan.arrives_at,
                            flight_plan: Some(plan),
                            state: TraderState::WaitForArrival,
                            phase: TraderPhase::Start,
                            ..self
                        }
                        &&& result == Ok::<Option<PollResult>, StepError>(None)
                    },
                    Ok(reached) => {
                        &&& next == Trader {
                            ship: next.ship,
                            phase: if hold && next_phase == VoyagePhase::Depart {
                                TraderPhase::BuyGoods
                            } else {
                                TraderPhase::Voyage(next_phase)
                            },
                            ..self
                        }
                        &&& result == Ok::<Option<PollResult>, StepError>(
                            match reached {
                                VoyageProgress::Paid(credits) => Some(
                                    PollResult::UpdateCredits(credits),
                                ),
                                _ => None,
                            },
                        )
                    },
                }
            }
    }

    /// The step in `MoveToRandomLocation`: of the locations of the system,
    /// one is picked at random; where it is another place than the ship's,
    /// the trader flies there. `pick` is the place that was picked.
    pub open spec fn wander_transition(
        self,
        event: Event,
        pick: Option<String>,
        next: Trader,
        result: StepResult,
    ) -> bool {
        match (self.ship.location, self.phase, self.destination) {
            (None, _, _) => match event {
                Event::Tick => Self::moves_to(self, next, result),
                _ => self.stays_with(next, result, spec_failure_of(event)),
            },
            (Some(location), TraderPhase::Start, _) => match event {
                Event::SystemLocations(_) => match pick {
                    Some(place) => if place@ == location@ {
                        Self::moves_to(self, next, result)
                    } else {
                        Self::moves_to(
                            Trader {
                                destination: Some(place),
                                phase: TraderPhase::Voyage(VoyagePhase::LookUpFuel),
                                ..self
                            },
                            next,
                            result,
                        )
                    },
                    None => Self::moves_to(self, next, result),
                },
                _ => self.stays_with(next, result, spec_failure_of(event)),
            },
            (Some(_), TraderPhase::Voyage(phase), Some(_)) => self.voyage_outcome(
                phase,
                false,
                event,
                next,
                result,
            ),
            (Some(_), _, _) => match event {
                Event::Tick => Self::moves_to(
                    Trader { phase: TraderPhase::Start, ..self },
                    next,
                    result,
                ),
                _ => self.stays_with(next, result, spec_failure_of(event)),
            },
        }
    }

    /// The step in `ExecuteTrade`: make sure of the fuel for the trip from
    /// the route's purchase location to its sell location, fill the hold
    /// with the route's good, and leave. A trader without a route, and one
    /// whose purchase fails, looks for another trade; a ship found to be
    /// under way makes the trader start over.
    pub open spec fn trade_transition(
        self,
        event: Event,
        next: Trader,
        result: StepResult,
    ) -> bool {
        let again = Trader { state: TraderState::PickBestTrade, phase: TraderPhase::Start, ..self };
        match (self.ship.location, self.route, self.phase) {
            (None, _, _) => match event {
                Event::Tick => Self::moves_to(
                    Trader {
                        state: TraderState::InitializeShip,
                        phase: TraderPhase::Start,
                        ..self
                    },
                    next,
                    result,
                ),
                _ => self.stays_with(next, result, spec_failure_of(event)),
            },
            (Some(_), Some(_), TraderPhase::Voyage(phase)) => self.voyage_outcome(
                phase,
                phase != VoyagePhase::Depart,
                event,
                next,
                result,
            ),
            (Some(_), Some(_), TraderPhase::BuyGoods) => if self.trade_quantity() > 0 {
                match event {
                    Event::Order(order) => {
                        &&& next == Trader {
                            ship: order.ship,
                            phase: TraderPhase::Voyage(VoyagePhase::Depart),
                            ..self
                        }
                        &&& result == Ok::<Option<PollResult>, StepError>(
                            Some(PollResult::UpdateCredits(order.credits)),
                        )
                    },
                    Event::ClientFailed(_) => Self::moves_to(again, next, result),
                    Event::PersistenceFailed(_) => Self::moves_to(again, next, result),
                    _ => self.stays_with(next, result, StepError::UnexpectedEvent),
                }
            } else {
                match event {
                    Event::Tick => Self::moves_to(again, next, result),
                    _ => self.stays_with(next, result, spec_failure_of(event)),
                }
            },
            _ => match event {
                Event::Tick => Self::moves_to(again, next, result),
                _ => self.stays_with(next, result, spec_failure_of(event)),
            },
        }
    }

    /// One step of the trader: what becomes of it on `event` at time `now`,
    /// and what it reports. `pick` is the place picked at random where the
    /// event lists the locations to pick from; it plays no part otherwise.
    pub open spec fn transition(
        self,
        now: Timestamp,
        event: Event,
        pick: Option<String>,
        next: Trader,
        result: StepResult,
    ) -> bool {
        match self.state {
            TraderState::InitializeShip => self.initialize_transition(event, next, result),
            TraderState::WaitForArrival => self.wait_transition(now, event, next, result),
            TraderState::PickBestTrade => self.pick_transition(now, event, next, result),
            TraderState::MoveToRandomLocation => self.wander_transition(event, pick, next, result),
            TraderState::ExecuteTrade => self.trade_transition(event, next, result),
        }
    }

    fn step_initialize(&mut self, event: Event) -> (result: StepResult)
        requires
            old(self).state == TraderState::InitializeShip,
        ensures
            old(self).initialize_transition(event, *final(self), result),
    {
        if self.ship.location.is_none() {
            match event {
                Event::ActiveFlightPlan(Some(plan)) => {
                    self.arrival_time = plan.arrives_at;
                    self.flight_plan = Some(plan);
                    self.state = TraderState::WaitForArrival;
                    self.phase = TraderPhase::Start;
                    Ok(None)
                },
                Event::ActiveFlightPlan(None) => Err(StepError::NoActiveFlightPlan),
                other => Err(failure_of(other)),
            }
        } else if next_to_sell(&self.ship).is_some() {
            match event {
                Event::Order(order) => {
                    self.ship = order.ship;
                    Ok(Some(PollResult::UpdateCredits(order.credits)))
                },
                other => Err(failure_of(other)),
            }
        } else {
            match event {
                Event::Tick => {
                    self.state = TraderState::PickBestTrade;
                    self.phase = TraderPhase::Start;
                    Ok(None)
                },
                other => Err(failure_of(other)),
            }
        }
    }

    fn step_wait(&mut self, now: Timestamp, event: Event) -> (result: StepResult)
        requires
            old(self).state == TraderState::WaitForArrival,
        ensures
            old(self).wait_transition(now, event, *final(self), result),
    {
        match event {
            Event::Tick => {
                if now >= self.arrival_time {
                    match &self.flight_plan {
                        Some(plan) => {
                            self.ship.location = Some(plan.destination.clone());
                            self.state = TraderState::PickBestTrade;
                            self.phase = TraderPhase::Start;
                        },
                        None => {
                            self.state = TraderState::InitializeShip;
                            self.phase = TraderPhase::Start;
                        },
                    }
                }
                Ok(None)
            },
            other => Err(failure_of(other)),
        }
    }

    fn step_pick(&mut self, now: Timestamp, event: Event) -> (result: StepResult)
        requires
            old(self).state == TraderState::PickBestTrade,
        ensures
            old(self).pick_transition(now, event, *final(self), result),
    {
        if self.ship.location.is_none() {
            return match event {
                Event::Tick => {
                    self.state = TraderState::InitializeShip;
                    self.phase = TraderPhase::Start;
                    Ok(None)
                },
                other => Err(failure_of(other)),
            };
        }
        match self.phase {
            TraderPhase::Start => {
                if next_to_sell(&self.ship).is_some() {
                    match event {
                        Event::Order(order) => {
                            self.ship = order.ship;
                            Ok(Some(PollResult::UpdateCredits(order.credits)))
                        },
                        other => Err(failure_of(other)),
                    }
                } else {
                    match event {
                        Event::ShipRow(row) => {
                            if !same_text(&row.system, &self.system) {
                                let machine = SystemChange::from(self, row.system, now);
                                Ok(
                                    Some(
                                        PollResult::ConvertToNewMachine(
                                            MachineType::SystemChange(machine),
                                        ),
                                    ),
                                )
                            } else {
                                self.phase = TraderPhase::Rank;
                                Ok(None)
                            }
                        },
                        other => Err(failure_of(other)),
                    }
                }
            },
            TraderPhase::Rank => match event {
                Event::Routes(ranking) => {
                    match pick_route(ranking, &self.policy) {
                        Some(route) => {
                            self.route = Some(route);
                            self.state = TraderState::ExecuteTrade;
                            self.phase = TraderPhase::Voyage(VoyagePhase::LookUpFuel);
                        },
                        None => {
                            self.state = TraderState::MoveToRandomLocation;
                            self.phase = TraderPhase::Start;
                        },
                    }
                    Ok(None)
                },
                other => Err(failure_of(other)),
            },
            _ => match event {
                Event::Tick => {
                    self.phase = TraderPhase::Start;
                    Ok(None)
                },
                other => Err(failure_of(other)),
            },
        }
    }

    fn step_voyage(&mut self, phase: VoyagePhase, hold: bool, event: Event) -> (result: StepResult)
        ensures
            old(self).voyage_outcome(phase, hold, event, *final(self), result),
    {
        let mut next_phase = phase;
        let progress = voyage_step(&mut next_phase, &mut self.ship, event);
        let ghost checked = progress;
        let result = match progress {
            Err(error) => Err(error),
            Ok(VoyageProgress::Departed(plan)) => {
                self.arrival_time = plan.arrives_at;
                self.flight_plan = Some(plan);
                self.state = TraderState::WaitForArrival;
                self.phase = TraderPhase::Start;
                Ok(None)
            },
            Ok(reached) => {
                self.phase = if hold && next_phase == VoyagePhase::Depart {
                    TraderPhase::BuyGoods
                } else {
                    TraderPhase::Voyage(next_phase)
                };
                match reached {
                    VoyageProgress::Paid(credits) => Ok(Some(PollResult::UpdateCredits(credits))),
                    _ => Ok(None),
                }
            },
        };
        assert(voyage_transition(phase, old(self).ship, event, next_phase, self.ship, checked));
        result
    }

    fn step_wander(&mut self, event: Event, pick: Option<String>) -> (result: StepResult)
        requires
            old(self).state == TraderState::MoveToRandomLocation,
        ensures
            old(self).wander_transition(event, pick, *final(self), result),
    {
        if self.ship.location.is_none() {
            return match event {
                Event::Tick => Ok(None),
                other => Err(failure_of(other)),
            };
        }
        match self.phase {
            TraderPhase::Start => match event {
                Event::SystemLocations(_) => {
                    match pick {
                        Some(place) => {
                            let here = match &self.ship.location {
                                Some(location) => same_text(&place, location),
                                None => false,
                            };
                            if !here {
                                self.destination = Some(place);
                                self.phase = TraderPhase::Voyage(VoyagePhase::LookUpFuel);
                            }
                        },
                        None => {},
                    }
                    Ok(None)
                },
                other => Err(failure_of(other)),
            },
            TraderPhase::Voyage(phase) => {
                if self.destination.is_some() {
                    self.step_voyage(phase, false, event)
                } else {
                    match event {
                        Event::Tick => {
                            self.phase = TraderPhase::Start;
                            Ok(None)
                        },
                        other => Err(failure_of(other)),
                    }
                }
            },
            _ => match event {
                Event::Tick => {
                    self.phase = TraderPhase::Start;
                    Ok(None)
                },
                other => Err(failure_of(other)),
            },
        }
    }

    fn step_trade(&mut self, event: Event) -> (result: StepResult)
        requires
            old(self).state == TraderState::ExecuteTrade,
        ensures
            old(self).trade_transition(event, *final(self), result),
    {
        if self.ship.location.is_none() {
            return match event {
                Event::Tick => {
                    self.state = TraderState::InitializeShip;
                    self.phase = TraderPhase::Start;
                    Ok(None)
                },
                other => Err(failure_of(other)),
            };
        }
        let volume = match &self.route {
            Some(route) => Some(route.volume_per_unit),
            None => None,
        };
        match (volume, self.phase) {
            (Some(_), TraderPhase::Voyage(phase)) => self.step_voyage(
                phase,
                phase != VoyagePhase::Depart,
                event,
            ),
            (Some(volume_per_unit), TraderPhase::BuyGoods) => {
                let quantity = goods_quantity(self.ship.space_available, volume_per_unit);
                if quantity > 0 {
                    match event {
                        Event::Order(order) => {
                            self.ship = order.ship;
                            self.phase = TraderPhase::Voyage(VoyagePhase::Depart);
                            Ok(Some(PollResult::UpdateCredits(order.credits)))
                        },
                        Event::ClientFailed(_) => {
                            self.state = TraderState::PickBestTrade;
                            self.phase = TraderPhase::Start;
                            Ok(None)
                        },
                        Event::PersistenceFailed(_) => {
                            self.state = TraderState::PickBestTrade;
                            self.phase = TraderPhase::Start;
                            Ok(None)
                        },
                        _ => Err(StepError::UnexpectedEvent),
                    }
                } else {
                    match event {
                        Event::Tick => {
                            self.state = TraderState::PickBestTrade;
                            self.phase = TraderPhase::Start;
                            Ok(None)
                        },
                        other => Err(failure_of(other)),
                    }
                }
            },
            _ => match event {
                Event::Tick => {
                    self.state = TraderState::PickBestTrade;
                    self.phase = TraderPhase::Start;
                    Ok(None)
                },
                other => Err(failure_of(other)),
            },
        }
    }

    /// Takes one step on `event`, with `pick` as the place picked at random
    /// where the event lists the locations of the system.
    pub fn step_with(&mut self, now: Timestamp, event: Event, pick: Option<String>) -> (result:
        StepResult)
        ensures
            old(self).transition(now, event, pick, *final(self), result),
    {
        match self.state {
            TraderState::InitializeShip => self.step_initialize(event),
            TraderState::WaitForArrival => self.step_wait(now, event),
            TraderState::PickBestTrade => self.step_pick(now, event),
            TraderState::MoveToRandomLocation => self.step_wander(event, pick),
            TraderState::ExecuteTrade => self.step_trade(event),
        }
    }

    /// The place that may be picked from the locations an event lists:
    /// one of them, or none where the list is empty or the event lists
    /// nothing.
    pub open spec fn pick_allowed(event: Event, pick: Option<String>) -> bool {
        match event {
            Event::SystemLocations(places) => match pick {
                Some(place) => exists|i: int|
                    0 <= i < places@.len() && (#[trigger] places@[i])@ == place@,
                None => places@.len() == 0,
            },
            _ => pick is None,
        }
    }

    /// Takes one step on `event` at the time on the system clock. Where the
    /// event lists the locations of the system, one of them is picked at
    /// random.
    pub fn poll(&mut self, event: Event) -> (result: StepResult)
        ensures
            exists|now: Timestamp, pick: Option<String>|
                Self::pick_allowed(event, pick) && #[trigger] old(self).transition(
                    now,
                    event,
                    pick,
                    *final(self),
                    result,
                ),
    {
        let now = utc_now();
        let pick = match &event {
            Event::SystemLocations(places) => choose_one(places),
            _ => None,
        };
        assert(Self::pick_allowed(event, pick));
        self.step_with(now, event, pick)
    }

    /// Forgets the cargo and starts over. The driver has the cargo thrown
    /// overboard first, entry by entry.
    pub fn reset(&mut self)
        ensures
            final(self).ship.cargo@ == Seq::<crate::shared::Cargo>::empty(),
            final(self).state == TraderState::InitializeShip,
            final(self).phase == TraderPhase::Start,
            *final(self) == (Trader {
                ship: Ship { cargo: final(self).ship.cargo, ..old(self).ship },
                state: TraderState::InitializeShip,
                phase: TraderPhase::Start,
                ..*old(self)
            }),
    {
        self.ship.cargo.clear();
        self.state = TraderState::InitializeShip;
        self.phase = TraderPhase::Start;
    }
}

impl Trader {
    /// A trader files a flight plan only for a docked ship.
    pub proof fn lemma_departs_docked(self)
        requires
            self.spec_request() is CreateFlightPlan,
        ensures
            self.ship.location is Some,
    {
    }

    /// A trader hands its ship over to a system transfer exactly when the
    /// store names another home system for the ship than the trader's, and
    /// then the transfer starts afresh with the trader's ship, bound for
    /// that home system.
    pub proof fn lemma_morphs_when_away(
        self,
        now: Timestamp,
        event: Event,
        pick: Option<String>,
        next: Trader,
        result: StepResult,
    )
        requires
            self.transition(now, event, pick, next, result),
        ensures
            (result matches Ok(Some(PollResult::ConvertToNewMachine(_)))) <==> ({
                &&& self.state == TraderState::PickBestTrade
                &&& self.phase == TraderPhase::Start
                &&& self.ship.location is Some
                &&& !has_goods(self.ship.cargo@)
                &&& event matches Event::ShipRow(row)
                &&& row.system@ != self.system@
            }),
            result matches Ok(Some(PollResult::ConvertToNewMachine(successor)))
                ==> successor matches MachineType::SystemChange(machine) && event matches Event::ShipRow(
                row,
            ) && machine.fresh(self.user_id, self.username, row.system, self.ship, now),
    {
    }

    /// Whenever a step reports new credits, an order has gone through, and
    /// the trader holds what the server reports: the credits are the
    /// reported ones and the ship is the reported ship.
    pub proof fn lemma_order_is_adopted(
        self,
        now: Timestamp,
        event: Event,
        pick: Option<String>,
        next: Trader,
        result: StepResult,
        credits: i32,
    )
        requires
            self.transition(now, event, pick, next, result),
            result == Ok::<Option<PollResult>, StepError>(Some(PollResult::UpdateCredits(credits))),
        ensures
            event matches Event::Order(order) && order.credits == credits && next.ship
                == order.ship,
    {
    }

    /// While a trader waits for an arrival its ship has no location, once it
    /// has left on a flight: the step that files the plan takes the location
    /// away, burns the plan's fuel and sets the arrival time.
    pub proof fn lemma_departure(
        self,
        now: Timestamp,
        event: Event,
        pick: Option<String>,
        next: Trader,
        result: StepResult,
    )
        requires
            self.transition(now, event, pick, next, result),
            self.state != TraderState::WaitForArrival,
            self.state != TraderState::InitializeShip,
            next.state == TraderState::WaitForArrival,
        ensures
            event matches Event::FlightPlan(plan) && next.ship.location is None
                && next.flight_plan == Some(plan.flight_plan) && next.arrival_time
                == plan.flight_plan.arrives_at && next.ship.cargo@ == crate::cargo::cargo_after_flight(
                self.ship.cargo@,
                plan.flight_plan.fuel_consumed as int,
            ),
    {
    }
}

/// Out of a descending ranking the trader takes a route that no qualifying
/// route exceeds in score.
pub proof fn lemma_pick_is_best(ranking: Seq<DbRoute>, policy: TradePolicy, other: int)
    requires
        descends(ranking),
        0 <= other < ranking.len(),
        qualifies(ranking[other], policy),
    ensures
        has_qualifying(ranking, policy),
        0 <= first_qualifying(ranking, policy) <= other,
        qualifies(ranking[first_qualifying(ranking, policy)], policy),
        !spec_score_exceeds(ranking[other], ranking[first_qualifying(ranking, policy)]),
{
    lemma_first_qualifying(ranking, policy, 0);
    let first = first_qualifying(ranking, policy);
    if other < first {
        assert(!qualifies(ranking[other], policy));
    }
}

/// Where some route of the ranking qualifies, one of them is the first.
proof fn lemma_first_qualifying(ranking: Seq<DbRoute>, policy: TradePolicy, from: int)
    requires
        0 <= from <= ranking.len(),
        forall|j: int| 0 <= j < from ==> !qualifies(#[trigger] ranking[j], policy),
        exists|i: int| from <= i < ranking.len() && qualifies(#[trigger] ranking[i], policy),
    ensures
        0 <= first_qualifying(ranking, policy) < ranking.len(),
        qualifies(ranking[first_qualifying(ranking, policy)], policy),
        forall|j: int|
            0 <= j < first_qualifying(ranking, policy) ==> !qualifies(#[trigger] ranking[j], policy),
    decreases ranking.len() - from,
{
    if qualifies(ranking[from], policy) {
        assert(0 <= from < ranking.len() && qualifies(ranking[from], policy) && forall|j: int|
            0 <= j < from ==> !qualifies(#[trigger] ranking[j], policy));
    } else {
        lemma_first_qualifying(ranking, policy, from + 1);
    }
}

} // verus!
