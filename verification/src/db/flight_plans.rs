//! The stored flight plans: which plan of a ship is active, and what an
//! earlier flight tells of the fuel a trip takes.

use crate::db::{DbFlightPlan, DbShip};
use crate::shared::{FlightPlanData, Timestamp};
use crate::text::same_text;
use vstd::prelude::*;

verus! {

/// The row under which a flight plan of a ship is stored at time `now`.
pub open spec fn flight_plan_row(
    user_id: String,
    ship_id: String,
    plan: FlightPlanData,
    now: Timestamp,
) -> DbFlightPlan {
    DbFlightPlan {
        id: plan.id,
        user_id,
        ship_id,
        origin: plan.departure,
        destination: plan.destination,
        distance: plan.distance,
        fuel_consumed: plan.fuel_consumed,
        fuel_remaining: plan.fuel_remaining,
        time_remaining_in_seconds: plan.time_remaining_in_seconds,
        arrives_at: plan.arrives_at,
        created_at: now,
    }
}

/// The flight plan that a stored row tells of.
pub open spec fn flight_plan_of(row: DbFlightPlan) -> FlightPlanData {
    FlightPlanData {
        id: row.id,
        ship_id: row.ship_id,
        fuel_consumed: row.fuel_consumed,
        fuel_remaining: row.fuel_remaining,
        time_remaining_in_seconds: row.time_remaining_in_seconds,
        created_at: row.created_at,
        arrives_at: row.arrives_at,
        terminated_at: None,
        destination: row.destination,
        departure: row.origin,
        distance: row.distance,
    }
}

/// The plan of the row is active at time `now` for the ship: it is the
/// ship's and it has not arrived yet.
pub open spec fn is_active(row: DbFlightPlan, ship_id: Seq<char>, now: Timestamp) -> bool {
    row.ship_id@ == ship_id && row.arrives_at > now
}

/// Some stored plan of the ship is active at time `now`.
pub open spec fn has_active_plan(plans: Seq<DbFlightPlan>, ship_id: Seq<char>, now: Timestamp) -> bool {
    exists|i: int| 0 <= i < plans.len() && is_active(#[trigger] plans[i], ship_id, now)
}

/// The position of the first stored plan of the ship that is active.
pub open spec fn active_plan_index(plans: Seq<DbFlightPlan>, ship_id: Seq<char>, now: Timestamp) -> int
    recommends
        has_active_plan(plans, ship_id, now),
{
    choose|i: int|
        0 <= i < plans.len() && is_active(#[trigger] plans[i], ship_id, now) && forall|j: int|
            0 <= j < i ==> !is_active(#[trigger] plans[j], ship_id, now)
}

/// No ship has more than one stored plan that is active at time `now`.
pub open spec fn plans_unique(plans: Seq<DbFlightPlan>, now: Timestamp) -> bool {
    forall|i: int, j: int|
        0 <= i < plans.len() && 0 <= j < plans.len() && (#[trigger] plans[i]).ship_id@ == (
        #[trigger] plans[j]).ship_id@ && plans[i].arrives_at > now && plans[j].arrives_at > now
            ==> i == j
}

/// A plan that is appended for a ship without an active plan leaves every
/// ship with at most one active plan.
pub proof fn lemma_append_keeps_plans_unique(
    plans: Seq<DbFlightPlan>,
    row: DbFlightPlan,
    now: Timestamp,
)
    requires
        plans_unique(plans, now),
        !has_active_plan(plans, row.ship_id@, now),
    ensures
        plans_unique(plans.push(row), now),
{
    let grown = plans.push(row);
    assert forall|i: int, j: int|
        0 <= i < grown.len() && 0 <= j < grown.len() && (#[trigger] grown[i]).ship_id@ == (
        #[trigger] grown[j]).ship_id@ && grown[i].arrives_at > now && grown[j].arrives_at
            > now implies i == j by {
        if i < plans.len() && j < plans.len() {
            assert(grown[i] == plans[i] && grown[j] == plans[j]);
        } else if i < plans.len() {
            assert(grown[i] == plans[i]);
            assert(is_active(plans[i], row.ship_id@, now));
        } else if j < plans.len() {
            assert(grown[j] == plans[j]);
            assert(is_active(plans[j], row.ship_id@, now));
        }
    }
}

/// As time goes by no plan becomes active: where every ship has at most one
/// active plan at some time, it has at most one at any later time.
pub proof fn lemma_plans_stay_unique(plans: Seq<DbFlightPlan>, now: Timestamp, later: Timestamp)
    requires
        plans_unique(plans, now),
        now <= later,
    ensures
        plans_unique(plans, later),
{
}

/// A plan that is stored for a ship without an active plan is the one that
/// the store names as the ship's active plan until it arrives, with every
/// field as it was stored.
pub proof fn lemma_stored_plan_is_found(
    plans: Seq<DbFlightPlan>,
    user_id: String,
    ship_id: String,
    plan: FlightPlanData,
    now: Timestamp,
)
    requires
        !has_active_plan(plans, ship_id@, now),
        plan.arrives_at > now,
    ensures
        has_active_plan(plans.push(flight_plan_row(user_id, ship_id, plan, now)), ship_id@, now),
        flight_plan_of(
            plans.push(flight_plan_row(user_id, ship_id, plan, now))[active_plan_index(
                plans.push(flight_plan_row(user_id, ship_id, plan, now)),
                ship_id@,
                now,
            )],
        ) == (FlightPlanData { ship_id, created_at: now, terminated_at: None, ..plan }),
{
    let row = flight_plan_row(user_id, ship_id, plan, now);
    let grown = plans.push(row);
    let last = plans.len() as int;
    assert(grown[last] == row);
    assert(is_active(grown[last], ship_id@, now));
    let found = active_plan_index(grown, ship_id@, now);
    assert forall|j: int| 0 <= j < last implies !is_active(#[trigger] grown[j], ship_id@, now) by {
        assert(grown[j] == plans[j]);
    }
    assert(found == last) by {
        if found < last {
            assert(!is_active(grown[found], ship_id@, now));
        }
    }
}

/// A ship of the given type bears the id.
pub open spec fn is_of_type(ships: Seq<DbShip>, ship_id: Seq<char>, ship_type: Seq<char>) -> bool {
    exists|k: int|
        0 <= k < ships.len() && (#[trigger] ships[k]).ship_id@ == ship_id && ships[k].ship_type@
            == ship_type
}

/// The plan tells of a flight of a ship of the given type from `origin` to
/// `destination`.
pub open spec fn has_flown(
    plan: DbFlightPlan,
    ships: Seq<DbShip>,
    origin: Seq<char>,
    destination: Seq<char>,
    ship_type: Seq<char>,
) -> bool {
    &&& plan.origin@ == origin
    &&& plan.destination@ == destination
    &&& is_of_type(ships, plan.ship_id@, ship_type)
}

/// A ship of the given type has flown from `origin` to `destination` before.
pub open spec fn knows_fuel(
    plans: Seq<DbFlightPlan>,
    ships: Seq<DbShip>,
    origin: Seq<char>,
    destination: Seq<char>,
    ship_type: Seq<char>,
) -> bool {
    exists|i: int|
        0 <= i < plans.len() && has_flown(#[trigger] plans[i], ships, origin, destination, ship_type)
}

/// The position of the first plan that tells of such a flight.
pub open spec fn fuel_index(
    plans: Seq<DbFlightPlan>,
    ships: Seq<DbShip>,
    origin: Seq<char>,
    destination: Seq<char>,
    ship_type: Seq<char>,
) -> int
    recommends
        knows_fuel(plans, ships, origin, destination, ship_type),
{
    choose|i: int|
        0 <= i < plans.len() && has_flown(#[trigger] plans[i], ships, origin, destination, ship_type)
            && forall|j: int|
            0 <= j < i ==> !has_flown(#[trigger] plans[j], ships, origin, destination, ship_type)
}

/// Decides whether a ship of the given type bears the id.
pub fn check_type(ships: &Vec<DbShip>, ship_id: &String, ship_type: &String) -> (found: bool)
    ensures
        found == is_of_type(ships@, ship_id@, ship_type@),
{
    let mut k: usize = 0;
    while k < ships.len()
        invariant
            k <= ships.len(),
            forall|j: int|
                0 <= j < k ==> !((#[trigger] ships@[j]).ship_id@ == ship_id@ && ships@[j].ship_type@
                    == ship_type@),
        decreases ships.len() - k,
    {
        if same_text(&ships[k].ship_id, ship_id) && same_text(&ships[k].ship_type, ship_type) {
            return true;
        }
        k = k + 1;
    }
    false
}

} // verus!
