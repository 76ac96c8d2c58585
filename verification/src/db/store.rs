//! The persistent store as the machines and the supervisor use it: its
//! tables, what is written to them and what they answer.

use crate::db::flight_plans::{
    active_plan_index, check_type, flight_plan_of, flight_plan_row, fuel_index, has_active_plan,
    has_flown, is_active, knows_fuel,
};
use crate::db::places::{
    has_wormhole, is_wormhole_to, place_index, same_place, system_locations_from,
    locations_of_system, upsert_place, wormhole_index,
};
use crate::db::{
    DbDistanceBetweenLocations, DbFlightPlan, DbMarketData, DbRoute, DbShip, DbSystemLocation, DbTransaction, DbUser,
    DbUserStats, TransactionKind,
};
use crate::responses::{FlightPlan, PurchaseOrder};
use crate::routes::distance::{gap_squared, squared_gap};
use crate::routes::{find_info, get_routes_from_location, has_info, info_index, routes_from};
use crate::shared::{FlightPlanData, MarketplaceData, Timestamp};
use crate::ship_machines::ShipAssignment;
use crate::text::{contains_text, same_text};
use vstd::prelude::*;

verus! {

/// The persistent store: its tables, each in the order in which its rows
/// were written.
#[derive(Debug, Clone, PartialEq, Eq)]
pub struct Store {
    pub users: Vec<DbUser>,
    pub system_info: Vec<DbSystemLocation>,
    pub flight_plans: Vec<DbFlightPlan>,
    pub market_data: Vec<DbMarketData>,
    pub user_stats: Vec<DbUserStats>,
    pub ships: Vec<DbShip>,
    pub transactions: Vec<DbTransaction>,
}

/// The name under which an assignment is stored.
pub open spec fn assignment_name(assignment: ShipAssignment) -> Seq<char> {
    match assignment {
        ShipAssignment::Scout => "scout"@,
        ShipAssignment::Trader => "trader"@,
        ShipAssignment::SystemChange => "system_change"@,
    }
}

/// Two rows tell of the same ship of the same account.
pub open spec fn same_ship_row(a: DbShip, b: DbShip) -> bool {
    a.user_id@ == b.user_id@ && a.ship_id@ == b.ship_id@
}

/// The store holds a row for the ship that `row` tells of.
pub open spec fn has_ship_row(rows: Seq<DbShip>, row: DbShip) -> bool {
    exists|i: int| 0 <= i < rows.len() && same_ship_row(#[trigger] rows[i], row)
}

/// The position of the first row for the ship that `row` tells of.
pub open spec fn ship_row_index(rows: Seq<DbShip>, row: DbShip) -> int
    recommends
        has_ship_row(rows, row),
{
    choose|i: int|
        0 <= i < rows.len() && same_ship_row(#[trigger] rows[i], row) && forall|j: int|
            0 <= j < i ==> !same_ship_row(#[trigger] rows[j], row)
}

/// The ships after `row` was written: the row takes the place of the first
/// row that tells of the same ship, or joins the ships where there is none.
pub open spec fn upsert_ship(rows: Seq<DbShip>, row: DbShip) -> Seq<DbShip> {
    if has_ship_row(rows, row) {
        rows.update(ship_row_index(rows, row), row)
    } else {
        rows.push(row)
    }
}

/// The store knows an account of this name.
pub open spec fn has_user(rows: Seq<DbUser>, username: Seq<char>) -> bool {
    exists|i: int| 0 <= i < rows.len() && (#[trigger] rows[i]).username@ == username
}

/// The position of the first account of this name.
pub open spec fn user_index(rows: Seq<DbUser>, username: Seq<char>) -> int
    recommends
        has_user(rows, username),
{
    choose|i: int|
        0 <= i < rows.len() && (#[trigger] rows[i]).username@ == username && forall|j: int|
            0 <= j < i ==> (#[trigger] rows[j]).username@ != username
}

/// The snapshot under which a marketplace entry of a location is stored at
/// time `now`.
pub open spec fn snapshot_row(location: String, datum: MarketplaceData, now: Timestamp) -> DbMarketData {
    DbMarketData {
        location,
        good: datum.symbol,
        price_per_unit: datum.price_per_unit,
        purchase_price_per_unit: datum.purchase_price_per_unit,
        sell_price_per_unit: datum.sell_price_per_unit,
        volume_per_unit: datum.volume_per_unit,
        quantity_available: datum.quantity_available,
        created_at: now,
    }
}

/// The marketplace entry that a stored snapshot tells of.
pub open spec fn datum_of(row: DbMarketData) -> MarketplaceData {
    MarketplaceData {
        quantity_available: row.quantity_available,
        price_per_unit: row.price_per_unit,
        purchase_price_per_unit: row.purchase_price_per_unit,
        sell_price_per_unit: row.sell_price_per_unit,
        volume_per_unit: row.volume_per_unit,
        symbol: row.good,
    }
}

/// A snapshot comes back from the store with every field as it was stored.
pub proof fn lemma_snapshot_round_trip(location: String, datum: MarketplaceData, now: Timestamp)
    ensures
        datum_of(snapshot_row(location, datum, now)) == datum,
        snapshot_row(location, datum, now).location == location,
        snapshot_row(location, datum, now).created_at == now,
{
}

/// The store holds the row of this ship of this account.
pub open spec fn has_ship(rows: Seq<DbShip>, user_id: Seq<char>, ship_id: Seq<char>) -> bool {
    exists|i: int|
        0 <= i < rows.len() && (#[trigger] rows[i]).user_id@ == user_id && rows[i].ship_id@
            == ship_id
}

/// The position of the first row of this ship of this account.
pub open spec fn ship_index(rows: Seq<DbShip>, user_id: Seq<char>, ship_id: Seq<char>) -> int
    recommends
        has_ship(rows, user_id, ship_id),
{
    choose|i: int|
        0 <= i < rows.len() && (#[trigger] rows[i]).user_id@ == user_id && rows[i].ship_id@
            == ship_id && forall|j: int|
            0 <= j < i ==> !((#[trigger] rows[j]).user_id@ == user_id && rows[j].ship_id@
                == ship_id)
}

impl Store {
    /// A store without rows.
    pub fn new() -> (store: Store)
        ensures
            store.users@.len() == 0,
            store.system_info@.len() == 0,
            store.flight_plans@.len() == 0,
            store.market_data@.len() == 0,
            store.user_stats@.len() == 0,
            store.ships@.len() == 0,
            store.transactions@.len() == 0,
    {
        Store {
            users: Vec::new(),
            system_info: Vec::new(),
            flight_plans: Vec::new(),
            market_data: Vec::new(),
            user_stats: Vec::new(),
            ships: Vec::new(),
            transactions: Vec::new(),
        }
    }

    /// Appends a flight plan of a ship.
    pub fn persist_flight_plan(
        &mut self,
        user_id: &String,
        ship_id: &String,
        flight_plan: &FlightPlan,
        now: Timestamp,
    )
        ensures
            final(self).flight_plans@ == old(self).flight_plans@.push(
                flight_plan_row(*user_id, *ship_id, flight_plan.flight_plan, now),
            ),
            *final(self) == (Store { flight_plans: final(self).flight_plans, ..*old(self) }),
    {
        let plan = &flight_plan.flight_plan;
        self.flight_plans.push(
            DbFlightPlan {
                id: plan.id.clone(),
                user_id: user_id.clone(),
                ship_id: ship_id.clone(),
                origin: plan.departure.clone(),
                destination: plan.destination.clone(),
                distance: plan.distance,
                fuel_consumed: plan.fuel_consumed,
                fuel_remaining: plan.fuel_remaining,
                time_remaining_in_seconds: plan.time_remaining_in_seconds,
                arrives_at: plan.arrives_at,
                created_at: now,
            },
        );
    }

    /// Looks up the plan on which the ship is under way at time `now`: the
    /// first stored plan of the ship that has not arrived yet.
    pub fn get_active_flight_plan(&self, ship_id: &String, now: Timestamp) -> (plan: Option<
        FlightPlanData,
    >)
        ensures
            plan is Some == has_active_plan(self.flight_plans@, ship_id@, now),
            plan matches Some(found) ==> found == flight_plan_of(
                self.flight_plans@[active_plan_index(self.flight_plans@, ship_id@, now)],
            ),
    {
        let mut i: usize = 0;
        while i < self.flight_plans.len()
            invariant
                i <= self.flight_plans.len(),
                forall|j: int|
                    0 <= j < i ==> !is_active(#[trigger] self.flight_plans@[j], ship_id@, now),
            decreases self.flight_plans.len() - i,
        {
            let row = &self.flight_plans[i];
            if same_text(&row.ship_id, ship_id) && row.arrives_at > now {
                proof {
                    let plans = self.flight_plans@;
                    let w = active_plan_index(plans, ship_id@, now);
                    assert(0 <= i < plans.len() && is_active(plans[i as int], ship_id@, now)
                        && forall|j: int|
                        0 <= j < i ==> !is_active(#[trigger] plans[j], ship_id@, now));
                    assert(w == i as int) by {
                        if w < i {
                            assert(!is_active(plans[w], ship_id@, now));
                        }
                        if i < w {
                            assert(!is_active(plans[i as int], ship_id@, now));
                        }
                    }
                }
                return Some(
                    FlightPlanData {
                        id: row.id.clone(),
                        ship_id: row.ship_id.clone(),
                        fuel_consumed: row.fuel_consumed,
                        fuel_remaining: row.fuel_remaining,
                        time_remaining_in_seconds: row.time_remaining_in_seconds,
                        created_at: row.created_at,
                        arrives_at: row.arrives_at,
                        terminated_at: None,
                        destination: row.destination.clone(),
                        departure: row.origin.clone(),
                        distance: row.distance,
                    },
                );
            }
            i = i + 1;
        }
        None
    }
}

impl Store {
    /// Looks up the account of a name.
    pub fn get_user(&self, username: &String) -> (user: Option<DbUser>)
        ensures
            user is Some == has_user(self.users@, username@),
            user matches Some(found) ==> found == self.users@[user_index(
                self.users@,
                username@,
            )],
    {
        let mut i: usize = 0;
        while i < self.users.len()
            invariant
                i <= self.users.len(),
                forall|j: int| 0 <= j < i ==> (#[trigger] self.users@[j]).username@ != username@,
            decreases self.users.len() - i,
        {
            if same_text(&self.users[i].username, username) {
                proof {
                    let rows = self.users@;
                    let w = user_index(rows, username@);
                    assert(0 <= i < rows.len() && rows[i as int].username@ == username@
                        && forall|j: int|
                        0 <= j < i ==> (#[trigger] rows[j]).username@ != username@);
                    assert(w == i as int) by {
                        if w < i {
                            assert(rows[w].username@ != username@);
                        }
                        if i < w {
                            assert(rows[i as int].username@ != username@);
                        }
                    }
                }
                return Some(self.users[i].replica());
            }
            i = i + 1;
        }
        None
    }

    /// Stores a new account under the given id and hands its row back.
    pub fn persist_user(
        &mut self,
        id: String,
        username: String,
        token: String,
        new_ship_assignment: ShipAssignment,
        new_ship_system: &String,
    ) -> (user: DbUser)
        ensures
            user.id == id,
            user.username == username,
            user.token == token,
            user.new_ship_assignment@ == assignment_name(new_ship_assignment),
            user.new_ship_system == *new_ship_system,
            final(self).users@ == old(self).users@.push(user),
            *final(self) == (Store { users: final(self).users, ..*old(self) }),
    {
        let assignment = match new_ship_assignment {
            ShipAssignment::Scout => String::from_str("scout"),
            ShipAssignment::Trader => String::from_str("trader"),
            ShipAssignment::SystemChange => String::from_str("system_change"),
        };
        let row = DbUser {
            id,
            username,
            token,
            new_ship_assignment: assignment,
            new_ship_system: new_ship_system.clone(),
        };
        let user = row.replica();
        self.users.push(row);
        user
    }

    /// Writes a location of a system into the map: the row takes the place
    /// of the row that tells of the same location, or joins the map.
    pub fn persist_system_location(&mut self, row: DbSystemLocation)
        ensures
            final(self).system_info@ == upsert_place(old(self).system_info@, row),
            *final(self) == (Store { system_info: final(self).system_info, ..*old(self) }),
    {
        let mut i: usize = 0;
        while i < self.system_info.len()
            invariant
                i <= self.system_info.len(),
                *self == *old(self),
                forall|j: int| 0 <= j < i ==> !same_place(#[trigger] self.system_info@[j], row),
            decreases self.system_info.len() - i,
        {
            let found = same_text(&self.system_info[i].system, &row.system) && same_text(
                &self.system_info[i].location,
                &row.location,
            );
            if found {
                proof {
                    let rows = self.system_info@;
                    let w = place_index(rows, row);
                    assert(0 <= i < rows.len() && same_place(rows[i as int], row) && forall|j: int|
                        0 <= j < i ==> !same_place(#[trigger] rows[j], row));
                    assert(w == i as int) by {
                        if w < i {
                            assert(!same_place(rows[w], row));
                        }
                        if i < w {
                            assert(!same_place(rows[i as int], row));
                        }
                    }
                }
                self.system_info.set(i, row);
                return ;
            }
            i = i + 1;
        }
        self.system_info.push(row);
    }

    /// Looks up the row that tells of a location.
    pub fn get_system_location(&self, location: &String) -> (row: Option<DbSystemLocation>)
        ensures
            row is Some == has_info(self.system_info@, location@),
            row matches Some(found) ==> found == self.system_info@[info_index(
                self.system_info@,
                location@,
            )],
    {
        match find_info(&self.system_info, location) {
            Some(at) => Some(self.system_info[at].replica()),
            None => None,
        }
    }

    /// Appends one market snapshot of a location.
    pub fn persist_market_data(&mut self, location: &String, datum: &MarketplaceData, now: Timestamp)
        ensures
            final(self).market_data@ == old(self).market_data@.push(
                snapshot_row(*location, *datum, now),
            ),
            *final(self) == (Store { market_data: final(self).market_data, ..*old(self) }),
    {
        self.market_data.push(
            DbMarketData {
                location: location.clone(),
                good: datum.symbol,
                price_per_unit: datum.price_per_unit,
                purchase_price_per_unit: datum.purchase_price_per_unit,
                sell_price_per_unit: datum.sell_price_per_unit,
                volume_per_unit: datum.volume_per_unit,
                quantity_available: datum.quantity_available,
                created_at: now,
            },
        );
    }

    /// Computes the ranked trade routes out of a location for a ship of the
    /// given speed, from the snapshots and the map in the store.
    pub fn get_routes_from_location(&self, location: &String, ship_speed: i32, now: Timestamp) -> (ranking:
        Vec<DbRoute>)
        ensures
            ranking@ == routes_from(self.market_data@, self.system_info@, location@, ship_speed, now),
    {
        get_routes_from_location(&self.market_data, &self.system_info, location, ship_speed, now)
    }

    /// Appends an entry to an account's credits over time.
    pub fn persist_user_stats(&mut self, user_id: &String, credits: i32, ship_count: i32, now: Timestamp)
        ensures
            final(self).user_stats@ == old(self).user_stats@.push(
                DbUserStats { user_id: *user_id, credits, ship_count, created_at: now },
            ),
            *final(self) == (Store { user_stats: final(self).user_stats, ..*old(self) }),
    {
        self.user_stats.push(
            DbUserStats { user_id: user_id.clone(), credits, ship_count, created_at: now },
        );
    }

    /// Writes a ship of an account: the row takes the place of the row that
    /// tells of the same ship, or joins the ships.
    pub fn persist_ship(&mut self, row: DbShip)
        ensures
            final(self).ships@ == upsert_ship(old(self).ships@, row),
            *final(self) == (Store { ships: final(self).ships, ..*old(self) }),
    {
        let mut i: usize = 0;
        while i < self.ships.len()
            invariant
                i <= self.ships.len(),
                *self == *old(self),
                forall|j: int| 0 <= j < i ==> !same_ship_row(#[trigger] self.ships@[j], row),
            decreases self.ships.len() - i,
        {
            let found = same_text(&self.ships[i].user_id, &row.user_id) && same_text(
                &self.ships[i].ship_id,
                &row.ship_id,
            );
            if found {
                proof {
                    let rows = self.ships@;
                    let w = ship_row_index(rows, row);
                    assert(0 <= i < rows.len() && same_ship_row(rows[i as int], row) && forall|
                        j: int,
                    |
                        0 <= j < i ==> !same_ship_row(#[trigger] rows[j], row));
                    assert(w == i as int) by {
                        if w < i {
                            assert(!same_ship_row(rows[w], row));
                        }
                        if i < w {
                            assert(!same_ship_row(rows[i as int], row));
                        }
                    }
                }
                self.ships.set(i, row);
                return ;
            }
            i = i + 1;
        }
        self.ships.push(row);
    }
}

impl Store {
    /// Looks up the stored row of a ship of an account.
    pub fn get_ship(&self, user_id: &String, ship_id: &String) -> (row: Option<DbShip>)
        ensures
            row is Some == has_ship(self.ships@, user_id@, ship_id@),
            row matches Some(found) ==> found == self.ships@[ship_index(
                self.ships@,
                user_id@,
                ship_id@,
            )],
    {
        let mut i: usize = 0;
        while i < self.ships.len()
            invariant
                i <= self.ships.len(),
                forall|j: int|
                    0 <= j < i ==> !((#[trigger] self.ships@[j]).user_id@ == user_id@
                        && self.ships@[j].ship_id@ == ship_id@),
            decreases self.ships.len() - i,
        {
            if same_text(&self.ships[i].user_id, user_id) && same_text(
                &self.ships[i].ship_id,
                ship_id,
            ) {
                proof {
                    let rows = self.ships@;
                    let w = ship_index(rows, user_id@, ship_id@);
                    assert(0 <= i < rows.len() && rows[i as int].user_id@ == user_id@
                        && rows[i as int].ship_id@ == ship_id@ && forall|j: int|
                        0 <= j < i ==> !((#[trigger] rows[j]).user_id@ == user_id@
                            && rows[j].ship_id@ == ship_id@));
                    assert(w == i as int) by {
                        if w < i {
                            assert(!(rows[w].user_id@ == user_id@ && rows[w].ship_id@ == ship_id@));
                        }
                        if i < w {
                            assert(!(rows[i as int].user_id@ == user_id@ && rows[i as int].ship_id@
                                == ship_id@));
                        }
                    }
                }
                return Some(self.ships[i].replica());
            }
            i = i + 1;
        }
        None
    }

    /// Lists the locations that lie in the same system as `location`.
    pub fn get_system_locations_from_location(&self, location: &String) -> (locations: Vec<String>)
        ensures
            locations@.len() == system_locations_from(self.system_info@, location@).len(),
            forall|k: int|
                0 <= k < locations@.len() ==> (#[trigger] locations@[k])@ == system_locations_from(
                    self.system_info@,
                    location@,
                )[k],
    {
        let mut locations: Vec<String> = Vec::new();
        let system = match find_info(&self.system_info, location) {
            Some(at) => &self.system_info[at].system,
            None => {
                return locations;
            },
        };
        let mut i: usize = 0;
        while i < self.system_info.len()
            invariant
                i <= self.system_info.len(),
                locations@.len() == locations_of_system(
                    self.system_info@.take(i as int),
                    system@,
                ).len(),
                forall|k: int|
                    0 <= k < locations@.len() ==> (#[trigger] locations@[k])@
                        == locations_of_system(self.system_info@.take(i as int), system@)[k],
            decreases self.system_info.len() - i,
        {
            proof {
                assert(self.system_info@.take(i as int + 1).drop_last() =~= self.system_info@.take(
                    i as int,
                ));
                assert(self.system_info@.take(i as int + 1).last() == self.system_info@[i as int]);
            }
            if same_text(&self.system_info[i].system, system) {
                locations.push(self.system_info[i].location.clone());
            }
            i = i + 1;
        }
        proof {
            assert(self.system_info@.take(i as int) =~= self.system_info@);
        }
        locations
    }

    /// Appends a purchase or a sale. The place of the transaction is the
    /// ship's location, `UNKNOWN` where the ship reports none.
    pub fn persist_transaction(
        &mut self,
        kind: TransactionKind,
        user_id: &String,
        order: &PurchaseOrder,
        now: Timestamp,
    )
        ensures
            final(self).transactions@.len() == old(self).transactions@.len() + 1,
            final(self).transactions@.drop_last() == old(self).transactions@,
            ({
                let row = final(self).transactions@.last();
                &&& row.user_id == *user_id
                &&& row.ship_id == order.ship.id
                &&& row.kind == kind
                &&& row.good == order.order.good
                &&& row.price_per_unit == order.order.price_per_unit
                &&& row.quantity == order.order.quantity
                &&& row.total == order.order.total
                &&& row.location@ == match order.ship.location {
                    Some(place) => place@,
                    None => "UNKNOWN"@,
                }
                &&& row.created_at == now
            }),
            *final(self) == (Store { transactions: final(self).transactions, ..*old(self) }),
    {
        let location = match &order.ship.location {
            Some(place) => place.clone(),
            None => String::from_str("UNKNOWN"),
        };
        self.transactions.push(
            DbTransaction {
                user_id: user_id.clone(),
                ship_id: order.ship.id.clone(),
                kind,
                good: order.order.good,
                price_per_unit: order.order.price_per_unit,
                quantity: order.order.quantity,
                total: order.order.total,
                location,
                created_at: now,
            },
        );
        assert(self.transactions@.drop_last() =~= old(self).transactions@);
    }

    /// Looks up the fuel that a ship of the given type burned on an earlier
    /// flight from `origin` to `destination`: that of the first such flight
    /// in the store.
    pub fn get_fuel_required(&self, origin: &String, destination: &String, ship_type: &String) -> (fuel:
        Option<i32>)
        ensures
            fuel is Some == knows_fuel(
                self.flight_plans@,
                self.ships@,
                origin@,
                destination@,
                ship_type@,
            ),
            fuel matches Some(burned) ==> burned == self.flight_plans@[fuel_index(
                self.flight_plans@,
                self.ships@,
                origin@,
                destination@,
                ship_type@,
            )].fuel_consumed,
    {
        let mut i: usize = 0;
        while i < self.flight_plans.len()
            invariant
                i <= self.flight_plans.len(),
                forall|j: int|
                    0 <= j < i ==> !has_flown(
                        #[trigger] self.flight_plans@[j],
                        self.ships@,
                        origin@,
                        destination@,
                        ship_type@,
                    ),
            decreases self.flight_plans.len() - i,
        {
            let plan = &self.flight_plans[i];
            if same_text(&plan.origin, origin) && same_text(&plan.destination, destination)
                && check_type(&self.ships, &plan.ship_id, ship_type) {
                proof {
                    let plans = self.flight_plans@;
                    let ships = self.ships@;
                    let w = fuel_index(plans, ships, origin@, destination@, ship_type@);
                    assert(0 <= i < plans.len() && has_flown(
                        plans[i as int],
                        ships,
                        origin@,
                        destination@,
                        ship_type@,
                    ) && forall|j: int|
                        0 <= j < i ==> !has_flown(
                            #[trigger] plans[j],
                            ships,
                            origin@,
                            destination@,
                            ship_type@,
                        ));
                    assert(w == i as int) by {
                        if w < i {
                            assert(!has_flown(plans[w], ships, origin@, destination@, ship_type@));
                        }
                        if i < w {
                            assert(!has_flown(
                                plans[i as int],
                                ships,
                                origin@,
                                destination@,
                                ship_type@,
                            ));
                        }
                    }
                }
                return Some(plan.fuel_consumed);
            }
            i = i + 1;
        }
        None
    }

    /// Looks up the wormhole that leads from the system of `location` to
    /// `system`: the first location of that system whose type is that of a
    /// wormhole and whose symbol contains the symbol of `system`. There is
    /// none where the map does not hold `location`.
    pub fn get_wormhole_from_location_to_system(&self, location: &String, system: &String) -> (wormhole:
        Option<String>)
        ensures
            match wormhole {
                Some(symbol) => {
                    let home = self.system_info@[info_index(
                        self.system_info@,
                        location@,
                    )].system@;
                    &&& has_info(self.system_info@, location@)
                    &&& has_wormhole(self.system_info@, home, system@)
                    &&& symbol == self.system_info@[wormhole_index(
                        self.system_info@,
                        home,
                        system@,
                    )].location
                },
                None => !has_info(self.system_info@, location@) || !has_wormhole(
                    self.system_info@,
                    self.system_info@[info_index(
                        self.system_info@,
                        location@,
                    )].system@,
                    system@,
                ),
            },
    {
        let home = match find_info(&self.system_info, location) {
            Some(at) => &self.system_info[at].system,
            None => {
                return None;
            },
        };
        let wormhole_type = String::from_str("Wormhole");
        let mut i: usize = 0;
        while i < self.system_info.len()
            invariant
                i <= self.system_info.len(),
                wormhole_type@ == "Wormhole"@,
                has_info(self.system_info@, location@),
                *home == self.system_info@[info_index(
                    self.system_info@,
                    location@,
                )].system,
                forall|j: int|
                    0 <= j < i ==> !is_wormhole_to(
                        #[trigger] self.system_info@[j],
                        home@,
                        system@,
                    ),
            decreases self.system_info.len() - i,
        {
            let row = &self.system_info[i];
            if same_text(&row.system, home) && same_text(&row.location_type, &wormhole_type)
                && contains_text(row.location.as_str(), system.as_str()) {
                proof {
                    let rows = self.system_info@;
                    let w = wormhole_index(rows, home@, system@);
                    assert(0 <= i < rows.len() && is_wormhole_to(rows[i as int], home@, system@)
                        && forall|j: int|
                        0 <= j < i ==> !is_wormhole_to(#[trigger] rows[j], home@, system@));
                    assert(w == i as int) by {
                        if w < i {
                            assert(!is_wormhole_to(rows[w], home@, system@));
                        }
                        if i < w {
                            assert(!is_wormhole_to(rows[i as int], home@, system@));
                        }
                    }
                }
                return Some(row.location.clone());
            }
            i = i + 1;
        }
        None
    }
}

/// The map holds both locations, in one system.
pub open spec fn are_neighbours(rows: Seq<DbSystemLocation>, origin: Seq<char>, destination: Seq<char>) -> bool {
    &&& has_info(rows, origin)
    &&& has_info(rows, destination)
    &&& rows[info_index(rows, origin)].system@ == rows[info_index(rows, destination)].system@
}

impl Store {
    /// Looks up how far two locations lie apart; there is no answer where
    /// the map does not hold both of them in one system.
    pub fn get_distance_between_locations(&self, origin: &String, destination: &String) -> (found:
        Option<DbDistanceBetweenLocations>)
        ensures
            found is Some == are_neighbours(self.system_info@, origin@, destination@),
            found matches Some(distance) ==> {
                let from = self.system_info@[info_index(self.system_info@, origin@)];
                let to = self.system_info@[info_index(self.system_info@, destination@)];
                &&& distance.origin_location_type == from.location_type
                &&& distance.distance_squared as int == squared_gap(
                    from.x as int,
                    from.y as int,
                    to.x as int,
                    to.y as int,
                )
            },
    {
        let from = match find_info(&self.system_info, origin) {
            Some(at) => &self.system_info[at],
            None => {
                return None;
            },
        };
        let to = match find_info(&self.system_info, destination) {
            Some(at) => &self.system_info[at],
            None => {
                return None;
            },
        };
        if !same_text(&from.system, &to.system) {
            return None;
        }
        Some(
            DbDistanceBetweenLocations {
                origin_location_type: from.location_type.clone(),
                distance_squared: gap_squared(from.x, from.y, to.x, to.y),
            },
        )
    }
}

/// Where the store holds the ship at all, it holds it at a first position.
proof fn lemma_first_ship_row(rows: Seq<DbShip>, row: DbShip, from: int)
    requires
        0 <= from <= rows.len(),
        forall|j: int| 0 <= j < from ==> !same_ship_row(#[trigger] rows[j], row),
        exists|i: int| from <= i < rows.len() && same_ship_row(#[trigger] rows[i], row),
    ensures
        0 <= ship_row_index(rows, row) < rows.len(),
        same_ship_row(rows[ship_row_index(rows, row)], row),
        forall|j: int| 0 <= j < ship_row_index(rows, row) ==> !same_ship_row(#[trigger] rows[j], row),
    decreases rows.len() - from,
{
    if same_ship_row(rows[from], row) {
        assert(0 <= from < rows.len() && same_ship_row(rows[from], row) && forall|j: int|
            0 <= j < from ==> !same_ship_row(#[trigger] rows[j], row));
    } else {
        lemma_first_ship_row(rows, row, from + 1);
    }
}

/// Writing the same ship twice leaves the ships as writing it once.
pub proof fn lemma_upsert_ship_twice(rows: Seq<DbShip>, row: DbShip)
    ensures
        upsert_ship(upsert_ship(rows, row), row) == upsert_ship(rows, row),
{
    let once = upsert_ship(rows, row);
    let at = if has_ship_row(rows, row) {
        lemma_first_ship_row(rows, row, 0);
        ship_row_index(rows, row)
    } else {
        rows.len() as int
    };
    assert(once[at] == row);
    assert(same_ship_row(once[at], row));
    assert forall|j: int| 0 <= j < at implies !same_ship_row(#[trigger] once[j], row) by {
        assert(once[j] == rows[j]);
    }
    let again = ship_row_index(once, row);
    assert(again == at) by {
        if again < at {
            assert(!same_ship_row(once[again], row));
        }
        if at < again {
            assert(same_ship_row(once[at], row));
        }
    }
    assert(once.update(at, row) =~= once);
}

} // verus!
