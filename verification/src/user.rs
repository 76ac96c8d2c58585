//! One game account: its credits, its loans and the machines of its ships.

use crate::db::DbUser;
use crate::responses::{
    LoanInfo, PayLoanResponse, PurchaseShip, RequestLoan, ShipsForSale, UserInfo, YourShips,
};
use crate::shared::{Loan, PurchaseLocation, Ship, ShipForSale, Timestamp};
use crate::ship_machines::builder::ShipMachineBuilder;
use crate::ship_machines::system_change::fresh_trader;
use crate::ship_machines::{MachineType, ShipAssignment, ShipMachine};
use crate::text::same_text;
use vstd::prelude::*;

verus! {

/// One game account as the fleet keeps its books.
#[derive(Debug, Clone, PartialEq, Eq)]
pub struct User {
    pub username: String,
    pub token: String,
    pub id: String,
    pub new_ship_assignment: ShipAssignment,
    pub new_ship_system: String,
    pub new_ship_location: Option<String>,
    pub ship_machines: Vec<ShipMachine>,
    pub loans: Vec<Loan>,
    pub outstanding_loans: usize,
    pub credits: i32,
}

/// The loan has not been paid back.
pub open spec fn is_outstanding(loan: Loan) -> bool {
    loan.status@ != "PAID"@
}

/// The number of loans that have not been paid back.
pub open spec fn count_outstanding(loans: Seq<Loan>) -> nat
    decreases loans.len(),
{
    if loans.len() == 0 {
        0
    } else {
        count_outstanding(loans.drop_last()) + if is_outstanding(loans.last()) {
            1nat
        } else {
            0nat
        }
    }
}

/// Counts the loans that have not been paid back.
pub fn outstanding_loans(loans: &Vec<Loan>) -> (count: usize)
    ensures
        count as nat == count_outstanding(loans@),
        count <= loans.len(),
{
    let paid = String::from_str("PAID");
    let mut count: usize = 0;
    let mut i: usize = 0;
    while i < loans.len()
        invariant
            i <= loans.len(),
            count <= i,
            paid@ == "PAID"@,
            count as nat == count_outstanding(loans@.take(i as int)),
        decreases loans.len() - i,
    {
        proof {
            assert(loans@.take(i as int + 1).drop_last() =~= loans@.take(i as int));
            assert(loans@.take(i as int + 1).last() == loans@[i as int]);
        }
        if !same_text(&loans[i].status, &paid) {
            count = count + 1;
        }
        i = i + 1;
    }
    proof {
        assert(loans@.take(i as int) =~= loans@);
    }
    count
}

/// What ships are ranked by when one is bought.
#[derive(Debug, Clone, Copy, PartialEq, Eq, Structural)]
pub enum ShipRanking {
    /// The fastest ship wins.
    Speed,
    /// The ship with the largest hold wins.
    MaxCargo,
}

/// The ship to buy: its type, the place that sells it, and the price.
#[derive(Debug, Clone, PartialEq, Eq)]
pub struct ShipChoice {
    pub ship_type: String,
    pub location: String,
    pub price: i32,
}

/// The places at which the ships lie docked, in the order of the ships.
pub open spec fn docked_at(ships: Seq<Ship>) -> Seq<Seq<char>>
    decreases ships.len(),
{
    if ships.len() == 0 {
        Seq::<Seq<char>>::empty()
    } else {
        match ships.last().location {
            Some(place) => docked_at(ships.drop_last()).push(place@),
            None => docked_at(ships.drop_last()),
        }
    }
}

/// What a ship counts for under a ranking.
pub open spec fn ranking_key(ship: ShipForSale, ranking: ShipRanking) -> int {
    match ranking {
        ShipRanking::Speed => ship.speed as int,
        ShipRanking::MaxCargo => ship.max_cargo as int,
    }
}

/// The account may buy the ship at the place: the ship is free of
/// restrictions, the price is within the credits, and the place lies in the
/// account's system or one of the account's ships is docked there.
pub open spec fn may_buy(
    ship: ShipForSale,
    place: PurchaseLocation,
    credits: int,
    system: Seq<char>,
    docked: Seq<Seq<char>>,
) -> bool {
    &&& ship.restricted_goods is None
    &&& place.price <= credits
    &&& (place.system@ == system || docked.contains(place.location@))
}

/// The offer `(i, j)` — ship `i` of the catalogue at its place `j` — is one
/// the account may take, and the ship counts for something.
pub open spec fn is_offer(
    catalogue: Seq<ShipForSale>,
    ranking: ShipRanking,
    credits: int,
    system: Seq<char>,
    docked: Seq<Seq<char>>,
    i: int,
    j: int,
) -> bool {
    &&& 0 <= i < catalogue.len()
    &&& 0 <= j < catalogue[i].purchase_locations@.len()
    &&& ranking_key(catalogue[i], ranking) > 0
    &&& may_buy(catalogue[i], catalogue[i].purchase_locations@[j], credits, system, docked)
}

/// The offer `(i, j)` is the best: no offer counts for more, and none that
/// counts for as much comes before it in the catalogue.
pub open spec fn is_best_offer(
    catalogue: Seq<ShipForSale>,
    ranking: ShipRanking,
    credits: int,
    system: Seq<char>,
    docked: Seq<Seq<char>>,
    i: int,
    j: int,
) -> bool {
    &&& is_offer(catalogue, ranking, credits, system, docked, i, j)
    &&& forall|k: int, l: int| #[trigger]
        is_offer(catalogue, ranking, credits, system, docked, k, l) ==> {
            let mine = ranking_key(catalogue[i], ranking);
            let other = ranking_key(catalogue[k], ranking);
            other < mine || (other == mine && (i < k || (i == k && j <= l)))
        }
}

/// The account's ships are all under way, so that nothing can be bought.
pub open spec fn none_docked(ships: Seq<Ship>) -> bool {
    ships.len() > 0 && docked_at(ships).len() == 0
}

/// `choice` is the ship to buy: the best offer of the catalogue, and nothing
/// where there is no offer or all the account's ships are under way.
pub open spec fn select_ship_result(
    catalogue: Seq<ShipForSale>,
    ranking: ShipRanking,
    credits: int,
    system: Seq<char>,
    ships: Seq<Ship>,
    choice: Option<ShipChoice>,
) -> bool {
    match choice {
        Some(picked) => exists|i: int, j: int|
            {
                &&& #[trigger] is_best_offer(
                    catalogue,
                    ranking,
                    credits,
                    system,
                    docked_at(ships),
                    i,
                    j,
                )
                &&& picked.ship_type == catalogue[i].ship_type
                &&& picked.location == catalogue[i].purchase_locations@[j].location
                &&& picked.price == catalogue[i].purchase_locations@[j].price
                &&& !none_docked(ships)
            },
        None => none_docked(ships) || forall|i: int, j: int|
            !#[trigger] is_offer(catalogue, ranking, credits, system, docked_at(ships), i, j),
    }
}

/// Lists the places at which the ships lie docked.
pub fn docked_locations(ships: &Vec<Ship>) -> (docked: Vec<String>)
    ensures
        docked@.len() == docked_at(ships@).len(),
        forall|k: int| 0 <= k < docked@.len() ==> (#[trigger] docked@[k])@ == docked_at(ships@)[k],
{
    let mut docked: Vec<String> = Vec::new();
    let mut i: usize = 0;
    while i < ships.len()
        invariant
            i <= ships.len(),
            docked@.len() == docked_at(ships@.take(i as int)).len(),
            forall|k: int|
                0 <= k < docked@.len() ==> (#[trigger] docked@[k])@ == docked_at(
                    ships@.take(i as int),
                )[k],
        decreases ships.len() - i,
    {
        proof {
            assert(ships@.take(i as int + 1).drop_last() =~= ships@.take(i as int));
            assert(ships@.take(i as int + 1).last() == ships@[i as int]);
        }
        match &ships[i].location {
            Some(place) => {
                docked.push(place.clone());
            },
            None => {},
        }
        i = i + 1;
    }
    proof {
        assert(ships@.take(i as int) =~= ships@);
    }
    docked
}

/// Decides whether a place is among the listed ones.
pub fn is_listed(places: &Vec<String>, place: &String) -> (listed: bool)
    ensures
        listed == exists|k: int| 0 <= k < places@.len() && (#[trigger] places@[k])@ == place@,
{
    let mut i: usize = 0;
    while i < places.len()
        invariant
            i <= places.len(),
            forall|k: int| 0 <= k < i ==> (#[trigger] places@[k])@ != place@,
        decreases places.len() - i,
    {
        if same_text(&places[i], place) {
            return true;
        }
        i = i + 1;
    }
    false
}

/// Picks the ship to buy from the catalogue: the offer that counts for most
/// under the ranking among those the account may take, the first of them
/// where several count alike. Nothing is picked while the account has ships
/// and none of them is docked.
pub fn select_ship(
    catalogue: &Vec<ShipForSale>,
    ranking: ShipRanking,
    credits: i32,
    system: &String,
    ships: &Vec<Ship>,
) -> (choice: Option<ShipChoice>)
    ensures
        select_ship_result(
            catalogue@,
            ranking,
            credits as int,
            system@,
            ships@,
            choice,
        ),
{
    let docked = docked_locations(ships);
    if ships.len() > 0 && docked.len() == 0 {
        return None;
    }
    let ghost places = docked_at(ships@);
    proof {
        assert forall|text: Seq<char>| places.contains(text) == (exists|k: int|
            0 <= k < docked@.len() && (#[trigger] docked@[k])@ == text) by {
            if places.contains(text) {
                let k = choose|k: int| 0 <= k < places.len() && places[k] == text;
                assert(docked@[k]@ == text);
            }
            if exists|k: int| 0 <= k < docked@.len() && (#[trigger] docked@[k])@ == text {
                let k = choose|k: int| 0 <= k < docked@.len() && (#[trigger] docked@[k])@ == text;
                assert(places[k] == text);
            }
        }
    }
    let mut best: Option<(usize, usize)> = None;
    let mut best_key: i32 = 0;
    let mut i: usize = 0;
    while i < catalogue.len()
        invariant
            i <= catalogue.len(),
            places == docked_at(ships@),
            forall|text: Seq<char>|
                places.contains(text) == (exists|k: int|
                    0 <= k < docked@.len() && (#[trigger] docked@[k])@ == text),
            select_progress(
                catalogue@,
                ranking,
                credits as int,
                system@,
                places,
                i as int,
                0,
                best,
                best_key,
            ),
        decreases catalogue.len() - i,
    {
        let ship = &catalogue[i];
        let key: i32 = match ranking {
            ShipRanking::Speed => ship.speed,
            ShipRanking::MaxCargo => ship.max_cargo,
        };
        let mut j: usize = 0;
        while j < ship.purchase_locations.len()
            invariant
                i < catalogue.len(),
                *ship == catalogue@[i as int],
                key as int == ranking_key(*ship, ranking),
                j <= ship.purchase_locations.len(),
                places == docked_at(ships@),
                forall|text: Seq<char>|
                    places.contains(text) == (exists|k: int|
                        0 <= k < docked@.len() && (#[trigger] docked@[k])@ == text),
                select_progress(
                    catalogue@,
                    ranking,
                    credits as int,
                    system@,
                    places,
                    i as int,
                    j as int,
                    best,
                    best_key,
                ),
            decreases ship.purchase_locations.len() - j,
        {
            let place = &ship.purchase_locations[j];
            let allowed = ship.restricted_goods.is_none() && place.price <= credits && (same_text(
                &place.system,
                system,
            ) || is_listed(&docked, &place.location));
            assert(allowed == may_buy(*ship, *place, credits as int, system@, places));
            if key > best_key && allowed {
                best_key = key;
                best = Some((i, j));
            }
            j = j + 1;
        }
        i = i + 1;
    }
    match best {
        Some((at, place)) => {
            let ship = &catalogue[at];
            let offer = &ship.purchase_locations[place];
            proof {
                assert forall|k: int, l: int| #[trigger]
                    is_offer(catalogue@, ranking, credits as int, system@, places, k, l) implies ({
                    let mine = ranking_key(catalogue@[at as int], ranking);
                    let other = ranking_key(catalogue@[k], ranking);
                    other < mine || (other == mine && (at < k || (at == k && place <= l)))
                }) by {
                    assert(walked(k, l, i as int, 0));
                }
                assert(is_best_offer(
                    catalogue@,
                    ranking,
                    credits as int,
                    system@,
                    places,
                    at as int,
                    place as int,
                ));
            }
            Some(
                ShipChoice {
                    ship_type: ship.ship_type.clone(),
                    location: offer.location.clone(),
                    price: offer.price,
                },
            )
        },
        None => {
            proof {
                assert forall|k: int, l: int|
                    !#[trigger] is_offer(
                        catalogue@,
                        ranking,
                        credits as int,
                        system@,
                        places,
                        k,
                        l,
                    ) by {
                    if 0 <= k < catalogue@.len() {
                        assert(walked(k, l, i as int, 0));
                    }
                }
            }
            None
        },
    }
}

/// The offer `(k, l)` comes before the position `(i, j)` of the walk through
/// the catalogue.
pub open spec fn walked(k: int, l: int, i: int, j: int) -> bool {
    k < i || (k == i && l < j)
}

/// What the walk through the catalogue knows when it stands at `(i, j)`: the
/// best of the offers it has passed, if it has passed any.
pub open spec fn select_progress(
    catalogue: Seq<ShipForSale>,
    ranking: ShipRanking,
    credits: int,
    system: Seq<char>,
    docked: Seq<Seq<char>>,
    i: int,
    j: int,
    best: Option<(usize, usize)>,
    best_key: i32,
) -> bool {
    match best {
        None => {
            &&& best_key == 0
            &&& forall|k: int, l: int|
                walked(k, l, i, j) ==> !#[trigger] is_offer(
                    catalogue,
                    ranking,
                    credits,
                    system,
                    docked,
                    k,
                    l,
                )
        },
        Some((bi, bj)) => {
            &&& walked(bi as int, bj as int, i, j)
            &&& is_offer(catalogue, ranking, credits, system, docked, bi as int, bj as int)
            &&& best_key as int == ranking_key(catalogue[bi as int], ranking)
            &&& forall|k: int, l: int|
                walked(k, l, i, j) && #[trigger] is_offer(
                    catalogue,
                    ranking,
                    credits,
                    system,
                    docked,
                    k,
                    l,
                ) ==> {
                    let other = ranking_key(catalogue[k], ranking);
                    other < best_key || (other == best_key && (bi < k || (bi == k && bj <= l)))
                }
        },
    }
}

/// The machine is the one that the account sets up for the ship under the
/// assignment at time `now`.
pub open spec fn drives(
    machine: ShipMachine,
    user: User,
    ship: Ship,
    assignment: ShipAssignment,
    now: Timestamp,
) -> bool {
    &&& machine.user_id == user.id
    &&& machine.username == user.username
    &&& machine.ship_id == ship.id
    &&& machine.system == user.new_ship_system
    &&& machine.location@ == match user.new_ship_location {
        Some(location) => location@,
        None => Seq::<char>::empty(),
    }
    &&& match assignment {
        ShipAssignment::Trader => machine.machine matches MachineType::Trader(m) && fresh_trader(
            m,
            user.id,
            user.username,
            user.new_ship_system,
            ship,
            now,
        ),
        ShipAssignment::Scout => machine.machine matches MachineType::Scout(m)
            && user.new_ship_location is Some && m.fresh(
            user.id,
            user.username,
            user.new_ship_system,
            user.new_ship_location->0,
            ship,
            now,
        ),
        ShipAssignment::SystemChange => machine.machine matches MachineType::SystemChange(m)
            && m.fresh(user.id, user.username, user.new_ship_system, ship, now),
    }
}

impl User {
    /// The account's books are in order: the count of outstanding loans is
    /// the number of its loans that are not paid, and a scout account names
    /// the location its ships are to watch.
    pub open spec fn wf(self) -> bool {
        &&& self.outstanding_loans as nat == count_outstanding(self.loans@)
        &&& (self.new_ship_assignment == ShipAssignment::Scout ==> self.new_ship_location is Some)
    }

    /// Checks that the account's books are in order.
    pub fn is_wf(&self) -> (ok: bool)
        ensures
            ok == self.wf(),
    {
        let counted = outstanding_loans(&self.loans);
        let located = match self.new_ship_assignment {
            ShipAssignment::Scout => self.new_ship_location.is_some(),
            _ => true,
        };
        self.outstanding_loans == counted && located
    }

    /// Sets the account up from what the store holds of it and what the
    /// server reports: the credits, the loans, and one machine per ship.
    pub fn new(
        account: DbUser,
        info: UserInfo,
        ships: &YourShips,
        loans: LoanInfo,
        new_ship_assignment: ShipAssignment,
        new_ship_system: String,
        new_ship_location: Option<String>,
        now: Timestamp,
    ) -> (user: User)
        requires
            new_ship_assignment == ShipAssignment::Scout ==> new_ship_location is Some,
        ensures
            user.wf(),
            user.username == account.username,
            user.token == account.token,
            user.id == account.id,
            user.new_ship_assignment == new_ship_assignment,
            user.new_ship_system == new_ship_system,
            user.new_ship_location == new_ship_location,
            user.loans == loans.loans,
            user.credits == info.user.credits,
            user.ship_machines@.len() == ships.ships@.len(),
            forall|i: int|
                0 <= i < ships.ships@.len() ==> drives(
                    #[trigger] user.ship_machines@[i],
                    user,
                    ships.ships@[i],
                    new_ship_assignment,
                    now,
                ),
    {
        let outstanding = outstanding_loans(&loans.loans);
        let mut user = User {
            username: account.username,
            token: account.token,
            id: account.id,
            new_ship_assignment,
            new_ship_system,
            new_ship_location,
            ship_machines: Vec::new(),
            loans: loans.loans,
            outstanding_loans: outstanding,
            credits: info.user.credits,
        };
        user.add_ship_machines_from_user_info(ships, new_ship_assignment, now);
        user
    }

    /// Replaces the account's machines by one machine per ship of the list.
    pub fn add_ship_machines_from_user_info(
        &mut self,
        ships: &YourShips,
        assignment: ShipAssignment,
        now: Timestamp,
    )
        requires
            assignment == ShipAssignment::Scout ==> old(self).new_ship_location is Some,
        ensures
            *final(self) == (User { ship_machines: final(self).ship_machines, ..*old(self) }),
            final(self).ship_machines@.len() == ships.ships@.len(),
            forall|i: int|
                0 <= i < ships.ships@.len() ==> drives(
                    #[trigger] final(self).ship_machines@[i],
                    *final(self),
                    ships.ships@[i],
                    assignment,
                    now,
                ),
    {
        let mut machines: Vec<ShipMachine> = Vec::new();
        let mut i: usize = 0;
        while i < ships.ships.len()
            invariant
                i <= ships.ships.len(),
                *self == *old(self),
                assignment == ShipAssignment::Scout ==> self.new_ship_location is Some,
                machines@.len() == i,
                forall|k: int|
                    0 <= k < i ==> drives(
                        #[trigger] machines@[k],
                        *self,
                        ships.ships@[k],
                        assignment,
                        now,
                    ),
            decreases ships.ships.len() - i,
        {
            let machine = self.ship_to_machine(&ships.ships[i], assignment, now);
            machines.push(machine);
            i = i + 1;
        }
        self.ship_machines = machines;
    }

    /// Sets up the machine that drives one ship of the account.
    pub fn ship_to_machine(&self, ship: &Ship, assignment: ShipAssignment, now: Timestamp) -> (machine:
        ShipMachine)
        requires
            assignment == ShipAssignment::Scout ==> self.new_ship_location is Some,
        ensures
            drives(machine, *self, *ship, assignment, now),
    {
        let mut builder = ShipMachineBuilder::new();
        builder.user_id(self.id.clone()).username(self.username.clone()).system(
            self.new_ship_system.clone(),
        ).assignment(assignment).ship(ship.replica());
        match &self.new_ship_location {
            Some(location) => {
                builder.location(location.clone());
            },
            None => {},
        }
        builder.build(now)
    }

    /// Books a loan that the server has granted: the loan joins the
    /// account's loans and the credits are what the server reports.
    pub fn request_new_loan(&mut self, granted: RequestLoan)
        requires
            old(self).wf(),
        ensures
            final(self).wf(),
            final(self).credits == granted.credits,
            final(self).loans@ == old(self).loans@.push(granted.loan),
            *final(self) == (User {
                credits: granted.credits,
                loans: final(self).loans,
                outstanding_loans: final(self).outstanding_loans,
                ..*old(self)
            }),
    {
        self.credits = granted.credits;
        self.loans.push(granted.loan);
        self.outstanding_loans = outstanding_loans(&self.loans);
    }

    /// Books a loan payment: the loans and the credits are what the server
    /// reports.
    pub fn pay_off_loan(&mut self, paid: PayLoanResponse)
        requires
            old(self).wf(),
        ensures
            final(self).wf(),
            *final(self) == (User {
                credits: paid.credits,
                loans: paid.loans,
                outstanding_loans: final(self).outstanding_loans,
                ..*old(self)
            }),
    {
        self.outstanding_loans = outstanding_loans(&paid.loans);
        self.loans = paid.loans;
        self.credits = paid.credits;
    }

    /// Books a ship that was bought: a machine for it joins the account's
    /// machines and the credits are what the server reports.
    pub fn purchase_ship(&mut self, bought: &PurchaseShip, now: Timestamp)
        requires
            old(self).wf(),
        ensures
            final(self).wf(),
            final(self).credits == bought.credits,
            final(self).ship_machines@.len() == old(self).ship_machines@.len() + 1,
            final(self).ship_machines@.drop_last() == old(self).ship_machines@,
            drives(
                final(self).ship_machines@.last(),
                *old(self),
                bought.ship,
                old(self).new_ship_assignment,
                now,
            ),
            *final(self) == (User {
                credits: bought.credits,
                ship_machines: final(self).ship_machines,
                ..*old(self)
            }),
    {
        let machine = self.ship_to_machine(&bought.ship, self.new_ship_assignment, now);
        self.credits = bought.credits;
        self.ship_machines.push(machine);
        assert(self.ship_machines@.drop_last() =~= old(self).ship_machines@);
    }

    /// Picks the fastest ship the account may buy.
    pub fn purchase_fastest_ship(&self, available: &ShipsForSale, ships: &YourShips) -> (choice:
        Option<ShipChoice>)
        ensures
            select_ship_result(
                available.ships@,
                ShipRanking::Speed,
                self.credits as int,
                self.new_ship_system@,
                ships.ships@,
                choice,
            ),
    {
        select_ship(
            &available.ships,
            ShipRanking::Speed,
            self.credits,
            &self.new_ship_system,
            &ships.ships,
        )
    }

    /// Picks the ship with the largest hold that the account may buy.
    pub fn purchase_largest_ship(&self, available: &ShipsForSale, ships: &YourShips) -> (choice:
        Option<ShipChoice>)
        ensures
            select_ship_result(
                available.ships@,
                ShipRanking::MaxCargo,
                self.credits as int,
                self.new_ship_system@,
                ships.ships@,
                choice,
            ),
    {
        select_ship(
            &available.ships,
            ShipRanking::MaxCargo,
            self.credits,
            &self.new_ship_system,
            &ships.ships,
        )
    }
}

/// A catalogue has one best offer at most, so that the ship to buy is
/// settled by the catalogue, the credits and the places alone.
pub proof fn lemma_best_offer_is_unique(
    catalogue: Seq<ShipForSale>,
    ranking: ShipRanking,
    credits: int,
    system: Seq<char>,
    docked: Seq<Seq<char>>,
    i: int,
    j: int,
    k: int,
    l: int,
)
    requires
        is_best_offer(catalogue, ranking, credits, system, docked, i, j),
        is_best_offer(catalogue, ranking, credits, system, docked, k, l),
    ensures
        i == k,
        j == l,
{
    assert(is_offer(catalogue, ranking, credits, system, docked, i, j));
    assert(is_offer(catalogue, ranking, credits, system, docked, k, l));
}

} // verus!
