//! The route engine: which trades the latest market snapshots offer out of
//! a location, ranked by score.

pub mod distance;
pub mod ranking;
pub mod score;

use crate::db::{DbMarketData, DbRoute, DbSystemLocation};
use crate::routes::distance::{fuel_required, gap_squared, spec_fuel_required, squared_gap};
use crate::routes::ranking::{
    all_defined, insert_route, lemma_rank_descends, lemma_rank_member, lemma_rank_push, rank,
};
use crate::routes::score::spec_score_exceeds;
use crate::shared::{Good, Timestamp};
use crate::text::same_text;
use vstd::prelude::*;

verus! {

/// For how long a market snapshot counts: thirty minutes, in milliseconds.
pub const SNAPSHOT_MAX_AGE: i64 = 1_800_000;

/// Two snapshots tell of the same good at the same location.
pub open spec fn same_offer(a: DbMarketData, b: DbMarketData) -> bool {
    a.location@ == b.location@ && a.good == b.good
}

/// The snapshot at position `i` is the latest of its good at its location:
/// none is younger, and of those taken at the same time none was stored
/// later.
#[verifier::opaque]
pub open spec fn is_latest(market: Seq<DbMarketData>, i: int) -> bool {
    forall|j: int|
        0 <= j < market.len() && same_offer(#[trigger] market[j], market[i]) ==> {
            ||| market[j].created_at < market[i].created_at
            ||| market[j].created_at == market[i].created_at && j <= i
        }
}

/// The snapshot at position `i` counts at time `now`: it is the latest of its
/// good at its location and no older than thirty minutes.
pub open spec fn is_current(market: Seq<DbMarketData>, i: int, now: Timestamp) -> bool {
    is_latest(market, i) && market[i].created_at >= now - SNAPSHOT_MAX_AGE
}

/// Decides whether the snapshot at position `i` counts at time `now`.
pub fn check_current(market: &Vec<DbMarketData>, i: usize, now: Timestamp) -> (current: bool)
    requires
        i < market.len(),
    ensures
        current == is_current(market@, i as int, now),
{
    let row = &market[i];
    if (row.created_at as i128) < now as i128 - SNAPSHOT_MAX_AGE as i128 {
        return false;
    }
    let mut j: usize = 0;
    while j < market.len()
        invariant
            j <= market.len(),
            i < market.len(),
            *row == market@[i as int],
            forall|k: int|
                0 <= k < j && same_offer(#[trigger] market@[k], market@[i as int]) ==> {
                    ||| market@[k].created_at < market@[i as int].created_at
                    ||| market@[k].created_at == market@[i as int].created_at && k <= i
                },
        decreases market.len() - j,
    {
        let other = &market[j];
        if same_text(&other.location, &row.location) && other.good == row.good {
            if other.created_at > row.created_at || (other.created_at == row.created_at && j > i) {
                proof {
                    reveal(is_latest);
                    assert(same_offer(market@[j as int], market@[i as int]));
                }
                return false;
            }
        }
        j = j + 1;
    }
    proof {
        reveal(is_latest);
    }
    true
}

/// The store knows the location.
pub open spec fn has_info(info: Seq<DbSystemLocation>, location: Seq<char>) -> bool {
    exists|i: int| 0 <= i < info.len() && (#[trigger] info[i]).location@ == location
}

/// The position of the first row that tells of the location.
pub open spec fn info_index(info: Seq<DbSystemLocation>, location: Seq<char>) -> int
    recommends
        has_info(info, location),
{
    choose|i: int|
        0 <= i < info.len() && (#[trigger] info[i]).location@ == location && forall|j: int|
            0 <= j < i ==> (#[trigger] info[j]).location@ != location
}

/// Finds the first row that tells of the location.
pub fn find_info(info: &Vec<DbSystemLocation>, location: &String) -> (found: Option<usize>)
    ensures
        found is Some == has_info(info@, location@),
        found matches Some(i) ==> i as int == info_index(info@, location@) && i < info.len(),
{
    let mut i: usize = 0;
    while i < info.len()
        invariant
            i <= info.len(),
            forall|j: int| 0 <= j < i ==> (#[trigger] info@[j]).location@ != location@,
        decreases info.len() - i,
    {
        if same_text(&info[i].location, location) {
            proof {
                let rows = info@;
                let w = info_index(rows, location@);
                assert(0 <= i < rows.len() && rows[i as int].location@ == location@ && forall|
                    j: int,
                |
                    0 <= j < i ==> (#[trigger] rows[j]).location@ != location@);
                assert(w == i as int) by {
                    if w < i {
                        assert(rows[w].location@ != location@);
                    }
                    if i < w {
                        assert(rows[i as int].location@ != location@);
                    }
                }
            }
            return Some(i);
        }
        i = i + 1;
    }
    None
}

/// The good is on offer at the location at time `now`.
pub open spec fn has_offer(
    market: Seq<DbMarketData>,
    location: Seq<char>,
    good: Good,
    now: Timestamp,
) -> bool {
    exists|p: int|
        0 <= p < market.len() && #[trigger] is_current(market, p, now) && market[p].location@
            == location && market[p].good == good
}

/// The position of the snapshot that counts for the good at the location.
pub open spec fn offer_index(
    market: Seq<DbMarketData>,
    location: Seq<char>,
    good: Good,
    now: Timestamp,
) -> int
    recommends
        has_offer(market, location, good, now),
{
    choose|p: int|
        0 <= p < market.len() && #[trigger] is_current(market, p, now) && market[p].location@
            == location && market[p].good == good
}

/// Of one good at one location only one snapshot is the latest.
pub proof fn lemma_latest_unique(market: Seq<DbMarketData>, p: int, q: int)
    requires
        0 <= p < market.len(),
        0 <= q < market.len(),
        is_latest(market, p),
        is_latest(market, q),
        same_offer(market[p], market[q]),
    ensures
        p == q,
{
    reveal(is_latest);
    assert(same_offer(market[q], market[p]));
}

/// Finds the snapshot that counts for the good at the location.
pub fn find_offer(
    market: &Vec<DbMarketData>,
    current: &Vec<bool>,
    location: &String,
    good: Good,
    now: Timestamp,
) -> (found: Option<usize>)
    requires
        current.len() == market.len(),
        forall|i: int| 0 <= i < market.len() ==> #[trigger] current@[i] == is_current(market@, i, now),
    ensures
        found is Some == has_offer(market@, location@, good, now),
        found matches Some(p) ==> p as int == offer_index(market@, location@, good, now) && p
            < market.len(),
{
    let mut p: usize = 0;
    while p < market.len()
        invariant
            p <= market.len(),
            current.len() == market.len(),
            forall|i: int| 0 <= i < market.len() ==> #[trigger] current@[i] == is_current(market@, i, now),
            forall|k: int|
                0 <= k < p ==> !(#[trigger] is_current(market@, k, now) && market@[k].location@
                    == location@ && market@[k].good == good),
        decreases market.len() - p,
    {
        if current[p] && same_text(&market[p].location, location) && market[p].good == good {
            proof {
                let rows = market@;
                assert(is_current(rows, p as int, now));
                let w = offer_index(rows, location@, good, now);
                lemma_latest_unique(rows, w, p as int);
            }
            return Some(p);
        }
        p = p + 1;
    }
    None
}

/// The route that buys at the origin what the snapshot `bought` offers and
/// sells it where the snapshot `sold` was taken.
pub open spec fn route_between(
    origin: DbSystemLocation,
    target: DbSystemLocation,
    bought: DbMarketData,
    sold: DbMarketData,
    ship_speed: i32,
) -> DbRoute {
    DbRoute {
        purchase_location: bought.location,
        purchase_location_type: origin.location_type,
        sell_location: sold.location,
        good: sold.good,
        purchase_x: origin.x,
        purchase_y: origin.y,
        sell_x: target.x,
        sell_y: target.y,
        purchase_quantity: bought.quantity_available,
        sell_quantity: sold.quantity_available,
        purchase_price_per_unit: bought.purchase_price_per_unit,
        sell_price_per_unit: sold.sell_price_per_unit,
        volume_per_unit: bought.volume_per_unit,
        fuel_required: spec_fuel_required(
            squared_gap(origin.x as int, origin.y as int, target.x as int, target.y as int),
            origin.location_type@ == "Planet"@,
        ) as i64,
        ship_speed,
    }
}

/// The snapshot at position `i` makes a route out of `origin`: it counts, it
/// was taken at another location of the origin's system, and its good is on
/// offer at the origin.
pub open spec fn makes_route(
    market: Seq<DbMarketData>,
    info: Seq<DbSystemLocation>,
    origin: Seq<char>,
    now: Timestamp,
    i: int,
) -> bool {
    &&& is_current(market, i, now)
    &&& market[i].location@ != origin
    &&& has_info(info, origin)
    &&& has_info(info, market[i].location@)
    &&& info[info_index(info, origin)].system@ == info[info_index(
        info,
        market[i].location@,
    )].system@
    &&& has_offer(market, origin, market[i].good, now)
}

/// The route that the snapshot at position `i` makes out of `origin`.
pub open spec fn route_at(
    market: Seq<DbMarketData>,
    info: Seq<DbSystemLocation>,
    origin: Seq<char>,
    ship_speed: i32,
    now: Timestamp,
    i: int,
) -> DbRoute
    recommends
        makes_route(market, info, origin, now, i),
{
    route_between(
        info[info_index(info, origin)],
        info[info_index(info, market[i].location@)],
        market[offer_index(market, origin, market[i].good, now)],
        market[i],
        ship_speed,
    )
}

/// The routes out of `origin` that the first `upto` snapshots make, in the
/// order of the snapshots.
pub open spec fn candidate_routes(
    market: Seq<DbMarketData>,
    info: Seq<DbSystemLocation>,
    origin: Seq<char>,
    ship_speed: i32,
    now: Timestamp,
    upto: int,
) -> Seq<DbRoute>
    decreases upto,
{
    if upto <= 0 {
        Seq::<DbRoute>::empty()
    } else if makes_route(market, info, origin, now, upto - 1) {
        candidate_routes(market, info, origin, ship_speed, now, upto - 1).push(
            route_at(market, info, origin, ship_speed, now, upto - 1),
        )
    } else {
        candidate_routes(market, info, origin, ship_speed, now, upto - 1)
    }
}

/// The ranked trade routes out of `origin` for a ship of the given speed:
/// for every good on offer at the origin, one route to each other location
/// of the origin's system where the good is on offer too, by the latest
/// snapshots that are no older than thirty minutes; the greatest score
/// first.
pub open spec fn routes_from(
    market: Seq<DbMarketData>,
    info: Seq<DbSystemLocation>,
    origin: Seq<char>,
    ship_speed: i32,
    now: Timestamp,
) -> Seq<DbRoute> {
    rank(candidate_routes(market, info, origin, ship_speed, now, market.len() as int))
}

/// Builds the route between two locations for one good.
pub fn make_route(
    origin: &DbSystemLocation,
    target: &DbSystemLocation,
    bought: &DbMarketData,
    sold: &DbMarketData,
    ship_speed: i32,
) -> (route: DbRoute)
    ensures
        route == route_between(*origin, *target, *bought, *sold, ship_speed),
{
    let d: u128 = gap_squared(origin.x, origin.y, target.x, target.y);
    let from_planet = same_text(&origin.location_type, &String::from_str("Planet"));
    let fuel = fuel_required(d, from_planet);
    DbRoute {
        purchase_location: bought.location.clone(),
        purchase_location_type: origin.location_type.clone(),
        sell_location: sold.location.clone(),
        good: sold.good,
        purchase_x: origin.x,
        purchase_y: origin.y,
        sell_x: target.x,
        sell_y: target.y,
        purchase_quantity: bought.quantity_available,
        sell_quantity: sold.quantity_available,
        purchase_price_per_unit: bought.purchase_price_per_unit,
        sell_price_per_unit: sold.sell_price_per_unit,
        volume_per_unit: bought.volume_per_unit,
        fuel_required: fuel,
        ship_speed,
    }
}

/// Builds the route that the snapshot at position `i` makes out of the
/// origin, if it makes one.
fn route_for(
    market: &Vec<DbMarketData>,
    current: &Vec<bool>,
    info: &Vec<DbSystemLocation>,
    origin: &DbSystemLocation,
    location: &String,
    ship_speed: i32,
    now: Timestamp,
    i: usize,
) -> (found: Option<DbRoute>)
    requires
        i < market.len(),
        current.len() == market.len(),
        forall|k: int| 0 <= k < market.len() ==> #[trigger] current@[k] == is_current(market@, k, now),
        has_info(info@, location@),
        *origin == info@[info_index(info@, location@)],
    ensures
        found is Some == makes_route(market@, info@, location@, now, i as int),
        found matches Some(route) ==> route == route_at(
            market@,
            info@,
            location@,
            ship_speed,
            now,
            i as int,
        ),
{
    let sold = &market[i];
    if !current[i] || same_text(&sold.location, location) {
        return None;
    }
    let target = match find_info(info, &sold.location) {
        Some(at) => &info[at],
        None => {
            return None;
        },
    };
    if !same_text(&origin.system, &target.system) {
        return None;
    }
    match find_offer(market, current, location, sold.good, now) {
        Some(p) => Some(make_route(origin, target, &market[p], sold, ship_speed)),
        None => None,
    }
}

/// Computes the ranked trade routes out of `location` from the stored market
/// snapshots and the stored map of the systems.
pub fn get_routes_from_location(
    market: &Vec<DbMarketData>,
    info: &Vec<DbSystemLocation>,
    location: &String,
    ship_speed: i32,
    now: Timestamp,
) -> (ranking: Vec<DbRoute>)
    ensures
        ranking@ == routes_from(market@, info@, location@, ship_speed, now),
{
    let mut ranking: Vec<DbRoute> = Vec::new();
    let origin = match find_info(info, location) {
        Some(at) => &info[at],
        None => {
            proof {
                lemma_no_candidates(market@, info@, location@, ship_speed, now, market.len() as int);
            }
            return ranking;
        },
    };
    let mut current: Vec<bool> = Vec::new();
    let mut n: usize = 0;
    while n < market.len()
        invariant
            n <= market.len(),
            current.len() == n,
            forall|i: int| 0 <= i < n ==> #[trigger] current@[i] == is_current(market@, i, now),
        decreases market.len() - n,
    {
        current.push(check_current(market, n, now));
        n = n + 1;
    }
    let mut i: usize = 0;
    while i < market.len()
        invariant
            i <= market.len(),
            current.len() == market.len(),
            forall|k: int| 0 <= k < market.len() ==> #[trigger] current@[k] == is_current(market@, k, now),
            has_info(info@, location@),
            *origin == info@[info_index(info@, location@)],
            ranking@ == rank(
                candidate_routes(market@, info@, location@, ship_speed, now, i as int),
            ),
        decreases market.len() - i,
    {
        let ghost before = candidate_routes(market@, info@, location@, ship_speed, now, i as int);
        match route_for(market, &current, info, origin, location, ship_speed, now, i) {
            Some(route) => {
                proof {
                    lemma_rank_push(before, route);
                }
                insert_route(&mut ranking, route);
            },
            None => {},
        }
        i = i + 1;
    }
    ranking
}

/// Without a row for the origin there is no route out of it.
proof fn lemma_no_candidates(
    market: Seq<DbMarketData>,
    info: Seq<DbSystemLocation>,
    origin: Seq<char>,
    ship_speed: i32,
    now: Timestamp,
    upto: int,
)
    requires
        !has_info(info, origin),
    ensures
        rank(candidate_routes(market, info, origin, ship_speed, now, upto)) == Seq::<
            DbRoute,
        >::empty(),
        candidate_routes(market, info, origin, ship_speed, now, upto) == Seq::<DbRoute>::empty(),
    decreases upto,
{
    if upto > 0 {
        lemma_no_candidates(market, info, origin, ship_speed, now, upto - 1);
    }
}

/// Every candidate route is bought at the origin and sold elsewhere.
proof fn lemma_candidates_leave_origin(
    market: Seq<DbMarketData>,
    info: Seq<DbSystemLocation>,
    origin: Seq<char>,
    ship_speed: i32,
    now: Timestamp,
    upto: int,
)
    requires
        upto <= market.len(),
    ensures
        forall|k: int|
            0 <= k < candidate_routes(market, info, origin, ship_speed, now, upto).len() ==> {
                let route = #[trigger] candidate_routes(
                    market,
                    info,
                    origin,
                    ship_speed,
                    now,
                    upto,
                )[k];
                route.purchase_location@ == origin && route.sell_location@ != origin
            },
    decreases upto,
{
    if upto > 0 {
        lemma_candidates_leave_origin(market, info, origin, ship_speed, now, upto - 1);
        let before = candidate_routes(market, info, origin, ship_speed, now, upto - 1);
        let all = candidate_routes(market, info, origin, ship_speed, now, upto);
        if makes_route(market, info, origin, now, upto - 1) {
            let route = route_at(market, info, origin, ship_speed, now, upto - 1);
            assert(all == before.push(route));
            assert forall|k: int| 0 <= k < all.len() implies ({
                let r = #[trigger] all[k];
                r.purchase_location@ == origin && r.sell_location@ != origin
            }) by {
                if k < before.len() {
                    assert(all[k] == before[k]);
                }
            }
        }
    }
}

/// No route out of a location leads back to it: every route is bought at the
/// origin and sold at another place.
pub proof fn lemma_routes_leave_origin(
    market: Seq<DbMarketData>,
    info: Seq<DbSystemLocation>,
    origin: Seq<char>,
    ship_speed: i32,
    now: Timestamp,
    i: int,
)
    requires
        0 <= i < routes_from(market, info, origin, ship_speed, now).len(),
    ensures
        routes_from(market, info, origin, ship_speed, now)[i].purchase_location@ == origin,
        routes_from(market, info, origin, ship_speed, now)[i].sell_location@ != origin,
        routes_from(market, info, origin, ship_speed, now)[i].purchase_location@ != routes_from(
            market,
            info,
            origin,
            ship_speed,
            now,
        )[i].sell_location@,
{
    let candidates = candidate_routes(market, info, origin, ship_speed, now, market.len() as int);
    lemma_candidates_leave_origin(market, info, origin, ship_speed, now, market.len() as int);
    lemma_rank_member(candidates, i);
    let route = rank(candidates)[i];
    let k = choose|k: int| 0 <= k < candidates.len() && candidates[k] == route;
    assert(candidates[k].purchase_location@ == origin);
}

/// The routes out of a location stand in the order of their scores: where
/// every score is defined, a route's score is at least as great as the score
/// of any route behind it.
pub proof fn lemma_routes_descend(
    market: Seq<DbMarketData>,
    info: Seq<DbSystemLocation>,
    origin: Seq<char>,
    ship_speed: i32,
    now: Timestamp,
    i: int,
    j: int,
)
    requires
        all_defined(candidate_routes(market, info, origin, ship_speed, now, market.len() as int)),
        0 <= i < j < routes_from(market, info, origin, ship_speed, now).len(),
    ensures
        !spec_score_exceeds(
            routes_from(market, info, origin, ship_speed, now)[j],
            routes_from(market, info, origin, ship_speed, now)[i],
        ),
{
    lemma_rank_descends(
        candidate_routes(market, info, origin, ship_speed, now, market.len() as int),
    );
}

} // verus!
