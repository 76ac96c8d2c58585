//! Distances on the map, and what depends on them alone: the fuel a flight
//! takes and the factor of the distance in the flight time.

use crate::db::DbRoute;
use vstd::prelude::*;

verus! {

/// The square of the distance between two points of the map.
#[verifier::opaque]
pub open spec fn squared_gap(ax: int, ay: int, bx: int, by: int) -> int {
    (ax - bx) * (ax - bx) + (ay - by) * (ay - by)
}

/// The square of the distance between the route's two places.
pub open spec fn spec_distance_squared(route: DbRoute) -> int {
    squared_gap(
        route.purchase_x as int,
        route.purchase_y as int,
        route.sell_x as int,
        route.sell_y as int,
    )
}

/// Computes the square of the distance between two points of the map.
pub fn gap_squared(ax: i32, ay: i32, bx: i32, by: i32) -> (d: u128)
    ensures
        d as int == squared_gap(ax as int, ay as int, bx as int, by as int),
        d <= 0x2_0000_0000_0000_0000,
{
    reveal(squared_gap);
    let dx: i128 = ax as i128 - bx as i128;
    let dy: i128 = ay as i128 - by as i128;
    assert(0 <= dx * dx <= 0x1_0000_0000_0000_0000) by (nonlinear_arith)
        requires
            -0x1_0000_0000 <= dx <= 0x1_0000_0000,
    ;
    assert(0 <= dy * dy <= 0x1_0000_0000_0000_0000) by (nonlinear_arith)
        requires
            -0x1_0000_0000 <= dy <= 0x1_0000_0000,
    ;
    (dx * dx + dy * dy) as u128
}

/// Computes the square of the distance between the route's two places.
pub fn distance_squared(route: &DbRoute) -> (d: u128)
    ensures
        d as int == spec_distance_squared(*route),
        d <= 0x2_0000_0000_0000_0000,
{
    gap_squared(route.purchase_x, route.purchase_y, route.sell_x, route.sell_y)
}

/// `root` is the whole number nearest to the square root of `d`. No square
/// root of a whole number lies halfway between two whole numbers, so there is
/// exactly one.
pub open spec fn is_rounded_root(d: int, root: int) -> bool {
    &&& root >= 0
    &&& 4 * d < (2 * root + 1) * (2 * root + 1)
    &&& (root == 0 || (2 * root - 1) * (2 * root - 1) <= 4 * d)
}

/// Only one whole number is nearest to a square root.
pub proof fn lemma_rounded_root_unique(d: int, r1: int, r2: int)
    requires
        is_rounded_root(d, r1),
        is_rounded_root(d, r2),
    ensures
        r1 == r2,
{
    if r1 < r2 {
        assert((2 * r2 - 1) * (2 * r2 - 1) >= (2 * r1 + 1) * (2 * r1 + 1)) by (nonlinear_arith)
            requires
                0 <= r1,
                r1 + 1 <= r2,
        ;
    }
    if r2 < r1 {
        assert((2 * r1 - 1) * (2 * r1 - 1) >= (2 * r2 + 1) * (2 * r2 + 1)) by (nonlinear_arith)
            requires
                0 <= r2,
                r2 + 1 <= r1,
        ;
    }
}

/// The whole number nearest to the square root of `d`.
#[verifier::opaque]
pub open spec fn spec_rounded_root(d: int) -> int {
    choose|root: int| is_rounded_root(d, root)
}

/// Finds the whole number nearest to the square root of a squared distance.
pub fn rounded_root(d: u128) -> (root: u64)
    requires
        d <= 0x2_0000_0000_0000_0000,
    ensures
        is_rounded_root(d as int, root as int),
        root as int == spec_rounded_root(d as int),
        root <= 0x2_0000_0000,
{
    let four_d: u128 = 4 * d;
    let mut low: u128 = 0;
    let mut high: u128 = 0x2_0000_0001;
    assert((2 * 0x2_0000_0001 - 1) * (2 * 0x2_0000_0001 - 1) == 0x10_0000_0008_0000_0001) by (nonlinear_arith);
    while high - low > 1
        invariant
            low < high <= 0x2_0000_0001,
            four_d == 4 * d,
            low == 0 || (2 * low - 1) * (2 * low - 1) <= four_d,
            four_d < (2 * high - 1) * (2 * high - 1),
        decreases high - low,
    {
        let middle: u128 = low + (high - low) / 2;
        assert((2 * middle - 1) * (2 * middle - 1) <= 0x10_0000_0000_0000_0000) by (nonlinear_arith)
            requires
                1 <= middle <= 0x2_0000_0000,
        ;
        let odd: u128 = 2 * middle - 1;
        if odd * odd <= four_d {
            low = middle;
        } else {
            high = middle;
        }
    }
    proof {
        reveal(spec_rounded_root);
        assert(2 * high - 1 == 2 * low + 1);
        let witness = low as int;
        assert(is_rounded_root(d as int, witness));
        lemma_rounded_root_unique(d as int, witness, spec_rounded_root(d as int));
    }
    low as u64
}

/// The fuel a flight takes: a quarter of the rounded distance, rounded, two
/// more for the lift-off from a planet, and one.
pub open spec fn spec_fuel_required(distance_squared: int, from_planet: bool) -> int {
    (spec_rounded_root(distance_squared) + 2) / 4 + if from_planet {
        2int
    } else {
        0int
    } + 1
}

/// Works out the fuel a flight takes.
pub fn fuel_required(distance_squared: u128, from_planet: bool) -> (fuel: i64)
    requires
        distance_squared <= 0x2_0000_0000_0000_0000,
    ensures
        fuel as int == spec_fuel_required(distance_squared as int, from_planet),
{
    let root: u64 = rounded_root(distance_squared);
    let quarter: u64 = (root + 2) / 4;
    let penalty: i64 = if from_planet {
        2
    } else {
        0
    };
    quarter as i64 + penalty + 1
}

/// The factor of the distance in the flight time, `2 / speed` rounded to the
/// nearest whole number, halves away from zero. There is none for a ship
/// without speed.
pub open spec fn spec_flight_time_factor(speed: int) -> Option<int> {
    if speed == 0 {
        None
    } else if speed == 1 {
        Some(2)
    } else if speed == -1 {
        Some(-2)
    } else if 2 <= speed <= 4 {
        Some(1)
    } else if -4 <= speed <= -2 {
        Some(-1)
    } else {
        Some(0)
    }
}

/// Works out the factor of the distance in the flight time; the flight takes
/// the distance times this factor, and sixty more.
pub fn flight_time_factor(speed: i32) -> (factor: Option<i32>)
    ensures
        match factor {
            Some(f) => spec_flight_time_factor(speed as int) == Some(f as int),
            None => spec_flight_time_factor(speed as int) is None,
        },
{
    if speed == 0 {
        None
    } else if speed == 1 {
        Some(2)
    } else if speed == -1 {
        Some(-2)
    } else if 2 <= speed && speed <= 4 {
        Some(1)
    } else if -4 <= speed && speed <= -2 {
        Some(-1)
    } else {
        Some(0)
    }
}

} // verus!
