//! Small decisions around the calls to the game server and to the store.

use crate::db::store::Store;
use crate::db::DbRoute;
use crate::errors::GameStatusError;
use crate::requests::{FlightPlanRequest, PurchaseOrderRequest, SellOrderRequest};
use crate::responses::GameStatus;
use crate::routes::routes_from;
use crate::shared::{Good, Timestamp};
use vstd::prelude::*;

verus! {

/// The server is in maintenance: the game status could not be had because
/// the service is unavailable.
pub fn is_api_in_maintenance_mode(status: &Result<GameStatus, GameStatusError>) -> (down: bool)
    ensures
        down == (*status matches Err(GameStatusError::ServiceUnavailable)),
{
    match status {
        Err(GameStatusError::ServiceUnavailable) => true,
        _ => false,
    }
}

/// The body of the request for a flight plan.
pub fn create_flight_plan(ship_id: &String, destination: &String) -> (request: FlightPlanRequest)
    ensures
        request == (FlightPlanRequest { ship_id: *ship_id, destination: *destination }),
{
    FlightPlanRequest { ship_id: ship_id.clone(), destination: destination.clone() }
}

/// The body of a purchase order; none for an order of no positive quantity,
/// which is refused.
pub fn create_purchase_order(ship_id: &String, good: Good, quantity: i32) -> (request: Option<
    PurchaseOrderRequest,
>)
    ensures
        request == if quantity > 0 {
            Some(PurchaseOrderRequest { ship_id: *ship_id, good, quantity })
        } else {
            None
        },
{
    if quantity > 0 {
        Some(PurchaseOrderRequest { ship_id: ship_id.clone(), good, quantity })
    } else {
        None
    }
}

/// The body of a sell order; none for an order of no positive quantity,
/// which is refused.
pub fn create_sell_order(ship_id: &String, good: Good, quantity: i32) -> (request: Option<
    SellOrderRequest,
>)
    ensures
        request == if quantity > 0 {
            Some(SellOrderRequest { ship_id: *ship_id, good, quantity })
        } else {
            None
        },
{
    if quantity > 0 {
        Some(SellOrderRequest { ship_id: ship_id.clone(), good, quantity })
    } else {
        None
    }
}

/// The ranked trade routes for a ship of the given speed at a location.
pub fn get_routes_for_ship(store: &Store, location_symbol: &String, ship_speed: i32, now: Timestamp) -> (routes:
    Vec<DbRoute>)
    ensures
        routes@ == routes_from(
            store.market_data@,
            store.system_info@,
            location_symbol@,
            ship_speed,
            now,
        ),
{
    store.get_routes_from_location(location_symbol, ship_speed, now)
}

} // verus!
