//! Rows of the persistent store.

pub mod flight_plans;
pub mod places;
pub mod store;

use crate::shared::{Good, SystemsInfoData, SystemsInfoLocation, Timestamp};
use vstd::prelude::*;

verus! {

/// Credentials of one ship's owner as the store keeps them.
#[derive(Debug, Clone, PartialEq, Eq)]
pub struct Ship {
    pub id: String,
    pub username: String,
    pub token: String,
}

/// One account as the store keeps it.
#[derive(Debug, Clone, PartialEq, Eq)]
pub struct DbUser {
    pub id: String,
    pub username: String,
    pub token: String,
    pub new_ship_assignment: String,
    pub new_ship_system: String,
}

/// One location of a system as the store keeps it.
#[derive(Debug, Clone, PartialEq, Eq)]
pub struct DbSystemLocation {
    pub system: String,
    pub system_name: String,
    pub location: String,
    pub location_name: String,
    pub location_type: String,
    pub x: i32,
    pub y: i32,
    pub created_at: Timestamp,
}

/// One ship as the store keeps it; `system` is the ship's home system.
#[derive(Debug, Clone, PartialEq, Eq)]
pub struct DbShip {
    pub user_id: String,
    pub ship_id: String,
    pub ship_type: String,
    pub class: String,
    pub max_cargo: i32,
    pub speed: i32,
    pub manufacturer: String,
    pub plating: i32,
    pub weapons: i32,
    pub system: String,
}

/// A trade opportunity: buy `good` at `purchase_location`, sell it at
/// `sell_location`.
///
/// The distance between the two places, the flight time and the two scores are
/// irrational in general. The route keeps the exact integers they are
/// functions of: the coordinates of both places, the prices, the volume and
/// the ship's speed. See [`crate::routes`] for the distance and for the
/// scores' order.
#[derive(Debug, Clone, PartialEq, Eq)]
pub struct DbRoute {
    pub purchase_location: String,
    pub purchase_location_type: String,
    pub sell_location: String,
    pub good: Good,
    pub purchase_x: i32,
    pub purchase_y: i32,
    pub sell_x: i32,
    pub sell_y: i32,
    pub purchase_quantity: i32,
    pub sell_quantity: i32,
    pub purchase_price_per_unit: i32,
    pub sell_price_per_unit: i32,
    pub volume_per_unit: i32,
    pub fuel_required: i64,
    pub ship_speed: i32,
}

/// One market snapshot as the store keeps it: what one good cost at one
/// location at one time.
#[derive(Debug, Clone, PartialEq, Eq)]
pub struct DbMarketData {
    pub location: String,
    pub good: Good,
    pub price_per_unit: i32,
    pub purchase_price_per_unit: i32,
    pub sell_price_per_unit: i32,
    pub volume_per_unit: i32,
    pub quantity_available: i32,
    pub created_at: Timestamp,
}

/// One flight plan as the store keeps it.
#[derive(Debug, Clone, PartialEq, Eq)]
pub struct DbFlightPlan {
    pub id: String,
    pub user_id: String,
    pub ship_id: String,
    pub origin: String,
    pub destination: String,
    pub distance: i32,
    pub fuel_consumed: i32,
    pub fuel_remaining: i32,
    pub time_remaining_in_seconds: i32,
    pub arrives_at: Timestamp,
    pub created_at: Timestamp,
}

/// One entry of an account's credits over time.
#[derive(Debug, Clone, PartialEq, Eq)]
pub struct DbUserStats {
    pub user_id: String,
    pub credits: i32,
    pub ship_count: i32,
    pub created_at: Timestamp,
}

/// Whether goods were bought or sold.
#[derive(Debug, Clone, Copy, PartialEq, Eq, Structural)]
pub enum TransactionKind {
    Purchase,
    Sell,
}

/// One purchase or sale as the store keeps it.
#[derive(Debug, Clone, PartialEq, Eq)]
pub struct DbTransaction {
    pub user_id: String,
    pub ship_id: String,
    pub kind: TransactionKind,
    pub good: Good,
    pub price_per_unit: i32,
    pub quantity: i32,
    pub total: i32,
    pub location: String,
    pub created_at: Timestamp,
}

impl DbUser {
    /// A second value that tells the same as this one.
    pub fn replica(&self) -> (copy: DbUser)
        ensures
            copy == *self,
    {
        DbUser {
            id: self.id.clone(),
            username: self.username.clone(),
            token: self.token.clone(),
            new_ship_assignment: self.new_ship_assignment.clone(),
            new_ship_system: self.new_ship_system.clone(),
        }
    }
}

impl DbSystemLocation {
    /// A second value that tells the same as this one.
    pub fn replica(&self) -> (copy: DbSystemLocation)
        ensures
            copy == *self,
    {
        DbSystemLocation {
            system: self.system.clone(),
            system_name: self.system_name.clone(),
            location: self.location.clone(),
            location_name: self.location_name.clone(),
            location_type: self.location_type.clone(),
            x: self.x,
            y: self.y,
            created_at: self.created_at,
        }
    }

    /// The row that tells of one location of a system as the server
    /// describes it, written at time `now`.
    pub fn new(system: &SystemsInfoData, location: &SystemsInfoLocation, now: Timestamp) -> (row:
        DbSystemLocation)
        ensures
            row.system == system.symbol,
            row.system_name == system.name,
            row.location == location.symbol,
            row.location_name == location.name,
            row.location_type@ == location.systems_info_type.spec_name(),
            row.x == location.x,
            row.y == location.y,
            row.created_at == now,
    {
        DbSystemLocation {
            system: system.symbol.clone(),
            system_name: system.name.clone(),
            location: location.symbol.clone(),
            location_name: location.name.clone(),
            location_type: location.systems_info_type.to_string(),
            x: location.x,
            y: location.y,
            created_at: now,
        }
    }
}

impl DbShip {
    /// A second value that tells the same as this one.
    pub fn replica(&self) -> (copy: DbShip)
        ensures
            copy == *self,
    {
        DbShip {
            user_id: self.user_id.clone(),
            ship_id: self.ship_id.clone(),
            ship_type: self.ship_type.clone(),
            class: self.class.clone(),
            max_cargo: self.max_cargo,
            speed: self.speed,
            manufacturer: self.manufacturer.clone(),
            plating: self.plating,
            weapons: self.weapons,
            system: self.system.clone(),
        }
    }

    /// The row that tells of a ship of an account whose home is `system`.
    pub fn new(user_id: &String, system: &String, ship: &crate::shared::Ship) -> (row: DbShip)
        ensures
            row == (DbShip {
                user_id: *user_id,
                ship_id: ship.id,
                ship_type: ship.ship_type,
                class: ship.class,
                max_cargo: ship.max_cargo,
                speed: ship.speed,
                manufacturer: ship.manufacturer,
                plating: ship.plating,
                weapons: ship.weapons,
                system: *system,
            }),
    {
        DbShip {
            user_id: user_id.clone(),
            ship_id: ship.id.clone(),
            ship_type: ship.ship_type.clone(),
            class: ship.class.clone(),
            max_cargo: ship.max_cargo,
            speed: ship.speed,
            manufacturer: ship.manufacturer.clone(),
            plating: ship.plating,
            weapons: ship.weapons,
            system: system.clone(),
        }
    }
}

/// How far two locations of one system lie apart, and what the first of
/// them is.
#[derive(Debug, Clone, PartialEq, Eq)]
pub struct DbDistanceBetweenLocations {
    pub origin_location_type: String,
    /// The square of the distance.
    pub distance_squared: u128,
}

} // verus!
