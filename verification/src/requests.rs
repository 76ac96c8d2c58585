//! Bodies of the requests sent to the game server.

use crate::shared::{Good, LoanType};
use vstd::prelude::*;

verus! {

/// Buy `quantity` units of `good` into the ship.
#[derive(Debug, Clone, PartialEq, Eq)]
pub struct PurchaseOrderRequest {
    pub ship_id: String,
    pub good: Good,
    pub quantity: i32,
}

/// Sell `quantity` units of `good` out of the ship.
#[derive(Debug, Clone, PartialEq, Eq)]
pub struct SellOrderRequest {
    pub ship_id: String,
    pub good: Good,
    pub quantity: i32,
}

/// Buy a ship of a type at a location.
#[derive(Debug, Clone, PartialEq, Eq)]
pub struct PurchaseShipRequest {
    pub location: String,
    pub ship_type: String,
}

/// Take out a loan of a kind.
#[derive(Debug, Clone, Copy, PartialEq, Eq, Structural)]
pub struct RequestNewLoanRequest {
    pub loan_type: LoanType,
}

/// Send the ship to a destination.
#[derive(Debug, Clone, PartialEq, Eq)]
pub struct FlightPlanRequest {
    pub ship_id: String,
    pub destination: String,
}

} // verus!
