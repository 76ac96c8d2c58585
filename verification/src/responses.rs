//! Bodies of the game server's answers.

use crate::shared::{
    FlightPlanData, Loan, Location, Order, PlanetMarketplaceData, Ship, ShipForSale,
    SystemsInfoData, SystemsInfoLocation, Timestamp,
};
use vstd::prelude::*;

verus! {

/// What the server says of itself.
#[derive(Debug, Clone, PartialEq, Eq)]
pub struct GameStatus {
    pub status: String,
}

/// An account as the server reports it.
#[derive(Debug, Clone, PartialEq, Eq)]
pub struct UserInfoData {
    pub username: String,
    pub credits: i32,
    pub ships: Vec<Ship>,
    pub loans: Vec<Loan>,
}

/// The answer to a question after an account.
#[derive(Debug, Clone, PartialEq, Eq)]
pub struct UserInfo {
    pub user: UserInfoData,
}

/// The catalogue of ships.
#[derive(Debug, Clone, PartialEq, Eq)]
pub struct ShipsForSale {
    pub ships: Vec<ShipForSale>,
}

/// The answer to a purchase or a sell order: the account's credits afterwards,
/// what was moved, and the ship as it now is.
#[derive(Debug, Clone, PartialEq, Eq)]
pub struct PurchaseOrder {
    pub credits: i32,
    pub order: Order,
    pub ship: Ship,
}

/// The locations of a system.
#[derive(Debug, Clone, PartialEq, Eq)]
pub struct AvailableLocations {
    pub locations: Vec<Location>,
}

/// The answer to a flight plan that was filed or asked after.
#[derive(Debug, Clone, PartialEq, Eq)]
pub struct FlightPlan {
    pub flight_plan: FlightPlanData,
}

/// The map of the game.
#[derive(Debug, Clone, PartialEq, Eq)]
pub struct SystemsInfo {
    pub systems: Vec<SystemsInfoData>,
}

/// An account as the server describes it when it is claimed.
#[derive(Debug, Clone, PartialEq, Eq)]
pub struct User {
    pub id: String,
    pub username: String,
    pub picture: Option<String>,
    pub email: Option<String>,
    pub credits: i32,
    pub created_at: Timestamp,
    pub updated_at: Timestamp,
}

/// The answer to a claim of a username: the token and the account.
#[derive(Debug, Clone, PartialEq, Eq)]
pub struct ClaimUsernameResponse {
    pub token: String,
    pub user: User,
}

/// The ships of an account.
#[derive(Debug, Clone, PartialEq, Eq)]
pub struct YourShips {
    pub ships: Vec<Ship>,
}

/// One location of the map.
#[derive(Debug, Clone, PartialEq, Eq)]
pub struct LocationInfo {
    pub planet: SystemsInfoLocation,
}

/// The loans of an account.
#[derive(Debug, Clone, PartialEq, Eq)]
pub struct LoanInfo {
    pub loans: Vec<Loan>,
}

/// The marketplace of a location.
#[derive(Debug, Clone, PartialEq, Eq)]
pub struct PlanetMarketplace {
    pub planet: PlanetMarketplaceData,
}

/// The answer to a loan request.
#[derive(Debug, Clone, PartialEq, Eq)]
pub struct RequestLoan {
    pub credits: i32,
    pub loan: Loan,
}

/// The answer to paying off a loan.
#[derive(Debug, Clone, PartialEq, Eq)]
pub struct PayLoanResponse {
    pub credits: i32,
    pub loans: Vec<Loan>,
}

/// The answer to buying a ship.
#[derive(Debug, Clone, PartialEq, Eq)]
pub struct PurchaseShip {
    pub credits: i32,
    pub ship: Ship,
}

} // verus!
