//! The gateway to the game server: what is sent for each operation.
//!
//! The gateway sends nothing itself. Each operation yields a [`Call`] that
//! says what to send; the caller sends it, one call at a time, and asks
//! [`throttle::execute_request`] what the status of the answer means.

pub mod throttle;

use crate::requests::{
    FlightPlanRequest, PurchaseOrderRequest, PurchaseShipRequest, RequestNewLoanRequest,
    SellOrderRequest,
};
use crate::shared::{Good, LoanType, LocationType};
use vstd::prelude::*;

verus! {

/// The HTTP methods that the gateway uses.
#[derive(Debug, Clone, Copy, PartialEq, Eq, Structural)]
pub enum Method {
    Get,
    Post,
    Put,
}

/// What goes into the body of a call.
#[derive(Debug, Clone, PartialEq, Eq)]
pub enum CallBody {
    Empty,
    /// Any text; the server does not read it.
    Filler,
    FlightPlan(FlightPlanRequest),
    PurchaseOrder(PurchaseOrderRequest),
    SellOrder(SellOrderRequest),
    PurchaseShip(PurchaseShipRequest),
    NewLoan(RequestNewLoanRequest),
    Jettison { good: Good, quantity: i32 },
    WarpJump { ship_id: String },
}

/// One call to the game server.
#[derive(Debug, Clone, PartialEq, Eq)]
pub struct Call {
    pub method: Method,
    pub url: String,
    /// The value of the query parameter `type`, where there is one.
    pub type_filter: Option<LocationType>,
    pub body: CallBody,
    /// The value of the `Authorization` header, where the call carries one.
    pub authorization: Option<String>,
}

/// A client of the game server that acts for one account.
#[derive(Debug, Clone, PartialEq, Eq)]
pub struct Client {
    pub username: String,
    pub token: String,
}

/// The address under which the game server is reached.
pub open spec fn base_url() -> Seq<char> {
    "https://api.spacetraders.io"@
}

/// The value of the `Authorization` header for a token.
pub open spec fn bearer(token: Seq<char>) -> Seq<char> {
    "Bearer "@ + token
}

/// Joins two texts.
pub fn join(first: &str, second: &str) -> (joined: String)
    ensures
        joined@ == first@ + second@,
{
    String::from_str(first).concat(second)
}

/// Joins a text to what has been joined so far.
pub fn extend(so_far: String, next: &str) -> (joined: String)
    ensures
        joined@ == so_far@ + next@,
{
    so_far.concat(next)
}

/// The address of what belongs to one account: the base, `/users/`, the
/// account's name, and the rest.
pub open spec fn user_url(username: Seq<char>, rest: Seq<char>) -> Seq<char> {
    base_url() + "/users/"@ + username + rest
}

/// The address of what belongs to the game as a whole.
pub open spec fn game_url(rest: Seq<char>) -> Seq<char> {
    base_url() + "/game/"@ + rest
}

/// Claims a username: the call that asks for a token, sent without one.
pub fn claim_username(username: &String) -> (call: Call)
    ensures
        call.method == Method::Post,
        call.url@ == user_url(username@, "/token"@),
        call.type_filter is None,
        call.body == CallBody::Filler,
        call.authorization is None,
{
    let url = extend(
        extend(join("https://api.spacetraders.io", "/users/"), username.as_str()),
        "/token",
    );
    Call { method: Method::Post, url, type_filter: None, body: CallBody::Filler, authorization: None }
}

/// Asks for the status of the game; the call needs no token.
pub fn get_game_status() -> (call: Call)
    ensures
        call.method == Method::Get,
        call.url@ == game_url("status"@),
        call.type_filter is None,
        call.body == CallBody::Empty,
        call.authorization is None,
{
    let url = extend(join("https://api.spacetraders.io", "/game/"), "status");
    Call { method: Method::Get, url, type_filter: None, body: CallBody::Empty, authorization: None }
}

impl Client {
    /// A client that acts for the account of this name with this token.
    pub fn new(username: String, token: String) -> (client: Client)
        ensures
            client == (Client { username, token }),
    {
        Client { username, token }
    }

    /// A call of this account: it carries the account's token.
    pub open spec fn calls(self, call: Call, method: Method, url: Seq<char>, body: CallBody) -> bool {
        &&& call.method == method
        &&& call.url@ == url
        &&& call.type_filter is None
        &&& call.body == body
        &&& call.authorization matches Some(value)
        &&& value@ == bearer(self.token@)
    }

    fn user_call(&self, method: Method, rest: String, body: CallBody) -> (call: Call)
        ensures
            self.calls(call, method, user_url(self.username@, rest@), body),
    {
        let url = extend(
            extend(join("https://api.spacetraders.io", "/users/"), self.username.as_str()),
            rest.as_str(),
        );
        Call {
            method,
            url,
            type_filter: None,
            body,
            authorization: Some(join("Bearer ", self.token.as_str())),
        }
    }

    fn game_call(&self, rest: String) -> (call: Call)
        ensures
            self.calls(call, Method::Get, game_url(rest@), CallBody::Empty),
    {
        let url = extend(join("https://api.spacetraders.io", "/game/"), rest.as_str());
        Call {
            method: Method::Get,
            url,
            type_filter: None,
            body: CallBody::Empty,
            authorization: Some(join("Bearer ", self.token.as_str())),
        }
    }

    /// Asks after a flight plan.
    pub fn get_flight_plan(&self, flight_plan_id: &String) -> (call: Call)
        ensures
            self.calls(
                call,
                Method::Get,
                user_url(self.username@, "/flight-plans/"@ + flight_plan_id@),
                CallBody::Empty,
            ),
    {
        self.user_call(Method::Get, join("/flight-plans/", flight_plan_id.as_str()), CallBody::Empty)
    }

    /// Files a flight plan for a ship.
    pub fn create_flight_plan(&self, ship_id: String, destination: String) -> (call: Call)
        ensures
            self.calls(
                call,
                Method::Post,
                user_url(self.username@, "/flight-plans"@),
                CallBody::FlightPlan(FlightPlanRequest { ship_id, destination }),
            ),
    {
        self.user_call(
            Method::Post,
            String::from_str("/flight-plans"),
            CallBody::FlightPlan(FlightPlanRequest { ship_id, destination }),
        )
    }

    /// Asks for the loans on offer.
    pub fn get_available_loans(&self) -> (call: Call)
        ensures
            self.calls(call, Method::Get, game_url("loans"@), CallBody::Empty),
    {
        self.game_call(String::from_str("loans"))
    }

    /// Asks for the loans of the account.
    pub fn get_your_loans(&self) -> (call: Call)
        ensures
            self.calls(call, Method::Get, user_url(self.username@, "/loans"@), CallBody::Empty),
    {
        self.user_call(Method::Get, String::from_str("/loans"), CallBody::Empty)
    }

    /// Pays off a loan.
    pub fn pay_off_loan(&self, loan_id: &String) -> (call: Call)
        ensures
            self.calls(
                call,
                Method::Put,
                user_url(self.username@, "/loans/"@ + loan_id@),
                CallBody::Empty,
            ),
    {
        self.user_call(Method::Put, join("/loans/", loan_id.as_str()), CallBody::Empty)
    }

    /// Takes out a loan.
    pub fn request_new_loan(&self, loan_type: LoanType) -> (call: Call)
        ensures
            self.calls(
                call,
                Method::Post,
                user_url(self.username@, "/loans"@),
                CallBody::NewLoan(RequestNewLoanRequest { loan_type }),
            ),
    {
        self.user_call(
            Method::Post,
            String::from_str("/loans"),
            CallBody::NewLoan(RequestNewLoanRequest { loan_type }),
        )
    }

    /// Asks after a location.
    pub fn get_location_info(&self, location_symbol: &String) -> (call: Call)
        ensures
            self.calls(
                call,
                Method::Get,
                game_url("locations/"@ + location_symbol@),
                CallBody::Empty,
            ),
    {
        self.game_call(join("locations/", location_symbol.as_str()))
    }

    /// Asks for the locations of a system, of one type only where a type
    /// is given.
    pub fn get_locations_in_system(
        &self,
        system_symbol: &String,
        location_type: Option<LocationType>,
    ) -> (call: Call)
        ensures
            call.method == Method::Get,
            call.url@ == game_url("systems/"@ + system_symbol@ + "/locations"@),
            call.type_filter == location_type,
            call.body == CallBody::Empty,
            call.authorization matches Some(value) && value@ == bearer(self.token@),
    {
        let call = self.game_call(extend(join("systems/", system_symbol.as_str()), "/locations"));
        Call {
            method: call.method,
            url: call.url,
            type_filter: location_type,
            body: call.body,
            authorization: call.authorization,
        }
    }

    /// Asks for the marketplace of a location; a ship of the account must be
    /// docked there.
    pub fn get_location_marketplace(&self, location_symbol: &String) -> (call: Call)
        ensures
            self.calls(
                call,
                Method::Get,
                game_url("locations/"@ + location_symbol@ + "/marketplace"@),
                CallBody::Empty,
            ),
    {
        self.game_call(extend(join("locations/", location_symbol.as_str()), "/marketplace"))
    }

    /// Buys goods into a ship.
    pub fn create_purchase_order(&self, ship_id: String, good: Good, quantity: i32) -> (call: Call)
        ensures
            self.calls(
                call,
                Method::Post,
                user_url(self.username@, "/purchase-orders"@),
                CallBody::PurchaseOrder(PurchaseOrderRequest { ship_id, good, quantity }),
            ),
    {
        self.user_call(
            Method::Post,
            String::from_str("/purchase-orders"),
            CallBody::PurchaseOrder(PurchaseOrderRequest { ship_id, good, quantity }),
        )
    }

    /// Sells goods out of a ship, at the location where it is docked.
    pub fn create_sell_order(&self, ship_id: String, good: Good, quantity: i32) -> (call: Call)
        ensures
            self.calls(
                call,
                Method::Post,
                user_url(self.username@, "/sell-orders"@),
                CallBody::SellOrder(SellOrderRequest { ship_id, good, quantity }),
            ),
    {
        self.user_call(
            Method::Post,
            String::from_str("/sell-orders"),
            CallBody::SellOrder(SellOrderRequest { ship_id, good, quantity }),
        )
    }

    /// Buys a ship of a type at a location.
    pub fn purchase_ship(&self, location_symbol: String, ship_type: String) -> (call: Call)
        ensures
            self.calls(
                call,
                Method::Post,
                user_url(self.username@, "/ships"@),
                CallBody::PurchaseShip(
                    PurchaseShipRequest { location: location_symbol, ship_type },
                ),
            ),
    {
        self.user_call(
            Method::Post,
            String::from_str("/ships"),
            CallBody::PurchaseShip(PurchaseShipRequest { location: location_symbol, ship_type }),
        )
    }

    /// Asks for the catalogue of ships.
    pub fn get_ships_for_sale(&self) -> (call: Call)
        ensures
            self.calls(call, Method::Get, game_url("ships"@), CallBody::Empty),
    {
        self.game_call(String::from_str("ships"))
    }

    /// Asks for the ships of the account.
    pub fn get_your_ships(&self) -> (call: Call)
        ensures
            self.calls(call, Method::Get, user_url(self.username@, "/ships"@), CallBody::Empty),
    {
        self.user_call(Method::Get, String::from_str("/ships"), CallBody::Empty)
    }

    /// Asks after one ship of the account.
    pub fn get_my_ship(&self, ship_id: &String) -> (call: Call)
        ensures
            self.calls(
                call,
                Method::Get,
                user_url(self.username@, "/ships/"@ + ship_id@),
                CallBody::Empty,
            ),
    {
        self.user_call(Method::Get, join("/ships/", ship_id.as_str()), CallBody::Empty)
    }

    /// Asks for the map of the game.
    pub fn get_systems_info(&self) -> (call: Call)
        ensures
            self.calls(call, Method::Get, game_url("systems"@), CallBody::Empty),
    {
        self.game_call(String::from_str("systems"))
    }

    /// Asks after the account.
    pub fn get_user_info(&self) -> (call: Call)
        ensures
            self.calls(call, Method::Get, user_url(self.username@, Seq::<char>::empty()), CallBody::Empty),
    {
        self.user_call(Method::Get, String::new(), CallBody::Empty)
    }

    /// Throws cargo of a ship overboard.
    pub fn jettison_cargo(&self, ship_id: &String, good: Good, quantity: i32) -> (call: Call)
        ensures
            self.calls(
                call,
                Method::Put,
                user_url(self.username@, "/ships/"@ + ship_id@ + "/jettison"@),
                CallBody::Jettison { good, quantity },
            ),
    {
        self.user_call(
            Method::Put,
            extend(join("/ships/", ship_id.as_str()), "/jettison"),
            CallBody::Jettison { good, quantity },
        )
    }

    /// Sends a ship through the wormhole at which it is docked.
    pub fn attempt_warp_jump(&self, ship_id: String) -> (call: Call)
        ensures
            self.calls(
                call,
                Method::Post,
                user_url(self.username@, "/warp-jump"@),
                CallBody::WarpJump { ship_id },
            ),
    {
        self.user_call(
            Method::Post,
            String::from_str("/warp-jump"),
            CallBody::WarpJump { ship_id },
        )
    }
}

} // verus!
