use spacemonger::client::throttle::{
    execute_request, failure, parse_response, retry_after_millis, Attempt, Verdict,
    RETRY_AFTER_LIMIT, SERVER_ERROR_BACKOFF,
};
use spacemonger::client::{claim_username, get_game_status, Call, CallBody, Client, Method};
use spacemonger::errors::ClientError;
use spacemonger::requests::{
    FlightPlanRequest, PurchaseOrderRequest, PurchaseShipRequest, RequestNewLoanRequest,
    SellOrderRequest,
};
use spacemonger::responses::GameStatus;
use spacemonger::shared::{ErrorMessage, ErrorMessageData, Good, LoanType, LocationType};

fn client() -> Client {
    Client::new("captain".to_string(), "secret-token".to_string())
}

fn envelope(code: i32, message: &str) -> ErrorMessage {
    ErrorMessage { error: ErrorMessageData { code, message: message.to_string() } }
}

fn assert_call(call: &Call, method: Method, url: &str, body: CallBody) {
    assert_eq!(call.method, method);
    assert_eq!(call.url, url);
    assert_eq!(call.type_filter, None);
    assert_eq!(call.body, body);
    assert_eq!(call.authorization, Some("Bearer secret-token".to_string()));
}

#[test]
fn success_delivers_the_body() {
    for status in [200, 201, 204, 299] {
        assert_eq!(execute_request(status, Attempt::First), Verdict::Deliver);
        assert_eq!(execute_request(status, Attempt::Retry), Verdict::Deliver);
    }
}

#[test]
fn rate_limit_is_retried_once() {
    assert_eq!(execute_request(429, Attempt::First), Verdict::RetryAfterHeader);
    assert_eq!(execute_request(429, Attempt::Retry), Verdict::TooManyRetries);
    assert_eq!(
        failure(Verdict::TooManyRetries, "throttled".to_string()),
        Some(ClientError::TooManyRetries)
    );
    // The header asks for a second and a half.
    assert_eq!(retry_after_millis("1.5"), Some(1_500));
    // The retry that succeeds delivers the parsed payload.
    assert_eq!(execute_request(200, Attempt::Retry), Verdict::Deliver);
    let parsed = parse_response(
        true,
        Some(GameStatus { status: "spacetraders is currently online".to_string() }),
        None,
        "{\"status\":\"spacetraders is currently online\"}".to_string(),
    );
    assert_eq!(parsed, Ok(GameStatus { status: "spacetraders is currently online".to_string() }));
}

#[test]
fn server_error_is_retried_once_after_two_seconds() {
    assert_eq!(SERVER_ERROR_BACKOFF, 2_000);
    assert_eq!(execute_request(500, Attempt::First), Verdict::RetryAfter(2_000));
    assert_eq!(execute_request(500, Attempt::Retry), Verdict::ServerError);
    assert_eq!(
        failure(Verdict::ServerError, "internal server error".to_string()),
        Some(ClientError::Http("internal server error".to_string()))
    );
}

#[test]
fn refused_token_and_maintenance_are_told_apart() {
    for attempt in [Attempt::First, Attempt::Retry] {
        assert_eq!(execute_request(401, attempt), Verdict::Unauthorized);
        assert_eq!(execute_request(503, attempt), Verdict::ServiceUnavailable);
    }
    assert_eq!(failure(Verdict::Unauthorized, String::new()), Some(ClientError::Unauthorized));
    assert_eq!(
        failure(Verdict::ServiceUnavailable, String::new()),
        Some(ClientError::ServiceUnavailable)
    );
    assert!(ClientError::Unauthorized.is_fatal());
    assert!(ClientError::ServiceUnavailable.is_fatal());
    assert!(!ClientError::TooManyRetries.is_fatal());
    assert!(!ClientError::Http("x".to_string()).is_fatal());
    assert!(!ClientError::JsonParse("x".to_string()).is_fatal());
    assert!(!ClientError::ApiError(envelope(2001, "x")).is_fatal());
}

#[test]
fn other_statuses_are_read_for_the_error_envelope() {
    for status in [100, 199, 300, 302, 400, 404, 409, 422, 430, 501, 502, 504, 599] {
        assert_eq!(execute_request(status, Attempt::First), Verdict::ReadEnvelope);
        assert_eq!(execute_request(status, Attempt::Retry), Verdict::ReadEnvelope);
    }
    assert_eq!(failure(Verdict::ReadEnvelope, String::new()), None);
    assert_eq!(failure(Verdict::Deliver, String::new()), None);
    assert_eq!(failure(Verdict::RetryAfterHeader, String::new()), None);
    assert_eq!(failure(Verdict::RetryAfter(2_000), String::new()), None);
}

#[test]
fn no_status_asks_for_a_second_retry() {
    for status in 0..=u16::MAX {
        let verdict = execute_request(status, Attempt::Retry);
        assert!(!matches!(verdict, Verdict::RetryAfterHeader | Verdict::RetryAfter(_)));
    }
}

#[test]
fn body_is_the_value_or_the_envelope_or_unreadable() {
    let text = "the body".to_string();
    assert_eq!(parse_response(true, Some(7), None, text.clone()), Ok(7));
    assert_eq!(parse_response(true, Some(7), Some(envelope(1, "e")), text.clone()), Ok(7));
    assert_eq!(
        parse_response::<i32>(true, None, Some(envelope(2006, "Good quantity is not available")), text.clone()),
        Err(ClientError::ApiError(envelope(2006, "Good quantity is not available")))
    );
    assert_eq!(
        parse_response::<i32>(true, None, None, text.clone()),
        Err(ClientError::JsonParse(text.clone()))
    );
    assert_eq!(
        parse_response::<i32>(false, None, Some(envelope(404, "missing")), text.clone()),
        Err(ClientError::ApiError(envelope(404, "missing")))
    );
    assert_eq!(
        parse_response::<i32>(false, None, None, text.clone()),
        Err(ClientError::Http(text.clone()))
    );
    assert_eq!(
        parse_response(false, Some(7), None, text.clone()),
        Err(ClientError::Http(text))
    );
}

#[test]
fn calls_without_an_account_carry_no_token() {
    let call = claim_username(&"newcomer".to_string());
    assert_eq!(call.method, Method::Post);
    assert_eq!(call.url, "https://api.spacetraders.io/users/newcomer/token");
    assert_eq!(call.body, CallBody::Filler);
    assert_eq!(call.authorization, None);
    let call = get_game_status();
    assert_eq!(call.method, Method::Get);
    assert_eq!(call.url, "https://api.spacetraders.io/game/status");
    assert_eq!(call.body, CallBody::Empty);
    assert_eq!(call.authorization, None);
}

#[test]
fn calls_of_an_account_carry_its_token() {
    let c = client();
    assert_call(
        &c.get_flight_plan(&"fp-7".to_string()),
        Method::Get,
        "https://api.spacetraders.io/users/captain/flight-plans/fp-7",
        CallBody::Empty,
    );
    assert_call(
        &c.create_flight_plan("ship-1".to_string(), "OE-PM".to_string()),
        Method::Post,
        "https://api.spacetraders.io/users/captain/flight-plans",
        CallBody::FlightPlan(FlightPlanRequest {
            ship_id: "ship-1".to_string(),
            destination: "OE-PM".to_string(),
        }),
    );
    assert_call(
        &c.get_available_loans(),
        Method::Get,
        "https://api.spacetraders.io/game/loans",
        CallBody::Empty,
    );
    assert_call(
        &c.get_your_loans(),
        Method::Get,
        "https://api.spacetraders.io/users/captain/loans",
        CallBody::Empty,
    );
    assert_call(
        &c.pay_off_loan(&"loan-3".to_string()),
        Method::Put,
        "https://api.spacetraders.io/users/captain/loans/loan-3",
        CallBody::Empty,
    );
    assert_call(
        &c.request_new_loan(LoanType::Startup),
        Method::Post,
        "https://api.spacetraders.io/users/captain/loans",
        CallBody::NewLoan(RequestNewLoanRequest { loan_type: LoanType::Startup }),
    );
    assert_call(
        &c.get_location_info(&"OE-PM".to_string()),
        Method::Get,
        "https://api.spacetraders.io/game/locations/OE-PM",
        CallBody::Empty,
    );
    assert_call(
        &c.get_location_marketplace(&"OE-PM".to_string()),
        Method::Get,
        "https://api.spacetraders.io/game/locations/OE-PM/marketplace",
        CallBody::Empty,
    );
    assert_call(
        &c.create_purchase_order("ship-1".to_string(), Good::Fuel, 7),
        Method::Post,
        "https://api.spacetraders.io/users/captain/purchase-orders",
        CallBody::PurchaseOrder(PurchaseOrderRequest {
            ship_id: "ship-1".to_string(),
            good: Good::Fuel,
            quantity: 7,
        }),
    );
    assert_call(
        &c.create_sell_order("ship-1".to_string(), Good::Metals, 12),
        Method::Post,
        "https://api.spacetraders.io/users/captain/sell-orders",
        CallBody::SellOrder(SellOrderRequest {
            ship_id: "ship-1".to_string(),
            good: Good::Metals,
            quantity: 12,
        }),
    );
    assert_call(
        &c.purchase_ship("OE-PM".to_string(), "JW-MK-I".to_string()),
        Method::Post,
        "https://api.spacetraders.io/users/captain/ships",
        CallBody::PurchaseShip(PurchaseShipRequest {
            location: "OE-PM".to_string(),
            ship_type: "JW-MK-I".to_string(),
        }),
    );
    assert_call(
        &c.get_ships_for_sale(),
        Method::Get,
        "https://api.spacetraders.io/game/ships",
        CallBody::Empty,
    );
    assert_call(
        &c.get_your_ships(),
        Method::Get,
        "https://api.spacetraders.io/users/captain/ships",
        CallBody::Empty,
    );
    assert_call(
        &c.get_my_ship(&"ship-1".to_string()),
        Method::Get,
        "https://api.spacetraders.io/users/captain/ships/ship-1",
        CallBody::Empty,
    );
    assert_call(
        &c.get_systems_info(),
        Method::Get,
        "https://api.spacetraders.io/game/systems",
        CallBody::Empty,
    );
    assert_call(
        &c.get_user_info(),
        Method::Get,
        "https://api.spacetraders.io/users/captain",
        CallBody::Empty,
    );
    assert_call(
        &c.jettison_cargo(&"ship-1".to_string(), Good::Food, 3),
        Method::Put,
        "https://api.spacetraders.io/users/captain/ships/ship-1/jettison",
        CallBody::Jettison { good: Good::Food, quantity: 3 },
    );
    assert_call(
        &c.attempt_warp_jump("ship-1".to_string()),
        Method::Post,
        "https://api.spacetraders.io/users/captain/warp-jump",
        CallBody::WarpJump { ship_id: "ship-1".to_string() },
    );
}

#[test]
fn locations_of_a_system_can_be_asked_for_by_type() {
    let c = client();
    let all = c.get_locations_in_system(&"OE".to_string(), None);
    assert_eq!(all.method, Method::Get);
    assert_eq!(all.url, "https://api.spacetraders.io/game/systems/OE/locations");
    assert_eq!(all.type_filter, None);
    assert_eq!(all.authorization, Some("Bearer secret-token".to_string()));
    let moons = c.get_locations_in_system(&"OE".to_string(), Some(LocationType::Moon));
    assert_eq!(moons.url, all.url);
    assert_eq!(moons.type_filter, Some(LocationType::Moon));
    assert_eq!(moons.body, CallBody::Empty);
}

#[test]
fn retry_after_is_read_in_milliseconds_rounded_up() {
    assert_eq!(retry_after_millis("0"), Some(0));
    assert_eq!(retry_after_millis("2"), Some(2_000));
    assert_eq!(retry_after_millis("1.5"), Some(1_500));
    assert_eq!(retry_after_millis("1."), Some(1_000));
    assert_eq!(retry_after_millis("0.25"), Some(250));
    assert_eq!(retry_after_millis("0.001"), Some(1));
    assert_eq!(retry_after_millis("0.0004"), Some(1));
    assert_eq!(retry_after_millis("0.0000"), Some(0));
    assert_eq!(retry_after_millis("1.2345"), Some(1_235));
    assert_eq!(retry_after_millis("1.2340"), Some(1_234));
    assert_eq!(retry_after_millis("1.999000001"), Some(2_000));
    assert_eq!(retry_after_millis("007.5"), Some(7_500));
    assert_eq!(retry_after_millis("999999999.9991"), Some(1_000_000_000_000));
}

#[test]
fn malformed_retry_after_asks_for_nothing() {
    assert_eq!(RETRY_AFTER_LIMIT, 1_000_000_000);
    for header in ["", ".", ".5", "abc", "1e3", "-1", "+1", "1.5s", "1..5", "1.5.2", " 1", "1 ",
        "1,5", "1000000000", "99999999999999999999999999", "1.x", "\u{0663}"]
    {
        assert_eq!(retry_after_millis(header), None, "{:?}", header);
    }
}
