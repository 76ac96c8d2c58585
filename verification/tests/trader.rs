use spacemonger::db::{DbRoute, DbShip};
use spacemonger::errors::ClientError;
use spacemonger::fuel_message::FuelMessageError;
use spacemonger::responses::{FlightPlan, PurchaseOrder};
use spacemonger::shared::{
    Cargo, ErrorMessage, ErrorMessageData, FlightPlanData, Good, Order, Ship,
};
use spacemonger::ship_machines::trader::{
    goods_quantity, pick_route, route_qualifies, TradePolicy, Trader, TraderPhase, TraderState,
};
use spacemonger::ship_machines::voyage::VoyagePhase;
use spacemonger::ship_machines::{Event, MachineType, PollResult, Request, StepError};

fn ship_at(location: Option<&str>, cargo: Vec<Cargo>, space_available: i32) -> Ship {
    Ship {
        id: "ship-1".to_string(),
        location: location.map(|l| l.to_string()),
        cargo,
        space_available,
        ship_type: "JW-MK-I".to_string(),
        class: "MK-I".to_string(),
        max_cargo: 50,
        speed: 1,
        manufacturer: "Jackshaw".to_string(),
        plating: 5,
        weapons: 5,
    }
}

fn fuel(quantity: i32) -> Cargo {
    Cargo { good: Good::Fuel, quantity, total_volume: quantity }
}

fn trader_with(ship: Ship) -> Trader {
    Trader::new("user-1".to_string(), "captain".to_string(), "OE".to_string(), ship, 1_000)
}

fn route(sell_location: &str, profit: i32, purchase_quantity: i32) -> DbRoute {
    DbRoute {
        purchase_location: "L1".to_string(),
        purchase_location_type: "Moon".to_string(),
        sell_location: sell_location.to_string(),
        good: Good::Metals,
        purchase_x: 0,
        purchase_y: 0,
        sell_x: 1,
        sell_y: 0,
        purchase_quantity,
        sell_quantity: 100,
        purchase_price_per_unit: 10,
        sell_price_per_unit: 10 + profit,
        volume_per_unit: 1,
        fuel_required: 1,
        ship_speed: 1,
    }
}

fn plan(destination: &str, fuel_consumed: i32, arrives_at: i64) -> FlightPlan {
    FlightPlan {
        flight_plan: FlightPlanData {
            id: "plan-1".to_string(),
            ship_id: "ship-1".to_string(),
            fuel_consumed,
            fuel_remaining: 0,
            time_remaining_in_seconds: 60,
            created_at: 1_000,
            arrives_at,
            terminated_at: None,
            destination: destination.to_string(),
            departure: "L1".to_string(),
            distance: 10,
        },
    }
}

fn refusal(message: &str) -> Event {
    Event::ClientFailed(ClientError::ApiError(ErrorMessage {
        error: ErrorMessageData { code: 3001, message: message.to_string() },
    }))
}

/// A stand-in for the game server's bookkeeping: what an order does to the
/// ship and to the credits.
fn server_buys(ship: &Ship, credits: i32, good: Good, quantity: i32, price: i32) -> PurchaseOrder {
    let mut after = ship.clone();
    match after.cargo.iter_mut().find(|c| c.good == good) {
        Some(entry) => {
            entry.quantity += quantity;
            entry.total_volume += quantity;
        }
        None => after.cargo.push(Cargo { good, quantity, total_volume: quantity }),
    }
    after.space_available -= quantity;
    let total = quantity * price;
    PurchaseOrder {
        credits: credits - total,
        order: Order { good, quantity, price_per_unit: price, total },
        ship: after,
    }
}

fn server_sells(ship: &Ship, credits: i32, good: Good, quantity: i32, price: i32) -> PurchaseOrder {
    let mut after = ship.clone();
    for entry in after.cargo.iter_mut() {
        if entry.good == good {
            entry.quantity -= quantity;
            entry.total_volume -= quantity;
        }
    }
    after.cargo.retain(|c| c.quantity > 0);
    after.space_available += quantity;
    let total = quantity * price;
    PurchaseOrder {
        credits: credits + total,
        order: Order { good, quantity, price_per_unit: price, total },
        ship: after,
    }
}

fn quantity_of(ship: &Ship, good: Good) -> i32 {
    ship.cargo.iter().filter(|c| c.good == good).map(|c| c.quantity).sum()
}

#[test]
fn new_trader_starts_in_initialize_ship() {
    let trader = trader_with(ship_at(Some("L1"), vec![], 50));
    assert_eq!(trader.state, TraderState::InitializeShip);
    assert_eq!(trader.phase, TraderPhase::Start);
    assert_eq!(trader.arrival_time, 1_000);
    assert_eq!(trader.route, None);
    assert_eq!(trader.flight_plan, None);
    assert_eq!(trader.policy, TradePolicy::standard());
    assert_eq!(trader.get_ship_id(), "ship-1");
}

#[test]
fn standard_policy_bans_the_known_sink() {
    let policy = TradePolicy::standard();
    assert_eq!(policy.excluded_sell_location, "OE-XV-91-2");
    assert_eq!(policy.minimum_purchase_quantity, 500);
}

#[test]
fn ship_under_way_loads_its_flight_plan_and_waits() {
    let mut trader = trader_with(ship_at(None, vec![], 50));
    assert_eq!(
        trader.request(),
        Request::GetActiveFlightPlan { ship_id: "ship-1".to_string() }
    );
    let stored = plan("L2", 3, 9_000).flight_plan;
    let out = trader.step_with(1_000, Event::ActiveFlightPlan(Some(stored.clone())), None);
    assert_eq!(out, Ok(None));
    assert_eq!(trader.state, TraderState::WaitForArrival);
    assert_eq!(trader.arrival_time, 9_000);
    assert_eq!(trader.flight_plan, Some(stored));
}

#[test]
fn ship_under_way_without_a_stored_plan_is_an_error() {
    let mut trader = trader_with(ship_at(None, vec![], 50));
    let before = trader.clone();
    let out = trader.step_with(1_000, Event::ActiveFlightPlan(None), None);
    assert_eq!(out, Err(StepError::NoActiveFlightPlan));
    assert_eq!(trader, before);
}

#[test]
fn waiting_trader_returns_at_once_before_the_arrival() {
    let mut trader = trader_with(ship_at(None, vec![], 50));
    trader
        .step_with(1_000, Event::ActiveFlightPlan(Some(plan("L2", 3, 9_000).flight_plan)), None)
        .unwrap();
    assert_eq!(trader.request(), Request::Nothing);
    let before = trader.clone();
    assert_eq!(trader.step_with(8_999, Event::Tick, None), Ok(None));
    assert_eq!(trader, before);
}

#[test]
fn waiting_trader_lands_at_the_destination_of_its_plan() {
    let mut trader = trader_with(ship_at(None, vec![], 50));
    trader
        .step_with(1_000, Event::ActiveFlightPlan(Some(plan("L2", 3, 9_000).flight_plan)), None)
        .unwrap();
    assert_eq!(trader.step_with(9_000, Event::Tick, None), Ok(None));
    assert_eq!(trader.state, TraderState::PickBestTrade);
    assert_eq!(trader.ship.location, Some("L2".to_string()));
}

#[test]
fn docked_trader_sells_every_cargo_entry_that_holds_goods() {
    let cargo = vec![
        Cargo { good: Good::Metals, quantity: 0, total_volume: 0 },
        Cargo { good: Good::Food, quantity: 4, total_volume: 4 },
        fuel(5),
    ];
    let mut trader = trader_with(ship_at(Some("L1"), cargo, 41));
    let mut credits = 100;
    let mut sold = Vec::new();
    loop {
        match trader.request() {
            Request::CreateSellOrder { user_id, ship_id, good, quantity } => {
                assert_eq!(user_id, "user-1");
                assert_eq!(ship_id, "ship-1");
                sold.push((good, quantity));
                let before = quantity_of(&trader.ship, good);
                let order = server_sells(&trader.ship, credits, good, quantity, 3);
                let total = order.order.total;
                let out = trader.step_with(1_000, Event::Order(order), None);
                assert_eq!(out, Ok(Some(PollResult::UpdateCredits(credits + total))));
                assert_eq!(quantity_of(&trader.ship, good), before - quantity);
                credits += total;
            }
            Request::Nothing => break,
            other => panic!("unexpected request {:?}", other),
        }
    }
    assert_eq!(sold, vec![(Good::Food, 4), (Good::Fuel, 5)]);
    assert_eq!(credits, 100 + 12 + 15);
    assert_eq!(trader.step_with(1_000, Event::Tick, None), Ok(None));
    assert_eq!(trader.state, TraderState::PickBestTrade);
}

#[test]
fn trader_whose_home_is_elsewhere_becomes_a_system_transfer() {
    let mut trader = trader_with(ship_at(Some("OE-PM"), vec![], 50));
    trader.state = TraderState::PickBestTrade;
    assert_eq!(
        trader.request(),
        Request::GetShip { user_id: "user-1".to_string(), ship_id: "ship-1".to_string() }
    );
    let row = DbShip {
        user_id: "user-1".to_string(),
        ship_id: "ship-1".to_string(),
        ship_type: "JW-MK-I".to_string(),
        class: "MK-I".to_string(),
        max_cargo: 50,
        speed: 1,
        manufacturer: "Jackshaw".to_string(),
        plating: 5,
        weapons: 5,
        system: "XV".to_string(),
    };
    let out = trader.step_with(2_000, Event::ShipRow(row), None);
    match out {
        Ok(Some(PollResult::ConvertToNewMachine(MachineType::SystemChange(machine)))) => {
            assert_eq!(machine.system, "XV");
            assert_eq!(machine.ship, trader.ship);
            assert_eq!(machine.user_id, "user-1");
            assert_eq!(machine.arrival_time, 2_000);
        }
        other => panic!("expected a system transfer, got {:?}", other),
    }
}

#[test]
fn trader_at_home_ranks_the_routes() {
    let mut trader = trader_with(ship_at(Some("OE-PM"), vec![], 50));
    trader.state = TraderState::PickBestTrade;
    let row = DbShip {
        user_id: "user-1".to_string(),
        ship_id: "ship-1".to_string(),
        ship_type: "JW-MK-I".to_string(),
        class: "MK-I".to_string(),
        max_cargo: 50,
        speed: 1,
        manufacturer: "Jackshaw".to_string(),
        plating: 5,
        weapons: 5,
        system: "OE".to_string(),
    };
    assert_eq!(trader.step_with(2_000, Event::ShipRow(row), None), Ok(None));
    assert_eq!(trader.phase, TraderPhase::Rank);
    assert_eq!(
        trader.request(),
        Request::GetRoutes { location: "OE-PM".to_string(), ship_speed: 1 }
    );
}

#[test]
fn route_ranking_skips_thin_markets_and_the_banned_sink() {
    // Ranked by score: C (10), D (8), B (5).
    let to_c = route("C", 10, 300);
    let to_d = route("OE-XV-91-2", 8, 600);
    let to_b = route("B", 5, 600);
    let policy = TradePolicy::standard();
    assert!(!route_qualifies(&to_c, &policy));
    assert!(!route_qualifies(&to_d, &policy));
    assert!(route_qualifies(&to_b, &policy));
    let picked = pick_route(vec![to_c.clone(), to_d.clone(), to_b.clone()], &policy);
    assert_eq!(picked, Some(to_b.clone()));

    let mut trader = trader_with(ship_at(Some("L1"), vec![], 50));
    trader.state = TraderState::PickBestTrade;
    trader.phase = TraderPhase::Rank;
    let out = trader.step_with(2_000, Event::Routes(vec![to_c, to_d, to_b.clone()]), None);
    assert_eq!(out, Ok(None));
    assert_eq!(trader.state, TraderState::ExecuteTrade);
    assert_eq!(trader.route, Some(to_b));
}

#[test]
fn route_needs_more_than_the_minimum_and_a_positive_score() {
    let policy = TradePolicy::standard();
    assert!(!route_qualifies(&route("B", 5, 500), &policy));
    assert!(route_qualifies(&route("B", 5, 501), &policy));
    assert!(!route_qualifies(&route("B", 0, 600), &policy));
    assert!(!route_qualifies(&route("B", -5, 600), &policy));
}

#[test]
fn trader_without_a_route_moves_to_a_random_location() {
    let mut trader = trader_with(ship_at(Some("L1"), vec![], 50));
    trader.state = TraderState::PickBestTrade;
    trader.phase = TraderPhase::Rank;
    let out = trader.step_with(2_000, Event::Routes(vec![route("C", 10, 300)]), None);
    assert_eq!(out, Ok(None));
    assert_eq!(trader.state, TraderState::MoveToRandomLocation);
    assert_eq!(trader.request(), Request::GetSystemLocations { location: "L1".to_string() });
}

#[test]
fn random_pick_of_the_current_location_is_tried_again() {
    let mut trader = trader_with(ship_at(Some("L1"), vec![], 50));
    trader.state = TraderState::MoveToRandomLocation;
    let before = trader.clone();
    let places = vec!["L1".to_string(), "L2".to_string()];
    let out = trader.step_with(
        2_000,
        Event::SystemLocations(places.clone()),
        Some("L1".to_string()),
    );
    assert_eq!(out, Ok(None));
    assert_eq!(trader, before);
    let out = trader.step_with(2_000, Event::SystemLocations(places), Some("L2".to_string()));
    assert_eq!(out, Ok(None));
    assert_eq!(trader.destination, Some("L2".to_string()));
    assert_eq!(trader.phase, TraderPhase::Voyage(VoyagePhase::LookUpFuel));
}

#[test]
fn poll_picks_one_of_the_listed_locations() {
    for _ in 0..40 {
        let mut trader = trader_with(ship_at(Some("L1"), vec![], 50));
        trader.state = TraderState::MoveToRandomLocation;
        let places = vec!["L1".to_string(), "L2".to_string(), "L3".to_string()];
        assert_eq!(trader.poll(Event::SystemLocations(places)), Ok(None));
        match &trader.destination {
            None => assert_eq!(trader.phase, TraderPhase::Start),
            Some(place) => {
                assert!(place == "L2" || place == "L3");
                assert_eq!(trader.phase, TraderPhase::Voyage(VoyagePhase::LookUpFuel));
            }
        }
    }
}

#[test]
fn poll_with_no_location_to_pick_stays() {
    let mut trader = trader_with(ship_at(Some("L1"), vec![], 50));
    trader.state = TraderState::MoveToRandomLocation;
    let before = trader.clone();
    assert_eq!(trader.poll(Event::SystemLocations(vec![])), Ok(None));
    assert_eq!(trader, before);
}

/// Drives a trader that is about to execute a trade from `L1` to `L2` and
/// returns the requests it made. `stored_fuel` is what the store knows of
/// the trip; where it knows nothing the probe reports `probe_shortfall`.
fn execute_trade(
    cargo: Vec<Cargo>,
    space_available: i32,
    stored_fuel: Option<i32>,
    probe_shortfall: i32,
) -> (Trader, Vec<Request>) {
    let mut trader = trader_with(ship_at(Some("L1"), cargo, space_available));
    trader.state = TraderState::ExecuteTrade;
    trader.phase = TraderPhase::Voyage(VoyagePhase::LookUpFuel);
    trader.route = Some(route("L2", 5, 600));
    let mut credits = 10_000;
    let mut requests = Vec::new();
    for _ in 0..20 {
        let request = trader.request();
        requests.push(request.clone());
        let event = match request {
            Request::GetFuelRequired { origin, destination, ship_type } => {
                assert_eq!(origin, "L1");
                assert_eq!(destination, "L2");
                assert_eq!(ship_type, "JW-MK-I");
                Event::FuelRequired(stored_fuel)
            }
            Request::ProbeFlightPlan { ship_id, destination } => {
                assert_eq!(ship_id, "ship-1");
                assert_eq!(destination, "L2");
                refusal(&format!(
                    "Insufficient fuel. You require {} more FUEL",
                    probe_shortfall
                ))
            }
            Request::CreatePurchaseOrder { good, quantity, .. } => {
                let before = quantity_of(&trader.ship, good);
                let order = server_buys(&trader.ship, credits, good, quantity, 2);
                let total = order.order.total;
                let out = trader.step_with(2_000, Event::Order(order), None);
                assert_eq!(out, Ok(Some(PollResult::UpdateCredits(credits - total))));
                assert_eq!(quantity_of(&trader.ship, good), before + quantity);
                credits -= total;
                continue;
            }
            Request::CreateFlightPlan { destination, .. } => {
                assert_eq!(destination, "L2");
                let before = quantity_of(&trader.ship, Good::Fuel);
                let out = trader.step_with(2_000, Event::FlightPlan(plan("L2", 4, 60_000)), None);
                assert_eq!(out, Ok(None));
                assert_eq!(quantity_of(&trader.ship, Good::Fuel), before - 4);
                break;
            }
            Request::Nothing => break,
            other => panic!("unexpected request {:?}", other),
        };
        trader.step_with(2_000, event, None).unwrap();
    }
    (trader, requests)
}

fn fuel_orders(requests: &[Request]) -> Vec<i32> {
    requests
        .iter()
        .filter_map(|r| match r {
            Request::CreatePurchaseOrder { good: Good::Fuel, quantity, .. } => Some(*quantity),
            _ => None,
        })
        .collect()
}

fn flight_plans(requests: &[Request]) -> usize {
    requests.iter().filter(|r| matches!(r, Request::CreateFlightPlan { .. })).count()
}

#[test]
fn trader_buys_fuel_iff_needed() {
    // The store knows nothing of the trip; the probe says 7 more are needed.
    let (trader, requests) = execute_trade(vec![fuel(5)], 20, None, 7);
    assert_eq!(fuel_orders(&requests), vec![7]);
    assert_eq!(flight_plans(&requests), 1);
    assert_eq!(trader.state, TraderState::WaitForArrival);
    assert_eq!(trader.ship.location, None);
    assert_eq!(trader.arrival_time, 60_000);
    // The order of events: look up, probe, buy fuel, buy goods, depart.
    assert!(matches!(requests[0], Request::GetFuelRequired { .. }));
    assert!(matches!(requests[1], Request::ProbeFlightPlan { .. }));
    assert!(matches!(requests[2], Request::CreatePurchaseOrder { good: Good::Fuel, .. }));
    assert!(matches!(requests[3], Request::CreatePurchaseOrder { good: Good::Metals, .. }));
    assert!(matches!(requests[4], Request::CreateFlightPlan { .. }));
    assert_eq!(requests.len(), 5);
}

#[test]
fn fuel_order_is_capped_by_the_room_in_the_hold() {
    let (mut trader, requests) = execute_trade(vec![fuel(5)], 3, None, 7);
    assert_eq!(fuel_orders(&requests), vec![3]);
    // The hold is full of fuel now: nothing can be bought for the trade, and
    // the trader looks for another.
    assert_eq!(requests.last(), Some(&Request::Nothing));
    assert_eq!(trader.step_with(2_000, Event::Tick, None), Ok(None));
    assert_eq!(trader.state, TraderState::PickBestTrade);
}

#[test]
fn trader_with_enough_fuel_buys_none() {
    let (_, requests) = execute_trade(vec![fuel(5)], 20, Some(5), 0);
    assert_eq!(fuel_orders(&requests), Vec::<i32>::new());
    assert_eq!(flight_plans(&requests), 1);
    let (_, requests) = execute_trade(vec![fuel(5)], 20, Some(3), 0);
    assert_eq!(fuel_orders(&requests), Vec::<i32>::new());
    let (_, requests) = execute_trade(vec![fuel(5)], 20, None, 0);
    assert_eq!(fuel_orders(&requests), Vec::<i32>::new());
}

#[test]
fn trader_buys_the_difference_to_the_stored_fuel() {
    let (_, requests) = execute_trade(vec![fuel(5)], 20, Some(12), 0);
    assert_eq!(fuel_orders(&requests), vec![7]);
}

#[test]
fn hold_is_filled_with_the_goods_of_the_route() {
    let (_, requests) = execute_trade(vec![fuel(5)], 20, Some(5), 0);
    let goods: Vec<i32> = requests
        .iter()
        .filter_map(|r| match r {
            Request::CreatePurchaseOrder { good: Good::Metals, quantity, .. } => Some(*quantity),
            _ => None,
        })
        .collect();
    assert_eq!(goods, vec![20]);
    assert_eq!(goods_quantity(20, 3), 6);
    assert_eq!(goods_quantity(20, 0), 0);
    assert_eq!(goods_quantity(20, -2), 0);
    assert_eq!(goods_quantity(0, 3), 0);
    assert_eq!(goods_quantity(-5, 3), 0);
}

#[test]
fn failed_purchase_sends_the_trader_back_to_pick_a_trade() {
    let mut trader = trader_with(ship_at(Some("L1"), vec![], 20));
    trader.state = TraderState::ExecuteTrade;
    trader.phase = TraderPhase::BuyGoods;
    trader.route = Some(route("L2", 5, 600));
    let out = trader.step_with(2_000, refusal("Good is not listed in planet marketplace."), None);
    assert_eq!(out, Ok(None));
    assert_eq!(trader.state, TraderState::PickBestTrade);
    assert_eq!(trader.phase, TraderPhase::Start);
}

#[test]
fn trade_without_a_route_goes_back_to_pick_a_trade() {
    let mut trader = trader_with(ship_at(Some("L1"), vec![], 20));
    trader.state = TraderState::ExecuteTrade;
    assert_eq!(trader.request(), Request::Nothing);
    assert_eq!(trader.step_with(2_000, Event::Tick, None), Ok(None));
    assert_eq!(trader.state, TraderState::PickBestTrade);
}

#[test]
fn accepted_probe_is_a_logic_error() {
    let mut trader = trader_with(ship_at(Some("L1"), vec![], 20));
    trader.state = TraderState::ExecuteTrade;
    trader.phase = TraderPhase::Voyage(VoyagePhase::ProbeFuel);
    trader.route = Some(route("L2", 5, 600));
    let before = trader.clone();
    let out = trader.step_with(2_000, Event::FlightPlan(plan("L2", 4, 60_000)), None);
    assert_eq!(out, Err(StepError::ProbeSucceeded));
    assert_eq!(trader, before);
}

#[test]
fn unreadable_shortfall_is_reported() {
    let mut trader = trader_with(ship_at(Some("L1"), vec![], 20));
    trader.state = TraderState::ExecuteTrade;
    trader.phase = TraderPhase::Voyage(VoyagePhase::ProbeFuel);
    trader.route = Some(route("L2", 5, 600));
    let out = trader.step_with(2_000, refusal("You require 99999999999 more FUEL"), None);
    assert_eq!(out, Err(StepError::FuelMessage(FuelMessageError::Unreadable)));
}

#[test]
fn gateway_errors_are_passed_on_and_leave_the_trader_as_it_was() {
    let mut trader = trader_with(ship_at(Some("L1"), vec![fuel(5)], 20));
    let before = trader.clone();
    let out = trader.step_with(2_000, Event::ClientFailed(ClientError::Unauthorized), None);
    assert_eq!(out, Err(StepError::Client(ClientError::Unauthorized)));
    assert_eq!(trader, before);
    let out = trader.step_with(2_000, Event::PersistenceFailed("pool timed out".to_string()), None);
    assert_eq!(out, Err(StepError::Persistence("pool timed out".to_string())));
    assert_eq!(trader, before);
    let out = trader.step_with(2_000, Event::Persisted, None);
    assert_eq!(out, Err(StepError::UnexpectedEvent));
    assert_eq!(trader, before);
}

#[test]
fn order_of_no_positive_quantity_is_refused() {
    let mut trader = trader_with(ship_at(Some("L1"), vec![], 0));
    trader.state = TraderState::MoveToRandomLocation;
    trader.destination = Some("L2".to_string());
    trader.phase = TraderPhase::Voyage(VoyagePhase::BuyFuel(7));
    assert_eq!(trader.request(), Request::Nothing);
    assert_eq!(trader.step_with(2_000, Event::Tick, None), Err(StepError::RefusedEmptyOrder));
}

#[test]
fn reset_clears_the_cargo_and_starts_over() {
    let mut trader = trader_with(ship_at(Some("L1"), vec![fuel(5)], 20));
    trader.state = TraderState::ExecuteTrade;
    trader.phase = TraderPhase::BuyGoods;
    trader.reset();
    assert_eq!(trader.ship.cargo, vec![]);
    assert_eq!(trader.state, TraderState::InitializeShip);
    assert_eq!(trader.phase, TraderPhase::Start);
    assert_eq!(trader.ship.location, Some("L1".to_string()));
}

#[test]
fn trader_poll_reads_the_system_clock() {
    let mut trader = trader_with(ship_at(None, vec![], 50));
    trader
        .step_with(1_000, Event::ActiveFlightPlan(Some(plan("L2", 3, i64::MAX).flight_plan)), None)
        .unwrap();
    assert_eq!(trader.poll(Event::Tick), Ok(None));
    assert_eq!(trader.state, TraderState::WaitForArrival);
    trader.arrival_time = 9_000;
    assert_eq!(trader.poll(Event::Tick), Ok(None));
    assert_eq!(trader.state, TraderState::PickBestTrade);
    assert_eq!(trader.ship.location, Some("L2".to_string()));
}
