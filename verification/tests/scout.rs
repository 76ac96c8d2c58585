use spacemonger::errors::ClientError;
use spacemonger::responses::{FlightPlan, PurchaseOrder};
use spacemonger::shared::{Cargo, FlightPlanData, Good, MarketplaceData, Order, Ship};
use spacemonger::ship_machines::scout::{Scout, ScoutState, HARVEST_INTERVAL};
use spacemonger::ship_machines::voyage::VoyagePhase;
use spacemonger::ship_machines::{Event, PollResult, Request, StepError};

fn scout_ship(location: Option<&str>, cargo: Vec<Cargo>) -> Ship {
    Ship {
        id: "scout-ship".to_string(),
        location: location.map(|l| l.to_string()),
        cargo,
        space_available: 30,
        ship_type: "GR-MK-I".to_string(),
        class: "MK-I".to_string(),
        max_cargo: 50,
        speed: 2,
        manufacturer: "Gravager".to_string(),
        plating: 10,
        weapons: 5,
    }
}

fn scout_at(location: Option<&str>, cargo: Vec<Cargo>) -> Scout {
    Scout::new(
        "user-9".to_string(),
        "base-scout-OE-PM".to_string(),
        "OE".to_string(),
        "OE-PM".to_string(),
        scout_ship(location, cargo),
        5_000,
    )
}

fn datum(symbol: Good, price: i32) -> MarketplaceData {
    MarketplaceData {
        quantity_available: 700,
        price_per_unit: price,
        purchase_price_per_unit: price + 1,
        sell_price_per_unit: price - 1,
        volume_per_unit: 1,
        symbol,
    }
}

fn flight(destination: &str, fuel_consumed: i32, arrives_at: i64) -> FlightPlan {
    FlightPlan {
        flight_plan: FlightPlanData {
            id: "fp".to_string(),
            ship_id: "scout-ship".to_string(),
            fuel_consumed,
            fuel_remaining: 1,
            time_remaining_in_seconds: 30,
            created_at: 5_000,
            arrives_at,
            terminated_at: None,
            destination: destination.to_string(),
            departure: "OE-CR".to_string(),
            distance: 12,
        },
    }
}

#[test]
fn new_scout_starts_in_initialize_ship() {
    let scout = scout_at(Some("OE-PM"), vec![]);
    assert_eq!(scout.state, ScoutState::InitializeShip);
    assert_eq!(scout.arrival_time, 5_000);
    assert_eq!(scout.next_harvest_time, 5_000);
    assert_eq!(scout.harvest, None);
    assert_eq!(scout.get_ship_id(), "scout-ship");
}

#[test]
fn scout_on_station_harvests_and_rests_three_minutes() {
    let mut scout = scout_at(Some("OE-PM"), vec![]);
    assert_eq!(scout.request(), Request::Nothing);
    assert_eq!(scout.step(5_000, Event::Tick), Ok(None));
    assert_eq!(scout.state, ScoutState::CheckForCorrectLocation);
    assert_eq!(scout.step(5_000, Event::Tick), Ok(None));
    assert_eq!(scout.state, ScoutState::HarvestMarketData);
    assert_eq!(
        scout.request(),
        Request::GetLocationMarketplace { location: "OE-PM".to_string() }
    );
    let market = vec![datum(Good::Fuel, 3), datum(Good::Metals, 8)];
    assert_eq!(scout.step(5_100, Event::Marketplace(market.clone())), Ok(None));
    assert_eq!(
        scout.request(),
        Request::PersistMarketData { location: "OE-PM".to_string(), datum: market[0] }
    );
    assert_eq!(scout.step(5_200, Event::Persisted), Ok(None));
    assert_eq!(scout.state, ScoutState::HarvestMarketData);
    assert_eq!(
        scout.request(),
        Request::PersistMarketData { location: "OE-PM".to_string(), datum: market[1] }
    );
    assert_eq!(scout.step(5_300, Event::Persisted), Ok(None));
    assert_eq!(scout.state, ScoutState::Wait);
    assert_eq!(scout.harvest, None);
    assert_eq!(HARVEST_INTERVAL, 180_000);
    assert_eq!(scout.next_harvest_time, 5_300 + 180_000);
}

#[test]
fn resting_scout_harvests_again_when_the_time_has_come() {
    let mut scout = scout_at(Some("OE-PM"), vec![]);
    scout.state = ScoutState::Wait;
    scout.next_harvest_time = 200_000;
    assert_eq!(scout.request(), Request::Nothing);
    assert_eq!(scout.step(199_999, Event::Tick), Ok(None));
    assert_eq!(scout.state, ScoutState::Wait);
    assert_eq!(scout.step(200_000, Event::Tick), Ok(None));
    assert_eq!(scout.state, ScoutState::HarvestMarketData);
}

#[test]
fn empty_marketplace_sends_the_scout_to_rest() {
    let mut scout = scout_at(Some("OE-PM"), vec![]);
    scout.state = ScoutState::HarvestMarketData;
    assert_eq!(scout.step(7_000, Event::Marketplace(vec![])), Ok(None));
    assert_eq!(scout.state, ScoutState::Wait);
    assert_eq!(scout.next_harvest_time, 187_000);
}

#[test]
fn harvest_time_saturates_at_the_end_of_the_clock() {
    let mut scout = scout_at(Some("OE-PM"), vec![]);
    scout.state = ScoutState::HarvestMarketData;
    assert_eq!(scout.step(i64::MAX - 5, Event::Marketplace(vec![])), Ok(None));
    assert_eq!(scout.next_harvest_time, i64::MAX);
}

#[test]
fn scout_off_station_flies_to_its_station() {
    let mut scout = scout_at(Some("OE-CR"), vec![Cargo { good: Good::Fuel, quantity: 2, total_volume: 2 }]);
    // The docked scout sells what it holds first.
    assert_eq!(
        scout.request(),
        Request::CreateSellOrder {
            user_id: "user-9".to_string(),
            ship_id: "scout-ship".to_string(),
            good: Good::Fuel,
            quantity: 2,
        }
    );
    let mut emptied = scout.ship.clone();
    emptied.cargo.clear();
    emptied.space_available = 32;
    let order = PurchaseOrder {
        credits: 406,
        order: Order { good: Good::Fuel, quantity: 2, price_per_unit: 3, total: 6 },
        ship: emptied,
    };
    assert_eq!(scout.step(5_000, Event::Order(order)), Ok(Some(PollResult::UpdateCredits(406))));
    assert_eq!(scout.step(5_000, Event::Tick), Ok(None));
    assert_eq!(scout.state, ScoutState::CheckForCorrectLocation);
    assert_eq!(scout.step(5_000, Event::Tick), Ok(None));
    assert_eq!(scout.state, ScoutState::MoveToLocation);
    assert_eq!(
        scout.request(),
        Request::GetFuelRequired {
            origin: "OE-CR".to_string(),
            destination: "OE-PM".to_string(),
            ship_type: "GR-MK-I".to_string(),
        }
    );
    assert_eq!(scout.step(5_000, Event::FuelRequired(Some(4))), Ok(None));
    assert_eq!(scout.voyage, VoyagePhase::BuyFuel(4));
    assert_eq!(
        scout.request(),
        Request::CreatePurchaseOrder {
            user_id: "user-9".to_string(),
            ship_id: "scout-ship".to_string(),
            good: Good::Fuel,
            quantity: 4,
        }
    );
    let mut fuelled = scout.ship.clone();
    fuelled.cargo.push(Cargo { good: Good::Fuel, quantity: 4, total_volume: 4 });
    fuelled.space_available = 28;
    let order = PurchaseOrder {
        credits: 394,
        order: Order { good: Good::Fuel, quantity: 4, price_per_unit: 3, total: 12 },
        ship: fuelled,
    };
    assert_eq!(scout.step(5_000, Event::Order(order)), Ok(Some(PollResult::UpdateCredits(394))));
    assert_eq!(
        scout.request(),
        Request::CreateFlightPlan {
            user_id: "user-9".to_string(),
            ship_id: "scout-ship".to_string(),
            destination: "OE-PM".to_string(),
        }
    );
    assert_eq!(scout.step(5_000, Event::FlightPlan(flight("OE-PM", 4, 35_000))), Ok(None));
    assert_eq!(scout.state, ScoutState::WaitForArrival);
    assert_eq!(scout.ship.location, None);
    assert_eq!(scout.ship.cargo, vec![Cargo { good: Good::Fuel, quantity: 0, total_volume: 4 }]);
    assert_eq!(scout.arrival_time, 35_000);
    // Nothing happens before the arrival.
    assert_eq!(scout.step(34_999, Event::Tick), Ok(None));
    assert_eq!(scout.state, ScoutState::WaitForArrival);
    assert_eq!(scout.step(35_000, Event::Tick), Ok(None));
    assert_eq!(scout.state, ScoutState::CheckForCorrectLocation);
    assert_eq!(scout.ship.location, Some("OE-PM".to_string()));
    assert_eq!(scout.step(35_000, Event::Tick), Ok(None));
    assert_eq!(scout.state, ScoutState::HarvestMarketData);
}

#[test]
fn scout_under_way_waits_for_its_stored_plan() {
    let mut scout = scout_at(None, vec![]);
    assert_eq!(
        scout.request(),
        Request::GetActiveFlightPlan { ship_id: "scout-ship".to_string() }
    );
    let stored = flight("OE-PM", 4, 35_000).flight_plan;
    assert_eq!(scout.step(5_000, Event::ActiveFlightPlan(Some(stored))), Ok(None));
    assert_eq!(scout.state, ScoutState::WaitForArrival);
    assert_eq!(scout.arrival_time, 35_000);
    let mut lost = scout_at(None, vec![]);
    assert_eq!(
        lost.step(5_000, Event::ActiveFlightPlan(None)),
        Err(StepError::NoActiveFlightPlan)
    );
}

#[test]
fn store_failure_during_the_harvest_is_passed_on() {
    let mut scout = scout_at(Some("OE-PM"), vec![]);
    scout.state = ScoutState::HarvestMarketData;
    scout.harvest = Some(vec![datum(Good::Food, 5)]);
    let before = scout.clone();
    assert_eq!(
        scout.step(5_000, Event::PersistenceFailed("disk full".to_string())),
        Err(StepError::Persistence("disk full".to_string()))
    );
    assert_eq!(scout, before);
    assert_eq!(
        scout.step(5_000, Event::ClientFailed(ClientError::ServiceUnavailable)),
        Err(StepError::Client(ClientError::ServiceUnavailable))
    );
}

#[test]
fn scout_reset_clears_the_cargo_and_starts_over() {
    let mut scout = scout_at(Some("OE-PM"), vec![Cargo { good: Good::Food, quantity: 1, total_volume: 1 }]);
    scout.state = ScoutState::Wait;
    scout.reset();
    assert_eq!(scout.state, ScoutState::InitializeShip);
    assert!(scout.ship.cargo.is_empty());
}

#[test]
fn poll_reads_the_system_clock() {
    let mut due = scout_at(Some("OE-PM"), vec![]);
    due.state = ScoutState::Wait;
    due.next_harvest_time = 0;
    assert_eq!(due.poll(Event::Tick), Ok(None));
    assert_eq!(due.state, ScoutState::HarvestMarketData);
    let mut early = scout_at(Some("OE-PM"), vec![]);
    early.state = ScoutState::Wait;
    early.next_harvest_time = i64::MAX;
    assert_eq!(early.poll(Event::Tick), Ok(None));
    assert_eq!(early.state, ScoutState::Wait);
    // The harvest is due three minutes after the clock's time.
    let mut harvesting = scout_at(Some("OE-PM"), vec![]);
    harvesting.state = ScoutState::HarvestMarketData;
    assert_eq!(harvesting.poll(Event::Marketplace(vec![])), Ok(None));
    // 2021-01-01 in milliseconds since the epoch
    assert!(harvesting.next_harvest_time > 1_609_459_200_000 + 180_000);
}
