use spacemonger::responses::FlightPlan;
use spacemonger::shared::{Cargo, FlightPlanData, Good, Ship};
use spacemonger::ship_machines::system_change::{SystemChange, SystemChangeState};
use spacemonger::ship_machines::trader::{Trader, TraderState};
use spacemonger::ship_machines::voyage::VoyagePhase;
use spacemonger::ship_machines::{Event, MachineType, PollResult, Request, StepError};

fn hauler(location: Option<&str>) -> Ship {
    Ship {
        id: "hauler".to_string(),
        location: location.map(|l| l.to_string()),
        cargo: vec![Cargo { good: Good::Fuel, quantity: 9, total_volume: 9 }],
        space_available: 91,
        ship_type: "JW-MK-II".to_string(),
        class: "MK-II".to_string(),
        max_cargo: 100,
        speed: 3,
        manufacturer: "Jackshaw".to_string(),
        plating: 5,
        weapons: 5,
    }
}

fn warp_plan(destination: &str, arrives_at: i64) -> FlightPlan {
    FlightPlan {
        flight_plan: FlightPlanData {
            id: "warp".to_string(),
            ship_id: "hauler".to_string(),
            fuel_consumed: 0,
            fuel_remaining: 9,
            time_remaining_in_seconds: 120,
            created_at: 0,
            arrives_at,
            terminated_at: None,
            destination: destination.to_string(),
            departure: "OE-W-XV".to_string(),
            distance: 0,
        },
    }
}

#[test]
fn transfer_takes_over_the_ship_of_a_trader() {
    let trader = Trader::new(
        "user-1".to_string(),
        "captain".to_string(),
        "OE".to_string(),
        hauler(Some("OE-PM")),
        10,
    );
    let transfer = SystemChange::from(&trader, "XV".to_string(), 20);
    assert_eq!(transfer.user_id, "user-1");
    assert_eq!(transfer.username, "captain");
    assert_eq!(transfer.system, "XV");
    assert_eq!(transfer.ship, trader.ship);
    assert_eq!(transfer.state, SystemChangeState::InitializeShip);
    assert_eq!(transfer.arrival_time, 20);
    assert_eq!(transfer.wormhole, None);
    assert_eq!(transfer.flight_plan, None);
    assert_eq!(transfer.get_ship_id(), "hauler");
}

#[test]
fn transfer_goes_through_the_wormhole_and_becomes_a_trader() {
    let mut emptied = hauler(Some("OE-PM"));
    emptied.cargo.clear();
    emptied.space_available = 100;
    let mut transfer = SystemChange::new(
        "user-1".to_string(),
        "captain".to_string(),
        "XV".to_string(),
        emptied,
        0,
    );
    assert_eq!(transfer.request(), Request::Nothing);
    assert_eq!(transfer.step(0, Event::Tick), Ok(None));
    assert_eq!(transfer.state, SystemChangeState::MoveToWormhole);
    assert_eq!(
        transfer.request(),
        Request::GetWormhole { location: "OE-PM".to_string(), system: "XV".to_string() }
    );
    assert_eq!(transfer.step(0, Event::Wormhole("OE-W-XV".to_string())), Ok(None));
    assert_eq!(transfer.wormhole, Some("OE-W-XV".to_string()));
    assert_eq!(
        transfer.request(),
        Request::GetFuelRequired {
            origin: "OE-PM".to_string(),
            destination: "OE-W-XV".to_string(),
            ship_type: "JW-MK-II".to_string(),
        }
    );
    assert_eq!(transfer.step(0, Event::FuelRequired(Some(0))), Ok(None));
    assert_eq!(transfer.voyage, VoyagePhase::Depart);
    assert_eq!(
        transfer.request(),
        Request::CreateFlightPlan {
            user_id: "user-1".to_string(),
            ship_id: "hauler".to_string(),
            destination: "OE-W-XV".to_string(),
        }
    );
    assert_eq!(transfer.step(0, Event::FlightPlan(warp_plan("OE-W-XV", 500))), Ok(None));
    assert_eq!(transfer.state, SystemChangeState::WaitForArrivalAtWormhole);
    assert_eq!(transfer.ship.location, None);
    assert_eq!(transfer.step(499, Event::Tick), Ok(None));
    assert_eq!(transfer.state, SystemChangeState::WaitForArrivalAtWormhole);
    assert_eq!(transfer.step(500, Event::Tick), Ok(None));
    assert_eq!(transfer.state, SystemChangeState::Warp);
    assert_eq!(transfer.ship.location, Some("OE-W-XV".to_string()));
    assert_eq!(transfer.request(), Request::AttemptWarpJump { ship_id: "hauler".to_string() });
    assert_eq!(transfer.step(500, Event::FlightPlan(warp_plan("XV-W-OE", 900))), Ok(None));
    assert_eq!(transfer.state, SystemChangeState::WaitForWarp);
    assert_eq!(transfer.ship.location, None);
    assert_eq!(transfer.arrival_time, 900);
    assert_eq!(transfer.step(899, Event::Tick), Ok(None));
    assert_eq!(transfer.state, SystemChangeState::WaitForWarp);
    match transfer.step(900, Event::Tick) {
        Ok(Some(PollResult::ConvertToNewMachine(MachineType::Trader(trader)))) => {
            assert_eq!(trader.system, "XV");
            assert_eq!(trader.state, TraderState::InitializeShip);
            assert_eq!(trader.ship.location, Some("XV-W-OE".to_string()));
            assert_eq!(trader.ship.id, "hauler");
            assert_eq!(trader.arrival_time, 900);
        }
        other => panic!("expected a trader, got {:?}", other),
    }
}

#[test]
fn transfer_sells_its_cargo_before_it_asks_for_the_wormhole() {
    let mut transfer = SystemChange::new(
        "user-1".to_string(),
        "captain".to_string(),
        "XV".to_string(),
        hauler(Some("OE-PM")),
        0,
    );
    transfer.step(0, Event::Tick).unwrap();
    assert_eq!(
        transfer.request(),
        Request::CreateSellOrder {
            user_id: "user-1".to_string(),
            ship_id: "hauler".to_string(),
            good: Good::Fuel,
            quantity: 9,
        }
    );
}

#[test]
fn transfer_under_way_waits_then_sets_out_for_the_wormhole() {
    let mut transfer = SystemChange::new(
        "user-1".to_string(),
        "captain".to_string(),
        "XV".to_string(),
        hauler(None),
        0,
    );
    assert_eq!(transfer.request(), Request::GetActiveFlightPlan { ship_id: "hauler".to_string() });
    assert_eq!(
        transfer.step(0, Event::ActiveFlightPlan(None)),
        Err(StepError::NoActiveFlightPlan)
    );
    let stored = warp_plan("OE-CR", 300).flight_plan;
    assert_eq!(transfer.step(0, Event::ActiveFlightPlan(Some(stored))), Ok(None));
    assert_eq!(transfer.state, SystemChangeState::WaitForArrival);
    assert_eq!(transfer.step(300, Event::Tick), Ok(None));
    assert_eq!(transfer.state, SystemChangeState::MoveToWormhole);
    assert_eq!(transfer.ship.location, Some("OE-CR".to_string()));
}

#[test]
fn transfer_found_under_way_starts_over() {
    let mut transfer = SystemChange::new(
        "user-1".to_string(),
        "captain".to_string(),
        "XV".to_string(),
        hauler(None),
        0,
    );
    transfer.state = SystemChangeState::MoveToWormhole;
    assert_eq!(transfer.request(), Request::Nothing);
    assert_eq!(transfer.step(0, Event::Tick), Ok(None));
    assert_eq!(transfer.state, SystemChangeState::InitializeShip);
}

#[test]
fn transfer_reset_clears_the_cargo_and_starts_over() {
    let mut transfer = SystemChange::new(
        "user-1".to_string(),
        "captain".to_string(),
        "XV".to_string(),
        hauler(Some("OE-PM")),
        0,
    );
    transfer.state = SystemChangeState::Warp;
    transfer.reset();
    assert_eq!(transfer.state, SystemChangeState::InitializeShip);
    assert!(transfer.ship.cargo.is_empty());
}

#[test]
fn transfer_poll_reads_the_system_clock() {
    let mut transfer = SystemChange::new(
        "user-1".to_string(),
        "captain".to_string(),
        "XV".to_string(),
        hauler(None),
        0,
    );
    transfer.state = SystemChangeState::WaitForArrivalAtWormhole;
    transfer.flight_plan = Some(warp_plan("OE-W-XV", 10).flight_plan);
    transfer.arrival_time = i64::MAX;
    assert_eq!(transfer.poll(Event::Tick), Ok(None));
    assert_eq!(transfer.state, SystemChangeState::WaitForArrivalAtWormhole);
    transfer.arrival_time = 10;
    assert_eq!(transfer.poll(Event::Tick), Ok(None));
    assert_eq!(transfer.state, SystemChangeState::Warp);
}
