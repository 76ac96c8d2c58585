use spacemonger::arith::{later, min_i32, saturate_i32};
use spacemonger::cargo::{consume_fuel, current_fuel, next_to_sell};
use spacemonger::funcs::{create_flight_plan, create_purchase_order, create_sell_order};
use spacemonger::requests::{FlightPlanRequest, PurchaseOrderRequest, SellOrderRequest};
use spacemonger::errors::GameStatusError;
use spacemonger::shared::{Cargo, ErrorMessage, ErrorMessageData, Good, LocationType, Ship};
use spacemonger::text::{holds_text, same_text, write_digits, write_number};

const GOODS: [Good; 14] = [
    Good::Metals,
    Good::RareMetals,
    Good::Chemicals,
    Good::Fuel,
    Good::Food,
    Good::Workers,
    Good::Textiles,
    Good::ConsumerGoods,
    Good::Machinery,
    Good::ConstructionMaterials,
    Good::Electronics,
    Good::Research,
    Good::ShipParts,
    Good::ShipPlating,
];

fn ship_with(cargo: Vec<Cargo>) -> Ship {
    Ship {
        id: "s".to_string(),
        location: Some("OE-PM".to_string()),
        cargo,
        space_available: 10,
        ship_type: "JW-MK-I".to_string(),
        class: "MK-I".to_string(),
        max_cargo: 50,
        speed: 1,
        manufacturer: "Jackshaw".to_string(),
        plating: 5,
        weapons: 5,
    }
}

fn entry(good: Good, quantity: i32) -> Cargo {
    Cargo { good, quantity, total_volume: quantity }
}

#[test]
fn goods_are_named_as_they_are_written() {
    assert_eq!(Good::Metals.to_string(), "Metals");
    assert_eq!(Good::RareMetals.to_string(), "RareMetals");
    assert_eq!(Good::ConstructionMaterials.to_string(), "ConstructionMaterials");
    assert_eq!(Good::ShipPlating.to_string(), "ShipPlating");
    for good in GOODS {
        assert_eq!(good.to_string(), format!("{:?}", good));
    }
}

#[test]
fn good_reads_back_from_its_name() {
    for good in GOODS {
        assert_eq!(Good::from_name(&good.to_string()), Some(good));
    }
    assert_eq!(Good::from_name(&"FUEL".to_string()), None);
    assert_eq!(Good::from_name(&"".to_string()), None);
    assert_eq!(Good::from_name(&"Fuel ".to_string()), None);
}

#[test]
fn location_type_reads_back_from_its_name() {
    let kinds = [
        LocationType::Planet,
        LocationType::Moon,
        LocationType::GasGiant,
        LocationType::Asteroid,
        LocationType::Wormhole,
    ];
    for kind in kinds {
        assert_eq!(kind.to_string(), format!("{:?}", kind));
        assert_eq!(LocationType::from_name(&kind.to_string()), Some(kind));
    }
    assert_eq!(LocationType::from_name(&"PLANET".to_string()), None);
}

#[test]
fn ship_replica_tells_the_same() {
    let ship = ship_with(vec![entry(Good::Fuel, 3), entry(Good::Food, 1)]);
    assert_eq!(ship.replica(), ship);
    let mut flying = ship.clone();
    flying.location = None;
    assert_eq!(flying.replica(), flying);
}

#[test]
fn current_fuel_adds_up_the_fuel_entries() {
    assert_eq!(current_fuel(&ship_with(vec![])), 0);
    assert_eq!(current_fuel(&ship_with(vec![entry(Good::Fuel, 5)])), 5);
    assert_eq!(
        current_fuel(&ship_with(vec![
            entry(Good::Metals, 9),
            entry(Good::Fuel, 5),
            entry(Good::Food, 2),
            entry(Good::Fuel, 7),
        ])),
        12
    );
    assert_eq!(
        current_fuel(&ship_with(vec![entry(Good::Fuel, i32::MAX), entry(Good::Fuel, 1)])),
        i32::MAX
    );
    assert_eq!(
        current_fuel(&ship_with(vec![entry(Good::Fuel, i32::MIN), entry(Good::Fuel, -1)])),
        i32::MIN
    );
}

#[test]
fn flight_takes_its_fuel_out_of_the_fuel_entries_only() {
    let mut cargo = vec![entry(Good::Metals, 9), entry(Good::Fuel, 12)];
    consume_fuel(&mut cargo, 5);
    assert_eq!(
        cargo,
        vec![entry(Good::Metals, 9), Cargo { good: Good::Fuel, quantity: 7, total_volume: 12 }]
    );
    let mut none: Vec<Cargo> = vec![];
    consume_fuel(&mut none, 5);
    assert!(none.is_empty());
    let mut edge = vec![entry(Good::Fuel, i32::MIN + 1)];
    consume_fuel(&mut edge, 5);
    assert_eq!(edge[0].quantity, i32::MIN);
}

#[test]
fn first_entry_that_holds_goods_is_sold_next() {
    assert_eq!(next_to_sell(&ship_with(vec![])), None);
    assert_eq!(next_to_sell(&ship_with(vec![entry(Good::Food, 0), entry(Good::Fuel, -1)])), None);
    assert_eq!(
        next_to_sell(&ship_with(vec![
            entry(Good::Food, 0),
            entry(Good::Fuel, 2),
            entry(Good::Metals, 5),
        ])),
        Some(entry(Good::Fuel, 2))
    );
}

#[test]
fn orders_of_no_positive_quantity_are_refused() {
    let ship_id = "s-1".to_string();
    assert_eq!(create_purchase_order(&ship_id, Good::Fuel, 0), None);
    assert_eq!(create_purchase_order(&ship_id, Good::Fuel, -3), None);
    assert_eq!(
        create_purchase_order(&ship_id, Good::Fuel, 1),
        Some(PurchaseOrderRequest { ship_id: ship_id.clone(), good: Good::Fuel, quantity: 1 })
    );
    assert_eq!(create_sell_order(&ship_id, Good::Food, 0), None);
    assert_eq!(
        create_sell_order(&ship_id, Good::Food, 8),
        Some(SellOrderRequest { ship_id: ship_id.clone(), good: Good::Food, quantity: 8 })
    );
    assert_eq!(
        create_flight_plan(&ship_id, &"OE-PM".to_string()),
        FlightPlanRequest { ship_id, destination: "OE-PM".to_string() }
    );
}

#[test]
fn small_helpers() {
    assert_eq!(saturate_i32(5), 5);
    assert_eq!(saturate_i32(i128::MAX), i32::MAX);
    assert_eq!(saturate_i32(i128::MIN), i32::MIN);
    assert_eq!(min_i32(3, 7), 3);
    assert_eq!(min_i32(7, -3), -3);
    assert_eq!(later(10, 5), 15);
    assert_eq!(later(i64::MAX, 1), i64::MAX);
    assert_eq!(later(i64::MIN, -1), i64::MIN);
    assert!(same_text(&"a".to_string(), &"a".to_string()));
    assert!(!same_text(&"a".to_string(), &"b".to_string()));
    assert!(holds_text(&Some("a".to_string()), &"a".to_string()));
    assert!(!holds_text(&Some("a".to_string()), &"b".to_string()));
    assert!(!holds_text(&None, &"a".to_string()));
}

#[test]
fn numbers_are_written_in_decimal_digits() {
    assert_eq!(write_digits(0), "0");
    assert_eq!(write_digits(7), "7");
    assert_eq!(write_digits(10), "10");
    assert_eq!(write_digits(1_234_567_890), "1234567890");
    assert_eq!(write_digits(u64::MAX), u64::MAX.to_string());
    assert_eq!(write_number(0), "0");
    assert_eq!(write_number(2001), "2001");
    assert_eq!(write_number(-45), "-45");
    assert_eq!(write_number(i32::MAX), i32::MAX.to_string());
    assert_eq!(write_number(i32::MIN), i32::MIN.to_string());
}

#[test]
fn errors_are_written_as_one_line() {
    let envelope = ErrorMessage {
        error: ErrorMessageData {
            code: 2001,
            message: "Good is not listed in planet marketplace.".to_string(),
        },
    };
    assert_eq!(
        envelope.to_string(),
        "Error Code: 2001 Error Message: Good is not listed in planet marketplace."
    );
    assert_eq!(
        GameStatusError::ServiceUnavailable.to_string(),
        "SpaceTraders API is down for maintenance"
    );
    assert_eq!(
        GameStatusError::HttpError("connection refused".to_string()).to_string(),
        "Http Client error: connection refused"
    );
    assert_eq!(
        GameStatusError::ParseError("expected value".to_string()).to_string(),
        "Error parsing game status response: expected value"
    );
}
