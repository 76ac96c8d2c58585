use spacemonger::db::DbUser;
use spacemonger::responses::{
    LoanInfo, PayLoanResponse, PurchaseShip, RequestLoan, ShipsForSale, UserInfo, UserInfoData,
    YourShips,
};
use spacemonger::shared::{Good, Loan, LoanType, PurchaseLocation, Ship, ShipForSale};
use spacemonger::ship_machines::scout::ScoutState;
use spacemonger::ship_machines::{MachineType, ShipAssignment};
use spacemonger::user::{
    docked_locations, is_listed, outstanding_loans, select_ship, ShipChoice, ShipRanking, User,
};

fn ship(id: &str, location: Option<&str>) -> Ship {
    Ship {
        id: id.to_string(),
        location: location.map(|l| l.to_string()),
        cargo: vec![],
        space_available: 50,
        ship_type: "JW-MK-I".to_string(),
        class: "MK-I".to_string(),
        max_cargo: 50,
        speed: 1,
        manufacturer: "Jackshaw".to_string(),
        plating: 5,
        weapons: 5,
    }
}

fn loan(id: &str, status: &str) -> Loan {
    Loan {
        id: id.to_string(),
        due: "2021-06-01".to_string(),
        repayment_amount: 280_000,
        status: status.to_string(),
        loan_type: LoanType::Startup,
    }
}

fn account() -> DbUser {
    DbUser {
        id: "id-1".to_string(),
        username: "base-main".to_string(),
        token: "token".to_string(),
        new_ship_assignment: "trader".to_string(),
        new_ship_system: "OE".to_string(),
    }
}

fn info(credits: i32) -> UserInfo {
    UserInfo {
        user: UserInfoData { username: "base-main".to_string(), credits, ships: vec![], loans: vec![] },
    }
}

fn trader_account(credits: i32, ships: Vec<Ship>, loans: Vec<Loan>) -> User {
    User::new(
        account(),
        info(credits),
        &YourShips { ships },
        LoanInfo { loans },
        ShipAssignment::Trader,
        "OE".to_string(),
        None,
        500,
    )
}

fn offer(system: &str, location: &str, price: i32) -> PurchaseLocation {
    PurchaseLocation { system: system.to_string(), location: location.to_string(), price }
}

fn for_sale(
    ship_type: &str,
    speed: i32,
    max_cargo: i32,
    restricted: Option<Vec<Good>>,
    places: Vec<PurchaseLocation>,
) -> ShipForSale {
    ShipForSale {
        ship_type: ship_type.to_string(),
        class: "MK".to_string(),
        max_cargo,
        speed,
        manufacturer: "Yard".to_string(),
        plating: 5,
        weapons: 5,
        restricted_goods: restricted,
        purchase_locations: places,
    }
}

fn catalogue() -> Vec<ShipForSale> {
    vec![
        for_sale("JW-MK-I", 1, 50, None, vec![offer("OE", "OE-PM", 21_000)]),
        for_sale(
            "GR-MK-I",
            2,
            100,
            None,
            vec![offer("XV", "XV-OS", 40_000), offer("OE", "OE-CR", 42_000)],
        ),
        for_sale("ZA-MK-II", 3, 30, None, vec![offer("OE", "OE-PM", 90_000)]),
        for_sale("TD-MK-I", 9, 3_000, Some(vec![Good::Fuel]), vec![offer("OE", "OE-PM", 1_000)]),
        for_sale("GR-MK-II", 2, 100, None, vec![offer("OE", "OE-PM", 30_000)]),
    ]
}

fn choice(ship_type: &str, location: &str, price: i32) -> Option<ShipChoice> {
    Some(ShipChoice { ship_type: ship_type.to_string(), location: location.to_string(), price })
}

#[test]
fn outstanding_loans_are_those_not_paid() {
    assert_eq!(outstanding_loans(&vec![]), 0);
    assert_eq!(outstanding_loans(&vec![loan("a", "CURRENT")]), 1);
    assert_eq!(outstanding_loans(&vec![loan("a", "PAID")]), 0);
    assert_eq!(
        outstanding_loans(&vec![loan("a", "PAID"), loan("b", "CURRENT"), loan("c", "PAID_LATE")]),
        2
    );
}

#[test]
fn account_is_set_up_with_one_machine_per_ship() {
    let user = trader_account(
        300,
        vec![ship("s-1", Some("OE-PM")), ship("s-2", None)],
        vec![loan("a", "CURRENT"), loan("b", "PAID")],
    );
    assert_eq!(user.username, "base-main");
    assert_eq!(user.token, "token");
    assert_eq!(user.id, "id-1");
    assert_eq!(user.credits, 300);
    assert_eq!(user.outstanding_loans, 1);
    assert_eq!(user.loans.len(), 2);
    assert_eq!(user.new_ship_system, "OE");
    assert_eq!(user.new_ship_location, None);
    assert_eq!(user.ship_machines.len(), 2);
    assert_eq!(user.ship_machines[0].get_ship_id(), "s-1");
    assert_eq!(user.ship_machines[1].get_ship_id(), "s-2");
    for machine in &user.ship_machines {
        assert_eq!(machine.user_id, "id-1");
        assert_eq!(machine.username, "base-main");
        assert_eq!(machine.system, "OE");
        assert!(matches!(machine.machine, MachineType::Trader(_)));
    }
}

#[test]
fn scout_account_sets_up_scouts_for_its_location() {
    let user = User::new(
        account(),
        info(0),
        &YourShips { ships: vec![ship("s-1", Some("OE-CR"))] },
        LoanInfo { loans: vec![] },
        ShipAssignment::Scout,
        "OE".to_string(),
        Some("OE-PM".to_string()),
        500,
    );
    match &user.ship_machines[0].machine {
        MachineType::Scout(scout) => {
            assert_eq!(scout.location, "OE-PM");
            assert_eq!(scout.state, ScoutState::InitializeShip);
            assert_eq!(scout.ship, ship("s-1", Some("OE-CR")));
        }
        other => panic!("expected a scout, got {:?}", other),
    }
    assert_eq!(user.ship_machines[0].location, "OE-PM");
}

#[test]
fn granted_loan_is_booked() {
    let mut user = trader_account(0, vec![], vec![]);
    user.request_new_loan(RequestLoan { credits: 200_000, loan: loan("l-1", "CURRENT") });
    assert_eq!(user.credits, 200_000);
    assert_eq!(user.loans, vec![loan("l-1", "CURRENT")]);
    assert_eq!(user.outstanding_loans, 1);
}

#[test]
fn paid_loan_is_booked() {
    let mut user = trader_account(2_000_000, vec![], vec![loan("l-1", "CURRENT")]);
    assert_eq!(user.outstanding_loans, 1);
    user.pay_off_loan(PayLoanResponse { credits: 1_720_000, loans: vec![loan("l-1", "PAID")] });
    assert_eq!(user.credits, 1_720_000);
    assert_eq!(user.loans, vec![loan("l-1", "PAID")]);
    assert_eq!(user.outstanding_loans, 0);
}

#[test]
fn bought_ship_gets_a_machine() {
    let mut user = trader_account(100_000, vec![ship("s-1", Some("OE-PM"))], vec![]);
    user.purchase_ship(&PurchaseShip { credits: 58_000, ship: ship("s-2", Some("OE-CR")) }, 900);
    assert_eq!(user.credits, 58_000);
    assert_eq!(user.ship_machines.len(), 2);
    assert_eq!(user.ship_machines[0].get_ship_id(), "s-1");
    assert_eq!(user.ship_machines[1].get_ship_id(), "s-2");
    match &user.ship_machines[1].machine {
        MachineType::Trader(trader) => {
            assert_eq!(trader.ship, ship("s-2", Some("OE-CR")));
            assert_eq!(trader.arrival_time, 900);
        }
        other => panic!("expected a trader, got {:?}", other),
    }
}

#[test]
fn docked_locations_are_those_of_the_ships_not_under_way() {
    let ships = vec![ship("a", Some("OE-PM")), ship("b", None), ship("c", Some("XV-OS"))];
    let docked = docked_locations(&ships);
    assert_eq!(docked, vec!["OE-PM", "XV-OS"]);
    assert!(is_listed(&docked, &"XV-OS".to_string()));
    assert!(!is_listed(&docked, &"OE-CR".to_string()));
    assert!(docked_locations(&vec![ship("b", None)]).is_empty());
}

#[test]
fn fastest_affordable_ship_is_picked() {
    let system = "OE".to_string();
    let pick = |credits: i32| select_ship(&catalogue(), ShipRanking::Speed, credits, &system, &vec![]);
    assert_eq!(pick(1_000_000), choice("ZA-MK-II", "OE-PM", 90_000));
    assert_eq!(pick(90_000), choice("ZA-MK-II", "OE-PM", 90_000));
    // Of two ships of the same speed the first in the catalogue wins.
    assert_eq!(pick(89_999), choice("GR-MK-I", "OE-CR", 42_000));
    assert_eq!(pick(41_999), choice("GR-MK-II", "OE-PM", 30_000));
    assert_eq!(pick(29_999), choice("JW-MK-I", "OE-PM", 21_000));
    assert_eq!(pick(20_999), None);
}

#[test]
fn largest_affordable_ship_is_picked() {
    let system = "OE".to_string();
    let pick =
        |credits: i32| select_ship(&catalogue(), ShipRanking::MaxCargo, credits, &system, &vec![]);
    // The restricted ship has the largest hold and is never picked.
    assert_eq!(pick(1_000_000), choice("GR-MK-I", "OE-CR", 42_000));
    assert_eq!(pick(35_000), choice("GR-MK-II", "OE-PM", 30_000));
    assert_eq!(pick(25_000), choice("JW-MK-I", "OE-PM", 21_000));
    assert_eq!(pick(0), None);
}

#[test]
fn ship_is_sold_in_the_system_or_where_a_ship_is_docked() {
    let system = "OE".to_string();
    let docked_abroad = vec![ship("s-1", Some("XV-OS"))];
    assert_eq!(
        select_ship(&catalogue(), ShipRanking::Speed, 41_000, &system, &docked_abroad),
        choice("GR-MK-I", "XV-OS", 40_000)
    );
    // Without a ship at the yard abroad only the yards of the system count.
    let docked_home = vec![ship("s-1", Some("OE-PM"))];
    assert_eq!(
        select_ship(&catalogue(), ShipRanking::Speed, 41_000, &system, &docked_home),
        choice("GR-MK-II", "OE-PM", 30_000)
    );
    assert_eq!(
        select_ship(&catalogue(), ShipRanking::Speed, 41_000, &"ZZ".to_string(), &docked_home),
        choice("GR-MK-II", "OE-PM", 30_000)
    );
    assert_eq!(
        select_ship(&catalogue(), ShipRanking::Speed, 1_000_000, &"ZZ".to_string(), &vec![]),
        None
    );
}

#[test]
fn nothing_is_bought_while_every_ship_is_under_way() {
    let system = "OE".to_string();
    let under_way = vec![ship("s-1", None), ship("s-2", None)];
    assert_eq!(select_ship(&catalogue(), ShipRanking::Speed, 1_000_000, &system, &under_way), None);
    assert_eq!(select_ship(&vec![], ShipRanking::Speed, 1_000_000, &system, &vec![]), None);
}

#[test]
fn ship_that_counts_for_nothing_is_never_picked() {
    let slow = vec![for_sale("HULK", 0, 0, None, vec![offer("OE", "OE-PM", 1)])];
    let system = "OE".to_string();
    assert_eq!(select_ship(&slow, ShipRanking::Speed, 1_000, &system, &vec![]), None);
    assert_eq!(select_ship(&slow, ShipRanking::MaxCargo, 1_000, &system, &vec![]), None);
}

#[test]
fn account_picks_by_its_own_credits_and_system() {
    let user = trader_account(45_000, vec![ship("s-1", Some("OE-PM"))], vec![]);
    let available = ShipsForSale { ships: catalogue() };
    let mine = YourShips { ships: vec![ship("s-1", Some("OE-PM"))] };
    assert_eq!(user.purchase_fastest_ship(&available, &mine), choice("GR-MK-I", "OE-CR", 42_000));
    assert_eq!(user.purchase_largest_ship(&available, &mine), choice("GR-MK-I", "OE-CR", 42_000));
    let poor = trader_account(22_000, vec![], vec![]);
    assert_eq!(
        poor.purchase_largest_ship(&available, &YourShips { ships: vec![] }),
        choice("JW-MK-I", "OE-PM", 21_000)
    );
}
