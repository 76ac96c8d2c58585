//! Values exchanged with the game server.

use vstd::prelude::*;

verus! {

/// A point in time: milliseconds since the Unix epoch, UTC.
pub type Timestamp = i64;

/// The kinds of loan that the game offers.
#[derive(Debug, Clone, Copy, PartialEq, Eq, Structural)]
pub enum LoanType {
    Startup,
    Enterprise,
}

/// The goods that are traded.
#[derive(Debug, Clone, Copy, PartialEq, Eq, Structural)]
pub enum Good {
    Metals,
    RareMetals,
    Chemicals,
    Fuel,
    Food,
    Workers,
    Textiles,
    ConsumerGoods,
    Machinery,
    ConstructionMaterials,
    Electronics,
    Research,
    ShipParts,
    ShipPlating,
}

/// The kinds of location on the map.
#[derive(Debug, Clone, Copy, PartialEq, Eq, Structural)]
pub enum LocationType {
    Planet,
    Moon,
    GasGiant,
    Asteroid,
    Wormhole,
}

/// One cargo entry of a ship.
#[derive(Debug, Clone, Copy, PartialEq, Eq, Structural)]
pub struct Cargo {
    pub good: Good,
    pub quantity: i32,
    pub total_volume: i32,
}

/// A ship as the server reports it. `location` is absent while the ship flies.
#[derive(Debug, Clone, PartialEq, Eq)]
pub struct Ship {
    pub id: String,
    pub location: Option<String>,
    pub cargo: Vec<Cargo>,
    pub space_available: i32,
    pub ship_type: String,
    pub class: String,
    pub max_cargo: i32,
    pub speed: i32,
    pub manufacturer: String,
    pub plating: i32,
    pub weapons: i32,
}

/// What one completed purchase or sale moved.
#[derive(Debug, Clone, Copy, PartialEq, Eq, Structural)]
pub struct Order {
    pub good: Good,
    pub quantity: i32,
    pub price_per_unit: i32,
    pub total: i32,
}

/// A loan of an account.
#[derive(Debug, Clone, PartialEq, Eq)]
pub struct Loan {
    pub id: String,
    pub due: String,
    pub repayment_amount: i32,
    pub status: String,
    pub loan_type: LoanType,
}

/// Where a ship type is sold, and for how much.
#[derive(Debug, Clone, PartialEq, Eq)]
pub struct PurchaseLocation {
    pub system: String,
    pub location: String,
    pub price: i32,
}

/// A ship type of the catalogue, with the places that sell it.
#[derive(Debug, Clone, PartialEq, Eq)]
pub struct ShipForSale {
    pub ship_type: String,
    pub class: String,
    pub max_cargo: i32,
    pub speed: i32,
    pub manufacturer: String,
    pub plating: i32,
    pub weapons: i32,
    pub restricted_goods: Option<Vec<Good>>,
    pub purchase_locations: Vec<PurchaseLocation>,
}

/// A location as the server lists it for a system.
#[derive(Debug, Clone, PartialEq, Eq)]
pub struct Location {
    pub symbol: String,
    pub location_type: String,
    pub name: String,
    pub x: i32,
    pub y: i32,
}

/// The code and the message of a server error.
#[derive(Debug, Clone, PartialEq, Eq)]
pub struct ErrorMessageData {
    pub code: i32,
    pub message: String,
}

/// The server's structured error envelope.
#[derive(Debug, Clone, PartialEq, Eq)]
pub struct ErrorMessage {
    pub error: ErrorMessageData,
}

/// A flight plan. It is active while `arrives_at` lies in the future.
#[derive(Debug, Clone, PartialEq, Eq)]
pub struct FlightPlanData {
    pub id: String,
    pub ship_id: String,
    pub fuel_consumed: i32,
    pub fuel_remaining: i32,
    pub time_remaining_in_seconds: i32,
    pub created_at: Timestamp,
    pub arrives_at: Timestamp,
    pub terminated_at: Option<Timestamp>,
    pub destination: String,
    pub departure: String,
    pub distance: i32,
}

/// A location of a system on the map of the game.
#[derive(Debug, Clone, PartialEq, Eq)]
pub struct SystemsInfoLocation {
    pub symbol: String,
    pub systems_info_type: LocationType,
    pub name: String,
    pub x: i32,
    pub y: i32,
    pub messages: Option<Vec<String>>,
}

/// A system on the map of the game, with its locations.
#[derive(Debug, Clone, PartialEq, Eq)]
pub struct SystemsInfoData {
    pub symbol: String,
    pub name: String,
    pub locations: Vec<SystemsInfoLocation>,
}

/// One good on offer at a location's marketplace.
#[derive(Debug, Clone, Copy, PartialEq, Eq, Structural)]
pub struct MarketplaceData {
    pub quantity_available: i32,
    pub price_per_unit: i32,
    pub purchase_price_per_unit: i32,
    pub sell_price_per_unit: i32,
    pub volume_per_unit: i32,
    pub symbol: Good,
}

/// A location with the goods on offer at its marketplace.
#[derive(Debug, Clone, PartialEq, Eq)]
pub struct PlanetMarketplaceData {
    pub name: String,
    pub symbol: String,
    pub planet_type: String,
    pub x: i32,
    pub y: i32,
    pub marketplace: Vec<MarketplaceData>,
}

impl Good {
    /// The name under which a good is stored and logged.
    pub open spec fn spec_name(self) -> Seq<char> {
        match self {
            Good::Metals => "Metals"@,
            Good::RareMetals => "RareMetals"@,
            Good::Chemicals => "Chemicals"@,
            Good::Fuel => "Fuel"@,
            Good::Food => "Food"@,
            Good::Workers => "Workers"@,
            Good::Textiles => "Textiles"@,
            Good::ConsumerGoods => "ConsumerGoods"@,
            Good::Machinery => "Machinery"@,
            Good::ConstructionMaterials => "ConstructionMaterials"@,
            Good::Electronics => "Electronics"@,
            Good::Research => "Research"@,
            Good::ShipParts => "ShipParts"@,
            Good::ShipPlating => "ShipPlating"@,
        }
    }

    /// The good that carries a given name, if there is one.
    pub open spec fn spec_from_name(name: Seq<char>) -> Option<Good> {
        if name == "Metals"@ {
            Some(Good::Metals)
        } else if name == "RareMetals"@ {
            Some(Good::RareMetals)
        } else if name == "Chemicals"@ {
            Some(Good::Chemicals)
        } else if name == "Fuel"@ {
            Some(Good::Fuel)
        } else if name == "Food"@ {
            Some(Good::Food)
        } else if name == "Workers"@ {
            Some(Good::Workers)
        } else if name == "Textiles"@ {
            Some(Good::Textiles)
        } else if name == "ConsumerGoods"@ {
            Some(Good::ConsumerGoods)
        } else if name == "Machinery"@ {
            Some(Good::Machinery)
        } else if name == "ConstructionMaterials"@ {
            Some(Good::ConstructionMaterials)
        } else if name == "Electronics"@ {
            Some(Good::Electronics)
        } else if name == "Research"@ {
            Some(Good::Research)
        } else if name == "ShipParts"@ {
            Some(Good::ShipParts)
        } else if name == "ShipPlating"@ {
            Some(Good::ShipPlating)
        } else {
            None
        }
    }

    /// The good's name as text.
    pub fn to_string(&self) -> (name: String)
        ensures
            name@ == self.spec_name(),
    {
        match self {
            Good::Metals => String::from_str("Metals"),
            Good::RareMetals => String::from_str("RareMetals"),
            Good::Chemicals => String::from_str("Chemicals"),
            Good::Fuel => String::from_str("Fuel"),
            Good::Food => String::from_str("Food"),
            Good::Workers => String::from_str("Workers"),
            Good::Textiles => String::from_str("Textiles"),
            Good::ConsumerGoods => String::from_str("ConsumerGoods"),
            Good::Machinery => String::from_str("Machinery"),
            Good::ConstructionMaterials => String::from_str("ConstructionMaterials"),
            Good::Electronics => String::from_str("Electronics"),
            Good::Research => String::from_str("Research"),
            Good::ShipParts => String::from_str("ShipParts"),
            Good::ShipPlating => String::from_str("ShipPlating"),
        }
    }

    /// Reads a good back from its name.
    pub fn from_name(name: &String) -> (good: Option<Good>)
        ensures
            good == Good::spec_from_name(name@),
    {
        if *name == String::from_str("Metals") {
            Some(Good::Metals)
        } else if *name == String::from_str("RareMetals") {
            Some(Good::RareMetals)
        } else if *name == String::from_str("Chemicals") {
            Some(Good::Chemicals)
        } else if *name == String::from_str("Fuel") {
            Some(Good::Fuel)
        } else if *name == String::from_str("Food") {
            Some(Good::Food)
        } else if *name == String::from_str("Workers") {
            Some(Good::Workers)
        } else if *name == String::from_str("Textiles") {
            Some(Good::Textiles)
        } else if *name == String::from_str("ConsumerGoods") {
            Some(Good::ConsumerGoods)
        } else if *name == String::from_str("Machinery") {
            Some(Good::Machinery)
        } else if *name == String::from_str("ConstructionMaterials") {
            Some(Good::ConstructionMaterials)
        } else if *name == String::from_str("Electronics") {
            Some(Good::Electronics)
        } else if *name == String::from_str("Research") {
            Some(Good::Research)
        } else if *name == String::from_str("ShipParts") {
            Some(Good::ShipParts)
        } else if *name == String::from_str("ShipPlating") {
            Some(Good::ShipPlating)
        } else {
            None
        }
    }

    /// A name written by `to_string` reads back as the same good.
    pub proof fn lemma_name_round_trip(self)
        ensures
            Good::spec_from_name(self.spec_name()) == Some(self),
    {
        reveal_strlit("Metals");
        reveal_strlit("RareMetals");
        reveal_strlit("Chemicals");
        reveal_strlit("Fuel");
        reveal_strlit("Food");
        reveal_strlit("Workers");
        reveal_strlit("Textiles");
        reveal_strlit("ConsumerGoods");
        reveal_strlit("Machinery");
        reveal_strlit("ConstructionMaterials");
        reveal_strlit("Electronics");
        reveal_strlit("Research");
        reveal_strlit("ShipParts");
        reveal_strlit("ShipPlating");
        // Names of different goods differ in length or in an early character.
        assert("Metals"@.len() == 6);
        assert("RareMetals"@.len() == 10);
        assert("Chemicals"@.len() == 9);
        assert("Fuel"@.len() == 4);
        assert("Food"@.len() == 4);
        assert("Workers"@.len() == 7);
        assert("Textiles"@.len() == 8);
        assert("ConsumerGoods"@.len() == 13);
        assert("Machinery"@.len() == 9);
        assert("ConstructionMaterials"@.len() == 21);
        assert("Electronics"@.len() == 11);
        assert("Research"@.len() == 8);
        assert("ShipParts"@.len() == 9);
        assert("ShipPlating"@.len() == 11);
        assert("Fuel"@[1] == 'u' && "Food"@[1] == 'o');
        assert("Machinery"@[0] == 'M' && "Chemicals"@[0] == 'C' && "ShipParts"@[0] == 'S');
        assert("Textiles"@[0] == 'T' && "Research"@[0] == 'R');
        assert("Electronics"@[0] == 'E' && "ShipPlating"@[0] == 'S');
    }
}

impl LocationType {
    /// The location type that carries a given name, if there is one.
    pub open spec fn spec_from_name(name: Seq<char>) -> Option<LocationType> {
        if name == "Planet"@ {
            Some(LocationType::Planet)
        } else if name == "Moon"@ {
            Some(LocationType::Moon)
        } else if name == "GasGiant"@ {
            Some(LocationType::GasGiant)
        } else if name == "Asteroid"@ {
            Some(LocationType::Asteroid)
        } else if name == "Wormhole"@ {
            Some(LocationType::Wormhole)
        } else {
            None
        }
    }

    /// Reads a location type back from its name.
    pub fn from_name(name: &String) -> (kind: Option<LocationType>)
        ensures
            kind == LocationType::spec_from_name(name@),
    {
        if *name == String::from_str("Planet") {
            Some(LocationType::Planet)
        } else if *name == String::from_str("Moon") {
            Some(LocationType::Moon)
        } else if *name == String::from_str("GasGiant") {
            Some(LocationType::GasGiant)
        } else if *name == String::from_str("Asteroid") {
            Some(LocationType::Asteroid)
        } else if *name == String::from_str("Wormhole") {
            Some(LocationType::Wormhole)
        } else {
            None
        }
    }

    /// A name written by `to_string` reads back as the same location type.
    pub proof fn lemma_name_round_trip(self)
        ensures
            LocationType::spec_from_name(self.spec_name()) == Some(self),
    {
        reveal_strlit("Planet");
        reveal_strlit("Moon");
        reveal_strlit("GasGiant");
        reveal_strlit("Asteroid");
        reveal_strlit("Wormhole");
        assert("Planet"@.len() == 6);
        assert("Moon"@.len() == 4);
        assert("GasGiant"@.len() == 8);
        assert("Asteroid"@.len() == 8);
        assert("Wormhole"@.len() == 8);
        assert("GasGiant"@[0] == 'G' && "Asteroid"@[0] == 'A' && "Wormhole"@[0] == 'W');
    }

    /// The name under which a location type is stored.
    pub open spec fn spec_name(self) -> Seq<char> {
        match self {
            LocationType::Planet => "Planet"@,
            LocationType::Moon => "Moon"@,
            LocationType::GasGiant => "GasGiant"@,
            LocationType::Asteroid => "Asteroid"@,
            LocationType::Wormhole => "Wormhole"@,
        }
    }

    /// The location type's name as text.
    pub fn to_string(&self) -> (name: String)
        ensures
            name@ == self.spec_name(),
    {
        match self {
            LocationType::Planet => String::from_str("Planet"),
            LocationType::Moon => String::from_str("Moon"),
            LocationType::GasGiant => String::from_str("GasGiant"),
            LocationType::Asteroid => String::from_str("Asteroid"),
            LocationType::Wormhole => String::from_str("Wormhole"),
        }
    }
}

/// Two ship values tell the same: every field agrees, the cargo entry by entry.
pub open spec fn same_ship(a: Ship, b: Ship) -> bool {
    &&& a.id == b.id
    &&& a.location == b.location
    &&& a.cargo@ == b.cargo@
    &&& a.space_available == b.space_available
    &&& a.ship_type == b.ship_type
    &&& a.class == b.class
    &&& a.max_cargo == b.max_cargo
    &&& a.speed == b.speed
    &&& a.manufacturer == b.manufacturer
    &&& a.plating == b.plating
    &&& a.weapons == b.weapons
}

impl Ship {
    /// A second value that tells the same as this one.
    pub fn replica(&self) -> (copy: Ship)
        ensures
            same_ship(copy, *self),
    {
        let location = match &self.location {
            Some(symbol) => Some(symbol.clone()),
            None => None,
        };
        let cargo = self.cargo.clone();
        assert(cargo@ =~= self.cargo@);
        Ship {
            id: self.id.clone(),
            location,
            cargo,
            space_available: self.space_available,
            ship_type: self.ship_type.clone(),
            class: self.class.clone(),
            max_cargo: self.max_cargo,
            speed: self.speed,
            manufacturer: self.manufacturer.clone(),
            plating: self.plating,
            weapons: self.weapons,
        }
    }
}

impl ErrorMessage {
    /// The envelope as one line of text: the code, then the message.
    pub open spec fn spec_text(self) -> Seq<char> {
        "Error Code: "@ + crate::text::decimal_text(self.error.code as int) + " Error Message: "@
            + self.error.message@
    }

    /// Writes the envelope as one line of text.
    pub fn to_string(&self) -> (text: String)
        ensures
            text@ == self.spec_text(),
    {
        String::from_str("Error Code: ").concat(
            crate::text::write_number(self.error.code).as_str(),
        ).concat(" Error Message: ").concat(self.error.message.as_str())
    }
}

} // verus!
