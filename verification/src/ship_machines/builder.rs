//! Setting up the machine for a ship, piece by piece.

use crate::shared::{Ship, Timestamp};
use crate::ship_machines::scout::Scout;
use crate::ship_machines::system_change::{fresh_trader, SystemChange};
use crate::ship_machines::trader::Trader;
use crate::ship_machines::{MachineType, ShipAssignment, ShipMachine};
use vstd::prelude::*;

verus! {

/// What has been given so far of the machine to set up.
#[derive(Debug, Clone, PartialEq, Eq)]
pub struct ShipMachineBuilder {
    pub assignment: Option<ShipAssignment>,
    pub user_id: Option<String>,
    pub username: Option<String>,
    pub system: Option<String>,
    pub location: Option<String>,
    pub ship: Option<Ship>,
}

impl ShipMachineBuilder {
    /// A builder to which nothing has been given yet.
    pub fn new() -> (builder: ShipMachineBuilder)
        ensures
            builder == (ShipMachineBuilder {
                assignment: None,
                user_id: None,
                username: None,
                system: None,
                location: None,
                ship: None,
            }),
    {
        ShipMachineBuilder {
            assignment: None,
            user_id: None,
            username: None,
            system: None,
            location: None,
            ship: None,
        }
    }

    /// Gives the id of the account that owns the ship.
    pub fn user_id(&mut self, user_id: String) -> (builder: &mut Self)
        ensures
            *builder == (ShipMachineBuilder { user_id: Some(user_id), ..*old(self) }),
            *final(self) == *final(builder),
    {
        self.user_id = Some(user_id);
        self
    }

    /// Gives the name of the account that owns the ship.
    pub fn username(&mut self, username: String) -> (builder: &mut Self)
        ensures
            *builder == (ShipMachineBuilder { username: Some(username), ..*old(self) }),
            *final(self) == *final(builder),
    {
        self.username = Some(username);
        self
    }

    /// Gives the system that the ship belongs to.
    pub fn system(&mut self, system: String) -> (builder: &mut Self)
        ensures
            *builder == (ShipMachineBuilder { system: Some(system), ..*old(self) }),
            *final(self) == *final(builder),
    {
        self.system = Some(system);
        self
    }

    /// Gives the location that a scout is to watch.
    pub fn location(&mut self, location: String) -> (builder: &mut Self)
        ensures
            *builder == (ShipMachineBuilder { location: Some(location), ..*old(self) }),
            *final(self) == *final(builder),
    {
        self.location = Some(location);
        self
    }

    /// Gives what the ship is for.
    pub fn assignment(&mut self, assignment: ShipAssignment) -> (builder: &mut Self)
        ensures
            *builder == (ShipMachineBuilder { assignment: Some(assignment), ..*old(self) }),
            *final(self) == *final(builder),
    {
        self.assignment = Some(assignment);
        self
    }

    /// Gives the ship.
    pub fn ship(&mut self, ship: Ship) -> (builder: &mut Self)
        ensures
            *builder == (ShipMachineBuilder { ship: Some(ship), ..*old(self) }),
            *final(self) == *final(builder),
    {
        self.ship = Some(ship);
        self
    }

    /// Everything a machine needs has been given: the ship, the account, the
    /// system and the assignment, and for a scout its location.
    pub open spec fn spec_is_complete(&self) -> bool {
        &&& self.ship is Some
        &&& self.user_id is Some
        &&& self.username is Some
        &&& self.system is Some
        &&& self.assignment is Some
        &&& (self.assignment == Some(ShipAssignment::Scout) ==> self.location is Some)
    }

    #[verifier::when_used_as_spec(spec_is_complete)]
    pub fn is_complete(&self) -> (complete: bool)
        ensures
            complete == self.spec_is_complete(),
    {
        self.ship.is_some() && self.user_id.is_some() && self.username.is_some()
            && self.system.is_some() && match self.assignment {
            None => false,
            Some(ShipAssignment::Scout) => self.location.is_some(),
            Some(_) => true,
        }
    }

    /// The machine that a complete builder describes, set up at time `now`.
    pub open spec fn builds(self, now: Timestamp, machine: ShipMachine) -> bool
        recommends
            self.spec_is_complete(),
    {
        let ship = self.ship->0;
        &&& machine.user_id == self.user_id->0
        &&& machine.username == self.username->0
        &&& machine.ship_id == ship.id
        &&& machine.system == self.system->0
        &&& machine.location@ == match self.location {
            Some(location) => location@,
            None => Seq::<char>::empty(),
        }
        &&& match self.assignment->0 {
            ShipAssignment::Trader => machine.machine matches MachineType::Trader(m)
                && fresh_trader(m, self.user_id->0, self.username->0, self.system->0, ship, now),
            ShipAssignment::Scout => machine.machine matches MachineType::Scout(m) && m.fresh(
                self.user_id->0,
                self.username->0,
                self.system->0,
                self.location->0,
                ship,
                now,
            ),
            ShipAssignment::SystemChange => machine.machine matches MachineType::SystemChange(m)
                && m.fresh(self.user_id->0, self.username->0, self.system->0, ship, now),
        }
    }

    /// Sets the machine up. The builder must be complete.
    pub fn build(&self, now: Timestamp) -> (machine: ShipMachine)
        requires
            self.spec_is_complete(),
        ensures
            self.builds(now, machine),
    {
        let ship = self.ship.as_ref().unwrap();
        let user_id = match &self.user_id {
            Some(text) => text.clone(),
            None => String::new(),
        };
        let username = match &self.username {
            Some(text) => text.clone(),
            None => String::new(),
        };
        let system = match &self.system {
            Some(text) => text.clone(),
            None => String::new(),
        };
        let location = match &self.location {
            Some(text) => text.clone(),
            None => String::new(),
        };
        let assignment = match self.assignment {
            Some(assignment) => assignment,
            None => ShipAssignment::Trader,
        };
        let machine = match assignment {
            ShipAssignment::Trader => MachineType::Trader(
                Trader::new(user_id.clone(), username.clone(), system.clone(), ship.replica(), now),
            ),
            ShipAssignment::Scout => MachineType::Scout(
                Scout::new(
                    user_id.clone(),
                    username.clone(),
                    system.clone(),
                    location.clone(),
                    ship.replica(),
                    now,
                ),
            ),
            ShipAssignment::SystemChange => MachineType::SystemChange(
                SystemChange::new(
                    user_id.clone(),
                    username.clone(),
                    system.clone(),
                    ship.replica(),
                    now,
                ),
            ),
        };
        ShipMachine { machine, user_id, username, ship_id: ship.id.clone(), system, location }
    }
}

} // verus!
