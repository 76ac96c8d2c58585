//! Decision core of an autonomous trading fleet for a space-economy game.
//!
//! The crate holds what the fleet decides: the per-ship state machines, the
//! ranking of trade routes, the reading of gateway responses, the choice of
//! ships to buy and the supervisor's reactions. Talking to the game server and
//! to the database is left to the caller, who performs each
//! [`ship_machines::Request`] and hands the result back as a
//! [`ship_machines::Event`].

pub mod arith;
pub mod cargo;
pub mod client;
pub mod clock;
pub mod db;
pub mod errors;
pub mod fuel_message;
pub mod funcs;
pub mod requests;
pub mod responses;
pub mod routes;
pub mod shared;
pub mod ship_machines;
pub mod supervisor;
pub mod text;
pub mod user;
