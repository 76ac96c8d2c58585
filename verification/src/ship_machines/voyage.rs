//! Leaving for a destination: find out how much fuel the trip needs, buy what
//! is missing, then file the flight plan.

use crate::arith::{clamp_i32, min_i32, min_int};
use crate::cargo::{
    additional_fuel, cargo_after_flight, consume_fuel, current_fuel, fuel_total,
    spec_additional_fuel,
};
use crate::errors::ClientError;
use crate::fuel_message::{
    fuel_pattern, fuel_shortfall, regex_first_groups, spec_shortfall_from_groups,
};
use crate::shared::{FlightPlanData, Good, Ship};
use crate::ship_machines::{failure_of, spec_failure_of, Event, Request, StepError};
use vstd::prelude::*;

verus! {

/// How far the preparations for a flight have come.
#[derive(Debug, Clone, Copy, PartialEq, Eq, Structural)]
pub enum VoyagePhase {
    /// Ask the store what the trip burned before.
    LookUpFuel,
    /// The store does not know: let the server refuse a plan and say how
    /// much fuel is missing.
    ProbeFuel,
    /// Buy the missing fuel, as far as the hold has room.
    BuyFuel(i32),
    /// File the flight plan.
    Depart,
}

/// What a step of the preparations came to.
#[derive(Debug, Clone, PartialEq, Eq)]
pub enum VoyageProgress {
    /// On to the next phase.
    Waiting,
    /// Fuel was bought; the account now holds this many credits.
    Paid(i32),
    /// The ship is under way on this plan.
    Departed(FlightPlanData),
}

/// The fuel to order in phase `BuyFuel`: what is missing, capped by the room
/// in the hold.
pub open spec fn fuel_order_quantity(missing: int, space_available: int) -> int {
    min_int(missing, space_available)
}

/// The phase that follows once the missing fuel is known.
pub open spec fn phase_for_missing(missing: int) -> VoyagePhase {
    if missing > 0 {
        VoyagePhase::BuyFuel(missing as i32)
    } else {
        VoyagePhase::Depart
    }
}

/// The request that each phase stands for.
pub open spec fn spec_voyage_request(
    phase: VoyagePhase,
    ship: Ship,
    user_id: String,
    origin: String,
    destination: String,
) -> Request {
    match phase {
        VoyagePhase::LookUpFuel => Request::GetFuelRequired {
            origin,
            destination,
            ship_type: ship.ship_type,
        },
        VoyagePhase::ProbeFuel => Request::ProbeFlightPlan { ship_id: ship.id, destination },
        VoyagePhase::BuyFuel(missing) => if fuel_order_quantity(
            missing as int,
            ship.space_available as int,
        ) > 0 {
            Request::CreatePurchaseOrder {
                user_id,
                ship_id: ship.id,
                good: Good::Fuel,
                quantity: fuel_order_quantity(missing as int, ship.space_available as int) as i32,
            }
        } else {
            Request::Nothing
        },
        VoyagePhase::Depart => Request::CreateFlightPlan {
            user_id,
            ship_id: ship.id,
            destination,
        },
    }
}

/// The request that the phase stands for.
pub fn voyage_request(
    phase: VoyagePhase,
    ship: &Ship,
    user_id: &String,
    origin: &String,
    destination: &String,
) -> (request: Request)
    ensures
        request == spec_voyage_request(phase, *ship, *user_id, *origin, *destination),
{
    match phase {
        VoyagePhase::LookUpFuel => Request::GetFuelRequired {
            origin: origin.clone(),
            destination: destination.clone(),
            ship_type: ship.ship_type.clone(),
        },
        VoyagePhase::ProbeFuel => Request::ProbeFlightPlan {
            ship_id: ship.id.clone(),
            destination: destination.clone(),
        },
        VoyagePhase::BuyFuel(missing) => {
            let quantity = min_i32(missing, ship.space_available);
            if quantity > 0 {
                Request::CreatePurchaseOrder {
                    user_id: user_id.clone(),
                    ship_id: ship.id.clone(),
                    good: Good::Fuel,
                    quantity,
                }
            } else {
                Request::Nothing
            }
        },
        VoyagePhase::Depart => Request::CreateFlightPlan {
            user_id: user_id.clone(),
            ship_id: ship.id.clone(),
            destination: destination.clone(),
        },
    }
}

/// The ship after it left on a flight that burns `consumed` units of fuel: no
/// location any more, the fuel gone from the cargo, all else as before.
pub open spec fn ship_departed(before: Ship, after: Ship, consumed: int) -> bool {
    &&& after.id == before.id
    &&& after.location is None
    &&& after.cargo@ == cargo_after_flight(before.cargo@, consumed)
    &&& after.space_available == before.space_available
    &&& after.ship_type == before.ship_type
    &&& after.class == before.class
    &&& after.max_cargo == before.max_cargo
    &&& after.speed == before.speed
    &&& after.manufacturer == before.manufacturer
    &&& after.plating == before.plating
    &&& after.weapons == before.weapons
}

/// The fuel that is missing for a trip known to burn `required`.
pub open spec fn missing_for(required: int, ship: Ship) -> int {
    clamp_i32(spec_additional_fuel(required, clamp_i32(fuel_total(ship.cargo@))))
}

/// One step of the preparations: how phase and ship change on an event, and
/// what is reported.
pub open spec fn voyage_transition(
    phase: VoyagePhase,
    ship: Ship,
    event: Event,
    next_phase: VoyagePhase,
    next_ship: Ship,
    result: Result<VoyageProgress, StepError>,
) -> bool {
    match (phase, event) {
        (VoyagePhase::LookUpFuel, Event::FuelRequired(Some(required))) => {
            &&& next_phase == phase_for_missing(missing_for(required as int, ship))
            &&& next_ship == ship
            &&& result == Ok::<VoyageProgress, StepError>(VoyageProgress::Waiting)
        },
        (VoyagePhase::LookUpFuel, Event::FuelRequired(None)) => {
            &&& next_phase == VoyagePhase::ProbeFuel
            &&& next_ship == ship
            &&& result == Ok::<VoyageProgress, StepError>(VoyageProgress::Waiting)
        },
        (VoyagePhase::ProbeFuel, Event::ClientFailed(ClientError::ApiError(refusal))) => {
            match spec_shortfall_from_groups(
                regex_first_groups(fuel_pattern(), refusal.error.message@),
            ) {
                Ok(missing) => {
                    &&& next_phase == phase_for_missing(missing)
                    &&& next_ship == ship
                    &&& result == Ok::<VoyageProgress, StepError>(VoyageProgress::Waiting)
                },
                Err(unreadable) => {
                    &&& next_phase == phase
                    &&& next_ship == ship
                    &&& result == Err::<VoyageProgress, StepError>(
                        StepError::FuelMessage(unreadable),
                    )
                },
            }
        },
        (VoyagePhase::ProbeFuel, Event::FlightPlan(_)) => {
            &&& next_phase == phase
            &&& next_ship == ship
            &&& result == Err::<VoyageProgress, StepError>(StepError::ProbeSucceeded)
        },
        (VoyagePhase::BuyFuel(missing), Event::Order(order)) => if fuel_order_quantity(
            missing as int,
            ship.space_available as int,
        ) > 0 {
            &&& next_phase == VoyagePhase::Depart
            &&& next_ship == order.ship
            &&& result == Ok::<VoyageProgress, StepError>(VoyageProgress::Paid(order.credits))
        } else {
            &&& next_phase == phase
            &&& next_ship == ship
            &&& result == Err::<VoyageProgress, StepError>(StepError::UnexpectedEvent)
        },
        (VoyagePhase::BuyFuel(missing), Event::Tick) => {
            &&& next_phase == phase
            &&& next_ship == ship
            &&& result == Err::<VoyageProgress, StepError>(
                if fuel_order_quantity(missing as int, ship.space_available as int) > 0 {
                    StepError::UnexpectedEvent
                } else {
                    StepError::RefusedEmptyOrder
                },
            )
        },
        (VoyagePhase::Depart, Event::FlightPlan(plan)) => {
            &&& next_phase == phase
            &&& ship_departed(ship, next_ship, plan.flight_plan.fuel_consumed as int)
            &&& result == Ok::<VoyageProgress, StepError>(
                VoyageProgress::Departed(plan.flight_plan),
            )
        },
        _ => {
            &&& next_phase == phase
            &&& next_ship == ship
            &&& result == Err::<VoyageProgress, StepError>(spec_failure_of(event))
        },
    }
}

/// Takes one step of the preparations.
pub fn voyage_step(phase: &mut VoyagePhase, ship: &mut Ship, event: Event) -> (result: Result<
    VoyageProgress,
    StepError,
>)
    ensures
        voyage_transition(*old(phase), *old(ship), event, *final(phase), *final(ship), result),
{
    match *phase {
        VoyagePhase::LookUpFuel => match event {
            Event::FuelRequired(Some(required)) => {
                let missing = additional_fuel(required, current_fuel(ship));
                *phase = if missing > 0 {
                    VoyagePhase::BuyFuel(missing)
                } else {
                    VoyagePhase::Depart
                };
                Ok(VoyageProgress::Waiting)
            },
            Event::FuelRequired(None) => {
                *phase = VoyagePhase::ProbeFuel;
                Ok(VoyageProgress::Waiting)
            },
            other => Err(failure_of(other)),
        },
        VoyagePhase::ProbeFuel => match event {
            Event::ClientFailed(ClientError::ApiError(refusal)) => {
                match fuel_shortfall(refusal.error.message.as_str()) {
                    Ok(missing) => {
                        *phase = if missing > 0 {
                            VoyagePhase::BuyFuel(missing)
                        } else {
                            VoyagePhase::Depart
                        };
                        Ok(VoyageProgress::Waiting)
                    },
                    Err(unreadable) => Err(StepError::FuelMessage(unreadable)),
                }
            },
            Event::FlightPlan(_) => Err(StepError::ProbeSucceeded),
            other => Err(failure_of(other)),
        },
        VoyagePhase::BuyFuel(missing) => {
            let quantity = min_i32(missing, ship.space_available);
            match event {
                Event::Order(order) => {
                    if quantity > 0 {
                        *ship = order.ship;
                        *phase = VoyagePhase::Depart;
                        Ok(VoyageProgress::Paid(order.credits))
                    } else {
                        Err(StepError::UnexpectedEvent)
                    }
                },
                Event::Tick => {
                    if quantity > 0 {
                        Err(StepError::UnexpectedEvent)
                    } else {
                        Err(StepError::RefusedEmptyOrder)
                    }
                },
                other => Err(failure_of(other)),
            }
        },
        VoyagePhase::Depart => match event {
            Event::FlightPlan(plan) => {
                ship.location = None;
                consume_fuel(&mut ship.cargo, plan.flight_plan.fuel_consumed);
                Ok(VoyageProgress::Departed(plan.flight_plan))
            },
            other => Err(failure_of(other)),
        },
    }
}

/// Fuel is bought exactly when fuel is missing: once the store has named the
/// fuel that the trip takes, the next phase buys fuel where the ship carries
/// less, and files the plan at once where it carries enough.
pub proof fn lemma_fuel_bought_iff_missing(
    ship: Ship,
    required: i32,
    next_phase: VoyagePhase,
    next_ship: Ship,
    result: Result<VoyageProgress, StepError>,
)
    requires
        voyage_transition(
            VoyagePhase::LookUpFuel,
            ship,
            Event::FuelRequired(Some(required)),
            next_phase,
            next_ship,
            result,
        ),
    ensures
        next_phase is BuyFuel <==> required - clamp_i32(fuel_total(ship.cargo@)) > 0,
        !(next_phase is BuyFuel) ==> next_phase == VoyagePhase::Depart,
        next_phase matches VoyagePhase::BuyFuel(missing) ==> missing as int == missing_for(
            required as int,
            ship,
        ),
{
}

/// The order for missing fuel never asks for more than is missing, nor for
/// more than the hold has room for.
pub proof fn lemma_fuel_order_is_capped(
    missing: i32,
    ship: Ship,
    user_id: String,
    origin: String,
    destination: String,
)
    ensures
        match spec_voyage_request(VoyagePhase::BuyFuel(missing), ship, user_id, origin, destination) {
            Request::CreatePurchaseOrder { good, quantity, .. } => good == Good::Fuel && 0 < quantity
                <= missing && quantity <= ship.space_available && (quantity == missing || quantity
                == ship.space_available),
            Request::Nothing => missing <= 0 || ship.space_available <= 0,
            _ => false,
        },
{
}

} // verus!
