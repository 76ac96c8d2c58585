//! Cargo and fuel rules shared by every ship machine.

use crate::arith::{clamp_i32, saturate_i32};
use crate::shared::{Cargo, Good, Ship};
use vstd::prelude::*;

verus! {

/// The fuel on board: the quantities of all cargo entries that hold fuel.
pub open spec fn fuel_total(cargo: Seq<Cargo>) -> int
    decreases cargo.len(),
{
    if cargo.len() == 0 {
        0
    } else {
        fuel_total(cargo.drop_last()) + if cargo.last().good == Good::Fuel {
            cargo.last().quantity as int
        } else {
            0
        }
    }
}

/// The fuel a ship carries, saturated to the range of `i32`.
pub fn current_fuel(ship: &Ship) -> (fuel: i32)
    ensures
        fuel as int == clamp_i32(fuel_total(ship.cargo@)),
{
    let mut sum: i128 = 0;
    let mut i: usize = 0;
    while i < ship.cargo.len()
        invariant
            i <= ship.cargo.len(),
            sum as int == fuel_total(ship.cargo@.take(i as int)),
            -(i as int) * 0x8000_0000 <= sum as int <= (i as int) * 0x8000_0000,
        decreases ship.cargo.len() - i,
    {
        let entry = ship.cargo[i];
        proof {
            assert(ship.cargo@.take(i as int + 1).drop_last() =~= ship.cargo@.take(i as int));
            assert(ship.cargo@.take(i as int + 1).last() == entry);
        }
        if entry.good == Good::Fuel {
            sum = sum + entry.quantity as i128;
        }
        i = i + 1;
    }
    proof {
        assert(ship.cargo@.take(i as int) =~= ship.cargo@);
    }
    saturate_i32(sum)
}

/// The fuel still to be bought for a trip that is known to burn `required`,
/// on a ship that carries `current`: the difference, and nothing where the
/// ship carries enough.
pub open spec fn spec_additional_fuel(required: int, current: int) -> int {
    if required - current > 0 {
        required - current
    } else {
        0
    }
}

/// Works out the fuel still to be bought for a trip, saturated to the range
/// of `i32`.
pub fn additional_fuel(required: i32, current: i32) -> (additional: i32)
    ensures
        additional as int == clamp_i32(spec_additional_fuel(required as int, current as int)),
        additional >= 0,
{
    let difference: i64 = required as i64 - current as i64;
    if difference > 0 {
        saturate_i32(difference as i128)
    } else {
        0
    }
}

/// One cargo entry after a flight that burned `consumed` units of fuel.
pub open spec fn entry_after_flight(entry: Cargo, consumed: int) -> Cargo {
    if entry.good == Good::Fuel {
        Cargo {
            good: entry.good,
            quantity: clamp_i32(entry.quantity - consumed) as i32,
            total_volume: entry.total_volume,
        }
    } else {
        entry
    }
}

/// The cargo after a flight that burned `consumed` units of fuel: every fuel
/// entry shrinks by that amount, everything else stays.
pub open spec fn cargo_after_flight(cargo: Seq<Cargo>, consumed: int) -> Seq<Cargo> {
    Seq::new(cargo.len(), |i: int| entry_after_flight(cargo[i], consumed))
}

/// Takes the fuel a flight burned out of the cargo.
pub fn consume_fuel(cargo: &mut Vec<Cargo>, consumed: i32)
    ensures
        final(cargo)@ == cargo_after_flight(old(cargo)@, consumed as int),
{
    let mut i: usize = 0;
    while i < cargo.len()
        invariant
            i <= cargo.len(),
            cargo.len() == old(cargo).len(),
            forall|k: int| 0 <= k < i ==> cargo@[k] == entry_after_flight(old(cargo)@[k], consumed as int),
            forall|k: int| i <= k < cargo.len() ==> cargo@[k] == old(cargo)@[k],
        decreases cargo.len() - i,
    {
        let entry = cargo[i];
        if entry.good == Good::Fuel {
            let left = saturate_i32(entry.quantity as i128 - consumed as i128);
            cargo.set(i, Cargo { good: entry.good, quantity: left, total_volume: entry.total_volume });
        }
        i = i + 1;
    }
    assert(cargo@ =~= cargo_after_flight(old(cargo)@, consumed as int));
}

/// The cargo holds at least one entry with a positive quantity.
pub open spec fn has_goods(cargo: Seq<Cargo>) -> bool {
    exists|i: int| 0 <= i < cargo.len() && (#[trigger] cargo[i]).quantity > 0
}

/// The position of the first cargo entry with a positive quantity.
pub open spec fn first_goods(cargo: Seq<Cargo>) -> int
    recommends
        has_goods(cargo),
{
    choose|i: int|
        0 <= i < cargo.len() && (#[trigger] cargo[i]).quantity > 0 && forall|j: int|
            0 <= j < i ==> (#[trigger] cargo[j]).quantity <= 0
}

/// Finds the first cargo entry that can be sold.
pub fn next_to_sell(ship: &Ship) -> (found: Option<Cargo>)
    ensures
        found is Some == has_goods(ship.cargo@),
        found matches Some(entry) ==> entry == ship.cargo@[first_goods(ship.cargo@)],
{
    let mut i: usize = 0;
    while i < ship.cargo.len()
        invariant
            i <= ship.cargo.len(),
            forall|j: int| 0 <= j < i ==> (#[trigger] ship.cargo@[j]).quantity <= 0,
        decreases ship.cargo.len() - i,
    {
        let entry = ship.cargo[i];
        if entry.quantity > 0 {
            proof {
                let cargo = ship.cargo@;
                let w = first_goods(cargo);
                assert(0 <= i < cargo.len() && cargo[i as int].quantity > 0 && forall|j: int|
                    0 <= j < i ==> (#[trigger] cargo[j]).quantity <= 0);
                assert(w == i as int) by {
                    if w < i {
                        assert(cargo[w].quantity <= 0);
                    }
                    if i < w {
                        assert(cargo[i as int].quantity <= 0);
                    }
                }
            }
            return Some(entry);
        }
        i = i + 1;
    }
    None
}

/// The number of cargo entries that hold fuel.
pub open spec fn fuel_entries(cargo: Seq<Cargo>) -> nat
    decreases cargo.len(),
{
    if cargo.len() == 0 {
        0
    } else {
        fuel_entries(cargo.drop_last()) + if cargo.last().good == Good::Fuel {
            1nat
        } else {
            0nat
        }
    }
}

/// Every fuel entry can give up `consumed` units within the range of `i32`.
pub open spec fn burns_exactly(cargo: Seq<Cargo>, consumed: int) -> bool {
    forall|i: int|
        0 <= i < cargo.len() && (#[trigger] cargo[i]).good == Good::Fuel ==> i32::MIN
            <= cargo[i].quantity - consumed <= i32::MAX
}

/// A flight takes what it burned out of every fuel entry and leaves all
/// other cargo as it was.
pub proof fn lemma_flight_burns_fuel(cargo: Seq<Cargo>, consumed: int)
    requires
        burns_exactly(cargo, consumed),
    ensures
        fuel_total(cargo_after_flight(cargo, consumed)) == fuel_total(cargo) - consumed
            * fuel_entries(cargo),
        cargo_after_flight(cargo, consumed).len() == cargo.len(),
        forall|i: int|
            0 <= i < cargo.len() && (#[trigger] cargo[i]).good != Good::Fuel
                ==> cargo_after_flight(cargo, consumed)[i] == cargo[i],
    decreases cargo.len(),
{
    if cargo.len() > 0 {
        let front = cargo.drop_last();
        assert forall|i: int|
            0 <= i < front.len() && (#[trigger] front[i]).good == Good::Fuel implies i32::MIN
            <= front[i].quantity - consumed <= i32::MAX by {
            assert(front[i] == cargo[i]);
        }
        lemma_flight_burns_fuel(front, consumed);
        assert(cargo_after_flight(cargo, consumed).drop_last() =~= cargo_after_flight(
            front,
            consumed,
        ));
        let last = cargo[cargo.len() - 1];
        assert(cargo_after_flight(cargo, consumed).last() == entry_after_flight(last, consumed));
        let n = fuel_entries(front) as int;
        assert(consumed * (n + 1) == consumed * n + consumed) by (nonlinear_arith);
    } else {
        assert(consumed * 0 == 0) by (nonlinear_arith);
    }
}

/// The cargo maps goods to quantities: no good has two entries.
pub open spec fn is_mapping(cargo: Seq<Cargo>) -> bool {
    forall|i: int, j: int|
        0 <= i < j < cargo.len() ==> (#[trigger] cargo[i]).good != (#[trigger] cargo[j]).good
}

/// A cargo that maps goods to quantities holds its fuel in at most one
/// entry.
pub proof fn lemma_mapping_has_one_fuel_entry(cargo: Seq<Cargo>)
    requires
        is_mapping(cargo),
    ensures
        fuel_entries(cargo) <= 1,
        fuel_entries(cargo) == 1 <==> exists|i: int|
            0 <= i < cargo.len() && (#[trigger] cargo[i]).good == Good::Fuel,
    decreases cargo.len(),
{
    if cargo.len() > 0 {
        let front = cargo.drop_last();
        let last = cargo.len() - 1;
        assert forall|i: int, j: int| 0 <= i < j < front.len() implies (#[trigger] front[i]).good
            != (#[trigger] front[j]).good by {
            assert(front[i] == cargo[i] && front[j] == cargo[j]);
        }
        lemma_mapping_has_one_fuel_entry(front);
        if cargo[last].good == Good::Fuel {
            if fuel_entries(front) == 1 {
                let i = choose|i: int| 0 <= i < front.len() && (#[trigger] front[i]).good == Good::Fuel;
                assert(front[i] == cargo[i]);
                assert(cargo[i].good != cargo[last].good);
            }
            assert(cargo[last].good == Good::Fuel);
        } else {
            if fuel_entries(front) == 1 {
                let i = choose|i: int| 0 <= i < front.len() && (#[trigger] front[i]).good == Good::Fuel;
                assert(front[i] == cargo[i]);
            }
            if exists|i: int| 0 <= i < cargo.len() && (#[trigger] cargo[i]).good == Good::Fuel {
                let i = choose|i: int| 0 <= i < cargo.len() && (#[trigger] cargo[i]).good == Good::Fuel;
                assert(i < last);
                assert(front[i] == cargo[i]);
            }
        }
    }
}

/// Where the cargo holds its fuel in one entry, the fuel on board shrinks by
/// exactly what the flight burned.
pub proof fn lemma_flight_burns_consumed(cargo: Seq<Cargo>, consumed: int)
    requires
        burns_exactly(cargo, consumed),
        fuel_entries(cargo) == 1,
    ensures
        fuel_total(cargo_after_flight(cargo, consumed)) == fuel_total(cargo) - consumed,
{
    lemma_flight_burns_fuel(cargo, consumed);
    assert(consumed * 1 == consumed) by (nonlinear_arith);
}

} // verus!
