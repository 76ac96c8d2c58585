//! The stored map of the systems: writing a location, and finding the
//! locations and the wormholes of a system.

use crate::db::DbSystemLocation;
use crate::routes::{has_info, info_index};
use crate::text::occurs_in;
use vstd::prelude::*;

verus! {

/// Two rows tell of the same location of the same system.
pub open spec fn same_place(a: DbSystemLocation, b: DbSystemLocation) -> bool {
    a.system@ == b.system@ && a.location@ == b.location@
}

/// The map holds a row for the place that `row` tells of.
pub open spec fn has_place(rows: Seq<DbSystemLocation>, row: DbSystemLocation) -> bool {
    exists|i: int| 0 <= i < rows.len() && same_place(#[trigger] rows[i], row)
}

/// The position of the first row for the place that `row` tells of.
pub open spec fn place_index(rows: Seq<DbSystemLocation>, row: DbSystemLocation) -> int
    recommends
        has_place(rows, row),
{
    choose|i: int|
        0 <= i < rows.len() && same_place(#[trigger] rows[i], row) && forall|j: int|
            0 <= j < i ==> !same_place(#[trigger] rows[j], row)
}

/// The map after `row` was written: the row takes the place of the first row
/// that tells of the same location, or joins the map where there is none.
pub open spec fn upsert_place(rows: Seq<DbSystemLocation>, row: DbSystemLocation) -> Seq<
    DbSystemLocation,
> {
    if has_place(rows, row) {
        rows.update(place_index(rows, row), row)
    } else {
        rows.push(row)
    }
}

/// Where the map holds the place at all, it holds it at a first position.
proof fn lemma_first_place(rows: Seq<DbSystemLocation>, row: DbSystemLocation, from: int)
    requires
        0 <= from <= rows.len(),
        forall|j: int| 0 <= j < from ==> !same_place(#[trigger] rows[j], row),
        exists|i: int| from <= i < rows.len() && same_place(#[trigger] rows[i], row),
    ensures
        0 <= place_index(rows, row) < rows.len(),
        same_place(rows[place_index(rows, row)], row),
        forall|j: int| 0 <= j < place_index(rows, row) ==> !same_place(#[trigger] rows[j], row),
    decreases rows.len() - from,
{
    if same_place(rows[from], row) {
        assert(0 <= from < rows.len() && same_place(rows[from], row) && forall|j: int|
            0 <= j < from ==> !same_place(#[trigger] rows[j], row));
    } else {
        lemma_first_place(rows, row, from + 1);
    }
}

/// Writing the same row twice leaves the map as writing it once.
pub proof fn lemma_upsert_place_twice(rows: Seq<DbSystemLocation>, row: DbSystemLocation)
    ensures
        upsert_place(upsert_place(rows, row), row) == upsert_place(rows, row),
{
    let once = upsert_place(rows, row);
    if has_place(rows, row) {
        lemma_first_place(rows, row, 0);
        let at = place_index(rows, row);
        assert(once[at] == row);
        assert(same_place(once[at], row));
        let again = place_index(once, row);
        assert forall|j: int| 0 <= j < at implies !same_place(#[trigger] once[j], row) by {
            assert(once[j] == rows[j]);
        }
        assert(again == at) by {
            if again < at {
                assert(!same_place(once[again], row));
            }
            if at < again {
                assert(same_place(once[at], row));
            }
        }
        assert(once.update(at, row) =~= once);
    } else {
        let at = rows.len() as int;
        assert(once[at] == row);
        assert(same_place(once[at], row));
        let again = place_index(once, row);
        assert forall|j: int| 0 <= j < at implies !same_place(#[trigger] once[j], row) by {
            assert(once[j] == rows[j]);
        }
        assert(again == at) by {
            if again < at {
                assert(!same_place(once[again], row));
            }
        }
        assert(once.update(at, row) =~= once);
    }
}

/// The symbols of the locations of a system, in the order of the map.
pub open spec fn locations_of_system(rows: Seq<DbSystemLocation>, system: Seq<char>) -> Seq<
    Seq<char>,
>
    decreases rows.len(),
{
    if rows.len() == 0 {
        Seq::<Seq<char>>::empty()
    } else if rows.last().system@ == system {
        locations_of_system(rows.drop_last(), system).push(rows.last().location@)
    } else {
        locations_of_system(rows.drop_last(), system)
    }
}

/// The symbols of the locations that lie in the same system as `location`;
/// none where the map does not hold the location.
pub open spec fn system_locations_from(rows: Seq<DbSystemLocation>, location: Seq<char>) -> Seq<
    Seq<char>,
> {
    if has_info(rows, location) {
        locations_of_system(rows, rows[info_index(rows, location)].system@)
    } else {
        Seq::<Seq<char>>::empty()
    }
}

/// The row tells of a wormhole of the system `home` that leads to `target`:
/// its type is that of a wormhole and its symbol contains the target's.
pub open spec fn is_wormhole_to(row: DbSystemLocation, home: Seq<char>, target: Seq<char>) -> bool {
    &&& row.system@ == home
    &&& row.location_type@ == "Wormhole"@
    &&& occurs_in(target, row.location@)
}

/// The system `home` has a wormhole that leads to `target`.
pub open spec fn has_wormhole(rows: Seq<DbSystemLocation>, home: Seq<char>, target: Seq<char>) -> bool {
    exists|i: int| 0 <= i < rows.len() && is_wormhole_to(#[trigger] rows[i], home, target)
}

/// The position of the first wormhole of `home` that leads to `target`.
pub open spec fn wormhole_index(rows: Seq<DbSystemLocation>, home: Seq<char>, target: Seq<char>) -> int
    recommends
        has_wormhole(rows, home, target),
{
    choose|i: int|
        0 <= i < rows.len() && is_wormhole_to(#[trigger] rows[i], home, target) && forall|j: int|
            0 <= j < i ==> !is_wormhole_to(#[trigger] rows[j], home, target)
}

} // verus!
