//! The supervisor's decisions: how the process starts up, and what a user
//! task does with what its machines report.

use crate::client::{extend, join};
use crate::clock::{chrono_format, format_instant, text_view};
use crate::db::DbSystemLocation;
use crate::errors::ClientError;
use crate::responses::{GameStatus, SystemsInfo};
use crate::shared::{SystemsInfoData, Timestamp};
use crate::ship_machines::{PollResult, ShipAssignment, StepError};
use crate::text::same_text;
use crate::user::{ShipRanking, User};
use vstd::prelude::*;

verus! {

/// The wait between two looks at a server in maintenance, in milliseconds.
pub const MAINTENANCE_BACKOFF: u64 = 60_000;

/// The wait between two rounds of a user task, in milliseconds.
pub const ROUND_PAUSE: u64 = 1_000;

/// The credits that an account keeps per ship before it buys another.
pub const CREDITS_PER_SHIP: i64 = 1_000_000;

/// The number of ships beyond which an account buys no more.
pub const FLEET_LIMIT: usize = 50;

/// The credits beyond which an account pays off a loan.
pub const LOAN_PAYOFF_CREDITS: i32 = 1_000_000;

/// The server is in maintenance: the game status could not be had because
/// the service is unavailable.
pub open spec fn spec_in_maintenance(status: Result<GameStatus, ClientError>) -> bool {
    status matches Err(ClientError::ServiceUnavailable)
}

/// What the start-up does after a look at the game status.
#[derive(Debug, Clone, Copy, PartialEq, Eq, Structural)]
pub enum StartupStep {
    /// Wait for this many milliseconds, then look again.
    Wait(u64),
    /// Go on with the start-up.
    Proceed,
}

/// Waits through maintenance: while the service is unavailable the start-up
/// waits a minute and looks again; anything else lets it go on.
pub fn await_service(status: &Result<GameStatus, ClientError>) -> (step: StartupStep)
    ensures
        step == if spec_in_maintenance(*status) {
            StartupStep::Wait(MAINTENANCE_BACKOFF)
        } else {
            StartupStep::Proceed
        },
{
    match status {
        Err(ClientError::ServiceUnavailable) => StartupStep::Wait(MAINTENANCE_BACKOFF),
        _ => StartupStep::Proceed,
    }
}

/// What the process does when the primary account cannot be set up.
#[derive(Debug, Clone, Copy, PartialEq, Eq, Structural)]
pub enum BootstrapFailure {
    /// Move the tables into an archive, then stop so that the process is
    /// started afresh.
    ArchiveAndStop,
    /// Stop.
    Stop,
}

/// Decides what to do when the primary account cannot be set up: the server
/// is taken to have been reset, and the tables are archived where that is
/// enabled.
pub fn on_bootstrap_failure(enable_reset: bool) -> (action: BootstrapFailure)
    ensures
        action == if enable_reset {
            BootstrapFailure::ArchiveAndStop
        } else {
            BootstrapFailure::Stop
        },
{
    if enable_reset {
        BootstrapFailure::ArchiveAndStop
    } else {
        BootstrapFailure::Stop
    }
}

/// The name of the primary account.
pub fn main_username(username_base: &String) -> (name: String)
    ensures
        name@ == username_base@ + "-main"@,
{
    join(username_base.as_str(), "-main")
}

/// The name of the scout account for a location.
pub fn scout_username(username_base: &String, location: &String) -> (name: String)
    ensures
        name@ == username_base@ + "-scout-"@ + location@,
{
    extend(join(username_base.as_str(), "-scout-"), location.as_str())
}

/// A scout account to set up: its name, and the system and the location
/// that it is to watch.
#[derive(Debug, Clone, PartialEq, Eq)]
pub struct ScoutPost {
    pub username: String,
    pub system: String,
    pub location: String,
}

/// The number of scout accounts for the first `upto` systems: one per
/// location of every system but the excluded one.
pub open spec fn count_posts(systems: Seq<SystemsInfoData>, excluded: Seq<char>, upto: int) -> int
    decreases upto,
{
    if upto <= 0 {
        0
    } else {
        count_posts(systems, excluded, upto - 1) + if systems[upto - 1].symbol@ == excluded {
            0
        } else {
            systems[upto - 1].locations@.len() as int
        }
    }
}

/// The post is the one for location `j` of system `i`.
pub open spec fn is_post_of(
    post: ScoutPost,
    systems: Seq<SystemsInfoData>,
    username_base: Seq<char>,
    i: int,
    j: int,
) -> bool {
    &&& 0 <= i < systems.len()
    &&& 0 <= j < systems[i].locations@.len()
    &&& post.system == systems[i].symbol
    &&& post.location == systems[i].locations@[j].symbol
    &&& post.username@ == username_base + "-scout-"@ + systems[i].locations@[j].symbol@
}

/// The position of the post for location `j` of system `i` in the list of
/// posts.
pub open spec fn post_position(systems: Seq<SystemsInfoData>, excluded: Seq<char>, i: int, j: int) -> int {
    count_posts(systems, excluded, i) + j
}

/// Lists the scout accounts to set up: one for every location of every
/// system but the excluded one, in the order of the map.
pub fn scout_posts(systems: &SystemsInfo, username_base: &String, excluded_system: &String) -> (posts:
    Vec<ScoutPost>)
    ensures
        posts@.len() == count_posts(
            systems.systems@,
            excluded_system@,
            systems.systems@.len() as int,
        ),
        forall|i: int, j: int|
            0 <= i < systems.systems@.len() && 0 <= j < systems.systems@[i].locations@.len()
                && systems.systems@[i].symbol@ != excluded_system@ ==> is_post_of(
                #[trigger] posts@[post_position(systems.systems@, excluded_system@, i, j)],
                systems.systems@,
                username_base@,
                i,
                j,
            ),
{
    let mut posts: Vec<ScoutPost> = Vec::new();
    let ghost all = systems.systems@;
    let mut i: usize = 0;
    while i < systems.systems.len()
        invariant
            i <= systems.systems.len(),
            all == systems.systems@,
            posts@.len() == count_posts(all, excluded_system@, i as int),
            forall|k: int, l: int|
                0 <= k < i && 0 <= l < all[k].locations@.len() && all[k].symbol@
                    != excluded_system@ ==> is_post_of(
                    #[trigger] posts@[post_position(all, excluded_system@, k, l)],
                    all,
                    username_base@,
                    k,
                    l,
                ),
        decreases systems.systems.len() - i,
    {
        let system = &systems.systems[i];
        if !same_text(&system.symbol, excluded_system) {
            let mut j: usize = 0;
            while j < system.locations.len()
                invariant
                    i < systems.systems.len(),
                    all == systems.systems@,
                    *system == all[i as int],
                    system.symbol@ != excluded_system@,
                    j <= system.locations.len(),
                    posts@.len() == count_posts(all, excluded_system@, i as int) + j,
                    forall|k: int, l: int|
                        0 <= k < i && 0 <= l < all[k].locations@.len() && all[k].symbol@
                            != excluded_system@ ==> is_post_of(
                            #[trigger] posts@[post_position(all, excluded_system@, k, l)],
                            all,
                            username_base@,
                            k,
                            l,
                        ),
                    forall|l: int|
                        0 <= l < j ==> is_post_of(
                            #[trigger] posts@[post_position(all, excluded_system@, i as int, l)],
                            all,
                            username_base@,
                            i as int,
                            l,
                        ),
                decreases system.locations.len() - j,
            {
                let location = &system.locations[j];
                let ghost before = posts@;
                posts.push(
                    ScoutPost {
                        username: scout_username(username_base, &location.symbol),
                        system: system.symbol.clone(),
                        location: location.symbol.clone(),
                    },
                );
                proof {
                    lemma_posts_grow(all, excluded_system@, i as int);
                    assert forall|k: int, l: int|
                        0 <= k < i && 0 <= l < all[k].locations@.len() && all[k].symbol@
                            != excluded_system@ implies is_post_of(
                        #[trigger] posts@[post_position(all, excluded_system@, k, l)],
                        all,
                        username_base@,
                        k,
                        l,
                    ) by {
                        lemma_posts_ordered(all, excluded_system@, k, i as int);
                        let at = post_position(all, excluded_system@, k, l);
                        lemma_posts_grow(all, excluded_system@, k);
                        assert(0 <= at < before.len());
                        assert(posts@[at] == before[at]);
                    }
                    assert forall|l: int| 0 <= l < j + 1 implies is_post_of(
                        #[trigger] posts@[post_position(all, excluded_system@, i as int, l)],
                        all,
                        username_base@,
                        i as int,
                        l,
                    ) by {
                        let at = post_position(all, excluded_system@, i as int, l);
                        assert(before.len() == count_posts(all, excluded_system@, i as int) + j);
                        assert(posts@ == before.push(posts@[before.len() as int]));
                        if l < j {
                            assert(0 <= at < before.len());
                            assert(posts@[at] == before[at]);
                        } else {
                            assert(at == before.len());
                        }
                    }
                }
                j = j + 1;
            }
        }
        i = i + 1;
    }
    posts
}

/// The count of posts does not shrink as more systems are counted.
proof fn lemma_posts_grow(systems: Seq<SystemsInfoData>, excluded: Seq<char>, upto: int)
    ensures
        0 <= count_posts(systems, excluded, upto),
    decreases upto,
{
    if upto > 0 {
        lemma_posts_grow(systems, excluded, upto - 1);
    }
}

/// The posts of an earlier system that is not excluded all come before the
/// posts of a later system.
proof fn lemma_posts_ordered(systems: Seq<SystemsInfoData>, excluded: Seq<char>, k: int, i: int)
    requires
        0 <= k < i,
        i <= systems.len(),
        systems[k].symbol@ != excluded,
    ensures
        count_posts(systems, excluded, k) + systems[k].locations@.len() <= count_posts(
            systems,
            excluded,
            i,
        ),
    decreases i - k,
{
    if i == k + 1 {
    } else {
        lemma_posts_ordered(systems, excluded, k, i - 1);
        lemma_posts_grow(systems, excluded, i - 1);
    }
}

/// Whether a user task runs another round.
#[derive(Debug, Clone, Copy, PartialEq, Eq, Structural)]
pub enum RoundStart {
    /// The kill switch has fired: the task ends.
    StopKilled,
    /// The account has no ships and can make no progress: the task ends.
    StopIdle,
    /// Step every machine once, in order.
    Run,
}

/// Decides at the start of a round whether the task goes on. A kill switch
/// that has fired ends the task at once, whatever else holds.
pub fn begin_round(kill_switch_fired: bool, machines: usize) -> (start: RoundStart)
    ensures
        start == if kill_switch_fired {
            RoundStart::StopKilled
        } else if machines == 0 {
            RoundStart::StopIdle
        } else {
            RoundStart::Run
        },
{
    if kill_switch_fired {
        RoundStart::StopKilled
    } else if machines == 0 {
        RoundStart::StopIdle
    } else {
        RoundStart::Run
    }
}

/// What the task does with what a machine's step came to.
#[derive(Debug, Clone, Copy, PartialEq, Eq, Structural)]
pub enum Reaction {
    /// Nothing; on to the next machine.
    Continue,
    /// The account's credits are now this many.
    Credits(i32),
    /// Put the machine that made the step back into its first state.
    Reset,
    /// Fire the kill switch and end the task.
    Kill,
}

/// The server's error code tells that the market is not what the machine
/// took it to be: the good is not listed, or not available in the quantity.
pub open spec fn is_market_mismatch(code: i32) -> bool {
    code == 2001 || code == 2006
}

/// What the task does with what a machine's step came to: credits are taken
/// over; a server in maintenance and a refused token fire the kill switch; a
/// market that is not what the machine took it to be resets the machine;
/// every other error is left to the machine's next step.
pub open spec fn spec_react(result: Result<Option<PollResult>, StepError>) -> Reaction {
    match result {
        Ok(Some(PollResult::UpdateCredits(credits))) => Reaction::Credits(credits),
        Ok(_) => Reaction::Continue,
        Err(StepError::Client(ClientError::ServiceUnavailable)) => Reaction::Kill,
        Err(StepError::Client(ClientError::Unauthorized)) => Reaction::Kill,
        Err(StepError::Client(ClientError::ApiError(refusal))) => if is_market_mismatch(
            refusal.error.code,
        ) {
            Reaction::Reset
        } else {
            Reaction::Continue
        },
        Err(_) => Reaction::Continue,
    }
}

/// Decides what the task does with what a machine's step came to.
pub fn react(result: &Result<Option<PollResult>, StepError>) -> (reaction: Reaction)
    ensures
        reaction == spec_react(*result),
{
    match result {
        Ok(Some(PollResult::UpdateCredits(credits))) => Reaction::Credits(*credits),
        Ok(_) => Reaction::Continue,
        Err(StepError::Client(ClientError::ServiceUnavailable)) => Reaction::Kill,
        Err(StepError::Client(ClientError::Unauthorized)) => Reaction::Kill,
        Err(StepError::Client(ClientError::ApiError(refusal))) => {
            if refusal.error.code == 2001 || refusal.error.code == 2006 {
                Reaction::Reset
            } else {
                Reaction::Continue
            }
        },
        Err(_) => Reaction::Continue,
    }
}

/// A fatal error of the gateway always fires the kill switch.
pub proof fn lemma_fatal_errors_kill(error: ClientError)
    requires
        error.spec_is_fatal(),
    ensures
        spec_react(Err(StepError::Client(error))) == Reaction::Kill,
{
}

/// What an account does at the end of a round in which its credits changed.
#[derive(Debug, Clone, PartialEq, Eq)]
pub struct Upkeep {
    /// Append the credits and the ships to the account's history.
    pub record_stats: bool,
    /// Try to buy the largest ship that the account can afford.
    pub buy_ship: bool,
    /// Pay off the loan with this id.
    pub pay_loan: Option<String>,
}

/// The account has credits to spare for another ship: more than a million
/// per ship it has, and fewer than fifty ships.
pub open spec fn affords_ship(credits: int, ships: int) -> bool {
    credits > ships * CREDITS_PER_SHIP && ships < FLEET_LIMIT
}

/// The account is to pay off a loan: it holds more than a million credits
/// and has a loan outstanding.
pub open spec fn pays_loan(user: User) -> bool {
    user.credits > LOAN_PAYOFF_CREDITS && user.outstanding_loans > 0 && user.loans@.len() > 0
}

/// Decides what an account does at the end of a round. Nothing where the
/// credits are what they were before the round; else the history is
/// written, a ship is bought where the credits allow, and the first loan is
/// paid off where the account is rich enough and in debt.
pub fn upkeep(user: &User, previous_credits: i32) -> (plan: Upkeep)
    ensures
        plan.record_stats == (user.credits != previous_credits),
        plan.buy_ship == (user.credits != previous_credits && affords_ship(
            user.credits as int,
            user.ship_machines@.len() as int,
        )),
        plan.pay_loan is Some == (user.credits != previous_credits && pays_loan(*user)),
        plan.pay_loan matches Some(id) ==> id == user.loans@[0].id,
{
    if user.credits == previous_credits {
        return Upkeep { record_stats: false, buy_ship: false, pay_loan: None };
    }
    let ships = user.ship_machines.len();
    let buy_ship = ships < FLEET_LIMIT && user.credits as i64 > ships as i64 * CREDITS_PER_SHIP;
    let pay_loan = if user.credits > LOAN_PAYOFF_CREDITS && user.outstanding_loans > 0
        && user.loans.len() > 0 {
        Some(user.loans[0].id.clone())
    } else {
        None
    };
    Upkeep { record_stats: true, buy_ship, pay_loan }
}

/// The number of locations of the first `upto` systems.
pub open spec fn count_locations(systems: Seq<SystemsInfoData>, upto: int) -> int
    decreases upto,
{
    if upto <= 0 {
        0
    } else {
        count_locations(systems, upto - 1) + systems[upto - 1].locations@.len()
    }
}

/// The position of the row for location `j` of system `i` in the list of
/// rows.
pub open spec fn row_position(systems: Seq<SystemsInfoData>, i: int, j: int) -> int {
    count_locations(systems, i) + j
}

proof fn lemma_locations_grow(systems: Seq<SystemsInfoData>, upto: int)
    ensures
        0 <= count_locations(systems, upto),
    decreases upto,
{
    if upto > 0 {
        lemma_locations_grow(systems, upto - 1);
    }
}

proof fn lemma_locations_ordered(systems: Seq<SystemsInfoData>, k: int, i: int)
    requires
        0 <= k < i,
        i <= systems.len(),
    ensures
        count_locations(systems, k) + systems[k].locations@.len() <= count_locations(systems, i),
    decreases i - k,
{
    if i == k + 1 {
    } else {
        lemma_locations_ordered(systems, k, i - 1);
        lemma_locations_grow(systems, i - 1);
    }
}

/// Lists the rows to write into the map for what the server tells of the
/// systems: one per location, in the order of the systems and of their
/// locations.
pub fn system_location_rows(systems: &SystemsInfo, now: Timestamp) -> (rows: Vec<DbSystemLocation>)
    ensures
        rows@.len() == count_locations(systems.systems@, systems.systems@.len() as int),
        forall|i: int, j: int|
            0 <= i < systems.systems@.len() && 0 <= j < systems.systems@[i].locations@.len()
                ==> is_row_of(
                #[trigger] rows@[row_position(systems.systems@, i, j)],
                systems.systems@[i],
                j,
                now,
            ),
{
    let mut rows: Vec<DbSystemLocation> = Vec::new();
    let ghost all = systems.systems@;
    let mut i: usize = 0;
    while i < systems.systems.len()
        invariant
            i <= systems.systems.len(),
            all == systems.systems@,
            rows@.len() == count_locations(all, i as int),
            forall|k: int, l: int|
                0 <= k < i && 0 <= l < all[k].locations@.len() ==> is_row_of(
                    #[trigger] rows@[row_position(all, k, l)],
                    all[k],
                    l,
                    now,
                ),
        decreases systems.systems.len() - i,
    {
        let system = &systems.systems[i];
        let mut j: usize = 0;
        while j < system.locations.len()
            invariant
                i < systems.systems.len(),
                all == systems.systems@,
                *system == all[i as int],
                j <= system.locations.len(),
                rows@.len() == count_locations(all, i as int) + j,
                forall|k: int, l: int|
                    0 <= k < i && 0 <= l < all[k].locations@.len() ==> is_row_of(
                        #[trigger] rows@[row_position(all, k, l)],
                        all[k],
                        l,
                        now,
                    ),
                forall|l: int|
                    0 <= l < j ==> is_row_of(
                        #[trigger] rows@[row_position(all, i as int, l)],
                        all[i as int],
                        l,
                        now,
                    ),
            decreases system.locations.len() - j,
        {
            let ghost before = rows@;
            rows.push(DbSystemLocation::new(system, &system.locations[j], now));
            proof {
                lemma_locations_grow(all, i as int);
                assert forall|k: int, l: int|
                    0 <= k < i && 0 <= l < all[k].locations@.len() implies is_row_of(
                    #[trigger] rows@[row_position(all, k, l)],
                    all[k],
                    l,
                    now,
                ) by {
                    lemma_locations_ordered(all, k, i as int);
                    let at = row_position(all, k, l);
                    lemma_locations_grow(all, k);
                    assert(0 <= at < before.len());
                    assert(rows@[at] == before[at]);
                }
                assert forall|l: int| 0 <= l < j + 1 implies is_row_of(
                    #[trigger] rows@[row_position(all, i as int, l)],
                    all[i as int],
                    l,
                    now,
                ) by {
                    let at = row_position(all, i as int, l);
                    assert(before.len() == count_locations(all, i as int) + j);
                    if l < j {
                        assert(0 <= at < before.len());
                        assert(rows@[at] == before[at]);
                    } else {
                        assert(at == before.len());
                    }
                }
            }
            j = j + 1;
        }
        i = i + 1;
    }
    rows
}

/// The row tells of location `j` of the system as the server describes it.
pub open spec fn is_row_of(row: DbSystemLocation, system: SystemsInfoData, j: int, now: Timestamp) -> bool {
    &&& 0 <= j < system.locations@.len()
    &&& row.system == system.symbol
    &&& row.system_name == system.name
    &&& row.location == system.locations@[j].symbol
    &&& row.location_name == system.locations@[j].name
    &&& row.location_type@ == system.locations@[j].systems_info_type.spec_name()
    &&& row.x == system.locations@[j].x
    &&& row.y == system.locations@[j].y
    &&& row.created_at == now
}

/// The pattern of the name of the schema into which the tables are moved
/// when the server has been reset: `z`, then year, month and day.
pub open spec fn archive_pattern() -> Seq<char> {
    "z%Y%m%d"@
}

/// The name of the schema into which the tables are moved when the server
/// has been reset, for the day on which `now` falls; none where `now` lies
/// outside the calendar.
pub fn archive_schema(now: Timestamp) -> (name: Option<String>)
    ensures
        text_view(name) == chrono_format(now as int, archive_pattern()),
{
    format_instant(now, "z%Y%m%d")
}

/// What an account needs before its task starts.
#[derive(Debug, Clone, Copy, PartialEq, Eq, Structural)]
pub struct Outfit {
    /// Take out a start-up loan.
    pub take_loan: bool,
    /// Buy a first ship.
    pub buy_ship: bool,
}

/// Decides what an account needs before its task starts: a start-up loan
/// where it has no credits, and a ship where it has none.
pub fn outfit(user: &User) -> (needs: Outfit)
    ensures
        needs.take_loan == (user.credits == 0),
        needs.buy_ship == (user.ship_machines@.len() == 0),
{
    Outfit { take_loan: user.credits == 0, buy_ship: user.ship_machines.len() == 0 }
}

/// What the ships of an assignment are picked by when one is bought: scouts
/// are to be fast, all others are to hold much.
pub open spec fn spec_ranking_for(assignment: ShipAssignment) -> ShipRanking {
    match assignment {
        ShipAssignment::Scout => ShipRanking::Speed,
        _ => ShipRanking::MaxCargo,
    }
}

pub fn ranking_for(assignment: ShipAssignment) -> (ranking: ShipRanking)
    ensures
        ranking == spec_ranking_for(assignment),
{
    match assignment {
        ShipAssignment::Scout => ShipRanking::Speed,
        _ => ShipRanking::MaxCargo,
    }
}

} // verus!
