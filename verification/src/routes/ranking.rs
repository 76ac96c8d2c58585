//! Ranking routes by score: a stable insertion, the greatest score first.

use crate::db::DbRoute;
use crate::routes::score::{
    lemma_exceeds_one_way, lemma_not_exceeding_chain, score_defined, score_exceeds,
    spec_score_exceeds,
};
use vstd::prelude::*;

verus! {

/// The ranking with one more route: the route goes in behind every route
/// whose score it does not exceed, so that among equal scores the one that
/// came first stays first.
pub open spec fn insert_ranked(ranking: Seq<DbRoute>, route: DbRoute) -> Seq<DbRoute>
    decreases ranking.len(),
{
    if ranking.len() == 0 {
        seq![route]
    } else if spec_score_exceeds(route, ranking.last()) {
        insert_ranked(ranking.drop_last(), route).push(ranking.last())
    } else {
        ranking.push(route)
    }
}

/// The routes ranked by score, the greatest first; routes of equal score
/// keep their order, and a route whose score is undefined counts as equal
/// to any other.
pub open spec fn rank(routes: Seq<DbRoute>) -> Seq<DbRoute>
    decreases routes.len(),
{
    if routes.len() == 0 {
        Seq::<DbRoute>::empty()
    } else {
        insert_ranked(rank(routes.drop_last()), routes.last())
    }
}

/// Where a route goes into a ranking: behind position `at - 1`, whose score
/// it does not exceed, and before all the routes from `at` on, whose scores
/// it exceeds.
proof fn lemma_insert_position(ranking: Seq<DbRoute>, route: DbRoute, at: int)
    requires
        0 <= at <= ranking.len(),
        forall|k: int| at <= k < ranking.len() ==> spec_score_exceeds(route, #[trigger] ranking[k]),
        at == 0 || !spec_score_exceeds(route, ranking[at - 1]),
    ensures
        insert_ranked(ranking, route) == ranking.insert(at, route),
    decreases ranking.len(),
{
    if ranking.len() == 0 {
        assert(seq![route] =~= ranking.insert(at, route));
    } else if at == ranking.len() {
        assert(ranking.push(route) =~= ranking.insert(at, route));
    } else {
        assert(spec_score_exceeds(route, ranking[ranking.len() - 1]));
        let front = ranking.drop_last();
        assert forall|k: int| at <= k < front.len() implies spec_score_exceeds(
            route,
            #[trigger] front[k],
        ) by {
            assert(front[k] == ranking[k]);
        }
        if at > 0 {
            assert(front[at - 1] == ranking[at - 1]);
        }
        lemma_insert_position(front, route, at);
        assert(front.insert(at, route).push(ranking.last()) =~= ranking.insert(at, route));
    }
}

/// Puts one more route into a ranking.
pub fn insert_route(ranking: &mut Vec<DbRoute>, route: DbRoute)
    ensures
        final(ranking)@ == insert_ranked(old(ranking)@, route),
{
    let mut at: usize = ranking.len();
    loop
        invariant
            at <= ranking.len(),
            ranking@ == old(ranking)@,
            forall|k: int|
                at <= k < ranking.len() ==> spec_score_exceeds(route, #[trigger] ranking@[k]),
        ensures
            at <= ranking.len(),
            ranking@ == old(ranking)@,
            forall|k: int|
                at <= k < ranking.len() ==> spec_score_exceeds(route, #[trigger] ranking@[k]),
            at == 0 || !spec_score_exceeds(route, ranking@[at - 1]),
        decreases at,
    {
        if at == 0 {
            break ;
        }
        if !score_exceeds(&route, &ranking[at - 1]) {
            break ;
        }
        at = at - 1;
    }
    proof {
        lemma_insert_position(ranking@, route, at as int);
    }
    ranking.insert(at, route);
}

/// Ranks routes by score, the greatest first.
pub fn sort_routes(routes: Vec<DbRoute>) -> (ranking: Vec<DbRoute>)
    ensures
        ranking@ == rank(routes@),
{
    let ghost all = routes@;
    let mut rest = routes;
    let mut ranking: Vec<DbRoute> = Vec::new();
    let ghost mut done: int = 0;
    while rest.len() > 0
        invariant
            all == routes@,
            0 <= done <= all.len(),
            rest@ == all.skip(done),
            ranking@ == rank(all.take(done)),
        decreases rest.len(),
    {
        let route = rest.remove(0);
        proof {
            assert(route == all[done]);
            assert(all.take(done + 1).drop_last() =~= all.take(done));
            assert(all.take(done + 1).last() == route);
            assert(rest@ =~= all.skip(done + 1));
        }
        insert_route(&mut ranking, route);
        proof {
            done = done + 1;
        }
    }
    proof {
        assert(all.take(done) =~= all);
    }
    ranking
}

/// A ranking with one more route holds that route and those it held, and
/// nothing else.
pub proof fn lemma_insert_holds(ranking: Seq<DbRoute>, route: DbRoute)
    ensures
        insert_ranked(ranking, route).to_multiset() == ranking.to_multiset().insert(route),
        insert_ranked(ranking, route).len() == ranking.len() + 1,
    decreases ranking.len(),
{
    broadcast use vstd::seq_lib::group_to_multiset_ensures;

    if ranking.len() == 0 {
        assert(seq![route] =~= Seq::<DbRoute>::empty().push(route));
        assert(ranking =~= Seq::<DbRoute>::empty());
    } else if spec_score_exceeds(route, ranking.last()) {
        let front = ranking.drop_last();
        lemma_insert_holds(front, route);
        assert(ranking =~= front.push(ranking.last()));
        assert(front.to_multiset().insert(route).insert(ranking.last())
            =~= front.to_multiset().insert(ranking.last()).insert(route));
    } else {
    }
}

/// Ranking keeps every route, as often as it occurs, and adds none.
pub proof fn lemma_rank_permutes(routes: Seq<DbRoute>)
    ensures
        rank(routes).to_multiset() == routes.to_multiset(),
        rank(routes).len() == routes.len(),
    decreases routes.len(),
{
    broadcast use vstd::seq_lib::group_to_multiset_ensures;

    if routes.len() == 0 {
        assert(routes =~= Seq::<DbRoute>::empty());
    } else {
        lemma_rank_permutes(routes.drop_last());
        lemma_insert_holds(rank(routes.drop_last()), routes.last());
        assert(routes =~= routes.drop_last().push(routes.last()));
    }
}

/// Every route of a ranking is one of the routes that were ranked.
pub proof fn lemma_rank_member(routes: Seq<DbRoute>, i: int)
    requires
        0 <= i < rank(routes).len(),
    ensures
        routes.contains(rank(routes)[i]),
{
    broadcast use vstd::seq_lib::group_to_multiset_ensures;

    lemma_rank_permutes(routes);
    let route = rank(routes)[i];
    assert(rank(routes).contains(route));
    assert(rank(routes).to_multiset().count(route) > 0);
    assert(routes.to_multiset().count(route) > 0);
}

/// No route of the sequence has a score that exceeds the score of a route
/// before it.
pub open spec fn descends(ranking: Seq<DbRoute>) -> bool {
    forall|i: int, j: int|
        0 <= i < j < ranking.len() ==> !spec_score_exceeds(
            #[trigger] ranking[j],
            #[trigger] ranking[i],
        )
}

/// Every route of the sequence has a defined score.
pub open spec fn all_defined(routes: Seq<DbRoute>) -> bool {
    forall|i: int| 0 <= i < routes.len() ==> score_defined(#[trigger] routes[i])
}

/// Every route of a ranking with one more route is that route or one of the
/// ranking.
proof fn lemma_insert_member(ranking: Seq<DbRoute>, route: DbRoute, k: int)
    requires
        0 <= k < insert_ranked(ranking, route).len(),
    ensures
        insert_ranked(ranking, route)[k] == route || ranking.contains(
            insert_ranked(ranking, route)[k],
        ),
{
    broadcast use vstd::seq_lib::group_to_multiset_ensures;

    lemma_insert_holds(ranking, route);
    let found = insert_ranked(ranking, route)[k];
    assert(insert_ranked(ranking, route).contains(found));
    assert(insert_ranked(ranking, route).to_multiset().count(found) > 0);
    if found != route {
        assert(ranking.to_multiset().count(found) > 0);
    }
}

/// A descending ranking of defined scores still descends with one more route
/// of defined score.
proof fn lemma_insert_descends(ranking: Seq<DbRoute>, route: DbRoute)
    requires
        descends(ranking),
        all_defined(ranking),
        score_defined(route),
    ensures
        descends(insert_ranked(ranking, route)),
        all_defined(insert_ranked(ranking, route)),
    decreases ranking.len(),
{
    let grown = insert_ranked(ranking, route);
    lemma_insert_holds(ranking, route);
    assert forall|k: int| 0 <= k < grown.len() implies score_defined(#[trigger] grown[k]) by {
        lemma_insert_member(ranking, route, k);
        if grown[k] != route {
            let w = choose|w: int| 0 <= w < ranking.len() && ranking[w] == grown[k];
            assert(score_defined(ranking[w]));
        }
    }
    if ranking.len() == 0 {
    } else if spec_score_exceeds(route, ranking.last()) {
        let front = ranking.drop_last();
        let last = ranking.last();
        assert forall|i: int, j: int| 0 <= i < j < front.len() implies !spec_score_exceeds(
            #[trigger] front[j],
            #[trigger] front[i],
        ) by {
            assert(front[i] == ranking[i] && front[j] == ranking[j]);
        }
        assert forall|i: int| 0 <= i < front.len() implies score_defined(#[trigger] front[i]) by {
            assert(front[i] == ranking[i]);
        }
        lemma_insert_descends(front, route);
        let inner = insert_ranked(front, route);
        lemma_insert_holds(front, route);
        assert(grown == inner.push(last));
        assert forall|i: int, j: int| 0 <= i < j < grown.len() implies !spec_score_exceeds(
            #[trigger] grown[j],
            #[trigger] grown[i],
        ) by {
            if j < inner.len() {
                assert(grown[i] == inner[i] && grown[j] == inner[j]);
            } else {
                assert(grown[j] == last);
                assert(grown[i] == inner[i]);
                lemma_insert_member(front, route, i);
                if inner[i] == route {
                    lemma_exceeds_one_way(route, last);
                } else {
                    let w = choose|w: int| 0 <= w < front.len() && front[w] == inner[i];
                    assert(front[w] == ranking[w]);
                    assert(!spec_score_exceeds(ranking[ranking.len() - 1], ranking[w]));
                }
            }
        }
    } else {
        assert(grown == ranking.push(route));
        assert forall|i: int, j: int| 0 <= i < j < grown.len() implies !spec_score_exceeds(
            #[trigger] grown[j],
            #[trigger] grown[i],
        ) by {
            if j < ranking.len() {
                assert(grown[i] == ranking[i] && grown[j] == ranking[j]);
            } else {
                assert(grown[j] == route);
                assert(grown[i] == ranking[i]);
                let last = ranking[ranking.len() - 1];
                if i < ranking.len() - 1 {
                    assert(!spec_score_exceeds(ranking[ranking.len() - 1], ranking[i]));
                    lemma_not_exceeding_chain(route, last, ranking[i]);
                }
            }
        }
    }
}

/// Where every score is defined, a ranking descends: of two of its routes,
/// the one that stands first has a score at least as great as the other's.
pub proof fn lemma_rank_descends(routes: Seq<DbRoute>)
    requires
        all_defined(routes),
    ensures
        descends(rank(routes)),
        all_defined(rank(routes)),
    decreases routes.len(),
{
    if routes.len() > 0 {
        let front = routes.drop_last();
        assert forall|i: int| 0 <= i < front.len() implies score_defined(#[trigger] front[i]) by {
            assert(front[i] == routes[i]);
        }
        lemma_rank_descends(front);
        assert(score_defined(routes[routes.len() - 1]));
        lemma_insert_descends(rank(front), routes.last());
    }
}

/// Ranking one more route puts it into the ranking of the others.
pub proof fn lemma_rank_push(routes: Seq<DbRoute>, route: DbRoute)
    ensures
        rank(routes.push(route)) == insert_ranked(rank(routes), route),
{
    assert(routes.push(route).drop_last() =~= routes);
}

/// Ranking leaves a descending sequence as it is, the order of equal scores
/// included.
pub proof fn lemma_rank_keeps_ranked(routes: Seq<DbRoute>)
    requires
        descends(routes),
    ensures
        rank(routes) == routes,
    decreases routes.len(),
{
    if routes.len() == 0 {
        assert(routes =~= Seq::<DbRoute>::empty());
    } else {
        let front = routes.drop_last();
        assert forall|i: int, j: int| 0 <= i < j < front.len() implies !spec_score_exceeds(
            #[trigger] front[j],
            #[trigger] front[i],
        ) by {
            assert(front[i] == routes[i] && front[j] == routes[j]);
        }
        lemma_rank_keeps_ranked(front);
        if front.len() > 0 {
            assert(front.last() == routes[routes.len() - 2]);
            assert(!spec_score_exceeds(routes[routes.len() - 1], routes[routes.len() - 2]));
        }
        assert(front.push(routes.last()) =~= routes);
    }
}

} // verus!
