//! Which aliases a cache plan chooses, said of the registered aliases and the requests alone.

use vstd::prelude::*;

use crate::cache_laws::using_outputs_are_the_users;
use crate::cache_plan::{
    AliasPlanView, CachePlanView, CandidateView, CoveredView, DecisionView, KnownTables,
    MssqlCacheCandidateSkipReason, MssqlNoCacheReason, SkipView, ambiguous_skips,
    candidate, covered, covered_candidates, covered_skips, deeper_than, frontier, is_deeper_than,
    output_cache_plan, shared_cache_frontier, shared_candidates, unshared_candidates, uses,
    using_outputs,
};
use crate::handles::OutputWritePlanView;
use crate::registry::derived_has_id;
use crate::search::{first_match, first_position, first_position_facts, first_position_is};
use crate::text::is_blank;

verus! {

/// No two registered aliases share an id.
pub open spec fn aliases_have_own_ids(known: KnownTables) -> bool {
    forall|i: int, j: int|
        0 <= i < j < known.derived.len() ==> (#[trigger] known.derived[i]).table.id != (
        #[trigger] known.derived[j]).table.id
}

/// A request reads a registered alias.
pub open spec fn reads(
    known: KnownTables,
    requests: Seq<OutputWritePlanView>,
    a: int,
    i: int,
) -> bool {
    0 <= a < requests.len() && uses(known, requests[a].table, known.derived[i].table.id)
}

/// A registered alias can be replanned: it has SQL text and all that it reads is known.
pub open spec fn can_be_replanned(known: KnownTables, i: int) -> bool {
    !is_blank(known.derived[i].sql_text) && known.derived[i].lineage is Complete
}

/// A registered alias can be replanned and two different requests read it.
pub open spec fn is_shared(known: KnownTables, requests: Seq<OutputWritePlanView>, i: int) -> bool {
    &&& 0 <= i < known.derived.len()
    &&& can_be_replanned(known, i)
    &&& exists|a: int, b: int|
        a < b && #[trigger] reads(known, requests, a, i) && #[trigger] reads(known, requests, b, i)
}

/// A registered alias reads another one.
pub open spec fn is_downstream(known: KnownTables, j: int, i: int) -> bool {
    &&& known.derived[j].table.id != known.derived[i].table.id
    &&& uses(known, known.derived[j].table, known.derived[i].table.id)
}

/// A shared alias is downstream of an alias.
pub open spec fn is_covered(
    known: KnownTables,
    requests: Seq<OutputWritePlanView>,
    i: int,
) -> bool {
    exists|j: int| #[trigger] is_shared(known, requests, j) && is_downstream(known, j, i)
}

/// A shared alias that no shared alias covers is downstream of an alias.
pub open spec fn is_served(known: KnownTables, requests: Seq<OutputWritePlanView>, i: int) -> bool {
    exists|j: int|
        #[trigger] is_shared(known, requests, j) && !is_covered(known, requests, j)
            && is_downstream(known, j, i)
}

/// Some alias is shared.
pub open spec fn something_is_shared(known: KnownTables, requests: Seq<OutputWritePlanView>) -> bool {
    exists|i: int| #[trigger] is_shared(known, requests, i)
}

/// Some shared alias is covered, but only by aliases that are covered themselves.
pub open spec fn something_is_unserved(
    known: KnownTables,
    requests: Seq<OutputWritePlanView>,
) -> bool {
    exists|i: int|
        #[trigger] is_shared(known, requests, i) && is_covered(known, requests, i) && !is_served(
            known,
            requests,
            i,
        )
}

/// A plan caches a registered alias.
pub open spec fn caches(plan: CachePlanView, known: KnownTables, i: int) -> bool {
    plan.decision matches DecisionView::CacheAliases(aliases) && exists|k: int|
        0 <= k < aliases.len() && (#[trigger] aliases[k]).table_id == known.derived[i].table.id
            && aliases[k].alias == known.derived[i].table.name
}

/// A plan skips a registered alias for a reason.
pub open spec fn skips(
    plan: CachePlanView,
    known: KnownTables,
    i: int,
    reason: MssqlCacheCandidateSkipReason,
) -> bool {
    exists|k: int|
        0 <= k < plan.skipped_candidates.len() && #[trigger] plan.skipped_candidates[k] == (
        SkipView {
            table_id: known.derived[i].table.id,
            alias: known.derived[i].table.name,
            reason,
        })
}

/// The plan of caching an alias: its id, its name, and all requests that read it, in order.
pub open spec fn alias_of(
    known: KnownTables,
    requests: Seq<OutputWritePlanView>,
    i: int,
) -> AliasPlanView {
    AliasPlanView {
        table_id: known.derived[i].table.id,
        alias: known.derived[i].table.name,
        output_indexes: using_outputs(
            known,
            requests,
            known.derived[i].table.id,
            requests.len(),
        ),
    }
}

spec fn shared_positions(
    known: KnownTables,
    requests: Seq<OutputWritePlanView>,
    n: nat,
) -> Seq<int>
    decreases n,
{
    if n == 0 {
        seq![]
    } else if is_shared(known, requests, n - 1) {
        shared_positions(known, requests, (n - 1) as nat).push(n - 1)
    } else {
        shared_positions(known, requests, (n - 1) as nat)
    }
}

proof fn users_count(known: KnownTables, requests: Seq<OutputWritePlanView>, i: int)
    requires
        requests.len() <= usize::MAX,
        0 <= i < known.derived.len(),
    ensures
        ({
            let users = using_outputs(known, requests, known.derived[i].table.id, requests.len());
            users.len() >= 2 <==> exists|a: int, b: int|
                a < b && #[trigger] reads(known, requests, a, i) && #[trigger] reads(
                    known,
                    requests,
                    b,
                    i,
                )
        }),
{
    let id = known.derived[i].table.id;
    let users = using_outputs(known, requests, id, requests.len());
    using_outputs_are_the_users(known, requests, id, requests.len());
    if users.len() >= 2 {
        assert(users.contains(users[0]));
        assert(users.contains(users[1]));
        assert(reads(known, requests, users[0] as int, i));
        assert(reads(known, requests, users[1] as int, i));
        assert(users[0] < users[1]);
    }
    if exists|a: int, b: int|
        a < b && #[trigger] reads(known, requests, a, i) && #[trigger] reads(
            known,
            requests,
            b,
            i,
        ) {
        let (a, b) = choose|a: int, b: int|
            a < b && #[trigger] reads(known, requests, a, i) && #[trigger] reads(
                known,
                requests,
                b,
                i,
            );
        assert(users.contains(a as usize));
        assert(users.contains(b as usize));
        let x = choose|x: int| 0 <= x < users.len() && users[x] == a as usize;
        let y = choose|y: int| 0 <= y < users.len() && users[y] == b as usize;
        assert(x != y);
    }
}

/// A candidate is taken up as shared exactly where its alias is shared.
pub proof fn candidate_tells_shared(known: KnownTables, requests: Seq<OutputWritePlanView>, i: int)
    requires
        requests.len() <= usize::MAX,
        0 <= i < known.derived.len(),
    ensures
        is_shared(known, requests, i) <==> candidate(known, requests, known.derived[i]) is Shared,
        is_shared(known, requests, i) ==> candidate(known, requests, known.derived[i])
            == CandidateView::Shared(alias_of(known, requests, i)),
{
    users_count(known, requests, i);
}

proof fn shared_positions_match(known: KnownTables, requests: Seq<OutputWritePlanView>, n: nat)
    requires
        requests.len() <= usize::MAX,
        n <= known.derived.len(),
    ensures
        ({
            let positions = shared_positions(known, requests, n);
            let shared = shared_candidates(known, requests, n);
            &&& positions.len() == shared.len()
            &&& forall|k: int|
                0 <= k < positions.len() ==> 0 <= #[trigger] positions[k] < n && is_shared(
                    known,
                    requests,
                    positions[k],
                ) && shared[k] == alias_of(known, requests, positions[k])
            &&& forall|a: int, b: int|
                0 <= a < b < positions.len() ==> #[trigger] positions[a] < #[trigger] positions[b]
            &&& forall|i: int|
                0 <= i < n && #[trigger] is_shared(known, requests, i) ==> positions.contains(i)
        }),
    decreases n,
{
    if n > 0 {
        let m = (n - 1) as nat;
        shared_positions_match(known, requests, m);
        candidate_tells_shared(known, requests, n - 1);
        let before = shared_positions(known, requests, m);
        let positions = shared_positions(known, requests, n);
        assert forall|i: int|
            0 <= i < n && #[trigger] is_shared(known, requests, i) implies positions.contains(
            i,
        ) by {
            if i < m {
                assert(before.contains(i));
                let k = choose|k: int| 0 <= k < before.len() && before[k] == i;
                assert(positions[k] == i);
            } else {
                assert(positions[before.len() as int] == i);
            }
        }
    }
}

proof fn alias_is_found_by_id(known: KnownTables, i: int)
    requires
        aliases_have_own_ids(known),
        0 <= i < known.derived.len(),
    ensures
        first_match(known.derived, derived_has_id(known.derived[i].table.id)) == Some(
            known.derived[i],
        ),
{
    first_position_is(known.derived, derived_has_id(known.derived[i].table.id), i);
}

proof fn deeper_is_downstream(known: KnownTables, j: int, i: int)
    requires
        aliases_have_own_ids(known),
        0 <= i < known.derived.len(),
        0 <= j < known.derived.len(),
    ensures
        deeper_than(known, known.derived[j].table.id, known.derived[i].table.id)
            <==> is_downstream(known, j, i),
{
    alias_is_found_by_id(known, i);
    alias_is_found_by_id(known, j);
}

proof fn covered_is_covered(known: KnownTables, requests: Seq<OutputWritePlanView>, k: int)
    requires
        aliases_have_own_ids(known),
        requests.len() <= usize::MAX,
        0 <= k < shared_positions(known, requests, known.derived.len()).len(),
    ensures
        covered(known, shared_candidates(known, requests, known.derived.len()), k) <==> is_covered(
            known,
            requests,
            shared_positions(known, requests, known.derived.len())[k],
        ),
{
    let n = known.derived.len();
    shared_positions_match(known, requests, n);
    let shared = shared_candidates(known, requests, n);
    let positions = shared_positions(known, requests, n);
    let i = positions[k];
    if covered(known, shared, k) {
        let j = choose|j: int|
            0 <= j < shared.len() && j != k && deeper_than(
                known,
                (#[trigger] shared[j]).table_id,
                shared[k].table_id,
            );
        deeper_is_downstream(known, positions[j], i);
        assert(is_shared(known, requests, positions[j]));
    }
    if is_covered(known, requests, i) {
        let j = choose|j: int| #[trigger]
            is_shared(known, requests, j) && is_downstream(known, j, i);
        assert(positions.contains(j));
        let x = choose|x: int| 0 <= x < positions.len() && positions[x] == j;
        deeper_is_downstream(known, j, i);
        assert(x != k);
        assert(deeper_than(known, shared[x].table_id, shared[k].table_id));
    }
}

proof fn frontier_facts(known: KnownTables, candidates: Seq<AliasPlanView>, n: nat)
    requires
        n <= candidates.len(),
    ensures
        forall|k: int|
            0 <= k < n && !covered(known, candidates, k) ==> frontier(
                known,
                candidates,
                n,
            ).contains(#[trigger] candidates[k]),
        forall|x: int|
            0 <= x < frontier(known, candidates, n).len() ==> exists|k: int|
                0 <= k < n && #[trigger] candidates[k] == #[trigger] frontier(
                    known,
                    candidates,
                    n,
                )[x] && !covered(known, candidates, k),
    decreases n,
{
    if n > 0 {
        let m = (n - 1) as nat;
        frontier_facts(known, candidates, m);
        let before = frontier(known, candidates, m);
        let now = frontier(known, candidates, n);
        assert forall|k: int| 0 <= k < n && !covered(known, candidates, k) implies now.contains(
            #[trigger] candidates[k],
        ) by {
            if k < m {
                assert(before.contains(candidates[k]));
                let x = choose|x: int| 0 <= x < before.len() && before[x] == candidates[k];
                assert(now[x] == candidates[k]);
            } else {
                assert(now[before.len() as int] == candidates[k]);
            }
        }
        assert forall|x: int| 0 <= x < now.len() implies exists|k: int|
            0 <= k < n && #[trigger] candidates[k] == #[trigger] now[x] && !covered(
                known,
                candidates,
                k,
            ) by {
            if x < before.len() {
                assert(now[x] == before[x]);
                let k = choose|k: int|
                    0 <= k < m && #[trigger] candidates[k] == before[x] && !covered(
                        known,
                        candidates,
                        k,
                    );
                assert(candidates[k] == now[x]);
            } else {
                assert(candidates[n - 1] == now[x]);
            }
        }
    }
}

proof fn accounted_for_iff_served(
    known: KnownTables,
    candidates: Seq<AliasPlanView>,
    selected: Seq<AliasPlanView>,
    n: nat,
)
    requires
        n <= candidates.len(),
    ensures
        ({
            let total = frontier(known, candidates, n).len() + covered_candidates(
                known,
                candidates,
                selected,
                n,
            ).len();
            &&& total <= n
            &&& total == n <==> forall|k: int|
                0 <= k < n && covered(known, candidates, k) ==> first_match(
                    selected,
                    is_deeper_than(known, (#[trigger] candidates[k]).table_id),
                ) is Some
        }),
    decreases n,
{
    if n > 0 {
        accounted_for_iff_served(known, candidates, selected, (n - 1) as nat);
        let last = candidates[n - 1];
    }
}

/// A selected alias is deeper than a candidate exactly where an uncovered candidate is.
proof fn served_by_frontier(known: KnownTables, requests: Seq<OutputWritePlanView>, k: int)
    requires
        aliases_have_own_ids(known),
        requests.len() <= usize::MAX,
        0 <= k < shared_positions(known, requests, known.derived.len()).len(),
    ensures
        ({
            let shared = shared_candidates(known, requests, known.derived.len());
            let selected = frontier(known, shared, shared.len());
            let i = shared_positions(known, requests, known.derived.len())[k];
            first_match(selected, is_deeper_than(known, shared[k].table_id)) is Some <==> is_served(
                known,
                requests,
                i,
            )
        }),
{
    let n = known.derived.len();
    shared_positions_match(known, requests, n);
    let shared = shared_candidates(known, requests, n);
    let positions = shared_positions(known, requests, n);
    let selected = frontier(known, shared, shared.len());
    let i = positions[k];
    let p = is_deeper_than(known, shared[k].table_id);
    frontier_facts(known, shared, shared.len());
    first_position_facts(selected, p);
    if first_match(selected, p) is Some {
        let x = first_position(selected, p)->0;
        let y = choose|y: int|
            0 <= y < shared.len() && #[trigger] shared[y] == selected[x] && !covered(
                known,
                shared,
                y,
            );
        covered_is_covered(known, requests, y);
        deeper_is_downstream(known, positions[y], i);
        assert(is_shared(known, requests, positions[y]));
    }
    if is_served(known, requests, i) {
        let j = choose|j: int| #[trigger]
            is_shared(known, requests, j) && !is_covered(known, requests, j) && is_downstream(
                known,
                j,
                i,
            );
        assert(positions.contains(j));
        let y = choose|y: int| 0 <= y < positions.len() && positions[y] == j;
        covered_is_covered(known, requests, y);
        deeper_is_downstream(known, j, i);
        assert(selected.contains(shared[y]));
        let x = choose|x: int| 0 <= x < selected.len() && selected[x] == shared[y];
        assert(p(selected[x]));
    }
}

proof fn frontier_is_ambiguous_iff_unserved(
    known: KnownTables,
    requests: Seq<OutputWritePlanView>,
)
    requires
        aliases_have_own_ids(known),
        requests.len() <= usize::MAX,
        something_is_shared(known, requests),
    ensures
        shared_cache_frontier(
            known,
            shared_candidates(known, requests, known.derived.len()),
        ) is Ambiguous <==> something_is_unserved(known, requests),
{
    let n = known.derived.len();
    shared_positions_match(known, requests, n);
    let shared = shared_candidates(known, requests, n);
    let positions = shared_positions(known, requests, n);
    let selected = frontier(known, shared, shared.len());
    accounted_for_iff_served(known, shared, selected, shared.len());
    frontier_facts(known, shared, shared.len());
    if something_is_unserved(known, requests) {
        let i = choose|i: int| #[trigger]
            is_shared(known, requests, i) && is_covered(known, requests, i) && !is_served(
                known,
                requests,
                i,
            );
        assert(positions.contains(i));
        let k = choose|k: int| 0 <= k < positions.len() && positions[k] == i;
        covered_is_covered(known, requests, k);
        served_by_frontier(known, requests, k);
        assert(first_match(selected, is_deeper_than(known, shared[k].table_id)) is None);
    } else {
        assert forall|k: int| 0 <= k < shared.len() && covered(known, shared, k) implies first_match(
            selected,
            is_deeper_than(known, (#[trigger] shared[k]).table_id),
        ) is Some by {
            covered_is_covered(known, requests, k);
            served_by_frontier(known, requests, k);
            assert(is_shared(known, requests, positions[k]));
        }
        let i = choose|i: int| #[trigger] is_shared(known, requests, i);
        assert(positions.contains(i));
        if selected.len() == 0 {
            let k = choose|k: int| 0 <= k < positions.len() && positions[k] == i;
            if covered(known, shared, k) {
                let p = is_deeper_than(known, shared[k].table_id);
                first_position_facts(selected, p);
                assert(first_match(selected, p) is Some);
            } else {
                assert(selected.contains(shared[k]));
            }
        }
    }
}

proof fn single_shared_is_uncovered(known: KnownTables, requests: Seq<OutputWritePlanView>)
    requires
        aliases_have_own_ids(known),
        requests.len() <= usize::MAX,
        shared_candidates(known, requests, known.derived.len()).len() == 1,
    ensures
        !something_is_unserved(known, requests),
        forall|i: int| #[trigger]
            is_shared(known, requests, i) ==> !is_covered(known, requests, i),
{
    let n = known.derived.len();
    shared_positions_match(known, requests, n);
    let shared = shared_candidates(known, requests, n);
    let positions = shared_positions(known, requests, n);
    assert forall|i: int| #[trigger] is_shared(known, requests, i) implies !is_covered(
        known,
        requests,
        i,
    ) by {
        assert(positions.contains(i));
        assert(positions[0] == i);
        covered_is_covered(known, requests, 0);
    }
}

/// For two or more requests the decision follows from what is shared. Nothing is cached where
/// nothing is shared, and where some shared alias is covered only by aliases that are covered
/// themselves; in every other case aliases are cached.
pub proof fn decision_follows_from_what_is_shared(
    known: KnownTables,
    requests: Seq<OutputWritePlanView>,
)
    requires
        aliases_have_own_ids(known),
        2 <= requests.len() <= usize::MAX,
    ensures
        ({
            let decision = output_cache_plan(known, requests).decision;
            &&& decision is CacheAliases <==> something_is_shared(known, requests)
                && !something_is_unserved(known, requests)
            &&& decision == (DecisionView::NoCache {
                reason: MssqlNoCacheReason::NoSharedRegisteredDerivedAlias,
            }) <==> !something_is_shared(known, requests)
            &&& decision == (DecisionView::NoCache {
                reason: MssqlNoCacheReason::AmbiguousSharedDerivedAlias,
            }) <==> something_is_unserved(known, requests)
        }),
{
    let n = known.derived.len();
    shared_positions_match(known, requests, n);
    let shared = shared_candidates(known, requests, n);
    let positions = shared_positions(known, requests, n);
    if shared.len() == 0 {
        assert forall|i: int| !(#[trigger] is_shared(known, requests, i)) by {
            if is_shared(known, requests, i) {
                assert(positions.contains(i));
            }
        }
    } else {
        assert(is_shared(known, requests, positions[0]));
        if shared.len() == 1 {
            single_shared_is_uncovered(known, requests);
        } else {
            frontier_is_ambiguous_iff_unserved(known, requests);
        }
    }
}

/// Where aliases are cached, they are exactly the shared aliases that no shared alias covers.
pub proof fn uncovered_shared_aliases_are_cached(
    known: KnownTables,
    requests: Seq<OutputWritePlanView>,
    i: int,
)
    requires
        aliases_have_own_ids(known),
        2 <= requests.len() <= usize::MAX,
        0 <= i < known.derived.len(),
        something_is_shared(known, requests),
        !something_is_unserved(known, requests),
    ensures
        caches(output_cache_plan(known, requests), known, i) <==> is_shared(known, requests, i)
            && !is_covered(known, requests, i),
{
    let n = known.derived.len();
    decision_follows_from_what_is_shared(known, requests);
    shared_positions_match(known, requests, n);
    let shared = shared_candidates(known, requests, n);
    let positions = shared_positions(known, requests, n);
    let plan = output_cache_plan(known, requests);
    let aliases = plan.decision->CacheAliases_0;
    frontier_facts(known, shared, shared.len());
    if shared.len() == 1 {
        single_shared_is_uncovered(known, requests);
    }
    if caches(plan, known, i) {
        let x = choose|x: int|
            0 <= x < aliases.len() && (#[trigger] aliases[x]).table_id == known.derived[i].table.id
                && aliases[x].alias == known.derived[i].table.name;
        let k = if shared.len() == 1 {
            x
        } else {
            choose|k: int|
                0 <= k < shared.len() && #[trigger] shared[k] == aliases[x] && !covered(
                    known,
                    shared,
                    k,
                )
        };
        assert(shared[k] == aliases[x]);
        assert(positions[k] == i);
        covered_is_covered(known, requests, k);
    }
    if is_shared(known, requests, i) && !is_covered(known, requests, i) {
        assert(positions.contains(i));
        let k = choose|k: int| 0 <= k < positions.len() && positions[k] == i;
        covered_is_covered(known, requests, k);
        if shared.len() == 1 {
            assert(aliases[k] == shared[k]);
        } else {
            assert(aliases.contains(shared[k]));
            let x = choose|x: int| 0 <= x < aliases.len() && aliases[x] == shared[k];
            assert(aliases[x].table_id == known.derived[i].table.id);
        }
    }
}

/// Where no shared alias reads another one, all shared aliases are cached together.
pub proof fn independent_shared_aliases_are_all_cached(
    known: KnownTables,
    requests: Seq<OutputWritePlanView>,
    i: int,
)
    requires
        aliases_have_own_ids(known),
        2 <= requests.len() <= usize::MAX,
        is_shared(known, requests, i),
        forall|a: int, b: int| #[trigger]
            is_shared(known, requests, a) && #[trigger] is_shared(known, requests, b)
                ==> !is_downstream(known, a, b),
    ensures
        caches(output_cache_plan(known, requests), known, i),
{
    assert forall|a: int| #[trigger] is_shared(known, requests, a) implies !is_covered(
        known,
        requests,
        a,
    ) by {
        if is_covered(known, requests, a) {
            let b = choose|b: int| #[trigger]
                is_shared(known, requests, b) && is_downstream(known, b, a);
            assert(!is_downstream(known, b, a));
        }
    }
    uncovered_shared_aliases_are_cached(known, requests, i);
}

/// Cached aliases stand in the order of their registration, and each lists the positions of the
/// requests that read it, in ascending order.
pub proof fn cached_aliases_keep_the_order(
    known: KnownTables,
    requests: Seq<OutputWritePlanView>,
    a: int,
    b: int,
)
    requires
        aliases_have_own_ids(known),
        2 <= requests.len() <= usize::MAX,
        output_cache_plan(known, requests).decision matches DecisionView::CacheAliases(aliases)
            && 0 <= a < b < aliases.len(),
    ensures
        ({
            let aliases = output_cache_plan(known, requests).decision->CacheAliases_0;
            exists|i: int, j: int|
                0 <= i < j < known.derived.len() && (#[trigger] known.derived[i]).table.id
                    == aliases[a].table_id && (#[trigger] known.derived[j]).table.id
                    == aliases[b].table_id
        }),
{
    let n = known.derived.len();
    shared_positions_match(known, requests, n);
    let shared = shared_candidates(known, requests, n);
    let positions = shared_positions(known, requests, n);
    let aliases = output_cache_plan(known, requests).decision->CacheAliases_0;
    let (x, y) = if shared.len() == 1 {
        (a, b)
    } else {
        frontier_keeps_the_order(known, shared, shared.len(), a, b);
        choose|x: int, y: int|
            0 <= x < y < shared.len() && #[trigger] shared[x] == aliases[a] && #[trigger] shared[y]
                == aliases[b]
    };
    assert(known.derived[positions[x]].table.id == aliases[a].table_id);
    assert(known.derived[positions[y]].table.id == aliases[b].table_id);
}

proof fn frontier_keeps_the_order(
    known: KnownTables,
    candidates: Seq<AliasPlanView>,
    n: nat,
    a: int,
    b: int,
)
    requires
        n <= candidates.len(),
        0 <= a < b < frontier(known, candidates, n).len(),
    ensures
        exists|x: int, y: int|
            0 <= x < y < n && #[trigger] candidates[x] == frontier(known, candidates, n)[a]
                && #[trigger] candidates[y] == frontier(known, candidates, n)[b],
    decreases n,
{
    let m = (n - 1) as nat;
    let before = frontier(known, candidates, m);
    let now = frontier(known, candidates, n);
    if b < before.len() {
        frontier_keeps_the_order(known, candidates, m, a, b);
        let (x, y) = choose|x: int, y: int|
            0 <= x < y < m && #[trigger] candidates[x] == before[a] && #[trigger] candidates[y]
                == before[b];
        assert(candidates[x] == now[a] && candidates[y] == now[b]);
    } else {
        frontier_facts(known, candidates, m);
        assert(now[a] == before[a]);
        let x = choose|x: int|
            0 <= x < m && #[trigger] candidates[x] == before[a] && !covered(known, candidates, x);
        assert(candidates[x] == now[a] && candidates[n - 1] == now[b]);
    }
}

proof fn unshared_is_listed(
    known: KnownTables,
    requests: Seq<OutputWritePlanView>,
    n: nat,
    i: int,
)
    requires
        0 <= i < n <= known.derived.len(),
        candidate(known, requests, known.derived[i]) is Skipped,
    ensures
        unshared_candidates(known, requests, n).contains(
            candidate(known, requests, known.derived[i])->Skipped_0,
        ),
    decreases n,
{
    let now = unshared_candidates(known, requests, n);
    let before = unshared_candidates(known, requests, (n - 1) as nat);
    let skip = candidate(known, requests, known.derived[i])->Skipped_0;
    if i < n - 1 {
        unshared_is_listed(known, requests, (n - 1) as nat, i);
        let k = choose|k: int| 0 <= k < before.len() && before[k] == skip;
        assert(now[k] == skip);
    } else {
        assert(now[before.len() as int] == skip);
    }
}

/// An alias without SQL text, with incomplete lineage, or with fewer than two readers is skipped
/// for that reason, and the number of its readers is told.
pub proof fn unshared_aliases_are_skipped(
    known: KnownTables,
    requests: Seq<OutputWritePlanView>,
    i: int,
)
    requires
        2 <= requests.len() <= usize::MAX,
        0 <= i < known.derived.len(),
    ensures
        ({
            let plan = output_cache_plan(known, requests);
            let missing = is_blank(known.derived[i].sql_text);
            let unread = forall|a: int| !(#[trigger] reads(known, requests, a, i));
            &&& missing ==> skips(plan, known, i, MssqlCacheCandidateSkipReason::MissingSqlText)
            &&& !missing && known.derived[i].lineage is Incomplete ==> skips(
                plan,
                known,
                i,
                MssqlCacheCandidateSkipReason::IncompleteLineage,
            )
            &&& can_be_replanned(known, i) && unread ==> skips(
                plan,
                known,
                i,
                MssqlCacheCandidateSkipReason::NotShared { output_count: 0 },
            )
            &&& can_be_replanned(known, i) && !unread && !is_shared(known, requests, i) ==> skips(
                plan,
                known,
                i,
                MssqlCacheCandidateSkipReason::NotShared { output_count: 1 },
            )
        }),
{
    let n = known.derived.len();
    let d = known.derived[i];
    let plan = output_cache_plan(known, requests);
    candidate_tells_shared(known, requests, i);
    users_count(known, requests, i);
    let users = using_outputs(known, requests, d.table.id, requests.len());
    using_outputs_are_the_users(known, requests, d.table.id, requests.len());
    if users.len() > 0 {
        assert(users.contains(users[0]));
        assert(reads(known, requests, users[0] as int, i));
    }
    if exists|a: int| #[trigger] reads(known, requests, a, i) {
        let a = choose|a: int| #[trigger] reads(known, requests, a, i);
        assert(users.contains(a as usize));
        assert(users.len() > 0);
    }
    if candidate(known, requests, d) is Skipped {
        unshared_is_listed(known, requests, n, i);
        let unshared = unshared_candidates(known, requests, n);
        let skip = candidate(known, requests, d)->Skipped_0;
        let k = choose|k: int| 0 <= k < unshared.len() && unshared[k] == skip;
        assert(plan.skipped_candidates[k] == skip);
    }
}

proof fn covered_entry_is_skipped(
    known: KnownTables,
    list: Seq<CoveredView>,
    n: nat,
    x: int,
    i: int,
)
    requires
        aliases_have_own_ids(known),
        0 <= x < n <= list.len(),
        0 <= i < known.derived.len(),
        list[x].alias.table_id == known.derived[i].table.id,
    ensures
        covered_skips(known, list, n).contains(
            SkipView {
                table_id: known.derived[i].table.id,
                alias: known.derived[i].table.name,
                reason: MssqlCacheCandidateSkipReason::CoveredByDeeperSharedAlias {
                    selected_table_id: list[x].selected_table_id,
                },
            },
        ),
    decreases n,
{
    let now = covered_skips(known, list, n);
    let before = covered_skips(known, list, (n - 1) as nat);
    let skip = SkipView {
        table_id: known.derived[i].table.id,
        alias: known.derived[i].table.name,
        reason: MssqlCacheCandidateSkipReason::CoveredByDeeperSharedAlias {
            selected_table_id: list[x].selected_table_id,
        },
    };
    if x < n - 1 {
        covered_entry_is_skipped(known, list, (n - 1) as nat, x, i);
        let k = choose|k: int| 0 <= k < before.len() && before[k] == skip;
        assert(now[k] == skip);
    } else {
        alias_is_found_by_id(known, i);
        assert(now[before.len() as int] == skip);
    }
}

proof fn covered_entry_is_listed(
    known: KnownTables,
    candidates: Seq<AliasPlanView>,
    selected: Seq<AliasPlanView>,
    n: nat,
    k: int,
)
    requires
        0 <= k < n <= candidates.len(),
        covered(known, candidates, k),
        first_match(selected, is_deeper_than(known, candidates[k].table_id)) is Some,
    ensures
        covered_candidates(known, candidates, selected, n).contains(
            CoveredView {
                alias: candidates[k],
                selected_table_id: first_match(
                    selected,
                    is_deeper_than(known, candidates[k].table_id),
                )->0.table_id,
            },
        ),
    decreases n,
{
    let now = covered_candidates(known, candidates, selected, n);
    let before = covered_candidates(known, candidates, selected, (n - 1) as nat);
    let entry = CoveredView {
        alias: candidates[k],
        selected_table_id: first_match(
            selected,
            is_deeper_than(known, candidates[k].table_id),
        )->0.table_id,
    };
    if k < n - 1 {
        covered_entry_is_listed(known, candidates, selected, (n - 1) as nat, k);
        let x = choose|x: int| 0 <= x < before.len() && before[x] == entry;
        assert(now[x] == entry);
    } else {
        assert(now[before.len() as int] == entry);
    }
}

/// Where aliases are cached, a covered shared alias is skipped for a cached alias that reads it.
pub proof fn covered_aliases_are_skipped_for_a_cached_one(
    known: KnownTables,
    requests: Seq<OutputWritePlanView>,
    i: int,
)
    requires
        aliases_have_own_ids(known),
        2 <= requests.len() <= usize::MAX,
        is_shared(known, requests, i),
        is_covered(known, requests, i),
        !something_is_unserved(known, requests),
    ensures
        exists|j: int|
            #[trigger] is_shared(known, requests, j) && !is_covered(known, requests, j)
                && is_downstream(known, j, i) && caches(output_cache_plan(known, requests), known, j)
                && skips(
                output_cache_plan(known, requests),
                known,
                i,
                MssqlCacheCandidateSkipReason::CoveredByDeeperSharedAlias {
                    selected_table_id: known.derived[j].table.id,
                },
            ),
{
    let n = known.derived.len();
    decision_follows_from_what_is_shared(known, requests);
    shared_positions_match(known, requests, n);
    let shared = shared_candidates(known, requests, n);
    let positions = shared_positions(known, requests, n);
    assert(positions.contains(i));
    let k = choose|k: int| 0 <= k < positions.len() && positions[k] == i;
    if shared.len() == 1 {
        single_shared_is_uncovered(known, requests);
    }
    let selected = frontier(known, shared, shared.len());
    let p = is_deeper_than(known, shared[k].table_id);
    covered_is_covered(known, requests, k);
    served_by_frontier(known, requests, k);
    first_position_facts(selected, p);
    frontier_facts(known, shared, shared.len());
    let x = first_position(selected, p)->0;
    let y = choose|y: int|
        0 <= y < shared.len() && #[trigger] shared[y] == selected[x] && !covered(known, shared, y);
    let j = positions[y];
    assert(is_shared(known, requests, j));
    covered_is_covered(known, requests, y);
    deeper_is_downstream(known, j, i);
    uncovered_shared_aliases_are_cached(known, requests, j);
    let list = covered_candidates(known, shared, selected, shared.len());
    covered_entry_is_listed(known, shared, selected, shared.len(), k);
    let entry = CoveredView { alias: shared[k], selected_table_id: selected[x].table_id };
    let z = choose|z: int| 0 <= z < list.len() && list[z] == entry;
    covered_entry_is_skipped(known, list, list.len(), z, i);
    let told = covered_skips(known, list, list.len());
    let skip = SkipView {
        table_id: known.derived[i].table.id,
        alias: known.derived[i].table.name,
        reason: MssqlCacheCandidateSkipReason::CoveredByDeeperSharedAlias {
            selected_table_id: known.derived[j].table.id,
        },
    };
    let w = choose|w: int| 0 <= w < told.len() && told[w] == skip;
    let unshared = unshared_candidates(known, requests, n);
    assert(output_cache_plan(known, requests).skipped_candidates[unshared.len() + w] == skip);
}

proof fn ambiguous_entry_is_skipped(
    known: KnownTables,
    candidates: Seq<AliasPlanView>,
    n: nat,
    k: int,
    i: int,
)
    requires
        aliases_have_own_ids(known),
        0 <= k < n <= candidates.len(),
        0 <= i < known.derived.len(),
        candidates[k].table_id == known.derived[i].table.id,
    ensures
        ambiguous_skips(known, candidates, n).contains(
            SkipView {
                table_id: known.derived[i].table.id,
                alias: known.derived[i].table.name,
                reason: MssqlCacheCandidateSkipReason::AmbiguousDepth,
            },
        ),
    decreases n,
{
    let now = ambiguous_skips(known, candidates, n);
    let before = ambiguous_skips(known, candidates, (n - 1) as nat);
    let skip = SkipView {
        table_id: known.derived[i].table.id,
        alias: known.derived[i].table.name,
        reason: MssqlCacheCandidateSkipReason::AmbiguousDepth,
    };
    if k < n - 1 {
        ambiguous_entry_is_skipped(known, candidates, (n - 1) as nat, k, i);
        let x = choose|x: int| 0 <= x < before.len() && before[x] == skip;
        assert(now[x] == skip);
    } else {
        alias_is_found_by_id(known, i);
        assert(now[before.len() as int] == skip);
    }
}

/// Where the shared aliases make no frontier, every one of them is skipped as ambiguous.
pub proof fn unserved_aliases_are_all_ambiguous(
    known: KnownTables,
    requests: Seq<OutputWritePlanView>,
    i: int,
)
    requires
        aliases_have_own_ids(known),
        2 <= requests.len() <= usize::MAX,
        is_shared(known, requests, i),
        something_is_unserved(known, requests),
    ensures
        skips(
            output_cache_plan(known, requests),
            known,
            i,
            MssqlCacheCandidateSkipReason::AmbiguousDepth,
        ),
{
    let n = known.derived.len();
    decision_follows_from_what_is_shared(known, requests);
    shared_positions_match(known, requests, n);
    let shared = shared_candidates(known, requests, n);
    let positions = shared_positions(known, requests, n);
    assert(positions.contains(i));
    let k = choose|k: int| 0 <= k < positions.len() && positions[k] == i;
    ambiguous_entry_is_skipped(known, shared, shared.len(), k, i);
    let told = ambiguous_skips(known, shared, shared.len());
    let skip = SkipView {
        table_id: known.derived[i].table.id,
        alias: known.derived[i].table.name,
        reason: MssqlCacheCandidateSkipReason::AmbiguousDepth,
    };
    let w = choose|w: int| 0 <= w < told.len() && told[w] == skip;
    let unshared = unshared_candidates(known, requests, n);
    assert(output_cache_plan(known, requests).skipped_candidates[unshared.len() + w] == skip);
}

} // verus!
