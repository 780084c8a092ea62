//! What every cache plan keeps.

use vstd::prelude::*;

use crate::cache_plan::{
    AliasPlanView, CoveredView, DecisionView, KnownTables, MssqlNoCacheReason, ambiguous_skips,
    covered, covered_candidates, covered_skips, deeper_than, frontier, is_deeper_than,
    output_cache_plan, plan_output, shared_candidates, unshared_candidates, uses, using_outputs,
};
use crate::handles::OutputWritePlanView;
use crate::registry::{DerivedView, derived_has_id};
use crate::search::{first_match, first_position, first_position_facts};
use crate::text::is_blank;

verus! {

/// A plan lists the requests in the order of the caller, each at its own position.
pub proof fn plan_keeps_request_order(
    known: KnownTables,
    requests: Seq<OutputWritePlanView>,
    i: int,
)
    requires
        0 <= i < requests.len() <= usize::MAX,
    ensures
        output_cache_plan(known, requests).selected_outputs.len() == requests.len(),
        output_cache_plan(known, requests).selected_outputs[i].index == i,
        output_cache_plan(known, requests).selected_outputs[i].table_id == requests[i].table.id,
        output_cache_plan(known, requests).selected_outputs[i].table_name
            == requests[i].table.name,
        output_cache_plan(known, requests).selected_outputs[i].output_name
            == requests[i].target.output_name,
{
    assert(plan_output(i, requests[i]).index == i);
}

/// The listed positions are, in ascending order, those of the requests that use the alias.
pub proof fn using_outputs_are_the_users(
    known: KnownTables,
    requests: Seq<OutputWritePlanView>,
    id: u64,
    n: nat,
)
    requires
        n <= requests.len() <= usize::MAX,
    ensures
        forall|k: usize|
            #[trigger] using_outputs(known, requests, id, n).contains(k) <==> k < n && uses(
                known,
                requests[k as int].table,
                id,
            ),
        forall|a: int, b: int|
            0 <= a < b < using_outputs(known, requests, id, n).len() ==> #[trigger] using_outputs(
                known,
                requests,
                id,
                n,
            )[a] < #[trigger] using_outputs(known, requests, id, n)[b],
    decreases n,
{
    if n > 0 {
        let m = (n - 1) as nat;
        using_outputs_are_the_users(known, requests, id, m);
        let before = using_outputs(known, requests, id, m);
        let now = using_outputs(known, requests, id, n);
        assert forall|k: usize| #[trigger] now.contains(k) <==> k < n && uses(
            known,
            requests[k as int].table,
            id,
        ) by {
            if now.contains(k) {
                let a = choose|a: int| 0 <= a < now.len() && now[a] == k;
                if a < before.len() {
                    assert(before[a] == k);
                    assert(before.contains(k));
                }
            }
            if k < n && uses(known, requests[k as int].table, id) {
                if k < m {
                    assert(before.contains(k));
                    let a = choose|a: int| 0 <= a < before.len() && before[a] == k;
                    assert(now[a] == k);
                } else {
                    assert(now[before.len() as int] == k);
                }
            }
        }
        assert forall|a: int, b: int| 0 <= a < b < now.len() implies #[trigger] now[a]
            < #[trigger] now[b] by {
            assert(now[a] == before[a]);
            if b < before.len() {
                assert(now[b] == before[b]);
            } else {
                assert(before.contains(before[a]));
            }
        }
    }
}

/// An alias plan stands for a registered alias with SQL text and complete lineage, and lists
/// at least two requests, which are exactly those that use it.
pub open spec fn is_shared_alias(
    known: KnownTables,
    requests: Seq<OutputWritePlanView>,
    alias: AliasPlanView,
) -> bool {
    &&& alias.output_indexes.len() >= 2
    &&& forall|k: usize|
        #[trigger] alias.output_indexes.contains(k) <==> k < requests.len() && uses(
            known,
            requests[k as int].table,
            alias.table_id,
        )
    &&& exists|d: int|
        0 <= d < known.derived.len() && registered_as(#[trigger] known.derived[d], alias)
}

/// A registered alias is eligible and is the one that a plan names.
pub open spec fn registered_as(derived: DerivedView, alias: AliasPlanView) -> bool {
    &&& derived.table.id == alias.table_id
    &&& derived.table.name == alias.alias
    &&& !is_blank(derived.sql_text)
    &&& derived.lineage is Complete
}

proof fn shared_candidates_are_shared(
    known: KnownTables,
    requests: Seq<OutputWritePlanView>,
    n: nat,
    i: int,
)
    requires
        n <= known.derived.len(),
        requests.len() <= usize::MAX,
        0 <= i < shared_candidates(known, requests, n).len(),
    ensures
        is_shared_alias(known, requests, shared_candidates(known, requests, n)[i]),
    decreases n,
{
    let m = (n - 1) as nat;
    let before = shared_candidates(known, requests, m);
    if i < before.len() {
        shared_candidates_are_shared(known, requests, m, i);
    } else {
        let derived = known.derived[n - 1];
        using_outputs_are_the_users(known, requests, derived.table.id, requests.len());
        let alias = shared_candidates(known, requests, n)[i];
        assert(registered_as(known.derived[n - 1], alias));
    }
}

proof fn frontier_comes_from_candidates(
    known: KnownTables,
    candidates: Seq<AliasPlanView>,
    n: nat,
    i: int,
)
    requires
        n <= candidates.len(),
        0 <= i < frontier(known, candidates, n).len(),
    ensures
        exists|k: int|
            0 <= k < n && #[trigger] candidates[k] == frontier(known, candidates, n)[i] && !covered(
                known,
                candidates,
                k,
            ),
    decreases n,
{
    let m = (n - 1) as nat;
    let before = frontier(known, candidates, m);
    if i < before.len() {
        frontier_comes_from_candidates(known, candidates, m, i);
        let k = choose|k: int|
            0 <= k < m && #[trigger] candidates[k] == before[i] && !covered(known, candidates, k);
        assert(candidates[k] == frontier(known, candidates, n)[i]);
    } else {
        assert(candidates[n - 1] == frontier(known, candidates, n)[i]);
    }
}

/// Every cached alias is a registered alias that at least two requests use, and its plan
/// lists exactly the requests that use it.
pub proof fn cached_aliases_are_shared(
    known: KnownTables,
    requests: Seq<OutputWritePlanView>,
    i: int,
)
    requires
        requests.len() <= usize::MAX,
        output_cache_plan(known, requests).decision matches DecisionView::CacheAliases(aliases)
            && 0 <= i < aliases.len(),
    ensures
        is_shared_alias(
            known,
            requests,
            output_cache_plan(known, requests).decision->CacheAliases_0[i],
        ),
{
    let shared = shared_candidates(known, requests, known.derived.len());
    let aliases = output_cache_plan(known, requests).decision->CacheAliases_0;
    if shared.len() == 1 {
        shared_candidates_are_shared(known, requests, known.derived.len(), i);
    } else {
        frontier_comes_from_candidates(known, shared, shared.len(), i);
        let k = choose|k: int|
            0 <= k < shared.len() && #[trigger] shared[k] == aliases[i] && !covered(
                known,
                shared,
                k,
            );
        shared_candidates_are_shared(known, requests, known.derived.len(), k);
    }
}

/// No cached alias is a downstream alias of another cached alias.
pub proof fn cached_aliases_are_independent(
    known: KnownTables,
    requests: Seq<OutputWritePlanView>,
    i: int,
    j: int,
)
    requires
        output_cache_plan(known, requests).decision matches DecisionView::CacheAliases(aliases)
            && 0 <= i < aliases.len() && 0 <= j < aliases.len(),
    ensures
        !deeper_than(
            known,
            output_cache_plan(known, requests).decision->CacheAliases_0[i].table_id,
            output_cache_plan(known, requests).decision->CacheAliases_0[j].table_id,
        ),
{
    let shared = shared_candidates(known, requests, known.derived.len());
    let aliases = output_cache_plan(known, requests).decision->CacheAliases_0;
    if shared.len() > 1 {
        frontier_comes_from_candidates(known, shared, shared.len(), i);
        frontier_comes_from_candidates(known, shared, shared.len(), j);
        let a = choose|k: int|
            0 <= k < shared.len() && #[trigger] shared[k] == aliases[i] && !covered(
                known,
                shared,
                k,
            );
        let b = choose|k: int|
            0 <= k < shared.len() && #[trigger] shared[k] == aliases[j] && !covered(
                known,
                shared,
                k,
            );
        if deeper_than(known, aliases[i].table_id, aliases[j].table_id) {
            assert(a != b);
            assert(deeper_than(known, shared[a].table_id, shared[b].table_id));
            assert(covered(known, shared, b));
        }
    }
}

proof fn uncovered_is_on_frontier(
    known: KnownTables,
    candidates: Seq<AliasPlanView>,
    n: nat,
    k: int,
)
    requires
        0 <= k < n <= candidates.len(),
        !covered(known, candidates, k),
    ensures
        frontier(known, candidates, n).contains(candidates[k]),
    decreases n,
{
    let before = frontier(known, candidates, (n - 1) as nat);
    let now = frontier(known, candidates, n);
    if k < n - 1 {
        uncovered_is_on_frontier(known, candidates, (n - 1) as nat, k);
        let a = choose|a: int| 0 <= a < before.len() && before[a] == candidates[k];
        assert(now[a] == candidates[k]);
    } else {
        assert(now[before.len() as int] == candidates[k]);
    }
}

/// Where every covered candidate is accounted for, each has a deeper alias on the frontier.
proof fn all_covered_have_deeper(
    known: KnownTables,
    candidates: Seq<AliasPlanView>,
    selected: Seq<AliasPlanView>,
    n: nat,
)
    requires
        n <= candidates.len(),
    ensures
        frontier(known, candidates, n).len() + covered_candidates(
            known,
            candidates,
            selected,
            n,
        ).len() <= n,
        frontier(known, candidates, n).len() + covered_candidates(
            known,
            candidates,
            selected,
            n,
        ).len() == n ==> forall|k: int|
            0 <= k < n && covered(known, candidates, k) ==> first_match(
                selected,
                is_deeper_than(known, (#[trigger] candidates[k]).table_id),
            ) is Some,
    decreases n,
{
    if n > 0 {
        all_covered_have_deeper(known, candidates, selected, (n - 1) as nat);
    }
}

/// Every shared alias is cached itself, or a cached alias is downstream of it.
pub proof fn shared_aliases_are_cached_or_covered(
    known: KnownTables,
    requests: Seq<OutputWritePlanView>,
    k: int,
)
    requires
        0 <= k < shared_candidates(known, requests, known.derived.len()).len(),
        output_cache_plan(known, requests).decision is CacheAliases,
    ensures
        ({
            let alias = shared_candidates(known, requests, known.derived.len())[k];
            let aliases = output_cache_plan(known, requests).decision->CacheAliases_0;
            ||| aliases.contains(alias)
            ||| exists|i: int|
                0 <= i < aliases.len() && deeper_than(
                    known,
                    (#[trigger] aliases[i]).table_id,
                    alias.table_id,
                )
        }),
{
    let shared = shared_candidates(known, requests, known.derived.len());
    let aliases = output_cache_plan(known, requests).decision->CacheAliases_0;
    if shared.len() == 1 {
        assert(aliases[k] == shared[k]);
    } else if covered(known, shared, k) {
        all_covered_have_deeper(known, shared, aliases, shared.len());
        let p = is_deeper_than(known, shared[k].table_id);
        first_position_facts(aliases, p);
        let i = first_position(aliases, p)->0;
        assert(deeper_than(known, aliases[i].table_id, shared[k].table_id));
    } else {
        uncovered_is_on_frontier(known, shared, shared.len(), k);
    }
}

proof fn shared_and_unshared_add_up(
    known: KnownTables,
    requests: Seq<OutputWritePlanView>,
    n: nat,
)
    ensures
        shared_candidates(known, requests, n).len() + unshared_candidates(known, requests, n).len()
            == n,
    decreases n,
{
    if n > 0 {
        shared_and_unshared_add_up(known, requests, (n - 1) as nat);
    }
}

proof fn shared_ids_are_registered(
    known: KnownTables,
    requests: Seq<OutputWritePlanView>,
    n: nat,
    i: int,
)
    requires
        n <= known.derived.len(),
        0 <= i < shared_candidates(known, requests, n).len(),
    ensures
        first_match(
            known.derived,
            derived_has_id(shared_candidates(known, requests, n)[i].table_id),
        ) is Some,
    decreases n,
{
    let before = shared_candidates(known, requests, (n - 1) as nat);
    if i < before.len() {
        shared_ids_are_registered(known, requests, (n - 1) as nat, i);
    } else {
        let p = derived_has_id(known.derived[n - 1].table.id);
        first_position_facts(known.derived, p);
        assert(p(known.derived[n - 1]));
    }
}

proof fn covered_come_from_candidates(
    known: KnownTables,
    candidates: Seq<AliasPlanView>,
    selected: Seq<AliasPlanView>,
    n: nat,
    i: int,
)
    requires
        n <= candidates.len(),
        0 <= i < covered_candidates(known, candidates, selected, n).len(),
    ensures
        exists|k: int|
            0 <= k < n && #[trigger] candidates[k] == covered_candidates(
                known,
                candidates,
                selected,
                n,
            )[i].alias,
    decreases n,
{
    let before = covered_candidates(known, candidates, selected, (n - 1) as nat);
    if i < before.len() {
        covered_come_from_candidates(known, candidates, selected, (n - 1) as nat, i);
        let k = choose|k: int| 0 <= k < n - 1 && #[trigger] candidates[k] == before[i].alias;
        assert(candidates[k] == covered_candidates(known, candidates, selected, n)[i].alias);
    } else {
        assert(candidates[n - 1] == covered_candidates(known, candidates, selected, n)[i].alias);
    }
}

proof fn covered_skips_len(known: KnownTables, list: Seq<CoveredView>, n: nat)
    requires
        n <= list.len(),
        forall|i: int|
            0 <= i < list.len() ==> first_match(
                known.derived,
                derived_has_id((#[trigger] list[i]).alias.table_id),
            ) is Some,
    ensures
        covered_skips(known, list, n).len() == n,
    decreases n,
{
    if n > 0 {
        covered_skips_len(known, list, (n - 1) as nat);
        assert(first_match(
            known.derived,
            derived_has_id(list[n - 1].alias.table_id),
        ) is Some);
    }
}

proof fn ambiguous_skips_len(known: KnownTables, list: Seq<AliasPlanView>, n: nat)
    requires
        n <= list.len(),
        forall|i: int|
            0 <= i < list.len() ==> first_match(
                known.derived,
                derived_has_id((#[trigger] list[i]).table_id),
            ) is Some,
    ensures
        ambiguous_skips(known, list, n).len() == n,
    decreases n,
{
    if n > 0 {
        ambiguous_skips_len(known, list, (n - 1) as nat);
        assert(first_match(known.derived, derived_has_id(list[n - 1].table_id)) is Some);
    }
}

/// For two or more requests every registered alias is accounted for: the cached and the
/// skipped ones together are as many as are registered.
pub proof fn every_alias_is_accounted_for(known: KnownTables, requests: Seq<OutputWritePlanView>)
    requires
        requests.len() >= 2,
    ensures
        ({
            let plan = output_cache_plan(known, requests);
            let cached = match plan.decision {
                DecisionView::CacheAliases(aliases) => aliases.len(),
                DecisionView::NoCache { .. } => 0,
            };
            cached + plan.skipped_candidates.len() == known.derived.len()
        }),
{
    let n = known.derived.len();
    let shared = shared_candidates(known, requests, n);
    shared_and_unshared_add_up(known, requests, n);
    assert forall|i: int| 0 <= i < shared.len() implies first_match(
        known.derived,
        derived_has_id((#[trigger] shared[i]).table_id),
    ) is Some by {
        shared_ids_are_registered(known, requests, n, i);
    }
    if shared.len() > 1 {
        let selected = frontier(known, shared, shared.len());
        let list = covered_candidates(known, shared, selected, shared.len());
        assert forall|i: int| 0 <= i < list.len() implies first_match(
            known.derived,
            derived_has_id((#[trigger] list[i]).alias.table_id),
        ) is Some by {
            covered_come_from_candidates(known, shared, selected, shared.len(), i);
            let k = choose|k: int| 0 <= k < shared.len() && #[trigger] shared[k] == list[i].alias;
            assert(first_match(known.derived, derived_has_id(shared[k].table_id)) is Some);
        }
        covered_skips_len(known, list, list.len());
        ambiguous_skips_len(known, shared, shared.len());
    }
}

/// Nothing is cached for fewer than two requests.
pub proof fn fewer_than_two_requests_cache_nothing(
    known: KnownTables,
    requests: Seq<OutputWritePlanView>,
)
    requires
        requests.len() < 2,
    ensures
        output_cache_plan(known, requests).decision == (DecisionView::NoCache {
            reason: MssqlNoCacheReason::FewerThanTwoOutputs,
        }),
{
}

} // verus!
