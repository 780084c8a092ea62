//! Which of some candidates for caching are chosen, and in what order the others are told of.

use vstd::prelude::*;

use crate::cache_choice_laws::{candidate_tells_shared, is_shared};
use crate::cache_plan::{
    AliasPlanView, CoveredView, DecisionView, FrontierView, KnownTables, MssqlNoCacheReason,
    SkipView, ambiguous_skips, covered, covered_candidates, covered_skips, deeper_than, frontier,
    is_deeper_than, output_cache_plan, shared_cache_frontier, shared_candidates,
    unshared_candidates,
};
use crate::handles::OutputWritePlanView;
use crate::registry::derived_has_id;
use crate::search::{first_match, first_position, first_position_facts};

verus! {

/// Another candidate is deeper than a candidate.
pub open spec fn has_deeper(known: KnownTables, candidates: Seq<AliasPlanView>, i: int) -> bool {
    exists|j: int|
        0 <= j < candidates.len() && j != i && deeper_than(
            known,
            (#[trigger] candidates[j]).table_id,
            candidates[i].table_id,
        )
}

/// The candidates from a position on that have no deeper one, in order.
pub open spec fn deepest_from(known: KnownTables, candidates: Seq<AliasPlanView>, i: int) -> Seq<
    AliasPlanView,
>
    decreases candidates.len() - i,
{
    if i < 0 || i >= candidates.len() {
        seq![]
    } else if has_deeper(known, candidates, i) {
        deepest_from(known, candidates, i + 1)
    } else {
        seq![candidates[i]] + deepest_from(known, candidates, i + 1)
    }
}

/// The candidates from a position on that have a deeper one, in order.
pub open spec fn others_from(known: KnownTables, candidates: Seq<AliasPlanView>, i: int) -> Seq<
    AliasPlanView,
>
    decreases candidates.len() - i,
{
    if i < 0 || i >= candidates.len() {
        seq![]
    } else if has_deeper(known, candidates, i) {
        seq![candidates[i]] + others_from(known, candidates, i + 1)
    } else {
        others_from(known, candidates, i + 1)
    }
}

/// A candidate that has no deeper one is deeper than a candidate.
pub open spec fn has_deepest(known: KnownTables, candidates: Seq<AliasPlanView>, i: int) -> bool {
    exists|j: int|
        0 <= j < candidates.len() && !has_deeper(known, candidates, j) && deeper_than(
            known,
            (#[trigger] candidates[j]).table_id,
            candidates[i].table_id,
        )
}

/// Some candidate has no deeper one, and every other has one above it that has none.
pub open spec fn can_be_ordered(known: KnownTables, candidates: Seq<AliasPlanView>) -> bool {
    &&& exists|i: int|
        0 <= i < candidates.len() && !(#[trigger] has_deeper(known, candidates, i))
    &&& forall|i: int|
        0 <= i < candidates.len() && #[trigger] has_deeper(known, candidates, i) ==> has_deepest(
            known,
            candidates,
            i,
        )
}

proof fn frontier_and_rest(known: KnownTables, candidates: Seq<AliasPlanView>, n: nat)
    requires
        n <= candidates.len(),
    ensures
        frontier(known, candidates, n) + deepest_from(known, candidates, n as int) == deepest_from(
            known,
            candidates,
            0,
        ),
    decreases n,
{
    if n == 0 {
        assert(frontier(known, candidates, 0) + deepest_from(known, candidates, 0)
            =~= deepest_from(known, candidates, 0));
    } else {
        frontier_and_rest(known, candidates, (n - 1) as nat);
        assert(frontier(known, candidates, n) + deepest_from(known, candidates, n as int)
            =~= frontier(known, candidates, (n - 1) as nat) + deepest_from(
            known,
            candidates,
            n - 1,
        ));
    }
}

proof fn frontier_is_the_deepest(known: KnownTables, candidates: Seq<AliasPlanView>)
    ensures
        frontier(known, candidates, candidates.len()) == deepest_from(known, candidates, 0),
{
    frontier_and_rest(known, candidates, candidates.len());
    assert(frontier(known, candidates, candidates.len()) + seq![] =~= frontier(
        known,
        candidates,
        candidates.len(),
    ));
}

proof fn deepest_are_candidates(known: KnownTables, candidates: Seq<AliasPlanView>, i: int)
    requires
        0 <= i <= candidates.len(),
    ensures
        forall|k: int|
            0 <= k < deepest_from(known, candidates, i).len() ==> exists|j: int|
                i <= j < candidates.len() && !has_deeper(known, candidates, j)
                    && #[trigger] candidates[j] == #[trigger] deepest_from(known, candidates, i)[k],
        forall|j: int|
            i <= j < candidates.len() && !has_deeper(known, candidates, j) ==> deepest_from(
                known,
                candidates,
                i,
            ).contains(#[trigger] candidates[j]),
    decreases candidates.len() - i,
{
    if i < candidates.len() {
        deepest_are_candidates(known, candidates, i + 1);
        let rest = deepest_from(known, candidates, i + 1);
        let all = deepest_from(known, candidates, i);
        assert forall|k: int| 0 <= k < all.len() implies exists|j: int|
            i <= j < candidates.len() && !has_deeper(known, candidates, j)
                && #[trigger] candidates[j] == #[trigger] all[k] by {
            if has_deeper(known, candidates, i) {
                let j = choose|j: int|
                    i + 1 <= j < candidates.len() && !has_deeper(known, candidates, j)
                        && #[trigger] candidates[j] == rest[k];
                assert(candidates[j] == all[k]);
            } else if k == 0 {
                assert(candidates[i] == all[0]);
            } else {
                assert(all[k] == rest[k - 1]);
                let j = choose|j: int|
                    i + 1 <= j < candidates.len() && !has_deeper(known, candidates, j)
                        && #[trigger] candidates[j] == rest[k - 1];
                assert(candidates[j] == all[k]);
            }
        }
        assert forall|j: int|
            i <= j < candidates.len() && !has_deeper(known, candidates, j) implies all.contains(
            #[trigger] candidates[j],
        ) by {
            if j == i {
                assert(all[0] == candidates[i]);
            } else {
                let x = choose|x: int| 0 <= x < rest.len() && rest[x] == candidates[j];
                if has_deeper(known, candidates, i) {
                    assert(all[x] == candidates[j]);
                } else {
                    assert(all[x + 1] == candidates[j]);
                }
            }
        }
    }
}

proof fn found_among_deepest(known: KnownTables, candidates: Seq<AliasPlanView>, i: int)
    requires
        0 <= i < candidates.len(),
    ensures
        first_match(
            deepest_from(known, candidates, 0),
            is_deeper_than(known, candidates[i].table_id),
        ) is Some <==> has_deepest(known, candidates, i),
{
    let selected = deepest_from(known, candidates, 0);
    let p = is_deeper_than(known, candidates[i].table_id);
    first_position_facts(selected, p);
    deepest_are_candidates(known, candidates, 0);
    if first_position(selected, p) is Some {
        let k = first_position(selected, p)->0;
        let j = choose|j: int|
            0 <= j < candidates.len() && !has_deeper(known, candidates, j)
                && #[trigger] candidates[j] == selected[k];
        assert(deeper_than(known, candidates[j].table_id, candidates[i].table_id));
    }
    if has_deepest(known, candidates, i) {
        let j = choose|j: int|
            0 <= j < candidates.len() && !has_deeper(known, candidates, j) && deeper_than(
                known,
                (#[trigger] candidates[j]).table_id,
                candidates[i].table_id,
            );
        assert(selected.contains(candidates[j]));
        let k = choose|k: int| 0 <= k < selected.len() && selected[k] == candidates[j];
        assert(p(selected[k]));
    }
}

/// A covered candidate is told of with the first chosen alias that is deeper.
pub open spec fn is_served_by_the_first(
    known: KnownTables,
    selected: Seq<AliasPlanView>,
    entry: CoveredView,
) -> bool {
    exists|m: int|
        0 <= m < selected.len() && (#[trigger] selected[m]).table_id == entry.selected_table_id
            && deeper_than(known, selected[m].table_id, entry.alias.table_id) && forall|x: int|
            0 <= x < m ==> !deeper_than(
                known,
                (#[trigger] selected[x]).table_id,
                entry.alias.table_id,
            )
}

proof fn covered_so_far(known: KnownTables, candidates: Seq<AliasPlanView>, n: nat)
    requires
        n <= candidates.len(),
    ensures
        ({
            let selected = deepest_from(known, candidates, 0);
            let list = covered_candidates(known, candidates, selected, n);
            &&& frontier(known, candidates, n).len() + list.len() <= n
            &&& frontier(known, candidates, n).len() + list.len() == n <==> forall|i: int|
                0 <= i < n && #[trigger] has_deeper(known, candidates, i) ==> has_deepest(
                    known,
                    candidates,
                    i,
                )
            &&& forall|k: int|
                0 <= k < list.len() ==> is_served_by_the_first(known, selected, #[trigger] list[k])
        }),
    decreases n,
{
    let selected = deepest_from(known, candidates, 0);
    if n > 0 {
        covered_so_far(known, candidates, (n - 1) as nat);
        let last = candidates[n - 1];
        let p = is_deeper_than(known, last.table_id);
        found_among_deepest(known, candidates, n - 1);
        first_position_facts(selected, p);
        let before = covered_candidates(known, candidates, selected, (n - 1) as nat);
        let list = covered_candidates(known, candidates, selected, n);
        assert(covered(known, candidates, n - 1) == has_deeper(known, candidates, n - 1));
        if has_deeper(known, candidates, n - 1) && first_position(selected, p) is Some {
            let m = first_position(selected, p)->0;
            let entry = CoveredView { alias: last, selected_table_id: selected[m].table_id };
            assert(list == before.push(entry));
            assert forall|x: int| 0 <= x < m implies !deeper_than(
                known,
                (#[trigger] selected[x]).table_id,
                last.table_id,
            ) by {
                assert(!p(selected[x]));
            }
            assert(p(selected[m]));
            assert(is_served_by_the_first(known, selected, entry));
        }
        assert forall|k: int| 0 <= k < list.len() implies is_served_by_the_first(
            known,
            selected,
            #[trigger] list[k],
        ) by {
            if k < before.len() {
                assert(list[k] == before[k]);
            }
        }
    }
}

proof fn covered_in_order(known: KnownTables, candidates: Seq<AliasPlanView>, n: nat)
    requires
        n <= candidates.len(),
        can_be_ordered(known, candidates),
    ensures
        covered_candidates(
            known,
            candidates,
            deepest_from(known, candidates, 0),
            n,
        ).map_values(|entry: CoveredView| entry.alias) + others_from(known, candidates, n as int)
            == others_from(known, candidates, 0),
    decreases n,
{
    let selected = deepest_from(known, candidates, 0);
    let f = |entry: CoveredView| entry.alias;
    let list = covered_candidates(known, candidates, selected, n);
    if n == 0 {
        assert(list.map_values(f) + others_from(known, candidates, 0) =~= others_from(
            known,
            candidates,
            0,
        ));
    } else {
        covered_in_order(known, candidates, (n - 1) as nat);
        found_among_deepest(known, candidates, n - 1);
        let before = covered_candidates(known, candidates, selected, (n - 1) as nat);
        let rest = others_from(known, candidates, n as int);
        if has_deeper(known, candidates, n - 1) {
            assert(covered(known, candidates, n - 1));
            assert(list.len() == before.len() + 1);
            assert(list.map_values(f) =~= before.map_values(f).push(candidates[n - 1]));
            assert(list.map_values(f) + rest =~= before.map_values(f) + (seq![candidates[n - 1]]
                + rest));
        } else {
            assert(!covered(known, candidates, n - 1));
        }
    }
}

/// Candidates are chosen exactly where they can be ordered. Chosen are all that have no deeper
/// candidate, in order; the others are told of in order, each with the first chosen alias that is
/// deeper. Where they cannot be ordered none is chosen.
pub proof fn deepest_candidates_are_chosen(known: KnownTables, candidates: Seq<AliasPlanView>)
    ensures
        shared_cache_frontier(known, candidates) is Selected <==> can_be_ordered(known, candidates),
        shared_cache_frontier(known, candidates) matches FrontierView::Selected {
            selected,
            covered,
        } ==> {
            &&& selected == deepest_from(known, candidates, 0)
            &&& selected.len() + covered.len() == candidates.len()
            &&& covered.map_values(|entry: CoveredView| entry.alias) == others_from(
                known,
                candidates,
                0,
            )
            &&& forall|k: int|
                0 <= k < covered.len() ==> is_served_by_the_first(
                    known,
                    selected,
                    #[trigger] covered[k],
                )
        },
{
    let n = candidates.len();
    frontier_is_the_deepest(known, candidates);
    covered_so_far(known, candidates, n);
    deepest_are_candidates(known, candidates, 0);
    let selected = deepest_from(known, candidates, 0);
    if selected.len() > 0 {
        let j = choose|j: int|
            0 <= j < candidates.len() && !has_deeper(known, candidates, j)
                && #[trigger] candidates[j] == selected[0];
        assert(!has_deeper(known, candidates, j));
    }
    if exists|i: int| 0 <= i < candidates.len() && !(#[trigger] has_deeper(known, candidates, i)) {
        let i = choose|i: int|
            0 <= i < candidates.len() && !(#[trigger] has_deeper(known, candidates, i));
        assert(selected.contains(candidates[i]));
    }
    if can_be_ordered(known, candidates) {
        covered_in_order(known, candidates, n);
        let list = covered_candidates(known, candidates, selected, n);
        let f = |entry: CoveredView| entry.alias;
        assert(list.map_values(f) + others_from(known, candidates, n as int) =~= list.map_values(
            f,
        ));
    }
}

/// Only registered aliases are ever deeper than another, and none is deeper than itself.
pub proof fn only_registered_aliases_are_deeper(known: KnownTables, id: u64, other: u64)
    ensures
        deeper_than(known, id, other) ==> id != other,
        deeper_than(known, id, other) ==> exists|i: int, j: int|
            0 <= i < known.derived.len() && 0 <= j < known.derived.len() && (
            #[trigger] known.derived[i]).table.id == id && (#[trigger] known.derived[j]).table.id
                == other,
{
    first_position_facts(known.derived, derived_has_id(id));
    first_position_facts(known.derived, derived_has_id(other));
    if deeper_than(known, id, other) {
        let i = first_position(known.derived, derived_has_id(id))->0;
        let j = first_position(known.derived, derived_has_id(other))->0;
        assert(known.derived[i].table.id == id && known.derived[j].table.id == other);
    }
}

/// The ids of the aliases from a position on that are not shared, in order.
pub open spec fn unshared_ids_from(
    known: KnownTables,
    requests: Seq<OutputWritePlanView>,
    i: int,
) -> Seq<u64>
    decreases known.derived.len() - i,
{
    if i < 0 || i >= known.derived.len() {
        seq![]
    } else if is_shared(known, requests, i) {
        unshared_ids_from(known, requests, i + 1)
    } else {
        seq![known.derived[i].table.id] + unshared_ids_from(known, requests, i + 1)
    }
}

/// The ids of the aliases from a position on that are shared, in order.
pub open spec fn shared_ids_from(
    known: KnownTables,
    requests: Seq<OutputWritePlanView>,
    i: int,
) -> Seq<u64>
    decreases known.derived.len() - i,
{
    if i < 0 || i >= known.derived.len() {
        seq![]
    } else if is_shared(known, requests, i) {
        seq![known.derived[i].table.id] + shared_ids_from(known, requests, i + 1)
    } else {
        shared_ids_from(known, requests, i + 1)
    }
}

proof fn candidates_in_order(known: KnownTables, requests: Seq<OutputWritePlanView>, n: nat)
    requires
        requests.len() <= usize::MAX,
        n <= known.derived.len(),
    ensures
        unshared_candidates(known, requests, n).map_values(|skip: SkipView| skip.table_id)
            + unshared_ids_from(known, requests, n as int) == unshared_ids_from(known, requests, 0),
        shared_candidates(known, requests, n).map_values(|alias: AliasPlanView| alias.table_id)
            + shared_ids_from(known, requests, n as int) == shared_ids_from(known, requests, 0),
    decreases n,
{
    let f = |skip: SkipView| skip.table_id;
    let g = |alias: AliasPlanView| alias.table_id;
    let unshared = unshared_candidates(known, requests, n);
    let shared = shared_candidates(known, requests, n);
    if n == 0 {
        assert(unshared.map_values(f) + unshared_ids_from(known, requests, 0)
            =~= unshared_ids_from(known, requests, 0));
        assert(shared.map_values(g) + shared_ids_from(known, requests, 0) =~= shared_ids_from(
            known,
            requests,
            0,
        ));
    } else {
        candidates_in_order(known, requests, (n - 1) as nat);
        candidate_tells_shared(known, requests, n - 1);
        let unshared_before = unshared_candidates(known, requests, (n - 1) as nat);
        let shared_before = shared_candidates(known, requests, (n - 1) as nat);
        let id = known.derived[n - 1].table.id;
        if is_shared(known, requests, n - 1) {
            assert(shared.map_values(g) =~= shared_before.map_values(g).push(id));
            assert(shared.map_values(g) + shared_ids_from(known, requests, n as int)
                =~= shared_before.map_values(g) + (seq![id] + shared_ids_from(
                known,
                requests,
                n as int,
            )));
        } else {
            assert(unshared.map_values(f) =~= unshared_before.map_values(f).push(id));
            assert(unshared.map_values(f) + unshared_ids_from(known, requests, n as int)
                =~= unshared_before.map_values(f) + (seq![id] + unshared_ids_from(
                known,
                requests,
                n as int,
            )));
        }
    }
}

/// The candidates for caching are the shared aliases, in their order.
pub proof fn shared_aliases_are_the_candidates(
    known: KnownTables,
    requests: Seq<OutputWritePlanView>,
)
    requires
        requests.len() <= usize::MAX,
    ensures
        shared_candidates(known, requests, known.derived.len()).map_values(
            |alias: AliasPlanView| alias.table_id,
        ) == shared_ids_from(known, requests, 0),
{
    let n = known.derived.len();
    let g = |alias: AliasPlanView| alias.table_id;
    candidates_in_order(known, requests, n);
    let shared = shared_candidates(known, requests, n);
    assert(shared.map_values(g) + shared_ids_from(known, requests, n as int) =~= shared.map_values(
        g,
    ));
}

proof fn shared_are_registered(known: KnownTables, requests: Seq<OutputWritePlanView>, n: nat, k: int)
    requires
        n <= known.derived.len(),
        0 <= k < shared_candidates(known, requests, n).len(),
    ensures
        first_match(
            known.derived,
            derived_has_id(shared_candidates(known, requests, n)[k].table_id),
        ) is Some,
    decreases n,
{
    if n > 0 {
        let before = shared_candidates(known, requests, (n - 1) as nat);
        if k < before.len() {
            shared_are_registered(known, requests, (n - 1) as nat, k);
        } else {
            let id = known.derived[n - 1].table.id;
            first_position_facts(known.derived, derived_has_id(id));
            assert(derived_has_id(id)(known.derived[n - 1]));
        }
    }
}

proof fn ambiguous_in_order(known: KnownTables, candidates: Seq<AliasPlanView>, n: nat)
    requires
        n <= candidates.len(),
        forall|k: int|
            0 <= k < n ==> first_match(
                known.derived,
                derived_has_id((#[trigger] candidates[k]).table_id),
            ) is Some,
    ensures
        ambiguous_skips(known, candidates, n).map_values(|skip: SkipView| skip.table_id)
            == candidates.take(n as int).map_values(|alias: AliasPlanView| alias.table_id),
    decreases n,
{
    let f = |skip: SkipView| skip.table_id;
    let g = |alias: AliasPlanView| alias.table_id;
    if n == 0 {
        assert(ambiguous_skips(known, candidates, 0).map_values(f) =~= candidates.take(
            0,
        ).map_values(g));
    } else {
        ambiguous_in_order(known, candidates, (n - 1) as nat);
        let id = candidates[n - 1].table_id;
        first_position_facts(known.derived, derived_has_id(id));
        let before = ambiguous_skips(known, candidates, (n - 1) as nat);
        assert(first_match(known.derived, derived_has_id(candidates[n - 1].table_id)) is Some);
        assert(ambiguous_skips(known, candidates, n).map_values(f) =~= before.map_values(f).push(
            id,
        ));
        assert(candidates.take(n as int).map_values(g) =~= candidates.take(n - 1).map_values(
            g,
        ).push(id));
    }
}

proof fn covered_skips_in_order(known: KnownTables, list: Seq<CoveredView>, n: nat)
    requires
        n <= list.len(),
        forall|k: int|
            0 <= k < n ==> first_match(
                known.derived,
                derived_has_id((#[trigger] list[k]).alias.table_id),
            ) is Some,
    ensures
        covered_skips(known, list, n).map_values(|skip: SkipView| skip.table_id) == list.take(
            n as int,
        ).map_values(|entry: CoveredView| entry.alias.table_id),
    decreases n,
{
    let f = |skip: SkipView| skip.table_id;
    let g = |entry: CoveredView| entry.alias.table_id;
    if n == 0 {
        assert(covered_skips(known, list, 0).map_values(f) =~= list.take(0).map_values(g));
    } else {
        covered_skips_in_order(known, list, (n - 1) as nat);
        let id = list[n - 1].alias.table_id;
        first_position_facts(known.derived, derived_has_id(id));
        let before = covered_skips(known, list, (n - 1) as nat);
        assert(first_match(known.derived, derived_has_id(list[n - 1].alias.table_id)) is Some);
        assert(covered_skips(known, list, n).map_values(f) =~= before.map_values(f).push(id));
        assert(list.take(n as int).map_values(g) =~= list.take(n - 1).map_values(g).push(id));
    }
}

/// Aliases that are not cached are told of in order: first those that are not shared, and behind
/// them, where no cache could be chosen, all shared ones, and where caches were chosen the shared
/// ones that have a deeper one. Nothing is told of for a single request.
pub proof fn uncached_aliases_are_told_of_in_order(
    known: KnownTables,
    requests: Seq<OutputWritePlanView>,
)
    requires
        requests.len() <= usize::MAX,
    ensures
        ({
            let plan = output_cache_plan(known, requests);
            let ids = plan.skipped_candidates.map_values(|skip: SkipView| skip.table_id);
            let unshared = unshared_ids_from(known, requests, 0);
            let shared = shared_ids_from(known, requests, 0);
            if requests.len() < 2 {
                ids == Seq::<u64>::empty()
            } else {
                match plan.decision {
                    DecisionView::NoCache { reason } => if reason
                        == MssqlNoCacheReason::AmbiguousSharedDerivedAlias {
                        ids == unshared + shared
                    } else {
                        ids == unshared
                    },
                    DecisionView::CacheAliases(_) => ids == unshared + others_from(
                        known,
                        shared_candidates(known, requests, known.derived.len()),
                        0,
                    ).map_values(|alias: AliasPlanView| alias.table_id),
                }
            }
        }),
{
    let n = known.derived.len();
    let f = |skip: SkipView| skip.table_id;
    let g = |alias: AliasPlanView| alias.table_id;
    let plan = output_cache_plan(known, requests);
    let unshared = unshared_candidates(known, requests, n);
    let shared = shared_candidates(known, requests, n);
    candidates_in_order(known, requests, n);
    assert(unshared.map_values(f) + unshared_ids_from(known, requests, n as int)
        =~= unshared.map_values(f));
    assert(shared.map_values(g) + shared_ids_from(known, requests, n as int) =~= shared.map_values(
        g,
    ));
    assert forall|k: int| 0 <= k < shared.len() implies first_match(
        known.derived,
        derived_has_id((#[trigger] shared[k]).table_id),
    ) is Some by {
        shared_are_registered(known, requests, n, k);
    }
    if requests.len() < 2 {
        assert(plan.skipped_candidates.map_values(f) =~= Seq::<u64>::empty());
    } else if shared.len() == 1 {
        assert(!has_deeper(known, shared, 0));
        reveal_with_fuel(others_from, 2);
        assert(others_from(known, shared, 0) =~= Seq::<AliasPlanView>::empty());
        assert(plan.skipped_candidates.map_values(f) =~= unshared.map_values(f) + others_from(
            known,
            shared,
            0,
        ).map_values(g));
    } else if shared.len() >= 2 {
        match shared_cache_frontier(known, shared) {
            FrontierView::Ambiguous => {
                ambiguous_in_order(known, shared, shared.len());
                assert(shared.take(shared.len() as int) =~= shared);
                assert(plan.skipped_candidates.map_values(f) =~= unshared.map_values(f)
                    + ambiguous_skips(known, shared, shared.len()).map_values(f));
            },
            FrontierView::Selected { selected, covered } => {
                deepest_candidates_are_chosen(known, shared);
                let h = |entry: CoveredView| entry.alias;
                assert forall|k: int| 0 <= k < covered.len() implies first_match(
                    known.derived,
                    derived_has_id((#[trigger] covered[k]).alias.table_id),
                ) is Some by {
                    assert(covered.map_values(h)[k] == covered[k].alias);
                    others_are_candidates(known, shared, 0, k);
                }
                covered_skips_in_order(known, covered, covered.len());
                let told = covered_skips(known, covered, covered.len());
                assert(told.len() == told.map_values(f).len());
                assert(covered.take(covered.len() as int) =~= covered);
                assert(plan.skipped_candidates.map_values(f) =~= unshared.map_values(f)
                    + told.map_values(f));
                assert(told.map_values(f) =~= covered.map_values(h).map_values(g));
            },
        }
    }
}

proof fn others_are_candidates(
    known: KnownTables,
    candidates: Seq<AliasPlanView>,
    i: int,
    k: int,
)
    requires
        0 <= i <= candidates.len(),
        0 <= k < others_from(known, candidates, i).len(),
    ensures
        exists|j: int|
            i <= j < candidates.len() && #[trigger] candidates[j] == others_from(
                known,
                candidates,
                i,
            )[k],
    decreases candidates.len() - i,
{
    if i < candidates.len() {
        let rest = others_from(known, candidates, i + 1);
        let all = others_from(known, candidates, i);
        if has_deeper(known, candidates, i) {
            if k == 0 {
                assert(candidates[i] == all[0]);
            } else {
                others_are_candidates(known, candidates, i + 1, k - 1);
                assert(all[k] == rest[k - 1]);
            }
        } else {
            others_are_candidates(known, candidates, i + 1, k);
        }
    }
}

} // verus!
