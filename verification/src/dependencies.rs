//! Derived aliases that a lineage reaches through other derived aliases.

use vstd::prelude::*;

use crate::lineage::{
    DependencyView, DerivedTableLineage, LineageView, dependencies_of, is_derived_dependency,
    names_derived,
};
use crate::registry::{
    DerivedView, RegisteredDerivedTable, derived_has_id, find_derived_by_id,
};
use crate::report::views;
use crate::search::{first_match, first_position_facts};

verus! {

/// The lineage of the registered alias with an id.
pub open spec fn lineage_with_id(derived: Seq<DerivedView>, id: u64) -> Option<LineageView> {
    match first_match(derived, derived_has_id(id)) {
        Some(table) => Some(table.lineage),
        None => None,
    }
}

/// The registered alias `from` names the alias `to`.
pub open spec fn leads_to(derived: Seq<DerivedView>, from: u64, to: u64) -> bool {
    lineage_with_id(derived, from) matches Some(lineage) && names_derived(lineage, to)
}

/// The alias at a position of a path names the next one.
pub open spec fn leads_on(derived: Seq<DerivedView>, path: Seq<u64>, i: int) -> bool {
    leads_to(derived, path[i], path[i + 1])
}

/// A chain of aliases that starts with one that a lineage names.
pub open spec fn is_path(derived: Seq<DerivedView>, start: LineageView, path: Seq<u64>) -> bool {
    &&& path.len() > 0
    &&& names_derived(start, path[0])
    &&& forall|i: int| 0 <= i < path.len() - 1 ==> #[trigger] leads_on(derived, path, i)
}

/// A lineage reaches an alias, directly or through other aliases.
pub open spec fn depends_on(derived: Seq<DerivedView>, start: LineageView, id: u64) -> bool {
    exists|path: Seq<u64>| #[trigger] is_path(derived, start, path) && path.last() == id
}

/// What a lineage names it reaches.
pub proof fn named_is_reached(derived: Seq<DerivedView>, start: LineageView, id: u64)
    requires
        names_derived(start, id),
    ensures
        depends_on(derived, start, id),
{
    let path = seq![id];
    assert(is_path(derived, start, path));
    assert(path.last() == id);
}

/// What a reached alias names is reached too.
pub proof fn reached_extends(derived: Seq<DerivedView>, start: LineageView, from: u64, to: u64)
    requires
        depends_on(derived, start, from),
        leads_to(derived, from, to),
    ensures
        depends_on(derived, start, to),
{
    let path = choose|path: Seq<u64>| #[trigger]
        is_path(derived, start, path) && path.last() == from;
    let longer = path.push(to);
    assert forall|i: int| 0 <= i < longer.len() - 1 implies #[trigger] leads_on(
        derived,
        longer,
        i,
    ) by {
        if i < path.len() - 1 {
            assert(leads_on(derived, path, i));
        }
    }
    assert(is_path(derived, start, longer));
    assert(longer.last() == to);
}

/// Everything that is reached lies in a set that holds what the lineage names and is closed
/// under what its members name.
pub proof fn reached_lies_in_closed(
    derived: Seq<DerivedView>,
    start: LineageView,
    closed: Seq<u64>,
    path: Seq<u64>,
)
    requires
        is_path(derived, start, path),
        forall|id: u64| names_derived(start, id) ==> closed.contains(id),
        forall|from: u64, to: u64|
            closed.contains(from) && #[trigger] leads_to(derived, from, to) ==> closed.contains(to),
    ensures
        closed.contains(path.last()),
    decreases path.len(),
{
    if path.len() == 1 {
    } else {
        let shorter = path.drop_last();
        assert forall|i: int| 0 <= i < shorter.len() - 1 implies #[trigger] leads_on(
            derived,
            shorter,
            i,
        ) by {
            assert(leads_on(derived, path, i));
        }
        reached_lies_in_closed(derived, start, closed, shorter);
        assert(leads_on(derived, path, path.len() - 2));
        assert(leads_to(derived, shorter.last(), path.last()));
    }
}

spec fn dependency_id(dependency: DependencyView) -> u64 {
    match dependency {
        DependencyView::DeltaSource { table_id, .. } => table_id,
        DependencyView::RegisteredDerived { table_id, .. } => table_id,
    }
}

spec fn lineage_ids(lineage: LineageView) -> Set<u64> {
    dependencies_of(lineage).map_values(|d: DependencyView| dependency_id(d)).to_set()
}

spec fn all_ids(derived: Seq<DerivedView>) -> Set<u64>
    decreases derived.len(),
{
    if derived.len() == 0 {
        Set::empty()
    } else {
        all_ids(derived.drop_last()).union(lineage_ids(derived.last().lineage))
    }
}

proof fn lineage_ids_facts(lineage: LineageView)
    ensures
        lineage_ids(lineage).finite(),
        forall|id: u64| names_derived(lineage, id) ==> #[trigger] lineage_ids(lineage).contains(id),
{
    let ids = dependencies_of(lineage).map_values(|d: DependencyView| dependency_id(d));
    vstd::seq_lib::seq_to_set_is_finite(ids);
    assert forall|id: u64| names_derived(lineage, id) implies #[trigger] lineage_ids(
        lineage,
    ).contains(id) by {
        let i = choose|i: int|
            0 <= i < dependencies_of(lineage).len() && is_derived_dependency(
                #[trigger] dependencies_of(lineage)[i],
                id,
            );
        assert(ids[i] == id);
        assert(ids.contains(id));
    }
}

proof fn all_ids_facts(derived: Seq<DerivedView>, i: int)
    ensures
        all_ids(derived).finite(),
        0 <= i < derived.len() ==> lineage_ids(derived[i].lineage).subset_of(all_ids(derived)),
    decreases derived.len(),
{
    if derived.len() > 0 {
        all_ids_facts(derived.drop_last(), i);
        lineage_ids_facts(derived.last().lineage);
        if 0 <= i < derived.len() - 1 {
            assert(derived.drop_last()[i] == derived[i]);
        }
    }
}

proof fn leads_to_known_id(derived: Seq<DerivedView>, from: u64, to: u64)
    requires
        leads_to(derived, from, to),
    ensures
        all_ids(derived).contains(to),
{
    first_position_facts(derived, derived_has_id(from));
    let i = crate::search::first_position(derived, derived_has_id(from))->0;
    all_ids_facts(derived, i);
    lineage_ids_facts(derived[i].lineage);
    assert(lineage_ids(derived[i].lineage).contains(to));
}

proof fn bounded_by_set(s: Seq<u64>, u: Set<u64>)
    requires
        s.no_duplicates(),
        u.finite(),
        forall|id: u64| s.contains(id) ==> u.contains(id),
    ensures
        s.len() <= u.len(),
{
    s.unique_seq_to_set();
    assert(s.to_set().subset_of(u));
    vstd::set_lib::lemma_len_subset(s.to_set(), u);
}

/// Tells whether a list holds a number.
pub fn holds(list: &Vec<u64>, id: u64) -> (r: bool)
    ensures
        r == list@.contains(id),
{
    let mut i: usize = 0;
    while i < list.len()
        invariant
            i <= list.len(),
            forall|k: int| 0 <= k < i ==> list@[k] != id,
        decreases list.len() - i,
    {
        if list[i] == id {
            assert(list@[i as int] == id);
            return true;
        }
        i += 1;
    }
    false
}

/// Appends the numbers that a list does not hold yet.
fn add_missing(list: &mut Vec<u64>, more: &Vec<u64>)
    requires
        old(list)@.no_duplicates(),
    ensures
        final(list)@.no_duplicates(),
        old(list)@.len() <= final(list)@.len(),
        final(list)@.take(old(list)@.len() as int) == old(list)@,
        forall|id: u64|
            final(list)@.contains(id) <==> old(list)@.contains(id) || more@.contains(id),
{
    let ghost before = list@;
    let mut i: usize = 0;
    assert(before.take(before.len() as int) =~= before);
    assert(forall|id: u64| !more@.take(0).contains(id));
    while i < more.len()
        invariant
            i <= more.len(),
            before == old(list)@,
            list@.no_duplicates(),
            before.len() <= list@.len(),
            list@.take(before.len() as int) == before,
            forall|id: u64|
                list@.contains(id) <==> before.contains(id) || more@.take(i as int).contains(id),
        decreases more.len() - i,
    {
        let id: u64 = more[i];
        let ghost current = list@;
        let ghost step = more@.take(i + 1);
        assert(step =~= more@.take(i as int).push(id));
        assert(forall|k: u64|
            step.contains(k) <==> more@.take(i as int).contains(k) || k == id) by {
            assert forall|k: u64| step.contains(k) implies more@.take(i as int).contains(k) || k
                == id by {
                let n = choose|n: int| 0 <= n < step.len() && step[n] == k;
                if n < i {
                    assert(more@.take(i as int)[n] == k);
                }
            }
            assert forall|k: u64| more@.take(i as int).contains(k) || k == id implies step.contains(
                k,
            ) by {
                if k == id {
                    assert(step[i as int] == id);
                } else {
                    let n = choose|n: int|
                        0 <= n < more@.take(i as int).len() && more@.take(i as int)[n] == k;
                    assert(step[n] == k);
                }
            }
        }
        if !holds(list, id) {
            list.push(id);
            assert(list@.take(before.len() as int) =~= current.take(before.len() as int));
            assert(forall|k: u64| list@.contains(k) <==> current.contains(k) || k == id) by {
                assert forall|k: u64| list@.contains(k) implies current.contains(k) || k == id by {
                    let n = choose|n: int| 0 <= n < list@.len() && list@[n] == k;
                    if n < current.len() {
                        assert(current[n] == k);
                    }
                }
                assert forall|k: u64| current.contains(k) || k == id implies list@.contains(k) by {
                    if k == id {
                        assert(list@[current.len() as int] == id);
                    } else {
                        let n = choose|n: int| 0 <= n < current.len() && current[n] == k;
                        assert(list@[n] == k);
                    }
                }
            }
            assert forall|a: int, b: int|
                0 <= a < list@.len() && 0 <= b < list@.len() && a != b implies list@[a]
                != list@[b] by {
                if a == current.len() {
                    assert(current[b] == list@[b]);
                    assert(current.contains(list@[b]));
                } else if b == current.len() {
                    assert(current[a] == list@[a]);
                    assert(current.contains(list@[a]));
                }
            }
        }
        i += 1;
        assert(forall|k: u64|
            list@.contains(k) <==> before.contains(k) || more@.take(i as int).contains(k)) by {
            assert(more@.take(i as int) == step);
            assert forall|k: u64| list@.contains(k) implies before.contains(k) || step.contains(
                k,
            ) by {
                assert(current.contains(k) || k == id);
            }
            assert forall|k: u64| before.contains(k) || step.contains(k) implies list@.contains(
                k,
            ) by {
                assert(current.contains(k) || k == id);
            }
        }
    }
    assert(more@.take(more.len() as int) =~= more@);
}

/// Lists every registered alias that a lineage reaches, each once.
pub fn reached_derived_ids(derived: &Vec<RegisteredDerivedTable>, start: &DerivedTableLineage) -> (r:
    Vec<u64>)
    ensures
        r@.no_duplicates(),
        forall|id: u64| r@.contains(id) <==> depends_on(views(derived@), start@, id),
{
    let ghost d = views(derived@);
    let ghost u = lineage_ids(start@).union(all_ids(d));
    proof {
        lineage_ids_facts(start@);
        all_ids_facts(d, 0);
    }
    let mut reached: Vec<u64> = Vec::new();
    let first = start.derived_ids();
    add_missing(&mut reached, &first);
    proof {
        assert forall|id: u64| #[trigger] reached@.contains(id) implies depends_on(d, start@, id)
            && u.contains(id) by {
            named_is_reached(d, start@, id);
            assert(lineage_ids(start@).contains(id));
        }
        bounded_by_set(reached@, u);
    }
    let mut n: usize = 0;
    while n < reached.len()
        invariant
            d == views(derived@),
            u == lineage_ids(start@).union(all_ids(d)),
            u.finite(),
            n <= reached.len() <= u.len(),
            reached@.no_duplicates(),
            forall|id: u64|
                #[trigger] reached@.contains(id) ==> depends_on(d, start@, id) && u.contains(id),
            forall|id: u64| names_derived(start@, id) ==> reached@.contains(id),
            forall|k: int, to: u64|
                0 <= k < n && #[trigger] leads_to(d, reached@[k], to) ==> reached@.contains(to),
        decreases u.len() - n,
    {
        let id: u64 = reached[n];
        let ghost before = reached@;
        assert(before.contains(id)) by {
            assert(before[n as int] == id);
        }
        match find_derived_by_id(derived, id) {
            Some(i) => {
                let more = derived[i].lineage().derived_ids();
                assert(d[i as int] == derived@[i as int]@);
                add_missing(&mut reached, &more);
                proof {
                    assert forall|to: u64| #[trigger] reached@.contains(to) implies depends_on(
                        d,
                        start@,
                        to,
                    ) && u.contains(to) by {
                        if !before.contains(to) {
                            assert(leads_to(d, id, to));
                            reached_extends(d, start@, id, to);
                            leads_to_known_id(d, id, to);
                        }
                    }
                    bounded_by_set(reached@, u);
                    assert forall|k: int, to: u64|
                        0 <= k < n + 1 && #[trigger] leads_to(
                            d,
                            reached@[k],
                            to,
                        ) implies reached@.contains(to) by {
                        assert(reached@[k] == reached@.take(before.len() as int)[k]);
                        assert(reached@[k] == before[k]);
                        if k < n {
                            assert(before.contains(to));
                        }
                    }
                }
            },
            None => {
                assert forall|k: int, to: u64|
                    0 <= k < n + 1 && #[trigger] leads_to(
                        d,
                        reached@[k],
                        to,
                    ) implies reached@.contains(to) by {}
            },
        }
        n += 1;
    }
    proof {
        assert forall|from: u64, to: u64|
            reached@.contains(from) && #[trigger] leads_to(d, from, to) implies reached@.contains(
            to,
        ) by {
            let k = choose|k: int| 0 <= k < reached@.len() && reached@[k] == from;
            assert(leads_to(d, reached@[k], to));
        }
        assert forall|id: u64| depends_on(d, start@, id) implies reached@.contains(id) by {
            let path = choose|path: Seq<u64>| #[trigger]
                is_path(d, start@, path) && path.last() == id;
            reached_lies_in_closed(d, start@, reached@, path);
        }
    }
    reached
}

} // verus!
