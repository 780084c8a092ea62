//! What one table reads through others, one step at a time.

use vstd::prelude::*;

use crate::cache_plan::{KnownTables, deeper_than, table_lineage, uses};
use crate::dependencies::{depends_on, is_path, leads_on, lineage_with_id, named_is_reached};
use crate::execution::ProviderSnapshotView;
use crate::handles::{LazyTableKind, LazyTableView, OutputWritePlanView};
use crate::lineage::{
    DependencyView, LineageView, dependencies_of, is_derived_dependency, is_source_dependency,
    names_derived, names_source,
};
use crate::registry::{DerivedView, SourceView, derived_has_id, pending_has_id};
use crate::report::{FileCount, ReportReasonCode};
use crate::routes::known_tables;
use crate::search::{first_match, first_position, first_position_facts, first_position_is};
use crate::session::SessionView;
use crate::session_laws::well_formed;
use crate::source_usage::{
    SourceUsageStatus, alias_names_source, all_files_planned, counted_files, has_complete_lineage,
    read_source_names, reading_outputs, reads_are_known, reads_source,
    scheduling_keeps_the_partitions, source_reports, source_usage, stats_of_source, table_reads,
    uncounted_reason, unselected_source_reports, usage_is_known,
};

verus! {

/// A lineage names an alias where it is known and lists that alias among what it reads.
pub proof fn named_aliases_are_listed(lineage: LineageView, id: u64)
    ensures
        names_derived(lineage, id) <==> (lineage is Complete && exists|i: int|
            0 <= i < lineage->dependencies.len() && (
            #[trigger] lineage->dependencies[i] matches DependencyView::RegisteredDerived {
                table_id,
                ..
            } && table_id == id)),
        names_source(lineage, id) <==> (lineage is Complete && exists|i: int|
            0 <= i < lineage->dependencies.len() && (
            #[trigger] lineage->dependencies[i] matches DependencyView::DeltaSource {
                table_id,
                ..
            } && table_id == id)),
{
    let listed = dependencies_of(lineage);
    if names_derived(lineage, id) {
        let i = choose|i: int|
            0 <= i < listed.len() && is_derived_dependency(#[trigger] listed[i], id);
        assert(lineage->dependencies[i] == listed[i]);
    }
    if names_source(lineage, id) {
        let i = choose|i: int| 0 <= i < listed.len() && is_source_dependency(
            #[trigger] listed[i],
            id,
        );
        assert(lineage->dependencies[i] == listed[i]);
    }
    if lineage is Complete && exists|i: int|
        0 <= i < lineage->dependencies.len() && (
        #[trigger] lineage->dependencies[i] matches DependencyView::RegisteredDerived {
            table_id,
            ..
        } && table_id == id) {
        let i = choose|i: int|
            0 <= i < lineage->dependencies.len() && (
            #[trigger] lineage->dependencies[i] matches DependencyView::RegisteredDerived {
                table_id,
                ..
            } && table_id == id);
        assert(is_derived_dependency(listed[i], id));
    }
    if lineage is Complete && exists|i: int|
        0 <= i < lineage->dependencies.len() && (
        #[trigger] lineage->dependencies[i] matches DependencyView::DeltaSource { table_id, .. }
            && table_id == id) {
        let i = choose|i: int|
            0 <= i < lineage->dependencies.len() && (
            #[trigger] lineage->dependencies[i] matches DependencyView::DeltaSource {
                table_id,
                ..
            } && table_id == id);
        assert(is_source_dependency(listed[i], id));
    }
}

/// No two aliases share an id.
pub open spec fn own_ids(derived: Seq<DerivedView>) -> bool {
    forall|i: int, j: int|
        0 <= i < j < derived.len() ==> (#[trigger] derived[i]).table.id != (
        #[trigger] derived[j]).table.id
}

proof fn alias_at(derived: Seq<DerivedView>, k: int)
    requires
        own_ids(derived),
        0 <= k < derived.len(),
    ensures
        first_match(derived, derived_has_id(derived[k].table.id)) == Some(derived[k]),
        lineage_with_id(derived, derived[k].table.id) == Some(derived[k].lineage),
{
    let p = derived_has_id(derived[k].table.id);
    assert forall|j: int| 0 <= j < k implies !p(#[trigger] derived[j]) by {}
    first_position_is(derived, p, k);
}

proof fn lineage_is_of_an_alias(derived: Seq<DerivedView>, id: u64)
    ensures
        lineage_with_id(derived, id) matches Some(lineage) ==> exists|k: int|
            0 <= k < derived.len() && (#[trigger] derived[k]).table.id == id && derived[k].lineage
                == lineage,
{
    first_position_facts(derived, derived_has_id(id));
    if lineage_with_id(derived, id) is Some {
        let k = first_position(derived, derived_has_id(id))->0;
        assert(derived[k].table.id == id);
    }
}

/// What an alias depends on, whatever names that alias depends on too.
proof fn path_is_extended_in_front(
    derived: Seq<DerivedView>,
    start: LineageView,
    k: int,
    to: u64,
)
    requires
        own_ids(derived),
        0 <= k < derived.len(),
        names_derived(start, derived[k].table.id),
        depends_on(derived, derived[k].lineage, to),
    ensures
        depends_on(derived, start, to),
{
    alias_at(derived, k);
    let tail = choose|path: Seq<u64>| #[trigger]
        is_path(derived, derived[k].lineage, path) && path.last() == to;
    let path = seq![derived[k].table.id] + tail;
    assert forall|i: int| 0 <= i < path.len() - 1 implies #[trigger] leads_on(derived, path, i) by {
        if i == 0 {
            assert(path[1] == tail[0]);
        } else {
            assert(leads_on(derived, tail, i - 1));
            assert(path[i] == tail[i - 1]);
            assert(path[i + 1] == tail[i]);
        }
    }
    assert(is_path(derived, start, path));
    assert(path.last() == tail.last());
}

proof fn path_is_split_in_front(derived: Seq<DerivedView>, start: LineageView, to: u64)
    requires
        own_ids(derived),
        depends_on(derived, start, to),
    ensures
        names_derived(start, to) || exists|k: int|
            0 <= k < derived.len() && names_derived(start, (#[trigger] derived[k]).table.id)
                && depends_on(derived, derived[k].lineage, to),
{
    let path = choose|path: Seq<u64>| #[trigger]
        is_path(derived, start, path) && path.last() == to;
    if path.len() > 1 {
        assert(leads_on(derived, path, 0));
        lineage_is_of_an_alias(derived, path[0]);
        let lineage = lineage_with_id(derived, path[0])->0;
        let k = choose|k: int|
            0 <= k < derived.len() && (#[trigger] derived[k]).table.id == path[0]
                && derived[k].lineage == lineage;
        let tail = path.skip(1);
        assert forall|i: int| 0 <= i < tail.len() - 1 implies #[trigger] leads_on(
            derived,
            tail,
            i,
        ) by {
            assert(leads_on(derived, path, i + 1));
        }
        assert(tail[0] == path[1]);
        assert(is_path(derived, derived[k].lineage, tail));
        assert(tail.last() == to);
        assert(names_derived(start, derived[k].table.id));
    }
}

/// A lineage depends on an alias exactly where it names it or names an alias whose own lineage
/// depends on it.
pub proof fn dependence_goes_step_by_step(derived: Seq<DerivedView>, start: LineageView, to: u64)
    requires
        own_ids(derived),
    ensures
        depends_on(derived, start, to) <==> (names_derived(start, to) || exists|k: int|
            0 <= k < derived.len() && names_derived(start, (#[trigger] derived[k]).table.id)
                && depends_on(derived, derived[k].lineage, to)),
{
    if depends_on(derived, start, to) {
        path_is_split_in_front(derived, start, to);
    }
    if names_derived(start, to) {
        named_is_reached(derived, start, to);
    }
    if exists|k: int|
        0 <= k < derived.len() && names_derived(start, (#[trigger] derived[k]).table.id)
            && depends_on(derived, derived[k].lineage, to) {
        let k = choose|k: int|
            0 <= k < derived.len() && names_derived(start, (#[trigger] derived[k]).table.id)
                && depends_on(derived, derived[k].lineage, to);
        path_is_extended_in_front(derived, start, k, to);
    }
}

/// What depends on nothing named depends on nothing: a set of aliases that holds all that a
/// lineage names, and all that the aliases in it name, holds all that the lineage depends on.
pub proof fn dependence_reaches_no_further(
    derived: Seq<DerivedView>,
    start: LineageView,
    closed: Set<u64>,
    to: u64,
)
    requires
        own_ids(derived),
        depends_on(derived, start, to),
        forall|id: u64| names_derived(start, id) ==> closed.contains(id),
        forall|k: int, id: u64|
            0 <= k < derived.len() && closed.contains((#[trigger] derived[k]).table.id)
                && #[trigger] names_derived(derived[k].lineage, id) ==> closed.contains(id),
    ensures
        closed.contains(to),
{
    let path = choose|path: Seq<u64>| #[trigger]
        is_path(derived, start, path) && path.last() == to;
    path_stays_in(derived, start, closed, path, (path.len() - 1) as nat);
}

proof fn path_stays_in(
    derived: Seq<DerivedView>,
    start: LineageView,
    closed: Set<u64>,
    path: Seq<u64>,
    i: nat,
)
    requires
        own_ids(derived),
        is_path(derived, start, path),
        i < path.len(),
        forall|id: u64| names_derived(start, id) ==> closed.contains(id),
        forall|k: int, id: u64|
            0 <= k < derived.len() && closed.contains((#[trigger] derived[k]).table.id)
                && #[trigger] names_derived(derived[k].lineage, id) ==> closed.contains(id),
    ensures
        closed.contains(path[i as int]),
    decreases i,
{
    if i > 0 {
        path_stays_in(derived, start, closed, path, (i - 1) as nat);
        assert(leads_on(derived, path, i - 1));
        lineage_is_of_an_alias(derived, path[i - 1]);
        let lineage = lineage_with_id(derived, path[i - 1])->0;
        let k = choose|k: int|
            0 <= k < derived.len() && (#[trigger] derived[k]).table.id == path[i - 1]
                && derived[k].lineage == lineage;
        assert(names_derived(derived[k].lineage, path[i as int]));
    }
}

/// A source's handle uses itself alone.
pub proof fn source_uses_no_alias(known: KnownTables, table: LazyTableView, id: u64)
    requires
        table.kind == LazyTableKind::DeltaSource,
    ensures
        uses(known, table, id) <==> table.id == id,
{
}

/// An alias uses itself and what its lineage depends on.
pub proof fn alias_uses_what_it_depends_on(known: KnownTables, table: LazyTableView, k: int, id: u64)
    requires
        own_ids(known.derived),
        0 <= k < known.derived.len(),
        table.kind == LazyTableKind::DerivedSql,
        table.id == known.derived[k].table.id,
    ensures
        uses(known, table, id) <==> table.id == id || depends_on(
            known.derived,
            known.derived[k].lineage,
            id,
        ),
{
    alias_at(known.derived, k);
}

/// A pending table uses itself and what its lineage depends on.
pub proof fn pending_table_uses_what_it_depends_on(
    known: KnownTables,
    table: LazyTableView,
    k: int,
    id: u64,
)
    requires
        0 <= k < known.pending.len(),
        table.kind == LazyTableKind::DerivedSql,
        table.id == known.pending[k].table.id,
        forall|j: int| 0 <= j < known.derived.len() ==> (#[trigger] known.derived[j]).table.id
            != table.id,
        forall|j: int|
            0 <= j < k ==> (#[trigger] known.pending[j]).table.id != table.id,
    ensures
        uses(known, table, id) <==> table.id == id || depends_on(
            known.derived,
            known.pending[k].lineage,
            id,
        ),
{
    first_position_facts(known.derived, derived_has_id(table.id));
    let p = pending_has_id(table.id);
    assert forall|j: int| 0 <= j < k implies !p(#[trigger] known.pending[j]) by {}
    first_position_is(known.pending, p, k);
}

/// A derived handle that nothing holds uses itself alone.
pub proof fn unknown_table_uses_nothing(known: KnownTables, table: LazyTableView, id: u64)
    requires
        forall|j: int| 0 <= j < known.derived.len() ==> (#[trigger] known.derived[j]).table.id
            != table.id,
        forall|j: int| 0 <= j < known.pending.len() ==> (#[trigger] known.pending[j]).table.id
            != table.id,
    ensures
        uses(known, table, id) <==> table.id == id,
{
    first_position_facts(known.derived, derived_has_id(table.id));
    first_position_facts(known.pending, pending_has_id(table.id));
}

/// Using goes on from alias to alias: what an alias names, and what that one uses, it uses too,
/// and it uses nothing else but itself.
pub proof fn using_goes_step_by_step(known: KnownTables, k: int, id: u64)
    requires
        own_ids(known.derived),
        0 <= k < known.derived.len(),
        forall|j: int|
            0 <= j < known.derived.len() ==> (#[trigger] known.derived[j]).table.kind
                == LazyTableKind::DerivedSql,
    ensures
        uses(known, known.derived[k].table, id) <==> (known.derived[k].table.id == id
            || names_derived(known.derived[k].lineage, id) || exists|j: int|
            0 <= j < known.derived.len() && names_derived(
                known.derived[k].lineage,
                (#[trigger] known.derived[j]).table.id,
            ) && uses(known, known.derived[j].table, id)),
{
    let lineage = known.derived[k].lineage;
    alias_uses_what_it_depends_on(known, known.derived[k].table, k, id);
    dependence_goes_step_by_step(known.derived, lineage, id);
    if exists|j: int|
        0 <= j < known.derived.len() && names_derived(
            lineage,
            (#[trigger] known.derived[j]).table.id,
        ) && uses(known, known.derived[j].table, id) {
        let j = choose|j: int|
            0 <= j < known.derived.len() && names_derived(
                lineage,
                (#[trigger] known.derived[j]).table.id,
            ) && uses(known, known.derived[j].table, id);
        alias_uses_what_it_depends_on(known, known.derived[j].table, j, id);
    }
    if exists|j: int|
        0 <= j < known.derived.len() && names_derived(
            lineage,
            (#[trigger] known.derived[j]).table.id,
        ) && depends_on(known.derived, known.derived[j].lineage, id) {
        let j = choose|j: int|
            0 <= j < known.derived.len() && names_derived(
                lineage,
                (#[trigger] known.derived[j]).table.id,
            ) && depends_on(known.derived, known.derived[j].lineage, id);
        alias_uses_what_it_depends_on(known, known.derived[j].table, j, id);
        assert(uses(known, known.derived[j].table, id));
    }
}

/// An alias is deeper than another where it is another alias and uses it.
pub proof fn deeper_aliases_use_the_other(known: KnownTables, i: int, j: int)
    requires
        own_ids(known.derived),
        0 <= i < known.derived.len(),
        0 <= j < known.derived.len(),
    ensures
        deeper_than(known, known.derived[i].table.id, known.derived[j].table.id) <==> i != j
            && uses(known, known.derived[i].table, known.derived[j].table.id),
{
    alias_at(known.derived, i);
    alias_at(known.derived, j);
}

proof fn reading_is_that_of_the_lineage(s: SessionView, k: int)
    requires
        well_formed(s),
        0 <= k < s.derived.len(),
    ensures
        table_lineage(known_tables(s), s.derived[k].table.id) == Some(s.derived[k].lineage),
{
    assert(own_ids(s.derived));
    alias_at(s.derived, k);
}

/// Whatever a lineage is of, it reads the sources that it names and those that the lineages of
/// the aliases it names read, and no others.
pub proof fn lineage_reads_step_by_step(
    derived: Seq<DerivedView>,
    start: LineageView,
    source_id: u64,
)
    requires
        own_ids(derived),
    ensures
        reads_source(derived, start, source_id) <==> (names_source(start, source_id) || exists|
            k: int,
        |
            0 <= k < derived.len() && names_derived(start, (#[trigger] derived[k]).table.id)
                && reads_source(derived, derived[k].lineage, source_id)),
{
    if reads_source(derived, start, source_id) && !names_source(start, source_id) {
        let id = choose|id: u64| #[trigger]
            depends_on(derived, start, id) && alias_names_source(derived, id, source_id);
        lineage_is_of_an_alias(derived, id);
        let of_id = lineage_with_id(derived, id)->0;
        let m = choose|m: int|
            0 <= m < derived.len() && (#[trigger] derived[m]).table.id == id && derived[m].lineage
                == of_id;
        path_is_split_in_front(derived, start, id);
        if names_derived(start, id) {
            assert(reads_source(derived, derived[m].lineage, source_id));
        } else {
            let k = choose|k: int|
                0 <= k < derived.len() && names_derived(start, (#[trigger] derived[k]).table.id)
                    && depends_on(derived, derived[k].lineage, id);
            assert(reads_source(derived, derived[k].lineage, source_id));
        }
    }
    if exists|k: int|
        0 <= k < derived.len() && names_derived(start, (#[trigger] derived[k]).table.id)
            && reads_source(derived, derived[k].lineage, source_id) {
        let k = choose|k: int|
            0 <= k < derived.len() && names_derived(start, (#[trigger] derived[k]).table.id)
                && reads_source(derived, derived[k].lineage, source_id);
        alias_at(derived, k);
        named_is_reached(derived, start, derived[k].table.id);
        if names_source(derived[k].lineage, source_id) {
            assert(alias_names_source(derived, derived[k].table.id, source_id));
        } else {
            let id = choose|id: u64| #[trigger]
                depends_on(derived, derived[k].lineage, id) && alias_names_source(
                    derived,
                    id,
                    source_id,
                );
            path_is_extended_in_front(derived, start, k, id);
            assert(depends_on(derived, start, id));
        }
    }
}

/// Whatever a lineage is of, what it reads is known exactly where it is known itself and every
/// alias that it names is registered and what that one reads is known.
pub proof fn lineage_is_known_step_by_step(derived: Seq<DerivedView>, start: LineageView)
    requires
        own_ids(derived),
    ensures
        reads_are_known(derived, start) <==> (start is Complete && forall|id: u64| #[trigger]
            names_derived(start, id) ==> exists|k: int|
                0 <= k < derived.len() && (#[trigger] derived[k]).table.id == id
                    && reads_are_known(derived, derived[k].lineage)),
{
    if reads_are_known(derived, start) {
        assert forall|id: u64| #[trigger] names_derived(start, id) implies exists|k: int|
            0 <= k < derived.len() && (#[trigger] derived[k]).table.id == id && reads_are_known(
                derived,
                derived[k].lineage,
            ) by {
            named_is_reached(derived, start, id);
            assert(has_complete_lineage(derived, id));
            lineage_is_of_an_alias(derived, id);
            let of_id = lineage_with_id(derived, id)->0;
            let k = choose|k: int|
                0 <= k < derived.len() && (#[trigger] derived[k]).table.id == id
                    && derived[k].lineage == of_id;
            assert forall|to: u64| #[trigger]
                depends_on(derived, derived[k].lineage, to) implies has_complete_lineage(
                derived,
                to,
            ) by {
                path_is_extended_in_front(derived, start, k, to);
                assert(depends_on(derived, start, to));
            }
            assert(reads_are_known(derived, derived[k].lineage));
        }
    }
    if start is Complete && forall|id: u64| #[trigger]
        names_derived(start, id) ==> exists|k: int|
            0 <= k < derived.len() && (#[trigger] derived[k]).table.id == id && reads_are_known(
                derived,
                derived[k].lineage,
            ) {
        assert forall|to: u64| #[trigger]
            depends_on(derived, start, to) implies has_complete_lineage(derived, to) by {
            path_is_split_in_front(derived, start, to);
            if names_derived(start, to) {
                let k = choose|k: int|
                    0 <= k < derived.len() && (#[trigger] derived[k]).table.id == to
                        && reads_are_known(derived, derived[k].lineage);
                alias_at(derived, k);
            } else {
                let m = choose|m: int|
                    0 <= m < derived.len() && names_derived(
                        start,
                        (#[trigger] derived[m]).table.id,
                    ) && depends_on(derived, derived[m].lineage, to);
                let k = choose|k: int|
                    0 <= k < derived.len() && (#[trigger] derived[k]).table.id
                        == derived[m].table.id && reads_are_known(derived, derived[k].lineage);
                assert(k == m);
            }
        }
    }
}

/// A source reads itself alone.
pub proof fn source_reads_itself(s: SessionView, table: LazyTableView, source_id: u64)
    requires
        table.kind == LazyTableKind::DeltaSource,
    ensures
        table_reads(s, table, source_id) <==> table.id == source_id,
        usage_is_known(s, table),
{
}

/// An alias reads the sources that it names and those that the aliases it names read, and no
/// others.
pub proof fn reading_goes_step_by_step(s: SessionView, k: int, source_id: u64)
    requires
        well_formed(s),
        0 <= k < s.derived.len(),
    ensures
        table_reads(s, s.derived[k].table, source_id) <==> (names_source(
            s.derived[k].lineage,
            source_id,
        ) || exists|j: int|
            0 <= j < s.derived.len() && names_derived(
                s.derived[k].lineage,
                (#[trigger] s.derived[j]).table.id,
            ) && table_reads(s, s.derived[j].table, source_id)),
{
    let lineage = s.derived[k].lineage;
    assert(own_ids(s.derived));
    reading_is_that_of_the_lineage(s, k);
    if table_reads(s, s.derived[k].table, source_id) && !names_source(lineage, source_id) {
        let id = choose|id: u64| #[trigger]
            depends_on(s.derived, lineage, id) && alias_names_source(s.derived, id, source_id);
        lineage_is_of_an_alias(s.derived, id);
        let of_id = lineage_with_id(s.derived, id)->0;
        let m = choose|m: int|
            0 <= m < s.derived.len() && (#[trigger] s.derived[m]).table.id == id
                && s.derived[m].lineage == of_id;
        path_is_split_in_front(s.derived, lineage, id);
        if names_derived(lineage, id) {
            reading_is_that_of_the_lineage(s, m);
            assert(table_reads(s, s.derived[m].table, source_id));
        } else {
            let j = choose|j: int|
                0 <= j < s.derived.len() && names_derived(
                    lineage,
                    (#[trigger] s.derived[j]).table.id,
                ) && depends_on(s.derived, s.derived[j].lineage, id);
            reading_is_that_of_the_lineage(s, j);
            assert(reads_source(s.derived, s.derived[j].lineage, source_id));
            assert(table_reads(s, s.derived[j].table, source_id));
        }
    }
    if exists|j: int|
        0 <= j < s.derived.len() && names_derived(lineage, (#[trigger] s.derived[j]).table.id)
            && table_reads(s, s.derived[j].table, source_id) {
        let j = choose|j: int|
            0 <= j < s.derived.len() && names_derived(lineage, (#[trigger] s.derived[j]).table.id)
                && table_reads(s, s.derived[j].table, source_id);
        reading_is_that_of_the_lineage(s, j);
        alias_at(s.derived, j);
        named_is_reached(s.derived, lineage, s.derived[j].table.id);
        if names_source(s.derived[j].lineage, source_id) {
            assert(alias_names_source(s.derived, s.derived[j].table.id, source_id));
        } else {
            let id = choose|id: u64| #[trigger]
                depends_on(s.derived, s.derived[j].lineage, id) && alias_names_source(
                    s.derived,
                    id,
                    source_id,
                );
            path_is_extended_in_front(s.derived, lineage, j, id);
            assert(depends_on(s.derived, lineage, id));
        }
    }
}

/// What an alias reads is known exactly where its own lineage is known and every alias that it
/// names is registered and known.
pub proof fn knowing_goes_step_by_step(s: SessionView, k: int)
    requires
        well_formed(s),
        0 <= k < s.derived.len(),
    ensures
        usage_is_known(s, s.derived[k].table) <==> (s.derived[k].lineage is Complete && forall|
            id: u64,
        | #[trigger]
            names_derived(s.derived[k].lineage, id) ==> exists|j: int|
                0 <= j < s.derived.len() && (#[trigger] s.derived[j]).table.id == id
                    && usage_is_known(s, s.derived[j].table)),
{
    let lineage = s.derived[k].lineage;
    assert(own_ids(s.derived));
    reading_is_that_of_the_lineage(s, k);
    if usage_is_known(s, s.derived[k].table) {
        assert forall|id: u64| #[trigger] names_derived(lineage, id) implies exists|j: int|
            0 <= j < s.derived.len() && (#[trigger] s.derived[j]).table.id == id && usage_is_known(
                s,
                s.derived[j].table,
            ) by {
            named_is_reached(s.derived, lineage, id);
            assert(has_complete_lineage(s.derived, id));
            lineage_is_of_an_alias(s.derived, id);
            let of_id = lineage_with_id(s.derived, id)->0;
            let j = choose|j: int|
                0 <= j < s.derived.len() && (#[trigger] s.derived[j]).table.id == id
                    && s.derived[j].lineage == of_id;
            reading_is_that_of_the_lineage(s, j);
            assert forall|to: u64| #[trigger]
                depends_on(s.derived, s.derived[j].lineage, to) implies has_complete_lineage(
                s.derived,
                to,
            ) by {
                path_is_extended_in_front(s.derived, lineage, j, to);
                assert(depends_on(s.derived, lineage, to));
            }
            assert(reads_are_known(s.derived, s.derived[j].lineage));
            assert(usage_is_known(s, s.derived[j].table));
        }
    }
    if lineage is Complete && forall|id: u64| #[trigger]
        names_derived(lineage, id) ==> exists|j: int|
            0 <= j < s.derived.len() && (#[trigger] s.derived[j]).table.id == id && usage_is_known(
                s,
                s.derived[j].table,
            ) {
        assert forall|to: u64| #[trigger]
            depends_on(s.derived, lineage, to) implies has_complete_lineage(s.derived, to) by {
            path_is_split_in_front(s.derived, lineage, to);
            if names_derived(lineage, to) {
                let j = choose|j: int|
                    0 <= j < s.derived.len() && (#[trigger] s.derived[j]).table.id == to
                        && usage_is_known(s, s.derived[j].table);
                reading_is_that_of_the_lineage(s, j);
                alias_at(s.derived, j);
            } else {
                let m = choose|m: int|
                    0 <= m < s.derived.len() && names_derived(
                        lineage,
                        (#[trigger] s.derived[m]).table.id,
                    ) && depends_on(s.derived, s.derived[m].lineage, to);
                let j = choose|j: int|
                    0 <= j < s.derived.len() && (#[trigger] s.derived[j]).table.id
                        == s.derived[m].table.id && usage_is_known(s, s.derived[j].table);
                assert(j == m);
                reading_is_that_of_the_lineage(s, j);
            }
        }
        assert(reads_are_known(s.derived, lineage));
    }
}

/// A derived handle that the session does not hold reads nothing that is known.
pub proof fn unknown_table_reads_nothing(s: SessionView, table: LazyTableView, source_id: u64)
    requires
        table.kind == LazyTableKind::DerivedSql,
        forall|j: int|
            0 <= j < s.derived.len() ==> (#[trigger] s.derived[j]).table.id != table.id,
        forall|j: int|
            0 <= j < s.pending.len() ==> (#[trigger] s.pending[j]).table.id != table.id,
    ensures
        !usage_is_known(s, table),
        !table_reads(s, table, source_id),
{
    first_position_facts(s.derived, derived_has_id(table.id));
    first_position_facts(s.pending, pending_has_id(table.id));
}

/// A pending table reads what its lineage names: the sources, and what the aliases read.
pub proof fn pending_table_reads_through_aliases(s: SessionView, k: int, source_id: u64)
    requires
        well_formed(s),
        0 <= k < s.pending.len(),
    ensures
        table_reads(s, s.pending[k].table, source_id) <==> reads_source(
            s.derived,
            s.pending[k].lineage,
            source_id,
        ),
        usage_is_known(s, s.pending[k].table) <==> reads_are_known(
            s.derived,
            s.pending[k].lineage,
        ),
        names_source(s.pending[k].lineage, source_id) ==> table_reads(
            s,
            s.pending[k].table,
            source_id,
        ),
        forall|j: int|
            0 <= j < s.derived.len() && names_derived(
                s.pending[k].lineage,
                (#[trigger] s.derived[j]).table.id,
            ) && table_reads(s, s.derived[j].table, source_id) ==> table_reads(
                s,
                s.pending[k].table,
                source_id,
            ),
{
    let lineage = s.pending[k].lineage;
    let id = s.pending[k].table.id;
    assert(own_ids(s.derived));
    first_position_facts(s.derived, derived_has_id(id));
    let p = pending_has_id(id);
    assert forall|j: int| 0 <= j < k implies !p(#[trigger] s.pending[j]) by {}
    first_position_is(s.pending, p, k);
    assert forall|j: int|
        0 <= j < s.derived.len() && names_derived(lineage, (#[trigger] s.derived[j]).table.id)
            && table_reads(s, s.derived[j].table, source_id) implies table_reads(
        s,
        s.pending[k].table,
        source_id,
    ) by {
        reading_is_that_of_the_lineage(s, j);
        alias_at(s.derived, j);
        named_is_reached(s.derived, lineage, s.derived[j].table.id);
        if names_source(s.derived[j].lineage, source_id) {
            assert(alias_names_source(s.derived, s.derived[j].table.id, source_id));
        } else {
            let to = choose|to: u64| #[trigger]
                depends_on(s.derived, s.derived[j].lineage, to) && alias_names_source(
                    s.derived,
                    to,
                    source_id,
                );
            path_is_extended_in_front(s.derived, lineage, j, to);
            assert(depends_on(s.derived, lineage, to));
        }
    }
}

/// The names of the sources at some positions that a table reads.
proof fn read_names_are_filtered(s: SessionView, table: LazyTableView, n: nat)
    requires
        n <= s.sources.len(),
    ensures
        read_source_names(s, table, n) == s.sources.take(n as int).filter(
            |source: SourceView| table_reads(s, table, source.table.id),
        ).map_values(|source: SourceView| source.table.name),
    decreases n,
{
    reveal(Seq::filter);
    let p = |source: SourceView| table_reads(s, table, source.table.id);
    let f = |source: SourceView| source.table.name;
    if n == 0 {
        assert(s.sources.take(0).filter(p).map_values(f) =~= Seq::<Seq<char>>::empty());
    } else {
        read_names_are_filtered(s, table, (n - 1) as nat);
        let all = s.sources.take(n as int);
        let front = s.sources.take(n - 1);
        assert(all.drop_last() =~= front);
        assert(all.last() == s.sources[n - 1]);
        if p(s.sources[n - 1]) {
            assert(front.filter(p).push(s.sources[n - 1]).map_values(f) =~= front.filter(
                p,
            ).map_values(f).push(s.sources[n - 1].table.name));
        }
    }
}

/// What a table uses of the sources: where that is known, the names of exactly the sources it
/// reads, in the order of the session, and whether there are any; else nothing is said.
pub proof fn usage_lists_the_read_sources(s: SessionView, table: LazyTableView)
    ensures
        !usage_is_known(s, table) ==> source_usage(s, table) == (
            SourceUsageStatus::Unknown,
            Seq::<Seq<char>>::empty(),
        ),
        usage_is_known(s, table) ==> source_usage(s, table).1 == s.sources.filter(
            |source: SourceView| table_reads(s, table, source.table.id),
        ).map_values(|source: SourceView| source.table.name),
        usage_is_known(s, table) ==> source_usage(s, table).0 == (if source_usage(s, table).1.len()
            > 0 {
            SourceUsageStatus::Used
        } else {
            SourceUsageStatus::NotUsed
        }),
{
    read_names_are_filtered(s, table, s.sources.len());
    assert(s.sources.take(s.sources.len() as int) =~= s.sources);
}

proof fn reading_outputs_are_filtered(
    s: SessionView,
    outputs: Seq<OutputWritePlanView>,
    source_id: u64,
    n: nat,
)
    requires
        n <= outputs.len(),
    ensures
        reading_outputs(s, outputs, source_id, n) == outputs.take(n as int).filter(
            |output: OutputWritePlanView|
                usage_is_known(s, output.table) && table_reads(s, output.table, source_id),
        ).map_values(|output: OutputWritePlanView| output.target.output_name),
    decreases n,
{
    reveal(Seq::filter);
    let p = |output: OutputWritePlanView|
        usage_is_known(s, output.table) && table_reads(s, output.table, source_id);
    let f = |output: OutputWritePlanView| output.target.output_name;
    if n == 0 {
        assert(outputs.take(0).filter(p).map_values(f) =~= Seq::<Seq<char>>::empty());
    } else {
        reading_outputs_are_filtered(s, outputs, source_id, (n - 1) as nat);
        let all = outputs.take(n as int);
        let front = outputs.take(n - 1);
        assert(all.drop_last() =~= front);
        assert(all.last() == outputs[n - 1]);
        if p(outputs[n - 1]) {
            assert(front.filter(p).push(outputs[n - 1]).map_values(f) =~= front.filter(
                p,
            ).map_values(f).push(outputs[n - 1].target.output_name));
        }
    }
}

/// Every source of the session is reported, in order, as it is registered; it is used by exactly
/// the outputs that are known to read it, in the order asked for, and its use is unknown only
/// where no output is known to read it and of some output nothing is known.
pub proof fn every_source_is_reported(
    s: SessionView,
    outputs: Seq<OutputWritePlanView>,
    stats: Seq<ProviderSnapshotView>,
    i: int,
)
    requires
        0 <= i < s.sources.len(),
    ensures
        source_reports(s, outputs, stats).len() == s.sources.len(),
        ({
            let report = source_reports(s, outputs, stats)[i];
            let source = s.sources[i];
            &&& report.source_name == source.table.name
            &&& report.source_uri == source.source_uri
            &&& report.snapshot_version == source.snapshot_version
            &&& report.protocol == source.protocol
            &&& report.scheduling.target_partitions() == s.options.query_options.target_partitions
            &&& report.used_by_output_names == outputs.filter(
                |output: OutputWritePlanView|
                    usage_is_known(s, output.table) && table_reads(
                        s,
                        output.table,
                        source.table.id,
                    ),
            ).map_values(|output: OutputWritePlanView| output.target.output_name)
            &&& report.usage_status == SourceUsageStatus::Used
                <==> report.used_by_output_names.len() > 0
            &&& report.usage_status == SourceUsageStatus::Unknown
                <==> report.used_by_output_names.len() == 0 && exists|j: int|
                0 <= j < outputs.len() && !usage_is_known(s, (#[trigger] outputs[j]).table)
            &&& report.provider_read_stats == stats_of_source(stats, source.table.name)
        }),
{
    reading_outputs_are_filtered(s, outputs, s.sources[i].table.id, outputs.len());
    assert(outputs.take(outputs.len() as int) =~= outputs);
    scheduling_keeps_the_partitions(s.options.query_options.target_partitions);
}

/// Before outputs are chosen every source is reported as it is registered, its use unknown.
pub proof fn sources_are_reported_before_outputs_are_chosen(s: SessionView, i: int)
    requires
        0 <= i < s.sources.len(),
    ensures
        unselected_source_reports(s).len() == s.sources.len(),
        ({
            let report = unselected_source_reports(s)[i];
            let source = s.sources[i];
            &&& report.source_name == source.table.name
            &&& report.source_uri == source.source_uri
            &&& report.snapshot_version == source.snapshot_version
            &&& report.protocol == source.protocol
            &&& report.scheduling.target_partitions() == s.options.query_options.target_partitions
            &&& report.used_by_output_names == Seq::<Seq<char>>::empty()
            &&& report.usage_status == SourceUsageStatus::Unknown
            &&& report.provider_read_stats is None
        }),
{
    scheduling_keeps_the_partitions(s.options.query_options.target_partitions);
}

/// Counters are those of the first reader that has the source's name.
pub proof fn first_counters_of_a_source_count(
    stats: Seq<ProviderSnapshotView>,
    name: Seq<char>,
    i: int,
)
    requires
        0 <= i < stats.len(),
        stats[i].source_name == name,
        forall|j: int| 0 <= j < i ==> (#[trigger] stats[j]).source_name != name,
    ensures
        stats_of_source(stats, name) == Some(stats[i]),
    decreases stats.len(),
{
    let front = stats.drop_last();
    if i < front.len() {
        assert(front[i] == stats[i]);
        assert forall|j: int| 0 <= j < i implies (#[trigger] front[j]).source_name != name by {
            assert(front[j] == stats[j]);
        }
        first_counters_of_a_source_count(front, name, i);
    } else {
        no_counters_of(front, name);
    }
}

proof fn no_counters_of(stats: Seq<ProviderSnapshotView>, name: Seq<char>)
    requires
        forall|j: int| 0 <= j < stats.len() ==> (#[trigger] stats[j]).source_name != name,
    ensures
        stats_of_source(stats, name) is None,
    decreases stats.len(),
{
    if stats.len() > 0 {
        let front = stats.drop_last();
        assert forall|j: int| 0 <= j < front.len() implies (#[trigger] front[j]).source_name
            != name by {
            assert(front[j] == stats[j]);
        }
        no_counters_of(front, name);
    }
}

/// Planned files are counted exactly once their planning is exhausted, estimated while it is
/// not, and not counted where nothing is known of it or nothing was read.
pub proof fn planned_files_are_counted(stats: ProviderSnapshotView)
    ensures
        stats.scan_metadata_exhausted == Some(true) ==> counted_files(
            Some(stats),
        ) == FileCount::Exact(stats.files_planned),
        stats.scan_metadata_exhausted == Some(false) ==> counted_files(
            Some(stats),
        ) == FileCount::Estimated(stats.files_planned),
        stats.scan_metadata_exhausted is None ==> counted_files(Some(stats))
            == FileCount::Unavailable,
        counted_files(None) == FileCount::Unavailable,
        all_files_planned(Some(stats)) <==> stats.scan_metadata_exhausted
            == Some(true),
        !all_files_planned(None),
        stats.scan_metadata_exhausted is Some ==> uncounted_reason(Some(stats)) is None,
        stats.scan_metadata_exhausted is None ==> uncounted_reason(Some(stats)) == Some(
            ReportReasonCode::CapabilityUnavailable,
        ),
        uncounted_reason(None) == Some(ReportReasonCode::CostAvoidance),
{
}

} // verus!
