//! What a derived table is recorded to read, and which entry of the session a handle stands for,
//! said of the session's lists alone.

use datafusion::prelude::DataFrame;
use vstd::prelude::*;

use crate::engine::{TableReferencesView, dataframe_schema, parsed_sql, statement_references};
use crate::handles::{LazyTableKind, LazyTableView, unnamed_table};
use crate::lineage::{DependencyView, LineageView, dependencies_of};
use crate::registry::{
    DerivedView, PendingView, SourceView, derived_has_id, derived_has_name, pending_has_id,
    source_has_id, source_has_name,
};
use crate::search::{first_position, first_position_facts, first_position_is};
use crate::session::{
    SessionView, catalog_name, dependency_for, known_schema, known_sql_text, lineage_of_references,
    pending_position, resolved_names, unresolved_names, with_planned,
};
use crate::session_laws::well_formed;
use crate::text::{ascii_lower, same_identifier};

verus! {

/// The source at a position is the first that has a name, whatever its case.
pub open spec fn source_named(s: SessionView, name: Seq<char>, k: int) -> bool {
    &&& 0 <= k < s.sources.len()
    &&& same_identifier(s.sources[k].table.name, name)
    &&& forall|j: int|
        0 <= j < k ==> !same_identifier((#[trigger] s.sources[j]).table.name, name)
}

/// No source has a name.
pub open spec fn no_source_named(s: SessionView, name: Seq<char>) -> bool {
    forall|j: int|
        0 <= j < s.sources.len() ==> !same_identifier((#[trigger] s.sources[j]).table.name, name)
}

/// The alias at a position is the first that has a name which no source has.
pub open spec fn alias_named(s: SessionView, name: Seq<char>, k: int) -> bool {
    &&& no_source_named(s, name)
    &&& 0 <= k < s.derived.len()
    &&& same_identifier(s.derived[k].table.name, name)
    &&& forall|j: int|
        0 <= j < k ==> !same_identifier((#[trigger] s.derived[j]).table.name, name)
}

/// Neither a source nor an alias has a name.
pub open spec fn nothing_named(s: SessionView, name: Seq<char>) -> bool {
    &&& no_source_named(s, name)
    &&& forall|j: int|
        0 <= j < s.derived.len() ==> !same_identifier((#[trigger] s.derived[j]).table.name, name)
}

/// A dependency is the session's table of a name: the source of that name, or else the alias.
pub open spec fn is_table_named(s: SessionView, name: Seq<char>, dependency: DependencyView) -> bool {
    match dependency {
        DependencyView::DeltaSource { table_id, name: own } => exists|k: int| #[trigger]
            source_named(s, name, k) && table_id == s.sources[k].table.id && own
                == s.sources[k].table.name,
        DependencyView::RegisteredDerived { table_id, name: own } => exists|k: int| #[trigger]
            alias_named(s, name, k) && table_id == s.derived[k].table.id && own
                == s.derived[k].table.name,
    }
}

proof fn source_found(s: SessionView, name: Seq<char>, k: int)
    requires
        source_named(s, name, k),
    ensures
        first_position(s.sources, source_has_name(name)) == Some(k),
{
    let p = source_has_name(name);
    assert forall|j: int| 0 <= j < k implies !p(#[trigger] s.sources[j]) by {}
    first_position_is(s.sources, p, k);
}

proof fn no_source_found(s: SessionView, name: Seq<char>)
    requires
        no_source_named(s, name),
    ensures
        first_position(s.sources, source_has_name(name)) is None,
{
    first_position_facts(s.sources, source_has_name(name));
}

proof fn alias_found(s: SessionView, name: Seq<char>, k: int)
    requires
        alias_named(s, name, k),
    ensures
        first_position(s.sources, source_has_name(name)) is None,
        first_position(s.derived, derived_has_name(name)) == Some(k),
{
    no_source_found(s, name);
    let p = derived_has_name(name);
    assert forall|j: int| 0 <= j < k implies !p(#[trigger] s.derived[j]) by {}
    first_position_is(s.derived, p, k);
}

/// A name of a source stands for that source, under the source's own spelling.
pub proof fn source_name_stands_for_the_source(s: SessionView, name: Seq<char>, k: int)
    requires
        source_named(s, name, k),
    ensures
        dependency_for(s, name) == Some(
            DependencyView::DeltaSource {
                table_id: s.sources[k].table.id,
                name: s.sources[k].table.name,
            },
        ),
{
    source_found(s, name, k);
}

/// A name that no source has stands for the alias of that name, under the alias's own spelling.
pub proof fn alias_name_stands_for_the_alias(s: SessionView, name: Seq<char>, k: int)
    requires
        alias_named(s, name, k),
    ensures
        dependency_for(s, name) == Some(
            DependencyView::RegisteredDerived {
                table_id: s.derived[k].table.id,
                name: s.derived[k].table.name,
            },
        ),
{
    alias_found(s, name, k);
}

/// A name stands for no table exactly where no source and no alias has it.
pub proof fn free_name_stands_for_nothing(s: SessionView, name: Seq<char>)
    ensures
        dependency_for(s, name) is None <==> nothing_named(s, name),
        dependency_for(s, name) matches Some(dependency) ==> is_table_named(s, name, dependency),
{
    first_position_facts(s.sources, source_has_name(name));
    first_position_facts(s.derived, derived_has_name(name));
    if nothing_named(s, name) {
        assert(dependency_for(s, name) is None);
    }
    match first_position(s.sources, source_has_name(name)) {
        Some(k) => {
            assert forall|j: int| 0 <= j < k implies !same_identifier(
                (#[trigger] s.sources[j]).table.name,
                name,
            ) by {
                assert(!source_has_name(name)(s.sources[j]));
            }
            assert(source_named(s, name, k));
        },
        None => {
            assert forall|j: int| 0 <= j < s.sources.len() implies !same_identifier(
                (#[trigger] s.sources[j]).table.name,
                name,
            ) by {
                assert(!source_has_name(name)(s.sources[j]));
            }
            match first_position(s.derived, derived_has_name(name)) {
                Some(k) => {
                    assert forall|j: int| 0 <= j < k implies !same_identifier(
                        (#[trigger] s.derived[j]).table.name,
                        name,
                    ) by {
                        assert(!derived_has_name(name)(s.derived[j]));
                    }
                    assert(alias_named(s, name, k));
                },
                None => {
                    assert forall|j: int| 0 <= j < s.derived.len() implies !same_identifier(
                        (#[trigger] s.derived[j]).table.name,
                        name,
                    ) by {
                        assert(!derived_has_name(name)(s.derived[j]));
                    }
                },
            }
        },
    }
}

/// What a query reads is recorded reference by reference, in the order of the references: the
/// record of two lists of references, one behind the other, is the two records joined.
pub proof fn references_are_recorded_in_order(
    s: SessionView,
    earlier: Seq<Seq<char>>,
    later: Seq<Seq<char>>,
)
    ensures
        resolved_names(s, earlier + later) == resolved_names(s, earlier) + resolved_names(s, later),
        unresolved_names(s, earlier + later) == unresolved_names(s, earlier) + unresolved_names(
            s,
            later,
        ),
    decreases later.len(),
{
    if later.len() == 0 {
        assert(earlier + later =~= earlier);
        assert(resolved_names(s, earlier) + resolved_names(s, later) =~= resolved_names(s, earlier));
        assert(unresolved_names(s, earlier) + unresolved_names(s, later) =~= unresolved_names(
            s,
            earlier,
        ));
    } else {
        let all = earlier + later;
        references_are_recorded_in_order(s, earlier, later.drop_last());
        assert(all.drop_last() =~= earlier + later.drop_last());
        assert(all.last() == later.last());
        match dependency_for(s, later.last()) {
            Some(dependency) => {
                assert(resolved_names(s, later) == resolved_names(s, later.drop_last()).push(
                    dependency,
                ));
                assert(resolved_names(s, earlier) + resolved_names(s, later) =~= (resolved_names(
                    s,
                    earlier,
                ) + resolved_names(s, later.drop_last())).push(dependency));
            },
            None => {
                assert(unresolved_names(s, earlier) + unresolved_names(s, later) =~= (
                unresolved_names(s, earlier) + unresolved_names(s, later.drop_last())).push(
                    later.last(),
                ));
            },
        }
    }
}

/// One reference is recorded once: as the session's table of that name, or else, where no table
/// has the name, as an external reference.
pub proof fn a_reference_is_recorded_once(s: SessionView, name: Seq<char>)
    ensures
        nothing_named(s, name) ==> resolved_names(s, seq![name]) == Seq::<DependencyView>::empty()
            && unresolved_names(s, seq![name]) == seq![name],
        !nothing_named(s, name) ==> resolved_names(s, seq![name]).len() == 1 && is_table_named(
            s,
            name,
            resolved_names(s, seq![name])[0],
        ) && unresolved_names(s, seq![name]) == Seq::<Seq<char>>::empty(),
{
    free_name_stands_for_nothing(s, name);
    let names = seq![name];
    assert(names.drop_last() =~= Seq::<Seq<char>>::empty());
    assert(names.last() == name);
    assert(resolved_names(s, names.drop_last()) =~= Seq::<DependencyView>::empty());
    assert(unresolved_names(s, names.drop_last()) =~= Seq::<Seq<char>>::empty());
    assert(Seq::<Seq<char>>::empty().push(name) =~= seq![name]);
}

/// No reference is lost and none is recorded twice: dependencies and external references together
/// are as many as the references.
pub proof fn every_reference_is_recorded(s: SessionView, names: Seq<Seq<char>>)
    ensures
        resolved_names(s, names).len() + unresolved_names(s, names).len() == names.len(),
    decreases names.len(),
{
    if names.len() > 0 {
        every_reference_is_recorded(s, names.drop_last());
    }
}

proof fn split_at(names: Seq<Seq<char>>, i: int)
    requires
        0 <= i < names.len(),
    ensures
        names == names.take(i) + seq![names[i]] + names.skip(i + 1),
{
    assert(names =~= names.take(i) + seq![names[i]] + names.skip(i + 1));
}

proof fn recorded_at(s: SessionView, names: Seq<Seq<char>>, i: int)
    requires
        0 <= i < names.len(),
    ensures
        resolved_names(s, names) == resolved_names(s, names.take(i)) + resolved_names(
            s,
            seq![names[i]],
        ) + resolved_names(s, names.skip(i + 1)),
        unresolved_names(s, names) == unresolved_names(s, names.take(i)) + unresolved_names(
            s,
            seq![names[i]],
        ) + unresolved_names(s, names.skip(i + 1)),
{
    split_at(names, i);
    references_are_recorded_in_order(s, names.take(i) + seq![names[i]], names.skip(i + 1));
    references_are_recorded_in_order(s, names.take(i), seq![names[i]]);
}

/// Every source that a query refers to is a dependency, however many there are.
pub proof fn referenced_sources_are_dependencies(
    s: SessionView,
    references: TableReferencesView,
    i: int,
    k: int,
)
    requires
        0 <= i < references.relations.len(),
        source_named(s, references.relations[i], k),
    ensures
        dependencies_of(lineage_of_references(s, references)).contains(
            DependencyView::DeltaSource {
                table_id: s.sources[k].table.id,
                name: s.sources[k].table.name,
            },
        ),
{
    let names = references.relations;
    source_name_stands_for_the_source(s, names[i], k);
    recorded_at(s, names, i);
    let one = seq![names[i]];
    assert(one.last() == names[i]);
    assert(resolved_names(s, one.drop_last()).len() == 0);
    assert(resolved_names(s, one)[0] == dependency_for(s, names[i])->0);
    let at = resolved_names(s, names.take(i)).len() as int;
    assert(resolved_names(s, names)[at] == dependency_for(s, names[i])->0);
}

/// Every alias that a query refers to is a dependency, however many there are.
pub proof fn referenced_aliases_are_dependencies(
    s: SessionView,
    references: TableReferencesView,
    i: int,
    k: int,
)
    requires
        0 <= i < references.relations.len(),
        alias_named(s, references.relations[i], k),
    ensures
        dependencies_of(lineage_of_references(s, references)).contains(
            DependencyView::RegisteredDerived {
                table_id: s.derived[k].table.id,
                name: s.derived[k].table.name,
            },
        ),
{
    let names = references.relations;
    alias_name_stands_for_the_alias(s, names[i], k);
    recorded_at(s, names, i);
    let one = seq![names[i]];
    assert(one.last() == names[i]);
    assert(resolved_names(s, one.drop_last()).len() == 0);
    assert(resolved_names(s, one)[0] == dependency_for(s, names[i])->0);
    let at = resolved_names(s, names.take(i)).len() as int;
    assert(resolved_names(s, names)[at] == dependency_for(s, names[i])->0);
}

/// Every reference that names no table of the session is kept as an external reference.
pub proof fn other_references_are_external(
    s: SessionView,
    references: TableReferencesView,
    i: int,
)
    requires
        0 <= i < references.relations.len(),
        nothing_named(s, references.relations[i]),
    ensures
        lineage_of_references(s, references) matches LineageView::Complete {
            external_references,
            ..
        } && external_references.contains(references.relations[i]),
{
    let names = references.relations;
    a_reference_is_recorded_once(s, names[i]);
    recorded_at(s, names, i);
    let at = unresolved_names(s, names.take(i)).len() as int;
    assert(unresolved_names(s, names)[at] == names[i]);
}

proof fn resolved_come_from(s: SessionView, names: Seq<Seq<char>>, d: int)
    requires
        0 <= d < resolved_names(s, names).len(),
    ensures
        exists|i: int|
            0 <= i < names.len() && is_table_named(
                s,
                #[trigger] names[i],
                resolved_names(s, names)[d],
            ),
    decreases names.len(),
{
    let front = names.drop_last();
    free_name_stands_for_nothing(s, names.last());
    if d < resolved_names(s, front).len() {
        resolved_come_from(s, front, d);
        let i = choose|i: int|
            0 <= i < front.len() && is_table_named(
                s,
                #[trigger] front[i],
                resolved_names(s, front)[d],
            );
        assert(names[i] == front[i]);
    } else {
        assert(names[names.len() - 1] == names.last());
    }
}

proof fn unresolved_come_from(s: SessionView, names: Seq<Seq<char>>, d: int)
    requires
        0 <= d < unresolved_names(s, names).len(),
    ensures
        names.contains(unresolved_names(s, names)[d]),
        nothing_named(s, unresolved_names(s, names)[d]),
    decreases names.len(),
{
    let front = names.drop_last();
    free_name_stands_for_nothing(s, names.last());
    if d < unresolved_names(s, front).len() {
        unresolved_come_from(s, front, d);
        let i = choose|i: int| 0 <= i < front.len() && front[i] == unresolved_names(s, front)[d];
        assert(names[i] == front[i]);
    } else {
        assert(names[names.len() - 1] == names.last());
    }
}

/// What the lineage of a query holds: as many dependencies and external references as the query
/// has references, each dependency the table of some reference, each external reference a
/// reference that names no table, and the query's own common table expressions.
pub proof fn lineage_holds_what_is_referenced(s: SessionView, references: TableReferencesView)
    ensures
        lineage_of_references(s, references) is Complete,
        lineage_of_references(s, references)->dependencies.len() + lineage_of_references(
            s,
            references,
        )->external_references.len() == references.relations.len(),
        forall|d: int|
            0 <= d < lineage_of_references(s, references)->dependencies.len() ==> exists|i: int|
                0 <= i < references.relations.len() && is_table_named(
                    s,
                    #[trigger] references.relations[i],
                    #[trigger] lineage_of_references(s, references)->dependencies[d],
                ),
        forall|d: int|
            0 <= d < lineage_of_references(s, references)->external_references.len() ==> {
                &&& references.relations.contains(
                    #[trigger] lineage_of_references(s, references)->external_references[d],
                )
                &&& nothing_named(s, lineage_of_references(s, references)->external_references[d])
            },
        lineage_of_references(s, references)->cte_names == references.ctes,
{
    let names = references.relations;
    let lineage = lineage_of_references(s, references);
    every_reference_is_recorded(s, names);
    assert forall|d: int| 0 <= d < lineage->dependencies.len() implies exists|i: int|
        0 <= i < names.len() && is_table_named(
            s,
            #[trigger] names[i],
            #[trigger] lineage->dependencies[d],
        ) by {
        resolved_come_from(s, names, d);
    }
    assert forall|d: int| 0 <= d < lineage->external_references.len() implies {
        &&& names.contains(#[trigger] lineage->external_references[d])
        &&& nothing_named(s, lineage->external_references[d])
    } by {
        unresolved_come_from(s, names, d);
    }
}

/// Names resolve whatever their case.
pub proof fn names_resolve_in_any_case(s: SessionView, a: Seq<char>, b: Seq<char>)
    requires
        same_identifier(a, b),
    ensures
        dependency_for(s, a) == dependency_for(s, b),
{
    assert forall|own: Seq<char>| #[trigger] same_identifier(own, a) == same_identifier(own, b) by {
        if same_identifier(own, a) {
            assert forall|i: int| 0 <= i < own.len() implies ascii_lower(#[trigger] own[i])
                == ascii_lower(b[i]) by {
                assert(ascii_lower(a[i]) == ascii_lower(b[i]));
            }
        }
        if same_identifier(own, b) {
            assert forall|i: int| 0 <= i < own.len() implies ascii_lower(#[trigger] own[i])
                == ascii_lower(a[i]) by {
                assert(ascii_lower(a[i]) == ascii_lower(b[i]));
            }
        }
    }
    assert(source_has_name(a) =~= source_has_name(b));
    assert(derived_has_name(a) =~= derived_has_name(b));
}

/// A planned query is recorded with what its one statement refers to; text that does not parse,
/// holds more or fewer statements, or whose references cannot be told has no known lineage.
pub proof fn planned_table_records_what_it_reads(s: SessionView, sql: Seq<char>, dataframe: DataFrame)
    ensures
        with_planned(s, sql, dataframe).pending.len() == s.pending.len() + 1,
        match parsed_sql(sql) {
            Err(message) => with_planned(s, sql, dataframe).pending.last().lineage
                == (LineageView::Incomplete { reason: message }),
            Ok(statements) => statements.len() == 1 ==> match statement_references(
                statements[0],
                true,
            ) {
                Err(message) => with_planned(s, sql, dataframe).pending.last().lineage
                    == (LineageView::Incomplete { reason: message }),
                Ok(references) => with_planned(s, sql, dataframe).pending.last().lineage
                    == lineage_of_references(s, references),
            },
        },
        parsed_sql(sql) matches Ok(statements) ==> statements.len() != 1 ==> with_planned(
            s,
            sql,
            dataframe,
        ).pending.last().lineage == (LineageView::Incomplete {
            reason: "expected exactly one SQL statement"@,
        }),
{
}

/// A planned query becomes the last pending table: a fresh handle of the derived kind under a
/// made-up name, with the query's text, the rows it was planned to give and their schema. Nothing
/// else of the session changes.
pub proof fn planned_table_is_pending(s: SessionView, sql: Seq<char>, dataframe: DataFrame)
    ensures
        ({
            let after = with_planned(s, sql, dataframe);
            let added = after.pending.last();
            &&& after.pending.drop_last() == s.pending
            &&& added.table.id == s.next_table_id
            &&& added.table.kind == LazyTableKind::DerivedSql
            &&& added.table.name == unnamed_table(s.next_table_id)
            &&& added.dataframe == dataframe
            &&& added.schema == dataframe_schema(dataframe)
            &&& added.sql_text == sql
            &&& after.sources == s.sources
            &&& after.derived == s.derived
            &&& after.options == s.options
            &&& after.context == s.context
            &&& s.next_table_id < u64::MAX ==> after.next_table_id == s.next_table_id + 1
            &&& s.next_table_id == u64::MAX ==> after.next_table_id == s.next_table_id
        }),
{
    let after = with_planned(s, sql, dataframe);
    assert(after.pending.drop_last() =~= s.pending);
}

proof fn source_with_id(sources: Seq<SourceView>, k: int)
    requires
        0 <= k < sources.len(),
        forall|j: int| 0 <= j < k ==> (#[trigger] sources[j]).table.id != sources[k].table.id,
    ensures
        first_position(sources, source_has_id(sources[k].table.id)) == Some(k),
{
    let p = source_has_id(sources[k].table.id);
    assert forall|j: int| 0 <= j < k implies !p(#[trigger] sources[j]) by {}
    first_position_is(sources, p, k);
}

proof fn derived_with_id(derived: Seq<DerivedView>, k: int)
    requires
        0 <= k < derived.len(),
        forall|j: int| 0 <= j < k ==> (#[trigger] derived[j]).table.id != derived[k].table.id,
    ensures
        first_position(derived, derived_has_id(derived[k].table.id)) == Some(k),
{
    let p = derived_has_id(derived[k].table.id);
    assert forall|j: int| 0 <= j < k implies !p(#[trigger] derived[j]) by {}
    first_position_is(derived, p, k);
}

proof fn pending_with_id(pending: Seq<PendingView>, k: int)
    requires
        0 <= k < pending.len(),
        forall|j: int| 0 <= j < k ==> (#[trigger] pending[j]).table.id != pending[k].table.id,
    ensures
        first_position(pending, pending_has_id(pending[k].table.id)) == Some(k),
{
    let p = pending_has_id(pending[k].table.id);
    assert forall|j: int| 0 <= j < k implies !p(#[trigger] pending[j]) by {}
    first_position_is(pending, p, k);
}

/// A source's handle is read under that source's own name, has that source's schema, and has no
/// SQL text.
pub proof fn source_handle_stands_for_the_source(s: SessionView, table: LazyTableView, k: int)
    requires
        well_formed(s),
        0 <= k < s.sources.len(),
        table.kind == LazyTableKind::DeltaSource,
        table.id == s.sources[k].table.id,
    ensures
        catalog_name(s, table) == Some(s.sources[k].table.name),
        known_schema(s, table) == Some(s.sources[k].schema),
        known_sql_text(s, table) is None,
        pending_position(s, table) is None,
{
    source_with_id(s.sources, k);
}

/// An alias's handle is read under that alias's own name and has that alias's schema and SQL
/// text.
pub proof fn alias_handle_stands_for_the_alias(s: SessionView, table: LazyTableView, k: int)
    requires
        well_formed(s),
        0 <= k < s.derived.len(),
        table.kind == LazyTableKind::DerivedSql,
        table.id == s.derived[k].table.id,
    ensures
        catalog_name(s, table) == Some(s.derived[k].table.name),
        known_schema(s, table) == Some(s.derived[k].schema),
        known_sql_text(s, table) == Some(s.derived[k].sql_text),
        pending_position(s, table) is None,
{
    derived_with_id(s.derived, k);
    first_position_facts(s.pending, pending_has_id(table.id));
}

/// A pending table's handle stands for that pending table, which no catalog name reads.
pub proof fn pending_handle_stands_for_the_table(s: SessionView, table: LazyTableView, k: int)
    requires
        well_formed(s),
        0 <= k < s.pending.len(),
        table.kind == LazyTableKind::DerivedSql,
        table.id == s.pending[k].table.id,
    ensures
        pending_position(s, table) == Some(k),
        catalog_name(s, table) is None,
        known_schema(s, table) == Some(s.pending[k].schema),
        known_sql_text(s, table) == Some(s.pending[k].sql_text),
{
    pending_with_id(s.pending, k);
    first_position_facts(s.derived, derived_has_id(table.id));
}

/// A table of the session has the kind and the id of a handle.
pub open spec fn is_held(s: SessionView, table: LazyTableView) -> bool {
    match table.kind {
        LazyTableKind::DeltaSource => exists|k: int|
            0 <= k < s.sources.len() && (#[trigger] s.sources[k]).table.id == table.id,
        LazyTableKind::DerivedSql => {
            ||| exists|k: int|
                0 <= k < s.derived.len() && (#[trigger] s.derived[k]).table.id == table.id
            ||| exists|k: int|
                0 <= k < s.pending.len() && (#[trigger] s.pending[k]).table.id == table.id
        },
    }
}

/// A handle has a schema exactly where the session holds its table; a handle of another session's
/// table is known by nothing.
pub proof fn only_held_tables_are_known(s: SessionView, table: LazyTableView)
    ensures
        known_schema(s, table) is Some <==> is_held(s, table),
        !is_held(s, table) ==> catalog_name(s, table) is None,
        !is_held(s, table) ==> pending_position(s, table) is None,
        known_sql_text(s, table) is Some <==> table.kind == LazyTableKind::DerivedSql && is_held(
            s,
            table,
        ),
{
    first_position_facts(s.sources, source_has_id(table.id));
    first_position_facts(s.derived, derived_has_id(table.id));
    first_position_facts(s.pending, pending_has_id(table.id));
    match table.kind {
        LazyTableKind::DeltaSource => {
            if is_held(s, table) {
                let k = choose|k: int|
                    0 <= k < s.sources.len() && (#[trigger] s.sources[k]).table.id == table.id;
                assert(source_has_id(table.id)(s.sources[k]));
            }
        },
        LazyTableKind::DerivedSql => {
            if exists|k: int|
                0 <= k < s.derived.len() && (#[trigger] s.derived[k]).table.id == table.id {
                let k = choose|k: int|
                    0 <= k < s.derived.len() && (#[trigger] s.derived[k]).table.id == table.id;
                assert(derived_has_id(table.id)(s.derived[k]));
            }
            if exists|k: int|
                0 <= k < s.pending.len() && (#[trigger] s.pending[k]).table.id == table.id {
                let k = choose|k: int|
                    0 <= k < s.pending.len() && (#[trigger] s.pending[k]).table.id == table.id;
                assert(pending_has_id(table.id)(s.pending[k]));
            }
        },
    }
}

/// Two handles of different tables are never read under the same name, whatever its case.
pub proof fn different_tables_are_read_under_different_names(
    s: SessionView,
    a: LazyTableView,
    b: LazyTableView,
)
    requires
        well_formed(s),
        a.id != b.id,
        catalog_name(s, a) is Some,
        catalog_name(s, b) is Some,
    ensures
        !same_identifier(catalog_name(s, a)->0, catalog_name(s, b)->0),
{
    first_position_facts(s.sources, source_has_id(a.id));
    first_position_facts(s.derived, derived_has_id(a.id));
    first_position_facts(s.sources, source_has_id(b.id));
    first_position_facts(s.derived, derived_has_id(b.id));
    let x = catalog_name(s, a)->0;
    let y = catalog_name(s, b)->0;
    if same_identifier(x, y) {
        assert forall|i: int| 0 <= i < y.len() implies ascii_lower(#[trigger] y[i]) == ascii_lower(
            x[i],
        ) by {
            assert(ascii_lower(x[i]) == ascii_lower(y[i]));
        }
        assert(same_identifier(y, x));
    }
}

} // verus!
