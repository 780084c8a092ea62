//! What every session operation keeps.

use datafusion::prelude::DataFrame;
use vstd::prelude::*;

use crate::engine::{CatalogEntryView, dataframe_plan};
use crate::handles::{LazyTableKind, LazyTableView};
use crate::registry::{
    DerivedView, PendingView, RegisteredDeltaSource, derived_has_id, derived_has_name, named_derived,
    pending_has_id, source_has_name,
};
use crate::search::{first_match, first_position, first_position_facts, first_position_is};
use crate::session::{
    SessionView, alias_problem, alias_taken, known_schema, known_sql_text, new_source_problem,
    next_id, pending_position, with_alias, with_planned, with_refused_alias, with_source,
};
use crate::text::{ascii_lower, same_identifier};

verus! {

/// Every handle was given out with an id below the next one.
pub open spec fn ids_given_out(s: SessionView) -> bool {
    &&& forall|i: int|
        0 <= i < s.sources.len() ==> (#[trigger] s.sources[i]).table.id < s.next_table_id
    &&& forall|i: int|
        0 <= i < s.derived.len() ==> (#[trigger] s.derived[i]).table.id < s.next_table_id
    &&& forall|i: int|
        0 <= i < s.pending.len() ==> (#[trigger] s.pending[i]).table.id < s.next_table_id
}

/// No two tables share an id.
pub open spec fn ids_distinct(s: SessionView) -> bool {
    &&& forall|i: int, j: int|
        0 <= i < j < s.sources.len() ==> (#[trigger] s.sources[i]).table.id != (
        #[trigger] s.sources[j]).table.id
    &&& forall|i: int, j: int|
        0 <= i < j < s.derived.len() ==> (#[trigger] s.derived[i]).table.id != (
        #[trigger] s.derived[j]).table.id
    &&& forall|i: int, j: int|
        0 <= i < j < s.pending.len() ==> (#[trigger] s.pending[i]).table.id != (
        #[trigger] s.pending[j]).table.id
    &&& forall|i: int, j: int|
        0 <= i < s.sources.len() && 0 <= j < s.derived.len() ==> (#[trigger] s.sources[i]).table.id
            != (#[trigger] s.derived[j]).table.id
    &&& forall|i: int, j: int|
        0 <= i < s.sources.len() && 0 <= j < s.pending.len() ==> (#[trigger] s.sources[i]).table.id
            != (#[trigger] s.pending[j]).table.id
    &&& forall|i: int, j: int|
        0 <= i < s.derived.len() && 0 <= j < s.pending.len() ==> (#[trigger] s.derived[i]).table.id
            != (#[trigger] s.pending[j]).table.id
}

/// No two registered tables share a name, whatever its case.
pub open spec fn names_distinct(s: SessionView) -> bool {
    &&& forall|i: int, j: int|
        0 <= i < j < s.sources.len() ==> !same_identifier(
            (#[trigger] s.sources[i]).table.name,
            (#[trigger] s.sources[j]).table.name,
        )
    &&& forall|i: int, j: int|
        0 <= i < j < s.derived.len() ==> !same_identifier(
            (#[trigger] s.derived[i]).table.name,
            (#[trigger] s.derived[j]).table.name,
        )
    &&& forall|i: int, j: int|
        0 <= i < s.sources.len() && 0 <= j < s.derived.len() ==> !same_identifier(
            (#[trigger] s.sources[i]).table.name,
            (#[trigger] s.derived[j]).table.name,
        )
}

/// Every handle has the kind of the list that it stands in.
pub open spec fn kinds_fit(s: SessionView) -> bool {
    &&& forall|i: int|
        0 <= i < s.sources.len() ==> (#[trigger] s.sources[i]).table.kind
            == LazyTableKind::DeltaSource
    &&& forall|i: int|
        0 <= i < s.derived.len() ==> (#[trigger] s.derived[i]).table.kind
            == LazyTableKind::DerivedSql
    &&& forall|i: int|
        0 <= i < s.pending.len() ==> (#[trigger] s.pending[i]).table.kind
            == LazyTableKind::DerivedSql
}

/// What holds of every session while ids last.
pub open spec fn well_formed(s: SessionView) -> bool {
    ids_given_out(s) && ids_distinct(s) && names_distinct(s) && kinds_fit(s)
}

/// A session that holds no table is well formed.
pub proof fn empty_session_is_well_formed(s: SessionView)
    requires
        s.sources.len() == 0,
        s.derived.len() == 0,
        s.pending.len() == 0,
    ensures
        well_formed(s),
{
}

proof fn same_identifier_sym(a: Seq<char>, b: Seq<char>)
    requires
        same_identifier(a, b),
    ensures
        same_identifier(b, a),
{
    assert forall|i: int| 0 <= i < b.len() implies ascii_lower(#[trigger] b[i]) == ascii_lower(
        a[i],
    ) by {
        assert(ascii_lower(a[i]) == ascii_lower(b[i]));
    }
}

proof fn same_identifier_trans(a: Seq<char>, b: Seq<char>, c: Seq<char>)
    requires
        same_identifier(a, b),
        same_identifier(b, c),
    ensures
        same_identifier(a, c),
{
    assert forall|i: int| 0 <= i < a.len() implies ascii_lower(#[trigger] a[i]) == ascii_lower(
        c[i],
    ) by {
        assert(ascii_lower(a[i]) == ascii_lower(b[i]));
        assert(ascii_lower(b[i]) == ascii_lower(c[i]));
    }
}

proof fn free_name_is_nowhere(s: SessionView, name: Seq<char>)
    requires
        !alias_taken(s, name),
    ensures
        forall|i: int|
            0 <= i < s.sources.len() ==> !same_identifier(
                (#[trigger] s.sources[i]).table.name,
                name,
            ),
        forall|i: int|
            0 <= i < s.derived.len() ==> !same_identifier(
                (#[trigger] s.derived[i]).table.name,
                name,
            ),
{
    first_position_facts(s.sources, source_has_name(name));
    first_position_facts(s.derived, derived_has_name(name));
    assert forall|i: int| 0 <= i < s.sources.len() implies !same_identifier(
        (#[trigger] s.sources[i]).table.name,
        name,
    ) by {
        assert(!source_has_name(name)(s.sources[i]));
    }
    assert forall|i: int| 0 <= i < s.derived.len() implies !same_identifier(
        (#[trigger] s.derived[i]).table.name,
        name,
    ) by {
        assert(!derived_has_name(name)(s.derived[i]));
    }
}

/// Registering a source under a free name keeps a session well formed.
pub proof fn registering_a_source_keeps_well_formed(
    s: SessionView,
    name: Seq<char>,
    registered: RegisteredDeltaSource,
)
    requires
        well_formed(s),
        s.next_table_id < u64::MAX,
        new_source_problem(s, name) is None,
        registered.name@ == name,
    ensures
        well_formed(with_source(s, registered)),
{
    free_name_is_nowhere(s, name);
    let t = with_source(s, registered);
    assert forall|i: int, j: int| 0 <= i < j < t.sources.len() implies !same_identifier(
        (#[trigger] t.sources[i]).table.name,
        (#[trigger] t.sources[j]).table.name,
    ) by {
        assert(t.sources[i] == s.sources[i]);
        if j < s.sources.len() {
            assert(t.sources[j] == s.sources[j]);
        }
    }
    assert forall|i: int, j: int|
        0 <= i < t.sources.len() && 0 <= j < t.derived.len() implies !same_identifier(
        (#[trigger] t.sources[i]).table.name,
        (#[trigger] t.derived[j]).table.name,
    ) by {
        if i < s.sources.len() {
            assert(t.sources[i] == s.sources[i]);
            assert(t.derived[j] == s.derived[j]);
        } else if same_identifier(t.sources[i].table.name, t.derived[j].table.name) {
            same_identifier_sym(t.sources[i].table.name, t.derived[j].table.name);
            assert(t.derived[j] == s.derived[j]);
        }
    }
}

/// Planning a derived table keeps a session well formed.
pub proof fn planning_a_table_keeps_well_formed(s: SessionView, sql: Seq<char>, dataframe: DataFrame)
    requires
        well_formed(s),
        s.next_table_id < u64::MAX,
    ensures
        well_formed(with_planned(s, sql, dataframe)),
{
}

proof fn pending_position_facts(s: SessionView, table: LazyTableView)
    ensures
        match pending_position(s, table) {
            Some(i) => 0 <= i < s.pending.len() && s.pending[i].table.id == table.id,
            None => true,
        },
{
    first_position_facts(s.pending, pending_has_id(table.id));
}

/// Registering an alias keeps a session well formed.
pub proof fn registering_an_alias_keeps_well_formed(
    s: SessionView,
    name: Seq<char>,
    table: LazyTableView,
)
    requires
        well_formed(s),
        alias_problem(s, name, table) is None,
    ensures
        well_formed(with_alias(s, pending_position(s, table)->0, name)),
{
    free_name_is_nowhere(s, name);
    pending_position_facts(s, table);
    let k = pending_position(s, table)->0;
    let t = with_alias(s, k, name);
    let rest = s.pending.remove(k);
    assert forall|i: int| 0 <= i < rest.len() implies #[trigger] rest[i] == s.pending[if i < k {
        i
    } else {
        i + 1
    }] by {}
    assert forall|i: int| 0 <= i < t.derived.len() implies (#[trigger] t.derived[i]).table.id
        < t.next_table_id && t.derived[i].table.kind == LazyTableKind::DerivedSql by {
        if i < s.derived.len() {
            assert(t.derived[i] == s.derived[i]);
        } else {
            assert(t.derived[i] == named_derived(s.pending[k], name));
        }
    }
    assert forall|i: int, j: int| 0 <= i < j < t.derived.len() implies (
    #[trigger] t.derived[i]).table.id != (#[trigger] t.derived[j]).table.id && !same_identifier(
        t.derived[i].table.name,
        t.derived[j].table.name,
    ) by {
        assert(t.derived[i] == s.derived[i]);
        if j < s.derived.len() {
            assert(t.derived[j] == s.derived[j]);
        } else {
            assert(t.derived[j] == named_derived(s.pending[k], name));
        }
    }
    assert forall|i: int, j: int|
        0 <= i < t.sources.len() && 0 <= j < t.derived.len() implies (
    #[trigger] t.sources[i]).table.id != (#[trigger] t.derived[j]).table.id && !same_identifier(
        t.sources[i].table.name,
        t.derived[j].table.name,
    ) by {
        assert(t.sources[i] == s.sources[i]);
        if j < s.derived.len() {
            assert(t.derived[j] == s.derived[j]);
        } else {
            assert(t.derived[j] == named_derived(s.pending[k], name));
        }
    }
    assert forall|i: int, j: int|
        0 <= i < t.derived.len() && 0 <= j < t.pending.len() implies (
    #[trigger] t.derived[i]).table.id != (#[trigger] t.pending[j]).table.id by {
        let m = if j < k {
            j
        } else {
            j + 1
        };
        assert(t.pending[j] == s.pending[m]);
        if i < s.derived.len() {
            assert(t.derived[i] == s.derived[i]);
        } else {
            assert(t.derived[i] == named_derived(s.pending[k], name));
            if m < k {
                assert(s.pending[m].table.id != s.pending[k].table.id);
            } else {
                assert(s.pending[k].table.id != s.pending[m].table.id);
            }
        }
    }
    assert forall|i: int, j: int| 0 <= i < j < t.pending.len() implies (
    #[trigger] t.pending[i]).table.id != (#[trigger] t.pending[j]).table.id by {
        assert(t.pending[i] == rest[i]);
        assert(t.pending[j] == rest[j]);
    }
    assert forall|i: int, j: int|
        0 <= i < t.sources.len() && 0 <= j < t.pending.len() implies (
    #[trigger] t.sources[i]).table.id != (#[trigger] t.pending[j]).table.id by {
        assert(t.pending[j] == rest[j]);
        assert(t.sources[i] == s.sources[i]);
    }
    assert forall|i: int| 0 <= i < t.pending.len() implies (#[trigger] t.pending[i]).table.id
        < t.next_table_id && t.pending[i].table.kind == LazyTableKind::DerivedSql by {
        assert(t.pending[i] == rest[i]);
    }
}

/// An alias that the catalog refuses keeps a session well formed.
pub proof fn refused_alias_keeps_well_formed(s: SessionView, table: LazyTableView)
    requires
        well_formed(s),
        pending_position(s, table) is Some,
    ensures
        well_formed(with_refused_alias(s, pending_position(s, table)->0)),
{
    pending_position_facts(s, table);
    let k = pending_position(s, table)->0;
    let t = with_refused_alias(s, k);
    assert forall|i: int| 0 <= i < t.pending.len() implies #[trigger] t.pending[i]
        == s.pending[moved(k, s.pending.len() as int, i)] by {}
    assert forall|i: int, j: int| 0 <= i < j < t.pending.len() implies (
    #[trigger] t.pending[i]).table.id != (#[trigger] t.pending[j]).table.id by {
        let a = moved(k, s.pending.len() as int, i);
        let b = moved(k, s.pending.len() as int, j);
        assert(t.pending[i] == s.pending[a]);
        assert(t.pending[j] == s.pending[b]);
        if a < b {
            assert(s.pending[a].table.id != s.pending[b].table.id);
        } else {
            assert(s.pending[b].table.id != s.pending[a].table.id);
        }
    }
}

/// Where the element at a position comes from once the one at `k` went to the end.
spec fn moved(k: int, len: int, i: int) -> int {
    if i < k {
        i
    } else if i < len - 1 {
        i + 1
    } else {
        k
    }
}

/// A new table gets an id that no table of the session has.
pub proof fn new_ids_are_fresh(s: SessionView, i: int)
    requires
        well_formed(s),
    ensures
        0 <= i < s.sources.len() ==> s.sources[i].table.id != s.next_table_id,
        0 <= i < s.derived.len() ==> s.derived[i].table.id != s.next_table_id,
        0 <= i < s.pending.len() ==> s.pending[i].table.id != s.next_table_id,
        s.next_table_id < u64::MAX ==> next_id(s.next_table_id) > s.next_table_id,
{
}

/// An alias keeps the id and the kind of the table that it names.
pub proof fn alias_keeps_table_identity(pending: PendingView, name: Seq<char>)
    ensures
        named_derived(pending, name).table.id == pending.table.id,
        named_derived(pending, name).table.kind == pending.table.kind,
        named_derived(pending, name).table.name == name,
{
}

/// A registered alias is found under its name in any case, and its name is taken.
pub proof fn registered_alias_is_found(
    s: SessionView,
    name: Seq<char>,
    table: LazyTableView,
    asked: Seq<char>,
)
    requires
        alias_problem(s, name, table) is None,
        same_identifier(name, asked),
    ensures
        ({
            let k = pending_position(s, table)->0;
            let t = with_alias(s, k, name);
            &&& first_match(t.derived, derived_has_name(asked)) == Some(
                named_derived(s.pending[k], name),
            )
            &&& alias_taken(t, asked)
        }),
{
    free_name_is_nowhere(s, name);
    let k = pending_position(s, table)->0;
    let t = with_alias(s, k, name);
    let p = derived_has_name(asked);
    let n = s.derived.len() as int;
    assert(t.derived[n] == named_derived(s.pending[k], name));
    assert forall|j: int| 0 <= j < n implies !p(#[trigger] t.derived[j]) by {
        assert(t.derived[j] == s.derived[j]);
        if same_identifier(s.derived[j].table.name, asked) {
            same_identifier_sym(name, asked);
            same_identifier_trans(s.derived[j].table.name, asked, name);
        }
    }
    first_position_is(t.derived, p, n);
}

/// A registered source is found under its name in any case, and its name is taken.
pub proof fn registered_source_is_found(
    s: SessionView,
    name: Seq<char>,
    registered: RegisteredDeltaSource,
    asked: Seq<char>,
)
    requires
        new_source_problem(s, name) is None,
        registered.name@ == name,
        same_identifier(name, asked),
    ensures
        ({
            let t = with_source(s, registered);
            &&& first_match(t.sources, source_has_name(asked)) == Some(t.sources.last())
            &&& t.sources.last().table.name == name
            &&& alias_taken(t, asked)
        }),
{
    free_name_is_nowhere(s, name);
    let t = with_source(s, registered);
    let p = source_has_name(asked);
    let n = s.sources.len() as int;
    assert forall|j: int| 0 <= j < n implies !p(#[trigger] t.sources[j]) by {
        assert(t.sources[j] == s.sources[j]);
        if same_identifier(s.sources[j].table.name, asked) {
            same_identifier_sym(name, asked);
            same_identifier_trans(s.sources[j].table.name, asked, name);
        }
    }
    first_position_is(t.sources, p, n);
}

proof fn unique_pending(pending: Seq<PendingView>, id: u64, i: int)
    requires
        0 <= i < pending.len(),
        pending[i].table.id == id,
        forall|a: int, b: int|
            0 <= a < b < pending.len() ==> (#[trigger] pending[a]).table.id != (
            #[trigger] pending[b]).table.id,
    ensures
        first_position(pending, pending_has_id(id)) == Some(i),
{
    let p = pending_has_id(id);
    assert forall|j: int| 0 <= j < i implies !p(#[trigger] pending[j]) by {
        assert(pending[j].table.id != pending[i].table.id);
    }
    first_position_is(pending, p, i);
}

/// A table that the catalog refused an alias can still be found, with its SQL text and its
/// schema, and can be given another alias.
pub proof fn refused_alias_keeps_the_table(s: SessionView, table: LazyTableView)
    requires
        well_formed(s),
        pending_position(s, table) is Some,
    ensures
        ({
            let t = with_refused_alias(s, pending_position(s, table)->0);
            &&& pending_position(t, table) is Some
            &&& t.pending[pending_position(t, table)->0] == s.pending[pending_position(
                s,
                table,
            )->0]
            &&& known_sql_text(t, table) == known_sql_text(s, table)
            &&& known_schema(t, table) == known_schema(s, table)
        }),
{
    refused_alias_keeps_well_formed(s, table);
    pending_position_facts(s, table);
    let k = pending_position(s, table)->0;
    let t = with_refused_alias(s, k);
    assert(t.pending[s.pending.len() - 1] == s.pending[k]);
    unique_pending(t.pending, table.id, s.pending.len() - 1);
}

/// Naming a table changes neither its SQL text nor its schema.
pub proof fn alias_keeps_text_and_schema(s: SessionView, name: Seq<char>, table: LazyTableView)
    requires
        well_formed(s),
        alias_problem(s, name, table) is None,
    ensures
        ({
            let t = with_alias(s, pending_position(s, table)->0, name);
            &&& known_sql_text(t, table) == known_sql_text(s, table)
            &&& known_schema(t, table) == known_schema(s, table)
        }),
{
    pending_position_facts(s, table);
    let k = pending_position(s, table)->0;
    let t = with_alias(s, k, name);
    let p = derived_has_id(table.id);
    let n = s.derived.len() as int;
    assert(t.derived[n] == named_derived(s.pending[k], name));
    assert forall|j: int| 0 <= j < n implies !p(#[trigger] t.derived[j]) by {
        assert(t.derived[j] == s.derived[j]);
        assert(s.derived[j].table.id != s.pending[k].table.id);
    }
    first_position_is(t.derived, p, n);
    assert forall|j: int| 0 <= j < n implies !p(#[trigger] s.derived[j]) by {
        assert(t.derived[j] == s.derived[j]);
    }
    crate::search::first_position_is_none(s.derived, p);
}

/// An alias stands in the catalog under its own name.
pub open spec fn stands_in_the_catalog(derived: DerivedView) -> bool {
    derived.catalog_entry matches Some(entry) && entry.name == derived.table.name
}

/// Every alias of a session stands in the catalog under its own name.
pub open spec fn aliases_stand_in_the_catalog(s: SessionView) -> bool {
    forall|i: int| 0 <= i < s.derived.len() ==> stands_in_the_catalog(#[trigger] s.derived[i])
}

/// Whatever a session registers, plans or names, its aliases stand in the catalog; a new alias
/// stands there with the query of the table that it names.
pub proof fn aliases_stay_in_the_catalog(
    s: SessionView,
    registered: RegisteredDeltaSource,
    sql: Seq<char>,
    dataframe: DataFrame,
    name: Seq<char>,
    i: int,
)
    requires
        aliases_stand_in_the_catalog(s),
        0 <= i < s.pending.len(),
    ensures
        aliases_stand_in_the_catalog(with_source(s, registered)),
        aliases_stand_in_the_catalog(with_planned(s, sql, dataframe)),
        aliases_stand_in_the_catalog(with_refused_alias(s, i)),
        aliases_stand_in_the_catalog(with_alias(s, i, name)),
        with_alias(s, i, name).derived.last().catalog_entry == Some(
            CatalogEntryView { name, plan: dataframe_plan(s.pending[i].dataframe) },
        ),
{
    let t = with_alias(s, i, name);
    assert forall|k: int| 0 <= k < t.derived.len() implies stands_in_the_catalog(
        #[trigger] t.derived[k],
    ) by {
        if k < s.derived.len() {
            assert(t.derived[k] == s.derived[k]);
        }
    }
}

/// A handle of a registered alias is no longer pending: it cannot be named twice.
pub proof fn named_table_is_not_pending(s: SessionView, name: Seq<char>, table: LazyTableView)
    requires
        well_formed(s),
        alias_problem(s, name, table) is None,
    ensures
        pending_position(with_alias(s, pending_position(s, table)->0, name), table) is None,
{
    pending_position_facts(s, table);
    let k = pending_position(s, table)->0;
    let rest = s.pending.remove(k);
    let p = pending_has_id(table.id);
    assert forall|j: int| 0 <= j < rest.len() implies !p(#[trigger] rest[j]) by {
        if j < k {
            assert(rest[j] == s.pending[j]);
            assert(s.pending[j].table.id != s.pending[k].table.id);
        } else {
            assert(rest[j] == s.pending[j + 1]);
            assert(s.pending[k].table.id != s.pending[j + 1].table.id);
        }
    }
    crate::search::first_position_is_none(rest, p);
}

} // verus!
