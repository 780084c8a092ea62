//! What a session accepts and what registering changes in it, said of its lists.

use vstd::prelude::*;

use crate::engine::{CatalogEntryView, dataframe_plan};
use crate::errors::{ErrorView, SqlTablePhase};
use crate::handles::{LazyTableKind, LazyTableView, unnamed_table};
use crate::names::{is_identifier, is_reserved, is_valid_source_name, source_name_problem};
use crate::registry::{
    RegisteredDeltaSource, derived_has_name, pending_has_id, source_has_name,
};
use crate::search::first_position_facts;
use crate::session::{
    SessionView, alias_problem, alias_taken, empty_sql, new_source_problem, next_id, not_pending,
    pending_position, sql_error_phase, with_alias, with_entry, with_refused_alias, with_source,
};
use crate::text::{decimal, has_text, same_identifier};
use crate::text_laws::text_is_found_where_it_stands;

verus! {

/// A letter of the alphabet or an underscore.
pub open spec fn is_letter(c: char) -> bool {
    ('a' <= c && c <= 'z') || ('A' <= c && c <= 'Z') || c == '_'
}

/// A name can be an unquoted identifier where it starts with a letter or an underscore and goes
/// on with letters, underscores and digits.
pub proof fn identifiers_are_letters_and_digits(name: Seq<char>)
    ensures
        is_identifier(name) <==> name.len() > 0 && is_letter(name[0]) && forall|i: int|
            0 < i < name.len() ==> is_letter(#[trigger] name[i]) || ('0' <= name[i] && name[i]
                <= '9'),
{
    if name.len() > 0 && is_letter(name[0]) && forall|i: int|
        0 < i < name.len() ==> is_letter(#[trigger] name[i]) || ('0' <= name[i] && name[i] <= '9') {
        assert(is_identifier(name));
    }
}

/// Reserved are these words, whatever their case.
pub proof fn reserved_words_are_these(name: Seq<char>)
    ensures
        is_reserved(name) <==> {
            ||| same_identifier(name, "select"@)
            ||| same_identifier(name, "from"@)
            ||| same_identifier(name, "where"@)
            ||| same_identifier(name, "group"@)
            ||| same_identifier(name, "having"@)
            ||| same_identifier(name, "order"@)
            ||| same_identifier(name, "limit"@)
            ||| same_identifier(name, "offset"@)
            ||| same_identifier(name, "union"@)
            ||| same_identifier(name, "intersect"@)
            ||| same_identifier(name, "except"@)
            ||| same_identifier(name, "join"@)
            ||| same_identifier(name, "on"@)
            ||| same_identifier(name, "using"@)
            ||| same_identifier(name, "with"@)
            ||| same_identifier(name, "as"@)
            ||| same_identifier(name, "values"@)
            ||| same_identifier(name, "table"@)
            ||| same_identifier(name, "create"@)
            ||| same_identifier(name, "insert"@)
            ||| same_identifier(name, "update"@)
            ||| same_identifier(name, "delete"@)
            ||| same_identifier(name, "into"@)
            ||| same_identifier(name, "set"@)
            ||| same_identifier(name, "and"@)
            ||| same_identifier(name, "or"@)
            ||| same_identifier(name, "not"@)
            ||| same_identifier(name, "null"@)
            ||| same_identifier(name, "case"@)
            ||| same_identifier(name, "end"@)
        },
{
    let words = crate::names::reserved_words();
    assert(words.len() == 30);
    assert(words[0] == "select"@ && words[1] == "from"@ && words[2] == "where"@ && words[3]
        == "group"@ && words[4] == "having"@ && words[5] == "order"@ && words[6] == "limit"@
        && words[7] == "offset"@ && words[8] == "union"@ && words[9] == "intersect"@);
    assert(words[10] == "except"@ && words[11] == "join"@ && words[12] == "on"@ && words[13]
        == "using"@ && words[14] == "with"@ && words[15] == "as"@ && words[16] == "values"@
        && words[17] == "table"@ && words[18] == "create"@ && words[19] == "insert"@);
    assert(words[20] == "update"@ && words[21] == "delete"@ && words[22] == "into"@ && words[23]
        == "set"@ && words[24] == "and"@ && words[25] == "or"@ && words[26] == "not"@ && words[27]
        == "null"@ && words[28] == "case"@ && words[29] == "end"@);
    if is_reserved(name) {
        let i = choose|i: int| 0 <= i < words.len() && same_identifier(name, #[trigger] words[i]);
        assert(0 <= i < 30);
    }
}

/// A name is usable exactly where it is an identifier and not reserved; the problem with another
/// one names it.
pub proof fn usable_names_have_no_problem(name: Seq<char>)
    ensures
        source_name_problem(name) is None <==> is_identifier(name) && !is_reserved(name),
        is_valid_source_name(name) <==> is_identifier(name) && !is_reserved(name),
        source_name_problem(name) matches Some(problem) ==> (problem matches
            ErrorView::InvalidSourceName { name: named, .. } && named == name),
        !is_identifier(name) ==> source_name_problem(name) == Some(
            ErrorView::InvalidSourceName {
                name,
                message: "name must be an unquoted SQL identifier"@,
            },
        ),
        is_identifier(name) && is_reserved(name) ==> source_name_problem(name) == Some(
            ErrorView::InvalidSourceName { name, message: "name is a reserved SQL word"@ },
        ),
{
}

/// A source or an alias of the session has a name, whatever its case.
pub open spec fn is_taken(s: SessionView, name: Seq<char>) -> bool {
    ||| exists|i: int|
        0 <= i < s.sources.len() && same_identifier((#[trigger] s.sources[i]).table.name, name)
    ||| exists|i: int|
        0 <= i < s.derived.len() && same_identifier((#[trigger] s.derived[i]).table.name, name)
}

/// A name is taken by sources and aliases alike.
pub proof fn sources_and_aliases_share_names(s: SessionView, name: Seq<char>)
    ensures
        alias_taken(s, name) <==> is_taken(s, name),
{
    first_position_facts(s.sources, source_has_name(name));
    first_position_facts(s.derived, derived_has_name(name));
    if exists|i: int|
        0 <= i < s.sources.len() && same_identifier((#[trigger] s.sources[i]).table.name, name) {
        let i = choose|i: int|
            0 <= i < s.sources.len() && same_identifier(
                (#[trigger] s.sources[i]).table.name,
                name,
            );
        assert(source_has_name(name)(s.sources[i]));
    }
    if exists|i: int|
        0 <= i < s.derived.len() && same_identifier((#[trigger] s.derived[i]).table.name, name) {
        let i = choose|i: int|
            0 <= i < s.derived.len() && same_identifier(
                (#[trigger] s.derived[i]).table.name,
                name,
            );
        assert(derived_has_name(name)(s.derived[i]));
    }
}

/// A source can be registered exactly under a usable name that is not taken; a taken name is
/// complained of before an unusable one.
pub proof fn new_source_needs_a_free_usable_name(s: SessionView, name: Seq<char>)
    ensures
        new_source_problem(s, name) is None <==> !is_taken(s, name) && is_identifier(name)
            && !is_reserved(name),
        is_taken(s, name) ==> new_source_problem(s, name) == Some(
            ErrorView::DuplicateSourceName { name },
        ),
        !is_taken(s, name) ==> new_source_problem(s, name) == source_name_problem(name),
{
    sources_and_aliases_share_names(s, name);
}

/// A pending table has the id of a derived handle.
pub open spec fn is_pending(s: SessionView, table: LazyTableView) -> bool {
    table.kind == LazyTableKind::DerivedSql && exists|i: int|
        0 <= i < s.pending.len() && (#[trigger] s.pending[i]).table.id == table.id
}

/// An alias can be registered exactly for a pending table under a usable name that is not taken;
/// an unusable name is complained of before a taken one, and both before the table.
pub proof fn new_alias_needs_a_name_and_a_pending_table(
    s: SessionView,
    name: Seq<char>,
    table: LazyTableView,
)
    ensures
        alias_problem(s, name, table) is None <==> is_identifier(name) && !is_reserved(name)
            && !is_taken(s, name) && is_pending(s, table),
        !is_identifier(name) || is_reserved(name) ==> alias_problem(s, name, table)
            == source_name_problem(name),
        is_identifier(name) && !is_reserved(name) && is_taken(s, name) ==> alias_problem(
            s,
            name,
            table,
        ) == Some(ErrorView::DuplicateSourceName { name }),
        is_identifier(name) && !is_reserved(name) && !is_taken(s, name) && !is_pending(s, table)
            ==> alias_problem(s, name, table) == Some(not_pending()),
        pending_position(s, table) is Some <==> is_pending(s, table),
        pending_position(s, table) matches Some(i) ==> 0 <= i < s.pending.len()
            && s.pending[i].table.id == table.id,
{
    sources_and_aliases_share_names(s, name);
    first_position_facts(s.pending, pending_has_id(table.id));
    if is_pending(s, table) {
        let i = choose|i: int|
            0 <= i < s.pending.len() && (#[trigger] s.pending[i]).table.id == table.id;
        assert(pending_has_id(table.id)(s.pending[i]));
    }
}

/// Ids count on by one; the last id stays.
pub proof fn ids_count_on(id: u64)
    ensures
        id < u64::MAX ==> next_id(id) == id + 1,
        id == u64::MAX ==> next_id(id) == id,
{
}

/// A registered source is kept as it was loaded, under the next id, behind the sources before it.
/// Nothing else of the session changes.
pub proof fn source_is_kept_as_loaded(s: SessionView, registered: RegisteredDeltaSource)
    ensures
        ({
            let after = with_source(s, registered);
            let added = after.sources.last();
            &&& after.sources.drop_last() == s.sources
            &&& added.table.id == s.next_table_id
            &&& added.table.kind == LazyTableKind::DeltaSource
            &&& added.table.name == registered.name@
            &&& added.source_uri == registered.table_uri@
            &&& added.snapshot_version == registered.snapshot_version
            &&& added.schema == *registered.schema
            &&& added.protocol == registered.protocol@
            &&& after.derived == s.derived
            &&& after.pending == s.pending
            &&& after.options == s.options
            &&& after.context == s.context
            &&& s.next_table_id < u64::MAX ==> after.next_table_id == s.next_table_id + 1
            &&& s.next_table_id == u64::MAX ==> after.next_table_id == s.next_table_id
        }),
{
    assert(with_source(s, registered).sources.drop_last() =~= s.sources);
}

/// A table that gets an alias leaves the pending tables, whose others stay in order, and becomes
/// the last alias: under that name, with its id, its kind, its schema, its text, its lineage and
/// its rows as they were. Nothing else of the session changes.
pub proof fn alias_is_kept_as_planned(s: SessionView, i: int, name: Seq<char>)
    requires
        0 <= i < s.pending.len(),
    ensures
        ({
            let after = with_alias(s, i, name);
            let pending = s.pending[i];
            let added = after.derived.last();
            &&& after.derived.drop_last() == s.derived
            &&& added.table.name == name
            &&& added.table.id == pending.table.id
            &&& added.table.kind == pending.table.kind
            &&& added.schema == pending.schema
            &&& added.sql_text == pending.sql_text
            &&& added.lineage == pending.lineage
            &&& added.catalog_entry == Some(
                CatalogEntryView { name, plan: dataframe_plan(pending.dataframe) },
            )
            &&& after.pending.len() == s.pending.len() - 1
            &&& forall|j: int| 0 <= j < i ==> #[trigger] after.pending[j] == s.pending[j]
            &&& forall|j: int|
                i <= j < s.pending.len() - 1 ==> #[trigger] after.pending[j] == s.pending[j + 1]
            &&& after.sources == s.sources
            &&& after.options == s.options
            &&& after.context == s.context
            &&& after.next_table_id == s.next_table_id
        }),
{
    assert(with_alias(s, i, name).derived.drop_last() =~= s.derived);
}

/// The alias of a table whose catalog entry came back is kept under the entry's name and with
/// that entry.
pub proof fn catalog_entry_is_kept(s: SessionView, i: int, entry: CatalogEntryView)
    requires
        0 <= i < s.pending.len(),
    ensures
        ({
            let after = with_entry(s, i, entry);
            let pending = s.pending[i];
            let added = after.derived.last();
            &&& after.derived.drop_last() == s.derived
            &&& added.table.name == entry.name
            &&& added.table.id == pending.table.id
            &&& added.table.kind == pending.table.kind
            &&& added.schema == pending.schema
            &&& added.sql_text == pending.sql_text
            &&& added.lineage == pending.lineage
            &&& added.catalog_entry == Some(entry)
            &&& after.pending == s.pending.take(i) + s.pending.skip(i + 1)
            &&& after.sources == s.sources
            &&& after.options == s.options
            &&& after.context == s.context
            &&& after.next_table_id == s.next_table_id
        }),
{
    assert(with_entry(s, i, entry).derived.drop_last() =~= s.derived);
    assert(s.pending.remove(i) =~= s.pending.take(i) + s.pending.skip(i + 1));
}

/// A table whose alias the catalog refuses stays pending as it was, now as the last; the others
/// stay in order and nothing else of the session changes.
pub proof fn refused_table_goes_to_the_end(s: SessionView, i: int)
    requires
        0 <= i < s.pending.len(),
    ensures
        with_refused_alias(s, i).pending == s.pending.take(i) + s.pending.skip(i + 1)
            + seq![s.pending[i]],
        with_refused_alias(s, i).derived == s.derived,
        with_refused_alias(s, i).sources == s.sources,
        with_refused_alias(s, i).options == s.options,
        with_refused_alias(s, i).context == s.context,
        with_refused_alias(s, i).next_table_id == s.next_table_id,
{
    assert(with_refused_alias(s, i).pending =~= s.pending.take(i) + s.pending.skip(i + 1)
        + seq![s.pending[i]]);
}

/// The made-up name of a derived table ends with its id.
pub proof fn unnamed_tables_are_named_by_id(id: u64)
    ensures
        unnamed_table(id) == "table_"@ + decimal(id as nat),
{
}

/// An empty text and a table that is not pending are refused in their own phase.
pub proof fn refusals_tell_their_phase()
    ensures
        empty_sql() == (ErrorView::SqlTable {
            phase: SqlTablePhase::ValidateSql,
            message: "SQL text must not be empty"@,
        }),
        not_pending() == (ErrorView::SqlTable {
            phase: SqlTablePhase::RegisterDerivedAlias,
            message: "lazy table is not a pending SQL-derived table owned by this session"@,
        }),
{
}

/// A message that tells of refused definitions, changes, statements or of several statements,
/// whatever stands around it, is about the text; a message that tells of none is about planning.
pub proof fn refused_statements_are_about_the_text(front: Seq<char>, back: Seq<char>)
    ensures
        sql_error_phase(front + "DDL not supported"@ + back)
            == SqlTablePhase::ValidateSql,
        sql_error_phase(front + "DML not supported"@ + back)
            == SqlTablePhase::ValidateSql,
        sql_error_phase(front + "Statement not supported"@ + back)
            == SqlTablePhase::ValidateSql,
        sql_error_phase(front + "only supports a single SQL statement"@ + back)
            == SqlTablePhase::ValidateSql,
{
    text_is_found_where_it_stands(front + "DDL not supported"@ + back, "DDL not supported"@);
    text_is_found_where_it_stands(front + "DML not supported"@ + back, "DML not supported"@);
    text_is_found_where_it_stands(
        front + "Statement not supported"@ + back,
        "Statement not supported"@,
    );
    text_is_found_where_it_stands(
        front + "only supports a single SQL statement"@ + back,
        "only supports a single SQL statement"@,
    );
}

/// A message that holds none of the marks of a refused text is about planning.
pub proof fn other_messages_are_about_planning(message: Seq<char>)
    requires
        !has_text(message, "DDL not supported"@),
        !has_text(message, "DML not supported"@),
        !has_text(message, "Statement not supported"@),
        !has_text(message, "only supports a single SQL statement"@),
    ensures
        sql_error_phase(message) == SqlTablePhase::PlanSql,
{
}

} // verus!
