//! The session: registered sources, derived tables and their aliases.

use std::sync::Arc;

use datafusion::arrow::datatypes::Schema;
use datafusion::prelude::{DataFrame, SQLOptions, SessionContext};
use datafusion::sql::parser::Statement;
use vstd::prelude::*;
use vstd::string::StringExecFns;

use crate::engine::{
    CatalogEntry, CatalogEntryView, SqlPermissions, TableReferencesView, context_config, dataframe_plan, dataframe_schema,
    parse_sql, parsed_sql, read_view, register_view, schema_of, sql_permissions,
    statement_references, table_references, view_scan,
};
use crate::errors::{
    DeltaFunnelError, ErrorView, SqlTablePhase, datafusion_handoff_setup_error, handoff_setup,
    sql_table_error, unknown_lazy_table, unknown_lazy_table_error,
};
use crate::handles::{LazyTable, LazyTableKind, LazyTableView, unnamed_table};
use crate::lineage::{
    DependencyView, DerivedTableDependency, DerivedTableLineage, LineageView,
};
use crate::lineage_laws::every_reference_is_recorded;
use crate::names::{is_valid_source_name, source_name_problem, validate_table_source_name};
use crate::options::{
    SessionOptions, SessionOptionsView, config_follows, datafusion_session_context, reports,
    session_options_debug, session_options_problem,
};
use crate::registry::{
    DerivedView, PendingDerivedTable, PendingView, RegisteredDeltaSource, RegisteredDerivedTable,
    RegisteredSessionSource, SourceView, derived_debug, derived_has_id, derived_has_name,
    find_derived_by_id, find_derived_by_name, find_pending_by_id, find_source_by_id, find_source_by_name,
    entered_derived, named_derived, pending_has_id, session_source, source_debug, source_has_id,
    source_has_name,
};
use crate::report::{views, views_push};
use crate::search::{first_match, first_position, first_position_facts};
use crate::target::ConnectionView;
use crate::text::{
    contains_text, decimal, decimal_text, has_text, listed, listed_text, trim_text, trimmed,
};

verus! {

/// What a session says.
pub struct SessionView {
    pub options: SessionOptionsView,
    pub context: SessionContext,
    pub next_table_id: u64,
    pub sources: Seq<SourceView>,
    pub derived: Seq<DerivedView>,
    pub pending: Seq<PendingView>,
}

/// Session for lazy query-load workflows.
pub struct DeltaFunnelSession {
    options: SessionOptions,
    context: SessionContext,
    next_table_id: u64,
    sources: Vec<RegisteredSessionSource>,
    derived_tables: Vec<RegisteredDerivedTable>,
    pending_derived_tables: Vec<PendingDerivedTable>,
}

impl View for DeltaFunnelSession {
    type V = SessionView;

    closed spec fn view(&self) -> SessionView {
        SessionView {
            options: self.options@,
            context: self.context,
            next_table_id: self.next_table_id,
            sources: views(self.sources@),
            derived: views(self.derived_tables@),
            pending: views(self.pending_derived_tables@),
        }
    }
}

/// The id after a given one; the last id is kept.
pub open spec fn next_id(id: u64) -> u64 {
    if id < u64::MAX {
        (id + 1) as u64
    } else {
        id
    }
}

/// A name is taken by a source or by a derived alias.
pub open spec fn alias_taken(session: SessionView, name: Seq<char>) -> bool {
    ||| first_position(session.sources, source_has_name(name)) is Some
    ||| first_position(session.derived, derived_has_name(name)) is Some
}

/// The position of the pending table that a handle stands for.
pub open spec fn pending_position(session: SessionView, table: LazyTableView) -> Option<int> {
    if table.kind == LazyTableKind::DerivedSql {
        first_position(session.pending, pending_has_id(table.id))
    } else {
        None
    }
}

/// The session after a source was registered.
pub open spec fn with_source(session: SessionView, registered: RegisteredDeltaSource) -> SessionView {
    let table = LazyTableView {
        id: session.next_table_id,
        kind: LazyTableKind::DeltaSource,
        name: registered.name@,
    };
    SessionView {
        next_table_id: next_id(session.next_table_id),
        sources: session.sources.push(session_source(table, registered)),
        ..session
    }
}

/// The pending table for a planned query.
pub open spec fn planned_table(session: SessionView, sql: Seq<char>, dataframe: DataFrame) -> PendingView {
    PendingView {
        table: LazyTableView {
            id: session.next_table_id,
            kind: LazyTableKind::DerivedSql,
            name: unnamed_table(session.next_table_id),
        },
        dataframe,
        schema: dataframe_schema(dataframe),
        sql_text: sql,
        lineage: sql_lineage(session, sql),
    }
}

/// The session after a query was planned.
pub open spec fn with_planned(session: SessionView, sql: Seq<char>, dataframe: DataFrame) -> SessionView {
    SessionView {
        next_table_id: next_id(session.next_table_id),
        pending: session.pending.push(planned_table(session, sql, dataframe)),
        ..session
    }
}

/// The session after the pending table at a position became the alias of a catalog entry.
pub open spec fn with_entry(session: SessionView, i: int, entry: CatalogEntryView) -> SessionView {
    SessionView {
        derived: session.derived.push(entered_derived(session.pending[i], entry)),
        pending: session.pending.remove(i),
        ..session
    }
}

/// The session after the pending table at a position got its alias: the catalog holds its query
/// under that name.
pub open spec fn with_alias(session: SessionView, i: int, name: Seq<char>) -> SessionView {
    SessionView {
        derived: session.derived.push(named_derived(session.pending[i], name)),
        pending: session.pending.remove(i),
        ..session
    }
}

/// The session after the catalog refused the alias of the pending table at a position: the
/// table stays pending, as the last one.
pub open spec fn with_refused_alias(session: SessionView, i: int) -> SessionView {
    SessionView { pending: session.pending.remove(i).push(session.pending[i]), ..session }
}

/// The session table that a name stands for, sources first.
pub open spec fn dependency_for(session: SessionView, name: Seq<char>) -> Option<DependencyView> {
    match first_match(session.sources, source_has_name(name)) {
        Some(source) => Some(
            DependencyView::DeltaSource { table_id: source.table.id, name: source.table.name },
        ),
        None => match first_match(session.derived, derived_has_name(name)) {
            Some(derived) => Some(
                DependencyView::RegisteredDerived {
                    table_id: derived.table.id,
                    name: derived.table.name,
                },
            ),
            None => None,
        },
    }
}

/// The session tables among some names, in order.
pub open spec fn resolved_names(session: SessionView, names: Seq<Seq<char>>) -> Seq<DependencyView>
    decreases names.len(),
{
    if names.len() == 0 {
        seq![]
    } else {
        let before = resolved_names(session, names.drop_last());
        match dependency_for(session, names.last()) {
            Some(dependency) => before.push(dependency),
            None => before,
        }
    }
}

/// The names among some that no session table has, in order.
pub open spec fn unresolved_names(session: SessionView, names: Seq<Seq<char>>) -> Seq<Seq<char>>
    decreases names.len(),
{
    if names.len() == 0 {
        seq![]
    } else {
        let before = unresolved_names(session, names.drop_last());
        match dependency_for(session, names.last()) {
            Some(_) => before,
            None => before.push(names.last()),
        }
    }
}

/// The lineage of a statement that refers to some names.
pub open spec fn lineage_of_references(session: SessionView, references: TableReferencesView) -> LineageView {
    LineageView::Complete {
        dependencies: resolved_names(session, references.relations),
        external_references: unresolved_names(session, references.relations),
        cte_names: references.ctes,
    }
}

/// The lineage of a SQL text. It is complete exactly when the text is one statement whose
/// references can be resolved.
pub open spec fn sql_lineage(session: SessionView, sql: Seq<char>) -> LineageView {
    match parsed_sql(sql) {
        Err(message) => LineageView::Incomplete { reason: message },
        Ok(statements) => if statements.len() != 1 {
            LineageView::Incomplete { reason: "expected exactly one SQL statement"@ }
        } else {
            match statement_references(statements[0], true) {
                Err(message) => LineageView::Incomplete { reason: message },
                Ok(references) => lineage_of_references(session, references),
            }
        },
    }
}

/// The part of the workflow that a planner message belongs to: statements of a kind that is
/// not admitted, and lists of statements, are refused before planning.
pub open spec fn sql_error_phase(message: Seq<char>) -> SqlTablePhase {
    if has_text(message, "DDL not supported"@) || has_text(message, "DML not supported"@)
        || has_text(message, "Statement not supported"@) || has_text(
        message,
        "only supports a single SQL statement"@,
    ) {
        SqlTablePhase::ValidateSql
    } else {
        SqlTablePhase::PlanSql
    }
}

/// Finds out which part of the workflow a planner message belongs to.
pub fn classify_sql_error_phase(message: &str) -> (r: SqlTablePhase)
    ensures
        r == sql_error_phase(message@),
{
    if contains_text(message, "DDL not supported") || contains_text(message, "DML not supported")
        || contains_text(message, "Statement not supported") || contains_text(
        message,
        "only supports a single SQL statement",
    ) {
        SqlTablePhase::ValidateSql
    } else {
        SqlTablePhase::PlanSql
    }
}

/// Options that admit queries alone.
pub fn read_only_sql_options() -> (r: SQLOptions)
    ensures
        sql_permissions(r) == (SqlPermissions { ddl: false, dml: false, statements: false }),
{
    SQLOptions::new().with_allow_ddl(false).with_allow_dml(false).with_allow_statements(false)
}

/// The error for a SQL text that holds nothing.
pub open spec fn empty_sql() -> ErrorView {
    ErrorView::SqlTable {
        phase: SqlTablePhase::ValidateSql,
        message: "SQL text must not be empty"@,
    }
}

/// The error for a handle that no pending table stands behind.
pub open spec fn not_pending() -> ErrorView {
    ErrorView::SqlTable {
        phase: SqlTablePhase::RegisterDerivedAlias,
        message: "lazy table is not a pending SQL-derived table owned by this session"@,
    }
}

/// What is wrong with an alias for a table, before the catalog is asked.
pub open spec fn alias_problem(session: SessionView, name: Seq<char>, table: LazyTableView) -> Option<
    ErrorView,
> {
    if !is_valid_source_name(name) {
        source_name_problem(name)
    } else if alias_taken(session, name) {
        Some(ErrorView::DuplicateSourceName { name })
    } else if pending_position(session, table) is None {
        Some(not_pending())
    } else {
        None
    }
}

/// What is wrong with a source name, before the source is loaded.
pub open spec fn new_source_problem(session: SessionView, name: Seq<char>) -> Option<ErrorView> {
    if alias_taken(session, name) {
        Some(ErrorView::DuplicateSourceName { name })
    } else {
        source_name_problem(name)
    }
}

/// The schema of the table that a handle stands for.
pub open spec fn known_schema(session: SessionView, table: LazyTableView) -> Option<Schema> {
    match table.kind {
        LazyTableKind::DeltaSource => match first_match(session.sources, source_has_id(table.id)) {
            Some(source) => Some(source.schema),
            None => None,
        },
        LazyTableKind::DerivedSql => match first_match(session.derived, derived_has_id(table.id)) {
            Some(derived) => Some(derived.schema),
            None => match first_match(session.pending, pending_has_id(table.id)) {
                Some(pending) => Some(pending.schema),
                None => None,
            },
        },
    }
}

/// The SQL text of the derived table that a handle stands for.
pub open spec fn known_sql_text(session: SessionView, table: LazyTableView) -> Option<Seq<char>> {
    if table.kind == LazyTableKind::DerivedSql {
        match first_match(session.derived, derived_has_id(table.id)) {
            Some(derived) => Some(derived.sql_text),
            None => match first_match(session.pending, pending_has_id(table.id)) {
                Some(pending) => Some(pending.sql_text),
                None => None,
            },
        }
    } else {
        None
    }
}

/// How the rows of a lazy table are reached.
pub enum LazyTableRead {
    /// The catalog plans a scan of the table under this name.
    CatalogTable(String),
    /// The scan of the pending query is planned already.
    Planned(DataFrame),
}

/// The catalog name of the registered table that a handle stands for.
pub open spec fn catalog_name(session: SessionView, table: LazyTableView) -> Option<Seq<char>> {
    match table.kind {
        LazyTableKind::DeltaSource => match first_match(session.sources, source_has_id(table.id)) {
            Some(source) => Some(source.table.name),
            None => None,
        },
        LazyTableKind::DerivedSql => match first_match(session.derived, derived_has_id(table.id)) {
            Some(derived) => Some(derived.table.name),
            None => None,
        },
    }
}

impl DeltaFunnelSession {
    /// Builds a new session with validated local options.
    pub fn new(options: SessionOptions) -> (r: Result<Self, DeltaFunnelError>)
        ensures
            match session_options_problem(options@) {
                Some(problem) => r matches Err(e) && e@ == problem,
                None => {
                    &&& r matches Ok(session)
                    &&& session@.options == options@
                    &&& config_follows(
                        context_config(session@.context),
                        options@.query_options,
                    )
                    &&& session@.next_table_id == 0
                    &&& session@.sources.len() == 0
                    &&& session@.derived.len() == 0
                    &&& session@.pending.len() == 0
                },
            },
    {
        match options.validate() {
            Ok(_) => {},
            Err(e) => {
                return Err(e);
            },
        }
        let context = match datafusion_session_context(options.query_options()) {
            Ok(context) => context,
            Err(e) => {
                return Err(e);
            },
        };
        Ok(
            DeltaFunnelSession {
                options,
                context,
                next_table_id: 0,
                sources: Vec::new(),
                derived_tables: Vec::new(),
                pending_derived_tables: Vec::new(),
            },
        )
    }

    /// Returns the validated session options.
    pub fn options(&self) -> (r: &SessionOptions)
        ensures
            r@ == self@.options,
    {
        &self.options
    }

    /// Returns the query context owned by this session.
    pub fn context(&self) -> (r: &SessionContext)
        ensures
            *r == self@.context,
    {
        &self.context
    }

    /// Returns the next unassigned session-local lazy table id.
    pub fn next_table_id(&self) -> (r: u64)
        ensures
            r == self@.next_table_id,
    {
        self.next_table_id
    }

    /// Returns registered Delta sources in registration order.
    pub fn sources(&self) -> (r: &Vec<RegisteredSessionSource>)
        ensures
            views(r@) == self@.sources,
    {
        &self.sources
    }

    /// Returns registered SQL-derived aliases in registration order.
    pub fn derived_tables(&self) -> (r: &Vec<RegisteredDerivedTable>)
        ensures
            views(r@) == self@.derived,
    {
        &self.derived_tables
    }

    /// Returns SQL-derived tables that have no alias yet.
    pub fn pending_derived_tables(&self) -> (r: &Vec<PendingDerivedTable>)
        ensures
            views(r@) == self@.pending,
    {
        &self.pending_derived_tables
    }

    /// Finds a registered Delta source by alias using unquoted SQL semantics.
    pub fn registered_source(&self, name: &str) -> (r: Option<&RegisteredSessionSource>)
        ensures
            match r {
                Some(source) => first_match(self@.sources, source_has_name(name@)) == Some(source@),
                None => first_match(self@.sources, source_has_name(name@)) is None,
            },
    {
        match find_source_by_name(&self.sources, name) {
            Some(i) => {
                assert(self@.sources[i as int] == self.sources@[i as int]@);
                Some(&self.sources[i])
            },
            None => None,
        }
    }

    /// Finds a registered SQL-derived alias by name using unquoted SQL semantics.
    pub fn registered_derived_table(&self, name: &str) -> (r: Option<&RegisteredDerivedTable>)
        ensures
            match r {
                Some(d) => first_match(self@.derived, derived_has_name(name@)) == Some(d@),
                None => first_match(self@.derived, derived_has_name(name@)) is None,
            },
    {
        match find_derived_by_name(&self.derived_tables, name) {
            Some(i) => {
                assert(self@.derived[i as int] == self.derived_tables@[i as int]@);
                Some(&self.derived_tables[i])
            },
            None => None,
        }
    }

    /// Finds a registered SQL-derived alias by table id.
    pub fn registered_derived_table_by_id(&self, id: u64) -> (r: Option<&RegisteredDerivedTable>)
        ensures
            match r {
                Some(d) => first_match(self@.derived, derived_has_id(id)) == Some(d@),
                None => first_match(self@.derived, derived_has_id(id)) is None,
            },
    {
        match find_derived_by_id(&self.derived_tables, id) {
            Some(i) => {
                assert(self@.derived[i as int] == self.derived_tables@[i as int]@);
                Some(&self.derived_tables[i])
            },
            None => None,
        }
    }

    /// Rejects a name that a source or an alias has already.
    pub fn reject_registered_alias_name(&self, name: &str) -> (r: Result<(), DeltaFunnelError>)
        ensures
            reports(
                r,
                if alias_taken(self@, name@) {
                    Some(ErrorView::DuplicateSourceName { name: name@ })
                } else {
                    None
                },
            ),
    {
        let taken = match find_source_by_name(&self.sources, name) {
            Some(_) => true,
            None => match find_derived_by_name(&self.derived_tables, name) {
                Some(_) => true,
                None => false,
            },
        };
        if taken {
            return Err(DeltaFunnelError::DuplicateSourceName { name: name.to_owned() });
        }
        Ok(())
    }

    /// Rejects a name under which no source can be registered, before anything is loaded.
    pub fn check_new_source_name(&self, name: &str) -> (r: Result<(), DeltaFunnelError>)
        ensures
            reports(r, new_source_problem(self@, name@)),
    {
        match self.reject_registered_alias_name(name) {
            Ok(_) => validate_table_source_name(name),
            Err(e) => Err(e),
        }
    }

    /// Gives out the handle of a new source, and counts the id on.
    fn allocate_delta_source_table(&mut self, name: String) -> (r: LazyTable)
        ensures
            r@ == (LazyTableView {
                id: old(self)@.next_table_id,
                kind: LazyTableKind::DeltaSource,
                name: name@,
            }),
            final(self)@ == (SessionView {
                next_table_id: next_id(old(self)@.next_table_id),
                ..old(self)@
            }),
    {
        let id: u64 = self.next_table_id;
        self.next_table_id = self.next_table_id.saturating_add(1);
        LazyTable::delta_source(id, name)
    }

    /// Gives out the handle of a new derived table, and counts the id on.
    fn allocate_derived_sql_table(&mut self) -> (r: LazyTable)
        ensures
            r@ == (LazyTableView {
                id: old(self)@.next_table_id,
                kind: LazyTableKind::DerivedSql,
                name: unnamed_table(old(self)@.next_table_id),
            }),
            final(self)@ == (SessionView {
                next_table_id: next_id(old(self)@.next_table_id),
                ..old(self)@
            }),
    {
        let id: u64 = self.next_table_id;
        self.next_table_id = self.next_table_id.saturating_add(1);
        LazyTable::derived_sql(id)
    }

    /// Registers one Delta source under a name, from what loading it gave.
    ///
    /// Loading resolves the snapshot, checks the protocol and puts the source into the
    /// catalog; its outcome is handed in. A name that is taken or not usable is rejected
    /// whatever was loaded. Session state changes only when a source came back.
    pub fn delta_lake(
        &mut self,
        name: &str,
        loaded: Result<Vec<RegisteredDeltaSource>, DeltaFunnelError>,
    ) -> (r: Result<LazyTable, DeltaFunnelError>)
        ensures
            match new_source_problem(old(self)@, name@) {
                Some(problem) => (r matches Err(e) && e@ == problem) && final(self)@ == old(self)@,
                None => match loaded {
                    Err(failure) => (r matches Err(e) && e@ == failure@) && final(self)@ == old(
                        self,
                    )@,
                    Ok(sources) => if sources@.len() == 0 {
                        (r matches Err(e) && e@ == (ErrorView::Config {
                            message: "Delta source registration returned no registered source"@,
                        })) && final(self)@ == old(self)@
                    } else {
                        (r matches Ok(table) && table@ == with_source(
                            old(self)@,
                            sources@[0],
                        ).sources.last().table) && final(self)@ == with_source(
                            old(self)@,
                            sources@[0],
                        )
                    },
                },
            },
    {
        match self.check_new_source_name(name) {
            Ok(_) => {},
            Err(e) => {
                return Err(e);
            },
        }
        let mut sources = match loaded {
            Ok(sources) => sources,
            Err(e) => {
                return Err(e);
            },
        };
        if sources.len() == 0 {
            return Err(
                DeltaFunnelError::Config {
                    message: "Delta source registration returned no registered source".to_owned(),
                },
            );
        }
        let registered = sources.remove(0);
        let table = self.allocate_delta_source_table(registered.name.clone());
        let entry = RegisteredSessionSource::from_registered(table.clone(), registered);
        proof {
            views_push(self.sources@, entry);
        }
        self.sources.push(entry);
        Ok(table)
    }

    /// Trims a SQL text and rejects one that holds nothing.
    pub fn prepare_table_sql(&self, sql: &str) -> (r: Result<String, DeltaFunnelError>)
        ensures
            if trim_text(sql@).len() == 0 {
                r matches Err(e) && e@ == empty_sql()
            } else {
                r matches Ok(text) && text@ == trim_text(sql@)
            },
    {
        let text = trimmed(sql);
        if text.as_str().is_empty() {
            return Err(
                sql_table_error(
                    SqlTablePhase::ValidateSql,
                    "SQL text must not be empty".to_owned(),
                ),
            );
        }
        Ok(text)
    }

    /// Resolves the names that a statement refers to against the session.
    pub fn lineage_from_references(&self, relations: Vec<String>, cte_names: Vec<String>) -> (r:
        DerivedTableLineage)
        ensures
            r@ == lineage_of_references(
                self@,
                TableReferencesView { relations: views(relations@), ctes: views(cte_names@) },
            ),
            r@ matches LineageView::Complete { dependencies, external_references, cte_names: ctes }
                && dependencies.len() + external_references.len() == relations@.len() && ctes
                == views(cte_names@),
    {
        let ghost names = views(relations@);
        let mut dependencies: Vec<DerivedTableDependency> = Vec::new();
        let mut external: Vec<String> = Vec::new();
        let mut i: usize = 0;
        assert(views(dependencies@) =~= resolved_names(self@, names.take(0)));
        assert(views(external@) =~= unresolved_names(self@, names.take(0)));
        while i < relations.len()
            invariant
                i <= relations.len(),
                names == views(relations@),
                views(dependencies@) == resolved_names(self@, names.take(i as int)),
                views(external@) == unresolved_names(self@, names.take(i as int)),
            decreases relations.len() - i,
        {
            let name = &relations[i];
            assert(names.take(i + 1).drop_last() =~= names.take(i as int));
            assert(names.take(i + 1).last() == name@);
            match self.registered_source(name.as_str()) {
                Some(source) => {
                    let dependency = DerivedTableDependency::DeltaSource {
                        table_id: source.table().id(),
                        name: source.name().to_owned(),
                    };
                    proof {
                        views_push(dependencies@, dependency);
                    }
                    dependencies.push(dependency);
                },
                None => match self.registered_derived_table(name.as_str()) {
                    Some(derived) => {
                        let dependency = DerivedTableDependency::RegisteredDerived {
                            table_id: derived.table().id(),
                            name: derived.name().to_owned(),
                        };
                        proof {
                            views_push(dependencies@, dependency);
                        }
                        dependencies.push(dependency);
                    },
                    None => {
                        let unresolved = name.clone();
                        proof {
                            views_push(external@, unresolved);
                        }
                        external.push(unresolved);
                    },
                },
            }
            i += 1;
        }
        assert(names.take(relations.len() as int) =~= names);
        proof {
            every_reference_is_recorded(self@, names);
        }
        DerivedTableLineage::complete(dependencies, external, cte_names)
    }

    /// Captures what a SQL text reads, from its parsed form.
    pub fn derive_table_lineage_from_sql(&self, sql: &str) -> (r: DerivedTableLineage)
        ensures
            r@ == sql_lineage(self@, sql@),
    {
        let statements = match parse_sql(sql) {
            Ok(statements) => statements,
            Err(message) => {
                return DerivedTableLineage::incomplete(message.as_str());
            },
        };
        if statements.len() != 1 {
            return DerivedTableLineage::incomplete("expected exactly one SQL statement");
        }
        match table_references(&statements[0], true) {
            Ok((relations, cte_names)) => self.lineage_from_references(relations, cte_names),
            Err(message) => DerivedTableLineage::incomplete(message.as_str()),
        }
    }

    /// Keeps a SQL-derived table, from what planning its text gave.
    ///
    /// Planning admits queries alone; its outcome for the trimmed text is handed in. Session
    /// state changes only when a plan came back.
    pub fn table_from_sql(&mut self, sql: &str, planned: Result<DataFrame, String>) -> (r: Result<
        LazyTable,
        DeltaFunnelError,
    >)
        ensures
            if trim_text(sql@).len() == 0 {
                (r matches Err(e) && e@ == empty_sql()) && final(self)@ == old(self)@
            } else {
                match planned {
                    Err(message) => (r matches Err(e) && e@ == (ErrorView::SqlTable {
                        phase: sql_error_phase(message@),
                        message: message@,
                    })) && final(self)@ == old(self)@,
                    Ok(dataframe) => (r matches Ok(table) && table@ == planned_table(
                        old(self)@,
                        trim_text(sql@),
                        dataframe,
                    ).table) && final(self)@ == with_planned(
                        old(self)@,
                        trim_text(sql@),
                        dataframe,
                    ),
                }
            },
    {
        let text = match self.prepare_table_sql(sql) {
            Ok(text) => text,
            Err(e) => {
                return Err(e);
            },
        };
        let dataframe = match planned {
            Ok(dataframe) => dataframe,
            Err(message) => {
                let phase = classify_sql_error_phase(message.as_str());
                return Err(sql_table_error(phase, message));
            },
        };
        let schema = schema_of(&dataframe);
        let lineage = self.derive_table_lineage_from_sql(text.as_str());
        let table = self.allocate_derived_sql_table();
        let entry = PendingDerivedTable::new(table.clone(), dataframe, schema, text, lineage);
        proof {
            views_push(self.pending_derived_tables@, entry);
        }
        self.pending_derived_tables.push(entry);
        Ok(table)
    }

    /// Keeps the alias of the pending table at a position, from what the catalog answered.
    pub fn complete_alias(&mut self, index: usize, registered: Result<CatalogEntry, String>) -> (r:
        Result<LazyTable, DeltaFunnelError>)
        requires
            index < old(self)@.pending.len(),
        ensures
            match registered {
                Ok(entry) => (r matches Ok(alias) && alias@ == entered_derived(
                    old(self)@.pending[index as int],
                    entry@,
                ).table) && final(self)@ == with_entry(old(self)@, index as int, entry@),
                Err(message) => (r matches Err(e) && e@ == (ErrorView::SqlTable {
                    phase: SqlTablePhase::RegisterDerivedAlias,
                    message: message@,
                })) && final(self)@ == with_refused_alias(old(self)@, index as int),
            },
    {
        let ghost before = self.pending_derived_tables@;
        let pending = self.pending_derived_tables.remove(index);
        assert(views(self.pending_derived_tables@) =~= views(before).remove(index as int));
        match registered {
            Err(message) => {
                proof {
                    views_push(self.pending_derived_tables@, pending);
                }
                self.pending_derived_tables.push(pending);
                Err(sql_table_error(SqlTablePhase::RegisterDerivedAlias, message))
            },
            Ok(entry) => {
                let derived = pending.into_entered(entry);
                let alias = derived.table().clone();
                proof {
                    views_push(self.derived_tables@, derived);
                }
                self.derived_tables.push(derived);
                Ok(alias)
            },
        }
    }

    /// Registers a session-owned alias for a lazy SQL-derived table.
    ///
    /// The query of the table is put into the catalog under the alias, and only after all local
    /// validation succeeds. A table whose alias the catalog refuses stays pending.
    pub fn register_alias(&mut self, name: &str, table: &LazyTable) -> (r: Result<
        LazyTable,
        DeltaFunnelError,
    >)
        ensures
            match alias_problem(old(self)@, name@, table@) {
                Some(problem) => (r matches Err(e) && e@ == problem) && final(self)@ == old(self)@,
                None => {
                    let i = pending_position(old(self)@, table@)->0;
                    match r {
                        Ok(alias) => alias@ == (LazyTableView {
                            name: name@,
                            ..old(self)@.pending[i].table
                        }) && final(self)@ == with_alias(old(self)@, i, name@),
                        Err(e) => (e@ matches ErrorView::SqlTable { phase, .. } && phase
                            == SqlTablePhase::RegisterDerivedAlias) && final(self)@
                            == with_refused_alias(old(self)@, i),
                    }
                },
            },
    {
        match validate_table_source_name(name) {
            Ok(_) => {},
            Err(e) => {
                return Err(e);
            },
        }
        match self.reject_registered_alias_name(name) {
            Ok(_) => {},
            Err(e) => {
                return Err(e);
            },
        }
        let index: usize = match self.find_pending_derived_table(table) {
            Some(index) => index,
            None => {
                return Err(
                    sql_table_error(
                        SqlTablePhase::RegisterDerivedAlias,
                        "lazy table is not a pending SQL-derived table owned by this session".to_owned(),
                    ),
                );
            },
        };
        let registered = register_view(
            &self.context,
            name,
            self.pending_derived_tables[index].dataframe(),
        );
        self.complete_alias(index, registered)
    }

    /// Finds the pending table that a handle stands for.
    pub fn find_pending_derived_table(&self, table: &LazyTable) -> (r: Option<usize>)
        ensures
            match r {
                Some(i) => pending_position(self@, table@) == Some(i as int) && i
                    < self@.pending.len(),
                None => pending_position(self@, table@) is None,
            },
    {
        if table.kind() != LazyTableKind::DerivedSql {
            return None;
        }
        find_pending_by_id(&self.pending_derived_tables, table.id())
    }

    /// Resolves the registered alias that a handle stands for.
    ///
    /// Raw sources, pending derived tables and unknown handles are rejected.
    pub fn registered_derived_for_scoped_cache_alias(&self, table: &LazyTable) -> (r: Result<
        &RegisteredDerivedTable,
        DeltaFunnelError,
    >)
        ensures
            match r {
                Ok(d) => table@.kind == LazyTableKind::DerivedSql && first_match(
                    self@.derived,
                    derived_has_id(table@.id),
                ) == Some(d@),
                Err(e) => (table@.kind != LazyTableKind::DerivedSql || first_match(
                    self@.derived,
                    derived_has_id(table@.id),
                ) is None) && e@ == unknown_lazy_table(table@.name),
            },
    {
        if table.kind() != LazyTableKind::DerivedSql {
            return Err(unknown_lazy_table_error(table.name()));
        }
        match self.registered_derived_table_by_id(table.id()) {
            Some(derived) => Ok(derived),
            None => Err(unknown_lazy_table_error(table.name())),
        }
    }

    /// Returns the retained SQL text of a derived table, registered or pending.
    pub fn sql_text_for_derived_table(&self, table: &LazyTable) -> (r: Result<
        &str,
        DeltaFunnelError,
    >)
        ensures
            match known_sql_text(self@, table@) {
                Some(text) => r matches Ok(t) && t@ == text,
                None => r matches Err(e) && e@ == unknown_lazy_table(table@.name),
            },
    {
        if table.kind() != LazyTableKind::DerivedSql {
            return Err(unknown_lazy_table_error(table.name()));
        }
        match self.registered_derived_table_by_id(table.id()) {
            Some(derived) => Ok(derived.sql_text()),
            None => match find_pending_by_id(&self.pending_derived_tables, table.id()) {
                Some(i) => {
                    assert(self@.pending[i as int] == self.pending_derived_tables@[i as int]@);
                    Ok(self.pending_derived_tables[i].sql_text())
                },
                None => Err(unknown_lazy_table_error(table.name())),
            },
        }
    }

    /// Returns the schema of the table that a handle stands for.
    pub fn schema_for_lazy_table(&self, table: &LazyTable) -> (r: Result<
        &Arc<Schema>,
        DeltaFunnelError,
    >)
        ensures
            match known_schema(self@, table@) {
                Some(schema) => r matches Ok(s) && **s == schema,
                None => r matches Err(e) && e@ == unknown_lazy_table(table@.name),
            },
    {
        match table.kind() {
            LazyTableKind::DeltaSource => match find_source_by_id(&self.sources, table.id()) {
                Some(i) => {
                    assert(self@.sources[i as int] == self.sources@[i as int]@);
                    Ok(self.sources[i].schema())
                },
                None => Err(unknown_lazy_table_error(table.name())),
            },
            LazyTableKind::DerivedSql => match self.registered_derived_table_by_id(table.id()) {
                Some(derived) => Ok(derived.schema()),
                None => match find_pending_by_id(&self.pending_derived_tables, table.id()) {
                    Some(i) => {
                        assert(self@.pending[i as int] == self.pending_derived_tables@[i as int]@);
                        Ok(self.pending_derived_tables[i].schema())
                    },
                    None => Err(unknown_lazy_table_error(table.name())),
                },
            },
        }
    }

    /// Finds out how the rows of a lazy table are reached.
    ///
    /// Registered tables are reached through the catalog under their name. For a pending table
    /// the scan of its own query is planned here; where the engine refuses it, that is the error.
    pub fn dataframe_for_lazy_table(&self, table: &LazyTable) -> (r: Result<
        LazyTableRead,
        DeltaFunnelError,
    >)
        ensures
            match catalog_name(self@, table@) {
                Some(name) => r matches Ok(LazyTableRead::CatalogTable(n)) && n@ == name,
                None => if pending_position(self@, table@) is None {
                    r matches Err(e) && e@ == unknown_lazy_table(table@.name)
                } else {
                    let pending = self@.pending[pending_position(self@, table@)->0];
                    match view_scan(dataframe_plan(pending.dataframe)) {
                        Ok(plan) => r matches Ok(LazyTableRead::Planned(scan)) && dataframe_plan(
                            scan,
                        ) == plan && dataframe_schema(scan) == dataframe_schema(pending.dataframe),
                        Err(message) => r matches Err(e) && e@ == handoff_setup(
                            "pending_table"@,
                            message,
                        ),
                    }
                },
            },
            forall|k: int|
                0 <= k < self@.sources.len() && table@.kind == LazyTableKind::DeltaSource && (
                #[trigger] self@.sources[k]).table.id == table@.id && (forall|j: int|
                    0 <= j < k ==> (#[trigger] self@.sources[j]).table.id != table@.id) ==> (
                r matches Ok(LazyTableRead::CatalogTable(n)) && n@ == self@.sources[k].table.name),
            forall|k: int|
                0 <= k < self@.derived.len() && table@.kind == LazyTableKind::DerivedSql && (
                #[trigger] self@.derived[k]).table.id == table@.id && (forall|j: int|
                    0 <= j < k ==> (#[trigger] self@.derived[j]).table.id != table@.id) ==> (
                r matches Ok(LazyTableRead::CatalogTable(n)) && n@ == self@.derived[k].table.name),
    {
        proof {
            first_position_facts(self@.sources, source_has_id(table@.id));
            first_position_facts(self@.derived, derived_has_id(table@.id));
            assert forall|k: int|
                0 <= k < self@.sources.len() && (#[trigger] self@.sources[k]).table.id == table@.id
                implies source_has_id(table@.id)(self@.sources[k]) by {}
            assert forall|k: int|
                0 <= k < self@.derived.len() && (#[trigger] self@.derived[k]).table.id == table@.id
                implies derived_has_id(table@.id)(self@.derived[k]) by {}
        }
        match table.kind() {
            LazyTableKind::DeltaSource => match find_source_by_id(&self.sources, table.id()) {
                Some(i) => {
                    assert(self@.sources[i as int] == self.sources@[i as int]@);
                    Ok(LazyTableRead::CatalogTable(self.sources[i].name().to_owned()))
                },
                None => Err(unknown_lazy_table_error(table.name())),
            },
            LazyTableKind::DerivedSql => match self.registered_derived_table_by_id(table.id()) {
                Some(derived) => Ok(LazyTableRead::CatalogTable(derived.name().to_owned())),
                None => match find_pending_by_id(&self.pending_derived_tables, table.id()) {
                    Some(i) => {
                        assert(self@.pending[i as int] == self.pending_derived_tables@[i as int]@);
                        let planned = read_view(
                            &self.context,
                            self.pending_derived_tables[i].dataframe(),
                        );
                        pending_read(planned)
                    },
                    None => Err(unknown_lazy_table_error(table.name())),
                },
            },
        }
    }
}

/// Takes up the planned scan of a pending table, or why there is none.
pub fn pending_read(planned: Result<DataFrame, String>) -> (r: Result<
    LazyTableRead,
    DeltaFunnelError,
>)
    ensures
        match planned {
            Ok(dataframe) => r matches Ok(LazyTableRead::Planned(d)) && d == dataframe,
            Err(message) => r matches Err(e) && e@ == handoff_setup("pending_table"@, message@),
        },
{
    match planned {
        Ok(dataframe) => Ok(LazyTableRead::Planned(dataframe)),
        Err(message) => Err(datafusion_handoff_setup_error("pending_table", message.as_str())),
    }
}

/// Takes up the planned scan of a registered table, or why there is none.
pub fn registered_read(planned: Result<DataFrame, String>) -> (r: Result<
    DataFrame,
    DeltaFunnelError,
>)
    ensures
        match planned {
            Ok(dataframe) => r matches Ok(d) && d == dataframe,
            Err(message) => r matches Err(e) && e@ == handoff_setup("registered_table"@, message@),
        },
{
    match planned {
        Ok(dataframe) => Ok(dataframe),
        Err(message) => Err(datafusion_handoff_setup_error("registered_table", message.as_str())),
    }
}

/// The debug forms of some sources.
pub open spec fn source_debugs(sources: Seq<SourceView>) -> Seq<Seq<char>> {
    Seq::new(sources.len(), |i: int| source_debug(sources[i]))
}

/// The debug forms of some derived aliases.
pub open spec fn derived_debugs(derived: Seq<DerivedView>) -> Seq<Seq<char>> {
    Seq::new(derived.len(), |i: int| derived_debug(derived[i]))
}

/// The debug form of a session.
pub open spec fn session_debug(session: SessionView) -> Seq<char> {
    "DeltaFunnelSession { options: "@ + session_options_debug(session.options) + ", sources: "@
        + listed(source_debugs(session.sources)) + ", derived_tables: "@ + listed(
        derived_debugs(session.derived),
    ) + ", next_table_id: "@ + decimal(session.next_table_id as nat) + ", .. }"@
}

/// Writes the debug form of some sources.
fn sources_debug_text(sources: &Vec<RegisteredSessionSource>) -> (r: String)
    ensures
        r@ == listed(source_debugs(views(sources@))),
{
    let ghost wanted = source_debugs(views(sources@));
    let mut shown: Vec<String> = Vec::new();
    let mut i: usize = 0;
    assert(views(shown@) =~= wanted.take(0));
    while i < sources.len()
        invariant
            i <= sources.len(),
            wanted == source_debugs(views(sources@)),
            views(shown@) == wanted.take(i as int),
        decreases sources.len() - i,
    {
        let text = sources[i].debug_text();
        proof {
            views_push(shown@, text);
            assert(wanted[i as int] == text@);
            assert(wanted.take(i + 1) =~= wanted.take(i as int).push(text@));
        }
        shown.push(text);
        i += 1;
    }
    assert(wanted.take(sources.len() as int) =~= wanted);
    assert(views(shown@) == wanted);
    listed_text(&shown)
}

/// Writes the debug form of some derived aliases.
fn derived_tables_debug_text(derived: &Vec<RegisteredDerivedTable>) -> (r: String)
    ensures
        r@ == listed(derived_debugs(views(derived@))),
{
    let ghost wanted = derived_debugs(views(derived@));
    let mut shown: Vec<String> = Vec::new();
    let mut i: usize = 0;
    assert(views(shown@) =~= wanted.take(0));
    while i < derived.len()
        invariant
            i <= derived.len(),
            wanted == derived_debugs(views(derived@)),
            views(shown@) == wanted.take(i as int),
        decreases derived.len() - i,
    {
        let text = derived[i].debug_text();
        proof {
            views_push(shown@, text);
            assert(wanted[i as int] == text@);
            assert(wanted.take(i + 1) =~= wanted.take(i as int).push(text@));
        }
        shown.push(text);
        i += 1;
    }
    assert(wanted.take(derived.len() as int) =~= wanted);
    assert(views(shown@) == wanted);
    listed_text(&shown)
}

impl DeltaFunnelSession {
    /// Returns the debug form; it shows no connection string and no SQL text.
    pub fn debug_text(&self) -> (r: String)
        ensures
            r@ == session_debug(self@),
    {
        let mut r = "DeltaFunnelSession { options: ".to_owned();
        r.append(self.options.debug_text().as_str());
        r.append(", sources: ");
        r.append(sources_debug_text(&self.sources).as_str());
        r.append(", derived_tables: ");
        r.append(derived_tables_debug_text(&self.derived_tables).as_str());
        r.append(", next_table_id: ");
        r.append(decimal_text(self.next_table_id).as_str());
        r.append(", .. }");
        r
    }
}

/// A session without what must not be shown: the connection string of its default connection
/// and the SQL texts of its aliases.
pub open spec fn without_secrets(session: SessionView) -> SessionView {
    SessionView {
        options: SessionOptionsView {
            default_mssql_connection: match session.options.default_mssql_connection {
                Some(connection) => Some(
                    ConnectionView { connection_string: ""@, ..connection },
                ),
                None => None,
            },
            ..session.options
        },
        derived: Seq::new(
            session.derived.len(),
            |i: int| DerivedView { sql_text: ""@, ..session.derived[i] },
        ),
        ..session
    }
}

/// The debug form of a session says nothing of its connection string or of its SQL texts.
pub proof fn session_debug_hides_secrets(session: SessionView)
    ensures
        session_debug(session) == session_debug(without_secrets(session)),
{
    assert(derived_debugs(session.derived) =~= derived_debugs(without_secrets(session).derived));
}

} // verus!
