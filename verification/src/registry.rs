//! Tables that a session has registered or planned.

use std::sync::Arc;

use datafusion::arrow::datatypes::Schema;
use datafusion::prelude::DataFrame;
use vstd::prelude::*;

use crate::debug::{
    braced, braced_text, lineage_debug, lineage_debug_text, named, named_text, protocol_debug,
    protocol_debug_text, schema_debug, schema_debug_text, table_debug, table_debug_text,
};
use crate::engine::{CatalogEntry, CatalogEntryView, dataframe_plan};
use crate::handles::{LazyTable, LazyTableView};
use crate::lineage::{DerivedTableLineage, LineageView};
use crate::report::{opt_view, views};
use crate::search::{first_position, first_position_is, first_position_is_none};
use crate::target::{quoted, quoted_text};
use crate::text::{decimal, decimal_text, identifiers_match, same_identifier};

verus! {

/// What is known of a source's protocol.
pub struct ProtocolView {
    pub source_name: Seq<char>,
    pub min_reader_version: i32,
    pub min_writer_version: i32,
}

/// Protocol versions that were checked before a source was registered.
#[derive(Debug, PartialEq, Eq)]
pub struct DeltaProtocolReport {
    /// Alias of the source.
    pub source_name: String,
    /// Least reader version that the table asks for.
    pub min_reader_version: i32,
    /// Least writer version that the table asks for.
    pub min_writer_version: i32,
}

impl Clone for DeltaProtocolReport {
    fn clone(&self) -> (r: Self)
        ensures
            r == *self,
    {
        DeltaProtocolReport {
            source_name: self.source_name.clone(),
            min_reader_version: self.min_reader_version,
            min_writer_version: self.min_writer_version,
        }
    }
}

impl View for DeltaProtocolReport {
    type V = ProtocolView;

    open spec fn view(&self) -> ProtocolView {
        ProtocolView {
            source_name: self.source_name@,
            min_reader_version: self.min_reader_version,
            min_writer_version: self.min_writer_version,
        }
    }
}

/// A Delta source that has just been loaded, checked and put into the catalog.
pub struct RegisteredDeltaSource {
    /// Alias of the source.
    pub name: String,
    /// Source location, safe to show.
    pub table_uri: String,
    /// Snapshot version that was resolved.
    pub snapshot_version: u64,
    /// Columns of the table.
    pub schema: Arc<Schema>,
    /// Checked protocol versions.
    pub protocol: DeltaProtocolReport,
}

/// What a registered source says.
pub struct SourceView {
    pub table: LazyTableView,
    pub source_uri: Seq<char>,
    pub snapshot_version: u64,
    pub schema: Schema,
    pub protocol: ProtocolView,
}

/// Registered Delta source tracked by a query-load session.
#[derive(PartialEq, Eq)]
pub struct RegisteredSessionSource {
    table: LazyTable,
    source_uri: String,
    snapshot_version: u64,
    schema: Arc<Schema>,
    protocol: DeltaProtocolReport,
}

impl View for RegisteredSessionSource {
    type V = SourceView;

    closed spec fn view(&self) -> SourceView {
        SourceView {
            table: self.table@,
            source_uri: self.source_uri@,
            snapshot_version: self.snapshot_version,
            schema: *self.schema,
            protocol: self.protocol@,
        }
    }
}

/// The session entry for a loaded source.
pub open spec fn session_source(table: LazyTableView, registered: RegisteredDeltaSource) -> SourceView {
    SourceView {
        table,
        source_uri: registered.table_uri@,
        snapshot_version: registered.snapshot_version,
        schema: *registered.schema,
        protocol: registered.protocol@,
    }
}

impl RegisteredSessionSource {
    /// Makes the session entry for a loaded source.
    pub fn from_registered(table: LazyTable, registered: RegisteredDeltaSource) -> (r: Self)
        ensures
            r@ == session_source(table@, registered),
    {
        RegisteredSessionSource {
            table,
            source_uri: registered.table_uri,
            snapshot_version: registered.snapshot_version,
            schema: registered.schema,
            protocol: registered.protocol,
        }
    }

    /// Returns the lazy table handle for this registered source.
    pub fn table(&self) -> (r: &LazyTable)
        ensures
            r@ == self@.table,
    {
        &self.table
    }

    /// Returns the catalog table name for this source.
    pub fn name(&self) -> (r: &str)
        ensures
            r@ == self@.table.name,
    {
        self.table.name()
    }

    /// Returns the source location, safe to show.
    pub fn source_uri(&self) -> (r: &str)
        ensures
            r@ == self@.source_uri,
    {
        self.source_uri.as_str()
    }

    /// Returns the resolved Delta snapshot version.
    pub fn snapshot_version(&self) -> (r: u64)
        ensures
            r == self@.snapshot_version,
    {
        self.snapshot_version
    }

    /// Returns the logical schema of the source.
    pub fn schema(&self) -> (r: &Arc<Schema>)
        ensures
            **r == self@.schema,
    {
        &self.schema
    }

    /// Returns the protocol report captured before registration.
    pub fn protocol(&self) -> (r: &DeltaProtocolReport)
        ensures
            r@ == self@.protocol,
    {
        &self.protocol
    }
}

/// The debug form of a registered source.
pub open spec fn source_debug(source: SourceView) -> Seq<char> {
    braced(
        "RegisteredSessionSource"@,
        seq![
            named("table"@, table_debug(source.table)),
            named("source_uri"@, quoted_text(source.source_uri)),
            named("snapshot_version"@, decimal(source.snapshot_version as nat)),
            named("schema"@, schema_debug(source.schema)),
            named("protocol"@, protocol_debug(source.protocol)),
        ],
    )
}

impl RegisteredSessionSource {
    /// Returns the debug form.
    pub fn debug_text(&self) -> (r: String)
        ensures
            r@ == source_debug(self@),
    {
        let table = table_debug_text(&self.table);
        let uri = quoted(self.source_uri.as_str());
        let version = decimal_text(self.snapshot_version);
        let schema = schema_debug_text(&self.schema);
        let protocol = protocol_debug_text(&self.protocol);
        let mut fields: Vec<String> = Vec::new();
        fields.push(named_text("table", table.as_str()));
        fields.push(named_text("source_uri", uri.as_str()));
        fields.push(named_text("snapshot_version", version.as_str()));
        fields.push(named_text("schema", schema.as_str()));
        fields.push(named_text("protocol", protocol.as_str()));
        assert(views(fields@) =~= seq![
            fields@[0]@,
            fields@[1]@,
            fields@[2]@,
            fields@[3]@,
            fields@[4]@,
        ]);
        braced_text("RegisteredSessionSource", &fields)
    }
}

/// What a registered derived alias says.
pub struct DerivedView {
    pub table: LazyTableView,
    pub schema: Schema,
    pub sql_text: Seq<char>,
    pub lineage: LineageView,
    pub catalog_entry: Option<CatalogEntryView>,
}

/// Registered SQL-derived table alias tracked by a query-load session.
#[derive(PartialEq, Eq)]
pub struct RegisteredDerivedTable {
    table: LazyTable,
    schema: Arc<Schema>,
    sql_text: String,
    lineage: DerivedTableLineage,
    catalog_entry: Option<CatalogEntry>,
}

impl View for RegisteredDerivedTable {
    type V = DerivedView;

    closed spec fn view(&self) -> DerivedView {
        DerivedView {
            table: self.table@,
            schema: *self.schema,
            sql_text: self.sql_text@,
            lineage: self.lineage@,
            catalog_entry: opt_view(self.catalog_entry),
        }
    }
}

/// The debug form of a registered derived alias. The retained SQL text is not shown.
pub open spec fn derived_debug(derived: DerivedView) -> Seq<char> {
    braced(
        "RegisteredDerivedTable"@,
        seq![
            named("table"@, table_debug(derived.table)),
            named("schema"@, schema_debug(derived.schema)),
            named("sql_text"@, quoted_text("<redacted>"@)),
            named("lineage"@, lineage_debug(derived.lineage)),
        ],
    )
}

impl RegisteredDerivedTable {
    /// Collects what is kept of an alias that the catalog does not hold.
    pub fn new(
        table: LazyTable,
        schema: Arc<Schema>,
        sql_text: String,
        lineage: DerivedTableLineage,
    ) -> (r: Self)
        ensures
            r@ == (DerivedView {
                table: table@,
                schema: *schema,
                sql_text: sql_text@,
                lineage: lineage@,
                catalog_entry: None,
            }),
    {
        RegisteredDerivedTable { table, schema, sql_text, lineage, catalog_entry: None }
    }

    /// Returns what the catalog has taken up for this alias.
    pub fn catalog_entry(&self) -> (r: Option<&CatalogEntry>)
        ensures
            match r {
                Some(entry) => self@.catalog_entry == Some(entry@),
                None => self@.catalog_entry is None,
            },
    {
        self.catalog_entry.as_ref()
    }

    /// Returns the lazy table handle for this registered derived alias.
    pub fn table(&self) -> (r: &LazyTable)
        ensures
            r@ == self@.table,
    {
        &self.table
    }

    /// Returns the catalog table name for this derived alias.
    pub fn name(&self) -> (r: &str)
        ensures
            r@ == self@.table.name,
    {
        self.table.name()
    }

    /// Returns the logical schema of the alias.
    pub fn schema(&self) -> (r: &Arc<Schema>)
        ensures
            **r == self@.schema,
    {
        &self.schema
    }

    /// Returns the retained SQL text used to create this derived alias.
    pub fn sql_text(&self) -> (r: &str)
        ensures
            r@ == self@.sql_text,
    {
        self.sql_text.as_str()
    }

    /// Returns dependency lineage captured from the retained SQL text.
    pub fn lineage(&self) -> (r: &DerivedTableLineage)
        ensures
            r@ == self@.lineage,
    {
        &self.lineage
    }

    /// Returns the debug form; it shows nothing of the retained SQL text.
    pub fn debug_text(&self) -> (r: String)
        ensures
            r@ == derived_debug(self@),
    {
        let table = table_debug_text(&self.table);
        let schema = schema_debug_text(&self.schema);
        let lineage = lineage_debug_text(&self.lineage);
        let mut fields: Vec<String> = Vec::new();
        fields.push(named_text("table", table.as_str()));
        fields.push(named_text("schema", schema.as_str()));
        fields.push(named_text("sql_text", quoted("<redacted>").as_str()));
        fields.push(named_text("lineage", lineage.as_str()));
        assert(views(fields@) =~= seq![fields@[0]@, fields@[1]@, fields@[2]@, fields@[3]@]);
        braced_text("RegisteredDerivedTable", &fields)
    }
}

/// The debug form of an alias is the same for every SQL text.
pub proof fn derived_debug_hides_sql_text(derived: DerivedView, other: Seq<char>)
    ensures
        derived_debug(derived) == derived_debug(DerivedView { sql_text: other, ..derived }),
{
}

/// What a pending derived table says.
pub struct PendingView {
    pub table: LazyTableView,
    pub dataframe: DataFrame,
    pub schema: Schema,
    pub sql_text: Seq<char>,
    pub lineage: LineageView,
}

/// SQL-derived table that has no alias yet.
pub struct PendingDerivedTable {
    table: LazyTable,
    dataframe: DataFrame,
    schema: Arc<Schema>,
    sql_text: String,
    lineage: DerivedTableLineage,
}

impl View for PendingDerivedTable {
    type V = PendingView;

    closed spec fn view(&self) -> PendingView {
        PendingView {
            table: self.table@,
            dataframe: self.dataframe,
            schema: *self.schema,
            sql_text: self.sql_text@,
            lineage: self.lineage@,
        }
    }
}

/// The registered form of a pending table for a catalog entry: it has the entry's name.
pub open spec fn entered_derived(pending: PendingView, entry: CatalogEntryView) -> DerivedView {
    DerivedView {
        table: LazyTableView { name: entry.name, ..pending.table },
        schema: pending.schema,
        sql_text: pending.sql_text,
        lineage: pending.lineage,
        catalog_entry: Some(entry),
    }
}

/// The registered form of a pending table under a name: the catalog holds the table's own query
/// under that name.
pub open spec fn named_derived(pending: PendingView, name: Seq<char>) -> DerivedView {
    entered_derived(pending, CatalogEntryView { name, plan: dataframe_plan(pending.dataframe) })
}

impl PendingDerivedTable {
    /// Collects what is kept of a planned derived table.
    pub fn new(
        table: LazyTable,
        dataframe: DataFrame,
        schema: Arc<Schema>,
        sql_text: String,
        lineage: DerivedTableLineage,
    ) -> (r: Self)
        ensures
            r@ == (PendingView {
                table: table@,
                dataframe,
                schema: *schema,
                sql_text: sql_text@,
                lineage: lineage@,
            }),
    {
        PendingDerivedTable { table, dataframe, schema, sql_text, lineage }
    }

    /// Returns the lazy table handle.
    pub fn table(&self) -> (r: &LazyTable)
        ensures
            r@ == self@.table,
    {
        &self.table
    }

    /// Returns the planned query.
    pub fn dataframe(&self) -> (r: &DataFrame)
        ensures
            *r == self@.dataframe,
    {
        &self.dataframe
    }

    /// Returns the logical schema.
    pub fn schema(&self) -> (r: &Arc<Schema>)
        ensures
            **r == self@.schema,
    {
        &self.schema
    }

    /// Returns the retained SQL text.
    pub fn sql_text(&self) -> (r: &str)
        ensures
            r@ == self@.sql_text,
    {
        self.sql_text.as_str()
    }

    /// Returns the captured lineage.
    pub fn lineage(&self) -> (r: &DerivedTableLineage)
        ensures
            r@ == self@.lineage,
    {
        &self.lineage
    }

    /// Turns the table into the registered alias for a catalog entry.
    pub fn into_entered(self, entry: CatalogEntry) -> (r: RegisteredDerivedTable)
        ensures
            r@ == entered_derived(self@, entry@),
    {
        RegisteredDerivedTable {
            table: self.table.with_name(entry.name().to_owned()),
            schema: self.schema,
            sql_text: self.sql_text,
            lineage: self.lineage,
            catalog_entry: Some(entry),
        }
    }
}

/// A source has an id.
pub open spec fn source_has_id(id: u64) -> spec_fn(SourceView) -> bool {
    |source: SourceView| source.table.id == id
}

/// A source has a name, as an unquoted SQL identifier.
pub open spec fn source_has_name(name: Seq<char>) -> spec_fn(SourceView) -> bool {
    |source: SourceView| same_identifier(source.table.name, name)
}

/// A derived alias has an id.
pub open spec fn derived_has_id(id: u64) -> spec_fn(DerivedView) -> bool {
    |derived: DerivedView| derived.table.id == id
}

/// A derived alias has a name, as an unquoted SQL identifier.
pub open spec fn derived_has_name(name: Seq<char>) -> spec_fn(DerivedView) -> bool {
    |derived: DerivedView| same_identifier(derived.table.name, name)
}

/// A pending derived table has an id.
pub open spec fn pending_has_id(id: u64) -> spec_fn(PendingView) -> bool {
    |pending: PendingView| pending.table.id == id
}

/// Finds the first source with an id.
pub fn find_source_by_id(sources: &Vec<RegisteredSessionSource>, id: u64) -> (r: Option<usize>)
    ensures
        match r {
            Some(i) => first_position(views(sources@), source_has_id(id)) == Some(i as int),
            None => first_position(views(sources@), source_has_id(id)) is None,
        },
        r matches Some(i) ==> i < sources.len(),
{
    let ghost viewed = views(sources@);
    let ghost p = source_has_id(id);
    let mut i: usize = 0;
    while i < sources.len()
        invariant
            i <= sources.len(),
            viewed == views(sources@),
            p == source_has_id(id),
            forall|k: int| 0 <= k < i ==> !p(#[trigger] viewed[k]),
        decreases sources.len() - i,
    {
        assert(viewed[i as int] == sources@[i as int]@);
        if sources[i].table().id() == id {
            proof {
                first_position_is(viewed, p, i as int);
            }
            return Some(i);
        }
        i += 1;
    }
    proof {
        first_position_is_none(viewed, p);
    }
    None
}

/// Finds the first source with a name, as an unquoted SQL identifier.
pub fn find_source_by_name(sources: &Vec<RegisteredSessionSource>, name: &str) -> (r: Option<usize>)
    ensures
        match r {
            Some(i) => first_position(views(sources@), source_has_name(name@)) == Some(i as int),
            None => first_position(views(sources@), source_has_name(name@)) is None,
        },
        r matches Some(i) ==> i < sources.len(),
{
    let ghost viewed = views(sources@);
    let ghost p = source_has_name(name@);
    let mut i: usize = 0;
    while i < sources.len()
        invariant
            i <= sources.len(),
            viewed == views(sources@),
            p == source_has_name(name@),
            forall|k: int| 0 <= k < i ==> !p(#[trigger] viewed[k]),
        decreases sources.len() - i,
    {
        assert(viewed[i as int] == sources@[i as int]@);
        if identifiers_match(sources[i].name(), name) {
            proof {
                first_position_is(viewed, p, i as int);
            }
            return Some(i);
        }
        i += 1;
    }
    proof {
        first_position_is_none(viewed, p);
    }
    None
}

/// Finds the first derived alias with an id.
pub fn find_derived_by_id(derived: &Vec<RegisteredDerivedTable>, id: u64) -> (r: Option<usize>)
    ensures
        match r {
            Some(i) => first_position(views(derived@), derived_has_id(id)) == Some(i as int),
            None => first_position(views(derived@), derived_has_id(id)) is None,
        },
        r matches Some(i) ==> i < derived.len(),
{
    let ghost viewed = views(derived@);
    let ghost p = derived_has_id(id);
    let mut i: usize = 0;
    while i < derived.len()
        invariant
            i <= derived.len(),
            viewed == views(derived@),
            p == derived_has_id(id),
            forall|k: int| 0 <= k < i ==> !p(#[trigger] viewed[k]),
        decreases derived.len() - i,
    {
        assert(viewed[i as int] == derived@[i as int]@);
        if derived[i].table().id() == id {
            proof {
                first_position_is(viewed, p, i as int);
            }
            return Some(i);
        }
        i += 1;
    }
    proof {
        first_position_is_none(viewed, p);
    }
    None
}

/// Finds the first derived alias with a name, as an unquoted SQL identifier.
pub fn find_derived_by_name(derived: &Vec<RegisteredDerivedTable>, name: &str) -> (r: Option<usize>)
    ensures
        match r {
            Some(i) => first_position(views(derived@), derived_has_name(name@)) == Some(i as int),
            None => first_position(views(derived@), derived_has_name(name@)) is None,
        },
        r matches Some(i) ==> i < derived.len(),
{
    let ghost viewed = views(derived@);
    let ghost p = derived_has_name(name@);
    let mut i: usize = 0;
    while i < derived.len()
        invariant
            i <= derived.len(),
            viewed == views(derived@),
            p == derived_has_name(name@),
            forall|k: int| 0 <= k < i ==> !p(#[trigger] viewed[k]),
        decreases derived.len() - i,
    {
        assert(viewed[i as int] == derived@[i as int]@);
        if identifiers_match(derived[i].name(), name) {
            proof {
                first_position_is(viewed, p, i as int);
            }
            return Some(i);
        }
        i += 1;
    }
    proof {
        first_position_is_none(viewed, p);
    }
    None
}

/// Finds the first pending derived table with an id.
pub fn find_pending_by_id(pending: &Vec<PendingDerivedTable>, id: u64) -> (r: Option<usize>)
    ensures
        match r {
            Some(i) => first_position(views(pending@), pending_has_id(id)) == Some(i as int),
            None => first_position(views(pending@), pending_has_id(id)) is None,
        },
        r matches Some(i) ==> i < pending.len(),
{
    let ghost viewed = views(pending@);
    let ghost p = pending_has_id(id);
    let mut i: usize = 0;
    while i < pending.len()
        invariant
            i <= pending.len(),
            viewed == views(pending@),
            p == pending_has_id(id),
            forall|k: int| 0 <= k < i ==> !p(#[trigger] viewed[k]),
        decreases pending.len() - i,
    {
        assert(viewed[i as int] == pending@[i as int]@);
        if pending[i].table().id() == id {
            proof {
                first_position_is(viewed, p, i as int);
            }
            return Some(i);
        }
        i += 1;
    }
    proof {
        first_position_is_none(viewed, p);
    }
    None
}

} // verus!
