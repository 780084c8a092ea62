//! Debug forms: what a value holds, on one line.

use datafusion::arrow::datatypes::Schema;
use vstd::prelude::*;
use vstd::string::StringExecFns;

use crate::engine::{
    SchemaFieldView, schema_field_name, schema_field_nullable, schema_field_type_text,
    schema_fields, schema_len,
};
use crate::handles::{LazyTable, LazyTableKind, LazyTableView};
use crate::lineage::{DependencyView, DerivedTableDependency, DerivedTableLineage, LineageView};
use crate::registry::{DeltaProtocolReport, ProtocolView};
use crate::report::{views, views_push};
use crate::target::{quoted, quoted_text};
use crate::text::{decimal, decimal_text, joined, listed, listed_text, separated, separated_text};

verus! {

/// A field: its name and the debug form of its value.
pub open spec fn named(field: Seq<char>, value: Seq<char>) -> Seq<char> {
    field + ": "@ + value
}

/// A value with fields.
pub open spec fn braced(name: Seq<char>, fields: Seq<Seq<char>>) -> Seq<char> {
    name + " { "@ + separated(fields) + " }"@
}

/// A truth value.
pub open spec fn truth(b: bool) -> Seq<char> {
    if b {
        "true"@
    } else {
        "false"@
    }
}

/// A value that may be missing.
pub open spec fn optional(value: Option<Seq<char>>) -> Seq<char> {
    match value {
        Some(value) => "Some("@ + value + ")"@,
        None => "None"@,
    }
}

/// A number that may be missing.
pub open spec fn optional_number(n: Option<usize>) -> Seq<char> {
    match n {
        Some(n) => optional(Some(decimal(n as nat))),
        None => optional(None),
    }
}

/// A number that may be negative.
pub open spec fn signed_decimal(n: int) -> Seq<char> {
    if n < 0 {
        "-"@ + decimal((-n) as nat)
    } else {
        decimal(n as nat)
    }
}

/// Writes a field.
pub(crate) fn named_text(field: &str, value: &str) -> (r: String)
    ensures
        r@ == named(field@, value@),
{
    joined(field, ": ", value)
}

/// Writes a value with fields.
pub(crate) fn braced_text(name: &str, fields: &Vec<String>) -> (r: String)
    ensures
        r@ == braced(name@, views(fields@)),
{
    let inner = separated_text(fields);
    let mut r = name.to_owned();
    r.append(" { ");
    r.append(inner.as_str());
    r.append(" }");
    r
}

/// Writes a truth value.
pub(crate) fn truth_text(b: bool) -> (r: &'static str)
    ensures
        r@ == truth(b),
{
    if b {
        "true"
    } else {
        "false"
    }
}

/// Writes a value that is there.
pub(crate) fn some_text(value: &str) -> (r: String)
    ensures
        r@ == optional(Some(value@)),
{
    joined("Some(", value, ")")
}

/// Writes a number that may be missing.
pub(crate) fn optional_number_text(n: Option<usize>) -> (r: String)
    ensures
        r@ == optional_number(n),
{
    match n {
        Some(n) => some_text(decimal_text(n as u64).as_str()),
        None => "None".to_owned(),
    }
}

/// Writes a number that may be negative.
pub(crate) fn signed_decimal_text(n: i32) -> (r: String)
    ensures
        r@ == signed_decimal(n as int),
{
    if n < 0 {
        let mut r = "-".to_owned();
        let magnitude: i64 = -(n as i64);
        r.append(decimal_text(magnitude as u64).as_str());
        r
    } else {
        decimal_text(n as u64)
    }
}

/// Texts, each quoted.
pub open spec fn quoted_texts(texts: Seq<Seq<char>>) -> Seq<Seq<char>> {
    Seq::new(texts.len(), |i: int| quoted_text(texts[i]))
}

/// Writes a list of texts.
pub(crate) fn quoted_list_text(texts: &Vec<String>) -> (r: String)
    ensures
        r@ == listed(quoted_texts(views(texts@))),
{
    let ghost wanted = quoted_texts(views(texts@));
    let mut shown: Vec<String> = Vec::new();
    let mut i: usize = 0;
    assert(views(shown@) =~= wanted.take(0));
    while i < texts.len()
        invariant
            i <= texts.len(),
            wanted == quoted_texts(views(texts@)),
            views(shown@) == wanted.take(i as int),
        decreases texts.len() - i,
    {
        let text = quoted(texts[i].as_str());
        proof {
            views_push(shown@, text);
            assert(wanted.take(i + 1) =~= wanted.take(i as int).push(text@));
        }
        shown.push(text);
        i += 1;
    }
    assert(wanted.take(texts.len() as int) =~= wanted);
    assert(views(shown@) == wanted);
    listed_text(&shown)
}

/// The debug form of a kind of table.
pub open spec fn kind_debug(kind: LazyTableKind) -> Seq<char> {
    match kind {
        LazyTableKind::DeltaSource => "DeltaSource"@,
        LazyTableKind::DerivedSql => "DerivedSql"@,
    }
}

/// The debug form of a table handle.
pub open spec fn table_debug(table: LazyTableView) -> Seq<char> {
    braced(
        "LazyTable"@,
        seq![
            named("id"@, "LazyTableId("@ + decimal(table.id as nat) + ")"@),
            named("kind"@, kind_debug(table.kind)),
            named("name"@, quoted_text(table.name)),
        ],
    )
}

/// Writes the debug form of a table handle.
pub(crate) fn table_debug_text(table: &LazyTable) -> (r: String)
    ensures
        r@ == table_debug(table@),
{
    let id = joined("LazyTableId(", decimal_text(table.id()).as_str(), ")");
    let kind = match table.kind() {
        LazyTableKind::DeltaSource => "DeltaSource",
        LazyTableKind::DerivedSql => "DerivedSql",
    };
    let mut fields: Vec<String> = Vec::new();
    fields.push(named_text("id", id.as_str()));
    fields.push(named_text("kind", kind));
    fields.push(named_text("name", quoted(table.name()).as_str()));
    assert(views(fields@) =~= seq![fields@[0]@, fields@[1]@, fields@[2]@]);
    braced_text("LazyTable", &fields)
}

/// The debug form of a column.
pub open spec fn field_debug(field: SchemaFieldView) -> Seq<char> {
    braced(
        "Field"@,
        seq![
            named("name"@, quoted_text(field.name)),
            named("data_type"@, field.type_text),
            named("nullable"@, truth(field.nullable)),
        ],
    )
}

/// The debug forms of some columns.
pub open spec fn field_debugs(fields: Seq<SchemaFieldView>) -> Seq<Seq<char>> {
    Seq::new(fields.len(), |i: int| field_debug(fields[i]))
}

/// The debug form of a schema: its columns. Metadata, which has no order, is not shown.
pub open spec fn schema_debug(schema: Schema) -> Seq<char> {
    braced("Schema"@, seq![named("fields"@, listed(field_debugs(schema_fields(schema))))])
}

/// Writes the debug form of the column at a position.
fn field_debug_text(schema: &Schema, index: usize) -> (r: String)
    requires
        index < schema_fields(*schema).len(),
    ensures
        r@ == field_debug(schema_fields(*schema)[index as int]),
{
    let name = quoted(schema_field_name(schema, index).as_str());
    let type_text = schema_field_type_text(schema, index);
    let mut fields: Vec<String> = Vec::new();
    fields.push(named_text("name", name.as_str()));
    fields.push(named_text("data_type", type_text.as_str()));
    fields.push(named_text("nullable", truth_text(schema_field_nullable(schema, index))));
    assert(views(fields@) =~= seq![fields@[0]@, fields@[1]@, fields@[2]@]);
    braced_text("Field", &fields)
}

/// Writes the debug form of a schema.
pub(crate) fn schema_debug_text(schema: &Schema) -> (r: String)
    ensures
        r@ == schema_debug(*schema),
{
    let ghost wanted = field_debugs(schema_fields(*schema));
    let count: usize = schema_len(schema);
    let mut shown: Vec<String> = Vec::new();
    let mut i: usize = 0;
    assert(views(shown@) =~= wanted.take(0));
    while i < count
        invariant
            i <= count,
            count == schema_fields(*schema).len(),
            wanted == field_debugs(schema_fields(*schema)),
            views(shown@) == wanted.take(i as int),
        decreases count - i,
    {
        let text = field_debug_text(schema, i);
        proof {
            views_push(shown@, text);
            assert(wanted.take(i + 1) =~= wanted.take(i as int).push(text@));
        }
        shown.push(text);
        i += 1;
    }
    assert(wanted.take(count as int) =~= wanted);
    assert(views(shown@) == wanted);
    let mut fields: Vec<String> = Vec::new();
    fields.push(named_text("fields", listed_text(&shown).as_str()));
    assert(views(fields@) =~= seq![fields@[0]@]);
    braced_text("Schema", &fields)
}

/// The debug form of checked protocol versions.
pub open spec fn protocol_debug(protocol: ProtocolView) -> Seq<char> {
    braced(
        "DeltaProtocolReport"@,
        seq![
            named("source_name"@, quoted_text(protocol.source_name)),
            named("min_reader_version"@, signed_decimal(protocol.min_reader_version as int)),
            named("min_writer_version"@, signed_decimal(protocol.min_writer_version as int)),
        ],
    )
}

/// Writes the debug form of checked protocol versions.
pub(crate) fn protocol_debug_text(protocol: &DeltaProtocolReport) -> (r: String)
    ensures
        r@ == protocol_debug(protocol@),
{
    let reader = signed_decimal_text(protocol.min_reader_version);
    let writer = signed_decimal_text(protocol.min_writer_version);
    let mut fields: Vec<String> = Vec::new();
    fields.push(named_text("source_name", quoted(protocol.source_name.as_str()).as_str()));
    fields.push(named_text("min_reader_version", reader.as_str()));
    fields.push(named_text("min_writer_version", writer.as_str()));
    assert(views(fields@) =~= seq![fields@[0]@, fields@[1]@, fields@[2]@]);
    braced_text("DeltaProtocolReport", &fields)
}

/// The debug form of a dependency.
pub open spec fn dependency_debug(dependency: DependencyView) -> Seq<char> {
    match dependency {
        DependencyView::DeltaSource { table_id, name } => braced(
            "DeltaSource"@,
            seq![
                named("table_id"@, decimal(table_id as nat)),
                named("name"@, quoted_text(name)),
            ],
        ),
        DependencyView::RegisteredDerived { table_id, name } => braced(
            "RegisteredDerived"@,
            seq![
                named("table_id"@, decimal(table_id as nat)),
                named("name"@, quoted_text(name)),
            ],
        ),
    }
}

/// Writes the debug form of a dependency.
fn dependency_debug_text(dependency: &DerivedTableDependency) -> (r: String)
    ensures
        r@ == dependency_debug(dependency@),
{
    let (kind, table_id, name): (&str, u64, &str) = match dependency {
        DerivedTableDependency::DeltaSource { table_id, name } => (
            "DeltaSource",
            *table_id,
            name.as_str(),
        ),
        DerivedTableDependency::RegisteredDerived { table_id, name } => (
            "RegisteredDerived",
            *table_id,
            name.as_str(),
        ),
    };
    let mut fields: Vec<String> = Vec::new();
    fields.push(named_text("table_id", decimal_text(table_id).as_str()));
    fields.push(named_text("name", quoted(name).as_str()));
    assert(views(fields@) =~= seq![fields@[0]@, fields@[1]@]);
    braced_text(kind, &fields)
}

/// The debug forms of some dependencies.
pub open spec fn dependency_debugs(dependencies: Seq<DependencyView>) -> Seq<Seq<char>> {
    Seq::new(dependencies.len(), |i: int| dependency_debug(dependencies[i]))
}

/// Writes the debug form of a list of dependencies.
fn dependencies_debug_text(dependencies: &Vec<DerivedTableDependency>) -> (r: String)
    ensures
        r@ == listed(dependency_debugs(views(dependencies@))),
{
    let ghost wanted = dependency_debugs(views(dependencies@));
    let mut shown: Vec<String> = Vec::new();
    let mut i: usize = 0;
    assert(views(shown@) =~= wanted.take(0));
    while i < dependencies.len()
        invariant
            i <= dependencies.len(),
            wanted == dependency_debugs(views(dependencies@)),
            views(shown@) == wanted.take(i as int),
        decreases dependencies.len() - i,
    {
        let text = dependency_debug_text(&dependencies[i]);
        proof {
            views_push(shown@, text);
            assert(wanted.take(i + 1) =~= wanted.take(i as int).push(text@));
        }
        shown.push(text);
        i += 1;
    }
    assert(wanted.take(dependencies.len() as int) =~= wanted);
    assert(views(shown@) == wanted);
    listed_text(&shown)
}

/// The debug form of a lineage.
pub open spec fn lineage_debug(lineage: LineageView) -> Seq<char> {
    match lineage {
        LineageView::Complete { dependencies, external_references, cte_names } => braced(
            "Complete"@,
            seq![
                named("dependencies"@, listed(dependency_debugs(dependencies))),
                named("external_references"@, listed(quoted_texts(external_references))),
                named("cte_names"@, listed(quoted_texts(cte_names))),
            ],
        ),
        LineageView::Incomplete { reason } => braced(
            "Incomplete"@,
            seq![named("reason"@, quoted_text(reason))],
        ),
    }
}

/// Writes the debug form of a lineage.
pub(crate) fn lineage_debug_text(lineage: &DerivedTableLineage) -> (r: String)
    ensures
        r@ == lineage_debug(lineage@),
{
    let mut fields: Vec<String> = Vec::new();
    match lineage {
        DerivedTableLineage::Complete { dependencies, external_references, cte_names } => {
            let reads = dependencies_debug_text(dependencies);
            let external = quoted_list_text(external_references);
            let ctes = quoted_list_text(cte_names);
            fields.push(named_text("dependencies", reads.as_str()));
            fields.push(named_text("external_references", external.as_str()));
            fields.push(named_text("cte_names", ctes.as_str()));
            assert(views(fields@) =~= seq![fields@[0]@, fields@[1]@, fields@[2]@]);
            braced_text("Complete", &fields)
        },
        DerivedTableLineage::Incomplete { reason } => {
            fields.push(named_text("reason", quoted(reason.as_str()).as_str()));
            assert(views(fields@) =~= seq![fields@[0]@]);
            braced_text("Incomplete", &fields)
        },
    }
}

} // verus!
